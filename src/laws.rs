use vstd::prelude::*;

use crate::rect::WglRect;
use crate::renderer::{
    clear_step, create_target_step, draw_step, ortho_for, set_target_step, Attachment, DrawCall,
    FrameCommand, RendererState, Rgba, Surface,
};
use crate::vertex::{frac, quad_seq, UvRect};

verus! {

/// Render to a texture, then composite it onto the screen. A render target of
/// `w` by `h` is created, selected and cleared with `color`; the screen is
/// selected again and the whole target is drawn onto the rectangle of the
/// same size at the origin. The clear lands on the target's texture, and the
/// draw is one call on the screen that samples that texture over its whole
/// extent, from 0 to `w / w` and `h / h`, into that rectangle.
pub proof fn lemma_render_to_texture_then_blit(
    s: RendererState,
    w: i32,
    h: i32,
    texture: u32,
    framebuffer: u32,
    screen_attachment: Attachment,
    color: Rgba,
)
    requires
        s.wf(),
        w > 0,
        h > 0,
    ensures
        ({
            let created = create_target_step(w, h, Some(texture));
            let rt = created->Ok_0;
            let full = WglRect { x: 0, y: 0, w, h };
            let (s1, r1) = set_target_step(s, Some(rt), Attachment::Complete(framebuffer));
            let cleared = clear_step(s1, color);
            let (s2, r2) = set_target_step(s1, None, screen_attachment);
            let (s3, drawn) = draw_step(s2, rt, full, full);
            &&& created is Ok
            &&& r1 is Ok
            &&& cleared == (FrameCommand::Clear { target: Surface::Texture(texture), color })
            &&& r2 is Ok
            &&& drawn == Some(
                DrawCall {
                    target: Surface::Screen,
                    texture,
                    dest: full,
                    texture_w: w,
                    texture_h: h,
                    projection: ortho_for(s.resolution),
                    index_count: 6,
                },
            )
            &&& s3.quad == quad_seq(
                UvRect { left: frac(0, w), top: frac(0, h), right: frac(w, w), bottom: frac(h, h) },
            )
            &&& s3.surface() == Surface::Screen
        }),
{
}

} // verus!
