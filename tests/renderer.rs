use wgl2d::rect::WglRect;
use wgl2d::renderer::{
    Attachment, BlendFactor, DrawCall, FrameCommand, Ortho, RenderError, ResourceKind, Rgba,
    Surface, WglRenderer2d,
};
use wgl2d::texture::{Filter, WglTexture};
use wgl2d::vertex::Frac;

fn f(num: i32, den: i32) -> Frac {
    Frac { num, den }
}

fn rgba(r: u8, g: u8, b: u8, a: u8) -> Rgba {
    Rgba { r, g, b, a }
}

fn uvs(renderer: &WglRenderer2d) -> Vec<(Frac, Frac)> {
    let data = renderer.vertex_data();
    assert_eq!(data.len(), 16);
    (0..4).map(|i| (data[4 * i + 2], data[4 * i + 3])).collect()
}

fn ortho(w: u32, h: u32) -> Ortho {
    Ortho { left: 0, right: w, bottom: h, top: 0, near: 0, far: 100 }
}

#[test]
fn new_renderer_starts_on_screen() {
    let r = WglRenderer2d::new((512, 256));
    assert_eq!(r.resolution(), (512, 256));
    assert_eq!(r.render_target(), None);
    assert_eq!(r.framebuffer(), None);
    assert_eq!(r.indices(), [0, 1, 2, 2, 1, 3]);
    let data = r.vertex_data();
    let expected = vec![
        f(0, 1), f(1, 1), f(0, 1), f(1, 1),
        f(0, 1), f(0, 1), f(0, 1), f(0, 1),
        f(1, 1), f(1, 1), f(1, 1), f(1, 1),
        f(1, 1), f(0, 1), f(1, 1), f(0, 1),
    ];
    assert_eq!(data, expected);
}

#[test]
fn pipeline_uses_source_over_blending() {
    let p = WglRenderer2d::new((8, 8)).pipeline();
    assert!(p.flip_y_on_upload);
    assert_eq!(p.blend_src, BlendFactor::SrcAlpha);
    assert_eq!(p.blend_dst, BlendFactor::OneMinusSrcAlpha);
}

#[test]
fn sampling_of_targets_and_images() {
    let t = WglTexture::render_target_sampling();
    assert_eq!((t.min_filter, t.mag_filter, t.clamp_to_edge), (Filter::Nearest, Filter::Nearest, false));
    let i = WglTexture::image_sampling();
    assert_eq!((i.min_filter, i.mag_filter, i.clamp_to_edge), (Filter::Linear, Filter::Linear, true));
}

#[test]
fn draw_in_range_issues_one_draw() {
    let mut r = WglRenderer2d::new((800, 600));
    let tex = WglTexture { texture_data: 7, w: 64, h: 32 };
    let call = r.draw_texture(&tex, &WglRect::new(16, 8, 48, 24), &WglRect::new(5, 6, 70, 80));
    assert_eq!(
        call,
        Some(DrawCall {
            target: Surface::Screen,
            texture: 7,
            dest: WglRect::new(5, 6, 70, 80),
            texture_w: 64,
            texture_h: 32,
            projection: ortho(800, 600),
            index_count: 6,
        })
    );
}

#[test]
fn draw_at_the_edge_still_draws() {
    let mut r = WglRenderer2d::new((800, 600));
    let tex = WglTexture { texture_data: 1, w: 64, h: 32 };
    assert!(r.draw_texture(&tex, &WglRect::new(64, 32, 1, 1), &WglRect::new(0, 0, 1, 1)).is_some());
}

#[test]
fn draw_past_the_right_edge_is_skipped() {
    let mut r = WglRenderer2d::new((800, 600));
    let tex = WglTexture { texture_data: 1, w: 64, h: 32 };
    let before = r.vertex_data();
    assert_eq!(r.draw_texture(&tex, &WglRect::new(65, 0, 10, 10), &WglRect::new(0, 0, 10, 10)), None);
    assert_eq!(r.vertex_data(), before);
}

#[test]
fn draw_past_the_bottom_edge_is_skipped() {
    let mut r = WglRenderer2d::new((800, 600));
    let tex = WglTexture { texture_data: 1, w: 64, h: 32 };
    assert_eq!(r.draw_texture(&tex, &WglRect::new(0, 33, 10, 10), &WglRect::new(0, 0, 10, 10)), None);
}

#[test]
fn uv_corners_use_width_and_height_directly() {
    let mut r = WglRenderer2d::new((800, 600));
    let tex = WglTexture { texture_data: 1, w: 64, h: 32 };
    r.draw_texture(&tex, &WglRect::new(16, 8, 20, 10), &WglRect::new(0, 0, 20, 10)).unwrap();
    assert_eq!(
        uvs(&r),
        vec![(f(16, 64), f(8, 32)), (f(16, 64), f(10, 32)), (f(20, 64), f(8, 32)), (f(20, 64), f(10, 32))]
    );
    let data = r.vertex_data();
    assert_eq!((data[0], data[1]), (f(0, 1), f(1, 1)));
    assert_eq!((data[12], data[13]), (f(1, 1), f(0, 1)));
}

#[test]
fn projection_ignores_the_bound_target_size() {
    let mut r = WglRenderer2d::new((512, 384));
    let rt = r.create_render_target(64, 64, Some(2)).unwrap();
    r.set_render_target(Some(rt), Attachment::Complete(9)).unwrap();
    let tex = WglTexture { texture_data: 1, w: 8, h: 8 };
    let call = r.draw_texture(&tex, &WglRect::new(0, 0, 8, 8), &WglRect::new(0, 0, 8, 8)).unwrap();
    assert_eq!(call.target, Surface::Texture(2));
    assert_eq!(call.projection, ortho(512, 384));
}

#[test]
fn create_render_target_results() {
    let r = WglRenderer2d::new((10, 10));
    assert_eq!(r.create_render_target(128, 64, Some(4)), Ok(WglTexture { texture_data: 4, w: 128, h: 64 }));
    assert_eq!(r.create_render_target(0, 0, Some(5)), Ok(WglTexture { texture_data: 5, w: 0, h: 0 }));
    assert_eq!(r.create_render_target(128, 64, None), Err(RenderError::Resource(ResourceKind::Texture)));
    assert_eq!(r.create_render_target(-1, 64, Some(4)), Err(RenderError::Resource(ResourceKind::Texture)));
}

#[test]
fn set_render_target_binds_and_unbinds() {
    let mut r = WglRenderer2d::new((10, 10));
    let rt = WglTexture { texture_data: 3, w: 16, h: 16 };
    assert_eq!(r.set_render_target(Some(rt), Attachment::Complete(11)), Ok(()));
    assert_eq!(r.render_target(), Some(rt));
    assert_eq!(r.framebuffer(), Some(11));
    assert_eq!(r.set_render_target(None, Attachment::Unavailable), Ok(()));
    assert_eq!(r.render_target(), None);
    assert_eq!(r.framebuffer(), None);
}

#[test]
fn zero_sized_target_is_incomplete_and_keeps_binding() {
    let mut r = WglRenderer2d::new((10, 10));
    let good = WglTexture { texture_data: 3, w: 16, h: 16 };
    r.set_render_target(Some(good), Attachment::Complete(11)).unwrap();
    let empty = r.create_render_target(0, 0, Some(4)).unwrap();
    assert_eq!(r.set_render_target(Some(empty), Attachment::Complete(12)), Err(RenderError::FramebufferIncomplete));
    assert_eq!(r.render_target(), Some(good));
    assert_eq!(r.framebuffer(), Some(11));
}

#[test]
fn incomplete_framebuffer_keeps_binding() {
    let mut r = WglRenderer2d::new((10, 10));
    let rt = WglTexture { texture_data: 3, w: 16, h: 16 };
    assert_eq!(r.set_render_target(Some(rt), Attachment::Incomplete), Err(RenderError::FramebufferIncomplete));
    assert_eq!(r.render_target(), None);
    assert_eq!(r.framebuffer(), None);
}

#[test]
fn missing_framebuffer_is_a_resource_error() {
    let mut r = WglRenderer2d::new((10, 10));
    let rt = WglTexture { texture_data: 3, w: 16, h: 16 };
    assert_eq!(
        r.set_render_target(Some(rt), Attachment::Unavailable),
        Err(RenderError::Resource(ResourceKind::Framebuffer))
    );
    assert_eq!(r.render_target(), None);
}

#[test]
fn clear_goes_to_the_current_surface() {
    let mut r = WglRenderer2d::new((10, 10));
    let c = rgba(1, 2, 3, 4);
    assert_eq!(r.clear_render_target(c), FrameCommand::Clear { target: Surface::Screen, color: c });
    let rt = WglTexture { texture_data: 6, w: 4, h: 4 };
    r.set_render_target(Some(rt), Attachment::Complete(1)).unwrap();
    assert_eq!(r.clear_render_target(c), FrameCommand::Clear { target: Surface::Texture(6), color: c });
}

#[test]
fn present_on_a_fresh_renderer() {
    let r = WglRenderer2d::new((10, 10));
    assert_eq!(r.present(), FrameCommand::Flush);
}

#[test]
fn load_texture_of_a_valid_image() {
    let r = WglRenderer2d::new((10, 10));
    assert_eq!(r.load_texture(8, Ok((64, 64))), Ok(WglTexture { texture_data: 8, w: 64, h: 64 }));
}

#[test]
fn load_texture_of_a_missing_image() {
    let r = WglRenderer2d::new((10, 10));
    assert_eq!(
        r.load_texture(8, Err(String::from("not found: nothing.png"))),
        Err(RenderError::TextureLoad(String::from("not found: nothing.png")))
    );
}

#[test]
fn load_texture_of_an_unusable_size() {
    let r = WglRenderer2d::new((10, 10));
    assert_eq!(r.load_texture(8, Ok((0, 64))), Err(RenderError::Resource(ResourceKind::Texture)));
    assert_eq!(r.load_texture(8, Ok((64, 1 << 31))), Err(RenderError::Resource(ResourceKind::Texture)));
    assert_eq!(
        r.load_texture(8, Ok((2147483647, 1))),
        Ok(WglTexture { texture_data: 8, w: 2147483647, h: 1 })
    );
}

#[test]
fn shader_and_program_outcomes() {
    assert_eq!(WglRenderer2d::compile_shader(true, Some(true), None), Ok(()));
    assert_eq!(
        WglRenderer2d::compile_shader(true, Some(false), Some(String::from("0:1: syntax error"))),
        Err(RenderError::ShaderCompile(Some(String::from("0:1: syntax error"))))
    );
    assert_eq!(WglRenderer2d::compile_shader(true, None, None), Err(RenderError::ShaderCompile(None)));
    assert_eq!(
        WglRenderer2d::compile_shader(false, Some(true), None),
        Err(RenderError::Resource(ResourceKind::Shader))
    );
    assert_eq!(WglRenderer2d::link_program(true, Some(true), None), Ok(()));
    assert_eq!(
        WglRenderer2d::link_program(true, Some(false), Some(String::from("missing main"))),
        Err(RenderError::ProgramLink(Some(String::from("missing main"))))
    );
    assert_eq!(
        WglRenderer2d::link_program(false, None, None),
        Err(RenderError::Resource(ResourceKind::Program))
    );
}

#[test]
fn render_to_texture_then_blit() {
    let mut r = WglRenderer2d::new((256, 256));
    let rt = r.create_render_target(128, 96, Some(1)).unwrap();
    r.set_render_target(Some(rt), Attachment::Complete(2)).unwrap();
    let c = rgba(200, 10, 20, 255);
    assert_eq!(r.clear_render_target(c), FrameCommand::Clear { target: Surface::Texture(1), color: c });
    r.set_render_target(None, Attachment::Unavailable).unwrap();
    let full = WglRect::new(0, 0, 128, 96);
    let call = r.draw_texture(&rt, &full, &full).unwrap();
    assert_eq!(call.target, Surface::Screen);
    assert_eq!(call.texture, 1);
    assert_eq!(call.dest, full);
    assert_eq!(
        uvs(&r),
        vec![(f(0, 128), f(0, 96)), (f(0, 128), f(96, 96)), (f(128, 128), f(0, 96)), (f(128, 128), f(96, 96))]
    );
}

#[test]
fn end_to_end_composite() {
    let mut r = WglRenderer2d::new((512, 512));
    let rt = r.create_render_target(512, 512, Some(1)).unwrap();
    let sprite = r.load_texture(2, Ok((64, 64))).unwrap();
    assert_eq!((sprite.w, sprite.h), (64, 64));
    r.set_render_target(Some(rt), Attachment::Complete(3)).unwrap();
    let black = rgba(0, 0, 0, 255);
    assert_eq!(r.clear_render_target(black), FrameCommand::Clear { target: Surface::Texture(1), color: black });
    let first = r
        .draw_texture(&sprite, &WglRect::new(0, 0, 64, 64), &WglRect::new(100, 120, 64, 64))
        .unwrap();
    assert_eq!((first.target, first.texture, first.dest), (Surface::Texture(1), 2, WglRect::new(100, 120, 64, 64)));
    r.set_render_target(None, Attachment::Unavailable).unwrap();
    let green = rgba(0, 255, 0, 255);
    assert_eq!(r.clear_render_target(green), FrameCommand::Clear { target: Surface::Screen, color: green });
    let blit = r
        .draw_texture(&rt, &WglRect::new(0, 0, 512, 512), &WglRect::new(0, 0, 512, 512))
        .unwrap();
    assert_eq!((blit.target, blit.texture, blit.dest), (Surface::Screen, 1, WglRect::new(0, 0, 512, 512)));
    let direct = r
        .draw_texture(&sprite, &WglRect::new(0, 0, 64, 64), &WglRect::new(20, 10, 64, 64))
        .unwrap();
    assert_eq!((direct.target, direct.texture, direct.dest), (Surface::Screen, 2, WglRect::new(20, 10, 64, 64)));
    assert_eq!(direct.projection, ortho(512, 512));
    assert_eq!(r.present(), FrameCommand::Flush);
}
