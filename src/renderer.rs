use vstd::prelude::*;

use crate::rect::WglRect;
use crate::texture::WglTexture;
use crate::vertex::{
    frac, packed, quad_index_seq, quad_indices, quad_seq, quad_with_uv, unit_uv, AsF32Slice, Frac,
    UvRect, Vertex2D,
};

verus! {

/// Which GPU object failed to be created.
#[derive(Clone, Copy, Debug, PartialEq, Eq, Structural)]
pub enum ResourceKind {
    Texture,
    Framebuffer,
    Buffer,
    Shader,
    Program,
}

/// Everything that can go wrong while setting up or driving the renderer.
#[derive(Clone, Debug, PartialEq, Eq)]
pub enum RenderError {
    /// The drawing surface or its GPU context could not be obtained.
    ContextAcquisition(String),
    /// A shader failed to compile; the driver's diagnostic, if it gave one.
    ShaderCompile(Option<String>),
    /// The program failed to link; the driver's diagnostic, if it gave one.
    ProgramLink(Option<String>),
    /// A GPU object could not be allocated.
    Resource(ResourceKind),
    /// An image could not be fetched or decoded; the loader's reason.
    TextureLoad(String),
    /// A render target's framebuffer is not complete.
    FramebufferIncomplete,
}

/// What the host observed when it attached a texture to a new framebuffer.
#[derive(Clone, Copy, Debug, PartialEq, Eq, Structural)]
pub enum Attachment {
    /// No framebuffer could be created.
    Unavailable,
    /// The framebuffer was created but reports itself incomplete.
    Incomplete,
    /// The framebuffer, under the given handle, is complete.
    Complete(u32),
}

/// Where output goes: the visible surface or the texture with a handle.
#[derive(Clone, Copy, Debug, PartialEq, Eq, Structural)]
pub enum Surface {
    Screen,
    Texture(u32),
}

/// A color with 8 bits per channel; 255 stands for full intensity.
#[derive(Clone, Copy, Debug, PartialEq, Eq, Structural)]
pub struct Rgba {
    pub r: u8,
    pub g: u8,
    pub b: u8,
    pub a: u8,
}

/// An orthographic projection box in pixels.
#[derive(Clone, Copy, Debug, PartialEq, Eq, Structural)]
pub struct Ortho {
    pub left: u32,
    pub right: u32,
    pub bottom: u32,
    pub top: u32,
    pub near: u32,
    pub far: u32,
}

/// Blend factors of the fixed blend state.
#[derive(Clone, Copy, Debug, PartialEq, Eq, Structural)]
pub enum BlendFactor {
    SrcAlpha,
    OneMinusSrcAlpha,
}

/// The fixed pipeline configuration that the context is set up with.
#[derive(Clone, Copy, Debug, PartialEq, Eq, Structural)]
pub struct Pipeline {
    /// Images are flipped vertically as they are uploaded.
    pub flip_y_on_upload: bool,
    pub blend_src: BlendFactor,
    pub blend_dst: BlendFactor,
}

/// A single indexed draw of the quad, with everything the GPU needs for it.
#[derive(Clone, Copy, Debug, PartialEq, Eq, Structural)]
pub struct DrawCall {
    /// The surface that the draw lands on.
    pub target: Surface,
    /// The texture bound during the draw.
    pub texture: u32,
    /// The destination rectangle, in pixels.
    pub dest: WglRect,
    pub texture_w: i32,
    pub texture_h: i32,
    pub projection: Ortho,
    /// The number of indices drawn.
    pub index_count: u32,
}

/// A command that needs no geometry.
#[derive(Clone, Copy, Debug, PartialEq, Eq, Structural)]
pub enum FrameCommand {
    /// Fill the whole of a surface with one color.
    Clear { target: Surface, color: Rgba },
    /// Hand every pending command to the GPU.
    Flush,
}

/// The renderer as its contracts see it.
pub struct RendererState {
    pub resolution: (u32, u32),
    /// The texture that output currently goes to; `None` is the screen.
    pub render_target: Option<WglTexture>,
    /// The framebuffer bound for that texture; `None` is the screen's.
    pub framebuffer: Option<u32>,
    /// The quad mesh's four vertices.
    pub quad: Seq<Vertex2D>,
    pub indices: Seq<u16>,
}

impl RendererState {
    /// The quad keeps its fixed corners and index list; only its texture
    /// coordinates change.
    pub open spec fn wf(&self) -> bool {
        &&& exists|uv: UvRect| self.quad == quad_seq(uv)
        &&& self.indices == quad_index_seq()
        &&& self.render_target is Some <==> self.framebuffer is Some
    }

    pub open spec fn surface(&self) -> Surface {
        surface_of(self.render_target)
    }
}

pub open spec fn surface_of(t: Option<WglTexture>) -> Surface {
    match t {
        Some(t) => Surface::Texture(t.texture_data),
        None => Surface::Screen,
    }
}

/// The projection for a renderer of the given resolution: x from 0 to the
/// width, y downwards from 0 to the height, depth from 0 to 100.
pub open spec fn ortho_for(resolution: (u32, u32)) -> Ortho {
    Ortho { left: 0, right: resolution.0, bottom: resolution.1, top: 0, near: 0, far: 100 }
}

/// The draw guard: `x / w <= 1` and `y / h <= 1`, for a texture with
/// positive sides.
pub open spec fn uv_in_range(texture: WglTexture, src: WglRect) -> bool {
    src.x <= texture.w && src.y <= texture.h
}

/// The texture coordinates of a draw: left `x / w`, top `y / h`, right
/// `src.w / w` and bottom `src.h / h`. Right and bottom take the source
/// rectangle's width and height as they are, not added to its origin.
pub open spec fn uv_rect(texture: WglTexture, src: WglRect) -> UvRect {
    UvRect {
        left: frac(src.x, texture.w),
        top: frac(src.y, texture.h),
        right: frac(src.w, texture.w),
        bottom: frac(src.h, texture.h),
    }
}

/// What `draw_texture` does: nothing when the guard fails; otherwise the quad
/// takes the draw's texture coordinates and one draw call comes out.
pub open spec fn draw_step(s: RendererState, texture: WglTexture, src: WglRect, dest: WglRect) -> (
    RendererState,
    Option<DrawCall>,
) {
    if !uv_in_range(texture, src) {
        (s, None)
    } else {
        (
            RendererState { quad: quad_seq(uv_rect(texture, src)), ..s },
            Some(
                DrawCall {
                    target: s.surface(),
                    texture: texture.texture_data,
                    dest,
                    texture_w: texture.w,
                    texture_h: texture.h,
                    projection: ortho_for(s.resolution),
                    index_count: 6,
                },
            ),
        )
    }
}

/// What `set_render_target` does. The screen can always be selected. A
/// texture is selected only when its framebuffer was created and is
/// complete; a texture with a side of zero or less never is. On failure the
/// state is left as it was.
pub open spec fn set_target_step(s: RendererState, target: Option<WglTexture>, attachment: Attachment) -> (
    RendererState,
    Result<(), RenderError>,
) {
    match target {
        None => (RendererState { render_target: None, framebuffer: None, ..s }, Ok(())),
        Some(t) => match attachment {
            Attachment::Unavailable => (s, Err(RenderError::Resource(ResourceKind::Framebuffer))),
            Attachment::Incomplete => (s, Err(RenderError::FramebufferIncomplete)),
            Attachment::Complete(fb) => if !t.is_valid() {
                (s, Err(RenderError::FramebufferIncomplete))
            } else {
                (RendererState { render_target: Some(t), framebuffer: Some(fb), ..s }, Ok(()))
            },
        },
    }
}

/// What `clear_render_target` asks for: the current surface, filled with `color`.
pub open spec fn clear_step(s: RendererState, color: Rgba) -> FrameCommand {
    FrameCommand::Clear { target: s.surface(), color }
}

/// What `create_render_target` returns for a requested size and the handle
/// of the texture the host allocated for it, if any.
pub open spec fn create_target_step(width: i32, height: i32, texture: Option<u32>) -> Result<
    WglTexture,
    RenderError,
> {
    match texture {
        None => Err(RenderError::Resource(ResourceKind::Texture)),
        Some(id) => if width < 0 || height < 0 {
            Err(RenderError::Resource(ResourceKind::Texture))
        } else {
            Ok(WglTexture { texture_data: id, w: width, h: height })
        },
    }
}

/// Draws textured quads onto the screen or onto render targets. The host
/// owns the GPU context; the renderer decides what each operation does and
/// hands back the commands that carry it out.
pub struct WglRenderer2d {
    buffer: [Vertex2D; 4],
    indices: [u16; 6],
    framebuffer: Option<u32>,
    render_target: Option<WglTexture>,
    resolution: (u32, u32),
}

impl View for WglRenderer2d {
    type V = RendererState;

    closed spec fn view(&self) -> RendererState {
        RendererState {
            resolution: self.resolution,
            render_target: self.render_target,
            framebuffer: self.framebuffer,
            quad: self.buffer@,
            indices: self.indices@,
        }
    }
}

impl WglRenderer2d {
    /// A renderer for a surface of the given resolution, drawing to the
    /// screen, with the quad's texture coordinates at its unit corners.
    pub fn new(resolution: (u32, u32)) -> (r: Self)
        ensures
            r@.wf(),
            r@.resolution == resolution,
            r@.render_target is None,
            r@.framebuffer is None,
            r@.quad == quad_seq(unit_uv()),
    {
        let zero = Frac { num: 0, den: 1 };
        let one = Frac { num: 1, den: 1 };
        let buffer = quad_with_uv(UvRect { left: zero, top: one, right: one, bottom: zero });
        WglRenderer2d { buffer, indices: quad_indices(), framebuffer: None, render_target: None, resolution }
    }

    /// The blend state and upload convention that the context is set up with:
    /// source-over alpha blending, images flipped vertically on upload.
    pub fn pipeline(&self) -> (r: Pipeline)
        ensures
            r == (Pipeline {
                flip_y_on_upload: true,
                blend_src: BlendFactor::SrcAlpha,
                blend_dst: BlendFactor::OneMinusSrcAlpha,
            }),
    {
        Pipeline {
            flip_y_on_upload: true,
            blend_src: BlendFactor::SrcAlpha,
            blend_dst: BlendFactor::OneMinusSrcAlpha,
        }
    }

    /// Decides the outcome of compiling a shader from what the driver
    /// reported: whether the shader object was created, its compile status
    /// (absent when it is not a boolean) and its info log.
    pub fn compile_shader(created: bool, compile_status: Option<bool>, info_log: Option<String>) -> (r:
        Result<(), RenderError>)
        ensures
            !created ==> r == Err::<(), RenderError>(RenderError::Resource(ResourceKind::Shader)),
            created && compile_status == Some(true) ==> r is Ok,
            created && compile_status != Some(true) ==> r == Err::<(), RenderError>(
                RenderError::ShaderCompile(info_log),
            ),
    {
        if !created {
            Err(RenderError::Resource(ResourceKind::Shader))
        } else if compile_status == Some(true) {
            Ok(())
        } else {
            Err(RenderError::ShaderCompile(info_log))
        }
    }

    /// Decides the outcome of linking the program, as `compile_shader` does
    /// for a shader.
    pub fn link_program(created: bool, link_status: Option<bool>, info_log: Option<String>) -> (r:
        Result<(), RenderError>)
        ensures
            !created ==> r == Err::<(), RenderError>(RenderError::Resource(ResourceKind::Program)),
            created && link_status == Some(true) ==> r is Ok,
            created && link_status != Some(true) ==> r == Err::<(), RenderError>(
                RenderError::ProgramLink(info_log),
            ),
    {
        if !created {
            Err(RenderError::Resource(ResourceKind::Program))
        } else if link_status == Some(true) {
            Ok(())
        } else {
            Err(RenderError::ProgramLink(info_log))
        }
    }

    /// Ends a frame: every pending command goes to the GPU. It cannot fail and
    /// needs no prior draw.
    pub fn present(&self) -> (r: FrameCommand)
        ensures
            r == FrameCommand::Flush,
    {
        FrameCommand::Flush
    }

    /// Fills the whole of the current surface with `color`.
    pub fn clear_render_target(&self, color: Rgba) -> (r: FrameCommand)
        ensures
            r == clear_step(self@, color),
            r == (FrameCommand::Clear { target: self@.surface(), color }),
    {
        let target = match self.render_target {
            Some(t) => Surface::Texture(t.texture_data),
            None => Surface::Screen,
        };
        FrameCommand::Clear { target, color }
    }

    /// Draws `src_rect` of `texture` into `dest_rect` of the current surface.
    /// When `x / w > 1` or `y / h > 1` nothing is drawn and nothing changes.
    /// Otherwise the quad's texture coordinates become `{x/w, y/h}`,
    /// `{x/w, h'/h}`, `{w'/w, y/h}`, `{w'/w, h'/h}` (with `w'`, `h'` the
    /// source rectangle's width and height) and exactly one draw call comes
    /// back. The projection spans the construction-time resolution, whatever
    /// surface is bound.
    pub fn draw_texture(&mut self, texture: &WglTexture, src_rect: &WglRect, dest_rect: &WglRect) -> (r:
        Option<DrawCall>)
        requires
            old(self)@.wf(),
            texture.is_valid(),
        ensures
            final(self)@.wf(),
            (final(self)@, r) == draw_step(old(self)@, *texture, *src_rect, *dest_rect),
            r is Some <==> (src_rect.x <= texture.w && src_rect.y <= texture.h),
            r is None ==> final(self)@ == old(self)@,
            r is Some ==> final(self)@.quad == quad_seq(uv_rect(*texture, *src_rect)),
    {
        if src_rect.x > texture.w {
            return None;
        }
        if src_rect.y > texture.h {
            return None;
        }
        let uv = UvRect {
            left: Frac { num: src_rect.x, den: texture.w },
            top: Frac { num: src_rect.y, den: texture.h },
            right: Frac { num: src_rect.w, den: texture.w },
            bottom: Frac { num: src_rect.h, den: texture.h },
        };
        self.buffer = quad_with_uv(uv);
        let target = match self.render_target {
            Some(t) => Surface::Texture(t.texture_data),
            None => Surface::Screen,
        };
        let projection = Ortho {
            left: 0,
            right: self.resolution.0,
            bottom: self.resolution.1,
            top: 0,
            near: 0,
            far: 100,
        };
        Some(
            DrawCall {
                target,
                texture: texture.texture_data,
                dest: *dest_rect,
                texture_w: texture.w,
                texture_h: texture.h,
                projection,
                index_count: 6,
            },
        )
    }

    /// Turns a texture the host allocated into a render target of the
    /// requested size. It fails when the host could not allocate the texture,
    /// or when a side is negative, which no allocation can hold.
    pub fn create_render_target(&self, width: i32, height: i32, texture: Option<u32>) -> (r: Result<
        WglTexture,
        RenderError,
    >)
        ensures
            r == create_target_step(width, height, texture),
            r is Ok <==> (texture is Some && width >= 0 && height >= 0),
            r is Ok ==> r->Ok_0 == (WglTexture { texture_data: texture->Some_0, w: width, h: height }),
            r is Err ==> r->Err_0 == RenderError::Resource(ResourceKind::Texture),
    {
        match texture {
            None => Err(RenderError::Resource(ResourceKind::Texture)),
            Some(id) => if width < 0 || height < 0 {
                Err(RenderError::Resource(ResourceKind::Texture))
            } else {
                Ok(WglTexture { texture_data: id, w: width, h: height })
            },
        }
    }

    /// Selects where output goes. `None` selects the screen and always
    /// succeeds. `Some(t)` selects `t` when the host created a framebuffer
    /// for it that is complete; a texture with a side of zero or less never
    /// completes one. On failure the previous binding stays: the host binds
    /// `framebuffer()` again.
    pub fn set_render_target(&mut self, render_target: Option<WglTexture>, attachment: Attachment) -> (r:
        Result<(), RenderError>)
        requires
            old(self)@.wf(),
        ensures
            final(self)@.wf(),
            (final(self)@, r) == set_target_step(old(self)@, render_target, attachment),
            r is Err ==> final(self)@ == old(self)@,
            render_target is None ==> r is Ok && final(self)@.surface() == Surface::Screen,
            r is Ok ==> final(self)@.render_target == render_target,
            render_target is Some && (attachment is Incomplete || (attachment is Complete
                && !render_target->Some_0.is_valid())) ==> r == Err::<(), RenderError>(
                RenderError::FramebufferIncomplete,
            ),
    {
        match render_target {
            None => {
                self.render_target = None;
                self.framebuffer = None;
                Ok(())
            },
            Some(t) => match attachment {
                Attachment::Unavailable => Err(RenderError::Resource(ResourceKind::Framebuffer)),
                Attachment::Incomplete => Err(RenderError::FramebufferIncomplete),
                Attachment::Complete(fb) => if t.w <= 0 || t.h <= 0 {
                    Err(RenderError::FramebufferIncomplete)
                } else {
                    self.render_target = Some(t);
                    self.framebuffer = Some(fb);
                    Ok(())
                },
            },
        }
    }

    /// Finishes loading a texture once the image decode has resolved: the
    /// host created texture `texture` beforehand, and `decoded` is the
    /// decoded image's width and height, or the loader's reason for failing.
    /// The texture has the image's native size; an image with a side of zero
    /// or past `i32::MAX` cannot be held by a texture.
    pub fn load_texture(&self, texture: u32, decoded: Result<(u32, u32), String>) -> (r: Result<
        WglTexture,
        RenderError,
    >)
        ensures
            decoded is Err ==> r == Err::<WglTexture, RenderError>(
                RenderError::TextureLoad(decoded->Err_0),
            ),
            decoded is Ok ==> {
                let (w, h) = decoded->Ok_0;
                if 0 < w <= i32::MAX && 0 < h <= i32::MAX {
                    r == Ok::<WglTexture, RenderError>(
                        WglTexture { texture_data: texture, w: w as i32, h: h as i32 },
                    )
                } else {
                    r == Err::<WglTexture, RenderError>(RenderError::Resource(ResourceKind::Texture))
                }
            },
            r is Ok ==> r->Ok_0.is_valid(),
    {
        match decoded {
            Err(reason) => Err(RenderError::TextureLoad(reason)),
            Ok((w, h)) => {
                if 0 < w && w <= 2147483647 && 0 < h && h <= 2147483647 {
                    Ok(WglTexture { texture_data: texture, w: w as i32, h: h as i32 })
                } else {
                    Err(RenderError::Resource(ResourceKind::Texture))
                }
            },
        }
    }

    /// The quad's vertices as the flat component list that the vertex buffer
    /// holds: position x, position y, u, v for each corner in order.
    pub fn vertex_data(&self) -> (r: Vec<Frac>)
        ensures
            r@ == packed(self@.quad),
    {
        let vs: &[Vertex2D] = vstd::array::array_as_slice(&self.buffer);
        vs.as_f32_slice()
    }

    /// The quad's index list.
    pub fn indices(&self) -> (r: [u16; 6])
        requires
            self@.wf(),
        ensures
            r@ == quad_index_seq(),
    {
        self.indices
    }

    /// The framebuffer to bind for the current surface; `None` is the screen's.
    pub fn framebuffer(&self) -> (r: Option<u32>)
        ensures
            r == self@.framebuffer,
    {
        self.framebuffer
    }

    /// The texture that output currently goes to; `None` is the screen.
    pub fn render_target(&self) -> (r: Option<WglTexture>)
        ensures
            r == self@.render_target,
    {
        self.render_target
    }

    /// The resolution fixed at construction.
    pub fn resolution(&self) -> (r: (u32, u32))
        ensures
            r == self@.resolution,
    {
        self.resolution
    }
}

} // verus!
