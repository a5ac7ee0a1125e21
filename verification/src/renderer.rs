//! The drawing backend's primitive dispatch. The GUI's layout pass hands
//! over a sequence of primitives; rendering walks them and records draw
//! commands into a command buffer. No primitive kind records any command:
//! the dispatch is the whole contract.

use vstd::prelude::*;

use crate::state::ImageId;

verus! {

/// A color as four 8-bit channels.
#[derive(Clone, Copy, PartialEq, Eq, Structural, Debug)]
pub struct Rgba8 {
    pub r: u8,
    pub g: u8,
    pub b: u8,
    pub a: u8,
}

/// An axis-aligned rectangle in logical coordinates, in tenths of a unit.
#[derive(Clone, Copy, PartialEq, Eq, Structural, Debug)]
pub struct Rect {
    pub x: i64,
    pub y: i64,
    pub w: i64,
    pub h: i64,
}

/// A drawable unit emitted by the layout pass.
#[derive(Clone, Copy, PartialEq, Eq, Debug)]
pub enum PrimitiveKind {
    /// A flat-color rectangle.
    Rectangle { color: Rgba8 },
    /// A mesh of triangles in a single color.
    TrianglesSingleColor { color: Rgba8, triangle_count: u64 },
    /// A mesh of triangles with a color per vertex.
    TrianglesMultiColor { triangle_count: u64 },
    /// An image blit, optionally tinted and cropped to a source rectangle.
    Image { image_id: ImageId, color: Option<Rgba8>, source_rect: Option<Rect> },
    /// A run of glyphs from one font.
    Text { color: Rgba8, glyph_count: u64, font_id: u64 },
    /// A widget's custom primitive, which this backend does not draw.
    Other,
}

/// One primitive to draw.
#[derive(Clone, Copy, PartialEq, Eq, Debug)]
pub struct Primitive {
    pub kind: PrimitiveKind,
}

/// Hands out command buffers, one per frame.
#[derive(Clone, Copy, PartialEq, Eq, Structural, Debug)]
pub struct CommandPool {
    pub buffers_acquired: u64,
}

/// Records draw commands; `recorded` counts the commands recorded so far.
#[derive(Clone, Copy, PartialEq, Eq, Structural, Debug)]
pub struct CommandBuffer {
    pub recorded: u64,
}

/// Begins a frame: acquires one fresh, empty command buffer from the pool.
pub fn render(graphics_command_pool: &mut CommandPool) -> (cb: CommandBuffer)
    requires
        old(graphics_command_pool).buffers_acquired < u64::MAX,
    ensures
        final(graphics_command_pool).buffers_acquired == old(
            graphics_command_pool,
        ).buffers_acquired + 1,
        cb.recorded == 0,
{
    graphics_command_pool.buffers_acquired = graphics_command_pool.buffers_acquired + 1;
    CommandBuffer { recorded: 0 }
}

/// Dispatches one primitive into the command buffer. No kind records a
/// command: the buffer leaves exactly as it came.
pub fn render_primitive(command_buffer: &mut CommandBuffer, primitive: &Primitive)
    ensures
        *final(command_buffer) == *old(command_buffer),
{
    match &primitive.kind {
        PrimitiveKind::Rectangle { color: _ } => (),
        PrimitiveKind::TrianglesSingleColor { color: _, triangle_count: _ } => (),
        PrimitiveKind::TrianglesMultiColor { triangle_count: _ } => (),
        PrimitiveKind::Image { image_id: _, color: _, source_rect: _ } => (),
        PrimitiveKind::Text { color: _, glyph_count: _, font_id: _ } => (),
        PrimitiveKind::Other => (),
    }
}

} // verus!
