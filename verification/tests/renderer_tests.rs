use gui_demo::renderer::render;
use gui_demo::renderer::render_primitive;
use gui_demo::renderer::CommandBuffer;
use gui_demo::renderer::CommandPool;
use gui_demo::renderer::Primitive;
use gui_demo::renderer::PrimitiveKind;
use gui_demo::renderer::Rect;
use gui_demo::renderer::Rgba8;
use gui_demo::state::ImageId;

const RED: Rgba8 = Rgba8 { r: 255, g: 0, b: 0, a: 255 };

#[test]
fn render_acquires_one_fresh_buffer_per_frame() {
    let mut pool = CommandPool { buffers_acquired: 0 };
    let cb = render(&mut pool);
    assert_eq!(pool.buffers_acquired, 1);
    assert_eq!(cb.recorded, 0);
    let cb = render(&mut pool);
    assert_eq!(pool.buffers_acquired, 2);
    assert_eq!(cb.recorded, 0);
}

#[test]
fn no_primitive_kind_records_a_command() {
    let primitives = [
        Primitive { kind: PrimitiveKind::Rectangle { color: RED } },
        Primitive { kind: PrimitiveKind::TrianglesSingleColor { color: RED, triangle_count: 12 } },
        Primitive { kind: PrimitiveKind::TrianglesMultiColor { triangle_count: 7 } },
        Primitive {
            kind: PrimitiveKind::Image {
                image_id: ImageId(1),
                color: Some(RED),
                source_rect: Some(Rect { x: 0, y: 0, w: 1440, h: 1440 }),
            },
        },
        Primitive { kind: PrimitiveKind::Text { color: RED, glyph_count: 11, font_id: 0 } },
        Primitive { kind: PrimitiveKind::Other },
    ];
    let mut cb = CommandBuffer { recorded: 0 };
    for p in &primitives {
        render_primitive(&mut cb, p);
        assert_eq!(cb.recorded, 0);
    }
}
