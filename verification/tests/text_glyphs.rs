//! Text drawing: per-glyph instance records, pen advance, uniform setup.

use shui::cx::Cx;
use shui::math::Vec4;
use shui::text::{CLIP_MAX_BITS, CLIP_MIN_BITS, Font, Glyph, Text, Wrapping};

fn b(v: f32) -> u32 {
    v.to_bits()
}

fn glyph(advance: f32) -> Glyph {
    Glyph {
        x1: b(0.1),
        y1: b(0.2),
        x2: b(0.8),
        y2: b(0.9),
        tx1: b(0.0),
        ty1: b(0.0),
        tx2: b(0.5),
        ty2: b(0.5),
        advance: b(advance),
    }
}

fn setup() -> (Cx, Text, Font) {
    let mut cx = Cx::new();
    let mut sh = cx.new_shader();
    Text::def_shader(&mut sh);
    let shader_id = cx.add_shader(sh, "Text");
    cx.compile_all_mtl_shaders();
    let texture_id = cx.add_texture();
    let mut unicodes = vec![0usize; 128];
    unicodes['A' as usize] = 1;
    unicodes['B' as usize] = 2;  // out of range of the glyph table: skipped
    let font = Font {
        texture_id,
        width: b(256.0),
        height: b(256.0),
        unicodes,
        glyphs: vec![glyph(0.0), glyph(0.5)],
    };
    let text = Text {
        font_id: 0,
        shader_id,
        text: String::new(),
        color: Vec4 { x: b(1.0), y: b(1.0), z: b(1.0), w: b(1.0) },
        font_size: b(10.0),
        wrapping: Wrapping::Word,
    };
    (cx, text, font)
}

#[test]
fn text_shader_has_twenty_instance_slots() {
    let (cx, _, _) = setup();
    let shc = &cx.compiled_shaders[0];
    assert_eq!(shc.instance_slots, 20);
    assert_eq!(shc.rect_instance_props.x, Some(16));
    assert_eq!(shc.rect_instance_props.y, Some(17));
    assert_eq!(shc.rect_instance_props.w, None);
    assert_eq!(shc.rect_instance_props.h, None);
    assert!(shc.mtlsl.contains(".sample(sampler(mag_filter::linear,min_filter::linear),"));
}

#[test]
fn draw_text_appends_one_record_per_drawable_glyph() {
    let (mut cx, mut text, font) = setup();
    // 'B' maps beyond the glyph table and '\u{7f}' maps to slot 0: skipped
    let ia = text.draw_text(&mut cx, &font, b(5.0), b(8.0), "AA\u{7f}B");
    assert_eq!(ia.instance_count, 2);
    assert_eq!(ia.instance_offset, 0);
    let inst = &cx.draw_lists[0].draw_calls[0].instance;
    assert_eq!(inst.len(), 40);
    // first record: clip, glyph box, texture rect, white, pen, size, baseline
    assert_eq!(&inst[0..4], &[CLIP_MIN_BITS, CLIP_MIN_BITS, CLIP_MAX_BITS, CLIP_MAX_BITS]);
    assert_eq!(&inst[4..8], &[b(0.1), b(0.2), b(0.8), b(0.9)]);
    assert_eq!(&inst[8..12], &[b(0.0), b(0.0), b(0.5), b(0.5)]);
    assert_eq!(&inst[12..16], &[b(1.0), b(1.0), b(1.0), b(1.0)]);
    assert_eq!(&inst[16..20], &[b(5.0), b(8.0), b(10.0), b(1.0)]);
    // the pen advanced by advance * em size = 0.5 * 10.0
    assert_eq!(inst[36], b(10.0));
    assert_eq!(inst[37], b(8.0));
}

#[test]
fn draw_text_pushes_font_uniforms_once() {
    let (mut cx, mut text, font) = setup();
    text.draw_text(&mut cx, &font, b(0.0), b(0.0), "A");
    text.draw_text(&mut cx, &font, b(0.0), b(20.0), "A");
    let call = &cx.draw_lists[0].draw_calls[0];
    assert_eq!(call.textures_2d, vec![font.texture_id as u32]);
    assert_eq!(
        call.uniforms,
        vec![b(256.0), b(256.0), CLIP_MIN_BITS, CLIP_MIN_BITS, CLIP_MAX_BITS, CLIP_MAX_BITS]
    );
    assert_eq!(call.instance.len(), 40);
}
