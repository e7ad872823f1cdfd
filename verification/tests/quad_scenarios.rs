//! End-to-end quad scenarios: compile the quad shader, draw, patch,
//! translate, hit-test.

use shui::area::Area;
use shui::cx::Cx;
use shui::math::{Color, Rect};
use shui::quad::Quad;

fn b(v: f32) -> u32 {
    v.to_bits()
}

fn setup() -> (Cx, Quad) {
    let mut cx = Cx::new();
    let sh = Quad::def_quad_shader(&mut cx);
    let shader_id = cx.add_shader(sh, "Quad");
    cx.compile_all_mtl_shaders();
    let quad = Quad {
        shader_id,
        id: 0,
        do_scroll: true,
        color: Color { r: b(0.0), g: b(1.0), b: b(0.0), a: b(1.0) },
    };
    (cx, quad)
}

fn rect(x: f32, y: f32, w: f32, h: f32) -> Rect {
    Rect { x: b(x), y: b(y), w: b(w), h: b(h) }
}

#[test]
fn single_quad() {
    let (mut cx, mut quad) = setup();
    assert_eq!(cx.compiled_shaders.len(), 1);
    assert_eq!(cx.compiled_shaders[0].instance_slots, 8);
    let ia = quad.draw_quad(&mut cx, rect(10.0, 20.0, 30.0, 40.0));
    // one draw-call with one instance record in the root list
    assert_eq!(cx.draw_lists[0].draw_calls_len, 1);
    assert_eq!(cx.draw_lists[0].draw_calls[0].instance.len(), 8);
    assert_eq!(ia.instance_count, 1);
    let area = Area::Instance(ia);
    assert_eq!(area.get_rect(&cx), rect(10.0, 20.0, 30.0, 40.0));
    let color = area.read_vec4(&cx, "color");
    assert_eq!((color.x, color.y, color.z, color.w), (b(0.0), b(1.0), b(0.0), b(1.0)));
    // the scroll uniform was pushed for the freshly created call
    assert_eq!(cx.draw_lists[0].draw_calls[0].uniforms, vec![b(1.0)]);
}

#[test]
fn rect_patch() {
    let (mut cx, mut quad) = setup();
    let ia = quad.draw_quad(&mut cx, rect(10.0, 20.0, 30.0, 40.0));
    let area = Area::Instance(ia);
    assert!(!cx.paint_dirty);
    area.set_rect(&mut cx, &rect(5.0, 5.0, 5.0, 5.0));
    assert_eq!(area.get_rect(&cx), rect(5.0, 5.0, 5.0, 5.0));
    assert!(cx.paint_dirty);
}

#[test]
fn translate() {
    let (mut cx, mut quad) = setup();
    let ia = quad.draw_quad(&mut cx, rect(10.0, 20.0, 30.0, 40.0));
    let area = Area::Instance(ia);
    area.move_xy(b(2.0), b(3.0), &mut cx);
    assert_eq!(area.get_rect(&cx), rect(12.0, 23.0, 30.0, 40.0));
}

#[test]
fn two_instances_move_all() {
    let (mut cx, mut quad) = setup();
    let ia = quad.draw_quad(&mut cx, rect(10.0, 20.0, 30.0, 40.0));
    let second = [b(100.0), b(200.0), b(5.0), b(5.0), b(1.0), b(0.0), b(0.0), b(1.0)];
    Area::Instance(ia).append_data(&mut cx, &second);
    let all = shui::area::InstanceArea { instance_count: 2, ..ia };
    assert_eq!(all.instance_count, 2);
    let area = Area::Instance(all);
    area.move_xy(b(1.0), b(1.0), &mut cx);
    let inst = &cx.draw_lists[0].draw_calls[0].instance;
    assert_eq!(inst[0], b(11.0));
    assert_eq!(inst[1], b(21.0));
    assert_eq!(inst[8], b(101.0));
    assert_eq!(inst[9], b(201.0));
    // widths and colors untouched
    assert_eq!(inst[2], b(30.0));
    assert_eq!(inst[11], b(5.0));
}

#[test]
fn move_xy_roundtrip_is_noop() {
    let (mut cx, mut quad) = setup();
    let ia = quad.draw_quad(&mut cx, rect(10.0, 20.0, 30.0, 40.0));
    let area = Area::Instance(ia);
    let before = cx.draw_lists[0].draw_calls[0].instance.clone();
    area.move_xy(b(2.0), b(3.0), &mut cx);
    area.move_xy(b(-2.0), b(-3.0), &mut cx);
    let after = &cx.draw_lists[0].draw_calls[0].instance;
    assert_eq!(&before, after);
}

#[test]
fn write_unknown_name_leaves_buffers_identical() {
    let (mut cx, mut quad) = setup();
    let ia = quad.draw_quad(&mut cx, rect(10.0, 20.0, 30.0, 40.0));
    let area = Area::Instance(ia);
    let before = cx.draw_lists[0].draw_calls[0].instance.clone();
    let dirty_before = cx.paint_dirty;
    area.write_float(&mut cx, "no_such_attribute", b(9.0));
    assert_eq!(&before, &cx.draw_lists[0].draw_calls[0].instance);
    assert_eq!(dirty_before, cx.paint_dirty);
}

#[test]
fn empty_instance_area_reads_zero_rect_and_skips_move() {
    let (mut cx, mut quad) = setup();
    let ia = quad.draw_quad(&mut cx, rect(10.0, 20.0, 30.0, 40.0));
    let empty = shui::area::InstanceArea { instance_count: 0, ..ia };
    let area = Area::Instance(empty);
    assert_eq!(area.get_rect(&cx), Rect::zero());
    let before = cx.draw_lists[0].draw_calls[0].instance.clone();
    area.move_xy(b(7.0), b(7.0), &mut cx);
    assert_eq!(&before, &cx.draw_lists[0].draw_calls[0].instance);
}

#[test]
fn attribute_write_read_roundtrips() {
    let (mut cx, mut quad) = setup();
    let ia = quad.draw_quad(&mut cx, rect(10.0, 20.0, 30.0, 40.0));
    let area = Area::Instance(ia);
    area.write_float(&mut cx, "x", b(77.0));
    assert_eq!(area.read_float(&cx, "x"), b(77.0));
    let v4 = shui::math::Vec4 { x: b(0.25), y: b(0.5), z: b(0.75), w: b(1.0) };
    area.write_vec4(&mut cx, "color", v4);
    assert_eq!(area.read_vec4(&cx, "color"), v4);
    // write marks the repaint flag
    assert!(cx.paint_dirty);
}

#[test]
fn unknown_attribute_reads_zero() {
    let (mut cx, mut quad) = setup();
    let ia = quad.draw_quad(&mut cx, rect(10.0, 20.0, 30.0, 40.0));
    let area = Area::Instance(ia);
    assert_eq!(area.read_float(&cx, "missing"), 0);
    assert_eq!(area.read_vec2(&cx, "missing"), shui::math::Vec2 { x: 0, y: 0 });
}

#[test]
fn contains_uses_ieee_ordering() {
    let (mut cx, mut quad) = setup();
    let ia = quad.draw_quad(&mut cx, rect(10.0, 20.0, 30.0, 40.0));
    let area = Area::Instance(ia);
    assert!(area.contains(b(15.0), b(30.0), &cx));
    assert!(area.contains(b(10.0), b(20.0), &cx));
    assert!(area.contains(b(40.0), b(60.0), &cx));
    assert!(!area.contains(b(9.0), b(30.0), &cx));
    assert!(!area.contains(b(41.0), b(30.0), &cx));
    assert!(!area.contains(f32::NAN.to_bits(), b(30.0), &cx));
}

#[test]
fn second_draw_reuses_the_call_without_uniforms() {
    let (mut cx, mut quad) = setup();
    let _a = quad.draw_quad(&mut cx, rect(10.0, 20.0, 30.0, 40.0));
    let ib = quad.draw_quad(&mut cx, rect(1.0, 2.0, 3.0, 4.0));
    assert_eq!(cx.draw_lists[0].draw_calls_len, 1);
    assert_eq!(ib.draw_call_id, 0);
    assert_eq!(ib.instance_offset, 8);
    assert_eq!(cx.draw_lists[0].draw_calls[0].instance.len(), 16);
    // the scroll uniform was pushed only once
    assert_eq!(cx.draw_lists[0].draw_calls[0].uniforms, vec![b(1.0)]);
}

#[test]
fn draw_quad_adds_turtle_origin() {
    let (mut cx, mut quad) = setup();
    cx.turtle_origin = shui::math::Vec2 { x: b(100.0), y: b(1000.0) };
    let ia = quad.draw_quad(&mut cx, rect(10.0, 20.0, 30.0, 40.0));
    let area = Area::Instance(ia);
    assert_eq!(area.get_rect(&cx), rect(110.0, 1020.0, 30.0, 40.0));
}
