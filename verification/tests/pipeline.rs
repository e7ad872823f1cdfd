//! The transpiler, the buffer wrapper, the frame planner and the redraw
//! bookkeeping, exercised end to end.

use shui::area::Area;
use shui::buffer::MetalBuffer;
use shui::cx::Cx;
use shui::exec::{BufferRef, RenderCmd};
use shui::math::{Color, Rect};
use shui::quad::Quad;
use shui::shader::{ShFn, ShTok, ShVar, ShVarStore};

fn b(v: f32) -> u32 {
    v.to_bits()
}

fn quad_cx() -> (Cx, Quad) {
    let mut cx = Cx::new();
    let sh = Quad::def_quad_shader(&mut cx);
    let shader_id = cx.add_shader(sh, "Quad");
    cx.compile_all_mtl_shaders();
    let quad = Quad {
        shader_id,
        id: 0,
        do_scroll: false,
        color: Color { r: b(0.0), g: b(1.0), b: b(0.0), a: b(1.0) },
    };
    (cx, quad)
}

#[test]
fn transpiler_lifts_pixel_side_instance_reference() {
    // a shader with one instance vec2 `uv` referenced from the pixel side
    let cx = Cx::new();
    let mut sh = cx.new_shader();
    sh.vars.push(ShVar {
        name: "uv".to_string(),
        ty: "vec2".to_string(),
        store: ShVarStore::Instance,
    });
    sh.fns.push(ShFn {
        name: "vertex".to_string(),
        params: String::new(),
        ret: "vec4".to_string(),
        body: vec![ShTok::Text("  return float4(0.,0.,0.,1.);\n".to_string())],
    });
    sh.fns.push(ShFn {
        name: "pixel".to_string(),
        params: String::new(),
        ret: "vec4".to_string(),
        body: vec![
            ShTok::Text("  return float4(".to_string()),
            ShTok::Ident("uv".to_string()),
            ShTok::Text(", 0., 1.);\n".to_string()),
        ],
    });
    let ash = Cx::assemble_shader(&sh).unwrap();
    // the _Vary struct gained a `uv` field
    assert!(ash.mtlsl.contains("struct _Vary{\n  float4 mtl_position [[position]];\n  float2 uv;\n};"));
    // the vertex entry copies the instance value into the varying
    assert!(ash.mtlsl.contains("       _vary.uv = _inst.uv;\n"));
    // the pixel cone rewrote the reference through the varying
    assert!(ash.mtlsl.contains("return float4(_vary.uv, 0., 1.);"));
    assert_eq!(ash.instance_slots, 2);
}

#[test]
fn transpiler_quad_shader_layout() {
    let (cx, _quad) = quad_cx();
    let shc = &cx.compiled_shaders[0];
    assert_eq!(shc.instance_slots, 8);
    assert_eq!(shc.rect_instance_props.x, Some(0));
    assert_eq!(shc.rect_instance_props.y, Some(1));
    assert_eq!(shc.rect_instance_props.w, Some(2));
    assert_eq!(shc.rect_instance_props.h, Some(3));
    let props = &shc.named_instance_props.props;
    assert_eq!(props.len(), 5);
    assert_eq!(props[4].name, "color");
    assert_eq!(props[4].offset, 4);
    // geometry was uploaded at compile time
    assert!(shc.geom_vbuf.allocated);
    assert_eq!(shc.geom_vbuf.used, 8);
    assert!(shc.geom_ibuf.allocated);
    assert_eq!(shc.geom_ibuf.used, 6);
    // no pipeline until the backend binds one
    assert_eq!(shc.pipeline_state, None);
    assert!(shc.mtlsl.contains("#include <metal_stdlib>"));
    assert!(shc.mtlsl.contains("vertex _Vary _vertex_shader"));
    assert!(shc.mtlsl.contains("fragment float4 _fragment_shader"));
    assert!(shc.mtlsl.contains("struct _Inst{\n  float x;\n  float y;\n  float w;\n  float h;\n  packed_float4 color;\n};"));
}

#[test]
fn transpiler_missing_pixel_function_fails() {
    let cx = Cx::new();
    let mut sh = cx.new_shader();
    sh.fns.push(ShFn {
        name: "vertex".to_string(),
        params: String::new(),
        ret: "vec4".to_string(),
        body: vec![ShTok::Text("  return float4(0.,0.,0.,1.);\n".to_string())],
    });
    let err = Cx::assemble_shader(&sh).unwrap_err();
    assert!(err.msg.contains("pixel"));
}

#[test]
fn failed_compile_pushes_defaulted_record() {
    let mut cx = Cx::new();
    let sh = cx.new_shader();  // no vertex/pixel functions at all
    cx.add_shader(sh, "broken");
    cx.compile_all_mtl_shaders();
    assert_eq!(cx.compiled_shaders.len(), 1);
    let shc = &cx.compiled_shaders[0];
    assert_eq!(shc.pipeline_state, None);
    assert_eq!(shc.instance_slots, 0);
    assert_eq!(shc.mtlsl, "");
    assert_eq!(shc.rect_instance_props.x, None);
}

#[test]
fn texture_slot_block_counts_upward() {
    let textures = vec![
        ShVar { name: "atlas".to_string(), ty: "texture2d".to_string(), store: ShVarStore::Texture },
        ShVar { name: "mask".to_string(), ty: "texture2d".to_string(), store: ShVarStore::Texture },
    ];
    let block = Cx::assemble_texture_slots(&textures);
    assert_eq!(
        block,
        "struct _Tex{\ntexture2d<float> atlas [[texture(0)]];\ntexture2d<float> mask [[texture(1)]];\n};\n\n"
    );
}

#[test]
fn type_maps_match_metal() {
    assert_eq!(Cx::type_to_metal("vec3"), "float3");
    assert_eq!(Cx::type_to_metal("texture2d"), "texture2d<float>");
    assert_eq!(Cx::type_to_packed_metal("vec4"), "packed_float4");
    assert_eq!(Cx::type_to_packed_metal("mat4"), "float4x4");
    assert_eq!(Cx::type_to_packed_metal("MyStruct"), "MyStruct");
}

#[test]
fn buffer_reallocates_only_when_grown() {
    let mut buf = MetalBuffer::default();
    assert!(!buf.allocated);
    let ten: Vec<u32> = (0..10).map(|i| b(i as f32)).collect();
    buf.update_with_f32_data(&ten);
    assert!(buf.allocated);
    assert_eq!(buf.size, 10);
    assert_eq!(buf.used, 10);
    let hundred: Vec<u32> = (0..100).map(|i| b(i as f32)).collect();
    buf.update_with_f32_data(&hundred);
    assert_eq!(buf.size, 100);
    assert_eq!(buf.used, 100);
    // shrinking keeps the capacity, only `used` drops
    let five: Vec<u32> = (0..5).map(|i| b(i as f32)).collect();
    buf.update_with_f32_data(&five);
    assert_eq!(buf.size, 100);
    assert_eq!(buf.used, 5);
    assert_eq!(buf.data, five);
}

#[test]
fn index_buffer_update_mirrors_scalar_update() {
    let mut buf = MetalBuffer::default();
    buf.update_with_u32_data(&vec![0, 1, 2, 2, 3, 0]);
    assert!(buf.allocated);
    assert_eq!(buf.size, 6);
    assert_eq!(buf.used, 6);
}

#[test]
fn planner_skips_calls_without_pipeline() {
    let (mut cx, mut quad) = quad_cx();
    quad.draw_quad(&mut cx, Rect { x: b(1.0), y: b(2.0), w: b(3.0), h: b(4.0) });
    let mut cmds = Vec::new();
    cx.repaint(&mut cmds);
    assert_eq!(cmds, vec![]);
}

#[test]
fn planner_emits_fixed_binding_order_and_draw() {
    let (mut cx, mut quad) = quad_cx();
    quad.draw_quad(&mut cx, Rect { x: b(1.0), y: b(2.0), w: b(3.0), h: b(4.0) });
    cx.set_pipeline_state(0, 7);
    let mut cmds = Vec::new();
    cx.repaint(&mut cmds);
    assert_eq!(
        cmds,
        vec![
            RenderCmd::SetPipeline { pipeline: 7 },
            RenderCmd::SetVertexBuffer { index: 0, buffer: BufferRef::GeomVbuf { shader_id: 0 } },
            RenderCmd::SetVertexBuffer {
                index: 1,
                buffer: BufferRef::InstVbuf { draw_list_id: 0, draw_call_id: 0 },
            },
            RenderCmd::SetVertexBuffer { index: 2, buffer: BufferRef::UniCx },
            RenderCmd::SetVertexBuffer { index: 3, buffer: BufferRef::UniDl { draw_list_id: 0 } },
            RenderCmd::SetVertexBuffer {
                index: 4,
                buffer: BufferRef::UniDr { draw_list_id: 0, draw_call_id: 0 },
            },
            RenderCmd::SetFragmentBuffer { index: 0, buffer: BufferRef::UniCx },
            RenderCmd::SetFragmentBuffer { index: 1, buffer: BufferRef::UniDl { draw_list_id: 0 } },
            RenderCmd::SetFragmentBuffer {
                index: 2,
                buffer: BufferRef::UniDr { draw_list_id: 0, draw_call_id: 0 },
            },
            RenderCmd::DrawIndexedInstanced {
                index_count: 6,
                instances: 1,
                index_buffer: BufferRef::GeomIbuf { shader_id: 0 },
            },
        ]
    );
    // the touched call's buffers were synchronised
    let call = &cx.draw_lists[0].draw_calls[0];
    assert_eq!(call.resources.inst_vbuf.used, 8);
    assert_eq!(call.resources.inst_vbuf.data, call.instance);
}

#[test]
fn redraw_bookkeeping_cycle() {
    let (mut cx, mut quad) = quad_cx();
    quad.draw_quad(&mut cx, Rect { x: b(1.0), y: b(2.0), w: b(3.0), h: b(4.0) });
    assert!(!cx.redraw_step());
    cx.dirty_area = Area::All;
    assert!(!cx.should_block_wait());
    let frame_before = cx.frame_id;
    assert!(cx.redraw_step());
    assert_eq!(cx.dirty_area, Area::Empty);
    assert_eq!(cx.redraw_area, Area::All);
    assert_eq!(cx.frame_id, frame_before + 1);
    assert!(cx.paint_dirty);
    // the live watermark was reset for the new frame
    assert_eq!(cx.draw_lists[0].draw_calls_len, 0);
    assert!(cx.paint_step());
    assert!(!cx.paint_dirty);
    assert!(!cx.paint_step());
    assert!(cx.should_block_wait());
    cx.resized_step();
    assert_eq!(cx.redraw_area, Area::All);
}

#[test]
fn texture_resize_zero_fills_and_marks_dirty() {
    let mut cx = Cx::new();
    let id = cx.add_texture();
    assert_eq!(id, 0);
    cx.textures_2d[0].resize(4, 3);
    assert_eq!(cx.textures_2d[0].image.len(), 12);
    assert!(cx.textures_2d[0].dirty);
    cx.update_draw_buffers();
    assert!(!cx.textures_2d[0].dirty);
    assert!(cx.textures_2d[0].uploaded);
}

#[test]
fn decimal_rendering_and_string_equality() {
    assert_eq!(shui::strutil::usize_to_string(0), "0");
    assert_eq!(shui::strutil::usize_to_string(7), "7");
    assert_eq!(shui::strutil::usize_to_string(42), "42");
    assert_eq!(shui::strutil::usize_to_string(1000), "1000");
    assert!(shui::strutil::str_eq("color", "color"));
    assert!(!shui::strutil::str_eq("color", "colour"));
    assert!(!shui::strutil::str_eq("x", "y"));
}

#[test]
fn slot_sizes_follow_the_table() {
    assert_eq!(shui::shader::slot_size("float"), 1);
    assert_eq!(shui::shader::slot_size("vec2"), 2);
    assert_eq!(shui::shader::slot_size("vec3"), 3);
    assert_eq!(shui::shader::slot_size("vec4"), 4);
    assert_eq!(shui::shader::slot_size("mat2"), 4);
    assert_eq!(shui::shader::slot_size("mat3"), 9);
    assert_eq!(shui::shader::slot_size("mat4"), 16);
    assert_eq!(shui::shader::slot_size("texture2d"), 0);
}

#[test]
fn uniform_pushes_are_positional() {
    let (mut cx, mut quad) = quad_cx();
    let ia = quad.draw_quad(&mut cx, Rect { x: b(1.0), y: b(2.0), w: b(3.0), h: b(4.0) });
    let area = Area::Instance(ia);
    area.uniform_float(&mut cx, "ignored", b(0.5));
    area.uniform_vec2f(&mut cx, "ignored", b(1.0), b(2.0));
    let mut area2 = area;
    area2.uniform_vec3f(&mut cx, "ignored", b(3.0), b(4.0), b(5.0));
    area.uniform_vec4f(&mut cx, "ignored", b(6.0), b(7.0), b(8.0), b(9.0));
    let m = shui::math::Mat4 { v: [b(1.0); 16] };
    area.uniform_mat4(&mut cx, "ignored", &m);
    let unis = &cx.draw_lists[0].draw_calls[0].uniforms;
    // do_scroll=false pushed 0.0 at creation, then the pushes above in order
    let mut expected = vec![b(0.0), b(0.5), b(1.0), b(2.0), b(3.0), b(4.0), b(5.0)];
    expected.extend_from_slice(&[b(6.0), b(7.0), b(8.0), b(9.0)]);
    expected.extend_from_slice(&[b(1.0); 16]);
    assert_eq!(unis, &expected);
}

#[test]
fn planner_recurses_into_sub_lists_at_their_position() {
    let (mut cx, mut quad) = quad_cx();
    quad.draw_quad(&mut cx, Rect { x: b(1.0), y: b(2.0), w: b(3.0), h: b(4.0) });
    cx.set_pipeline_state(0, 9);
    // graft a second list under the root: the root's second live call
    // references it instead of drawing
    cx.draw_lists.push(shui::cx::DrawList {
        draw_calls: Vec::new(),
        draw_calls_len: 0,
        uniforms: Vec::new(),
        rect: Rect::zero(),
        resources: shui::cx::DrawListResources {
            uni_dl: shui::buffer::MetalBuffer::default(),
        },
    });
    cx.current_draw_list_id = 1;
    quad.draw_quad(&mut cx, Rect { x: b(9.0), y: b(9.0), w: b(1.0), h: b(1.0) });
    cx.current_draw_list_id = 0;
    cx.draw_lists[0].draw_calls.push(shui::cx::DrawCall {
        shader_id: 0,
        sub_list_id: 1,
        instance: Vec::new(),
        uniforms: Vec::new(),
        textures_2d: Vec::new(),
        need_uniforms_now: false,
        update_frame_id: 0,
        resources: shui::cx::DrawCallResources {
            uni_dr: shui::buffer::MetalBuffer::default(),
            inst_vbuf: shui::buffer::MetalBuffer::default(),
        },
    });
    cx.draw_lists[0].draw_calls_len = 2;
    let mut cmds = Vec::new();
    cx.exec_draw_list(0, &mut cmds);
    // both leaf calls drew: the root's own call first, the sub-list's after
    let draws: Vec<&RenderCmd> = cmds
        .iter()
        .filter(|c| matches!(c, RenderCmd::DrawIndexedInstanced { .. }))
        .collect();
    assert_eq!(draws.len(), 2);
    assert_eq!(
        cmds.iter()
            .filter(|c| matches!(
                c,
                RenderCmd::SetVertexBuffer {
                    index: 1,
                    buffer: BufferRef::InstVbuf { draw_list_id: 1, draw_call_id: 0 },
                }
            ))
            .count(),
        1
    );
}

#[test]
fn untouched_calls_keep_their_buffers() {
    let (mut cx, mut quad) = quad_cx();
    quad.draw_quad(&mut cx, Rect { x: b(1.0), y: b(2.0), w: b(3.0), h: b(4.0) });
    cx.update_draw_buffers();
    assert_eq!(cx.draw_lists[0].draw_calls[0].resources.inst_vbuf.used, 8);
    // a frame later the retained call is stale: its buffers stay as they are
    cx.dirty_area = Area::All;
    assert!(cx.redraw_step());
    cx.draw_lists[0].draw_calls[0].instance.push(b(0.0));
    let before = cx.draw_lists[0].draw_calls[0].resources.inst_vbuf.data.clone();
    cx.update_draw_buffers();
    assert_eq!(cx.draw_lists[0].draw_calls[0].resources.inst_vbuf.data, before);
}
