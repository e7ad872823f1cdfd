//! The quad widget: a single colored rectangle per instance record, eight
//! instance slots (`x`, `y`, `w`, `h` and a `vec4` color).

use vstd::prelude::*;
use crate::area::{Area, InstanceArea, spec_ia_call, spec_ia_inst};
use crate::cx::{Cx, new_string};
use crate::math::{Color, ONE_BITS, Rect};
use crate::scalar;
use crate::shader::{ShFn, ShTok, ShVar, ShVarStore, Shader};

verus! {

/// A colored rectangle drawer bound to a compiled shader.
#[derive(Debug)]
pub struct Quad {
    pub shader_id: usize,
    pub id: u32,
    pub do_scroll: bool,
    pub color: Color,
}

/// Whether a shader function's body calls no other function (such a body
/// always transpiles).
pub open spec fn spec_call_free(f: ShFn) -> bool {
    forall|i: int| 0 <= i < f.body@.len() ==> !((#[trigger] f.body@[i]) is Call)
}

/// The quad shader always transpiles: its two entry functions exist
/// under their required names and their bodies call nothing.
pub proof fn lemma_quad_shader_compiles(sh: Shader)
    requires
        sh.fns@.len() == 2,
        sh.fns@[0].name@ == "vertex"@,
        sh.fns@[1].name@ == "pixel"@,
        spec_call_free(sh.fns@[0]),
        spec_call_free(sh.fns@[1]),
    ensures
        crate::mtl::spec_assembled_source(sh) is Some,
{
    reveal_strlit("vertex");
    reveal_strlit("pixel");
    assert("vertex"@[0] == 'v');
    assert("pixel"@[0] == 'p');
    assert(crate::mtl::spec_find_fn(sh.fns@, "vertex"@) == Some(0int));
    assert(sh.fns@[0].name@ != "pixel"@);
    assert(crate::mtl::spec_find_fn_from(sh.fns@, "pixel"@, 1) == Some(1int));
    assert(crate::mtl::spec_find_fn(sh.fns@, "pixel"@) == Some(1int));
    assert(crate::mtl::spec_fn_inline(sh.fns@[0])) by {
        assert forall|i: int|
            0 <= i < sh.fns@[0].body@.len() implies crate::mtl::spec_tok_inline(
            #[trigger] sh.fns@[0].body@[i],
        ) by {
            assert(!(sh.fns@[0].body@[i] is Call));
        }
    }
    assert(crate::mtl::spec_fn_inline(sh.fns@[1])) by {
        assert forall|i: int|
            0 <= i < sh.fns@[1].body@.len() implies crate::mtl::spec_tok_inline(
            #[trigger] sh.fns@[1].body@[i],
        ) by {
            assert(!(sh.fns@[1].body@[i] is Call));
        }
    }
    crate::mtl::lemma_inline_shader_assembles(sh);
}

impl Quad {
    /// The quad shader: a unit-quad geometry and, per instance, the
    /// rectangle scalars `x`,`y`,`w`,`h` followed by a `vec4` color —
    /// eight instance slots in all.
    pub fn def_quad_shader(cx: &mut Cx) -> (sh: Shader)
        ensures
            *final(cx) == *old(cx),
            sh.geometry_vertices@ == seq![
                0u32,
                0u32,
                ONE_BITS,
                0u32,
                ONE_BITS,
                ONE_BITS,
                0u32,
                ONE_BITS,
            ],
            sh.geometry_indices@ == seq![0u32, 1u32, 2u32, 2u32, 3u32, 0u32],
            sh.vars@.len() == 11,
            sh.vars@[3].name@ == "geom"@ && sh.vars@[3].ty@ == "vec2"@ && sh.vars@[3].store
                == ShVarStore::Geometry,
            sh.vars@[4].name@ == "x"@ && sh.vars@[4].ty@ == "float"@ && sh.vars@[4].store
                == ShVarStore::Instance,
            sh.vars@[5].name@ == "y"@ && sh.vars@[5].ty@ == "float"@ && sh.vars@[5].store
                == ShVarStore::Instance,
            sh.vars@[6].name@ == "w"@ && sh.vars@[6].ty@ == "float"@ && sh.vars@[6].store
                == ShVarStore::Instance,
            sh.vars@[7].name@ == "h"@ && sh.vars@[7].ty@ == "float"@ && sh.vars@[7].store
                == ShVarStore::Instance,
            sh.vars@[8].name@ == "color"@ && sh.vars@[8].ty@ == "vec4"@ && sh.vars@[8].store
                == ShVarStore::Instance,
            sh.vars@[9].name@ == "pos"@ && sh.vars@[9].ty@ == "vec2"@ && sh.vars@[9].store
                == ShVarStore::Varying,
            sh.vars@[10].name@ == "draw_list_do_scroll"@ && sh.vars@[10].ty@ == "float"@
                && sh.vars@[10].store == ShVarStore::Uniform,
            sh.vars@[0].name@ == "camera_projection"@ && sh.vars@[0].ty@ == "mat4"@
                && sh.vars@[0].store == ShVarStore::UniformCx,
            sh.vars@[1].name@ == "draw_list_scroll"@ && sh.vars@[1].ty@ == "vec2"@
                && sh.vars@[1].store == ShVarStore::UniformDl,
            sh.vars@[2].name@ == "draw_list_clip"@ && sh.vars@[2].ty@ == "vec4"@
                && sh.vars@[2].store == ShVarStore::UniformDl,
            sh.fns@.len() == 2,
            sh.fns@[0].name@ == "vertex"@ && sh.fns@[0].ret@ == "vec4"@ && sh.fns@[0].params@.len()
                == 0 && spec_call_free(sh.fns@[0]),
            sh.fns@[1].name@ == "pixel"@ && sh.fns@[1].ret@ == "vec4"@ && sh.fns@[1].params@.len()
                == 0 && spec_call_free(sh.fns@[1]),
    {
        let mut sh = cx.new_shader();
        sh.geometry_vertices.push(0);
        sh.geometry_vertices.push(0);
        sh.geometry_vertices.push(ONE_BITS);
        sh.geometry_vertices.push(0);
        sh.geometry_vertices.push(ONE_BITS);
        sh.geometry_vertices.push(ONE_BITS);
        sh.geometry_vertices.push(0);
        sh.geometry_vertices.push(ONE_BITS);
        sh.geometry_indices.push(0);
        sh.geometry_indices.push(1);
        sh.geometry_indices.push(2);
        sh.geometry_indices.push(2);
        sh.geometry_indices.push(3);
        sh.geometry_indices.push(0);
        proof {
            assert(sh.geometry_vertices@ =~= seq![
                0u32,
                0u32,
                ONE_BITS,
                0u32,
                ONE_BITS,
                ONE_BITS,
                0u32,
                ONE_BITS,
            ]);
            assert(sh.geometry_indices@ =~= seq![0u32, 1u32, 2u32, 2u32, 3u32, 0u32]);
        }
        sh.vars.push(ShVar { name: new_string("geom"), ty: new_string("vec2"), store: ShVarStore::Geometry });
        sh.vars.push(ShVar { name: new_string("x"), ty: new_string("float"), store: ShVarStore::Instance });
        sh.vars.push(ShVar { name: new_string("y"), ty: new_string("float"), store: ShVarStore::Instance });
        sh.vars.push(ShVar { name: new_string("w"), ty: new_string("float"), store: ShVarStore::Instance });
        sh.vars.push(ShVar { name: new_string("h"), ty: new_string("float"), store: ShVarStore::Instance });
        sh.vars.push(ShVar { name: new_string("color"), ty: new_string("vec4"), store: ShVarStore::Instance });
        sh.vars.push(ShVar { name: new_string("pos"), ty: new_string("vec2"), store: ShVarStore::Varying });
        sh.vars.push(ShVar {
            name: new_string("draw_list_do_scroll"),
            ty: new_string("float"),
            store: ShVarStore::Uniform,
        });

        let mut vertex_body: Vec<ShTok> = Vec::new();
        vertex_body.push(ShTok::Text(new_string("  float2 shift = -")));
        vertex_body.push(ShTok::Ident(new_string("draw_list_scroll")));
        vertex_body.push(ShTok::Text(new_string(" * ")));
        vertex_body.push(ShTok::Ident(new_string("draw_list_do_scroll")));
        vertex_body.push(ShTok::Text(new_string(";\n  float2 clipped = clamp(")));
        vertex_body.push(ShTok::Ident(new_string("geom")));
        vertex_body.push(ShTok::Text(new_string(" * float2(")));
        vertex_body.push(ShTok::Ident(new_string("w")));
        vertex_body.push(ShTok::Text(new_string(", ")));
        vertex_body.push(ShTok::Ident(new_string("h")));
        vertex_body.push(ShTok::Text(new_string(") + float2(")));
        vertex_body.push(ShTok::Ident(new_string("x")));
        vertex_body.push(ShTok::Text(new_string(", ")));
        vertex_body.push(ShTok::Ident(new_string("y")));
        vertex_body.push(ShTok::Text(new_string(") + shift, ")));
        vertex_body.push(ShTok::Ident(new_string("draw_list_clip")));
        vertex_body.push(ShTok::Text(new_string(".xy, ")));
        vertex_body.push(ShTok::Ident(new_string("draw_list_clip")));
        vertex_body.push(ShTok::Text(new_string(".zw);\n  ")));
        vertex_body.push(ShTok::Ident(new_string("pos")));
        vertex_body.push(ShTok::Text(new_string(" = (clipped - shift - float2(")));
        vertex_body.push(ShTok::Ident(new_string("x")));
        vertex_body.push(ShTok::Text(new_string(", ")));
        vertex_body.push(ShTok::Ident(new_string("y")));
        vertex_body.push(ShTok::Text(new_string(")) / float2(")));
        vertex_body.push(ShTok::Ident(new_string("w")));
        vertex_body.push(ShTok::Text(new_string(", ")));
        vertex_body.push(ShTok::Ident(new_string("h")));
        vertex_body.push(ShTok::Text(new_string(");\n  return float4(clipped,0.,1.) * ")));
        vertex_body.push(ShTok::Ident(new_string("camera_projection")));
        vertex_body.push(ShTok::Text(new_string(";\n")));
        sh.fns.push(ShFn {
            name: new_string("vertex"),
            params: String::new(),
            ret: new_string("vec4"),
            body: vertex_body,
        });

        let mut pixel_body: Vec<ShTok> = Vec::new();
        pixel_body.push(ShTok::Text(new_string("  return float4(")));
        pixel_body.push(ShTok::Ident(new_string("color")));
        pixel_body.push(ShTok::Text(new_string(".rgb*")));
        pixel_body.push(ShTok::Ident(new_string("color")));
        pixel_body.push(ShTok::Text(new_string(".a, ")));
        pixel_body.push(ShTok::Ident(new_string("color")));
        pixel_body.push(ShTok::Text(new_string(".a);\n")));
        sh.fns.push(ShFn {
            name: new_string("pixel"),
            params: String::new(),
            ret: new_string("vec4"),
            body: pixel_body,
        });
        sh
    }

    /// Append one quad instance at the walked layout origin plus `rect`,
    /// carrying this widget's color; hands out the area covering it. A
    /// draw-call created by this append is handed its scroll uniform.
    pub fn draw_quad(&mut self, cx: &mut Cx, rect: Rect) -> (ia: InstanceArea)
        requires
            old(cx).wf(),
            (old(self).shader_id as int) < old(cx).compiled_shaders@.len(),
            old(cx).compiled_shaders@[old(self).shader_id as int].instance_slots == 8,
        ensures
            *final(self) == *old(self),
            final(cx).wf(),
            *final(cx) == (Cx { draw_lists: final(cx).draw_lists, ..*old(cx) }),
            ia.draw_list_id == old(cx).current_draw_list_id,
            ia.instance_count == 1,
            ia.instance_writer == 0,
            ia.spec_valid(*final(cx)),
            spec_ia_call(*final(cx), ia).shader_id == old(self).shader_id,
            ia.instance_offset + 8 == spec_ia_inst(*final(cx), ia).len(),
            spec_ia_inst(*final(cx), ia).subrange(
                ia.instance_offset as int,
                ia.instance_offset + 8,
            ) == seq![
                scalar::add_bits(old(cx).turtle_origin.x, rect.x),
                scalar::add_bits(old(cx).turtle_origin.y, rect.y),
                rect.w,
                rect.h,
                old(self).color.r,
                old(self).color.g,
                old(self).color.b,
                old(self).color.a,
            ],
            ({
                let oldlist = old(cx).draw_lists@[old(cx).current_draw_list_id as int];
                match crate::cx::spec_find_call(
                    oldlist.draw_calls@,
                    oldlist.draw_calls_len as int,
                    old(self).shader_id as int,
                ) {
                    Some(f) => {
                        &&& ia.draw_call_id == f
                        &&& ia.instance_offset == oldlist.draw_calls@[f].instance@.len()
                        &&& spec_ia_call(*final(cx), ia).uniforms@ == oldlist.draw_calls@[f].uniforms@
                    },
                    None => {
                        &&& ia.instance_offset == 0
                        &&& spec_ia_call(*final(cx), ia).uniforms@ == seq![
                            if old(self).do_scroll {
                                ONE_BITS
                            } else {
                                0u32
                            },
                        ]
                    },
                }
            }),
    {
        let ia = cx.new_instance(self.shader_id);
        let area = Area::Instance(ia);
        if area.need_uniforms_now(cx) {
            area.uniform_float(cx, "draw_list_do_scroll", if self.do_scroll {
                ONE_BITS
            } else {
                0
            });
        }
        let pos = cx.turtle_origin;
        let mut data: Vec<u32> = Vec::new();
        data.push(scalar::add(pos.x, rect.x));
        data.push(scalar::add(pos.y, rect.y));
        data.push(rect.w);
        data.push(rect.h);
        data.push(self.color.r);
        data.push(self.color.g);
        data.push(self.color.b);
        data.push(self.color.a);
        proof {
            assert(data@ =~= seq![
                scalar::add_bits(old(cx).turtle_origin.x, rect.x),
                scalar::add_bits(old(cx).turtle_origin.y, rect.y),
                rect.w,
                rect.h,
                old(self).color.r,
                old(self).color.g,
                old(self).color.b,
                old(self).color.a,
            ]);
        }
        area.append_data(cx, data.as_slice());
        proof {
            assert(spec_ia_inst(*cx, ia).subrange(
                ia.instance_offset as int,
                ia.instance_offset + 8,
            ) =~= data@);
            assert(ia.instance_offset + 1 * cx.spec_call_slots(
                ia.draw_list_id as int,
                ia.draw_call_id as int,
            ) <= spec_ia_inst(*cx, ia).len());
        }
        ia
    }
}

} // verus!
