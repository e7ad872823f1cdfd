//! The text widget: one instance record per glyph, twenty instance slots
//! (clip rectangle, glyph geometry, texture coordinates, color, pen
//! position, size and baseline), drawn against a signed-distance font
//! atlas.

use vstd::prelude::*;
use vstd::string::StrSliceExecFns;
use crate::area::{Area, InstanceArea, spec_ia_call, spec_ia_inst};
use crate::cx::{Cx, new_string};
use crate::math::{ONE_BITS, Vec4};
use crate::scalar;
use crate::shader::{ShFn, ShTok, ShVar, ShVarStore, Shader};

verus! {

/// The bit pattern of `-50000.0`, the "no clipping" rectangle corner.
pub const CLIP_MIN_BITS: u32 = 0xC743_5000;

/// The bit pattern of `50000.0`, the "no clipping" rectangle corner.
pub const CLIP_MAX_BITS: u32 = 0x4743_5000;

/// How a run of text breaks across layout bounds.
#[derive(Clone, Copy, Debug, PartialEq, Eq, Structural)]
pub enum Wrapping {
    Char,
    Word,
    Line,
    NoWrap,
}

/// One glyph of a font atlas, all scalars single-precision bit patterns:
/// the glyph box in em units, its atlas texture rectangle, and the pen
/// advance.
#[derive(Clone, Copy, Debug, PartialEq, Eq, Structural)]
pub struct Glyph {
    pub x1: u32,
    pub y1: u32,
    pub x2: u32,
    pub y2: u32,
    pub tx1: u32,
    pub ty1: u32,
    pub tx2: u32,
    pub ty2: u32,
    pub advance: u32,
}

/// A loaded font: its atlas texture, the atlas size (as single-precision
/// bit patterns), the glyph-slot table indexed by code point, and the
/// glyphs.
#[derive(Debug)]
pub struct Font {
    pub texture_id: usize,
    pub width: u32,
    pub height: u32,
    pub unicodes: Vec<usize>,
    pub glyphs: Vec<Glyph>,
}

/// A text drawer bound to a compiled shader and a font.
#[derive(Debug)]
pub struct Text {
    pub font_id: usize,
    pub shader_id: usize,
    pub text: String,
    pub color: Vec4,
    /// Em size, a single-precision bit pattern.
    pub font_size: u32,
    pub wrapping: Wrapping,
}

impl Text {
    /// The text shader: unit-quad geometry and, per glyph instance, a
    /// clip rectangle, the glyph box, its texture rectangle, a color, the
    /// pen position, the em size and the baseline — twenty instance
    /// slots.
    pub fn def_shader(sh: &mut Shader)
        ensures
            final(sh).geometry_vertices@ == seq![
                0u32,
                0u32,
                ONE_BITS,
                0u32,
                ONE_BITS,
                ONE_BITS,
                0u32,
                ONE_BITS,
            ],
            final(sh).geometry_indices@ == seq![0u32, 1u32, 2u32, 0u32, 3u32, 2u32],
            final(sh).vars@.len() == old(sh).vars@.len() + 13,
            forall|i: int|
                0 <= i < old(sh).vars@.len() ==> #[trigger] final(sh).vars@[i] == old(sh).vars@[i],
            ({
                let b = old(sh).vars@.len() as int;
                let vars = final(sh).vars@;
                &&& vars[b + 0].name@ == "geom"@ && vars[b + 0].ty@ == "vec2"@ && vars[b + 0].store
                    == ShVarStore::Geometry
                &&& vars[b + 1].name@ == "texture"@ && vars[b + 1].ty@ == "texture2d"@ && vars[b
                    + 1].store == ShVarStore::Texture
                &&& vars[b + 2].name@ == "tex_size"@ && vars[b + 2].ty@ == "vec2"@ && vars[b
                    + 2].store == ShVarStore::Uniform
                &&& vars[b + 3].name@ == "list_clip"@ && vars[b + 3].ty@ == "vec4"@ && vars[b
                    + 3].store == ShVarStore::Uniform
                &&& vars[b + 4].name@ == "draw_clip"@ && vars[b + 4].ty@ == "vec4"@ && vars[b
                    + 4].store == ShVarStore::Instance
                &&& vars[b + 5].name@ == "font_geom"@ && vars[b + 5].ty@ == "vec4"@ && vars[b
                    + 5].store == ShVarStore::Instance
                &&& vars[b + 6].name@ == "font_tc"@ && vars[b + 6].ty@ == "vec4"@ && vars[b
                    + 6].store == ShVarStore::Instance
                &&& vars[b + 7].name@ == "color"@ && vars[b + 7].ty@ == "vec4"@ && vars[b
                    + 7].store == ShVarStore::Instance
                &&& vars[b + 8].name@ == "x"@ && vars[b + 8].ty@ == "float"@ && vars[b + 8].store
                    == ShVarStore::Instance
                &&& vars[b + 9].name@ == "y"@ && vars[b + 9].ty@ == "float"@ && vars[b + 9].store
                    == ShVarStore::Instance
                &&& vars[b + 10].name@ == "font_size"@ && vars[b + 10].ty@ == "float"@ && vars[b
                    + 10].store == ShVarStore::Instance
                &&& vars[b + 11].name@ == "font_base"@ && vars[b + 11].ty@ == "float"@ && vars[b
                    + 11].store == ShVarStore::Instance
                &&& vars[b + 12].name@ == "tex_coord"@ && vars[b + 12].ty@ == "vec2"@ && vars[b
                    + 12].store == ShVarStore::Varying
            }),
            final(sh).fns@ == old(sh).fns@ + final(sh).fns@.skip(old(sh).fns@.len() as int),
            final(sh).fns@.len() == old(sh).fns@.len() + 2,
            ({
                let b = old(sh).fns@.len() as int;
                let fns = final(sh).fns@;
                &&& fns[b + 0].name@ == "pixel"@ && fns[b + 0].ret@ == "vec4"@ && fns[b
                    + 0].params@.len() == 0 && crate::mtl::spec_fn_inline(fns[b + 0])
                &&& fns[b + 1].name@ == "vertex"@ && fns[b + 1].ret@ == "vec4"@ && fns[b
                    + 1].params@.len() == 0 && crate::mtl::spec_fn_inline(fns[b + 1])
            }),
    {
        sh.geometry_vertices.clear();
        sh.geometry_vertices.push(0);
        sh.geometry_vertices.push(0);
        sh.geometry_vertices.push(ONE_BITS);
        sh.geometry_vertices.push(0);
        sh.geometry_vertices.push(ONE_BITS);
        sh.geometry_vertices.push(ONE_BITS);
        sh.geometry_vertices.push(0);
        sh.geometry_vertices.push(ONE_BITS);
        sh.geometry_indices.clear();
        sh.geometry_indices.push(0);
        sh.geometry_indices.push(1);
        sh.geometry_indices.push(2);
        sh.geometry_indices.push(0);
        sh.geometry_indices.push(3);
        sh.geometry_indices.push(2);
        proof {
            assert(sh.geometry_vertices@ =~= seq![
                0u32,
                0u32,
                ONE_BITS,
                0u32,
                ONE_BITS,
                ONE_BITS,
                0u32,
                ONE_BITS,
            ]);
            assert(sh.geometry_indices@ =~= seq![0u32, 1u32, 2u32, 0u32, 3u32, 2u32]);
        }
        sh.vars.push(ShVar { name: new_string("geom"), ty: new_string("vec2"), store: ShVarStore::Geometry });
        sh.vars.push(ShVar {
            name: new_string("texture"),
            ty: new_string("texture2d"),
            store: ShVarStore::Texture,
        });
        sh.vars.push(ShVar { name: new_string("tex_size"), ty: new_string("vec2"), store: ShVarStore::Uniform });
        sh.vars.push(ShVar { name: new_string("list_clip"), ty: new_string("vec4"), store: ShVarStore::Uniform });
        sh.vars.push(ShVar { name: new_string("draw_clip"), ty: new_string("vec4"), store: ShVarStore::Instance });
        sh.vars.push(ShVar { name: new_string("font_geom"), ty: new_string("vec4"), store: ShVarStore::Instance });
        sh.vars.push(ShVar { name: new_string("font_tc"), ty: new_string("vec4"), store: ShVarStore::Instance });
        sh.vars.push(ShVar { name: new_string("color"), ty: new_string("vec4"), store: ShVarStore::Instance });
        sh.vars.push(ShVar { name: new_string("x"), ty: new_string("float"), store: ShVarStore::Instance });
        sh.vars.push(ShVar { name: new_string("y"), ty: new_string("float"), store: ShVarStore::Instance });
        sh.vars.push(ShVar { name: new_string("font_size"), ty: new_string("float"), store: ShVarStore::Instance });
        sh.vars.push(ShVar { name: new_string("font_base"), ty: new_string("float"), store: ShVarStore::Instance });
        sh.vars.push(ShVar { name: new_string("tex_coord"), ty: new_string("vec2"), store: ShVarStore::Varying });

        let mut pixel_body: Vec<ShTok> = Vec::new();
        pixel_body.push(ShTok::Text(new_string("  float4 s = ")));
        let mut args: Vec<String> = Vec::new();
        args.push(new_string("_tex.texture"));
        args.push(new_string("_vary.tex_coord.xy"));
        pixel_body.push(ShTok::Call(new_string("sample2d"), args));
        pixel_body.push(
            ShTok::Text(
                new_string(
                    ";\n  float sig_dist = max(min(s.r, s.g), min(max(s.r, s.g), s.b)) - 0.5;\n  float cov = clamp(sig_dist / fwidth(sig_dist) + 0.5, 0.0, 1.0);\n  return ",
                ),
            ),
        );
        pixel_body.push(ShTok::Ident(new_string("color")));
        pixel_body.push(ShTok::Text(new_string(" * cov;\n")));
        sh.fns.push(ShFn {
            name: new_string("pixel"),
            params: String::new(),
            ret: new_string("vec4"),
            body: pixel_body,
        });

        let mut vertex_body: Vec<ShTok> = Vec::new();
        vertex_body.push(ShTok::Text(new_string("  float2 min_pos = float2(")));
        vertex_body.push(ShTok::Ident(new_string("x")));
        vertex_body.push(ShTok::Text(new_string(" + ")));
        vertex_body.push(ShTok::Ident(new_string("font_size")));
        vertex_body.push(ShTok::Text(new_string(" * ")));
        vertex_body.push(ShTok::Ident(new_string("font_geom")));
        vertex_body.push(ShTok::Text(new_string(".x, ")));
        vertex_body.push(ShTok::Ident(new_string("y")));
        vertex_body.push(ShTok::Text(new_string(" - ")));
        vertex_body.push(ShTok::Ident(new_string("font_size")));
        vertex_body.push(ShTok::Text(new_string(" * ")));
        vertex_body.push(ShTok::Ident(new_string("font_geom")));
        vertex_body.push(ShTok::Text(new_string(".y + ")));
        vertex_body.push(ShTok::Ident(new_string("font_size")));
        vertex_body.push(ShTok::Text(new_string(" * ")));
        vertex_body.push(ShTok::Ident(new_string("font_base")));
        vertex_body.push(ShTok::Text(new_string(");\n  float2 max_pos = float2(")));
        vertex_body.push(ShTok::Ident(new_string("x")));
        vertex_body.push(ShTok::Text(new_string(" + ")));
        vertex_body.push(ShTok::Ident(new_string("font_size")));
        vertex_body.push(ShTok::Text(new_string(" * ")));
        vertex_body.push(ShTok::Ident(new_string("font_geom")));
        vertex_body.push(ShTok::Text(new_string(".z, ")));
        vertex_body.push(ShTok::Ident(new_string("y")));
        vertex_body.push(ShTok::Text(new_string(" - ")));
        vertex_body.push(ShTok::Ident(new_string("font_size")));
        vertex_body.push(ShTok::Text(new_string(" * ")));
        vertex_body.push(ShTok::Ident(new_string("font_geom")));
        vertex_body.push(ShTok::Text(new_string(".w + ")));
        vertex_body.push(ShTok::Ident(new_string("font_size")));
        vertex_body.push(ShTok::Text(new_string(" * ")));
        vertex_body.push(ShTok::Ident(new_string("font_base")));
        vertex_body.push(ShTok::Text(new_string(");\n  float2 clipped = clamp(mix(min_pos, max_pos, ")));
        vertex_body.push(ShTok::Ident(new_string("geom")));
        vertex_body.push(ShTok::Text(new_string("), max(")));
        vertex_body.push(ShTok::Ident(new_string("draw_clip")));
        vertex_body.push(ShTok::Text(new_string(".xy, ")));
        vertex_body.push(ShTok::Ident(new_string("list_clip")));
        vertex_body.push(ShTok::Text(new_string(".xy), min(")));
        vertex_body.push(ShTok::Ident(new_string("draw_clip")));
        vertex_body.push(ShTok::Text(new_string(".zw, ")));
        vertex_body.push(ShTok::Ident(new_string("list_clip")));
        vertex_body.push(
            ShTok::Text(
                new_string(
                    ".zw));\n  float2 normalized = (clipped - min_pos) / (max_pos - min_pos);\n  ",
                ),
            ),
        );
        vertex_body.push(ShTok::Ident(new_string("tex_coord")));
        vertex_body.push(ShTok::Text(new_string(" = mix(")));
        vertex_body.push(ShTok::Ident(new_string("font_tc")));
        vertex_body.push(ShTok::Text(new_string(".xy, ")));
        vertex_body.push(ShTok::Ident(new_string("font_tc")));
        vertex_body.push(ShTok::Text(new_string(".zw, normalized.xy);\n  return float4(clipped,0.,1.) * ")));
        vertex_body.push(ShTok::Ident(new_string("camera_projection")));
        vertex_body.push(ShTok::Text(new_string(";\n")));
        sh.fns.push(ShFn {
            name: new_string("vertex"),
            params: String::new(),
            ret: new_string("vec4"),
            body: vertex_body,
        });
    }
}

/// Whether `draw_text` skips the character `c` under `font`: code points
/// beyond the table, unmapped glyph slots, and slots beyond the glyph
/// vector draw nothing.
pub open spec fn spec_char_skipped(font: Font, c: char) -> bool {
    ||| c as int >= font.unicodes@.len()
    ||| font.unicodes@[c as int] == 0
    ||| font.unicodes@[c as int] >= font.glyphs@.len()
}

/// The glyph a character resolves to.
pub open spec fn spec_char_glyph(font: Font, c: char) -> Glyph {
    font.glyphs@[font.unicodes@[c as int] as int]
}

/// The twenty instance scalars of one glyph record at pen position
/// `(wx, wy)`: an unbounded clip rectangle, the glyph box, its texture
/// rectangle, an opaque white color, the pen position, the em size and a
/// unit baseline.
pub open spec fn spec_glyph_record(g: Glyph, wx: u32, wy: u32, size: u32) -> Seq<u32> {
    seq![
        CLIP_MIN_BITS,
        CLIP_MIN_BITS,
        CLIP_MAX_BITS,
        CLIP_MAX_BITS,
        g.x1,
        g.y1,
        g.x2,
        g.y2,
        g.tx1,
        g.ty1,
        g.tx2,
        g.ty2,
        ONE_BITS,
        ONE_BITS,
        ONE_BITS,
        ONE_BITS,
        wx,
        wy,
        size,
        ONE_BITS,
    ]
}

/// The records `draw_text` appends for `text[i..]` starting at pen
/// position `(wx, wy)`: one record per drawable glyph, the pen advancing
/// by the glyph's advance times the em size.
pub open spec fn spec_text_records(
    font: Font,
    text: Seq<char>,
    i: int,
    wx: u32,
    wy: u32,
    size: u32,
) -> Seq<u32>
    decreases (if text.len() - i >= 0 { text.len() - i } else { 0 }) as nat,
{
    if i < 0 || i >= text.len() {
        Seq::<u32>::empty()
    } else {
        let c = text[i];
        if spec_char_skipped(font, c) {
            spec_text_records(font, text, i + 1, wx, wy, size)
        } else {
            let g = spec_char_glyph(font, c);
            spec_glyph_record(g, wx, wy, size) + spec_text_records(
                font,
                text,
                i + 1,
                scalar::add_bits(wx, scalar::mul_bits(g.advance, size)),
                wy,
                size,
            )
        }
    }
}

/// One glyph record appended: the draw-call's instance vector grows by
/// twenty scalars.
proof fn lemma_text_records_len(font: Font, text: Seq<char>, i: int, wx: u32, wy: u32, size: u32)
    ensures
        spec_text_records(font, text, i, wx, wy, size).len() % 20 == 0,
    decreases (if text.len() - i >= 0 { text.len() - i } else { 0 }) as nat,
{
    if i < 0 || i >= text.len() {
    } else {
        let c = text[i];
        if spec_char_skipped(font, c) {
            lemma_text_records_len(font, text, i + 1, wx, wy, size);
        } else {
            let g = spec_char_glyph(font, c);
            let rest = spec_text_records(
                font,
                text,
                i + 1,
                scalar::add_bits(wx, scalar::mul_bits(g.advance, size)),
                wy,
                size,
            );
            lemma_text_records_len(
                font,
                text,
                i + 1,
                scalar::add_bits(wx, scalar::mul_bits(g.advance, size)),
                wy,
                size,
            );
            assert((20 + rest.len() as int) % 20 == 0) by {
                vstd::arithmetic::div_mod::lemma_add_mod_noop(20, rest.len() as int, 20);
            }
        }
    }
}

/// Append the glyph records of `text[i..]` to the draw-call behind `ia`.
fn draw_glyphs(
    cx: &mut Cx,
    ia: &InstanceArea,
    font: &Font,
    text: &str,
    i: usize,
    n: usize,
    wx: u32,
    wy: u32,
    size: u32,
)
    requires
        n == text@.len(),
        (ia.draw_list_id as int) < old(cx).draw_lists@.len(),
        (ia.draw_call_id as int) < old(cx).draw_lists@[ia.draw_list_id as int].draw_calls@.len(),
        (spec_ia_call(*old(cx), *ia).shader_id as int) < old(cx).compiled_shaders@.len(),
        old(cx).compiled_shaders@[spec_ia_call(*old(cx), *ia).shader_id as int].instance_slots
            == 20,
    ensures
        *final(cx) == (Cx { draw_lists: final(cx).draw_lists, ..*old(cx) }),
        final(cx).draw_lists@.len() == old(cx).draw_lists@.len(),
        forall|l: int|
            0 <= l < old(cx).draw_lists@.len() && l != ia.draw_list_id as int ==> final(cx).draw_lists@[l] == old(cx).draw_lists@[l],
        final(cx).draw_lists@[ia.draw_list_id as int] == (crate::cx::DrawList {
            draw_calls: final(cx).draw_lists@[ia.draw_list_id as int].draw_calls,
            ..old(cx).draw_lists@[ia.draw_list_id as int]
        }),
        final(cx).draw_lists@[ia.draw_list_id as int].draw_calls@.len() == old(cx).draw_lists@[ia.draw_list_id as int].draw_calls@.len(),
        forall|c: int|
            0 <= c < old(cx).draw_lists@[ia.draw_list_id as int].draw_calls@.len() && c
                != ia.draw_call_id as int ==> final(cx).draw_lists@[ia.draw_list_id as int].draw_calls@[c] == old(cx).draw_lists@[ia.draw_list_id as int].draw_calls@[c],
        spec_ia_call(*final(cx), *ia) == (crate::cx::DrawCall {
            instance: spec_ia_call(*final(cx), *ia).instance,
            ..spec_ia_call(*old(cx), *ia)
        }),
        spec_ia_inst(*final(cx), *ia) == spec_ia_inst(*old(cx), *ia) + spec_text_records(
            *font,
            text@,
            i as int,
            wx,
            wy,
            size,
        ),
        old(cx).wf() ==> final(cx).wf(),
    decreases n - i,
{
    if i >= n {
        proof {
            assert(spec_ia_inst(*cx, *ia) =~= spec_ia_inst(*cx, *ia) + spec_text_records(
                *font,
                text@,
                i as int,
                wx,
                wy,
                size,
            ));
        }
        return ;
    }
    let c = text.get_char(i);
    let cu = c as usize;
    let mut wx2 = wx;
    if cu < font.unicodes.len() {
        let slot = font.unicodes[cu];
        if slot != 0 && slot < font.glyphs.len() {
            let g = font.glyphs[slot];
            let mut data: Vec<u32> = Vec::new();
            data.push(CLIP_MIN_BITS);
            data.push(CLIP_MIN_BITS);
            data.push(CLIP_MAX_BITS);
            data.push(CLIP_MAX_BITS);
            data.push(g.x1);
            data.push(g.y1);
            data.push(g.x2);
            data.push(g.y2);
            data.push(g.tx1);
            data.push(g.ty1);
            data.push(g.tx2);
            data.push(g.ty2);
            data.push(ONE_BITS);
            data.push(ONE_BITS);
            data.push(ONE_BITS);
            data.push(ONE_BITS);
            data.push(wx);
            data.push(wy);
            data.push(size);
            data.push(ONE_BITS);
            proof {
                assert(data@ =~= spec_glyph_record(g, wx, wy, size));
            }
            let area = Area::Instance(*ia);
            area.append_data(cx, data.as_slice());
            wx2 = scalar::add(wx, scalar::mul(g.advance, size));
        }
    }
    draw_glyphs(cx, ia, font, text, i + 1, n, wx2, wy, size);
    proof {
        assert(spec_ia_inst(*cx, *ia) =~= spec_ia_inst(*old(cx), *ia) + spec_text_records(
            *font,
            text@,
            i as int,
            wx,
            wy,
            size,
        ));
    }
}

impl Text {
    /// Draw `text` glyph by glyph from pen position `(x, y)`: for each
    /// drawable character one twenty-slot instance record, the pen
    /// advancing by the glyph advance scaled to the em size. A draw-call
    /// created by this run is handed its font texture, the atlas size and
    /// an unbounded clip rectangle. Returns the area covering the
    /// appended records.
    pub fn draw_text(&mut self, cx: &mut Cx, font: &Font, x: u32, y: u32, text: &str) -> (ia:
        InstanceArea)
        requires
            old(cx).wf(),
            (old(self).shader_id as int) < old(cx).compiled_shaders@.len(),
            old(cx).compiled_shaders@[old(self).shader_id as int].instance_slots == 20,
            (font.texture_id as int) < old(cx).textures_2d@.len(),
            font.texture_id <= u32::MAX,
        ensures
            *final(self) == *old(self),
            final(cx).wf(),
            *final(cx) == (Cx { draw_lists: final(cx).draw_lists, ..*old(cx) }),
            ia.draw_list_id == old(cx).current_draw_list_id,
            ia.instance_writer == 0,
            spec_ia_call(*final(cx), ia).shader_id == old(self).shader_id,
            ({
                let recs = spec_text_records(*font, text@, 0, x, y, old(self).font_size);
                &&& spec_ia_inst(*final(cx), ia).len() == ia.instance_offset + recs.len()
                &&& spec_ia_inst(*final(cx), ia).subrange(
                    ia.instance_offset as int,
                    spec_ia_inst(*final(cx), ia).len() as int,
                ) == recs
                &&& ia.instance_count * 20 == recs.len()
                &&& ia.spec_valid(*final(cx))
            }),
    {
        let ia0 = cx.new_instance(self.shader_id);
        let area = Area::Instance(ia0);
        if area.need_uniforms_now(cx) {
            area.uniform_texture(cx, "texture", font.texture_id);
            area.uniform_vec2f(cx, "tex_size", font.width, font.height);
            area.uniform_vec4f(
                cx,
                "list_clip",
                CLIP_MIN_BITS,
                CLIP_MIN_BITS,
                CLIP_MAX_BITS,
                CLIP_MAX_BITS,
            );
        }
        let n = text.unicode_len();
        draw_glyphs(cx, &ia0, font, text, 0, n, x, y, self.font_size);
        let inst_len = cx.draw_lists[ia0.draw_list_id].draw_calls[ia0.draw_call_id].instance.len();
        let added = inst_len - ia0.instance_offset;
        let count = added / 20;
        proof {
            lemma_text_records_len(*font, text@, 0, x, y, self.font_size);
            vstd::arithmetic::div_mod::lemma_fundamental_div_mod(added as int, 20);
        }
        InstanceArea {
            draw_list_id: ia0.draw_list_id,
            draw_call_id: ia0.draw_call_id,
            instance_offset: ia0.instance_offset,
            instance_count: count,
            instance_writer: 0,
        }
    }
}

} // verus!
