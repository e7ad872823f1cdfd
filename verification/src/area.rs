//! The `Area` handle: a stable identifier for a slice of instance storage
//! (or a whole draw-list) supporting named attribute reads and writes,
//! rectangle extraction and translation, uniform pushes and hit-testing.

use vstd::prelude::*;
use vstd::arithmetic::div_mod::lemma_small_mod;
use crate::cx::{Cx, DrawCall, DrawList};
use crate::math::{Rect, Vec2, Vec3, Vec4, Mat4};
use crate::scalar;
use crate::shader::{NamedInstanceProp, opt_offset};
use crate::strutil::str_eq;

verus! {

/// A handle onto `instance_count` instance records of one draw-call,
/// starting `instance_offset` scalars into its instance vector.
#[derive(Clone, Copy, Debug, PartialEq, Eq, Structural)]
pub struct InstanceArea {
    pub draw_list_id: usize,
    pub draw_call_id: usize,
    pub instance_offset: usize,
    pub instance_count: usize,
    pub instance_writer: usize,
}

/// A handle onto a whole draw-list.
#[derive(Clone, Copy, Debug, PartialEq, Eq, Structural)]
pub struct DrawListArea {
    pub draw_list_id: usize,
}

/// A stable handle into the scene: nothing, everything, one draw-list, or
/// a run of instance records of one draw-call.
#[derive(Clone, Copy, Debug, PartialEq, Eq, Structural)]
pub enum Area {
    Empty,
    All,
    Instance(InstanceArea),
    DrawList(DrawListArea),
}

impl Default for Area {
    fn default() -> (r: Area)
        ensures
            r == Area::Empty,
    {
        Area::Empty
    }
}

impl Area {
    /// Whether this handle points at nothing.
    pub fn is_empty(&self) -> (r: bool)
        ensures
            r == (*self == Area::Empty),
    {
        if let Area::Empty = self {
            return true;
        }
        false
    }
}

/// The draw-call an instance area points into.
pub open spec fn spec_ia_call(cx: Cx, ia: InstanceArea) -> DrawCall {
    cx.draw_lists@[ia.draw_list_id as int].draw_calls@[ia.draw_call_id as int]
}

/// The compiled shader of that draw-call.
pub open spec fn spec_ia_shader(cx: Cx, ia: InstanceArea) -> crate::cx::CompiledShader {
    cx.compiled_shaders@[spec_ia_call(cx, ia).shader_id as int]
}

/// The named-attribute table of that shader.
pub open spec fn spec_ia_props(cx: Cx, ia: InstanceArea) -> Seq<NamedInstanceProp> {
    spec_ia_shader(cx, ia).named_instance_props.props@
}

/// The instance payload of that draw-call.
pub open spec fn spec_ia_inst(cx: Cx, ia: InstanceArea) -> Seq<u32> {
    spec_ia_call(cx, ia).instance@
}

impl InstanceArea {
    /// The handle's ids exist and its records lie inside the draw-call's
    /// instance vector.
    pub open spec fn spec_valid(self, cx: Cx) -> bool {
        &&& (self.draw_list_id as int) < cx.draw_lists@.len()
        &&& (self.draw_call_id as int) < cx.draw_lists@[self.draw_list_id as int].draw_calls@.len()
        &&& (spec_ia_call(cx, self).shader_id as int) < cx.compiled_shaders@.len()
        &&& self.instance_offset + self.instance_count * cx.spec_call_slots(
            self.draw_list_id as int,
            self.draw_call_id as int,
        ) <= spec_ia_inst(cx, self).len()
    }
}

/// The first entry of `props` (from index `i` on) carrying `name`, if any.
pub open spec fn spec_find_prop_from(
    props: Seq<NamedInstanceProp>,
    name: Seq<char>,
    i: int,
) -> Option<int>
    decreases props.len() - i,
{
    if i < 0 || i >= props.len() {
        None
    } else if props[i].name@ == name {
        Some(i)
    } else {
        spec_find_prop_from(props, name, i + 1)
    }
}

/// The first entry of `props` carrying `name`, if any.
pub open spec fn spec_find_prop(props: Seq<NamedInstanceProp>, name: Seq<char>) -> Option<int> {
    spec_find_prop_from(props, name, 0)
}

proof fn lemma_find_prop_from_hit(props: Seq<NamedInstanceProp>, name: Seq<char>, i: int, f: int)
    requires
        spec_find_prop_from(props, name, i) == Some(f),
    ensures
        i <= f < props.len(),
        props[f].name@ == name,
    decreases props.len() - i,
{
    if !(i < 0 || i >= props.len()) {
        if props[i].name@ == name {
        } else {
            lemma_find_prop_from_hit(props, name, i + 1, f);
        }
    }
}

/// A hit of the attribute search indeed lies in the table and carries the
/// searched name.
pub proof fn lemma_find_prop_hit(props: Seq<NamedInstanceProp>, name: Seq<char>, f: int)
    requires
        spec_find_prop(props, name) == Some(f),
    ensures
        0 <= f < props.len(),
        props[f].name@ == name,
{
    lemma_find_prop_from_hit(props, name, 0, f);
}

/// Scan the named-attribute table for `name`; the first match wins.
fn find_prop(props: &Vec<NamedInstanceProp>, name: &str) -> (r: Option<usize>)
    ensures
        ({
            match r {
                Some(i) => spec_find_prop(props@, name@) == Some(i as int),
                None => spec_find_prop(props@, name@) is None,
            }
        }),
{
    let n = props.len();
    let mut i: usize = 0;
    while i < n
        invariant
            n == props@.len(),
            i <= n,
            spec_find_prop(props@, name@) == spec_find_prop_from(props@, name@, i as int),
        decreases n - i,
    {
        if str_eq(props[i].name.as_str(), name) {
            return Some(i);
        }
        i += 1;
    }
    None
}

/// `s` with `vals` written over the run starting at `at`.
pub open spec fn spec_overwrite(s: Seq<u32>, at: int, vals: Seq<u32>) -> Seq<u32> {
    Seq::new(s.len(), |j: int| if at <= j < at + vals.len() { vals[j - at] } else { s[j] })
}

/// A sequence of `width` zero scalars (the bit pattern of `0.0`).
pub open spec fn spec_zeros(width: nat) -> Seq<u32> {
    Seq::new(width, |j: int| 0u32)
}

/// Whether, should `name` resolve in the shader's attribute table, the
/// written run of `width` scalars lies inside the area's first record.
pub open spec fn spec_prop_fits(cx: Cx, ia: InstanceArea, name: Seq<char>, width: nat) -> bool {
    match spec_find_prop(spec_ia_props(cx, ia), name) {
        Some(p) => ia.instance_count >= 1 && ia.instance_offset + spec_ia_props(cx, ia)[p].offset
            + width <= spec_ia_inst(cx, ia).len(),
        None => true,
    }
}

/// How an attribute write changes the context: nothing at all when the
/// name does not resolve; otherwise exactly the written scalars change,
/// and the repaint flag is raised.
pub open spec fn spec_wrote_attr(
    cx0: Cx,
    cx1: Cx,
    ia: InstanceArea,
    name: Seq<char>,
    vals: Seq<u32>,
) -> bool {
    match spec_find_prop(spec_ia_props(cx0, ia), name) {
        None => cx1 == cx0,
        Some(p) => {
            let dl = ia.draw_list_id as int;
            let dc = ia.draw_call_id as int;
            let base = ia.instance_offset + spec_ia_props(cx0, ia)[p].offset;
            &&& cx1 == (Cx { draw_lists: cx1.draw_lists, paint_dirty: true, ..cx0 })
            &&& cx1.draw_lists@.len() == cx0.draw_lists@.len()
            &&& (forall|l: int|
                0 <= l < cx0.draw_lists@.len() && l != dl ==> cx1.draw_lists@[l]
                    == cx0.draw_lists@[l])
            &&& cx1.draw_lists@[dl] == (DrawList {
                draw_calls: cx1.draw_lists@[dl].draw_calls,
                ..cx0.draw_lists@[dl]
            })
            &&& cx1.draw_lists@[dl].draw_calls@.len() == cx0.draw_lists@[dl].draw_calls@.len()
            &&& (forall|c: int|
                0 <= c < cx0.draw_lists@[dl].draw_calls@.len() && c != dc ==> cx1.draw_lists@[dl].draw_calls@[c]
                    == cx0.draw_lists@[dl].draw_calls@[c])
            &&& cx1.draw_lists@[dl].draw_calls@[dc] == (DrawCall {
                instance: cx1.draw_lists@[dl].draw_calls@[dc].instance,
                ..cx0.draw_lists@[dl].draw_calls@[dc]
            })
            &&& spec_ia_inst(cx1, ia) == spec_overwrite(spec_ia_inst(cx0, ia), base, vals)
        },
    }
}

/// How an attribute write through an arbitrary area changes the context:
/// only the `Instance` variant writes; every other variant is a no-op.
pub open spec fn spec_area_written(
    cx0: Cx,
    cx1: Cx,
    area: Area,
    name: Seq<char>,
    vals: Seq<u32>,
) -> bool {
    match area {
        Area::Instance(ia) => spec_wrote_attr(cx0, cx1, ia, name, vals),
        _ => cx1 == cx0,
    }
}

/// What an attribute read through an area returns: the `width` scalars at
/// the resolved offset of the first record, or zeros when the name does
/// not resolve or the area holds no instances.
pub open spec fn spec_area_read(cx: Cx, area: Area, name: Seq<char>, width: nat) -> Seq<u32> {
    match area {
        Area::Instance(ia) => match spec_find_prop(spec_ia_props(cx, ia), name) {
            Some(p) => {
                let base = ia.instance_offset + spec_ia_props(cx, ia)[p].offset;
                spec_ia_inst(cx, ia).subrange(base as int, base + width)
            },
            None => spec_zeros(width),
        },
        _ => spec_zeros(width),
    }
}

/// The validity a write or read of `width` scalars at `name` needs: for
/// instance areas, the handle is in range and the resolved run fits.
pub open spec fn spec_area_io_ok(cx: Cx, area: Area, name: Seq<char>, width: nat) -> bool {
    match area {
        Area::Instance(ia) => ia.spec_valid(cx) && spec_prop_fits(cx, ia, name, width),
        _ => true,
    }
}

/// Write `vals` over the attribute `name` of the area's first instance
/// record; a silent no-op when the shader has no such attribute.
fn write_prop<const W: usize>(cx: &mut Cx, ia: &InstanceArea, name: &str, vals: &[u32; W]) -> (wrote: bool)
    requires
        ia.spec_valid(*old(cx)),
        spec_prop_fits(*old(cx), *ia, name@, vals@.len()),
    ensures
        spec_wrote_attr(*old(cx), *final(cx), *ia, name@, vals@),
        wrote == (spec_find_prop(spec_ia_props(*old(cx), *ia), name@) is Some),
        old(cx).wf() ==> final(cx).wf(),
{
    let dl = ia.draw_list_id;
    let dc = ia.draw_call_id;
    let shader_id = cx.draw_lists[dl].draw_calls[dc].shader_id;
    let inst_len = cx.draw_lists[dl].draw_calls[dc].instance.len();
    let found = find_prop(&cx.compiled_shaders[shader_id].named_instance_props.props, name);
    match found {
        Some(p) => {
            proof {
                lemma_find_prop_hit(spec_ia_props(*old(cx), *ia), name@, p as int);
            }
            let off = cx.compiled_shaders[shader_id].named_instance_props.props[p].offset;
            let base = ia.instance_offset + off;
            let w = vals.len();
            let call = &mut cx.draw_lists[dl].draw_calls[dc];
            let mut k: usize = 0;
            while k < w
                invariant
                    w == vals@.len(),
                    k <= w,
                    base + w <= inst_len,
                    call.instance@.len() == inst_len,
                    call.instance@.len() == spec_ia_inst(*old(cx), *ia).len(),
                    call.instance@ == spec_overwrite(
                        spec_ia_inst(*old(cx), *ia),
                        base as int,
                        vals@.subrange(0, k as int),
                    ),
                    *call == (DrawCall {
                        instance: call.instance,
                        ..spec_ia_call(*old(cx), *ia)
                    }),
                decreases w - k,
            {
                call.instance.set(base + k, vals[k]);
                proof {
                    assert(call.instance@ =~= spec_overwrite(
                        spec_ia_inst(*old(cx), *ia),
                        base as int,
                        vals@.subrange(0, k + 1),
                    ));
                }
                k += 1;
            }
            proof {
                assert(vals@.subrange(0, w as int) =~= vals@);
            }
            cx.paint_dirty = true;
            proof {
                if old(cx).wf() {
                    assert forall|l: int, c: int|
                        0 <= l < cx.draw_lists@.len() && 0 <= c
                            < cx.draw_lists@[l].draw_calls@.len() implies #[trigger] cx.spec_call_wf(
                        l,
                        c,
                    ) by {
                        assert(old(cx).spec_call_wf(l, c));
                        assert(cx.spec_call_slots(l, c) == old(cx).spec_call_slots(l, c));
                        assert(cx.draw_lists@[l].draw_calls@[c].instance@.len() == old(
                            cx,
                        ).draw_lists@[l].draw_calls@[c].instance@.len());
                    }
                }
            }
            true
        },
        None => false,
    }
}

impl Area {
    /// Write one scalar over the instance attribute `prop_name` of the
    /// area's first record; a silent no-op (the context is left untouched)
    /// when the area is no instance area or the shader has no such
    /// attribute.
    pub fn write_float(&self, cx: &mut Cx, prop_name: &str, value: u32)
        requires
            spec_area_io_ok(*old(cx), *self, prop_name@, 1),
        ensures
            spec_area_written(*old(cx), *final(cx), *self, prop_name@, seq![value]),
            old(cx).wf() ==> final(cx).wf(),
    {
        match self {
            Area::Instance(ia) => {
                let vals = [value];
                proof {
                    assert(vals@ =~= seq![value]);
                }
                write_prop(cx, ia, prop_name, &vals);
            },
            _ => (),
        }
    }

    /// Read the scalar instance attribute `prop_name` from the area's
    /// first record; zero when absent.
    pub fn read_float(&self, cx: &Cx, prop_name: &str) -> (r: u32)
        requires
            spec_area_io_ok(*cx, *self, prop_name@, 1),
        ensures
            r == spec_area_read(*cx, *self, prop_name@, 1)[0],
    {
        match self {
            Area::Instance(ia) => {
                let dl = ia.draw_list_id;
                let dc = ia.draw_call_id;
                let shader_id = cx.draw_lists[dl].draw_calls[dc].shader_id;
                let inst_len = cx.draw_lists[dl].draw_calls[dc].instance.len();
                let found = find_prop(
                    &cx.compiled_shaders[shader_id].named_instance_props.props,
                    prop_name,
                );
                match found {
                    Some(p) => {
                        proof {
                            lemma_find_prop_hit(spec_ia_props(*cx, *ia), prop_name@, p as int);
                        }
                        let off =
                            cx.compiled_shaders[shader_id].named_instance_props.props[p].offset;
                        let base = ia.instance_offset + off;
                        cx.draw_lists[dl].draw_calls[dc].instance[base]
                    },
                    None => 0,
                }
            },
            _ => 0,
        }
    }

    /// Write two scalars over the instance attribute `prop_name` of the
    /// area's first record; a silent no-op when the attribute is absent.
    pub fn write_vec2(&self, cx: &mut Cx, prop_name: &str, value: Vec2)
        requires
            spec_area_io_ok(*old(cx), *self, prop_name@, 2),
        ensures
            spec_area_written(*old(cx), *final(cx), *self, prop_name@, seq![value.x, value.y]),
            old(cx).wf() ==> final(cx).wf(),
    {
        match self {
            Area::Instance(ia) => {
                let vals = [value.x, value.y];
                proof {
                    assert(vals@ =~= seq![value.x, value.y]);
                }
                write_prop(cx, ia, prop_name, &vals);
            },
            _ => (),
        }
    }

    /// Read the two-scalar instance attribute `prop_name` from the area's
    /// first record; the zero vector when absent.
    pub fn read_vec2(&self, cx: &Cx, prop_name: &str) -> (r: Vec2)
        requires
            spec_area_io_ok(*cx, *self, prop_name@, 2),
        ensures
            r.x == spec_area_read(*cx, *self, prop_name@, 2)[0],
            r.y == spec_area_read(*cx, *self, prop_name@, 2)[1],
    {
        match self {
            Area::Instance(ia) => {
                let dl = ia.draw_list_id;
                let dc = ia.draw_call_id;
                let shader_id = cx.draw_lists[dl].draw_calls[dc].shader_id;
                let inst_len = cx.draw_lists[dl].draw_calls[dc].instance.len();
                let found = find_prop(
                    &cx.compiled_shaders[shader_id].named_instance_props.props,
                    prop_name,
                );
                match found {
                    Some(p) => {
                        proof {
                            lemma_find_prop_hit(spec_ia_props(*cx, *ia), prop_name@, p as int);
                        }
                        let off =
                            cx.compiled_shaders[shader_id].named_instance_props.props[p].offset;
                        let base = ia.instance_offset + off;
                        Vec2 {
                            x: cx.draw_lists[dl].draw_calls[dc].instance[base],
                            y: cx.draw_lists[dl].draw_calls[dc].instance[base + 1],
                        }
                    },
                    None => Vec2::zero(),
                }
            },
            _ => Vec2::zero(),
        }
    }

    /// Write three scalars over the instance attribute `prop_name` of the
    /// area's first record; a silent no-op when the attribute is absent.
    pub fn write_vec3(&self, cx: &mut Cx, prop_name: &str, value: Vec3)
        requires
            spec_area_io_ok(*old(cx), *self, prop_name@, 3),
        ensures
            spec_area_written(
                *old(cx),
                *final(cx),
                *self,
                prop_name@,
                seq![value.x, value.y, value.z],
            ),
            old(cx).wf() ==> final(cx).wf(),
    {
        match self {
            Area::Instance(ia) => {
                let vals = [value.x, value.y, value.z];
                proof {
                    assert(vals@ =~= seq![value.x, value.y, value.z]);
                }
                write_prop(cx, ia, prop_name, &vals);
            },
            _ => (),
        }
    }

    /// Read the three-scalar instance attribute `prop_name` from the
    /// area's first record; the zero vector when absent.
    pub fn read_vec3(&self, cx: &Cx, prop_name: &str) -> (r: Vec3)
        requires
            spec_area_io_ok(*cx, *self, prop_name@, 3),
        ensures
            r.x == spec_area_read(*cx, *self, prop_name@, 3)[0],
            r.y == spec_area_read(*cx, *self, prop_name@, 3)[1],
            r.z == spec_area_read(*cx, *self, prop_name@, 3)[2],
    {
        match self {
            Area::Instance(ia) => {
                let dl = ia.draw_list_id;
                let dc = ia.draw_call_id;
                let shader_id = cx.draw_lists[dl].draw_calls[dc].shader_id;
                let inst_len = cx.draw_lists[dl].draw_calls[dc].instance.len();
                let found = find_prop(
                    &cx.compiled_shaders[shader_id].named_instance_props.props,
                    prop_name,
                );
                match found {
                    Some(p) => {
                        proof {
                            lemma_find_prop_hit(spec_ia_props(*cx, *ia), prop_name@, p as int);
                        }
                        let off =
                            cx.compiled_shaders[shader_id].named_instance_props.props[p].offset;
                        let base = ia.instance_offset + off;
                        Vec3 {
                            x: cx.draw_lists[dl].draw_calls[dc].instance[base],
                            y: cx.draw_lists[dl].draw_calls[dc].instance[base + 1],
                            z: cx.draw_lists[dl].draw_calls[dc].instance[base + 2],
                        }
                    },
                    None => Vec3::zero(),
                }
            },
            _ => Vec3::zero(),
        }
    }

    /// Write four scalars over the instance attribute `prop_name` of the
    /// area's first record; a silent no-op when the attribute is absent.
    pub fn write_vec4(&self, cx: &mut Cx, prop_name: &str, value: Vec4)
        requires
            spec_area_io_ok(*old(cx), *self, prop_name@, 4),
        ensures
            spec_area_written(
                *old(cx),
                *final(cx),
                *self,
                prop_name@,
                seq![value.x, value.y, value.z, value.w],
            ),
            old(cx).wf() ==> final(cx).wf(),
    {
        match self {
            Area::Instance(ia) => {
                let vals = [value.x, value.y, value.z, value.w];
                proof {
                    assert(vals@ =~= seq![value.x, value.y, value.z, value.w]);
                }
                write_prop(cx, ia, prop_name, &vals);
            },
            _ => (),
        }
    }

    /// Read the four-scalar instance attribute `prop_name` from the
    /// area's first record; the zero vector when absent.
    pub fn read_vec4(&self, cx: &Cx, prop_name: &str) -> (r: Vec4)
        requires
            spec_area_io_ok(*cx, *self, prop_name@, 4),
        ensures
            r.x == spec_area_read(*cx, *self, prop_name@, 4)[0],
            r.y == spec_area_read(*cx, *self, prop_name@, 4)[1],
            r.z == spec_area_read(*cx, *self, prop_name@, 4)[2],
            r.w == spec_area_read(*cx, *self, prop_name@, 4)[3],
    {
        match self {
            Area::Instance(ia) => {
                let dl = ia.draw_list_id;
                let dc = ia.draw_call_id;
                let shader_id = cx.draw_lists[dl].draw_calls[dc].shader_id;
                let inst_len = cx.draw_lists[dl].draw_calls[dc].instance.len();
                let found = find_prop(
                    &cx.compiled_shaders[shader_id].named_instance_props.props,
                    prop_name,
                );
                match found {
                    Some(p) => {
                        proof {
                            lemma_find_prop_hit(spec_ia_props(*cx, *ia), prop_name@, p as int);
                        }
                        let off =
                            cx.compiled_shaders[shader_id].named_instance_props.props[p].offset;
                        let base = ia.instance_offset + off;
                        Vec4 {
                            x: cx.draw_lists[dl].draw_calls[dc].instance[base],
                            y: cx.draw_lists[dl].draw_calls[dc].instance[base + 1],
                            z: cx.draw_lists[dl].draw_calls[dc].instance[base + 2],
                            w: cx.draw_lists[dl].draw_calls[dc].instance[base + 3],
                        }
                    },
                    None => Vec4::zero(),
                }
            },
            _ => Vec4::zero(),
        }
    }
}

/// Only the draw-call behind `ia` differs between the two contexts.
pub open spec fn spec_call_only_changed(cx0: Cx, cx1: Cx, ia: InstanceArea) -> bool {
    let dl = ia.draw_list_id as int;
    let dc = ia.draw_call_id as int;
    &&& cx1 == (Cx { draw_lists: cx1.draw_lists, ..cx0 })
    &&& cx1.draw_lists@.len() == cx0.draw_lists@.len()
    &&& (forall|l: int|
        0 <= l < cx0.draw_lists@.len() && l != dl ==> cx1.draw_lists@[l] == cx0.draw_lists@[l])
    &&& cx1.draw_lists@[dl] == (DrawList {
        draw_calls: cx1.draw_lists@[dl].draw_calls,
        ..cx0.draw_lists@[dl]
    })
    &&& cx1.draw_lists@[dl].draw_calls@.len() == cx0.draw_lists@[dl].draw_calls@.len()
    &&& (forall|c: int|
        0 <= c < cx0.draw_lists@[dl].draw_calls@.len() && c != dc ==> cx1.draw_lists@[dl].draw_calls@[c]
            == cx0.draw_lists@[dl].draw_calls@[c])
}

/// Changing only a call's uniform payload (or extending its texture list
/// with ids that exist) preserves context well-formedness.
proof fn lemma_wf_after_call_payload(cx0: Cx, cx1: Cx, ia: InstanceArea)
    requires
        (ia.draw_list_id as int) < cx0.draw_lists@.len(),
        (ia.draw_call_id as int) < cx0.draw_lists@[ia.draw_list_id as int].draw_calls@.len(),
        spec_call_only_changed(cx0, cx1, ia),
        spec_ia_call(cx1, ia).shader_id == spec_ia_call(cx0, ia).shader_id,
        spec_ia_call(cx1, ia).sub_list_id == spec_ia_call(cx0, ia).sub_list_id,
        spec_ia_call(cx1, ia).instance@ == spec_ia_call(cx0, ia).instance@,
        forall|t: int|
            0 <= t < spec_ia_call(cx1, ia).textures_2d@.len() ==> ((t < spec_ia_call(
                cx0,
                ia,
            ).textures_2d@.len() && spec_ia_call(cx1, ia).textures_2d@[t] == spec_ia_call(
                cx0,
                ia,
            ).textures_2d@[t]) || (#[trigger] spec_ia_call(cx1, ia).textures_2d@[t] as int)
                < cx0.textures_2d@.len()),
    ensures
        cx0.wf() ==> cx1.wf(),
{
    if cx0.wf() {
        let dl = ia.draw_list_id as int;
        let dc = ia.draw_call_id as int;
        assert forall|l: int, c: int|
            0 <= l < cx1.draw_lists@.len() && 0 <= c
                < cx1.draw_lists@[l].draw_calls@.len() implies #[trigger] cx1.spec_call_wf(
            l,
            c,
        ) by {
            assert(cx0.spec_call_wf(l, c));
            if l == dl && c == dc {
                assert(cx1.spec_call_slots(l, c) == cx0.spec_call_slots(l, c));
                assert(cx1.spec_call_instances_whole(l, c));
            } else {
                assert(cx1.draw_lists@[l].draw_calls@[c] == cx0.draw_lists@[l].draw_calls@[c]);
                assert(cx1.spec_call_slots(l, c) == cx0.spec_call_slots(l, c));
            }
        }
    }
}

/// The zero rectangle.
pub open spec fn spec_zero_rect() -> Rect {
    Rect { x: 0u32, y: 0u32, w: 0u32, h: 0u32 }
}

/// The rect-attribute table of the area's shader.
pub open spec fn spec_ia_rect_props(cx: Cx, ia: InstanceArea) -> crate::shader::RectInstanceProps {
    spec_ia_shader(cx, ia).rect_instance_props
}

/// Whether any of the four rect attributes is present.
pub open spec fn spec_any_rect_prop(rp: crate::shader::RectInstanceProps) -> bool {
    rp.x is Some || rp.y is Some || rp.w is Some || rp.h is Some
}

/// What `get_rect` returns: for an instance area holding records whose
/// shader caches all four rect attributes, the four scalars of the first
/// record; for a draw-list area its stored rectangle; otherwise zero.
pub open spec fn spec_get_rect(cx: Cx, area: Area) -> Rect {
    match area {
        Area::Instance(ia) => {
            if ia.instance_count == 0 {
                spec_zero_rect()
            } else {
                let rp = spec_ia_rect_props(cx, ia);
                let inst = spec_ia_inst(cx, ia);
                let base = ia.instance_offset as int;
                match (rp.x, rp.y, rp.w, rp.h) {
                    (Some(ix), Some(iy), Some(iw), Some(ih)) => Rect {
                        x: inst[base + ix],
                        y: inst[base + iy],
                        w: inst[base + iw],
                        h: inst[base + ih],
                    },
                    _ => spec_zero_rect(),
                }
            }
        },
        Area::DrawList(d) => cx.draw_lists@[d.draw_list_id as int].rect,
        _ => spec_zero_rect(),
    }
}

/// The rect attributes the shader caches lie inside the area's first
/// record.
pub open spec fn spec_rect_fits(cx: Cx, ia: InstanceArea) -> bool {
    let rp = spec_ia_rect_props(cx, ia);
    let len = spec_ia_inst(cx, ia).len();
    &&& (match rp.x {
        Some(o) => ia.instance_offset + o < len,
        None => true,
    })
    &&& (match rp.y {
        Some(o) => ia.instance_offset + o < len,
        None => true,
    })
    &&& (match rp.w {
        Some(o) => ia.instance_offset + o < len,
        None => true,
    })
    &&& (match rp.h {
        Some(o) => ia.instance_offset + o < len,
        None => true,
    })
}

/// What rectangle access through an area needs: for instance areas a
/// valid handle whose cached rect attributes (if it holds records) are in
/// bounds; for draw-list areas an existing list.
pub open spec fn spec_rect_ok(cx: Cx, area: Area) -> bool {
    match area {
        Area::Instance(ia) => ia.spec_valid(cx) && (ia.instance_count > 0 ==> spec_rect_fits(
            cx,
            ia,
        )),
        Area::DrawList(d) => (d.draw_list_id as int) < cx.draw_lists@.len(),
        _ => true,
    }
}

/// The instance payload after `set_rect` patched the first record: each
/// cached rect attribute present is overwritten with the matching field.
pub open spec fn spec_set_rect_inst(
    inst: Seq<u32>,
    base: int,
    rp: crate::shader::RectInstanceProps,
    r: Rect,
) -> Seq<u32> {
    let s0 = match rp.x {
        Some(o) => inst.update(base + o, r.x),
        None => inst,
    };
    let s1 = match rp.y {
        Some(o) => s0.update(base + o, r.y),
        None => s0,
    };
    let s2 = match rp.w {
        Some(o) => s1.update(base + o, r.w),
        None => s1,
    };
    match rp.h {
        Some(o) => s2.update(base + o, r.h),
        None => s2,
    }
}

/// How `set_rect` changes the context: an instance area holding records
/// gets its first record patched (and the repaint flag raised) when the
/// shader caches any rect attribute; a draw-list area gets its stored
/// rectangle replaced; everything else is a no-op.
pub open spec fn spec_rect_set(cx0: Cx, cx1: Cx, area: Area, r: Rect) -> bool {
    match area {
        Area::Instance(ia) => {
            let rp = spec_ia_rect_props(cx0, ia);
            if ia.instance_count == 0 || !spec_any_rect_prop(rp) {
                cx1 == cx0
            } else {
                let dl = ia.draw_list_id as int;
                let dc = ia.draw_call_id as int;
                &&& cx1 == (Cx { draw_lists: cx1.draw_lists, paint_dirty: true, ..cx0 })
                &&& cx1.draw_lists@.len() == cx0.draw_lists@.len()
                &&& (forall|l: int|
                    0 <= l < cx0.draw_lists@.len() && l != dl ==> cx1.draw_lists@[l]
                        == cx0.draw_lists@[l])
                &&& cx1.draw_lists@[dl] == (DrawList {
                    draw_calls: cx1.draw_lists@[dl].draw_calls,
                    ..cx0.draw_lists@[dl]
                })
                &&& cx1.draw_lists@[dl].draw_calls@.len() == cx0.draw_lists@[dl].draw_calls@.len()
                &&& (forall|c: int|
                    0 <= c < cx0.draw_lists@[dl].draw_calls@.len() && c != dc
                        ==> cx1.draw_lists@[dl].draw_calls@[c] == cx0.draw_lists@[dl].draw_calls@[c])
                &&& cx1.draw_lists@[dl].draw_calls@[dc] == (DrawCall {
                    instance: cx1.draw_lists@[dl].draw_calls@[dc].instance,
                    ..cx0.draw_lists@[dl].draw_calls@[dc]
                })
                &&& spec_ia_inst(cx1, ia) == spec_set_rect_inst(
                    spec_ia_inst(cx0, ia),
                    ia.instance_offset as int,
                    rp,
                    r,
                )
            }
        },
        Area::DrawList(d) => {
            let dl = d.draw_list_id as int;
            &&& cx1 == (Cx { draw_lists: cx1.draw_lists, paint_dirty: true, ..cx0 })
            &&& cx1.draw_lists@.len() == cx0.draw_lists@.len()
            &&& (forall|l: int|
                0 <= l < cx0.draw_lists@.len() && l != dl ==> cx1.draw_lists@[l]
                    == cx0.draw_lists@[l])
            &&& cx1.draw_lists@[dl] == (DrawList { rect: r, ..cx0.draw_lists@[dl] })
        },
        _ => cx1 == cx0,
    }
}

/// What translating an area needs beyond validity: records exist only in
/// calls whose shader has slots, the cached `x`/`y` offsets lie inside a
/// record, and they name distinct slots.
pub open spec fn spec_move_ok(cx: Cx, ia: InstanceArea) -> bool {
    ia.instance_count > 0 ==> {
        let slots = cx.spec_call_slots(ia.draw_list_id as int, ia.draw_call_id as int);
        let rp = spec_ia_rect_props(cx, ia);
        &&& slots > 0
        &&& (match rp.x {
            Some(o) => o < slots,
            None => true,
        })
        &&& (match rp.y {
            Some(o) => o < slots,
            None => true,
        })
        &&& ((rp.x is Some && rp.y is Some) ==> rp.x != rp.y)
    }
}

/// The instance payload after `move_xy`: inside the area's records, the
/// slot at the cached `x` column of each record gains `dx` and the one at
/// the `y` column gains `dy` (IEEE-754 addition on bit patterns);
/// everything else keeps its bits.
pub open spec fn spec_moved_inst(
    inst: Seq<u32>,
    base: int,
    slots: int,
    count: int,
    rp: crate::shader::RectInstanceProps,
    dx: u32,
    dy: u32,
) -> Seq<u32> {
    Seq::new(
        inst.len(),
        |j: int|
            {
                if base <= j < base + count * slots && slots > 0 {
                    let k = (j - base) % slots;
                    if opt_offset(rp.x) == Some(k as nat) {
                        scalar::add_bits(inst[j], dx)
                    } else if opt_offset(rp.y) == Some(k as nat) {
                        scalar::add_bits(inst[j], dy)
                    } else {
                        inst[j]
                    }
                } else {
                    inst[j]
                }
            },
    )
}

/// Translating one more record extends the translated prefix by one.
proof fn lemma_move_step(
    inst0: Seq<u32>,
    prev: Seq<u32>,
    cur: Seq<u32>,
    base: int,
    slots: int,
    i: int,
    rp: crate::shader::RectInstanceProps,
    dx: u32,
    dy: u32,
)
    requires
        slots > 0,
        i >= 0,
        base >= 0,
        base + (i + 1) * slots <= inst0.len(),
        (match rp.x {
            Some(o) => o < slots,
            None => true,
        }),
        (match rp.y {
            Some(o) => o < slots,
            None => true,
        }),
        ((rp.x is Some && rp.y is Some) ==> rp.x != rp.y),
        prev == spec_moved_inst(inst0, base, slots, i, rp, dx, dy),
        ({
            let sx = match rp.x {
                Some(ox) => prev.update(
                    base + i * slots + ox,
                    scalar::add_bits(prev[base + i * slots + ox], dx),
                ),
                None => prev,
            };
            cur == match rp.y {
                Some(oy) => sx.update(
                    base + i * slots + oy,
                    scalar::add_bits(sx[base + i * slots + oy], dy),
                ),
                None => sx,
            }
        }),
    ensures
        cur =~= spec_moved_inst(inst0, base, slots, i + 1, rp, dx, dy),
{
    assert(i * slots + slots == (i + 1) * slots) by (nonlinear_arith);
    assert(i * slots >= 0) by (nonlinear_arith)
        requires
            i >= 0,
            slots >= 0,
    ;
    assert(prev.len() == inst0.len());
    assert forall|j: int| 0 <= j < inst0.len() implies cur[j] == spec_moved_inst(
        inst0,
        base,
        slots,
        i + 1,
        rp,
        dx,
        dy,
    )[j] by {
        let blockstart = base + i * slots;
        let blockend = base + (i + 1) * slots;
        if base <= j < blockend {
            if j < blockstart {
                assert(cur[j] == prev[j]);
            } else {
                let r = j - blockstart;
                assert(0 <= r < slots);
                assert(i * slots == slots * i) by (nonlinear_arith);
                assert(j - base == slots * i + r);
                vstd::arithmetic::div_mod::lemma_mod_multiples_vanish(i, r, slots);
                lemma_small_mod(r as nat, slots as nat);
                assert((j - base) % slots == r);
                assert(prev[j] == inst0[j]);
                match rp.x {
                    Some(ox) => {
                        if r == ox {
                            assert(cur[j] == scalar::add_bits(inst0[j], dx));
                        }
                    },
                    None => {},
                }
                match rp.y {
                    Some(oy) => {
                        if r == oy {
                            assert(cur[j] == scalar::add_bits(inst0[j], dy));
                        }
                    },
                    None => {},
                }
            }
        } else {
            assert(cur[j] == prev[j]);
            assert(prev[j] == inst0[j]);
        }
    }
}

/// How `move_xy` changes the context: an instance area holding records
/// whose shader caches an `x` or `y` attribute has all its records
/// translated and the repaint flag raised; everything else is a no-op.
pub open spec fn spec_moved(cx0: Cx, cx1: Cx, area: Area, dx: u32, dy: u32) -> bool {
    match area {
        Area::Instance(ia) => {
            let rp = spec_ia_rect_props(cx0, ia);
            if ia.instance_count == 0 || (rp.x is None && rp.y is None) {
                cx1 == cx0
            } else {
                &&& cx1 == (Cx { draw_lists: cx1.draw_lists, paint_dirty: true, ..cx0 })
                &&& cx1.draw_lists@.len() == cx0.draw_lists@.len()
                &&& (forall|l: int|
                    0 <= l < cx0.draw_lists@.len() && l != ia.draw_list_id as int
                        ==> cx1.draw_lists@[l] == cx0.draw_lists@[l])
                &&& cx1.draw_lists@[ia.draw_list_id as int] == (DrawList {
                    draw_calls: cx1.draw_lists@[ia.draw_list_id as int].draw_calls,
                    ..cx0.draw_lists@[ia.draw_list_id as int]
                })
                &&& cx1.draw_lists@[ia.draw_list_id as int].draw_calls@.len()
                    == cx0.draw_lists@[ia.draw_list_id as int].draw_calls@.len()
                &&& (forall|c: int|
                    0 <= c < cx0.draw_lists@[ia.draw_list_id as int].draw_calls@.len() && c
                        != ia.draw_call_id as int ==> cx1.draw_lists@[ia.draw_list_id as int].draw_calls@[c]
                        == cx0.draw_lists@[ia.draw_list_id as int].draw_calls@[c])
                &&& spec_ia_call(cx1, ia) == (DrawCall {
                    instance: spec_ia_call(cx1, ia).instance,
                    ..spec_ia_call(cx0, ia)
                })
                &&& spec_ia_inst(cx1, ia) == spec_moved_inst(
                    spec_ia_inst(cx0, ia),
                    ia.instance_offset as int,
                    cx0.spec_call_slots(ia.draw_list_id as int, ia.draw_call_id as int) as int,
                    ia.instance_count as int,
                    rp,
                    dx,
                    dy,
                )
            }
        },
        _ => cx1 == cx0,
    }
}

impl Area {
    /// Translate every instance record of this area: add `dx` to its `x`
    /// attribute and `dy` to its `y` attribute (IEEE-754 addition on bit
    /// patterns). A no-op for empty areas and shaders without those
    /// attributes.
    pub fn move_xy(&self, dx: u32, dy: u32, cx: &mut Cx)
        requires
            match *self {
                Area::Instance(ia) => ia.spec_valid(*old(cx)) && spec_move_ok(*old(cx), ia),
                _ => true,
            },
        ensures
            spec_moved(*old(cx), *final(cx), *self, dx, dy),
            old(cx).wf() ==> final(cx).wf(),
    {
        match self {
            Area::Instance(ia) => {
                if ia.instance_count == 0 {
                    return ;
                }
                let dl = ia.draw_list_id;
                let dc = ia.draw_call_id;
                let shader_id = cx.draw_lists[dl].draw_calls[dc].shader_id;
                let inst_len = cx.draw_lists[dl].draw_calls[dc].instance.len();
                let rp = cx.compiled_shaders[shader_id].rect_instance_props;
                let slots = cx.compiled_shaders[shader_id].instance_slots;
                if rp.x.is_none() && rp.y.is_none() {
                    return ;
                }
                let base = ia.instance_offset;
                let count = ia.instance_count;
                let ghost inst0 = spec_ia_inst(*old(cx), *ia);
                proof {
                    assert(base + count * slots <= inst_len);
                }
                let call = &mut cx.draw_lists[dl].draw_calls[dc];
                proof {
                    assert(0 * (slots as int) == 0) by (nonlinear_arith);
                    assert(call.instance@ =~= spec_moved_inst(
                        inst0,
                        base as int,
                        slots as int,
                        0,
                        rp,
                        dx,
                        dy,
                    ));
                }
                let mut i: usize = 0;
                while i < count
                    invariant
                        i <= count,
                        slots > 0,
                        base + count * slots <= inst_len,
                        (match rp.x {
                            Some(o) => o < slots,
                            None => true,
                        }),
                        (match rp.y {
                            Some(o) => o < slots,
                            None => true,
                        }),
                        ((rp.x is Some && rp.y is Some) ==> rp.x != rp.y),
                        inst0.len() == inst_len,
                        call.instance@.len() == inst_len,
                        call.instance@ =~= spec_moved_inst(
                            inst0,
                            base as int,
                            slots as int,
                            i as int,
                            rp,
                            dx,
                            dy,
                        ),
                        *call == (DrawCall { instance: call.instance, ..spec_ia_call(*old(cx), *ia) }),
                    decreases count - i,
                {
                    proof {
                        assert((i + 1) * slots <= count * slots) by (nonlinear_arith)
                            requires
                                i < count,
                                slots >= 0,
                        ;
                        assert(i * slots + slots == (i + 1) * slots) by (nonlinear_arith);
                        assert(i * slots >= 0) by (nonlinear_arith)
                            requires
                                i >= 0,
                                slots >= 0,
                        ;
                    }
                    let rec = base + i * slots;
                    let ghost prev = call.instance@;
                    if let Some(ox) = rp.x {
                        let v = call.instance[rec + ox];
                        call.instance.set(rec + ox, scalar::add(v, dx));
                    }
                    if let Some(oy) = rp.y {
                        let v = call.instance[rec + oy];
                        call.instance.set(rec + oy, scalar::add(v, dy));
                    }
                    proof {
                        lemma_move_step(
                            inst0,
                            prev,
                            call.instance@,
                            base as int,
                            slots as int,
                            i as int,
                            rp,
                            dx,
                            dy,
                        );
                    }
                    i += 1;
                }
                cx.paint_dirty = true;
                proof {
                    if old(cx).wf() {
                        assert forall|l: int, c: int|
                            0 <= l < cx.draw_lists@.len() && 0 <= c
                                < cx.draw_lists@[l].draw_calls@.len() implies #[trigger] cx.spec_call_wf(
                            l,
                            c,
                        ) by {
                            assert(old(cx).spec_call_wf(l, c));
                            assert(cx.spec_call_slots(l, c) == old(cx).spec_call_slots(l, c));
                            assert(cx.draw_lists@[l].draw_calls@[c].instance@.len() == old(
                                cx,
                            ).draw_lists@[l].draw_calls@[c].instance@.len());
                        }
                    }
                }
            },
            _ => (),
        }
    }

    /// Whether the point `(x, y)` lies inside the rectangle this area
    /// covers, under the IEEE-754 ordering (false on NaN).
    pub fn contains(&self, x: u32, y: u32, cx: &Cx) -> (r: bool)
        requires
            spec_rect_ok(*cx, *self),
        ensures
            ({
                let rect = spec_get_rect(*cx, *self);
                r == (scalar::le_bits(rect.x, x) && scalar::le_bits(
                    x,
                    scalar::add_bits(rect.x, rect.w),
                ) && scalar::le_bits(rect.y, y) && scalar::le_bits(
                    y,
                    scalar::add_bits(rect.y, rect.h),
                ))
            }),
    {
        let rect = self.get_rect(cx);
        scalar::le(rect.x, x) && scalar::le(x, scalar::add(rect.x, rect.w)) && scalar::le(rect.y, y)
            && scalar::le(y, scalar::add(rect.y, rect.h))
    }

    /// Read the rectangle this area covers: the `x`,`y`,`w`,`h` attributes
    /// of its first instance record, a draw-list's stored rectangle, or
    /// the zero rectangle.
    pub fn get_rect(&self, cx: &Cx) -> (r: Rect)
        requires
            spec_rect_ok(*cx, *self),
        ensures
            r == spec_get_rect(*cx, *self),
    {
        match self {
            Area::Instance(ia) => {
                if ia.instance_count == 0 {
                    return Rect::zero();
                }
                let dl = ia.draw_list_id;
                let dc = ia.draw_call_id;
                let shader_id = cx.draw_lists[dl].draw_calls[dc].shader_id;
                let inst_len = cx.draw_lists[dl].draw_calls[dc].instance.len();
                let rp = cx.compiled_shaders[shader_id].rect_instance_props;
                if let Some(ix) = rp.x {
                    if let Some(iy) = rp.y {
                        if let Some(iw) = rp.w {
                            if let Some(ih) = rp.h {
                                let call = &cx.draw_lists[dl].draw_calls[dc];
                                return Rect {
                                    x: call.instance[ia.instance_offset + ix],
                                    y: call.instance[ia.instance_offset + iy],
                                    w: call.instance[ia.instance_offset + iw],
                                    h: call.instance[ia.instance_offset + ih],
                                };
                            }
                        }
                    }
                }
                Rect::zero()
            },
            Area::DrawList(d) => {
                let dl = d.draw_list_id;
                cx.draw_lists[dl].rect
            },
            _ => Rect::zero(),
        }
    }

    /// Patch the rectangle this area covers: the rect attributes of its
    /// first instance record (raising the repaint flag), or a draw-list's
    /// stored rectangle; a silent no-op when the attributes are absent or
    /// the area holds no records.
    pub fn set_rect(&self, cx: &mut Cx, rect: &Rect)
        requires
            spec_rect_ok(*old(cx), *self),
        ensures
            spec_rect_set(*old(cx), *final(cx), *self, *rect),
            old(cx).wf() ==> final(cx).wf(),
    {
        match self {
            Area::Instance(ia) => {
                if ia.instance_count == 0 {
                    return ;
                }
                let dl = ia.draw_list_id;
                let dc = ia.draw_call_id;
                let shader_id = cx.draw_lists[dl].draw_calls[dc].shader_id;
                let inst_len = cx.draw_lists[dl].draw_calls[dc].instance.len();
                let rp = cx.compiled_shaders[shader_id].rect_instance_props;
                if rp.x.is_none() && rp.y.is_none() && rp.w.is_none() && rp.h.is_none() {
                    return ;
                }
                let call = &mut cx.draw_lists[dl].draw_calls[dc];
                if let Some(ix) = rp.x {
                    call.instance.set(ia.instance_offset + ix, rect.x);
                }
                if let Some(iy) = rp.y {
                    call.instance.set(ia.instance_offset + iy, rect.y);
                }
                if let Some(iw) = rp.w {
                    call.instance.set(ia.instance_offset + iw, rect.w);
                }
                if let Some(ih) = rp.h {
                    call.instance.set(ia.instance_offset + ih, rect.h);
                }
                cx.paint_dirty = true;
                proof {
                    if old(cx).wf() {
                        assert forall|l: int, c: int|
                            0 <= l < cx.draw_lists@.len() && 0 <= c
                                < cx.draw_lists@[l].draw_calls@.len() implies #[trigger] cx.spec_call_wf(
                            l,
                            c,
                        ) by {
                            assert(old(cx).spec_call_wf(l, c));
                            assert(cx.spec_call_slots(l, c) == old(cx).spec_call_slots(l, c));
                            assert(cx.draw_lists@[l].draw_calls@[c].instance@.len() == old(
                                cx,
                            ).draw_lists@[l].draw_calls@[c].instance@.len());
                        }
                    }
                }
            },
            Area::DrawList(d) => {
                let dl = d.draw_list_id;
                let list = &mut cx.draw_lists[dl];
                list.rect = Rect { x: rect.x, y: rect.y, w: rect.w, h: rect.h };
                cx.paint_dirty = true;
                proof {
                    if old(cx).wf() {
                        assert forall|l: int, c: int|
                            0 <= l < cx.draw_lists@.len() && 0 <= c
                                < cx.draw_lists@[l].draw_calls@.len() implies #[trigger] cx.spec_call_wf(
                            l,
                            c,
                        ) by {
                            assert(old(cx).spec_call_wf(l, c));
                            assert(cx.spec_call_slots(l, c) == old(cx).spec_call_slots(l, c));
                        }
                    }
                }
            },
            _ => (),
        }
    }

    /// Append whole instance records to the area's draw-call. The caller
    /// hands over a whole number of records of the call's shader.
    pub fn append_data(&self, cx: &mut Cx, data: &[u32])
        requires
            match *self {
                Area::Instance(ia) => {
                    &&& (ia.draw_list_id as int) < old(cx).draw_lists@.len()
                    &&& (ia.draw_call_id as int)
                        < old(cx).draw_lists@[ia.draw_list_id as int].draw_calls@.len()
                    &&& (spec_ia_call(*old(cx), ia).shader_id as int)
                        < old(cx).compiled_shaders@.len()
                    &&& ({
                        let slots = old(cx).spec_call_slots(
                            ia.draw_list_id as int,
                            ia.draw_call_id as int,
                        );
                        if slots == 0 {
                            data@.len() == 0
                        } else {
                            data@.len() % slots == 0
                        }
                    })
                },
                _ => true,
            },
        ensures
            match *self {
                Area::Instance(ia) => {
                    let dl = ia.draw_list_id as int;
                    let dc = ia.draw_call_id as int;
                    &&& *final(cx) == (Cx { draw_lists: final(cx).draw_lists, ..*old(cx) })
                    &&& final(cx).draw_lists@.len() == old(cx).draw_lists@.len()
                    &&& (forall|l: int|
                        0 <= l < old(cx).draw_lists@.len() && l != dl ==> final(cx).draw_lists@[l] == old(cx).draw_lists@[l])
                    &&& final(cx).draw_lists@[dl] == (DrawList {
                        draw_calls: final(cx).draw_lists@[dl].draw_calls,
                        ..old(cx).draw_lists@[dl]
                    })
                    &&& final(cx).draw_lists@[dl].draw_calls@.len() == old(
                        cx,
                    ).draw_lists@[dl].draw_calls@.len()
                    &&& (forall|c: int|
                        0 <= c < old(cx).draw_lists@[dl].draw_calls@.len() && c != dc ==> final(cx).draw_lists@[dl].draw_calls@[c] == old(cx).draw_lists@[dl].draw_calls@[c])
                    &&& final(cx).draw_lists@[dl].draw_calls@[dc] == (DrawCall {
                        instance: final(cx).draw_lists@[dl].draw_calls@[dc].instance,
                        ..old(cx).draw_lists@[dl].draw_calls@[dc]
                    })
                    &&& spec_ia_inst(*final(cx), ia) == spec_ia_inst(*old(cx), ia) + data@
                },
                _ => *final(cx) == *old(cx),
            },
            old(cx).wf() ==> final(cx).wf(),
    {
        match self {
            Area::Instance(ia) => {
                let dl = ia.draw_list_id;
                let dc = ia.draw_call_id;
                let call = &mut cx.draw_lists[dl].draw_calls[dc];
                call.instance.extend_from_slice(data);
                proof {
                    if old(cx).wf() {
                        assert forall|l: int, c: int|
                            0 <= l < cx.draw_lists@.len() && 0 <= c
                                < cx.draw_lists@[l].draw_calls@.len() implies #[trigger] cx.spec_call_wf(
                            l,
                            c,
                        ) by {
                            assert(old(cx).spec_call_wf(l, c));
                            assert(cx.spec_call_slots(l, c) == old(cx).spec_call_slots(l, c));
                            if l == dl as int && c == dc as int {
                                let slots = old(cx).spec_call_slots(l, c) as int;
                                let a = old(cx).draw_lists@[l].draw_calls@[c].instance@.len() as int;
                                let b = data@.len() as int;
                                assert(cx.draw_lists@[l].draw_calls@[c].instance@.len() == a + b);
                                if slots > 0 {
                                    assert(a % slots == 0);
                                    assert(b % slots == 0);
                                    vstd::arithmetic::div_mod::lemma_add_mod_noop(a, b, slots);
                                    lemma_small_mod(0nat, slots as nat);
                                    assert((a + b) % slots == 0);
                                    assert(cx.spec_call_instances_whole(l, c));
                                } else {
                                    assert(b == 0);
                                    assert(cx.spec_call_instances_whole(l, c));
                                }
                            } else {
                                assert(cx.draw_lists@[l].draw_calls@[c] == old(
                                    cx,
                                ).draw_lists@[l].draw_calls@[c]);
                            }
                        }
                    }
                }
            },
            _ => (),
        }
    }

    /// Append `texture_id` to the draw-call's texture bindings. The name
    /// is unused: bindings are positional, in shader declaration order.
    pub fn uniform_texture(&self, cx: &mut Cx, _name: &str, texture_id: usize)
        requires
            match *self {
                Area::Instance(ia) => {
                    &&& (ia.draw_list_id as int) < old(cx).draw_lists@.len()
                    &&& (ia.draw_call_id as int)
                        < old(cx).draw_lists@[ia.draw_list_id as int].draw_calls@.len()
                    &&& (texture_id as int) < old(cx).textures_2d@.len()
                    &&& texture_id <= u32::MAX
                },
                _ => true,
            },
        ensures
            match *self {
                Area::Instance(ia) => {
                    &&& spec_call_only_changed(*old(cx), *final(cx), ia)
                    &&& spec_ia_call(*final(cx), ia) == (DrawCall {
                        textures_2d: spec_ia_call(*final(cx), ia).textures_2d,
                        ..spec_ia_call(*old(cx), ia)
                    })
                    &&& spec_ia_call(*final(cx), ia).textures_2d@ == spec_ia_call(
                        *old(cx),
                        ia,
                    ).textures_2d@.push(texture_id as u32)
                },
                _ => *final(cx) == *old(cx),
            },
            old(cx).wf() ==> final(cx).wf(),
    {
        match self {
            Area::Instance(ia) => {
                let dl = ia.draw_list_id;
                let dc = ia.draw_call_id;
                let call = &mut cx.draw_lists[dl].draw_calls[dc];
                call.textures_2d.push(texture_id as u32);
                proof {
                    lemma_wf_after_call_payload(*old(cx), *cx, *ia);
                }
            },
            _ => (),
        }
    }

    /// Push one uniform scalar onto the draw-call's uniform vector. The
    /// name is unused: uniforms are positional, in shader declaration
    /// order.
    pub fn uniform_float(&self, cx: &mut Cx, _name: &str, v: u32)
        requires
            match *self {
                Area::Instance(ia) => (ia.draw_list_id as int) < old(cx).draw_lists@.len() && (
                ia.draw_call_id as int) < old(cx).draw_lists@[ia.draw_list_id as int].draw_calls@.len(),
                _ => true,
            },
        ensures
            match *self {
                Area::Instance(ia) => {
                    &&& spec_call_only_changed(*old(cx), *final(cx), ia)
                    &&& spec_ia_call(*final(cx), ia) == (DrawCall {
                        uniforms: spec_ia_call(*final(cx), ia).uniforms,
                        ..spec_ia_call(*old(cx), ia)
                    })
                    &&& spec_ia_call(*final(cx), ia).uniforms@ == spec_ia_call(
                        *old(cx),
                        ia,
                    ).uniforms@ + seq![v]
                },
                _ => *final(cx) == *old(cx),
            },
            old(cx).wf() ==> final(cx).wf(),
    {
        match self {
            Area::Instance(ia) => {
                let dl = ia.draw_list_id;
                let dc = ia.draw_call_id;
                let call = &mut cx.draw_lists[dl].draw_calls[dc];
                call.uniforms.push(v);
                proof {
                    assert(call.uniforms@ =~= spec_ia_call(*old(cx), *ia).uniforms@ + seq![v]);
                    lemma_wf_after_call_payload(*old(cx), *cx, *ia);
                }
            },
            _ => (),
        }
    }

    /// Push two uniform scalars, in order.
    pub fn uniform_vec2f(&self, cx: &mut Cx, _name: &str, x: u32, y: u32)
        requires
            match *self {
                Area::Instance(ia) => (ia.draw_list_id as int) < old(cx).draw_lists@.len() && (
                ia.draw_call_id as int) < old(cx).draw_lists@[ia.draw_list_id as int].draw_calls@.len(),
                _ => true,
            },
        ensures
            match *self {
                Area::Instance(ia) => {
                    &&& spec_call_only_changed(*old(cx), *final(cx), ia)
                    &&& spec_ia_call(*final(cx), ia) == (DrawCall {
                        uniforms: spec_ia_call(*final(cx), ia).uniforms,
                        ..spec_ia_call(*old(cx), ia)
                    })
                    &&& spec_ia_call(*final(cx), ia).uniforms@ == spec_ia_call(
                        *old(cx),
                        ia,
                    ).uniforms@ + seq![x, y]
                },
                _ => *final(cx) == *old(cx),
            },
            old(cx).wf() ==> final(cx).wf(),
    {
        match self {
            Area::Instance(ia) => {
                let dl = ia.draw_list_id;
                let dc = ia.draw_call_id;
                let call = &mut cx.draw_lists[dl].draw_calls[dc];
                call.uniforms.push(x);
                call.uniforms.push(y);
                proof {
                    assert(call.uniforms@ =~= spec_ia_call(*old(cx), *ia).uniforms@ + seq![x, y]);
                    lemma_wf_after_call_payload(*old(cx), *cx, *ia);
                }
            },
            _ => (),
        }
    }

    /// Push three uniform scalars, in order.
    pub fn uniform_vec3f(&mut self, cx: &mut Cx, _name: &str, x: u32, y: u32, z: u32)
        requires
            match *old(self) {
                Area::Instance(ia) => (ia.draw_list_id as int) < old(cx).draw_lists@.len() && (
                ia.draw_call_id as int) < old(cx).draw_lists@[ia.draw_list_id as int].draw_calls@.len(),
                _ => true,
            },
        ensures
            *final(self) == *old(self),
            match *old(self) {
                Area::Instance(ia) => {
                    &&& spec_call_only_changed(*old(cx), *final(cx), ia)
                    &&& spec_ia_call(*final(cx), ia) == (DrawCall {
                        uniforms: spec_ia_call(*final(cx), ia).uniforms,
                        ..spec_ia_call(*old(cx), ia)
                    })
                    &&& spec_ia_call(*final(cx), ia).uniforms@ == spec_ia_call(
                        *old(cx),
                        ia,
                    ).uniforms@ + seq![x, y, z]
                },
                _ => *final(cx) == *old(cx),
            },
            old(cx).wf() ==> final(cx).wf(),
    {
        match self {
            Area::Instance(ia) => {
                let dl = ia.draw_list_id;
                let dc = ia.draw_call_id;
                let call = &mut cx.draw_lists[dl].draw_calls[dc];
                call.uniforms.push(x);
                call.uniforms.push(y);
                call.uniforms.push(z);
                proof {
                    assert(call.uniforms@ =~= spec_ia_call(*old(cx), *ia).uniforms@
                        + seq![x, y, z]);
                    lemma_wf_after_call_payload(*old(cx), *cx, *ia);
                }
            },
            _ => (),
        }
    }

    /// Push four uniform scalars, in order.
    pub fn uniform_vec4f(&self, cx: &mut Cx, _name: &str, x: u32, y: u32, z: u32, w: u32)
        requires
            match *self {
                Area::Instance(ia) => (ia.draw_list_id as int) < old(cx).draw_lists@.len() && (
                ia.draw_call_id as int) < old(cx).draw_lists@[ia.draw_list_id as int].draw_calls@.len(),
                _ => true,
            },
        ensures
            match *self {
                Area::Instance(ia) => {
                    &&& spec_call_only_changed(*old(cx), *final(cx), ia)
                    &&& spec_ia_call(*final(cx), ia) == (DrawCall {
                        uniforms: spec_ia_call(*final(cx), ia).uniforms,
                        ..spec_ia_call(*old(cx), ia)
                    })
                    &&& spec_ia_call(*final(cx), ia).uniforms@ == spec_ia_call(
                        *old(cx),
                        ia,
                    ).uniforms@ + seq![x, y, z, w]
                },
                _ => *final(cx) == *old(cx),
            },
            old(cx).wf() ==> final(cx).wf(),
    {
        match self {
            Area::Instance(ia) => {
                let dl = ia.draw_list_id;
                let dc = ia.draw_call_id;
                let call = &mut cx.draw_lists[dl].draw_calls[dc];
                call.uniforms.push(x);
                call.uniforms.push(y);
                call.uniforms.push(z);
                call.uniforms.push(w);
                proof {
                    assert(call.uniforms@ =~= spec_ia_call(*old(cx), *ia).uniforms@
                        + seq![x, y, z, w]);
                    lemma_wf_after_call_payload(*old(cx), *cx, *ia);
                }
            },
            _ => (),
        }
    }

    /// Push a whole matrix: sixteen uniform scalars in column-major order.
    pub fn uniform_mat4(&self, cx: &mut Cx, _name: &str, v: &Mat4)
        requires
            match *self {
                Area::Instance(ia) => (ia.draw_list_id as int) < old(cx).draw_lists@.len() && (
                ia.draw_call_id as int) < old(cx).draw_lists@[ia.draw_list_id as int].draw_calls@.len(),
                _ => true,
            },
        ensures
            match *self {
                Area::Instance(ia) => {
                    &&& spec_call_only_changed(*old(cx), *final(cx), ia)
                    &&& spec_ia_call(*final(cx), ia) == (DrawCall {
                        uniforms: spec_ia_call(*final(cx), ia).uniforms,
                        ..spec_ia_call(*old(cx), ia)
                    })
                    &&& spec_ia_call(*final(cx), ia).uniforms@ == spec_ia_call(
                        *old(cx),
                        ia,
                    ).uniforms@ + v.v@
                },
                _ => *final(cx) == *old(cx),
            },
            old(cx).wf() ==> final(cx).wf(),
    {
        match self {
            Area::Instance(ia) => {
                let dl = ia.draw_list_id;
                let dc = ia.draw_call_id;
                let call = &mut cx.draw_lists[dl].draw_calls[dc];
                let mut i: usize = 0;
                while i < 16
                    invariant
                        i <= 16,
                        v.v@.len() == 16,
                        call.uniforms@ == spec_ia_call(*old(cx), *ia).uniforms@ + v.v@.subrange(
                            0,
                            i as int,
                        ),
                        *call == (DrawCall { uniforms: call.uniforms, ..spec_ia_call(*old(cx), *ia) }),
                    decreases 16 - i,
                {
                    call.uniforms.push(v.v[i]);
                    proof {
                        assert(call.uniforms@ =~= spec_ia_call(*old(cx), *ia).uniforms@
                            + v.v@.subrange(0, i + 1));
                    }
                    i += 1;
                }
                proof {
                    assert(v.v@.subrange(0, 16) =~= v.v@);
                    lemma_wf_after_call_payload(*old(cx), *cx, *ia);
                }
            },
            _ => (),
        }
    }

    /// Whether the draw-call behind this area was created this frame and
    /// still waits for its uniforms.
    pub fn need_uniforms_now(&self, cx: &mut Cx) -> (r: bool)
        requires
            match *self {
                Area::Instance(ia) => (ia.draw_list_id as int) < old(cx).draw_lists@.len() && (
                ia.draw_call_id as int) < old(cx).draw_lists@[ia.draw_list_id as int].draw_calls@.len(),
                _ => true,
            },
        ensures
            *final(cx) == *old(cx),
            r == match *self {
                Area::Instance(ia) => spec_ia_call(*old(cx), ia).need_uniforms_now,
                _ => false,
            },
    {
        match self {
            Area::Instance(ia) => {
                let dl = ia.draw_list_id;
                let dc = ia.draw_call_id;
                cx.draw_lists[dl].draw_calls[dc].need_uniforms_now
            },
            _ => false,
        }
    }
}

/// For every attribute width, reading an attribute straight after writing
/// it returns exactly the written scalars, whenever the name resolves in
/// the shader's attribute table.
pub proof fn lemma_write_read_roundtrip(
    cx0: Cx,
    cx1: Cx,
    area: Area,
    name: Seq<char>,
    vals: Seq<u32>,
)
    requires
        spec_area_io_ok(cx0, area, name, vals.len()),
        spec_area_written(cx0, cx1, area, name, vals),
        match area {
            Area::Instance(ia) => spec_find_prop(spec_ia_props(cx0, ia), name) is Some,
            _ => false,
        },
    ensures
        spec_area_read(cx1, area, name, vals.len()) == vals,
{
    match area {
        Area::Instance(ia) => {
            let p = spec_find_prop(spec_ia_props(cx0, ia), name)->Some_0;
            lemma_find_prop_hit(spec_ia_props(cx0, ia), name, p);
            assert(spec_ia_props(cx1, ia) == spec_ia_props(cx0, ia));
            let base = ia.instance_offset + spec_ia_props(cx0, ia)[p].offset;
            assert(spec_ia_inst(cx1, ia) == spec_overwrite(spec_ia_inst(cx0, ia), base, vals));
            assert(spec_area_read(cx1, area, name, vals.len()) =~= vals);
        },
        _ => {},
    }
}

/// A write to an attribute name the shader does not declare leaves the
/// whole context untouched.
pub proof fn lemma_write_unknown_name_no_op(
    cx0: Cx,
    cx1: Cx,
    area: Area,
    name: Seq<char>,
    vals: Seq<u32>,
)
    requires
        spec_area_written(cx0, cx1, area, name, vals),
        match area {
            Area::Instance(ia) => spec_find_prop(spec_ia_props(cx0, ia), name) is None,
            _ => true,
        },
    ensures
        cx1 == cx0,
{
}

/// Reading the rectangle straight after patching it returns the patched
/// rectangle, whenever the shader caches all four rect attributes at
/// pairwise distinct offsets and the area holds records.
pub proof fn lemma_set_get_rect_roundtrip(cx0: Cx, cx1: Cx, area: Area, r: Rect)
    requires
        spec_rect_ok(cx0, area),
        spec_rect_set(cx0, cx1, area, r),
        match area {
            Area::Instance(ia) => {
                let rp = spec_ia_rect_props(cx0, ia);
                &&& ia.instance_count > 0
                &&& rp.x is Some
                &&& rp.y is Some
                &&& rp.w is Some
                &&& rp.h is Some
                &&& rp.x != rp.y && rp.x != rp.w && rp.x != rp.h && rp.y != rp.w && rp.y != rp.h
                    && rp.w != rp.h
            },
            Area::DrawList(d) => true,
            _ => false,
        },
    ensures
        spec_get_rect(cx1, area) == r,
{
    match area {
        Area::Instance(ia) => {
            assert(spec_ia_rect_props(cx1, ia) == spec_ia_rect_props(cx0, ia));
            let rp = spec_ia_rect_props(cx0, ia);
            let base = ia.instance_offset as int;
            let inst1 = spec_ia_inst(cx1, ia);
            assert(inst1 == spec_set_rect_inst(spec_ia_inst(cx0, ia), base, rp, r));
            assert(inst1[base + rp.x->Some_0] == r.x);
            assert(inst1[base + rp.y->Some_0] == r.y);
            assert(inst1[base + rp.w->Some_0] == r.w);
            assert(inst1[base + rp.h->Some_0] == r.h);
        },
        Area::DrawList(d) => {},
        _ => {},
    }
}

/// Two translations compose slot-wise: after moving by `(dx1, dy1)` and
/// then `(dx2, dy2)`, each `x` slot of the area's records carries both
/// increments in order, each `y` slot likewise, and every other bit of
/// the instance payload is untouched.
pub proof fn lemma_move_xy_twice(
    cx0: Cx,
    cx1: Cx,
    cx2: Cx,
    area: Area,
    dx1: u32,
    dy1: u32,
    dx2: u32,
    dy2: u32,
)
    requires
        spec_moved(cx0, cx1, area, dx1, dy1),
        spec_moved(cx1, cx2, area, dx2, dy2),
        match area {
            Area::Instance(ia) => ia.instance_count > 0,
            _ => false,
        },
    ensures
        match area {
            Area::Instance(ia) => {
                let rp = spec_ia_rect_props(cx0, ia);
                (rp.x is Some || rp.y is Some) ==> {
                    let inst0 = spec_ia_inst(cx0, ia);
                    let inst2 = spec_ia_inst(cx2, ia);
                    let base = ia.instance_offset as int;
                    let slots = cx0.spec_call_slots(
                        ia.draw_list_id as int,
                        ia.draw_call_id as int,
                    ) as int;
                    let count = ia.instance_count as int;
                    &&& inst2.len() == inst0.len()
                    &&& (forall|j: int|
                        0 <= j < inst0.len() ==> #[trigger] inst2[j] == (if base <= j < base
                            + count * slots && slots > 0 {
                            let k = (j - base) % slots;
                            if opt_offset(rp.x) == Some(k as nat) {
                                scalar::add_bits(scalar::add_bits(inst0[j], dx1), dx2)
                            } else if opt_offset(rp.y) == Some(k as nat) {
                                scalar::add_bits(scalar::add_bits(inst0[j], dy1), dy2)
                            } else {
                                inst0[j]
                            }
                        } else {
                            inst0[j]
                        }))
                }
            },
            _ => true,
        },
{
    match area {
        Area::Instance(ia) => {
            let rp = spec_ia_rect_props(cx0, ia);
            if rp.x is Some || rp.y is Some {
                assert(spec_ia_rect_props(cx1, ia) == rp);
                assert(cx1.spec_call_slots(ia.draw_list_id as int, ia.draw_call_id as int)
                    == cx0.spec_call_slots(ia.draw_list_id as int, ia.draw_call_id as int));
                let inst0 = spec_ia_inst(cx0, ia);
                let inst1 = spec_ia_inst(cx1, ia);
                let inst2 = spec_ia_inst(cx2, ia);
                let base = ia.instance_offset as int;
                let slots = cx0.spec_call_slots(
                    ia.draw_list_id as int,
                    ia.draw_call_id as int,
                ) as int;
                let count = ia.instance_count as int;
                assert(inst1 == spec_moved_inst(inst0, base, slots, count, rp, dx1, dy1));
                assert(inst2 == spec_moved_inst(inst1, base, slots, count, rp, dx2, dy2));
            }
        },
        _ => {},
    }
}

/// An instance area holding no records reads as the zero rectangle and
/// is skipped by translation.
pub proof fn lemma_empty_instance_area(cx0: Cx, cx1: Cx, area: Area, dx: u32, dy: u32)
    requires
        spec_moved(cx0, cx1, area, dx, dy),
        match area {
            Area::Instance(ia) => ia.instance_count == 0,
            _ => false,
        },
    ensures
        spec_get_rect(cx0, area) == spec_zero_rect(),
        cx1 == cx0,
{
}

} // verus!
