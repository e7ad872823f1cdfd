//! The drawing context: the draw-list tree, the shader tables, the texture
//! table and the per-frame bookkeeping flags.
//!
//! Draw-lists and draw-calls are allocated on first use in a frame and then
//! reused by index, never destroyed; `draw_calls_len` is the live prefix of
//! each list's call vector. All instance and uniform payloads are
//! single-precision bit patterns.

use vstd::prelude::*;
use crate::area::{Area, InstanceArea};
use crate::buffer::MetalBuffer;
use crate::math::{Rect, Vec2, Vec4};
use crate::shader::{NamedInstanceProps, RectInstanceProps, Shader};
use vstd::string::StringExecFns;

verus! {

/// An owned copy of a string slice.
pub(crate) fn new_string(s: &str) -> (r: String)
    ensures
        r@ == s@,
{
    String::from_str(s)
}

/// GPU-side resources of the context root: the context uniform buffer.
#[derive(Debug)]
pub struct CxResources {
    pub uni_cx: MetalBuffer,
}

/// GPU-side resources of one draw-list: its uniform buffer.
#[derive(Debug)]
pub struct DrawListResources {
    pub uni_dl: MetalBuffer,
}

/// GPU-side resources of one draw-call: its uniform buffer and its
/// instance vertex buffer.
#[derive(Debug)]
pub struct DrawCallResources {
    pub uni_dr: MetalBuffer,
    pub inst_vbuf: MetalBuffer,
}

/// One pipeline-bound draw of N instances against a fixed shader, or a
/// reference to a sub-list (`sub_list_id != 0`).
#[derive(Debug)]
pub struct DrawCall {
    pub shader_id: usize,
    pub sub_list_id: usize,
    /// Densely packed per-instance attributes, `instance_slots` scalars per
    /// instance record.
    pub instance: Vec<u32>,
    /// Per-draw uniform scalars, pushed in shader declaration order.
    pub uniforms: Vec<u32>,
    /// Bound texture ids, in binding order.
    pub textures_2d: Vec<u32>,
    /// True from the frame-local creation of this call until its uniforms
    /// were supplied.
    pub need_uniforms_now: bool,
    /// The frame that last touched this call's payload.
    pub update_frame_id: usize,
    pub resources: DrawCallResources,
}

/// An ordered sequence of draw-calls; the internal nodes of the render tree.
#[derive(Debug)]
pub struct DrawList {
    pub draw_calls: Vec<DrawCall>,
    /// The live prefix of `draw_calls`: entries beyond it are retained
    /// allocations from earlier frames.
    pub draw_calls_len: usize,
    /// Per-list uniform scalars.
    pub uniforms: Vec<u32>,
    pub rect: Rect,
    pub resources: DrawListResources,
}

/// A texture: CPU-side pixels (BGRA, one `u32` per texel) plus upload state.
#[derive(Debug)]
pub struct Texture2D {
    pub texture_id: usize,
    /// Pixels changed since the last upload.
    pub dirty: bool,
    pub image: Vec<u32>,
    pub width: usize,
    pub height: usize,
    /// Whether a device-side texture exists for the current pixels.
    pub uploaded: bool,
}

impl Texture2D {
    /// Resize the CPU-side pixel store, zero-filling, and mark it dirty.
    pub fn resize(&mut self, width: usize, height: usize)
        requires
            width * height <= usize::MAX,
        ensures
            final(self).width == width,
            final(self).height == height,
            final(self).image@.len() == width * height,
            final(self).dirty,
            final(self).texture_id == old(self).texture_id,
            final(self).uploaded == old(self).uploaded,
    {
        self.width = width;
        self.height = height;
        let n = width * height;
        if self.image.len() > n {
            self.image.truncate(n);
        }
        while self.image.len() < n
            invariant
                self.image@.len() <= n,
                self.width == width,
                self.height == height,
                self.texture_id == old(self).texture_id,
                self.uploaded == old(self).uploaded,
            decreases n - self.image@.len(),
        {
            self.image.push(0);
        }
        self.dirty = true;
    }
}

/// A compiled shader: the emitted target source and the cached layout
/// metadata the runtime patches instances against. `pipeline_state` is the
/// backend's handle for the compiled pipeline; a shader whose target
/// compilation failed keeps `None` and its draw-calls are skipped.
#[derive(Debug)]
pub struct CompiledShader {
    pub shader_id: usize,
    pub pipeline_state: Option<usize>,
    pub geom_vbuf: MetalBuffer,
    pub geom_ibuf: MetalBuffer,
    pub instance_slots: usize,
    pub rect_instance_props: RectInstanceProps,
    pub named_instance_props: NamedInstanceProps,
    /// The emitted target shading-language source.
    pub mtlsl: String,
}

/// The context root. `draw_lists[0]` is the root of the render tree.
#[derive(Debug)]
pub struct Cx {
    pub running: bool,
    pub frame_id: usize,
    /// A repaint is pending.
    pub paint_dirty: bool,
    /// The area whose widgets must re-emit draw commands next cycle.
    pub dirty_area: Area,
    /// The area being re-emitted during the current redraw cycle.
    pub redraw_area: Area,
    pub shaders: Vec<Shader>,
    pub compiled_shaders: Vec<CompiledShader>,
    pub draw_lists: Vec<DrawList>,
    /// The list new instances are appended to.
    pub current_draw_list_id: usize,
    pub textures_2d: Vec<Texture2D>,
    /// Context-scope uniform scalars.
    pub uniforms: Vec<u32>,
    pub clear_color: Vec4,
    /// Animations still running / just ended, by animation id.
    pub animations: Vec<u32>,
    pub ended_animations: Vec<u32>,
    /// Where the walked layout currently places new geometry.
    pub turtle_origin: Vec2,
    pub target_size: Vec2,
    pub target_dpi_factor: u32,
    pub resources: CxResources,
}

/// The first live draw-call of `calls` (scanning the live prefix of length
/// `live` from index `i`) that draws `shader_id` directly, if any.
pub open spec fn spec_find_call_from(
    calls: Seq<DrawCall>,
    live: int,
    shader_id: int,
    i: int,
) -> Option<int>
    decreases live - i,
{
    if i < 0 || i >= live {
        None
    } else if calls[i].shader_id == shader_id && calls[i].sub_list_id == 0 {
        Some(i)
    } else {
        spec_find_call_from(calls, live, shader_id, i + 1)
    }
}

/// The first live draw-call of `calls` that draws `shader_id` directly.
pub open spec fn spec_find_call(calls: Seq<DrawCall>, live: int, shader_id: int) -> Option<int> {
    spec_find_call_from(calls, live, shader_id, 0)
}

proof fn lemma_find_call_from_hit(calls: Seq<DrawCall>, live: int, shader_id: int, i: int, f: int)
    requires
        spec_find_call_from(calls, live, shader_id, i) == Some(f),
    ensures
        i <= f < live,
        calls[f].shader_id == shader_id,
        calls[f].sub_list_id == 0,
    decreases live - i,
{
    if !(i < 0 || i >= live) {
        if calls[i].shader_id == shader_id && calls[i].sub_list_id == 0 {
        } else {
            lemma_find_call_from_hit(calls, live, shader_id, i + 1, f);
        }
    }
}

/// A hit of the live-call search indeed lies in the live prefix and draws
/// the searched shader directly.
pub proof fn lemma_find_call_hit(calls: Seq<DrawCall>, live: int, shader_id: int, f: int)
    requires
        spec_find_call(calls, live, shader_id) == Some(f),
    ensures
        0 <= f < live,
        calls[f].shader_id == shader_id,
        calls[f].sub_list_id == 0,
{
    lemma_find_call_from_hit(calls, live, shader_id, 0, f);
}

impl Cx {
    /// The number of instance slots of the shader a draw-call uses.
    pub open spec fn spec_call_slots(self, dl: int, dc: int) -> nat {
        self.compiled_shaders@[self.draw_lists@[dl].draw_calls@[dc].shader_id as int].instance_slots as nat
    }

    /// A draw-call holds a whole number of instance records (and none at
    /// all when its shader compiled to zero slots).
    pub open spec fn spec_call_instances_whole(self, dl: int, dc: int) -> bool {
        let call = self.draw_lists@[dl].draw_calls@[dc];
        let slots = self.spec_call_slots(dl, dc);
        if slots == 0 {
            call.instance@.len() == 0
        } else {
            call.instance@.len() % slots == 0
        }
    }

    /// Structural well-formedness of one draw-call: its shader exists, a
    /// sub-list reference points deeper into the tree, its texture ids
    /// exist, and its instance payload is a whole number of records.
    pub open spec fn spec_call_wf(self, dl: int, dc: int) -> bool {
        let call = self.draw_lists@[dl].draw_calls@[dc];
        &&& (call.shader_id as int) < self.compiled_shaders@.len()
        &&& (call.sub_list_id == 0 || (dl < call.sub_list_id < self.draw_lists@.len()))
        &&& (forall|t: int|
            0 <= t < call.textures_2d@.len() ==> (#[trigger] call.textures_2d@[t] as int)
                < self.textures_2d@.len())
        &&& self.spec_call_instances_whole(dl, dc)
    }

    /// Well-formedness of the whole context: the root list exists, every
    /// list's watermark stays within its call vector, and every draw-call
    /// (live or retained) is well-formed.
    pub open spec fn wf(self) -> bool {
        &&& self.draw_lists@.len() >= 1
        &&& (self.current_draw_list_id as int) < self.draw_lists@.len()
        &&& (forall|dl: int|
            0 <= dl < self.draw_lists@.len() ==> (#[trigger] self.draw_lists@[dl]).draw_calls_len
                <= self.draw_lists@[dl].draw_calls@.len())
        &&& (forall|dl: int, dc: int|
            0 <= dl < self.draw_lists@.len() && 0 <= dc < self.draw_lists@[dl].draw_calls@.len()
                ==> #[trigger] self.spec_call_wf(dl, dc))
    }

    /// A fresh context: one empty root draw-list, nothing compiled, all
    /// bookkeeping at its initial state.
    pub fn new() -> (cx: Cx)
        ensures
            cx.wf(),
            cx.running,
            cx.frame_id == 0,
            !cx.paint_dirty,
            cx.dirty_area == Area::Empty,
            cx.redraw_area == Area::Empty,
            cx.shaders@.len() == 0,
            cx.compiled_shaders@.len() == 0,
            cx.draw_lists@.len() == 1,
            cx.current_draw_list_id == 0,
            cx.draw_lists@[0].draw_calls@.len() == 0,
            cx.draw_lists@[0].draw_calls_len == 0,
            cx.textures_2d@.len() == 0,
            cx.uniforms@.len() == 0,
            cx.animations@.len() == 0,
            cx.turtle_origin == (Vec2 { x: 0u32, y: 0u32 }),
    {
        let mut draw_lists: Vec<DrawList> = Vec::new();
        draw_lists.push(DrawList {
            draw_calls: Vec::new(),
            draw_calls_len: 0,
            uniforms: Vec::new(),
            rect: Rect::zero(),
            resources: DrawListResources { uni_dl: MetalBuffer::default() },
        });
        Cx {
            running: true,
            frame_id: 0,
            paint_dirty: false,
            dirty_area: Area::Empty,
            redraw_area: Area::Empty,
            shaders: Vec::new(),
            compiled_shaders: Vec::new(),
            draw_lists,
            current_draw_list_id: 0,
            textures_2d: Vec::new(),
            uniforms: Vec::new(),
            clear_color: Vec4::zero(),
            animations: Vec::new(),
            ended_animations: Vec::new(),
            turtle_origin: Vec2::zero(),
            target_size: Vec2::zero(),
            target_dpi_factor: 0,
            resources: CxResources { uni_cx: MetalBuffer::default() },
        }
    }

    /// A fresh shader holding the standard uniform library every widget
    /// shader builds on: the camera projection at context scope and the
    /// per-list scroll offset and clip rectangle.
    pub fn new_shader(&self) -> (sh: Shader)
        ensures
            sh.geometry_vertices@.len() == 0,
            sh.geometry_indices@.len() == 0,
            sh.fns@.len() == 0,
            sh.vars@.len() == 3,
            sh.vars@[0].name@ == "camera_projection"@ && sh.vars@[0].ty@ == "mat4"@
                && sh.vars@[0].store == crate::shader::ShVarStore::UniformCx,
            sh.vars@[1].name@ == "draw_list_scroll"@ && sh.vars@[1].ty@ == "vec2"@
                && sh.vars@[1].store == crate::shader::ShVarStore::UniformDl,
            sh.vars@[2].name@ == "draw_list_clip"@ && sh.vars@[2].ty@ == "vec4"@
                && sh.vars@[2].store == crate::shader::ShVarStore::UniformDl,
    {
        let mut sh = Shader::new();
        sh.vars.push(crate::shader::ShVar {
            name: new_string("camera_projection"),
            ty: new_string("mat4"),
            store: crate::shader::ShVarStore::UniformCx,
        });
        sh.vars.push(crate::shader::ShVar {
            name: new_string("draw_list_scroll"),
            ty: new_string("vec2"),
            store: crate::shader::ShVarStore::UniformDl,
        });
        sh.vars.push(crate::shader::ShVar {
            name: new_string("draw_list_clip"),
            ty: new_string("vec4"),
            store: crate::shader::ShVarStore::UniformDl,
        });
        sh
    }

    /// Register a shader for compilation; returns its id. The name is
    /// diagnostic only.
    pub fn add_shader(&mut self, sh: Shader, _name: &str) -> (id: usize)
        ensures
            id == old(self).shaders@.len(),
            final(self).shaders@.len() == old(self).shaders@.len() + 1,
            final(self).shaders@[id as int] == sh,
            forall|i: int|
                0 <= i < old(self).shaders@.len() ==> final(self).shaders@[i] == old(
                    self,
                ).shaders@[i],
            *final(self) == (Cx { shaders: final(self).shaders, ..*old(self) }),
    {
        let id = self.shaders.len();
        self.shaders.push(sh);
        id
    }

    /// Find the live draw-call of list `dl` that draws `shader_id`
    /// directly, if any.
    fn find_call(&self, dl: usize, shader_id: usize) -> (r: Option<usize>)
        requires
            self.wf(),
            (dl as int) < self.draw_lists@.len(),
        ensures
            ({
                let calls = self.draw_lists@[dl as int].draw_calls@;
                let live = self.draw_lists@[dl as int].draw_calls_len as int;
                match r {
                    Some(i) => spec_find_call(calls, live, shader_id as int) == Some(i as int),
                    None => spec_find_call(calls, live, shader_id as int) is None,
                }
            }),
    {
        let live = self.draw_lists[dl].draw_calls_len;
        proof {
            assert(self.draw_lists@[dl as int].draw_calls_len
                <= self.draw_lists@[dl as int].draw_calls@.len());
        }
        let mut i: usize = 0;
        while i < live
            invariant
                self.wf(),
                (dl as int) < self.draw_lists@.len(),
                live == self.draw_lists@[dl as int].draw_calls_len,
                live <= self.draw_lists@[dl as int].draw_calls@.len(),
                i <= live,
                spec_find_call(
                    self.draw_lists@[dl as int].draw_calls@,
                    live as int,
                    shader_id as int,
                ) == spec_find_call_from(
                    self.draw_lists@[dl as int].draw_calls@,
                    live as int,
                    shader_id as int,
                    i as int,
                ),
            decreases live - i,
        {
            let call = &self.draw_lists[dl].draw_calls[i];
            if call.shader_id == shader_id && call.sub_list_id == 0 {
                return Some(i);
            }
            i += 1;
        }
        None
    }

    /// Hand out a handle for one fresh instance record of `shader_id` in
    /// the current draw-list: the first live draw-call already drawing that
    /// shader, or a newly allocated (or recycled) call at the watermark.
    /// A newly created call asks for its uniforms; a reused one stops
    /// asking. Either way the call is marked as touched this frame.
    pub fn new_instance(&mut self, shader_id: usize) -> (ia: InstanceArea)
        requires
            old(self).wf(),
            (shader_id as int) < old(self).compiled_shaders@.len(),
        ensures
            final(self).wf(),
            *final(self) == (Cx { draw_lists: final(self).draw_lists, ..*old(self) }),
            final(self).draw_lists@.len() == old(self).draw_lists@.len(),
            ia.draw_list_id == old(self).current_draw_list_id,
            ia.instance_count == 1,
            ia.instance_writer == 0,
            forall|l: int|
                0 <= l < old(self).draw_lists@.len() && l != old(self).current_draw_list_id as int
                    ==> final(self).draw_lists@[l] == old(self).draw_lists@[l],
            ({
                let dl = old(self).current_draw_list_id as int;
                let oldlist = old(self).draw_lists@[dl];
                let newlist = final(self).draw_lists@[dl];
                let dc = ia.draw_call_id as int;
                let newcall = newlist.draw_calls@[dc];
                &&& newlist == (DrawList {
                    draw_calls: newlist.draw_calls,
                    draw_calls_len: newlist.draw_calls_len,
                    ..oldlist
                })
                &&& 0 <= dc < newlist.draw_calls@.len()
                &&& dc < newlist.draw_calls_len
                &&& forall|c: int|
                    0 <= c < oldlist.draw_calls@.len() && c != dc ==> newlist.draw_calls@[c]
                        == oldlist.draw_calls@[c]
                &&& newcall.shader_id == shader_id
                &&& newcall.sub_list_id == 0
                &&& newcall.update_frame_id == old(self).frame_id
                &&& ia.instance_offset == newcall.instance@.len()
                &&& match spec_find_call(
                    oldlist.draw_calls@,
                    oldlist.draw_calls_len as int,
                    shader_id as int,
                ) {
                    Some(f) => {
                        &&& dc == f
                        &&& newlist.draw_calls_len == oldlist.draw_calls_len
                        &&& newlist.draw_calls@.len() == oldlist.draw_calls@.len()
                        &&& !newcall.need_uniforms_now
                        &&& newcall.instance@ == oldlist.draw_calls@[f].instance@
                        &&& newcall.uniforms@ == oldlist.draw_calls@[f].uniforms@
                        &&& newcall.textures_2d@ == oldlist.draw_calls@[f].textures_2d@
                    },
                    None => {
                        &&& dc == oldlist.draw_calls_len
                        &&& newlist.draw_calls_len == oldlist.draw_calls_len + 1
                        &&& newcall.need_uniforms_now
                        &&& newcall.instance@.len() == 0
                        &&& newcall.uniforms@.len() == 0
                        &&& newcall.textures_2d@.len() == 0
                    },
                }
            }),
    {
        let dl = self.current_draw_list_id;
        let fid = self.frame_id;
        let found = self.find_call(dl, shader_id);
        match found {
            Some(dc) => {
                proof {
                    lemma_find_call_hit(
                        old(self).draw_lists@[dl as int].draw_calls@,
                        old(self).draw_lists@[dl as int].draw_calls_len as int,
                        shader_id as int,
                        dc as int,
                    );
                    assert(old(self).draw_lists@[dl as int].draw_calls_len
                        <= old(self).draw_lists@[dl as int].draw_calls@.len());
                }
                let call = &mut self.draw_lists[dl].draw_calls[dc];
                call.need_uniforms_now = false;
                call.update_frame_id = fid;
                let off = call.instance.len();
                proof {
                    assert forall|l: int, c: int|
                        0 <= l < self.draw_lists@.len() && 0 <= c
                            < self.draw_lists@[l].draw_calls@.len() implies #[trigger] self.spec_call_wf(
                        l,
                        c,
                    ) by {
                        assert(old(self).spec_call_wf(l, c));
                        assert(self.spec_call_slots(l, c) == old(self).spec_call_slots(l, c));
                    }
                }
                InstanceArea {
                    draw_list_id: dl,
                    draw_call_id: dc,
                    instance_offset: off,
                    instance_count: 1,
                    instance_writer: 0,
                }
            },
            None => {
                let live = self.draw_lists[dl].draw_calls_len;
                if live < self.draw_lists[dl].draw_calls.len() {
                    let call = &mut self.draw_lists[dl].draw_calls[live];
                    call.shader_id = shader_id;
                    call.sub_list_id = 0;
                    call.instance.clear();
                    call.uniforms.clear();
                    call.textures_2d.clear();
                    call.need_uniforms_now = true;
                    call.update_frame_id = fid;
                } else {
                    self.draw_lists[dl].draw_calls.push(DrawCall {
                        shader_id,
                        sub_list_id: 0,
                        instance: Vec::new(),
                        uniforms: Vec::new(),
                        textures_2d: Vec::new(),
                        need_uniforms_now: true,
                        update_frame_id: fid,
                        resources: DrawCallResources {
                            uni_dr: MetalBuffer::default(),
                            inst_vbuf: MetalBuffer::default(),
                        },
                    });
                }
                let newlive = self.draw_lists[dl].draw_calls.len();
                if live < newlive {
                    self.draw_lists[dl].draw_calls_len = live + 1;
                } else {
                    self.draw_lists[dl].draw_calls_len = newlive;
                }
                proof {
                    assert forall|l: int, c: int|
                        0 <= l < self.draw_lists@.len() && 0 <= c
                            < self.draw_lists@[l].draw_calls@.len() implies #[trigger] self.spec_call_wf(
                        l,
                        c,
                    ) by {
                        if l == dl as int && c == live as int {
                            assert(self.draw_lists@[l].draw_calls@[c].instance@.len() == 0);
                        } else {
                            assert(old(self).spec_call_wf(l, c));
                            assert(self.draw_lists@[l].draw_calls@[c] == old(
                                self,
                            ).draw_lists@[l].draw_calls@[c]);
                            assert(self.spec_call_slots(l, c) == old(self).spec_call_slots(l, c));
                        }
                    }
                }
                InstanceArea {
                    draw_list_id: dl,
                    draw_call_id: live,
                    instance_offset: 0,
                    instance_count: 1,
                    instance_writer: 0,
                }
            },
        }
    }

    /// Add an empty texture to the texture table; returns its id.
    pub fn add_texture(&mut self) -> (id: usize)
        ensures
            id == old(self).textures_2d@.len(),
            final(self).textures_2d@.len() == old(self).textures_2d@.len() + 1,
            forall|i: int|
                0 <= i < old(self).textures_2d@.len() ==> final(self).textures_2d@[i] == old(
                    self,
                ).textures_2d@[i],
            *final(self) == (Cx { textures_2d: final(self).textures_2d, ..*old(self) }),
            old(self).wf() ==> final(self).wf(),
    {
        let id = self.textures_2d.len();
        self.textures_2d.push(Texture2D {
            texture_id: id,
            dirty: false,
            image: Vec::new(),
            width: 0,
            height: 0,
            uploaded: false,
        });
        proof {
            if old(self).wf() {
                assert forall|dl: int, dc: int|
                    0 <= dl < self.draw_lists@.len() && 0 <= dc
                        < self.draw_lists@[dl].draw_calls@.len() implies #[trigger] self.spec_call_wf(
                    dl,
                    dc,
                ) by {
                    assert(old(self).spec_call_wf(dl, dc));
                }
            }
        }
        id
    }
}

} // verus!
