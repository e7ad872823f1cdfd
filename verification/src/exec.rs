//! The frame executor: the per-frame walk of the draw-list tree. The walk
//! is split into a buffer-synchronisation pass (uploading CPU payloads
//! into the modelled GPU buffers) and a pure command planner that renders
//! the tree into the exact sequence of encoder commands the backend must
//! issue: pipeline binds, the fixed vertex/fragment buffer binding order,
//! texture binds and indexed-instanced draws.

use vstd::prelude::*;
use crate::cx::{Cx, DrawCall, DrawList};

verus! {

/// A GPU buffer of the scene, named by its place in the context.
#[derive(Clone, Copy, Debug, PartialEq, Eq, Structural)]
pub enum BufferRef {
    GeomVbuf { shader_id: usize },
    GeomIbuf { shader_id: usize },
    InstVbuf { draw_list_id: usize, draw_call_id: usize },
    UniCx,
    UniDl { draw_list_id: usize },
    UniDr { draw_list_id: usize, draw_call_id: usize },
}

/// One encoder command of a frame plan.
#[derive(Clone, Copy, Debug, PartialEq, Eq, Structural)]
pub enum RenderCmd {
    SetPipeline { pipeline: usize },
    SetVertexBuffer { index: usize, buffer: BufferRef },
    SetFragmentBuffer { index: usize, buffer: BufferRef },
    /// Bind to both the vertex and the fragment stage at this slot.
    SetTexture { slot: usize, texture_id: usize },
    DrawIndexedInstanced { index_count: usize, instances: usize, index_buffer: BufferRef },
}

/// The texture binds of one draw-call, slots increasing in reference
/// order.
pub open spec fn spec_texture_cmds(textures: Seq<u32>) -> Seq<RenderCmd> {
    Seq::new(
        textures.len(),
        |t: int| RenderCmd::SetTexture { slot: t as usize, texture_id: textures[t] as usize },
    )
}

/// The commands of one leaf draw-call: nothing without a pipeline;
/// otherwise the pipeline bind, the fixed buffer binding order (geometry,
/// instance, context/list/draw uniforms on the vertex side; the three
/// uniform scopes on the fragment side), the texture binds, and an
/// indexed-instanced draw whenever the shader's index buffer exists.
pub open spec fn spec_call_cmds(cx: Cx, dl: int, dc: int) -> Seq<RenderCmd> {
    let call = cx.draw_lists@[dl].draw_calls@[dc];
    let shc = cx.compiled_shaders@[call.shader_id as int];
    match shc.pipeline_state {
        None => Seq::<RenderCmd>::empty(),
        Some(pipeline) => {
            let slots = shc.instance_slots;
            let instances = if slots > 0 {
                call.instance@.len() as int / slots as int
            } else {
                0
            };
            seq![
                RenderCmd::SetPipeline { pipeline },
                RenderCmd::SetVertexBuffer {
                    index: 0usize,
                    buffer: BufferRef::GeomVbuf { shader_id: call.shader_id },
                },
                RenderCmd::SetVertexBuffer {
                    index: 1usize,
                    buffer: BufferRef::InstVbuf {
                        draw_list_id: dl as usize,
                        draw_call_id: dc as usize,
                    },
                },
                RenderCmd::SetVertexBuffer { index: 2usize, buffer: BufferRef::UniCx },
                RenderCmd::SetVertexBuffer {
                    index: 3usize,
                    buffer: BufferRef::UniDl { draw_list_id: dl as usize },
                },
                RenderCmd::SetVertexBuffer {
                    index: 4usize,
                    buffer: BufferRef::UniDr {
                        draw_list_id: dl as usize,
                        draw_call_id: dc as usize,
                    },
                },
                RenderCmd::SetFragmentBuffer { index: 0usize, buffer: BufferRef::UniCx },
                RenderCmd::SetFragmentBuffer {
                    index: 1usize,
                    buffer: BufferRef::UniDl { draw_list_id: dl as usize },
                },
                RenderCmd::SetFragmentBuffer {
                    index: 2usize,
                    buffer: BufferRef::UniDr {
                        draw_list_id: dl as usize,
                        draw_call_id: dc as usize,
                    },
                },
            ] + spec_texture_cmds(call.textures_2d@) + (if shc.geom_ibuf.allocated {
                seq![
                    RenderCmd::DrawIndexedInstanced {
                        index_count: shc.geom_ibuf.used,
                        instances: instances as usize,
                        index_buffer: BufferRef::GeomIbuf { shader_id: call.shader_id },
                    },
                ]
            } else {
                Seq::<RenderCmd>::empty()
            })
        },
    }
}

/// The commands of the live draw-calls `dc..` of one list: leaf calls
/// draw, sub-list references recurse at their position.
pub open spec fn spec_calls_cmds(cx: Cx, dl: int, dc: int, fuel: nat) -> Seq<RenderCmd>
    decreases fuel, 1nat, (if cx.draw_lists@[dl].draw_calls_len - dc >= 0 {
        cx.draw_lists@[dl].draw_calls_len - dc
    } else {
        0
    }) as nat,
{
    let live = cx.draw_lists@[dl].draw_calls_len as int;
    if dc < 0 || dc >= live || dc >= cx.draw_lists@[dl].draw_calls@.len() {
        Seq::<RenderCmd>::empty()
    } else {
        let call = cx.draw_lists@[dl].draw_calls@[dc];
        (if call.sub_list_id != 0 {
            spec_list_cmds(cx, call.sub_list_id as int, fuel)
        } else {
            spec_call_cmds(cx, dl, dc)
        }) + spec_calls_cmds(cx, dl, dc + 1, fuel)
    }
}

/// The commands of one draw-list walk, submission order: draw-calls in
/// append order, sub-lists issued at the position they were referenced.
/// `fuel` bounds the tree depth; on a well-formed context any fuel at
/// least the number of draw-lists yields the full walk.
pub open spec fn spec_list_cmds(cx: Cx, dl: int, fuel: nat) -> Seq<RenderCmd>
    decreases fuel, 0nat, 0nat,
{
    if fuel == 0 || dl < 0 || dl >= cx.draw_lists@.len() {
        Seq::<RenderCmd>::empty()
    } else {
        spec_calls_cmds(cx, dl, 0, (fuel - 1) as nat)
    }
}

/// A copy of a scalar vector.
fn clone_scalars(v: &Vec<u32>) -> (r: Vec<u32>)
    ensures
        r@ == v@,
{
    let mut r: Vec<u32> = Vec::new();
    let n = v.len();
    let mut i: usize = 0;
    while i < n
        invariant
            n == v@.len(),
            i <= n,
            r@ =~= v@.subrange(0, i as int),
        decreases n - i,
    {
        r.push(v[i]);
        proof {
            assert(r@ =~= v@.subrange(0, i + 1));
        }
        i += 1;
    }
    proof {
        assert(v@.subrange(0, n as int) =~= v@);
    }
    r
}

impl Cx {
    /// Upload every live payload into its modelled GPU buffer: each
    /// list's uniforms, and the instance and per-draw uniform payloads of
    /// every draw-call touched this frame; finally the context uniforms.
    /// Dirty textures are uploaded and marked clean.
    pub fn update_draw_buffers(&mut self)
        ensures
            old(self).wf() ==> final(self).wf(),
            *final(self) == (Cx {
                draw_lists: final(self).draw_lists,
                textures_2d: final(self).textures_2d,
                resources: final(self).resources,
                ..*old(self)
            }),
            final(self).resources.uni_cx.data@ == old(self).uniforms@,
            final(self).resources.uni_cx.used == old(self).uniforms@.len(),
            final(self).draw_lists@.len() == old(self).draw_lists@.len(),
            forall|l: int|
                0 <= l < old(self).draw_lists@.len() ==> {
                    let oldlist = old(self).draw_lists@[l];
                    let newlist = #[trigger] final(self).draw_lists@[l];
                    &&& newlist == (DrawList {
                        draw_calls: newlist.draw_calls,
                        resources: newlist.resources,
                        ..oldlist
                    })
                    &&& newlist.resources.uni_dl.data@ == oldlist.uniforms@
                    &&& newlist.resources.uni_dl.used == oldlist.uniforms@.len()
                    &&& newlist.draw_calls@.len() == oldlist.draw_calls@.len()
                    &&& (forall|c: int|
                        0 <= c < oldlist.draw_calls@.len() ==> {
                            let oldcall = oldlist.draw_calls@[c];
                            let newcall = #[trigger] newlist.draw_calls@[c];
                            &&& newcall == (DrawCall { resources: newcall.resources, ..oldcall })
                            &&& (oldcall.update_frame_id == old(self).frame_id ==> {
                                &&& newcall.resources.inst_vbuf.data@ == oldcall.instance@
                                &&& newcall.resources.inst_vbuf.used == oldcall.instance@.len()
                                &&& newcall.resources.uni_dr.data@ == oldcall.uniforms@
                                &&& newcall.resources.uni_dr.used == oldcall.uniforms@.len()
                            })
                            &&& (oldcall.update_frame_id != old(self).frame_id
                                ==> newcall.resources == oldcall.resources)
                        })
                },
            final(self).textures_2d@.len() == old(self).textures_2d@.len(),
            forall|t: int|
                0 <= t < old(self).textures_2d@.len() ==> {
                    let oldtex = old(self).textures_2d@[t];
                    let newtex = #[trigger] final(self).textures_2d@[t];
                    &&& newtex == (crate::cx::Texture2D {
                        dirty: false,
                        uploaded: oldtex.uploaded || oldtex.dirty,
                        ..oldtex
                    })
                },
    {
        let frame_id = self.frame_id;
        let nl = self.draw_lists.len();
        let mut l: usize = 0;
        while l < nl
            invariant
                nl == self.draw_lists@.len(),
                l <= nl,
                *self == (Cx { draw_lists: self.draw_lists, ..*old(self) }),
                frame_id == old(self).frame_id,
                forall|k: int|
                    l <= k < nl ==> #[trigger] self.draw_lists@[k] == old(self).draw_lists@[k],
                forall|k: int|
                    0 <= k < l ==> {
                        let oldlist = old(self).draw_lists@[k];
                        let newlist = #[trigger] self.draw_lists@[k];
                        &&& newlist == (DrawList {
                            draw_calls: newlist.draw_calls,
                            resources: newlist.resources,
                            ..oldlist
                        })
                        &&& newlist.resources.uni_dl.data@ == oldlist.uniforms@
                        &&& newlist.resources.uni_dl.used == oldlist.uniforms@.len()
                        &&& newlist.draw_calls@.len() == oldlist.draw_calls@.len()
                        &&& (forall|c: int|
                            0 <= c < oldlist.draw_calls@.len() ==> {
                                let oldcall = oldlist.draw_calls@[c];
                                let newcall = #[trigger] newlist.draw_calls@[c];
                                &&& newcall == (DrawCall {
                                    resources: newcall.resources,
                                    ..oldcall
                                })
                                &&& (oldcall.update_frame_id == frame_id ==> {
                                    &&& newcall.resources.inst_vbuf.data@ == oldcall.instance@
                                    &&& newcall.resources.inst_vbuf.used
                                        == oldcall.instance@.len()
                                    &&& newcall.resources.uni_dr.data@ == oldcall.uniforms@
                                    &&& newcall.resources.uni_dr.used == oldcall.uniforms@.len()
                                })
                                &&& (oldcall.update_frame_id != frame_id ==> newcall.resources
                                    == oldcall.resources)
                            })
                    },
            decreases nl - l,
        {
            let ghost pre_lists = self.draw_lists@;
            let list = &mut self.draw_lists[l];
            let data = clone_scalars(&list.uniforms);
            list.resources.uni_dl.update_with_f32_data(&data);
            let nc = list.draw_calls.len();
            let mut c: usize = 0;
            while c < nc
                invariant
                    *after_borrow(self) == (Cx {
                        draw_lists: after_borrow(self).draw_lists,
                        ..*old(self)
                    }),
                    after_borrow(self).draw_lists@ == pre_lists.update(l as int, *final(list)),
                    pre_lists.len() == nl,
                    (l as int) < pre_lists.len(),
                    forall|k: int|
                        l < k < nl ==> #[trigger] pre_lists[k] == old(self).draw_lists@[k],
                    forall|k: int|
                        0 <= k < l ==> {
                            let oldlist = old(self).draw_lists@[k];
                            let newlist = #[trigger] pre_lists[k];
                            &&& newlist == (DrawList {
                                draw_calls: newlist.draw_calls,
                                resources: newlist.resources,
                                ..oldlist
                            })
                            &&& newlist.resources.uni_dl.data@ == oldlist.uniforms@
                            &&& newlist.resources.uni_dl.used == oldlist.uniforms@.len()
                            &&& newlist.draw_calls@.len() == oldlist.draw_calls@.len()
                            &&& (forall|c2: int|
                                0 <= c2 < oldlist.draw_calls@.len() ==> {
                                    let oldcall = oldlist.draw_calls@[c2];
                                    let newcall = #[trigger] newlist.draw_calls@[c2];
                                    &&& newcall == (DrawCall {
                                        resources: newcall.resources,
                                        ..oldcall
                                    })
                                    &&& (oldcall.update_frame_id == frame_id ==> {
                                        &&& newcall.resources.inst_vbuf.data@ == oldcall.instance@
                                        &&& newcall.resources.inst_vbuf.used
                                            == oldcall.instance@.len()
                                        &&& newcall.resources.uni_dr.data@ == oldcall.uniforms@
                                        &&& newcall.resources.uni_dr.used
                                            == oldcall.uniforms@.len()
                                    })
                                    &&& (oldcall.update_frame_id != frame_id
                                        ==> newcall.resources == oldcall.resources)
                                })
                        },
                    frame_id == old(self).frame_id,
                    nc == list.draw_calls@.len(),
                    c <= nc,
                    *list == (DrawList {
                        draw_calls: list.draw_calls,
                        resources: list.resources,
                        ..old(self).draw_lists@[l as int]
                    }),
                    list.resources.uni_dl.data@ == old(self).draw_lists@[l as int].uniforms@,
                    list.resources.uni_dl.used == old(
                        self,
                    ).draw_lists@[l as int].uniforms@.len(),
                    nc == old(self).draw_lists@[l as int].draw_calls@.len(),
                    forall|k: int|
                        c <= k < nc ==> #[trigger] list.draw_calls@[k] == old(
                            self,
                        ).draw_lists@[l as int].draw_calls@[k],
                    forall|k: int|
                        0 <= k < c ==> {
                            let oldcall = old(self).draw_lists@[l as int].draw_calls@[k];
                            let newcall = #[trigger] list.draw_calls@[k];
                            &&& newcall == (DrawCall { resources: newcall.resources, ..oldcall })
                            &&& (oldcall.update_frame_id == frame_id ==> {
                                &&& newcall.resources.inst_vbuf.data@ == oldcall.instance@
                                &&& newcall.resources.inst_vbuf.used == oldcall.instance@.len()
                                &&& newcall.resources.uni_dr.data@ == oldcall.uniforms@
                                &&& newcall.resources.uni_dr.used == oldcall.uniforms@.len()
                            })
                            &&& (oldcall.update_frame_id != frame_id ==> newcall.resources
                                == oldcall.resources)
                        },
                decreases nc - c,
            {
                let call = &mut list.draw_calls[c];
                if call.update_frame_id == frame_id {
                    let inst = clone_scalars(&call.instance);
                    call.resources.inst_vbuf.update_with_f32_data(&inst);
                    let unis = clone_scalars(&call.uniforms);
                    call.resources.uni_dr.update_with_f32_data(&unis);
                }
                c += 1;
            }
            l += 1;
        }
        let ghost lists_done = self.draw_lists@;
        proof {
            assert(forall|k: int|
                0 <= k < old(self).draw_lists@.len() ==> {
                    let oldlist = old(self).draw_lists@[k];
                    let newlist = #[trigger] lists_done[k];
                    &&& newlist == (DrawList {
                        draw_calls: newlist.draw_calls,
                        resources: newlist.resources,
                        ..oldlist
                    })
                    &&& newlist.resources.uni_dl.data@ == oldlist.uniforms@
                    &&& newlist.resources.uni_dl.used == oldlist.uniforms@.len()
                    &&& newlist.draw_calls@.len() == oldlist.draw_calls@.len()
                    &&& (forall|c: int|
                        0 <= c < oldlist.draw_calls@.len() ==> {
                            let oldcall = oldlist.draw_calls@[c];
                            let newcall = #[trigger] newlist.draw_calls@[c];
                            &&& newcall == (DrawCall { resources: newcall.resources, ..oldcall })
                            &&& (oldcall.update_frame_id == old(self).frame_id ==> {
                                &&& newcall.resources.inst_vbuf.data@ == oldcall.instance@
                                &&& newcall.resources.inst_vbuf.used == oldcall.instance@.len()
                                &&& newcall.resources.uni_dr.data@ == oldcall.uniforms@
                                &&& newcall.resources.uni_dr.used == oldcall.uniforms@.len()
                            })
                            &&& (oldcall.update_frame_id != old(self).frame_id
                                ==> newcall.resources == oldcall.resources)
                        })
                });
        }
        let nt = self.textures_2d.len();
        let mut t: usize = 0;
        while t < nt
            invariant
                nt == self.textures_2d@.len(),
                t <= nt,
                *self == (Cx {
                    draw_lists: self.draw_lists,
                    textures_2d: self.textures_2d,
                    ..*old(self)
                }),
                self.draw_lists@ == lists_done,
                forall|k: int|
                    t <= k < nt ==> #[trigger] self.textures_2d@[k] == old(self).textures_2d@[k],
                forall|k: int|
                    0 <= k < t ==> {
                        let oldtex = old(self).textures_2d@[k];
                        #[trigger] self.textures_2d@[k] == (crate::cx::Texture2D {
                            dirty: false,
                            uploaded: oldtex.uploaded || oldtex.dirty,
                            ..oldtex
                        })
                    },
            decreases nt - t,
        {
            let tex = &mut self.textures_2d[t];
            if tex.dirty {
                tex.uploaded = true;
                tex.dirty = false;
            }
            t += 1;
        }
        let data = clone_scalars(&self.uniforms);
        self.resources.uni_cx.update_with_f32_data(&data);
        proof {
            if old(self).wf() {
                assert forall|dl: int, dc: int|
                    0 <= dl < self.draw_lists@.len() && 0 <= dc
                        < self.draw_lists@[dl].draw_calls@.len() implies #[trigger] self.spec_call_wf(
                    dl,
                    dc,
                ) by {
                    assert(old(self).spec_call_wf(dl, dc));
                    assert(self.draw_lists@[dl].draw_calls@[dc] == (DrawCall {
                        resources: self.draw_lists@[dl].draw_calls@[dc].resources,
                        ..old(self).draw_lists@[dl].draw_calls@[dc]
                    }));
                    assert(self.spec_call_slots(dl, dc) == old(self).spec_call_slots(dl, dc));
                }
            }
        }
    }

    /// Repaint: synchronise every GPU buffer with this frame's payloads,
    /// then render the walk of the root draw-list into encoder commands.
    /// The backend wraps the plan in a render pass on the next drawable,
    /// with a clear-color load action, and presents it.
    pub fn repaint(&mut self, cmds: &mut Vec<RenderCmd>)
        requires
            old(self).wf(),
            old(self).draw_lists@.len() >= 1,
        ensures
            final(self).wf(),
            final(cmds)@ == old(cmds)@ + spec_list_cmds(
                *final(self),
                0,
                final(self).draw_lists@.len() as nat,
            ),
            final(self).resources.uni_cx.data@ == old(self).uniforms@,
            final(self).resources.uni_cx.used == old(self).uniforms@.len(),
            *final(self) == (Cx {
                draw_lists: final(self).draw_lists,
                textures_2d: final(self).textures_2d,
                resources: final(self).resources,
                ..*old(self)
            }),
    {
        self.update_draw_buffers();
        self.exec_draw_list(0, cmds);
    }

    /// Render the walk of the draw-list tree rooted at `draw_list_id`
    /// into encoder commands, appended to `cmds`.
    pub fn exec_draw_list(&self, draw_list_id: usize, cmds: &mut Vec<RenderCmd>)
        requires
            self.wf(),
            (draw_list_id as int) < self.draw_lists@.len(),
        ensures
            final(cmds)@ == old(cmds)@ + spec_list_cmds(
                *self,
                draw_list_id as int,
                self.draw_lists@.len() as nat,
            ),
    {
        let fuel = self.draw_lists.len();
        self.plan_list(draw_list_id, fuel, cmds);
    }

    fn plan_list(&self, draw_list_id: usize, fuel: usize, cmds: &mut Vec<RenderCmd>)
        requires
            self.wf(),
            (draw_list_id as int) < self.draw_lists@.len(),
        ensures
            final(cmds)@ == old(cmds)@ + spec_list_cmds(*self, draw_list_id as int, fuel as nat),
        decreases fuel, 0nat, 0nat,
    {
        if fuel == 0 {
            proof {
                assert(old(cmds)@ + spec_list_cmds(*self, draw_list_id as int, 0nat) =~= old(
                    cmds,
                )@);
            }
            return ;
        }
        self.plan_calls(draw_list_id, 0, fuel - 1, cmds);
    }

    fn plan_calls(&self, dl: usize, dc: usize, fuel: usize, cmds: &mut Vec<RenderCmd>)
        requires
            self.wf(),
            (dl as int) < self.draw_lists@.len(),
        ensures
            final(cmds)@ == old(cmds)@ + spec_calls_cmds(*self, dl as int, dc as int, fuel as nat),
        decreases fuel, 1nat, (if self.draw_lists@[dl as int].draw_calls_len - dc >= 0 {
            self.draw_lists@[dl as int].draw_calls_len - dc
        } else {
            0
        }) as nat,
    {
        let live = self.draw_lists[dl].draw_calls_len;
        if dc >= live {
            proof {
                assert(old(cmds)@ + spec_calls_cmds(*self, dl as int, dc as int, fuel as nat) =~= old(
                    cmds,
                )@);
            }
            return ;
        }
        proof {
            assert(self.draw_lists@[dl as int].draw_calls_len
                <= self.draw_lists@[dl as int].draw_calls@.len());
            assert(self.spec_call_wf(dl as int, dc as int));
        }
        let sub_list_id = self.draw_lists[dl].draw_calls[dc].sub_list_id;
        if sub_list_id != 0 {
            self.plan_list(sub_list_id, fuel, cmds);
        } else {
            self.plan_call(dl, dc, cmds);
        }
        self.plan_calls(dl, dc + 1, fuel, cmds);
        proof {
            assert(final(cmds)@ =~= old(cmds)@ + spec_calls_cmds(
                *self,
                dl as int,
                dc as int,
                fuel as nat,
            ));
        }
    }

    fn plan_call(&self, dl: usize, dc: usize, cmds: &mut Vec<RenderCmd>)
        requires
            self.wf(),
            (dl as int) < self.draw_lists@.len(),
            (dc as int) < self.draw_lists@[dl as int].draw_calls@.len(),
        ensures
            final(cmds)@ == old(cmds)@ + spec_call_cmds(*self, dl as int, dc as int),
    {
        proof {
            assert(self.spec_call_wf(dl as int, dc as int));
        }
        let shader_id = self.draw_lists[dl].draw_calls[dc].shader_id;
        let shc = &self.compiled_shaders[shader_id];
        match shc.pipeline_state {
            None => {
                proof {
                    assert(old(cmds)@ + spec_call_cmds(*self, dl as int, dc as int) =~= old(
                        cmds,
                    )@);
                }
            },
            Some(pipeline) => {
                let slots = shc.instance_slots;
                let inst_len = self.draw_lists[dl].draw_calls[dc].instance.len();
                let instances: usize = if slots > 0 {
                    inst_len / slots
                } else {
                    0
                };
                cmds.push(RenderCmd::SetPipeline { pipeline });
                cmds.push(
                    RenderCmd::SetVertexBuffer {
                        index: 0,
                        buffer: BufferRef::GeomVbuf { shader_id },
                    },
                );
                cmds.push(
                    RenderCmd::SetVertexBuffer {
                        index: 1,
                        buffer: BufferRef::InstVbuf { draw_list_id: dl, draw_call_id: dc },
                    },
                );
                cmds.push(RenderCmd::SetVertexBuffer { index: 2, buffer: BufferRef::UniCx });
                cmds.push(
                    RenderCmd::SetVertexBuffer {
                        index: 3,
                        buffer: BufferRef::UniDl { draw_list_id: dl },
                    },
                );
                cmds.push(
                    RenderCmd::SetVertexBuffer {
                        index: 4,
                        buffer: BufferRef::UniDr { draw_list_id: dl, draw_call_id: dc },
                    },
                );
                cmds.push(RenderCmd::SetFragmentBuffer { index: 0, buffer: BufferRef::UniCx });
                cmds.push(
                    RenderCmd::SetFragmentBuffer {
                        index: 1,
                        buffer: BufferRef::UniDl { draw_list_id: dl },
                    },
                );
                cmds.push(
                    RenderCmd::SetFragmentBuffer {
                        index: 2,
                        buffer: BufferRef::UniDr { draw_list_id: dl, draw_call_id: dc },
                    },
                );
                let ghost bound_prefix = cmds@;
                let nt = self.draw_lists[dl].draw_calls[dc].textures_2d.len();
                let mut t: usize = 0;
                while t < nt
                    invariant
                        nt == self.draw_lists@[dl as int].draw_calls@[dc as int].textures_2d@.len(),
                        (dl as int) < self.draw_lists@.len(),
                        (dc as int) < self.draw_lists@[dl as int].draw_calls@.len(),
                        t <= nt,
                        cmds@ == bound_prefix + spec_texture_cmds(
                            self.draw_lists@[dl as int].draw_calls@[dc as int].textures_2d@,
                        ).subrange(0, t as int),
                    decreases nt - t,
                {
                    let texture_id = self.draw_lists[dl].draw_calls[dc].textures_2d[t];
                    cmds.push(RenderCmd::SetTexture { slot: t, texture_id: texture_id as usize });
                    proof {
                        assert(cmds@ =~= bound_prefix + spec_texture_cmds(
                            self.draw_lists@[dl as int].draw_calls@[dc as int].textures_2d@,
                        ).subrange(0, t + 1));
                    }
                    t += 1;
                }
                if shc.geom_ibuf.allocated {
                    cmds.push(
                        RenderCmd::DrawIndexedInstanced {
                            index_count: shc.geom_ibuf.used,
                            instances,
                            index_buffer: BufferRef::GeomIbuf { shader_id },
                        },
                    );
                }
                proof {
                    assert(spec_texture_cmds(
                        self.draw_lists@[dl as int].draw_calls@[dc as int].textures_2d@,
                    ).subrange(
                        0,
                        nt as int,
                    ) =~= spec_texture_cmds(
                        self.draw_lists@[dl as int].draw_calls@[dc as int].textures_2d@,
                    ));
                    assert(final(cmds)@ =~= old(cmds)@ + spec_call_cmds(
                        *self,
                        dl as int,
                        dc as int,
                    ));
                }
            },
        }
    }
}

/// The indexed-instanced draw of a well-formed leaf call covers its
/// instance payload exactly: the drawn instance count times the shader's
/// slot count is the length of the call's instance vector.
pub proof fn lemma_draw_covers_instances(cx: Cx, dl: int, dc: int)
    requires
        cx.wf(),
        0 <= dl < cx.draw_lists@.len(),
        0 <= dc < cx.draw_lists@[dl].draw_calls@.len(),
        cx.spec_call_slots(dl, dc) > 0,
    ensures
        (cx.draw_lists@[dl].draw_calls@[dc].instance@.len() as int / cx.spec_call_slots(
            dl,
            dc,
        ) as int) * cx.spec_call_slots(dl, dc) as int
            == cx.draw_lists@[dl].draw_calls@[dc].instance@.len(),
{
    assert(cx.spec_call_wf(dl, dc));
    let len = cx.draw_lists@[dl].draw_calls@[dc].instance@.len() as int;
    let slots = cx.spec_call_slots(dl, dc) as int;
    assert(len % slots == 0);
    vstd::arithmetic::div_mod::lemma_fundamental_div_mod(len, slots);
}

} // verus!
