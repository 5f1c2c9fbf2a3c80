//! What has to be destroyed, natively, for released objects whose time has
//! come.

use vstd::prelude::*;
use crate::assoc::Assoc;
use crate::cache::{dropped, without, Selector};
use crate::caches::{after_views, dropped_for_views, FramebufferCache, PipelineCache};
use crate::garbage_collector::Garbage;

verus! {

/// One native object to destroy, or one thing to give back.
pub enum Destroy<A> {
    Pipeline(u64),
    PipelineLayout(u64),
    Framebuffer(u64),
    ImageView(u64),
    Image(u64),
    Buffer(u64),
    /// Frees the memory behind a buffer or an image.
    Memory(A),
    /// Gives a descriptor set back to the pools of its layout.
    DescriptorSet { set: u64, layout: u64 },
}

/// The pipelines to destroy, in order.
pub open spec fn pipelines_gone<A>(handles: Seq<u64>) -> Seq<Destroy<A>> {
    Seq::new(handles.len(), |i: int| Destroy::Pipeline(handles[i]))
}

/// The framebuffers to destroy, in order.
pub open spec fn framebuffers_gone<A>(handles: Seq<u64>) -> Seq<Destroy<A>> {
    Seq::new(handles.len(), |i: int| Destroy::Framebuffer(handles[i]))
}

/// The image views to destroy, in order.
pub open spec fn views_gone<A>(handles: Seq<u64>) -> Seq<Destroy<A>> {
    Seq::new(handles.len(), |i: int| Destroy::ImageView(handles[i]))
}

/// What is known while released objects are taken apart: the pipelines
/// and the framebuffers that are still cached, and what is to be
/// destroyed, in order.
pub struct Releasing<A> {
    pub pipelines: Assoc<Seq<u64>, u64>,
    pub framebuffers: Assoc<Seq<u64>, u64>,
    pub actions: Seq<Destroy<A>>,
}

/// The state after one released object was taken apart. With a pipeline
/// layout go the pipelines that were built with it, before it; with a
/// texture go the framebuffers over its views, then the views, then the
/// image, then its memory; with a buffer goes its memory, after it.
pub open spec fn release_one<A>(s: Releasing<A>, g: Garbage<A>) -> Releasing<A> {
    match g {
        Garbage::PipelineLayout(layout) => Releasing {
            pipelines: without(s.pipelines, Selector::First(layout)),
            actions: s.actions + pipelines_gone(dropped(s.pipelines, Selector::First(layout), 0))
                + seq![Destroy::PipelineLayout(layout)],
            ..s
        },
        Garbage::Pipeline(pipeline) => Releasing {
            actions: s.actions.push(Destroy::Pipeline(pipeline)),
            ..s
        },
        Garbage::Buffer { buffer, allocation, .. } => Releasing {
            actions: s.actions + seq![Destroy::Buffer(buffer), Destroy::Memory(allocation)],
            ..s
        },
        Garbage::Texture { image, views, allocation, .. } => Releasing {
            framebuffers: after_views(s.framebuffers, views@, views@.len() as int),
            actions: s.actions + framebuffers_gone(
                dropped_for_views(s.framebuffers, views@, views@.len() as int),
            ) + views_gone(views@) + seq![Destroy::Image(image), Destroy::Memory(allocation)],
            ..s
        },
        Garbage::DescriptorSet { set, layout } => Releasing {
            actions: s.actions.push(Destroy::DescriptorSet { set, layout }),
            ..s
        },
    }
}

/// The state after the first `n` released objects were taken apart, in
/// order.
pub open spec fn release_many<A>(s: Releasing<A>, garbage: Seq<Garbage<A>>, n: int) -> Releasing<A>
    decreases n,
{
    if n <= 0 {
        s
    } else {
        release_one(release_many(s, garbage, n - 1), garbage[n - 1])
    }
}

/// Adds the pipelines to what is to be destroyed.
fn push_pipelines<A>(out: &mut Vec<Destroy<A>>, handles: &Vec<u64>)
    ensures
        final(out)@ == old(out)@ + pipelines_gone(handles@),
{
    let ghost start = out@;
    let mut i: usize = 0;
    while i < handles.len()
        invariant
            i <= handles@.len(),
            out@.len() == start.len() + i,
            forall|k: int| 0 <= k < start.len() ==> out@[k] == start[k],
            forall|k: int| 0 <= k < i ==> out@[start.len() + k] == Destroy::<A>::Pipeline(handles@[k]),
        decreases handles@.len() - i,
    {
        out.push(Destroy::Pipeline(handles[i]));
        i += 1;
    }
    proof {
        assert(out@ =~= start + pipelines_gone::<A>(handles@));
    }
}

/// Adds the framebuffers to what is to be destroyed.
fn push_framebuffers<A>(out: &mut Vec<Destroy<A>>, handles: &Vec<u64>)
    ensures
        final(out)@ == old(out)@ + framebuffers_gone(handles@),
{
    let ghost start = out@;
    let mut i: usize = 0;
    while i < handles.len()
        invariant
            i <= handles@.len(),
            out@.len() == start.len() + i,
            forall|k: int| 0 <= k < start.len() ==> out@[k] == start[k],
            forall|k: int| 0 <= k < i ==> out@[start.len() + k] == Destroy::<A>::Framebuffer(handles@[k]),
        decreases handles@.len() - i,
    {
        out.push(Destroy::Framebuffer(handles[i]));
        i += 1;
    }
    proof {
        assert(out@ =~= start + framebuffers_gone::<A>(handles@));
    }
}

/// Adds the image views to what is to be destroyed.
fn push_views<A>(out: &mut Vec<Destroy<A>>, handles: &Vec<u64>)
    ensures
        final(out)@ == old(out)@ + views_gone(handles@),
{
    let ghost start = out@;
    let mut i: usize = 0;
    while i < handles.len()
        invariant
            i <= handles@.len(),
            out@.len() == start.len() + i,
            forall|k: int| 0 <= k < start.len() ==> out@[k] == start[k],
            forall|k: int| 0 <= k < i ==> out@[start.len() + k] == Destroy::<A>::ImageView(handles@[k]),
        decreases handles@.len() - i,
    {
        out.push(Destroy::ImageView(handles[i]));
        i += 1;
    }
    proof {
        assert(out@ =~= start + views_gone::<A>(handles@));
    }
}

/// Takes released objects apart, in order, and hands back what is to be
/// destroyed, in order. The pipelines and the framebuffers that go with
/// them leave their caches.
pub fn release<A>(
    garbage: Vec<Garbage<A>>,
    pipelines: &mut PipelineCache,
    framebuffers: &mut FramebufferCache,
) -> (r: Vec<Destroy<A>>)
    requires
        old(pipelines).wf(),
        old(framebuffers).wf(),
    ensures
        final(pipelines).wf(),
        final(framebuffers).wf(),
        ({
            let start = Releasing {
                pipelines: old(pipelines)@,
                framebuffers: old(framebuffers)@,
                actions: Seq::<Destroy<A>>::empty(),
            };
            let end = release_many(start, garbage@, garbage@.len() as int);
            &&& final(pipelines)@ == end.pipelines
            &&& final(framebuffers)@ == end.framebuffers
            &&& r@ == end.actions
        }),
{
    let ghost all = garbage@;
    let ghost start = Releasing {
        pipelines: pipelines@,
        framebuffers: framebuffers@,
        actions: Seq::<Destroy<A>>::empty(),
    };
    let n = garbage.len();
    // The objects are taken from the end of a vector, so it is turned round first.
    let mut garbage = garbage;
    let mut reversed: Vec<Garbage<A>> = Vec::new();
    let mut i: usize = 0;
    while i < n
        invariant
            i <= n,
            n == all.len(),
            garbage@ == all.take(n - i),
            reversed@.len() == i,
            forall|j: int| 0 <= j < i ==> reversed@[j] == all[n - 1 - j],
        decreases n - i,
    {
        match garbage.pop() {
            Some(g) => {
                reversed.push(g);
            },
            None => {},
        }
        i += 1;
        proof {
            assert(garbage@ =~= all.take(n - i));
        }
    }
    let mut out: Vec<Destroy<A>> = Vec::new();
    let mut k: usize = 0;
    while k < n
        invariant
            k <= n,
            n == all.len(),
            pipelines.wf(),
            framebuffers.wf(),
            reversed@.len() == n - k,
            forall|j: int| 0 <= j < n - k ==> reversed@[j] == all[n - 1 - j],
            release_many(start, all, k as int) == (Releasing {
                pipelines: pipelines@,
                framebuffers: framebuffers@,
                actions: out@,
            }),
        decreases n - k,
    {
        let ghost before = release_many(start, all, k as int);
        match reversed.pop() {
            Some(g) => {
                assert(g == all[k as int]);
                match g {
                    Garbage::PipelineLayout(layout) => {
                        let gone = pipelines.release(layout);
                        push_pipelines(&mut out, &gone);
                        out.push(Destroy::PipelineLayout(layout));
                        proof {
                            assert(out@ =~= before.actions + pipelines_gone(
                                dropped(before.pipelines, Selector::First(layout), 0),
                            ) + seq![Destroy::PipelineLayout(layout)]);
                        }
                    },
                    Garbage::Pipeline(pipeline) => {
                        out.push(Destroy::Pipeline(pipeline));
                    },
                    Garbage::Buffer { buffer, allocation, ref_counter } => {
                        out.push(Destroy::Buffer(buffer));
                        out.push(Destroy::Memory(allocation));
                        proof {
                            assert(out@ =~= before.actions + seq![
                                Destroy::Buffer(buffer),
                                Destroy::Memory(allocation),
                            ]);
                        }
                    },
                    Garbage::Texture { image, views, allocation, ref_counter } => {
                        let gone = framebuffers.views_destroyed(&views);
                        push_framebuffers(&mut out, &gone);
                        push_views(&mut out, &views);
                        out.push(Destroy::Image(image));
                        out.push(Destroy::Memory(allocation));
                        proof {
                            assert(out@ =~= before.actions + framebuffers_gone(
                                dropped_for_views(
                                    before.framebuffers,
                                    views@,
                                    views@.len() as int,
                                ),
                            ) + views_gone(views@) + seq![
                                Destroy::Image(image),
                                Destroy::Memory(allocation),
                            ]);
                        }
                    },
                    Garbage::DescriptorSet { set, layout } => {
                        out.push(Destroy::DescriptorSet { set, layout });
                    },
                }
            },
            None => {},
        }
        k += 1;
    }
    out
}

} // verus!
