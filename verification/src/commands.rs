//! Clipped mesh primitives and the draw commands built from them.

use vstd::prelude::*;
use crate::clip::{clip_to_target, lemma_scissor_within_target, scissor_of, Rect, Scissor};
use crate::registry::{lemma_domain_after_delta, registry_after, survives, ResourceBridge};
use crate::scale::Scale;
use crate::texture::{DeltaEntry, ImageExtent, TextureId};

verus! {

/// A mesh as the toolkit emits it: vertices of some type `V`, indices into
/// them, the texture to sample and the rectangle outside of which nothing of
/// it may show.
#[derive(Clone, Debug, PartialEq, Eq)]
pub struct ClippedPrimitive<V> {
    pub clip: Rect,
    pub texture: TextureId,
    pub vertices: Vec<V>,
    pub indices: Vec<u32>,
}

/// One indexed draw: the scissor to set, the texture to bind and the buffers
/// to draw from.
#[derive(Clone, Debug, PartialEq, Eq)]
pub struct DrawCommand<V> {
    pub scissor: Scissor,
    pub texture: TextureId,
    pub vertices: Vec<V>,
    pub indices: Vec<u32>,
}

/// The draw command of one primitive.
pub open spec fn command_of<V>(p: ClippedPrimitive<V>, scale: Scale, target: [u32; 2]) -> DrawCommand<V> {
    DrawCommand {
        scissor: scissor_of(p.clip, scale, target),
        texture: p.texture,
        vertices: p.vertices,
        indices: p.indices,
    }
}

/// The draw commands of a frame: one for each primitive, in the order of the
/// primitives.
pub open spec fn commands_of<V>(prims: Seq<ClippedPrimitive<V>>, scale: Scale, target: [u32; 2]) -> Seq<
    DrawCommand<V>,
> {
    Seq::new(prims.len(), |i: int| command_of(prims[i], scale, target))
}

/// Whether the registry holds the texture of every primitive.
pub open spec fn all_resolve<V>(reg: Map<TextureId, ImageExtent>, prims: Seq<ClippedPrimitive<V>>) -> bool {
    forall|i: int| 0 <= i < prims.len() ==> reg.contains_key(#[trigger] prims[i].texture)
}

/// Where every texture that the primitives of a frame refer to survives the
/// frame's delta, every one of them resolves once the delta is applied.
pub proof fn lemma_frame_resolves<V>(
    reg: Map<TextureId, ImageExtent>,
    delta: Seq<DeltaEntry>,
    prims: Seq<ClippedPrimitive<V>>,
)
    requires
        forall|i: int| 0 <= i < prims.len() ==> survives(reg, delta, #[trigger] prims[i].texture),
    ensures
        all_resolve(registry_after(reg, delta), prims),
{
    assert forall|i: int| 0 <= i < prims.len() implies registry_after(reg, delta).contains_key(
        #[trigger] prims[i].texture,
    ) by {
        lemma_domain_after_delta(reg, delta, prims[i].texture);
    }
}

/// Every command of a frame has its scissor within the target, and draws
/// what its primitive holds with the texture that its primitive names.
pub proof fn lemma_commands_clipped<V>(
    prims: Seq<ClippedPrimitive<V>>,
    scale: Scale,
    target: [u32; 2],
    i: int,
)
    requires
        scale.wf(),
        0 <= i < prims.len(),
    ensures
        commands_of(prims, scale, target).len() == prims.len(),
        commands_of(prims, scale, target)[i].scissor.within(target),
        commands_of(prims, scale, target)[i].texture == prims[i].texture,
{
    lemma_scissor_within_target(prims[i].clip, scale, target);
}

/// Where the first `i` primitives resolve and the next one does, the first
/// `i + 1` resolve.
proof fn lemma_one_more_resolves<V>(
    reg: Map<TextureId, ImageExtent>,
    prims: Seq<ClippedPrimitive<V>>,
    i: int,
)
    requires
        0 <= i < prims.len(),
        all_resolve(reg, prims.take(i)),
        reg.contains_key(prims[i].texture),
    ensures
        all_resolve(reg, prims.take(i + 1)),
{
    let next = prims.take(i + 1);
    assert forall|j: int| 0 <= j < next.len() implies reg.contains_key(
        #[trigger] next[j].texture,
    ) by {
        if j < i {
            assert(prims.take(i)[j] == next[j]);
        }
    }
}

impl ResourceBridge {
    /// The index of the first primitive whose texture the registry does not
    /// hold, if there is one.
    pub fn first_unresolved<V>(&self, prims: &Vec<ClippedPrimitive<V>>) -> (r: Option<usize>)
        ensures
            r is None <==> all_resolve(self@, prims@),
            r matches Some(i) ==> i < prims.len() && !self@.contains_key(prims[i as int].texture)
                && all_resolve(self@, prims@.take(i as int)),
    {
        let mut i: usize = 0;
        while i < prims.len()
            invariant
                i <= prims.len(),
                all_resolve(self@, prims@.take(i as int)),
            decreases prims.len() - i,
        {
            if self.resolve(prims[i].texture).is_none() {
                return Some(i);
            }
            proof {
                lemma_one_more_resolves(self@, prims@, i as int);
            }
            i += 1;
        }
        proof {
            assert(prims@.take(i as int) == prims@);
        }
        None
    }

    /// The index of the first primitive whose texture the registry will not
    /// hold once `delta` has been applied, if there is one.
    pub fn first_unresolved_after<V>(
        &self,
        delta: &Vec<DeltaEntry>,
        prims: &Vec<ClippedPrimitive<V>>,
    ) -> (r: Option<usize>)
        ensures
            r is None <==> all_resolve(registry_after(self@, delta@), prims@),
            r matches Some(i) ==> i < prims.len() && !registry_after(self@, delta@).contains_key(
                prims[i as int].texture,
            ) && all_resolve(registry_after(self@, delta@), prims@.take(i as int)),
    {
        let ghost after = registry_after(self@, delta@);
        let mut i: usize = 0;
        while i < prims.len()
            invariant
                i <= prims.len(),
                after == registry_after(self@, delta@),
                all_resolve(after, prims@.take(i as int)),
            decreases prims.len() - i,
        {
            if !self.survives_delta(delta, prims[i].texture) {
                return Some(i);
            }
            proof {
                lemma_one_more_resolves(after, prims@, i as int);
            }
            i += 1;
        }
        proof {
            assert(prims@.take(i as int) == prims@);
        }
        None
    }

    /// Builds the draw commands of a frame: one for each primitive, in
    /// order, each with its clip rectangle scaled to physical pixels and cut
    /// down to the target.
    ///
    /// Every primitive must name a texture that the registry holds: the
    /// frame's delta is applied first.
    pub fn build_commands<V>(
        &self,
        prims: Vec<ClippedPrimitive<V>>,
        scale: Scale,
        target: [u32; 2],
    ) -> (commands: Vec<DrawCommand<V>>)
        requires
            all_resolve(self@, prims@),
        ensures
            commands@ == commands_of(prims@, scale, target),
            forall|i: int|
                0 <= i < commands.len() ==> self@.contains_key(#[trigger] commands[i].texture)
                    && commands[i].scissor.within(target),
    {
        let mut commands: Vec<DrawCommand<V>> = Vec::new();
        let ghost all = prims@;
        for p in it: prims
            invariant
                it.seq() == all,
                all_resolve(self@, all),
                commands.len() == it.index(),
                forall|j: int|
                    0 <= j < commands.len() ==> #[trigger] commands[j] == command_of(
                        all[j],
                        scale,
                        target,
                    ),
                forall|j: int|
                    0 <= j < commands.len() ==> (#[trigger] commands[j]).scissor.within(target),
        {
            let scissor = clip_to_target(p.clip, scale, target);
            commands.push(
                DrawCommand { scissor, texture: p.texture, vertices: p.vertices, indices: p.indices },
            );
        }
        assert(commands@ =~= commands_of(all, scale, target));
        assert forall|i: int| 0 <= i < commands.len() implies self@.contains_key(
            #[trigger] commands[i].texture,
        ) by {
            assert(commands[i].texture == all[i].texture);
        }
        commands
    }
}

} // verus!
