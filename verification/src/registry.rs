//! The registry of textures and the application of texture deltas.

use std::collections::HashMap;
use vstd::prelude::*;
use crate::texture::{DeltaEntry, ImageExtent, ImageUpdate, TextureChanges, TextureId, TextureOp};

verus! {

broadcast use vstd::std_specs::hash::group_hash_axioms;

/// The registry after one delta entry.
///
/// A removal erases a managed texture.  An update creates a managed texture
/// that is not there yet, with the extent of the update; on one that is, it
/// changes pixels only.  Entries about user images change nothing.
pub open spec fn entry_effect(reg: Map<TextureId, ImageExtent>, e: DeltaEntry) -> Map<
    TextureId,
    ImageExtent,
> {
    match e {
        DeltaEntry::Remove { id } => if id is Managed {
            reg.remove(id)
        } else {
            reg
        },
        DeltaEntry::Update { id, image } => if id is Managed && !reg.contains_key(id) {
            reg.insert(id, image.extent)
        } else {
            reg
        },
    }
}

/// The GPU work that one delta entry calls for, if any.
pub open spec fn entry_op(reg: Map<TextureId, ImageExtent>, e: DeltaEntry) -> Option<TextureOp> {
    match e {
        DeltaEntry::Remove { id } => if id is Managed && reg.contains_key(id) {
            Some(TextureOp::Release { id })
        } else {
            None
        },
        DeltaEntry::Update { id, image } => if !(id is Managed) {
            None
        } else if reg.contains_key(id) {
            Some(
                TextureOp::Upload {
                    id,
                    x: image.origin().0,
                    y: image.origin().1,
                    extent: image.extent,
                    pixels: image.pixels,
                },
            )
        } else {
            Some(TextureOp::Allocate { id, extent: image.extent, pixels: image.pixels })
        },
    }
}

/// The registry after the entries of a delta, applied first to last.
pub open spec fn registry_after(reg: Map<TextureId, ImageExtent>, delta: Seq<DeltaEntry>) -> Map<
    TextureId,
    ImageExtent,
>
    decreases delta.len(),
{
    if delta.len() == 0 {
        reg
    } else {
        entry_effect(registry_after(reg, delta.drop_last()), delta.last())
    }
}

/// The GPU work that a delta calls for, in the order of its entries.
pub open spec fn delta_ops(reg: Map<TextureId, ImageExtent>, delta: Seq<DeltaEntry>) -> Seq<
    TextureOp,
>
    decreases delta.len(),
{
    if delta.len() == 0 {
        Seq::empty()
    } else {
        let before = delta_ops(reg, delta.drop_last());
        match entry_op(registry_after(reg, delta.drop_last()), delta.last()) {
            Some(op) => before.push(op),
            None => before,
        }
    }
}

/// The registry after an image was registered under `id`.
pub open spec fn registered(reg: Map<TextureId, ImageExtent>, id: TextureId, extent: ImageExtent) -> Map<
    TextureId,
    ImageExtent,
> {
    reg.insert(id, extent)
}

/// The registry after `id` was unregistered: a user image leaves, a managed
/// texture stays.
pub open spec fn unregistered(reg: Map<TextureId, ImageExtent>, id: TextureId) -> Map<
    TextureId,
    ImageExtent,
> {
    if id is User {
        reg.remove(id)
    } else {
        reg
    }
}

/// Whether the entry removes `id`.
pub open spec fn removes(e: DeltaEntry, id: TextureId) -> bool {
    e is Remove && e.target() == id
}

/// Whether the entry updates `id`.
pub open spec fn updates(e: DeltaEntry, id: TextureId) -> bool {
    e is Update && e.target() == id
}

/// Whether no entry of `delta` from index `from` on removes `id`.
pub open spec fn not_removed_from(delta: Seq<DeltaEntry>, id: TextureId, from: int) -> bool {
    forall|j: int| from <= j < delta.len() ==> !removes(#[trigger] delta[j], id)
}

/// Whether `id` is registered once `delta` has been applied to `reg`, read
/// off the delta without applying it.
///
/// A user image is registered afterwards exactly if it was before.  A managed
/// texture is if the last entry about it is an update, or if it was there
/// and no entry removes it.
pub open spec fn survives(reg: Map<TextureId, ImageExtent>, delta: Seq<DeltaEntry>, id: TextureId) -> bool {
    if id is Managed {
        ||| reg.contains_key(id) && not_removed_from(delta, id, 0)
        ||| exists|i: int|
            0 <= i < delta.len() && updates(#[trigger] delta[i], id) && not_removed_from(
                delta,
                id,
                i + 1,
            )
    } else {
        reg.contains_key(id)
    }
}

/// After a delta the registry holds exactly the identifiers that survive it.
pub proof fn lemma_domain_after_delta(
    reg: Map<TextureId, ImageExtent>,
    delta: Seq<DeltaEntry>,
    id: TextureId,
)
    ensures
        registry_after(reg, delta).contains_key(id) <==> survives(reg, delta, id),
    decreases delta.len(),
{
    if delta.len() > 0 {
        let d = delta.drop_last();
        let e = delta.last();
        let n = d.len() as int;
        lemma_domain_after_delta(reg, d, id);
        assert forall|j: int| 0 <= j < n implies d[j] == delta[j] by {}
        if id is Managed {
            if removes(e, id) {
                assert(removes(delta[n], id));
                assert(!survives(reg, delta, id));
            } else if updates(e, id) {
                assert(updates(delta[n], id) && not_removed_from(delta, id, n + 1));
            } else {
                assert forall|from: int| 0 <= from implies (not_removed_from(d, id, from)
                    <==> not_removed_from(delta, id, from)) by {
                    if not_removed_from(d, id, from) {
                        assert forall|j: int| from <= j < delta.len() implies !removes(
                            #[trigger] delta[j],
                            id,
                        ) by {
                            if j < n {
                                assert(!removes(d[j], id));
                            }
                        }
                    }
                    if not_removed_from(delta, id, from) {
                        assert forall|j: int| from <= j < d.len() implies !removes(
                            #[trigger] d[j],
                            id,
                        ) by {
                            assert(!removes(delta[j], id));
                        }
                    }
                }
                if survives(reg, d, id) && !(reg.contains_key(id) && not_removed_from(d, id, 0)) {
                    let i = choose|i: int|
                        0 <= i < d.len() && updates(#[trigger] d[i], id) && not_removed_from(
                            d,
                            id,
                            i + 1,
                        );
                    assert(updates(delta[i], id) && not_removed_from(delta, id, i + 1));
                }
                if survives(reg, delta, id) && !(reg.contains_key(id) && not_removed_from(
                    delta,
                    id,
                    0,
                )) {
                    let i = choose|i: int|
                        0 <= i < delta.len() && updates(#[trigger] delta[i], id)
                            && not_removed_from(delta, id, i + 1);
                    assert(i < n);
                    assert(updates(d[i], id) && not_removed_from(d, id, i + 1));
                }
            }
        }
    }
}

/// Within one delta the later entry wins: where an update of a texture
/// follows its removal at once, and nothing after removes it again, the
/// texture is registered afterwards.  This holds of every managed texture,
/// and of a user image that is registered: a delta does not create one.
pub proof fn lemma_update_after_remove_wins(
    reg: Map<TextureId, ImageExtent>,
    delta: Seq<DeltaEntry>,
    i: int,
    id: TextureId,
)
    requires
        id is Managed || reg.contains_key(id),
        0 <= i,
        i + 1 < delta.len(),
        removes(delta[i], id),
        updates(delta[i + 1], id),
        not_removed_from(delta, id, i + 2),
    ensures
        registry_after(reg, delta).contains_key(id),
{
    lemma_domain_after_delta(reg, delta, id);
}

/// Registering an identifier that is free and unregistering it again leaves
/// the registry as it was, and unregistering twice is unregistering once.
pub proof fn lemma_register_unregister(
    reg: Map<TextureId, ImageExtent>,
    id: TextureId,
    extent: ImageExtent,
)
    requires
        id is User,
        !reg.contains_key(id),
    ensures
        registered(reg, id, extent).contains_key(id),
        unregistered(registered(reg, id, extent), id) == reg,
        unregistered(unregistered(registered(reg, id, extent), id), id) == reg,
{
    assert(reg.insert(id, extent).remove(id) =~= reg);
    assert(reg.remove(id) =~= reg);
}

/// Unregistering is idempotent, whatever the registry holds.
pub proof fn lemma_unregister_idempotent(reg: Map<TextureId, ImageExtent>, id: TextureId)
    ensures
        !(id is User && unregistered(reg, id).contains_key(id)),
        unregistered(unregistered(reg, id), id) == unregistered(reg, id),
{
    assert(reg.remove(id).remove(id) =~= reg.remove(id));
}

/// The removals of `ids`, in their order.
pub open spec fn removals_of(ids: Seq<TextureId>) -> Seq<DeltaEntry> {
    Seq::new(ids.len(), |i: int| DeltaEntry::Remove { id: ids[i] })
}

/// The updates of a frame as delta entries, in their order.
pub open spec fn updates_of(updates: Seq<(TextureId, ImageUpdate)>) -> Seq<DeltaEntry> {
    Seq::new(updates.len(), |i: int| DeltaEntry::Update { id: updates[i].0, image: updates[i].1 })
}

/// The delta to apply before a frame is drawn: the removals held over from
/// the frame before, then the updates of this frame.
pub open spec fn frame_delta(held: Seq<TextureId>, updates: Seq<(TextureId, ImageUpdate)>) -> Seq<
    DeltaEntry,
> {
    removals_of(held) + updates_of(updates)
}

/// Makes the delta of a frame out of what the toolkit reports of it.
///
/// The toolkit lets go of a texture once the frame that shows it last is
/// painted.  So the textures that this frame frees are held over: the delta
/// removes those of the frame before, then applies this frame's updates, and
/// what this frame frees is returned to be held until the next.
pub fn defer_removals(held: Vec<TextureId>, changes: TextureChanges) -> (r: (
    Vec<DeltaEntry>,
    Vec<TextureId>,
))
    ensures
        r.0@ == frame_delta(held@, changes.updates@),
        r.1 == changes.frees,
{
    let TextureChanges { updates, frees } = changes;
    let mut delta: Vec<DeltaEntry> = Vec::new();
    let ghost held_ids = held@;
    let ghost all = updates@;
    for id in it: held
        invariant
            it.seq() == held_ids,
            delta@ == removals_of(held_ids.take(it.index() as int)),
    {
        delta.push(DeltaEntry::Remove { id });
        assert(delta@ =~= removals_of(held_ids.take(it.index() + 1)));
    }
    assert(held_ids.take(held_ids.len() as int) == held_ids);
    for update in it: updates
        invariant
            it.seq() == all,
            delta@ == removals_of(held_ids) + updates_of(all.take(it.index() as int)),
    {
        delta.push(DeltaEntry::Update { id: update.0, image: update.1 });
        assert(delta@ =~= removals_of(held_ids) + updates_of(all.take(it.index() + 1)));
    }
    assert(all.take(all.len() as int) == all);
    (delta, frees)
}

/// The delta of a frame removes held textures only: what is registered and
/// was not held over is registered still when the frame is drawn, whatever
/// the frame itself frees.
pub proof fn lemma_frame_delta_spares_the_rest(
    reg: Map<TextureId, ImageExtent>,
    held: Seq<TextureId>,
    updates: Seq<(TextureId, ImageUpdate)>,
    id: TextureId,
)
    requires
        reg.contains_key(id),
        !held.contains(id),
    ensures
        registry_after(reg, frame_delta(held, updates)).contains_key(id),
{
    let delta = frame_delta(held, updates);
    lemma_domain_after_delta(reg, delta, id);
    assert forall|j: int| 0 <= j < delta.len() implies !removes(#[trigger] delta[j], id) by {
        if j < held.len() {
            assert(delta[j] == removals_of(held)[j]);
            assert(held.contains(held[j]));
        } else {
            assert(delta[j] == updates_of(updates)[j - held.len()]);
        }
    }
}

/// A managed texture that was held over is gone once the delta of the next
/// frame is applied, unless that frame updates it anew.
pub proof fn lemma_held_removal_takes_effect(
    reg: Map<TextureId, ImageExtent>,
    held: Seq<TextureId>,
    changes: Seq<(TextureId, ImageUpdate)>,
    id: TextureId,
)
    requires
        id is Managed,
        held.contains(id),
        forall|i: int| 0 <= i < changes.len() ==> (#[trigger] changes[i]).0 != id,
    ensures
        !registry_after(reg, frame_delta(held, changes)).contains_key(id),
{
    let delta = frame_delta(held, changes);
    lemma_domain_after_delta(reg, delta, id);
    let k = choose|k: int| 0 <= k < held.len() && held[k] == id;
    assert(delta[k] == removals_of(held)[k]);
    assert(removes(delta[k], id));
    assert forall|i: int| 0 <= i < delta.len() implies !updates(#[trigger] delta[i], id) by {
        if i < held.len() {
            assert(delta[i] == removals_of(held)[i]);
        } else {
            assert(delta[i] == updates_of(changes)[i - held.len()]);
            assert(changes[i - held.len()].0 != id);
        }
    }
}

/// Maps texture identifiers to the images that stand for them on the GPU.
///
/// Managed entries follow the toolkit's deltas.  User entries belong to the
/// application: they come and go by registration only.
pub struct ResourceBridge {
    managed: HashMap<u64, ImageExtent>,
    external: HashMap<u64, ImageExtent>,
    next_user: u64,
}

/// The view of a bridge is what it has registered.  The number of the next
/// user identifier is no part of it: `next_user_id` tells it.
impl View for ResourceBridge {
    type V = Map<TextureId, ImageExtent>;

    closed spec fn view(&self) -> Map<TextureId, ImageExtent> {
        Map::new(
            |id: TextureId|
                match id {
                    TextureId::Managed(k) => self.managed@.contains_key(k),
                    TextureId::User(k) => self.external@.contains_key(k),
                },
            |id: TextureId|
                match id {
                    TextureId::Managed(k) => self.managed@[k],
                    TextureId::User(k) => self.external@[k],
                },
        )
    }
}

impl ResourceBridge {
    /// Every user identifier handed out so far lies below the next one.
    pub closed spec fn wf(&self) -> bool {
        forall|k: u64| self.external@.contains_key(k) ==> k < self.next_user
    }

    /// The number of the user identifier that the next registration returns.
    pub closed spec fn next_user_id(&self) -> nat {
        self.next_user as nat
    }

    /// In a well-formed bridge no registered user identifier has reached the
    /// next one to be issued.
    pub proof fn lemma_user_ids_issued(&self, k: u64)
        requires
            self.wf(),
            self@.contains_key(TextureId::User(k)),
        ensures
            k < self.next_user_id() <= u64::MAX,
    {
    }

    /// A bridge with no textures.
    pub fn new() -> (bridge: ResourceBridge)
        ensures
            bridge.wf(),
            bridge@ == Map::<TextureId, ImageExtent>::empty(),
            bridge.next_user_id() == 0,
    {
        let bridge = ResourceBridge {
            managed: HashMap::new(),
            external: HashMap::new(),
            next_user: 0,
        };
        assert(bridge@ =~= Map::<TextureId, ImageExtent>::empty());
        bridge
    }

    /// How many user identifiers were issued so far: the number that the
    /// next one gets.
    pub fn user_ids_issued(&self) -> (n: u64)
        ensures
            n == self.next_user_id(),
    {
        self.next_user
    }

    /// The extent of the image registered under `id`, if there is one.
    pub fn resolve(&self, id: TextureId) -> (r: Option<ImageExtent>)
        ensures
            r is Some <==> self@.contains_key(id),
            r matches Some(extent) ==> extent == self@[id],
    {
        match id {
            TextureId::Managed(k) => match self.managed.get(&k) {
                Some(extent) => Some(*extent),
                None => None,
            },
            TextureId::User(k) => match self.external.get(&k) {
                Some(extent) => Some(*extent),
                None => None,
            },
        }
    }

    /// Registers an image that the application owns and returns the
    /// identifier under which UI code can draw it.
    pub fn register_external_image(&mut self, extent: ImageExtent) -> (id: TextureId)
        requires
            old(self).wf(),
            old(self).next_user_id() < u64::MAX,
        ensures
            final(self).wf(),
            id == TextureId::User(old(self).next_user_id() as u64),
            !old(self)@.contains_key(id),
            final(self)@ == registered(old(self)@, id, extent),
            final(self).next_user_id() == old(self).next_user_id() + 1,
    {
        let k: u64 = self.next_user;
        self.external.insert(k, extent);
        self.next_user = k + 1;
        assert(self@ =~= registered(old(self)@, TextureId::User(k), extent));
        TextureId::User(k)
    }

    /// Unregisters a user image.  Says whether an entry left the registry:
    /// it does not where `id` is unknown or names a managed texture.
    pub fn unregister(&mut self, id: TextureId) -> (removed: bool)
        requires
            old(self).wf(),
        ensures
            final(self).wf(),
            removed == (id is User && old(self)@.contains_key(id)),
            final(self)@ == unregistered(old(self)@, id),
            final(self).next_user_id() == old(self).next_user_id(),
    {
        match id {
            TextureId::User(k) => {
                let gone = self.external.remove(&k);
                assert(self@ =~= unregistered(old(self)@, id));
                gone.is_some()
            },
            TextureId::Managed(_) => false,
        }
    }

    /// Whether `id` will be registered once `delta` has been applied, found
    /// without applying it.
    pub fn survives_delta(&self, delta: &Vec<DeltaEntry>, id: TextureId) -> (r: bool)
        ensures
            r == survives(self@, delta@, id),
            r == registry_after(self@, delta@).contains_key(id),
    {
        proof {
            lemma_domain_after_delta(self@, delta@, id);
        }
        if !id.is_managed() {
            return self.resolve(id).is_some();
        }
        let mut i: usize = delta.len();
        while i > 0
            invariant
                i <= delta.len(),
                id is Managed,
                registry_after(self@, delta@).contains_key(id) <==> survives(self@, delta@, id),
                not_removed_from(delta@, id, i as int),
                forall|j: int| i <= j < delta.len() ==> !updates(#[trigger] delta@[j], id),
            decreases i,
        {
            i -= 1;
            match &delta[i] {
                DeltaEntry::Remove { id: other } => {
                    if *other == id {
                        proof {
                            assert(removes(delta@[i as int], id));
                            assert forall|k: int|
                                0 <= k < delta.len() && updates(
                                    #[trigger] delta@[k],
                                    id,
                                ) implies !not_removed_from(delta@, id, k + 1) by {
                                assert(k < i);
                            }
                        }
                        return false;
                    }
                },
                DeltaEntry::Update { id: other, .. } => {
                    if *other == id {
                        proof {
                            assert(updates(delta@[i as int], id));
                        }
                        return true;
                    }
                },
            }
        }
        self.resolve(id).is_some()
    }

    /// Applies the entries of a texture delta, first to last, and returns
    /// the GPU work they call for.
    pub fn apply_delta(&mut self, delta: Vec<DeltaEntry>) -> (ops: Vec<TextureOp>)
        requires
            old(self).wf(),
        ensures
            final(self).wf(),
            final(self)@ == registry_after(old(self)@, delta@),
            ops@ == delta_ops(old(self)@, delta@),
            final(self).next_user_id() == old(self).next_user_id(),
    {
        let mut ops: Vec<TextureOp> = Vec::new();
        let ghost entries = delta@;
        for e in it: delta
            invariant
                self.wf(),
                it.seq() == entries,
                self@ == registry_after(old(self)@, entries.take(it.index() as int)),
                ops@ == delta_ops(old(self)@, entries.take(it.index() as int)),
                self.next_user_id() == old(self).next_user_id(),
        {
            let ghost before = self@;
            proof {
                assert(entries.take(it.index() + 1).drop_last() == entries.take(
                    it.index() as int,
                ));
            }
            match e {
                DeltaEntry::Remove { id } => match id {
                    TextureId::Managed(k) => {
                        let gone = self.managed.remove(&k);
                        if gone.is_some() {
                            ops.push(TextureOp::Release { id });
                        }
                    },
                    TextureId::User(_) => {},
                },
                DeltaEntry::Update { id, image } => match id {
                    TextureId::Managed(k) => {
                        if self.managed.contains_key(&k) {
                            let (x, y): (u32, u32) = match image.pos {
                                Some(p) => p,
                                None => (0, 0),
                            };
                            ops.push(
                                TextureOp::Upload {
                                    id,
                                    x,
                                    y,
                                    extent: image.extent,
                                    pixels: image.pixels,
                                },
                            );
                        } else {
                            self.managed.insert(k, image.extent);
                            ops.push(
                                TextureOp::Allocate {
                                    id,
                                    extent: image.extent,
                                    pixels: image.pixels,
                                },
                            );
                        }
                    },
                    TextureId::User(_) => {},
                },
            }
            assert(self@ =~= entry_effect(before, e));
        }
        proof {
            assert(entries.take(entries.len() as int) == entries);
        }
        ops
    }
}

} // verus!
