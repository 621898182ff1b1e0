//! The room cache: the authoritative local list of rooms, keyed by their
//! stable server-assigned identifier, and the reconciliation operation that
//! merges freshly fetched per-room data into it.

use vstd::prelude::*;

use crate::room::{merge_room, DisplayRoom, RoomModel};
use crate::text::str_eq;

verus! {

/// No two entries of the cache carry the same room id.
pub open spec fn ids_distinct(cache: Seq<RoomModel>) -> bool {
    forall|i: int, j: int|
        0 <= i < cache.len() && 0 <= j < cache.len() && #[trigger] cache[i].id == #[trigger] cache[j].id
            ==> i == j
}

/// Whether some entry of the cache carries the given room id.
pub open spec fn has_room(cache: Seq<RoomModel>, id: Seq<char>) -> bool {
    exists|i: int| 0 <= i < cache.len() && #[trigger] cache[i].id == id
}

/// The index of the entry carrying the given room id, when one exists.
pub open spec fn room_index(cache: Seq<RoomModel>, id: Seq<char>) -> int {
    choose|i: int| 0 <= i < cache.len() && #[trigger] cache[i].id == id
}

/// One reconciliation step: a fresh snapshot is merged into the entry with
/// the same id under [`merge_room`], or appended verbatim when the id was
/// never seen — even if one or both of its fields are errors, first
/// knowledge is better than none.
pub open spec fn spec_reconcile(cache: Seq<RoomModel>, fresh: RoomModel) -> Seq<RoomModel> {
    if has_room(cache, fresh.id) {
        let i = room_index(cache, fresh.id);
        cache.update(i, merge_room(cache[i], fresh))
    } else {
        cache.push(fresh)
    }
}

/// A whole round of reconciliations, applied left to right.
pub open spec fn spec_reconcile_all(cache: Seq<RoomModel>, fresh: Seq<RoomModel>) -> Seq<RoomModel>
    decreases fresh.len(),
{
    if fresh.len() == 0 {
        cache
    } else {
        spec_reconcile_all(spec_reconcile(cache, fresh[0]), fresh.drop_first())
    }
}

/// What one reconciliation step does to the shape of the cache: ids stay
/// distinct, the fresh id is present afterwards, no other id appears or
/// disappears, and the length grows exactly when the id was new.
pub proof fn lemma_reconcile_shape(cache: Seq<RoomModel>, fresh: RoomModel)
    requires
        ids_distinct(cache),
    ensures
        ids_distinct(spec_reconcile(cache, fresh)),
        has_room(spec_reconcile(cache, fresh), fresh.id),
        spec_reconcile(cache, fresh).len() == cache.len() + (if has_room(cache, fresh.id) {
            0int
        } else {
            1int
        }),
        forall|id: Seq<char>|
            #[trigger] has_room(spec_reconcile(cache, fresh), id) <==> (has_room(cache, id) || id
                == fresh.id),
{
    let out = spec_reconcile(cache, fresh);
    if has_room(cache, fresh.id) {
        let i = room_index(cache, fresh.id);
        assert(0 <= i < cache.len() && cache[i].id == fresh.id);
        assert(out[i].id == cache[i].id);
        assert forall|k: int| 0 <= k < out.len() implies #[trigger] out[k].id == cache[k].id by {}
        assert forall|id: Seq<char>| #[trigger] has_room(out, id) implies has_room(cache, id) by {
            let w = choose|w: int| 0 <= w < out.len() && #[trigger] out[w].id == id;
            assert(cache[w].id == id);
        }
        assert forall|id: Seq<char>| has_room(cache, id) implies #[trigger] has_room(out, id) by {
            let w = choose|w: int| 0 <= w < cache.len() && #[trigger] cache[w].id == id;
            assert(out[w].id == id);
        }
        assert(has_room(out, fresh.id));
    } else {
        assert(out[cache.len() as int].id == fresh.id);
        assert forall|id: Seq<char>| #[trigger] has_room(out, id) implies (has_room(cache, id)
            || id == fresh.id) by {
            let w = choose|w: int| 0 <= w < out.len() && #[trigger] out[w].id == id;
            if w < cache.len() {
                assert(cache[w].id == id);
            }
        }
        assert forall|id: Seq<char>| has_room(cache, id) implies #[trigger] has_room(out, id) by {
            let w = choose|w: int| 0 <= w < cache.len() && #[trigger] cache[w].id == id;
            assert(out[w].id == id);
        }
        assert forall|i: int, j: int|
            0 <= i < out.len() && 0 <= j < out.len() && #[trigger] out[i].id == #[trigger] out[j].id
            implies i == j by {
            if i < cache.len() && j < cache.len() {
                assert(cache[i].id == cache[j].id);
            } else if i < cache.len() && j == cache.len() {
                assert(cache[i].id == fresh.id);
                assert(has_room(cache, fresh.id));
            } else if j < cache.len() && i == cache.len() {
                assert(cache[j].id == fresh.id);
                assert(has_room(cache, fresh.id));
            }
        }
    }
}

/// Reconciling the same room id twice never creates a duplicate entry: the
/// second step finds the entry left by the first and merges in place, so
/// the cache does not grow again.
pub proof fn lemma_reconcile_same_id_twice(cache: Seq<RoomModel>, first: RoomModel, second: RoomModel)
    requires
        ids_distinct(cache),
        first.id == second.id,
    ensures
        spec_reconcile(spec_reconcile(cache, first), second).len() == spec_reconcile(
            cache,
            first,
        ).len(),
        ids_distinct(spec_reconcile(spec_reconcile(cache, first), second)),
{
    lemma_reconcile_shape(cache, first);
    lemma_reconcile_shape(spec_reconcile(cache, first), second);
}

/// A round of reconciliations over distinct ids never seen before loses
/// none of them: every one appears in the cache afterwards and the cache
/// grows by exactly their number. Per-room locking linearizes concurrent
/// reconciliations into such a round in some order.
pub proof fn lemma_reconcile_all_new_ids(cache: Seq<RoomModel>, fresh: Seq<RoomModel>)
    requires
        ids_distinct(cache),
        forall|a: int, b: int|
            0 <= a < fresh.len() && 0 <= b < fresh.len() && #[trigger] fresh[a].id
                == #[trigger] fresh[b].id ==> a == b,
        forall|k: int| 0 <= k < fresh.len() ==> !has_room(cache, #[trigger] fresh[k].id),
    ensures
        ids_distinct(spec_reconcile_all(cache, fresh)),
        spec_reconcile_all(cache, fresh).len() == cache.len() + fresh.len(),
        forall|k: int|
            0 <= k < fresh.len() ==> has_room(spec_reconcile_all(cache, fresh), #[trigger] fresh[k].id),
        forall|id: Seq<char>|
            #[trigger] has_room(cache, id) ==> has_room(spec_reconcile_all(cache, fresh), id),
    decreases fresh.len(),
{
    if fresh.len() == 0 {
    } else {
        let head = fresh[0];
        let tail = fresh.drop_first();
        let step = spec_reconcile(cache, head);
        lemma_reconcile_shape(cache, head);
        assert(step.len() == cache.len() + 1);
        assert forall|k: int| 0 <= k < tail.len() implies !has_room(step, #[trigger] tail[k].id) by {
            assert(tail[k] == fresh[k + 1]);
            assert(!has_room(cache, fresh[k + 1].id));
            assert(fresh[k + 1].id != fresh[0].id);
        }
        assert forall|a: int, b: int|
            0 <= a < tail.len() && 0 <= b < tail.len() && #[trigger] tail[a].id
                == #[trigger] tail[b].id implies a == b by {
            assert(tail[a] == fresh[a + 1]);
            assert(tail[b] == fresh[b + 1]);
        }
        lemma_reconcile_all_new_ids(step, tail);
        assert forall|id: Seq<char>|
            #[trigger] has_room(cache, id) implies has_room(
            spec_reconcile_all(cache, fresh),
            id,
        ) by {
            assert(has_room(step, id));
            assert(has_room(spec_reconcile_all(step, tail), id));
        }
        assert forall|k: int|
            0 <= k < fresh.len() implies has_room(
            spec_reconcile_all(cache, fresh),
            #[trigger] fresh[k].id,
        ) by {
            if k == 0 {
                assert(has_room(step, fresh[0].id));
            } else {
                assert(tail[k - 1] == fresh[k]);
                assert(has_room(spec_reconcile_all(step, tail), tail[k - 1].id));
            }
        }
    }
}

/// The local cache of every room the user can see, in first-seen order.
///
/// The sync loop writes into it through [`RoomCache::reconcile`]; the
/// interface reads it. Entries are never removed: rooms are held for the
/// whole session once observed.
pub struct RoomCache {
    /// Cached rooms, first-seen order
    rooms: Vec<DisplayRoom>,
}

impl View for RoomCache {
    type V = Seq<RoomModel>;

    closed spec fn view(&self) -> Seq<RoomModel> {
        self.rooms@.map_values(|r: DisplayRoom| r@)
    }
}

impl RoomCache {
    /// Invariant: room ids are unique keys.
    pub open spec fn wf(&self) -> bool {
        ids_distinct(self@)
    }

    /// Creates an empty cache.
    pub fn new() -> (r: Self)
        ensures
            r@ == Seq::<RoomModel>::empty(),
            r.wf(),
    {
        let rooms: Vec<DisplayRoom> = Vec::new();
        let r = RoomCache { rooms };
        proof {
            assert(r@ =~= Seq::<RoomModel>::empty());
        }
        r
    }

    /// Number of cached rooms.
    pub fn len(&self) -> (r: usize)
        ensures
            r == self@.len(),
    {
        self.rooms.len()
    }

    /// Whether no room has been seen yet.
    pub fn is_empty(&self) -> (r: bool)
        ensures
            r == (self@.len() == 0),
    {
        self.rooms.is_empty()
    }

    /// Read-only view of all cached rooms, in first-seen order.
    pub fn list(&self) -> (r: &Vec<DisplayRoom>)
        ensures
            r@.map_values(|room: DisplayRoom| room@) == self@,
    {
        &self.rooms
    }

    /// The cached room at the given position.
    pub fn get(&self, index: usize) -> (r: &DisplayRoom)
        requires
            index < self@.len(),
        ensures
            r@ == self@[index as int],
    {
        &self.rooms[index]
    }

    /// The position of the entry carrying the given id, if the id has been
    /// seen.
    pub fn find_index(&self, id: &str) -> (r: Option<usize>)
        ensures
            r is Some <==> has_room(self@, id@),
            r is Some ==> {
                let i = r->0 as int;
                0 <= i < self@.len() && self@[i].id == id@
            },
    {
        let n = self.rooms.len();
        let mut i: usize = 0;
        while i < n
            invariant
                i <= n,
                n == self@.len(),
                self@.len() == self.rooms@.len(),
                forall|k: int| 0 <= k < i ==> #[trigger] self@[k].id != id@,
            decreases n - i,
        {
            if str_eq(self.rooms[i].id().as_str(), id) {
                return Some(i);
            }
            i += 1;
        }
        proof {
            if has_room(self@, id@) {
                let w = room_index(self@, id@);
                assert(self@[w].id == id@);
            }
        }
        None
    }

    /// The cached room with the given id, if the id has been seen.
    pub fn find(&self, id: &str) -> (r: Option<&DisplayRoom>)
        requires
            self.wf(),
        ensures
            r is Some <==> has_room(self@, id@),
            r is Some ==> 0 <= room_index(self@, id@) < self@.len() && r->0@ == self@[room_index(
                self@,
                id@,
            )],
    {
        match self.find_index(id) {
            Some(i) => {
                let room = &self.rooms[i];
                proof {
                    assert(self@[i as int].id == id@);
                    assert(has_room(self@, id@));
                    let w = room_index(self@, id@);
                    assert(0 <= w < self@.len() && self@[w].id == id@);
                    assert(w == i as int);
                }
                Some(room)
            },
            None => None,
        }
    }

    /// Merges one freshly fetched room into the cache: in place, under the
    /// merge rule, when its id is already present; appended verbatim when
    /// the id is new. Reconciliation itself cannot fail: a failed fetch
    /// lives inside the entry's fields.
    pub fn reconcile(&mut self, fresh: DisplayRoom)
        requires
            old(self).wf(),
        ensures
            final(self)@ == spec_reconcile(old(self)@, fresh@),
            final(self).wf(),
    {
        proof {
            lemma_reconcile_shape(old(self)@, fresh@);
        }
        let maybe_index = self.find_index(fresh.id().as_str());
        match maybe_index {
            Some(i) => {
                let ghost before = self@;
                proof {
                    assert(before[i as int].id == fresh@.id);
                    assert(has_room(before, fresh@.id));
                    let w = room_index(before, fresh@.id);
                    assert(0 <= w < before.len() && before[w].id == fresh@.id);
                    assert(w == i as int);
                }
                let slot = &mut self.rooms[i];
                slot.update_from(fresh);
                proof {
                    assert(self@ =~= spec_reconcile(before, fresh@));
                }
            },
            None => {
                let ghost before = self@;
                self.rooms.push(fresh);
                proof {
                    assert(self@ =~= before.push(fresh@));
                }
            },
        }
    }
}

} // verus!
