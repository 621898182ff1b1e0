//! Popup to search a room by name: an input, the first cached rooms whose
//! name contains the typed text, and a wrapping cursor over those hits.

use vstd::prelude::*;

use crate::cache::RoomCache;
use crate::event::{spec_key_press, Event, KeyCode};
use crate::input::{spec_edit, Input, InputModel};
use crate::room::RoomModel;
use crate::text::{spec_contains, str_contains};

verus! {

/// At most this many hits are kept by a search.
pub const MAX_RESULTS: usize = 20;

/// Mathematical view of one search hit: the room's position in the cache
/// and its name.
pub struct SearchHitModel {
    pub index: int,
    pub name: Seq<char>,
}

/// One search hit: the room's position in the cache and its name.
pub struct SearchHit {
    /// Position of the room in the cache
    pub index: usize,
    /// Name of the room
    pub name: String,
}

impl View for SearchHit {
    type V = SearchHitModel;

    open spec fn view(&self) -> SearchHitModel {
        SearchHitModel { index: self.index as int, name: self.name@ }
    }
}

/// The hits among the first `n` cached rooms: those whose name is known
/// and contains `q`, in cache order.
pub open spec fn spec_hits(rooms: Seq<RoomModel>, q: Seq<char>, n: int) -> Seq<SearchHitModel>
    decreases n,
{
    if n <= 0 {
        Seq::empty()
    } else {
        let prev = spec_hits(rooms, q, n - 1);
        let room = rooms[n - 1];
        if room.name is Ok && spec_contains(room.name->Ok_0, q) {
            prev.push(SearchHitModel { index: n - 1, name: room.name->Ok_0 })
        } else {
            prev
        }
    }
}

/// The hits over a longer prefix of the cache extend those over a shorter
/// one, without reordering.
pub proof fn lemma_hits_prefix(rooms: Seq<RoomModel>, q: Seq<char>, n: int, m: int)
    requires
        0 <= n <= m,
    ensures
        spec_hits(rooms, q, n).len() <= spec_hits(rooms, q, m).len(),
        spec_hits(rooms, q, m).take(spec_hits(rooms, q, n).len() as int) == spec_hits(rooms, q, n),
    decreases m - n,
{
    if n == m {
        assert(spec_hits(rooms, q, m).take(spec_hits(rooms, q, n).len() as int) =~= spec_hits(
            rooms,
            q,
            n,
        ));
    } else {
        lemma_hits_prefix(rooms, q, n, m - 1);
        let prev = spec_hits(rooms, q, m - 1);
        let cur = spec_hits(rooms, q, m);
        let k = spec_hits(rooms, q, n).len() as int;
        assert(cur.take(k) =~= prev.take(k));
    }
}

/// The search results for a query over the whole cache: every hit in cache
/// order, cut off after [`MAX_RESULTS`] of them.
pub open spec fn spec_results(rooms: Seq<RoomModel>, q: Seq<char>) -> Seq<SearchHitModel> {
    let full = spec_hits(rooms, q, rooms.len() as int);
    if full.len() <= MAX_RESULTS {
        full
    } else {
        full.take(MAX_RESULTS as int)
    }
}

/// Mathematical view of the search popup.
#[verifier::ext_equal]
pub struct RoomSearchModel {
    pub cursor: Option<int>,
    pub input: InputModel,
    pub results: Seq<SearchHitModel>,
}

/// A freshly opened search popup: empty query, no hits, no cursor.
pub open spec fn spec_blank_search() -> RoomSearchModel {
    RoomSearchModel {
        cursor: Option::None,
        input: InputModel {
            has_error: false,
            is_active: true,
            is_hidden: false,
            label: Option::None,
            value: Seq::<char>::empty(),
        },
        results: Seq::empty(),
    }
}

/// The cursor moved one hit forward, wrapping at the end of the results.
pub open spec fn spec_search_cursor_increment(m: RoomSearchModel) -> RoomSearchModel {
    if m.results.len() == 0 {
        m
    } else {
        RoomSearchModel {
            cursor: Some(
                match m.cursor {
                    Option::None => 0int,
                    Some(c) => if c + 1 == m.results.len() {
                        0int
                    } else {
                        c + 1
                    },
                },
            ),
            ..m
        }
    }
}

/// The cursor moved one hit backward, wrapping at the start of the
/// results.
pub open spec fn spec_search_cursor_decrement(m: RoomSearchModel) -> RoomSearchModel {
    if m.results.len() == 0 {
        m
    } else {
        RoomSearchModel {
            cursor: Some(
                match m.cursor {
                    Option::None => m.results.len() - 1,
                    Some(c) => if c == 0 {
                        m.results.len() - 1
                    } else {
                        c - 1
                    },
                },
            ),
            ..m
        }
    }
}

/// What one event does to the search popup, and the cache position of the
/// hit opened when one was selected: a tab moves the cursor, a submit
/// opens the hit under the cursor, and any other key press edits the
/// query, clears the cursor and recomputes the hits.
pub open spec fn spec_search_step(m: RoomSearchModel, event: Event, rooms: Seq<RoomModel>) -> (
    RoomSearchModel,
    Option<int>,
) {
    match spec_key_press(event) {
        Option::None => (m, Option::None),
        Some(k) => match k.code {
            KeyCode::Tab => (spec_search_cursor_increment(m), Option::None),
            KeyCode::BackTab => (spec_search_cursor_decrement(m), Option::None),
            KeyCode::Enter => (
                m,
                match m.cursor {
                    Some(c) => Some(m.results[c].index),
                    Option::None => Option::None,
                },
            ),
            _ => (
                RoomSearchModel {
                    cursor: Option::None,
                    input: InputModel { value: spec_edit(m.input.value, event), ..m.input },
                    results: spec_results(rooms, spec_edit(m.input.value, event)),
                },
                Option::None,
            ),
        },
    }
}

/// A search popup is well formed when its cursor, once set, points
/// inside its results.
pub open spec fn spec_search_wf(m: RoomSearchModel) -> bool {
    match m.cursor {
        Some(c) => 0 <= c < m.results.len(),
        Option::None => true,
    }
}

/// Component to search a room by name.
pub struct RoomSearch {
    /// Current position of the cursor over the results
    cursor: Option<usize>,
    /// Input to type the name of the room into
    input: Input,
    /// First cached rooms matching the search
    results: Vec<SearchHit>,
}

impl View for RoomSearch {
    type V = RoomSearchModel;

    closed spec fn view(&self) -> RoomSearchModel {
        RoomSearchModel {
            cursor: match self.cursor {
                Some(c) => Some(c as int),
                None => Option::None,
            },
            input: self.input@,
            results: self.results@.map_values(|h: SearchHit| h@),
        }
    }
}

impl RoomSearch {
    /// Invariant: the cursor, once set, points inside the results.
    pub open spec fn wf(&self) -> bool {
        spec_search_wf(self@)
    }

    /// Opens a search popup with an empty query.
    pub fn new() -> (r: Self)
        ensures
            r@ == spec_blank_search(),
            r.wf(),
    {
        let r = RoomSearch { input: Input::new().with_active(), cursor: None, results: Vec::new() };
        proof {
            assert(r@ =~= spec_blank_search());
        }
        r
    }

    /// Moves the cursor one hit forward, wrapping at the end; nothing
    /// moves while there are no results.
    pub fn cursor_increment(&mut self)
        requires
            old(self).wf(),
        ensures
            final(self)@ == spec_search_cursor_increment(old(self)@),
            final(self).wf(),
    {
        if self.results.is_empty() {
            return ;
        }
        let n = self.results.len();
        self.cursor = Some(
            match self.cursor {
                None => 0,
                Some(cursor) => {
                    let incremented = cursor + 1;
                    if incremented == n {
                        0
                    } else {
                        incremented
                    }
                },
            },
        );
    }

    /// Moves the cursor one hit backward, wrapping at the start; nothing
    /// moves while there are no results.
    pub fn cursor_decrement(&mut self)
        requires
            old(self).wf(),
        ensures
            final(self)@ == spec_search_cursor_decrement(old(self)@),
            final(self).wf(),
    {
        if self.results.is_empty() {
            return ;
        }
        self.cursor = Some(
            match self.cursor {
                None => self.results.len() - 1,
                Some(cursor) => {
                    if cursor == 0 {
                        self.results.len() - 1
                    } else {
                        cursor - 1
                    }
                },
            },
        );
    }

    /// Recomputes the hits for the current query: the cached rooms whose
    /// known name contains it, in cache order, at most [`MAX_RESULTS`] of
    /// them. The cursor is left as it is; callers clear it first.
    pub fn refresh_results(&mut self, cache: &RoomCache)
        ensures
            final(self)@ == (RoomSearchModel {
                results: spec_results(cache@, old(self)@.input.value),
                ..old(self)@
            }),
    {
        let ghost rooms = cache@;
        let ghost q = self@.input.value;
        let ghost full = spec_hits(rooms, q, rooms.len() as int);
        let mut results: Vec<SearchHit> = Vec::new();
        let n = cache.len();
        let mut i: usize = 0;
        while i < n
            invariant
                i <= n,
                n == rooms.len(),
                rooms == cache@,
                self@ == old(self)@,
                q == old(self)@.input.value,
                full == spec_hits(rooms, q, rooms.len() as int),
                results@.map_values(|h: SearchHit| h@) == spec_hits(rooms, q, i as int),
                results@.len() < MAX_RESULTS,
            decreases n - i,
        {
            let ghost before = results@.map_values(|h: SearchHit| h@);
            let room = cache.get(i);
            let keep = match room.as_name() {
                Ok(name) => str_contains(name.as_str(), self.input.as_value()),
                Err(_) => false,
            };
            if keep {
                let name = match room.as_name() {
                    Ok(name) => name.clone(),
                    Err(_) => String::new(),
                };
                results.push(SearchHit { index: i, name });
                proof {
                    assert(results@.map_values(|h: SearchHit| h@) =~= before.push(
                        SearchHitModel { index: i as int, name: rooms[i as int].name->Ok_0 },
                    ));
                }
                if results.len() == MAX_RESULTS {
                    proof {
                        lemma_hits_prefix(rooms, q, i + 1, rooms.len() as int);
                        assert(spec_hits(rooms, q, i + 1).len() == MAX_RESULTS);
                        assert(full.take(MAX_RESULTS as int) == spec_hits(rooms, q, i + 1));
                        if full.len() <= MAX_RESULTS {
                            assert(full =~= spec_hits(rooms, q, i + 1));
                        }
                    }
                    self.results = results;
                    proof {
                        assert(self@ =~= (RoomSearchModel {
                            results: spec_results(cache@, old(self)@.input.value),
                            ..old(self)@
                        }));
                    }
                    return ;
                }
            }
            i += 1;
        }
        self.results = results;
        proof {
            assert(self@.results =~= full);
            assert(self@ =~= (RoomSearchModel {
                results: spec_results(cache@, old(self)@.input.value),
                ..old(self)@
            }));
        }
    }

    /// Reacts to one event, as [`spec_search_step`] says: a tab moves the
    /// cursor, a submit returns the cache position of the hit under the
    /// cursor, and any other key press edits the query and recomputes the
    /// hits.
    pub fn on_event(&mut self, event: Event, cache: &RoomCache) -> (r: Option<usize>)
        requires
            old(self).wf(),
        ensures
            final(self)@ == spec_search_step(old(self)@, event, cache@).0,
            r is Some <==> spec_search_step(old(self)@, event, cache@).1 is Some,
            r is Some ==> r->0 as int == spec_search_step(old(self)@, event, cache@).1->0,
            final(self).wf(),
    {
        let key_event = match event.as_key_press_event() {
            Some(k) => k,
            None => {
                return None;
            },
        };
        match key_event.code {
            KeyCode::Tab => self.cursor_increment(),
            KeyCode::BackTab => self.cursor_decrement(),
            KeyCode::Enter => {
                if let Some(cursor) = self.cursor {
                    return Some(self.results[cursor].index);
                }
            },
            _ => {
                self.cursor = None;
                self.input.on_event(event);
                self.refresh_results(cache);
                proof {
                    assert(self@ =~= spec_search_step(old(self)@, event, cache@).0);
                }
            },
        }
        None
    }

    /// The current hits, for rendering.
    pub fn results(&self) -> (r: &Vec<SearchHit>)
        ensures
            r@.map_values(|h: SearchHit| h@) == self@.results,
    {
        &self.results
    }

    /// The position of the cursor over the results.
    pub fn cursor(&self) -> (r: Option<usize>)
        ensures
            r is Some <==> self@.cursor is Some,
            r is Some ==> r->0 as int == self@.cursor->0,
    {
        self.cursor
    }

    /// The query input, for rendering.
    pub fn input(&self) -> (r: &Input)
        ensures
            r@ == self@.input,
    {
        &self.input
    }
}

} // verus!
