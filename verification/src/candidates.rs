//! The selection part of a prompt: a fixed list of entries, the subset
//! matching the current search text, and a wrapping cursor over the list.

use vstd::prelude::*;

use crate::event::{Event, KeyCode};
use crate::text::{spec_contains, str_contains};

verus! {

/// The entries among the first `n` of `all` that contain `q`, in order.
pub open spec fn spec_matching(all: Seq<Seq<char>>, q: Seq<char>, n: int) -> Seq<Seq<char>>
    decreases n,
{
    if n <= 0 {
        Seq::empty()
    } else {
        let prev = spec_matching(all, q, n - 1);
        if spec_contains(all[n - 1], q) {
            prev.push(all[n - 1])
        } else {
            prev
        }
    }
}

/// The matching entries over a longer prefix extend those over a shorter
/// one, without reordering.
pub proof fn lemma_matching_prefix(all: Seq<Seq<char>>, q: Seq<char>, n: int, m: int)
    requires
        0 <= n <= m,
    ensures
        spec_matching(all, q, n).len() <= spec_matching(all, q, m).len(),
        spec_matching(all, q, m).take(spec_matching(all, q, n).len() as int) == spec_matching(
            all,
            q,
            n,
        ),
    decreases m - n,
{
    if n == m {
        assert(spec_matching(all, q, m).take(spec_matching(all, q, n).len() as int) =~= spec_matching(
            all,
            q,
            n,
        ));
    } else {
        lemma_matching_prefix(all, q, n, m - 1);
        let prev = spec_matching(all, q, m - 1);
        let cur = spec_matching(all, q, m);
        let k = spec_matching(all, q, n).len() as int;
        assert(cur.take(k) =~= prev.take(k));
    }
}

/// Mathematical view of a candidates list.
#[verifier::ext_equal]
pub struct CandidatesModel {
    pub all: Seq<Seq<char>>,
    pub cursor: Option<int>,
    pub matching: Seq<Seq<char>>,
}

/// The cursor moved one entry forward, wrapping at the end of the list.
pub open spec fn spec_cursor_increment(m: CandidatesModel) -> CandidatesModel {
    if m.all.len() == 0 {
        m
    } else {
        CandidatesModel {
            cursor: Some(
                match m.cursor {
                    Option::None => 0int,
                    Some(c) => if c + 1 == m.all.len() {
                        0int
                    } else {
                        c + 1
                    },
                },
            ),
            ..m
        }
    }
}

/// The cursor moved one entry backward, wrapping at the start of the list.
pub open spec fn spec_cursor_decrement(m: CandidatesModel) -> CandidatesModel {
    if m.all.len() == 0 {
        m
    } else {
        CandidatesModel {
            cursor: Some(
                match m.cursor {
                    Option::None => m.all.len() - 1,
                    Some(c) => if c == 0 {
                        m.all.len() - 1
                    } else {
                        c - 1
                    },
                },
            ),
            ..m
        }
    }
}

/// List of possible candidates to display under a prompt.
pub struct Candidates {
    /// All the candidates, whether they correspond to the search or not
    all: Vec<String>,
    /// Currently selected entry, once one was selected
    cursor: Option<usize>,
    /// The candidates that match the search, in list order
    matching: Vec<String>,
}

impl View for Candidates {
    type V = CandidatesModel;

    closed spec fn view(&self) -> CandidatesModel {
        CandidatesModel {
            all: self.all@.map_values(|s: String| s@),
            cursor: match self.cursor {
                Some(c) => Some(c as int),
                None => Option::None,
            },
            matching: self.matching@.map_values(|s: String| s@),
        }
    }
}

impl Candidates {
    /// Invariant: the cursor, once set, points inside the list.
    pub open spec fn wf(&self) -> bool {
        match self@.cursor {
            Some(c) => 0 <= c < self@.all.len(),
            Option::None => true,
        }
    }

    /// Returns a new [`Candidates`] with the given list of candidates and
    /// nothing matching yet.
    pub fn new(list: Vec<String>) -> (r: Self)
        ensures
            r@ == (CandidatesModel {
                all: list@.map_values(|s: String| s@),
                cursor: Option::None,
                matching: Seq::<Seq<char>>::empty(),
            }),
            r.wf(),
    {
        let r = Candidates { cursor: None, all: list, matching: Vec::new() };
        proof {
            assert(r@.matching =~= Seq::<Seq<char>>::empty());
            assert(r@ =~= (CandidatesModel {
                all: list@.map_values(|s: String| s@),
                cursor: Option::None,
                matching: Seq::<Seq<char>>::empty(),
            }));
        }
        r
    }

    /// Returns the number of candidates that match the search input.
    pub fn nb_matching(&self) -> (r: usize)
        ensures
            r == self@.matching.len(),
    {
        self.matching.len()
    }

    /// Recomputes which candidates match the search input: exactly those
    /// that contain it, kept in list order.
    pub fn update_matching(&mut self, input: &str)
        ensures
            final(self)@ == (CandidatesModel {
                matching: spec_matching(old(self)@.all, input@, old(self)@.all.len() as int),
                ..old(self)@
            }),
            old(self).wf() ==> final(self).wf(),
    {
        let ghost all = self@.all;
        let mut matching: Vec<String> = Vec::new();
        let n = self.all.len();
        let mut i: usize = 0;
        while i < n
            invariant
                i <= n,
                n == self.all@.len(),
                all == self.all@.map_values(|s: String| s@),
                matching@.map_values(|s: String| s@) == spec_matching(all, input@, i as int),
            decreases n - i,
        {
            let ghost before = matching@.map_values(|s: String| s@);
            if str_contains(self.all[i].as_str(), input) {
                matching.push(self.all[i].clone());
                proof {
                    assert(matching@.map_values(|s: String| s@) =~= before.push(all[i as int]));
                }
            }
            i += 1;
        }
        self.matching = matching;
        proof {
            assert(self@ =~= (CandidatesModel {
                matching: spec_matching(old(self)@.all, input@, old(self)@.all.len() as int),
                ..old(self)@
            }));
        }
    }

    /// Moves the cursor one entry forward, wrapping at the end; nothing
    /// moves while the list is empty.
    pub fn cursor_increment(&mut self)
        requires
            old(self).wf(),
        ensures
            final(self)@ == spec_cursor_increment(old(self)@),
            final(self).wf(),
    {
        if self.all.is_empty() {
            return ;
        }
        let n = self.all.len();
        self.cursor = Some(
            match self.cursor {
                None => 0,
                Some(cursor) => {
                    let incremented = cursor + 1;
                    if incremented == n {
                        0
                    } else {
                        incremented
                    }
                },
            },
        );
    }

    /// Moves the cursor one entry backward, wrapping at the start; nothing
    /// moves while the list is empty.
    pub fn cursor_decrement(&mut self)
        requires
            old(self).wf(),
        ensures
            final(self)@ == spec_cursor_decrement(old(self)@),
            final(self).wf(),
    {
        if self.all.is_empty() {
            return ;
        }
        self.cursor = Some(
            match self.cursor {
                None => self.all.len() - 1,
                Some(cursor) => {
                    if cursor == 0 {
                        self.all.len() - 1
                    } else {
                        cursor - 1
                    }
                },
            },
        );
    }

    /// Moves the cursor on a tab or a backtab; any other event is ignored.
    pub fn on_event(&mut self, event: Event)
        requires
            old(self).wf(),
        ensures
            final(self)@ == (match crate::event::spec_key_press(event) {
                Some(k) => match k.code {
                    KeyCode::Tab => spec_cursor_increment(old(self)@),
                    KeyCode::BackTab => spec_cursor_decrement(old(self)@),
                    _ => old(self)@,
                },
                Option::None => old(self)@,
            }),
            final(self).wf(),
    {
        if let Some(key_event) = event.as_key_press_event() {
            match key_event.code {
                KeyCode::Tab => self.cursor_increment(),
                KeyCode::BackTab => self.cursor_decrement(),
                _ => {},
            }
        }
    }

    /// The currently selected entry, once one was selected.
    pub fn cursor(&self) -> (r: Option<usize>)
        ensures
            r is Some <==> self@.cursor is Some,
            r is Some ==> r->0 as int == self@.cursor->0,
    {
        self.cursor
    }

    /// The candidates that match the search, for rendering.
    pub fn matching(&self) -> (r: &Vec<String>)
        ensures
            r@.map_values(|s: String| s@) == self@.matching,
    {
        &self.matching
    }

    /// All the candidates.
    pub fn all(&self) -> (r: &Vec<String>)
        ensures
            r@.map_values(|s: String| s@) == self@.all,
    {
        &self.all
    }
}

} // verus!
