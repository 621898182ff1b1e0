//! A prompt popup: an input drawn at the middle of the page, a status
//! line, and a list of candidate entries matching what was typed.

use vstd::prelude::*;

use crate::candidates::{lemma_matching_prefix, spec_matching, Candidates, CandidatesModel};
use crate::event::{spec_key_press, Event, KeyCode};
use crate::input::{spec_edit, Input, InputModel};
use crate::text::str_contains;

verus! {

/// Struct to send the data after submission.
pub struct PromptSubmit<T>(pub T);

/// Mathematical view of a prompt status.
pub enum StatusModel {
    /// An error message is displayed
    Error(Seq<char>),
    /// Nothing is displayed
    Idle,
    /// A submission is in progress
    Submitting,
}

/// Status information to inform the user on.
pub enum Status {
    /// Error message to display
    Error(String),
    /// Nothing to display
    Idle,
    /// Submission in progress
    Submitting,
}

impl View for Status {
    type V = StatusModel;

    open spec fn view(&self) -> StatusModel {
        match self {
            Status::Error(e) => StatusModel::Error(e@),
            Status::Idle => StatusModel::Idle,
            Status::Submitting => StatusModel::Submitting,
        }
    }
}

/// Mathematical view of a prompt.
#[verifier::ext_equal]
pub struct PromptModel {
    pub input: InputModel,
    pub message: StatusModel,
    pub candidates: CandidatesModel,
    pub title: Seq<char>,
}

/// Popup with an input, a status message and candidate entries.
pub struct Prompt {
    /// Input to type the submission into
    input: Input,
    /// Message displayed in the prompt: an error or a loading status
    message: Status,
    /// List of possible entries
    candidates: Candidates,
    /// Title of the prompt
    title: String,
}

impl View for Prompt {
    type V = PromptModel;

    closed spec fn view(&self) -> PromptModel {
        PromptModel {
            input: self.input@,
            message: self.message@,
            candidates: self.candidates@,
            title: self.title@,
        }
    }
}

impl Prompt {
    /// Invariant: the candidates cursor stays inside the list.
    pub open spec fn wf(&self) -> bool {
        match self@.candidates.cursor {
            Some(c) => 0 <= c < self@.candidates.all.len(),
            Option::None => true,
        }
    }

    /// Creates a prompt without candidate entries.
    pub fn new(input: Input, title: String) -> (r: Self)
        ensures
            r@ == (PromptModel {
                input: input@,
                message: StatusModel::Idle,
                candidates: CandidatesModel {
                    all: Seq::<Seq<char>>::empty(),
                    cursor: Option::None,
                    matching: Seq::<Seq<char>>::empty(),
                },
                title: title@,
            }),
            r.wf(),
    {
        let r = Prompt { input, title, message: Status::Idle, candidates: Candidates::new(Vec::new()) };
        proof {
            assert(r@.candidates.all =~= Seq::<Seq<char>>::empty());
            assert(r@ =~= (PromptModel {
                input: input@,
                message: StatusModel::Idle,
                candidates: CandidatesModel {
                    all: Seq::<Seq<char>>::empty(),
                    cursor: Option::None,
                    matching: Seq::<Seq<char>>::empty(),
                },
                title: title@,
            }));
        }
        r
    }

    /// Creates a prompt over a list of candidate entries.
    pub fn new_with_list(input: Input, title: String, list: Vec<String>) -> (r: Self)
        ensures
            r@ == (PromptModel {
                input: input@,
                message: StatusModel::Idle,
                candidates: CandidatesModel {
                    all: list@.map_values(|s: String| s@),
                    cursor: Option::None,
                    matching: Seq::<Seq<char>>::empty(),
                },
                title: title@,
            }),
            r.wf(),
    {
        let r = Prompt { input, title, message: Status::Idle, candidates: Candidates::new(list) };
        proof {
            assert(r@ =~= (PromptModel {
                input: input@,
                message: StatusModel::Idle,
                candidates: CandidatesModel {
                    all: list@.map_values(|s: String| s@),
                    cursor: Option::None,
                    matching: Seq::<Seq<char>>::empty(),
                },
                title: title@,
            }));
        }
        r
    }

    /// Returns the first candidate entries that match the typed text: those
    /// that contain it, in list order, at most `max_number` of them.
    pub fn get_possibilites(&self, max_number: usize) -> (r: Vec<String>)
        ensures
            ({
                let full = spec_matching(
                    self@.candidates.all,
                    self@.input.value,
                    self@.candidates.all.len() as int,
                );
                r@.map_values(|s: String| s@) == if full.len() <= max_number {
                    full
                } else {
                    full.take(max_number as int)
                }
            }),
    {
        let ghost all = self@.candidates.all;
        let ghost q = self@.input.value;
        let ghost full = spec_matching(all, q, all.len() as int);
        let value = self.input.as_value();
        let entries = self.candidates.all();
        let n = entries.len();
        let mut out: Vec<String> = Vec::new();
        if max_number == 0 {
            proof {
                assert(out@.map_values(|s: String| s@) =~= full.take(0));
                if full.len() <= 0 {
                    assert(out@.map_values(|s: String| s@) =~= full);
                }
            }
            return out;
        }
        let mut i: usize = 0;
        while i < n
            invariant
                i <= n,
                n == entries@.len(),
                all == entries@.map_values(|s: String| s@),
                all == self@.candidates.all,
                q == value@,
                q == self@.input.value,
                full == spec_matching(all, q, all.len() as int),
                out@.map_values(|s: String| s@) == spec_matching(all, q, i as int),
                out@.len() < max_number,
            decreases n - i,
        {
            let ghost before = out@.map_values(|s: String| s@);
            if str_contains(entries[i].as_str(), value) {
                out.push(entries[i].clone());
                proof {
                    assert(out@.map_values(|s: String| s@) =~= before.push(all[i as int]));
                }
                if out.len() == max_number {
                    proof {
                        lemma_matching_prefix(all, q, i + 1, all.len() as int);
                        assert(spec_matching(all, q, i + 1).len() == max_number);
                        assert(full.take(max_number as int) == spec_matching(all, q, i + 1));
                        if full.len() <= max_number {
                            assert(full =~= spec_matching(all, q, i + 1));
                        }
                    }
                    return out;
                }
            }
            i += 1;
        }
        proof {
            assert(out@.map_values(|s: String| s@) =~= full);
        }
        out
    }

    /// Updates the status of the prompt, to display loading and error
    /// information; the input is blocked exactly while submitting.
    pub fn update_status(&mut self, status: Status)
        ensures
            final(self)@ == (PromptModel {
                message: status@,
                input: InputModel {
                    is_active: !(status@ is Submitting),
                    ..old(self)@.input
                },
                ..old(self)@
            }),
            old(self).wf() ==> final(self).wf(),
    {
        let is_submitting = matches!(status, Status::Submitting);
        self.message = status;
        self.input.set_active(!is_submitting);
        proof {
            assert(self@ =~= (PromptModel {
                message: self.message@,
                input: InputModel {
                    is_active: !(self.message@ is Submitting),
                    ..old(self)@.input
                },
                ..old(self)@
            }));
        }
    }

    /// Reacts to one event: a submit hands back what was typed and clears
    /// the input; any other key press edits the input.
    pub fn on_event(&mut self, event: Event) -> (r: Option<String>)
        ensures
            ({
                let m = old(self)@;
                match spec_key_press(event) {
                    Some(k) => if k.code is Enter {
                        r is Some && r->0@ == m.input.value && final(self)@ == (PromptModel {
                            input: InputModel { value: Seq::<char>::empty(), ..m.input },
                            ..m
                        })
                    } else {
                        r is None && final(self)@ == (PromptModel {
                            input: InputModel {
                                value: spec_edit(m.input.value, event),
                                ..m.input
                            },
                            ..m
                        })
                    },
                    Option::None => r is None && final(self)@ == m,
                }
            }),
            old(self).wf() ==> final(self).wf(),
    {
        if let Some(key_event) = event.as_key_press_event() {
            if matches!(key_event.code, KeyCode::Enter) {
                let value = self.input.take_value();
                proof {
                    assert(self@ =~= (PromptModel {
                        input: InputModel {
                            value: Seq::<char>::empty(),
                            ..old(self)@.input
                        },
                        ..old(self)@
                    }));
                }
                return Some(value);
            }
        }
        self.input.on_event(event);
        proof {
            assert(self@ =~= (PromptModel {
                input: InputModel {
                    value: spec_edit(old(self)@.input.value, event),
                    ..old(self)@.input
                },
                ..old(self)@
            }));
        }
        None
    }

    /// Pushes a new status down from the parent.
    pub fn update(&mut self, response: Status)
        ensures
            final(self)@ == (PromptModel {
                message: response@,
                input: InputModel {
                    is_active: !(response@ is Submitting),
                    ..old(self)@.input
                },
                ..old(self)@
            }),
            old(self).wf() ==> final(self).wf(),
    {
        self.update_status(response);
    }

    /// The input, for rendering.
    pub fn input(&self) -> (r: &Input)
        ensures
            r@ == self@.input,
    {
        &self.input
    }

    /// The status message, for rendering.
    pub fn status(&self) -> (r: &Status)
        ensures
            r@ == self@.message,
    {
        &self.message
    }

    /// The title of the prompt.
    pub fn title(&self) -> (r: &str)
        ensures
            r@ == self@.title,
    {
        self.title.as_str()
    }

    /// The candidate entries, for rendering.
    pub fn candidates(&self) -> (r: &Candidates)
        ensures
            r@ == self@.candidates,
    {
        &self.candidates
    }
}

} // verus!
