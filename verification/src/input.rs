//! Reusable single-line input component: a text value with focus, error
//! and masking flags, edited one key press at a time.

use vstd::prelude::*;

use crate::event::{Event, KeyCode};
use crate::text::{pop_char, push_char};

verus! {

/// Lines needed to render an input without a label.
pub const HEIGHT_WITHOUT_LABEL: u16 = 3;

/// Lines needed to render an input with its label on top.
pub const HEIGHT_WITH_LABEL: u16 = 4;

/// Mathematical view of an input.
#[verifier::ext_equal]
pub struct InputModel {
    pub has_error: bool,
    pub is_active: bool,
    pub is_hidden: bool,
    pub label: Option<Seq<char>>,
    pub value: Seq<char>,
}

/// What one key press does to the value of an input: a printable character
/// is appended, a backspace removes the last character, anything else
/// leaves it as it is.
pub open spec fn spec_edit(value: Seq<char>, event: Event) -> Seq<char> {
    match crate::event::spec_key_press(event) {
        Some(k) => match k.code {
            KeyCode::Char(ch) => value.push(ch),
            KeyCode::Backspace => if value.len() == 0 {
                value
            } else {
                value.drop_last()
            },
            _ => value,
        },
        Option::None => value,
    }
}

/// Bordered input component.
pub struct Input {
    /// Whether to draw the input in an error state
    has_error: bool,
    /// Whether pressing character keys edits this input
    is_active: bool,
    /// Whether the content is masked when drawn
    is_hidden: bool,
    /// Label placed on top of the input
    label: Option<String>,
    /// Text currently held by the input
    value: String,
}

impl View for Input {
    type V = InputModel;

    closed spec fn view(&self) -> InputModel {
        InputModel {
            has_error: self.has_error,
            is_active: self.is_active,
            is_hidden: self.is_hidden,
            label: match self.label {
                Some(ref l) => Some(l@),
                None => Option::None,
            },
            value: self.value@,
        }
    }
}

impl Input {
    /// Creates a default inactive visible empty input.
    pub fn new() -> (r: Self)
        ensures
            r@ == (InputModel {
                has_error: false,
                is_active: false,
                is_hidden: false,
                label: Option::None,
                value: Seq::<char>::empty(),
            }),
    {
        let r = Input {
            has_error: false,
            is_active: false,
            is_hidden: false,
            label: None,
            value: String::new(),
        };
        proof {
            assert(r@.value =~= Seq::<char>::empty());
        }
        r
    }

    /// Returns the value of the input.
    pub fn as_value(&self) -> (r: &str)
        ensures
            r@ == self@.value,
    {
        self.value.as_str()
    }

    /// Returns the height required to draw the input.
    pub fn height(&self) -> (r: u16)
        ensures
            r == if self@.label is Some {
                HEIGHT_WITH_LABEL
            } else {
                HEIGHT_WITHOUT_LABEL
            },
    {
        if self.label.is_some() {
            HEIGHT_WITH_LABEL
        } else {
            HEIGHT_WITHOUT_LABEL
        }
    }

    /// Consumes the input and returns its value.
    pub fn into_value(self) -> (r: String)
        ensures
            r@ == self@.value,
    {
        self.value
    }

    /// Checks if the value is empty.
    pub fn is_empty(&self) -> (r: bool)
        ensures
            r == (self@.value.len() == 0),
    {
        self.value.as_str().is_empty()
    }

    /// Whether the input is drawn in an error state.
    pub fn has_error(&self) -> (r: bool)
        ensures
            r == self@.has_error,
    {
        self.has_error
    }

    /// Whether pressing character keys edits this input.
    pub fn is_active(&self) -> (r: bool)
        ensures
            r == self@.is_active,
    {
        self.is_active
    }

    /// Whether the content is masked when drawn.
    pub fn is_hidden(&self) -> (r: bool)
        ensures
            r == self@.is_hidden,
    {
        self.is_hidden
    }

    /// The label placed on top of the input, if any.
    pub fn label(&self) -> (r: Option<&String>)
        ensures
            r is Some <==> self@.label is Some,
            r is Some ==> r->0@ == self@.label->0,
    {
        match &self.label {
            Some(l) => Some(l),
            None => None,
        }
    }

    /// Focuses or unfocuses the input.
    pub fn set_active(&mut self, is_active: bool)
        ensures
            final(self)@ == (InputModel { is_active, ..old(self)@ }),
    {
        self.is_active = is_active;
    }

    /// Marks or unmarks the input as erroneous.
    pub fn set_error(&mut self, has_error: bool)
        ensures
            final(self)@ == (InputModel { has_error, ..old(self)@ }),
    {
        self.has_error = has_error;
    }

    /// Sets the inner value of the input.
    pub fn set_value(&mut self, value: String)
        ensures
            final(self)@ == (InputModel { value: value@, ..old(self)@ }),
    {
        self.value = value;
    }

    /// Takes the value of the input, leaving it empty.
    pub fn take_value(&mut self) -> (r: String)
        ensures
            r@ == old(self)@.value,
            final(self)@ == (InputModel { value: Seq::<char>::empty(), ..old(self)@ }),
    {
        let mut value = String::new();
        core::mem::swap(&mut value, &mut self.value);
        proof {
            assert(self@.value =~= Seq::<char>::empty());
        }
        value
    }

    /// Marks the input as active.
    pub fn with_active(self) -> (r: Self)
        ensures
            r@ == (InputModel { is_active: true, ..self@ }),
    {
        let mut this = self;
        this.is_active = true;
        this
    }

    /// Masks the value of the input when drawn.
    pub fn with_hidden(self) -> (r: Self)
        ensures
            r@ == (InputModel { is_hidden: true, ..self@ }),
    {
        let mut this = self;
        this.is_hidden = true;
        this
    }

    /// Adds a label to the input.
    pub fn with_label(self, label: String) -> (r: Self)
        ensures
            r@ == (InputModel { label: Some(label@), ..self@ }),
    {
        let mut this = self;
        this.label = Some(label);
        this
    }

    /// Sets the initial value of the input.
    pub fn with_value(self, value: String) -> (r: Self)
        ensures
            r@ == (InputModel { value: value@, ..self@ }),
    {
        let mut this = self;
        this.value = value;
        this
    }

    /// Edits the value by one key press: characters are appended, a
    /// backspace removes the last character, anything else is ignored.
    pub fn on_event(&mut self, event: Event)
        ensures
            final(self)@ == (InputModel { value: spec_edit(old(self)@.value, event), ..old(self)@ }),
    {
        let key_event = match event.as_key_press_event() {
            Some(k) => k,
            None => {
                return ;
            },
        };
        match key_event.code {
            KeyCode::Char(ch) => push_char(&mut self.value, ch),
            KeyCode::Backspace => {
                let _ = pop_char(&mut self.value);
            },
            _ => {},
        }
    }
}

} // verus!
