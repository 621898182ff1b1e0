//! Reusable widget content: the keymap-instructions line and the
//! saturating width arithmetic its layout needs. Turning the parts into
//! styled terminal text is the rendering collaborator's job.

use vstd::prelude::*;
use vstd::string::*;

verus! {

/// Mathematical view of one element of an instructions line.
pub enum InstructionPartModel {
    /// Plain text
    Text(Seq<char>),
    /// A key to press, drawn highlighted between angle brackets
    Key(Seq<char>),
}

/// One element of an instructions line: plain text, or a key to press.
pub enum InstructionPart {
    /// Plain text
    Text(String),
    /// A key to press, drawn highlighted between angle brackets
    Key(String),
}

impl View for InstructionPart {
    type V = InstructionPartModel;

    open spec fn view(&self) -> InstructionPartModel {
        match self {
            InstructionPart::Text(t) => InstructionPartModel::Text(t@),
            InstructionPart::Key(k) => InstructionPartModel::Key(k@),
        }
    }
}

/// Addition on line widths, stuck at the largest representable width.
pub open spec fn spec_sat_add(a: int, b: int) -> int {
    if a + b > u16::MAX {
        u16::MAX as int
    } else {
        a + b
    }
}

/// A length measured as a line width, stuck at the largest representable
/// width.
pub open spec fn spec_sat_len(n: nat) -> int {
    if n > u16::MAX {
        u16::MAX as int
    } else {
        n as int
    }
}

/// The width one part adds to the line: its text length, plus four cells
/// of decoration around a key (a space, an angle bracket each side).
pub open spec fn spec_add_part(width: int, part: InstructionPartModel) -> int {
    match part {
        InstructionPartModel::Text(t) => spec_sat_add(width, spec_sat_len(t.len())),
        InstructionPartModel::Key(k) => spec_sat_add(spec_sat_add(width, spec_sat_len(k.len())), 4),
    }
}

/// The width of a whole instructions line.
pub open spec fn spec_width(parts: Seq<InstructionPartModel>) -> int
    decreases parts.len(),
{
    if parts.len() == 0 {
        0
    } else {
        spec_add_part(spec_width(parts.drop_last()), parts.last())
    }
}

/// Casts a usize to a u16, saturating at the largest u16 value.
pub fn saturating_cast(value: usize) -> (r: u16)
    ensures
        r as int == spec_sat_len(value as nat),
{
    if value > u16::MAX as usize {
        u16::MAX
    } else {
        value as u16
    }
}

/// Adds two widths, saturating at the largest u16 value.
pub fn sat_add_width(a: u16, b: u16) -> (r: u16)
    ensures
        r as int == spec_sat_add(a as int, b as int),
{
    if a > u16::MAX - b {
        u16::MAX
    } else {
        a + b
    }
}

/// Instructions to display on the screen: the line's parts and the width
/// its rendering takes, for use in layout constraints.
pub struct Instructions {
    /// Elements of the line, texts and keys, in display order
    pub parts: Vec<InstructionPart>,
    /// Space taken by the rendered line
    pub width: u16,
}

/// Builder for an [`Instructions`] line.
pub struct InstructionsBuilder {
    /// Elements of the line to be displayed, texts and keys
    elements: Vec<InstructionPart>,
    /// Total width of the final text
    width: u16,
}

impl View for InstructionsBuilder {
    type V = Seq<InstructionPartModel>;

    closed spec fn view(&self) -> Seq<InstructionPartModel> {
        self.elements@.map_values(|p: InstructionPart| p@)
    }
}

impl Default for InstructionsBuilder {
    /// Starts an empty instructions line.
    fn default() -> (r: Self)
        ensures
            r@ == Seq::<InstructionPartModel>::empty(),
            r.wf(),
    {
        let r = InstructionsBuilder { elements: Vec::new(), width: 0 };
        proof {
            assert(r@ =~= Seq::<InstructionPartModel>::empty());
        }
        r
    }
}

impl InstructionsBuilder {
    /// Invariant: the running width is the width of the parts so far.
    pub open spec fn wf(&self) -> bool {
        self.spec_running_width() == spec_width(self@)
    }

    /// The running width accumulated so far.
    pub closed spec fn spec_running_width(&self) -> int {
        self.width as int
    }

    /// Adds a text part. Remember to add spaces, and keep it short or else
    /// it will not fit.
    pub fn text(self, text: String) -> (r: Self)
        requires
            self.wf(),
        ensures
            r@ == self@.push(InstructionPartModel::Text(text@)),
            r.wf(),
    {
        let mut this = self;
        let width = sat_add_width(this.width, saturating_cast(text.as_str().unicode_len()));
        this.elements.push(InstructionPart::Text(text));
        this.width = width;
        proof {
            assert(this@ =~= self@.push(this.elements@.last()@));
            assert(this@.drop_last() =~= self@);
        }
        this
    }

    /// Adds a key part.
    pub fn key(self, key: String) -> (r: Self)
        requires
            self.wf(),
        ensures
            r@ == self@.push(InstructionPartModel::Key(key@)),
            r.wf(),
    {
        let mut this = self;
        let width = sat_add_width(
            sat_add_width(this.width, saturating_cast(key.as_str().unicode_len())),
            4,
        );
        this.elements.push(InstructionPart::Key(key));
        this.width = width;
        proof {
            assert(this@ =~= self@.push(this.elements@.last()@));
            assert(this@.drop_last() =~= self@);
        }
        this
    }

    /// Builds the widget from the provided list of texts and keys.
    pub fn build(self) -> (r: Instructions)
        requires
            self.wf(),
        ensures
            r.parts@.map_values(|p: InstructionPart| p@) == self@,
            r.width as int == spec_width(self@),
    {
        Instructions { parts: self.elements, width: self.width }
    }
}

} // verus!
