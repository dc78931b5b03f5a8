//! How a summary line is classified for the reader, and the colour that shows it.

use vstd::prelude::*;

verus! {

/// The classification that a summary line carries.
#[derive(Clone, Copy, Debug, PartialEq, Eq, Structural)]
pub enum Emphasis {
    /// The line that describes the run as a whole.
    Heading,
    /// A group of actors that share one role.
    Neutral,
    /// A group that combines different roles into one number, which a reader
    /// should interpret with care.
    Attention,
}

/// The foreground colours that summary lines are shown in.
#[derive(Clone, Copy, Debug, PartialEq, Eq, Structural)]
pub enum TextColor {
    /// The colour of the parameter line.
    Blue,
    /// The colour of a group of one role.
    Green,
    /// The colour of a group that combines roles.
    Red,
}

impl Emphasis {
    /// The colour of a line with this emphasis: blue for the heading, green
    /// for a neutral line and red for one that needs attention.
    pub open spec fn spec_color(&self) -> TextColor {
        match self {
            Emphasis::Heading => TextColor::Blue,
            Emphasis::Neutral => TextColor::Green,
            Emphasis::Attention => TextColor::Red,
        }
    }

    /// The colour of a line with this emphasis.
    #[verifier::when_used_as_spec(spec_color)]
    pub fn color(&self) -> (c: TextColor)
        ensures
            c == self.spec_color(),
    {
        match self {
            Emphasis::Heading => TextColor::Blue,
            Emphasis::Neutral => TextColor::Green,
            Emphasis::Attention => TextColor::Red,
        }
    }
}

} // verus!
