use vstd::prelude::*;

verus! {

/// A recoverable fault in a user command.
///
/// Every state-dependent operation of the session returns one of these
/// instead of aborting: unparseable or out-of-range selection indices,
/// missing arguments, unknown commands, and operations that need a current
/// selection or a non-empty result set when there is none.
#[derive(Clone, Copy, Debug, PartialEq, Eq, Structural)]
pub enum UserInputError {
    /// The selection argument is not a decimal number in range of `usize`.
    NotANumber,
    /// The selection index is past the end of the result set.
    OutOfBounds,
    /// The command needs an argument and none was given.
    MissingArgument,
    /// `search` was given no terms, or only empty terms.
    EmptySearch,
    /// The command word is not one the interpreter knows.
    Unrecognized,
    /// The operation needs a current selection and none exists.
    NoSelection,
    /// `cycle` was asked to display an entry of an empty result set.
    NothingToCycle,
}

impl UserInputError {
    /// The text shown to the user for this fault.
    pub open spec fn message_spec(self) -> Seq<char> {
        match self {
            UserInputError::NotANumber => "Couldn't parse selection as number"@,
            UserInputError::OutOfBounds => "Selection is out of range"@,
            UserInputError::MissingArgument => "This command needs an argument"@,
            UserInputError::EmptySearch => "Please enter non-empty search terms"@,
            UserInputError::Unrecognized => "Unrecognized command!"@,
            UserInputError::NoSelection => "no current selection"@,
            UserInputError::NothingToCycle => "nothing to cycle through"@,
        }
    }

    /// Renders the user-facing message for this fault.
    pub fn message(&self) -> (m: String)
        ensures
            m@ == self.message_spec(),
    {
        match self {
            UserInputError::NotANumber => String::from_str("Couldn't parse selection as number"),
            UserInputError::OutOfBounds => String::from_str("Selection is out of range"),
            UserInputError::MissingArgument => String::from_str("This command needs an argument"),
            UserInputError::EmptySearch => String::from_str("Please enter non-empty search terms"),
            UserInputError::Unrecognized => String::from_str("Unrecognized command!"),
            UserInputError::NoSelection => String::from_str("no current selection"),
            UserInputError::NothingToCycle => String::from_str("nothing to cycle through"),
        }
    }
}

} // verus!
