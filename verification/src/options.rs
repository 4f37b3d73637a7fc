//! How a new grid is filled.

use vstd::prelude::*;

verus! {

/// The two ways to fill a newly generated grid.
#[derive(Clone, Copy, Debug, PartialEq, Eq, Structural)]
pub enum GenerateOptions {
    /// Every cell dead.
    Empty,
    /// Every cell drawn at random.
    Random,
}

impl GenerateOptions {
    /// The name an option goes by in a form field.
    pub open spec fn spec_to_value(self) -> Seq<char> {
        match self {
            GenerateOptions::Empty => "empty"@,
            GenerateOptions::Random => "random"@,
        }
    }

    /// The option a form value names: `Random` for "random", `Empty` for
    /// anything else.
    pub open spec fn spec_from_value(value: Seq<char>) -> GenerateOptions {
        if value == "random"@ {
            GenerateOptions::Random
        } else {
            GenerateOptions::Empty
        }
    }

    /// The name of the option: "empty" or "random".
    pub fn to_value(&self) -> (value: &'static str)
        ensures
            value@ == self.spec_to_value(),
    {
        match self {
            GenerateOptions::Empty => "empty",
            GenerateOptions::Random => "random",
        }
    }

    /// Reads an option from its name. Any value other than "random" gives `Empty`.
    pub fn from_value(value: String) -> (option: GenerateOptions)
        ensures
            option == Self::spec_from_value(value@),
    {
        let random: String = "random".to_owned();
        if value == random {
            GenerateOptions::Random
        } else {
            GenerateOptions::Empty
        }
    }
}

/// Reading back the name of an option gives that option.
pub proof fn lemma_value_round_trip(option: GenerateOptions)
    ensures
        GenerateOptions::spec_from_value(option.spec_to_value()) == option,
{
    reveal_strlit("empty");
    reveal_strlit("random");
    assert("empty"@.len() != "random"@.len());
}

} // verus!
