//! How much a model thinks in a conversation.
use crate::text::same;
use vstd::prelude::*;

verus! {

/// The effort of a conversation: one knob for the reasoning budget and for the
/// number of tool rounds.
#[derive(Clone, Copy, PartialEq, Eq, Structural, Debug)]
pub enum Effort {
    Fast,
    Standard,
    Deep,
    Max,
}

/// The level that a stored or submitted word stands for: the standard one when
/// the word is missing or unknown.
pub open spec fn effort_named(s: Option<Seq<char>>) -> Effort {
    match s {
        Some(w) => if w == "fast"@ {
            Effort::Fast
        } else if w == "deep"@ {
            Effort::Deep
        } else if w == "max"@ {
            Effort::Max
        } else {
            Effort::Standard
        },
        None => Effort::Standard,
    }
}

impl Effort {
    /// The word that is stored and posted.
    pub open spec fn word(&self) -> Seq<char> {
        match self {
            Effort::Fast => "fast"@,
            Effort::Standard => "standard"@,
            Effort::Deep => "deep"@,
            Effort::Max => "max"@,
        }
    }

    /// The name that is shown.
    pub open spec fn name(&self) -> Seq<char> {
        match self {
            Effort::Fast => "Fast"@,
            Effort::Standard => "Standard"@,
            Effort::Deep => "Deep"@,
            Effort::Max => "Max"@,
        }
    }

    /// The word that is stored and posted.
    pub fn as_str(&self) -> (r: &'static str)
        ensures
            r@ == self.word(),
    {
        match self {
            Effort::Fast => "fast",
            Effort::Standard => "standard",
            Effort::Deep => "deep",
            Effort::Max => "max",
        }
    }

    /// The name that is shown.
    pub fn label(&self) -> (r: &'static str)
        ensures
            r@ == self.name(),
    {
        match self {
            Effort::Fast => "Fast",
            Effort::Standard => "Standard",
            Effort::Deep => "Deep",
            Effort::Max => "Max",
        }
    }

    /// Reads a stored or submitted word, so that only known levels are ever
    /// stored.
    pub fn from_db(word: Option<&str>) -> (r: Effort)
        ensures
            r == effort_named(
                match word {
                    Some(w) => Some(w@),
                    None => None,
                },
            ),
    {
        match word {
            Some(w) => if same(w, "fast") {
                Effort::Fast
            } else if same(w, "deep") {
                Effort::Deep
            } else if same(w, "max") {
                Effort::Max
            } else {
                Effort::Standard
            },
            None => Effort::Standard,
        }
    }
}

/// A level that was stored is the level that is read.
pub proof fn effort_reads_back(e: Effort)
    ensures
        effort_named(Some(e.word())) == e,
{
    reveal_strlit("fast");
    reveal_strlit("standard");
    reveal_strlit("deep");
    reveal_strlit("max");
    assert("fast"@.len() == 4 && "standard"@.len() == 8 && "deep"@.len() == 4 && "max"@.len() == 3);
    assert("fast"@[0] == 'f' && "deep"@[0] == 'd');
}

/// The levels are stored by their words and shown by their names; an unknown word stands
/// for the standard one.
pub proof fn levels_have_their_words()
    ensures
        Effort::Fast.word() == "fast"@,
        Effort::Standard.word() == "standard"@,
        Effort::Deep.word() == "deep"@,
        Effort::Max.word() == "max"@,
        Effort::Fast.name() == "Fast"@,
        Effort::Standard.name() == "Standard"@,
        Effort::Deep.name() == "Deep"@,
        Effort::Max.name() == "Max"@,
        effort_named(None) == Effort::Standard,
        forall|w: Seq<char>|
            w != "fast"@ && w != "deep"@ && w != "max"@ ==> #[trigger] effort_named(Some(w))
                == Effort::Standard,
{
}

} // verus!
