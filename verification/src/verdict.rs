//! The verdict on one frame: a description and one of five ratings.

use crate::text::{decimal_digits, decimal_text, same_text};
use vstd::prelude::*;

verus! {

/// How suitable a frame is. `Inappropriate` is also the rating of every
/// frame on which no verdict could be had.
#[derive(Clone, Copy, Debug, PartialEq, Eq, Structural)]
pub enum Rating {
    G,
    PG,
    PG13,
    R,
    Inappropriate,
}

impl Rating {
    /// The text by which the rating is written.
    pub open spec fn label(self) -> Seq<char> {
        match self {
            Rating::G => "G"@,
            Rating::PG => "PG"@,
            Rating::PG13 => "PG-13"@,
            Rating::R => "R"@,
            Rating::Inappropriate => "Inappropriate"@,
        }
    }

    /// The rating that `text` writes, if it writes one.
    pub open spec fn from_label(text: Seq<char>) -> Option<Rating> {
        if text == "G"@ {
            Some(Rating::G)
        } else if text == "PG"@ {
            Some(Rating::PG)
        } else if text == "PG-13"@ {
            Some(Rating::PG13)
        } else if text == "R"@ {
            Some(Rating::R)
        } else if text == "Inappropriate"@ {
            Some(Rating::Inappropriate)
        } else {
            None
        }
    }

    /// The text by which the rating is written.
    pub fn as_str(self) -> (r: &'static str)
        ensures
            r@ == self.label(),
    {
        match self {
            Rating::G => "G",
            Rating::PG => "PG",
            Rating::PG13 => "PG-13",
            Rating::R => "R",
            Rating::Inappropriate => "Inappropriate",
        }
    }

    /// Reads a rating. Only the five labels are ratings, letter for letter.
    pub fn parse(text: &str) -> (r: Option<Rating>)
        ensures
            r == Rating::from_label(text@),
    {
        if same_text(text, "G") {
            Some(Rating::G)
        } else if same_text(text, "PG") {
            Some(Rating::PG)
        } else if same_text(text, "PG-13") {
            Some(Rating::PG13)
        } else if same_text(text, "R") {
            Some(Rating::R)
        } else if same_text(text, "Inappropriate") {
            Some(Rating::Inappropriate)
        } else {
            None
        }
    }

    /// Every rating is read back from its own label.
    pub proof fn label_round_trip(self)
        ensures
            Rating::from_label(self.label()) == Some(self),
    {
        reveal_strlit("G");
        reveal_strlit("PG");
        reveal_strlit("PG-13");
        reveal_strlit("R");
        reveal_strlit("Inappropriate");
        assert("G"@.len() == 1 && "G"@[0] == 'G');
        assert("PG"@.len() == 2);
        assert("PG-13"@.len() == 5);
        assert("R"@.len() == 1 && "R"@[0] == 'R');
        assert("Inappropriate"@.len() == 13);
    }
}

/// The judgment on one frame.
#[derive(Clone, Debug, PartialEq, Eq)]
pub struct ModerationVerdict {
    pub description: String,
    pub rating: Rating,
}

/// What a [`ModerationVerdict`] holds.
pub struct VerdictView {
    pub description: Seq<char>,
    pub rating: Rating,
}

impl View for ModerationVerdict {
    type V = VerdictView;

    open spec fn view(&self) -> VerdictView {
        VerdictView { description: self.description@, rating: self.rating }
    }
}

/// The verdict on a frame whose reply could not be read: it quotes the
/// reply.
pub open spec fn unreadable_verdict(reply: Seq<char>) -> VerdictView {
    VerdictView {
        description: "Parsing error in response: "@ + reply,
        rating: Rating::Inappropriate,
    }
}

/// The verdict on a frame for which every attempt failed: it quotes the last
/// error and counts the attempts.
pub open spec fn exhausted_verdict(error: Seq<char>, attempts: nat) -> VerdictView {
    VerdictView {
        description: "Error: "@ + error + " (after "@ + decimal_digits(attempts) + " attempts)"@,
        rating: Rating::Inappropriate,
    }
}

impl ModerationVerdict {
    /// The verdict that stands in for a reply that could not be read.
    pub fn unreadable(reply: &str) -> (r: ModerationVerdict)
        ensures
            r@ == unreadable_verdict(reply@),
    {
        let description: String = String::from_str("Parsing error in response: ").concat(reply);
        ModerationVerdict { description, rating: Rating::Inappropriate }
    }

    /// The verdict that stands in after `attempts` failed attempts, the last
    /// of which failed with `error`.
    pub fn exhausted(error: &str, attempts: u64) -> (r: ModerationVerdict)
        ensures
            r@ == exhausted_verdict(error@, attempts as nat),
    {
        let count: String = decimal_text(attempts);
        let description: String = String::from_str("Error: ").concat(error).concat(
            " (after ",
        ).concat(count.as_str()).concat(" attempts)");
        ModerationVerdict { description, rating: Rating::Inappropriate }
    }

    /// A copy of the verdict.
    pub fn duplicate(&self) -> (r: ModerationVerdict)
        ensures
            r@ == self@,
    {
        ModerationVerdict { description: self.description.clone(), rating: self.rating }
    }
}

} // verus!
