//! The three-valued choice, the errors of the game, and the rule that decides which
//! choice defeats which.

use vstd::prelude::*;

verus! {

/// One of the three moves of the game.
#[derive(Clone, Copy, PartialEq, Eq, Structural, Debug)]
pub enum Choice {
    Scissors,
    Paper,
    Rock,
}

/// Why an operation was rejected.
#[derive(Clone, Copy, PartialEq, Eq, Structural, Debug)]
pub enum GameError {
    /// The text of a choice is none of "Rock", "Paper", "Scissors".
    WrongParameters,
    /// The caller is not the owner recorded in the game account.
    InvalidSigner,
    /// The balance that a transfer draws on is smaller than the amount to move.
    InsufficientBalance,
}

impl GameError {
    /// The sentence that explains the error to a person.
    pub open spec fn spec_message(self) -> Seq<char> {
        match self {
            GameError::WrongParameters => "Available only Rock, Paper and Scissors"@,
            GameError::InvalidSigner =>
                "The public key of the signer of this transaction does not match the current public key of the account"@,
            GameError::InsufficientBalance => "The balance is smaller than the amount to transfer"@,
        }
    }

    /// The sentence that explains the error to a person.
    pub fn message(&self) -> (r: &'static str)
        ensures
            r@ == self.spec_message(),
    {
        match self {
            GameError::WrongParameters => "Available only Rock, Paper and Scissors",
            GameError::InvalidSigner =>
                "The public key of the signer of this transaction does not match the current public key of the account",
            GameError::InsufficientBalance => "The balance is smaller than the amount to transfer",
        }
    }
}

/// `a` defeats `b`: Rock beats Scissors, Paper beats Rock, Scissors beats Paper.
pub open spec fn spec_beats(a: Choice, b: Choice) -> bool {
    b == spec_defeated_by(a)
}

/// The one choice that `a` defeats.
pub open spec fn spec_defeated_by(a: Choice) -> Choice {
    match a {
        Choice::Rock => Choice::Scissors,
        Choice::Paper => Choice::Rock,
        Choice::Scissors => Choice::Paper,
    }
}

/// The choice that a text names, if it names one: exactly "Rock", "Paper" or
/// "Scissors", letter for letter.
pub open spec fn spec_parse(text: Seq<char>) -> Option<Choice> {
    if text == "Rock"@ {
        Some(Choice::Rock)
    } else if text == "Paper"@ {
        Some(Choice::Paper)
    } else if text == "Scissors"@ {
        Some(Choice::Scissors)
    } else {
        None
    }
}

/// Whether `a` defeats `b`.
pub fn beats(a: Choice, b: Choice) -> (r: bool)
    ensures
        r == spec_beats(a, b),
        r <==> (a == Choice::Rock && b == Choice::Scissors) || (a == Choice::Paper && b
            == Choice::Rock) || (a == Choice::Scissors && b == Choice::Paper),
{
    match (a, b) {
        (Choice::Rock, Choice::Scissors) => true,
        (Choice::Paper, Choice::Rock) => true,
        (Choice::Scissors, Choice::Paper) => true,
        _ => false,
    }
}

/// Whether two texts hold the same characters in the same order.
fn same_text(text: &str, literal: &str) -> (r: bool)
    ensures
        r == (text@ == literal@),
{
    let n: usize = literal.unicode_len();
    if text.unicode_len() != n {
        return false;
    }
    let mut i: usize = 0;
    while i < n
        invariant
            i <= n,
            n == literal@.len(),
            n == text@.len(),
            forall|j: int| 0 <= j < i ==> text@[j] == literal@[j],
        decreases n - i,
    {
        if text.get_char(i) != literal.get_char(i) {
            return false;
        }
        i += 1;
    }
    assert(text@ =~= literal@);
    true
}

/// Reads a choice from its name. Only the exact texts "Rock", "Paper" and "Scissors"
/// are names; every other text is rejected with `WrongParameters`.
pub fn parse(text: &str) -> (r: Result<Choice, GameError>)
    ensures
        text@ == "Rock"@ ==> r == Ok::<Choice, GameError>(Choice::Rock),
        text@ == "Paper"@ ==> r == Ok::<Choice, GameError>(Choice::Paper),
        text@ == "Scissors"@ ==> r == Ok::<Choice, GameError>(Choice::Scissors),
        text@ != "Rock"@ && text@ != "Paper"@ && text@ != "Scissors"@ ==> r == Err::<
            Choice,
            GameError,
        >(GameError::WrongParameters),
        r == match spec_parse(text@) {
            Some(c) => Ok::<Choice, GameError>(c),
            None => Err::<Choice, GameError>(GameError::WrongParameters),
        },
{
    proof {
        lemma_names_differ();
    }
    if same_text(text, "Paper") {
        Ok(Choice::Paper)
    } else if same_text(text, "Scissors") {
        Ok(Choice::Scissors)
    } else if same_text(text, "Rock") {
        Ok(Choice::Rock)
    } else {
        Err(GameError::WrongParameters)
    }
}

/// The three names are three different texts.
pub proof fn lemma_names_differ()
    ensures
        "Rock"@ != "Paper"@,
        "Rock"@ != "Scissors"@,
        "Paper"@ != "Scissors"@,
        "Rock"@ =~= seq!['R', 'o', 'c', 'k'],
        "Paper"@ =~= seq!['P', 'a', 'p', 'e', 'r'],
        "Scissors"@ =~= seq!['S', 'c', 'i', 's', 's', 'o', 'r', 's'],
{
    reveal_strlit("Rock");
    reveal_strlit("Paper");
    reveal_strlit("Scissors");
    assert("Rock"@.len() == 4);
    assert("Paper"@.len() == 5);
    assert("Scissors"@.len() == 8);
}

/// No choice defeats itself.
pub proof fn lemma_beats_irreflexive(a: Choice)
    ensures
        !spec_beats(a, a),
{
}

/// The rule is one cycle through all three choices, Rock over Scissors over Paper over
/// Rock: each choice defeats exactly one other choice and is defeated by exactly one
/// other, and never both by the same.
pub proof fn lemma_beats_is_three_cycle(a: Choice, b: Choice)
    ensures
        spec_beats(Choice::Rock, Choice::Scissors),
        spec_beats(Choice::Scissors, Choice::Paper),
        spec_beats(Choice::Paper, Choice::Rock),
        spec_beats(a, b) <==> b == spec_defeated_by(a),
        spec_beats(b, a) <==> b == spec_defeated_by(spec_defeated_by(a)),
        spec_defeated_by(a) != a,
        spec_defeated_by(spec_defeated_by(a)) != a,
        spec_defeated_by(spec_defeated_by(a)) != spec_defeated_by(a),
        spec_defeated_by(spec_defeated_by(spec_defeated_by(a))) == a,
        a != b ==> (spec_beats(a, b) <==> !spec_beats(b, a)),
{
}

} // verus!
