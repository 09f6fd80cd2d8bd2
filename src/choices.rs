use vstd::prelude::*;

verus! {

/// One of the five hand signs of the game.
#[derive(PartialEq, Eq, Structural, Clone, Copy, Debug)]
pub enum Choice {
    Rock,
    Paper,
    Scissors,
    Lizard,
    Spock,
}

/// The canonical index of a choice, used to read and show choices.
pub open spec fn index_of(c: Choice) -> nat {
    match c {
        Choice::Rock => 0,
        Choice::Paper => 1,
        Choice::Scissors => 2,
        Choice::Lizard => 3,
        Choice::Spock => 4,
    }
}

/// The canonical display name of a choice: the name of its variant.
pub open spec fn name_of(c: Choice) -> Seq<char> {
    match c {
        Choice::Rock => "Rock"@,
        Choice::Paper => "Paper"@,
        Choice::Scissors => "Scissors"@,
        Choice::Lizard => "Lizard"@,
        Choice::Spock => "Spock"@,
    }
}

/// The row of the win relation for `c`: the two choices that `c` defeats,
/// each with the verb that describes the defeat, in a fixed order.
pub open spec fn win_table(c: Choice) -> Seq<(Choice, Seq<char>)> {
    match c {
        Choice::Rock => seq![(Choice::Lizard, "crushes"@), (Choice::Scissors, "crushes"@)],
        Choice::Paper => seq![(Choice::Rock, "covers"@), (Choice::Spock, "disproves"@)],
        Choice::Scissors => seq![(Choice::Paper, "cuts"@), (Choice::Lizard, "decapitates"@)],
        Choice::Lizard => seq![(Choice::Spock, "poisons"@), (Choice::Paper, "eats"@)],
        Choice::Spock => seq![(Choice::Rock, "vaporizes"@), (Choice::Scissors, "smashes"@)],
    }
}

/// The verb with which `winner` defeats `loser`, taken from the first entry of
/// `winner`'s row that names `loser`; `None` when `winner` does not defeat it.
pub open spec fn defeat_verb(winner: Choice, loser: Choice) -> Option<Seq<char>> {
    let row = win_table(winner);
    if row[0].0 == loser {
        Some(row[0].1)
    } else if row[1].0 == loser {
        Some(row[1].1)
    } else {
        None
    }
}

/// No choice defeats itself.
pub proof fn lemma_no_self_defeat(c: Choice)
    ensures
        defeat_verb(c, c) is None,
{
}

/// Between two distinct choices exactly one defeats the other: every unordered
/// pair of distinct choices has a defined winner, and never both directions.
pub proof fn lemma_one_winner(a: Choice, b: Choice)
    requires
        a != b,
    ensures
        defeat_verb(a, b) is Some <==> defeat_verb(b, a) is None,
{
}

/// Each row of the win relation names two distinct choices, neither of them
/// the winner itself.
pub proof fn lemma_row_distinct(c: Choice)
    ensures
        win_table(c).len() == 2,
        win_table(c)[0].0 != win_table(c)[1].0,
        win_table(c)[0].0 != c,
        win_table(c)[1].0 != c,
{
}

/// The view of an optional owned verb.
pub open spec fn verb_view(v: Option<String>) -> Option<Seq<char>> {
    match v {
        Some(s) => Some(s@),
        None => None,
    }
}

/// What a choice defeats, with the verb: pairs of (losing choice, action).
pub type WinCondition = [(Choice, &'static str); 2];

impl Choice {
    /// The choice whose index is `i`, or `None` when `i` is not an index.
    pub fn from_u32(i: u32) -> (r: Option<Choice>)
        ensures
            r is Some <==> i < 5,
            r matches Some(c) ==> index_of(c) == i,
    {
        match i {
            0 => Some(Choice::Rock),
            1 => Some(Choice::Paper),
            2 => Some(Choice::Scissors),
            3 => Some(Choice::Lizard),
            4 => Some(Choice::Spock),
            _ => None,
        }
    }

    /// The canonical display name of this choice.
    pub fn to_str(&self) -> (r: &str)
        ensures
            r@ == name_of(*self),
    {
        match self {
            Choice::Rock => "Rock",
            Choice::Paper => "Paper",
            Choice::Scissors => "Scissors",
            Choice::Lizard => "Lizard",
            Choice::Spock => "Spock",
        }
    }

    /// The verb with which this choice defeats `other`, or `None` when it does
    /// not defeat it (in particular when the two are the same choice).
    pub fn wins_against(&self, other: &Choice) -> (r: Option<String>)
        ensures
            verb_view(r) == defeat_verb(*self, *other),
    {
        let conditions = self.win_condition();
        let mut i: usize = 0;
        while i < 2
            invariant
                0 <= i <= 2,
                forall|k: int|
                    0 <= k < 2 ==> (#[trigger] conditions[k]).0 == win_table(*self)[k].0
                        && conditions[k].1@ == win_table(*self)[k].1,
                forall|k: int| 0 <= k < i ==> win_table(*self)[k].0 != *other,
            decreases 2 - i,
        {
            let (losing_choice, action) = conditions[i];
            if losing_choice == *other {
                return Some(String::from_str(action));
            }
            i = i + 1;
        }
        None
    }

    /// The row of the win relation for this choice.
    fn win_condition(&self) -> (r: WinCondition)
        ensures
            forall|k: int| 0 <= k < 2 ==> (#[trigger] r[k]).0 == win_table(*self)[k].0
                && r[k].1@ == win_table(*self)[k].1,
    {
        match self {
            Choice::Rock => [(Choice::Lizard, "crushes"), (Choice::Scissors, "crushes")],
            Choice::Paper => [(Choice::Rock, "covers"), (Choice::Spock, "disproves")],
            Choice::Scissors => [(Choice::Paper, "cuts"), (Choice::Lizard, "decapitates")],
            Choice::Lizard => [(Choice::Spock, "poisons"), (Choice::Paper, "eats")],
            Choice::Spock => [(Choice::Rock, "vaporizes"), (Choice::Scissors, "smashes")],
        }
    }
}

} // verus!
