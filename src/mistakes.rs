//! The mistake model: what to type in place of a character.
use vstd::prelude::*;

use crate::chars::{
    first_lower_of, first_lowercase, first_upper_of, first_uppercase, is_lowercase, is_uppercase,
    lowercase_of, uppercase_of,
};
use crate::config::PPM_ONE;
use crate::random::random_below;

verus! {

/// The keys next to a lowercase key on a QWERTY board; empty for keys
/// outside the table.
pub open spec fn neighbors_spec(c: char) -> Seq<char> {
    match c {
        'q' => seq!['w', 'a'],
        'w' => seq!['q', 'e', 'a', 's'],
        'e' => seq!['w', 'r', 's', 'd'],
        'r' => seq!['e', 't', 'd', 'f'],
        't' => seq!['r', 'y', 'f', 'g'],
        'y' => seq!['t', 'u', 'g', 'h'],
        'u' => seq!['y', 'i', 'h', 'j'],
        'i' => seq!['u', 'o', 'j', 'k'],
        'o' => seq!['i', 'p', 'k', 'l'],
        'p' => seq!['o', 'l', '['],
        'a' => seq!['q', 'w', 's', 'z'],
        's' => seq!['a', 'w', 'e', 'd', 'z', 'x'],
        'd' => seq!['s', 'e', 'r', 'f', 'x', 'c'],
        'f' => seq!['d', 'r', 't', 'g', 'c', 'v'],
        'g' => seq!['f', 't', 'y', 'h', 'v', 'b'],
        'h' => seq!['g', 'y', 'u', 'j', 'b', 'n'],
        'j' => seq!['h', 'u', 'i', 'k', 'n', 'm'],
        'k' => seq!['j', 'i', 'o', 'l', 'm', ','],
        'l' => seq!['k', 'o', 'p', ';', ',', '.'],
        'z' => seq!['a', 's', 'x'],
        'x' => seq!['z', 's', 'd', 'c'],
        'c' => seq!['x', 'd', 'f', 'v'],
        'v' => seq!['c', 'f', 'g', 'b'],
        'b' => seq!['v', 'g', 'h', 'n'],
        'n' => seq!['b', 'h', 'j', 'm'],
        'm' => seq!['n', 'j', 'k', ','],
        '1' => seq!['2', 'q'],
        '2' => seq!['1', '3', 'q', 'w'],
        '3' => seq!['2', '4', 'w', 'e'],
        '4' => seq!['3', '5', 'e', 'r'],
        '5' => seq!['4', '6', 'r', 't'],
        '6' => seq!['5', '7', 't', 'y'],
        '7' => seq!['6', '8', 'y', 'u'],
        '8' => seq!['7', '9', 'u', 'i'],
        '9' => seq!['8', '0', 'i', 'o'],
        '0' => seq!['9', '-', 'o', 'p'],
        _ => seq![],
    }
}

/// The keys next to a lowercase key on a QWERTY board.
pub fn neighbors(c: char) -> (r: Vec<char>)
    ensures
        r@ == neighbors_spec(c),
        r@.len() <= 6,
{
    match c {
        'q' => vec!['w', 'a'],
        'w' => vec!['q', 'e', 'a', 's'],
        'e' => vec!['w', 'r', 's', 'd'],
        'r' => vec!['e', 't', 'd', 'f'],
        't' => vec!['r', 'y', 'f', 'g'],
        'y' => vec!['t', 'u', 'g', 'h'],
        'u' => vec!['y', 'i', 'h', 'j'],
        'i' => vec!['u', 'o', 'j', 'k'],
        'o' => vec!['i', 'p', 'k', 'l'],
        'p' => vec!['o', 'l', '['],
        'a' => vec!['q', 'w', 's', 'z'],
        's' => vec!['a', 'w', 'e', 'd', 'z', 'x'],
        'd' => vec!['s', 'e', 'r', 'f', 'x', 'c'],
        'f' => vec!['d', 'r', 't', 'g', 'c', 'v'],
        'g' => vec!['f', 't', 'y', 'h', 'v', 'b'],
        'h' => vec!['g', 'y', 'u', 'j', 'b', 'n'],
        'j' => vec!['h', 'u', 'i', 'k', 'n', 'm'],
        'k' => vec!['j', 'i', 'o', 'l', 'm', ','],
        'l' => vec!['k', 'o', 'p', ';', ',', '.'],
        'z' => vec!['a', 's', 'x'],
        'x' => vec!['z', 's', 'd', 'c'],
        'c' => vec!['x', 'd', 'f', 'v'],
        'v' => vec!['c', 'f', 'g', 'b'],
        'b' => vec!['v', 'g', 'h', 'n'],
        'n' => vec!['b', 'h', 'j', 'm'],
        'm' => vec!['n', 'j', 'k', ','],
        '1' => vec!['2', 'q'],
        '2' => vec!['1', '3', 'q', 'w'],
        '3' => vec!['2', '4', 'w', 'e'],
        '4' => vec!['3', '5', 'e', 'r'],
        '5' => vec!['4', '6', 'r', 't'],
        '6' => vec!['5', '7', 't', 'y'],
        '7' => vec!['6', '8', 'y', 'u'],
        '8' => vec!['7', '9', 'u', 'i'],
        '9' => vec!['8', '0', 'i', 'o'],
        '0' => vec!['9', '-', 'o', 'p'],
        _ => vec![],
    }
}

/// Neighbour picks are drawn from `0..NEIGHBOR_PICKS`: a common multiple of
/// every neighbour count, so that `pick % count` is uniform.
pub const NEIGHBOR_PICKS: u32 = 12;

/// Kinds of mistake.
#[derive(Clone, Copy, Debug, PartialEq, Eq, Structural)]
pub enum MistakeType {
    /// Type an adjacent key instead.
    AdjacentKey,
    /// Swap two consecutive characters.
    Transposition,
    /// Skip a character.
    Omission,
    /// Type a character twice.
    DoubleTap,
    /// Flip a character's case.
    Capitalization,
}

/// The kind for a roll in parts per million: adjacent key 40%,
/// transposition 20%, omission 15%, double tap 15%, capitalization 10%.
pub open spec fn kind_of_roll(roll: u32) -> MistakeType {
    if roll < 400_000 {
        MistakeType::AdjacentKey
    } else if roll < 600_000 {
        MistakeType::Transposition
    } else if roll < 750_000 {
        MistakeType::Omission
    } else if roll < 900_000 {
        MistakeType::DoubleTap
    } else {
        MistakeType::Capitalization
    }
}

impl MistakeType {
    /// The kind for a roll in parts per million.
    pub fn from_roll(roll: u32) -> (r: Self)
        ensures
            r == kind_of_roll(roll),
    {
        if roll < 400_000 {
            MistakeType::AdjacentKey
        } else if roll < 600_000 {
            MistakeType::Transposition
        } else if roll < 750_000 {
            MistakeType::Omission
        } else if roll < 900_000 {
            MistakeType::DoubleTap
        } else {
            MistakeType::Capitalization
        }
    }

    /// A kind drawn with the weights of `kind_of_roll`.
    pub fn random() -> (r: Self)
        ensures
            exists|roll: u32| roll < PPM_ONE && r == kind_of_roll(roll),
    {
        let roll = random_below(PPM_ONE);
        MistakeType::from_roll(roll)
    }
}

/// What to type for one step.
#[derive(Clone, Debug)]
pub struct MistakeResult {
    /// Characters to type, possibly wrong.
    pub chars_to_type: Vec<char>,
    /// Whether a mistake was made.
    pub mistake_made: bool,
    /// How many source characters this step accounts for.
    pub chars_consumed: usize,
    /// The kind of mistake made, if any.
    pub mistake_type: Option<MistakeType>,
}

/// A decision as values: what is typed, which mistake, how many source
/// characters it consumes.
pub struct Decision {
    pub typed: Seq<char>,
    pub kind: Option<MistakeType>,
    pub consumed: nat,
}

impl MistakeResult {
    /// This result is the decision `d`.
    pub open spec fn is(&self, d: Decision) -> bool {
        &&& self.chars_to_type@ =~= d.typed
        &&& self.mistake_type == d.kind
        &&& self.chars_consumed == d.consumed
        &&& self.mistake_made == d.kind is Some
    }
}

/// The draws of one decision: whether a mistake happens (parts per
/// million), which kind (parts per million) and which neighbour.
#[derive(Clone, Copy, Debug, PartialEq, Eq)]
pub struct MistakeDraws {
    pub mistake_roll: u32,
    pub kind_roll: u32,
    pub neighbor_pick: u32,
}

impl MistakeDraws {
    /// Each draw within its range.
    pub open spec fn wf(&self) -> bool {
        self.mistake_roll < PPM_ONE && self.kind_roll < PPM_ONE && self.neighbor_pick
            < NEIGHBOR_PICKS
    }

    /// Draws from the thread-local generator.
    pub fn draw() -> (r: Self)
        ensures
            r.wf(),
    {
        MistakeDraws {
            mistake_roll: random_below(PPM_ONE),
            kind_roll: random_below(PPM_ONE),
            neighbor_pick: random_below(NEIGHBOR_PICKS),
        }
    }
}

/// A neighbour of `c`'s key, in `c`'s case, chosen by `pick`; none where
/// the key has no neighbours.
pub open spec fn adjacent_spec(c: char, pick: u32) -> Option<char> {
    match first_lower_of(c) {
        None => None,
        Some(lower) => {
            let ns = neighbors_spec(lower);
            if ns.len() == 0 {
                None
            } else {
                let n = ns[pick as int % ns.len() as int];
                if uppercase_of(c) {
                    match first_upper_of(n) {
                        Some(u) => Some(u),
                        None => Some(n),
                    }
                } else {
                    Some(n)
                }
            }
        }
    }
}

/// `c` with its case flipped; `c` itself where it has no case.
pub open spec fn flip_case_spec(c: char) -> char {
    if uppercase_of(c) {
        match first_lower_of(c) {
            Some(l) => l,
            None => c,
        }
    } else if lowercase_of(c) {
        match first_upper_of(c) {
            Some(u) => u,
            None => c,
        }
    } else {
        c
    }
}

/// Typing `c` correctly.
pub open spec fn correct_decision(c: char) -> Decision {
    Decision { typed: seq![c], kind: None, consumed: 1 }
}

/// The decision for `cur` (followed by `next`) at a mistake rate in parts
/// per million, for given draws.
pub open spec fn decision_spec(cur: char, next: Option<char>, rate: u32, d: MistakeDraws) -> Decision {
    if d.mistake_roll >= rate {
        correct_decision(cur)
    } else {
        match kind_of_roll(d.kind_roll) {
            MistakeType::AdjacentKey => match adjacent_spec(cur, d.neighbor_pick) {
                Some(w) => Decision { typed: seq![w], kind: Some(MistakeType::AdjacentKey), consumed: 1 },
                None => correct_decision(cur),
            },
            MistakeType::Transposition => match next {
                Some(n) => Decision {
                    typed: seq![n, cur],
                    kind: Some(MistakeType::Transposition),
                    consumed: 2,
                },
                None => correct_decision(cur),
            },
            MistakeType::Omission => Decision {
                typed: seq![],
                kind: Some(MistakeType::Omission),
                consumed: 1,
            },
            MistakeType::DoubleTap => Decision {
                typed: seq![cur, cur],
                kind: Some(MistakeType::DoubleTap),
                consumed: 1,
            },
            MistakeType::Capitalization => {
                let w = flip_case_spec(cur);
                if w != cur {
                    Decision { typed: seq![w], kind: Some(MistakeType::Capitalization), consumed: 1 }
                } else {
                    correct_decision(cur)
                }
            },
        }
    }
}

/// Every decision consumes at least one source character and never more
/// than remain: two only when a next character exists. An omission types
/// nothing and consumes one; without a next character there is no
/// transposition.
pub proof fn lemma_decision_bounds(cur: char, next: Option<char>, rate: u32, d: MistakeDraws)
    ensures
        ({
            let dec = decision_spec(cur, next, rate, d);
            &&& 1 <= dec.consumed <= 2
            &&& dec.consumed == 2 ==> next is Some
            &&& dec.kind == Some(MistakeType::Omission) ==> dec.typed.len() == 0 && dec.consumed == 1
            &&& next is None ==> dec.kind != Some(MistakeType::Transposition) && dec.consumed == 1
            &&& dec.kind is None ==> dec.typed == seq![cur] && dec.consumed == 1
        }),
{
}

/// A neighbour of `c`'s key in `c`'s case, chosen by `pick`.
fn get_adjacent_key(c: char, pick: u32) -> (r: Option<char>)
    ensures
        r == adjacent_spec(c, pick),
{
    let lower = match first_lowercase(c) {
        Some(l) => l,
        None => {
            return None;
        },
    };
    let ns = neighbors(lower);
    if ns.len() == 0 {
        return None;
    }
    let n = ns[(pick as usize) % ns.len()];
    if is_uppercase(c) {
        match first_uppercase(n) {
            Some(u) => Some(u),
            None => Some(n),
        }
    } else {
        Some(n)
    }
}

fn correct(c: char) -> (r: MistakeResult)
    ensures
        r.is(correct_decision(c)),
{
    MistakeResult { chars_to_type: vec![c], mistake_made: false, chars_consumed: 1, mistake_type: None }
}

/// The decision for `current_char` (followed by `next_char`) at a mistake
/// rate in parts per million, for given draws.
pub fn decide_mistake(
    current_char: char,
    next_char: Option<char>,
    mistake_rate: u32,
    draws: &MistakeDraws,
) -> (r: MistakeResult)
    ensures
        r.is(decision_spec(current_char, next_char, mistake_rate, *draws)),
{
    if draws.mistake_roll >= mistake_rate {
        return correct(current_char);
    }
    match MistakeType::from_roll(draws.kind_roll) {
        MistakeType::AdjacentKey => match get_adjacent_key(current_char, draws.neighbor_pick) {
            Some(w) => MistakeResult {
                chars_to_type: vec![w],
                mistake_made: true,
                chars_consumed: 1,
                mistake_type: Some(MistakeType::AdjacentKey),
            },
            None => correct(current_char),
        },
        MistakeType::Transposition => match next_char {
            Some(n) => MistakeResult {
                chars_to_type: vec![n, current_char],
                mistake_made: true,
                chars_consumed: 2,
                mistake_type: Some(MistakeType::Transposition),
            },
            None => correct(current_char),
        },
        MistakeType::Omission => MistakeResult {
            chars_to_type: vec![],
            mistake_made: true,
            chars_consumed: 1,
            mistake_type: Some(MistakeType::Omission),
        },
        MistakeType::DoubleTap => MistakeResult {
            chars_to_type: vec![current_char, current_char],
            mistake_made: true,
            chars_consumed: 1,
            mistake_type: Some(MistakeType::DoubleTap),
        },
        MistakeType::Capitalization => {
            let w = if is_uppercase(current_char) {
                match first_lowercase(current_char) {
                    Some(l) => l,
                    None => current_char,
                }
            } else if is_lowercase(current_char) {
                match first_uppercase(current_char) {
                    Some(u) => u,
                    None => current_char,
                }
            } else {
                current_char
            };
            if w != current_char {
                MistakeResult {
                    chars_to_type: vec![w],
                    mistake_made: true,
                    chars_consumed: 1,
                    mistake_type: Some(MistakeType::Capitalization),
                }
            } else {
                correct(current_char)
            }
        },
    }
}

/// Decides, with draws from the thread-local generator, what to type for
/// `current_char` followed by `next_char`.
pub fn generate_mistake(current_char: char, next_char: Option<char>, mistake_rate: u32) -> (r:
    MistakeResult)
    ensures
        exists|d: MistakeDraws| d.wf() && r.is(decision_spec(current_char, next_char, mistake_rate, d)),
        1 <= r.chars_consumed <= 2,
        r.chars_consumed == 2 ==> next_char is Some,
        r.mistake_type == Some(MistakeType::Omission) ==> r.chars_to_type@.len() == 0
            && r.chars_consumed == 1,
        next_char is None ==> r.mistake_type != Some(MistakeType::Transposition) && r.chars_consumed
            == 1,
        mistake_rate == 0 ==> !r.mistake_made && r.chars_to_type@ == seq![current_char],
{
    let draws = MistakeDraws::draw();
    let r = decide_mistake(current_char, next_char, mistake_rate, &draws);
    proof {
        lemma_decision_bounds(current_char, next_char, mistake_rate, draws);
    }
    r
}

} // verus!
