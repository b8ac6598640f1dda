use vstd::prelude::*;

use crate::chars::{ascii_lower, ascii_lower_spec, is_whitespace, whitespace_of};
use crate::config::{Config, MAX_PAUSE_MS, PPM_ONE};
use crate::random::random_below;

verus! {

/// The per-character delay before any adjustment, in milliseconds:
/// `12000 / wpm` (five characters per word), floored at 20.
pub open spec fn base_delay_spec(wpm: u32) -> nat
    recommends
        wpm > 0,
{
    let raw: nat = 12000nat / (wpm as nat);
    if raw < 20 {
        20
    } else {
        raw
    }
}

/// Base delay between keystrokes in milliseconds.
pub fn base_delay_ms(wpm: u32) -> (r: u64)
    requires
        wpm > 0,
    ensures
        r as nat == base_delay_spec(wpm),
        r >= 20,
        wpm <= 600 ==> r as int == 12000int / (wpm as int),
{
    let raw: u64 = 12000 / (wpm as u64);
    proof {
        if wpm <= 600 {
            assert(12000int / (wpm as int) >= 20) by (nonlinear_arith)
                requires
                    0 < wpm <= 600,
            ;
        }
    }
    if raw < 20 {
        20
    } else {
        raw
    }
}

/// Punctuation that, like whitespace, ends a word.
pub open spec fn is_boundary_punct(c: char) -> bool {
    c == '.' || c == ',' || c == ';' || c == ':' || c == '!' || c == '?' || c == '"' || c == '\''
        || c == '(' || c == ')' || c == '[' || c == ']' || c == '{' || c == '}' || c == '-'
        || c == '/' || c == '\\'
}

/// A word boundary: whitespace or one of the delimiting punctuation marks.
pub open spec fn is_word_boundary_spec(c: char) -> bool {
    whitespace_of(c) || is_boundary_punct(c)
}

/// Whether a character delimits a word.
pub fn is_word_boundary(c: char) -> (r: bool)
    ensures
        r == is_word_boundary_spec(c),
{
    if is_whitespace(c) {
        true
    } else {
        match c {
            '.' | ',' | ';' | ':' | '!' | '?' | '"' | '\'' | '(' | ')' | '[' | ']' | '{' | '}' | '-'
            | '/' | '\\' => true,
            _ => false,
        }
    }
}

/// The hand that types a lowercased character on a QWERTY board: 0 left,
/// 1 right, 2 neither.
pub open spec fn hand_of_lower(c: char) -> u8 {
    match c {
        'q' | 'w' | 'e' | 'r' | 't' | 'a' | 's' | 'd' | 'f' | 'g' | 'z' | 'x' | 'c' | 'v' | 'b' | '1' | '2' | '3' | '4' | '5' | '`' | '~' => 0,
        'y' | 'u' | 'i' | 'o' | 'p' | 'h' | 'j' | 'k' | 'l' | 'n' | 'm' | '6' | '7' | '8' | '9' | '0' | '-' | '=' | '[' | ']' | '\\' | ';' | '\'' | ',' | '.' | '/' => 1,
        _ => 2,
    }
}

/// The hand that types a character, case ignored.
pub open spec fn hand_spec(c: char) -> u8 {
    hand_of_lower(ascii_lower_spec(c))
}

/// Which hand types a character: 0 left, 1 right, 2 either or special.
pub fn get_hand(c: char) -> (r: u8)
    ensures
        r == hand_spec(c),
        r <= 2,
{
    match ascii_lower(c) {
        'q' | 'w' | 'e' | 'r' | 't' | 'a' | 's' | 'd' | 'f' | 'g' | 'z' | 'x' | 'c' | 'v' | 'b' | '1' | '2' | '3' | '4' | '5' | '`' | '~' => 0,
        'y' | 'u' | 'i' | 'o' | 'p' | 'h' | 'j' | 'k' | 'l' | 'n' | 'm' | '6' | '7' | '8' | '9' | '0' | '-' | '=' | '[' | ']' | '\\' | ';' | '\'' | ',' | '.' | '/' => 1,
        _ => 2,
    }
}

/// The frequent two-letter sequences, in lowercase.
pub open spec fn is_digraph_lower(a: char, b: char) -> bool {
    match (a, b) {
        ('t', 'h') | ('h', 'e') | ('i', 'n') | ('e', 'r') | ('a', 'n') | ('r', 'e') |
        ('o', 'n') | ('a', 't') | ('e', 'n') | ('n', 'd') | ('t', 'i') | ('e', 's') |
        ('o', 'r') | ('t', 'e') | ('o', 'f') | ('e', 'd') | ('i', 's') | ('i', 't') |
        ('a', 'l') | ('a', 'r') | ('s', 't') | ('t', 'o') | ('n', 't') | ('n', 'g') |
        ('h', 'a') | ('a', 's') | ('o', 'u') | ('i', 'o') | ('l', 'e') | ('v', 'e') |
        ('c', 'o') | ('m', 'e') | ('d', 'e') | ('h', 'i') | ('r', 'i') | ('r', 'o') |
        ('i', 'c') | ('n', 'e') | ('e', 'a') | ('r', 'a') | ('c', 'e') | ('l', 'i') |
        ('c', 'h') | ('l', 'l') | ('b', 'e') | ('m', 'a') | ('s', 'i') | ('o', 'm') |
        ('u', 'r') | ('i', 'f') | ('e', 'l') | ('f', 'o') | ('w', 'h') | ('t', 'u') |
        ('r', 'n') | ('f', 'u') | ('n', 'c') | ('c', 't') | ('v', 'a') | ('e', 't') |
        ('u', 'e') | ('t', 'r') | ('f', 'a') | ('l', 's') | ('n', 'u') | ('u', 'n') |
        ('f', 'i') | ('c', 'l') | ('s', 's') => true,
        _ => false,
    }
}

/// A frequent two-letter sequence, case ignored.
pub open spec fn digraph_spec(prev: char, curr: char) -> bool {
    is_digraph_lower(ascii_lower_spec(prev), ascii_lower_spec(curr))
}

/// Whether two characters form a frequent digraph, typed faster from habit.
pub fn is_common_digraph(prev: char, curr: char) -> (r: bool)
    ensures
        r == digraph_spec(prev, curr),
{
    match (ascii_lower(prev), ascii_lower(curr)) {
        ('t', 'h') | ('h', 'e') | ('i', 'n') | ('e', 'r') | ('a', 'n') | ('r', 'e') |
        ('o', 'n') | ('a', 't') | ('e', 'n') | ('n', 'd') | ('t', 'i') | ('e', 's') |
        ('o', 'r') | ('t', 'e') | ('o', 'f') | ('e', 'd') | ('i', 's') | ('i', 't') |
        ('a', 'l') | ('a', 'r') | ('s', 't') | ('t', 'o') | ('n', 't') | ('n', 'g') |
        ('h', 'a') | ('a', 's') | ('o', 'u') | ('i', 'o') | ('l', 'e') | ('v', 'e') |
        ('c', 'o') | ('m', 'e') | ('d', 'e') | ('h', 'i') | ('r', 'i') | ('r', 'o') |
        ('i', 'c') | ('n', 'e') | ('e', 'a') | ('r', 'a') | ('c', 'e') | ('l', 'i') |
        ('c', 'h') | ('l', 'l') | ('b', 'e') | ('m', 'a') | ('s', 'i') | ('o', 'm') |
        ('u', 'r') | ('i', 'f') | ('e', 'l') | ('f', 'o') | ('w', 'h') | ('t', 'u') |
        ('r', 'n') | ('f', 'u') | ('n', 'c') | ('c', 't') | ('v', 'a') | ('e', 't') |
        ('u', 'e') | ('t', 'r') | ('f', 'a') | ('l', 's') | ('n', 'u') | ('u', 'n') |
        ('f', 'i') | ('c', 'l') | ('s', 's') => true,
        _ => false,
    }
}

/// How many non-boundary characters stand right before position `i`.
pub open spec fn run_before(chars: Seq<char>, i: int) -> nat
    decreases i,
{
    if i <= 0 || i > chars.len() {
        0
    } else if is_word_boundary_spec(chars[i - 1]) {
        0
    } else {
        1 + run_before(chars, i - 1)
    }
}

/// How many non-boundary characters stand from position `j` on.
pub open spec fn run_from(chars: Seq<char>, j: int) -> nat
    decreases chars.len() - j,
{
    if j < 0 || j >= chars.len() {
        0
    } else if is_word_boundary_spec(chars[j]) {
        0
    } else {
        1 + run_from(chars, j + 1)
    }
}

/// The character at `i`, or a space past the end.
pub open spec fn char_or_space(chars: Seq<char>, i: int) -> char {
    if 0 <= i < chars.len() {
        chars[i]
    } else {
        ' '
    }
}

/// Where a position stands within its word.
pub struct WordContext {
    /// Characters since the last word boundary.
    pub chars_in_word: usize,
    /// The position begins a word.
    pub is_word_start: bool,
    /// The position ends a word (the next character is a boundary or absent).
    pub is_word_end: bool,
    /// The word's length: the characters before the position plus those from it on.
    pub word_length_estimate: usize,
}

impl WordContext {
    /// The context of position `i`, field by field.
    pub open spec fn spec_of(self, chars: Seq<char>, i: int) -> bool {
        let cur = char_or_space(chars, i);
        &&& self.chars_in_word == run_before(chars, i)
        &&& self.word_length_estimate == run_before(chars, i) + run_from(chars, i)
        &&& self.is_word_start == ((i == 0 || is_word_boundary_spec(chars[i - 1]))
            && !is_word_boundary_spec(cur))
        &&& self.is_word_end == ((i + 1 >= chars.len() || is_word_boundary_spec(chars[i + 1]))
            && !is_word_boundary_spec(cur))
    }

    /// Analyses the word around `current_index`.
    pub fn analyze(chars: &[char], current_index: usize) -> (r: Self)
        requires
            current_index <= chars@.len(),
        ensures
            r.spec_of(chars@, current_index as int),
    {
        let current_char = if current_index < chars.len() {
            chars[current_index]
        } else {
            ' '
        };
        let mut chars_in_word: usize = 0;
        let mut i: usize = current_index;
        let mut at_boundary = false;
        while i > 0 && !at_boundary
            invariant
                i <= current_index <= chars@.len(),
                at_boundary ==> run_before(chars@, i as int) == 0,
                chars_in_word + i == current_index,
                run_before(chars@, current_index as int) == chars_in_word + run_before(chars@, i as int),
            decreases i + (if at_boundary { 0int } else { 1int }),
        {
            if is_word_boundary(chars[i - 1]) {
                at_boundary = true;
            } else {
                i -= 1;
                chars_in_word += 1;
            }
        }
        let mut word_length_estimate: usize = chars_in_word;
        let mut j: usize = current_index;
        at_boundary = false;
        while j < chars.len() && !at_boundary
            invariant
                chars_in_word <= current_index <= j <= chars@.len(),
                at_boundary ==> run_from(chars@, j as int) == 0,
                word_length_estimate == chars_in_word + (j - current_index),
                run_from(chars@, current_index as int) == (j - current_index) + run_from(chars@, j as int),
            decreases chars@.len() - j + (if at_boundary { 0int } else { 1int }),
        {
            if is_word_boundary(chars[j]) {
                at_boundary = true;
            } else {
                word_length_estimate += 1;
                j += 1;
            }
        }
        let prev_boundary = if current_index > 0 {
            is_word_boundary(chars[current_index - 1])
        } else {
            true
        };
        let next_boundary = if current_index < chars.len() && current_index + 1 < chars.len() {
            is_word_boundary(chars[current_index + 1])
        } else {
            true
        };
        let current_boundary = is_word_boundary(current_char);
        WordContext {
            chars_in_word,
            is_word_start: prev_boundary && !current_boundary,
            is_word_end: next_boundary && !current_boundary,
            word_length_estimate,
        }
    }
}

/// Standard deviations handed to the variance pass are in thousandths and
/// taken within `-DEVIATION_LIMIT..=DEVIATION_LIMIT`; beyond that the sample
/// lies outside the clamp window for every positive variance anyway.
pub const DEVIATION_LIMIT: i64 = 2_000_000_000;

/// Largest delay the variance pass accepts, so that twice it fits a `u64`.
pub const MAX_VARIED_MS: u64 = 0x7fff_ffff_ffff_ffff;

/// A deviation clamped to `DEVIATION_LIMIT`.
pub open spec fn clamp_deviation(z: int) -> int {
    if z < -(DEVIATION_LIMIT as int) {
        -(DEVIATION_LIMIT as int)
    } else if z > DEVIATION_LIMIT as int {
        DEVIATION_LIMIT as int
    } else {
        z
    }
}

/// `delay * variance * z`, with the variance in parts per million and `z` in
/// thousandths of a standard deviation, in milliseconds rounded toward zero.
pub open spec fn variance_offset(delay: int, variance: int, z: int) -> int {
    let zc = clamp_deviation(z);
    if zc >= 0 {
        delay * variance * zc / 1_000_000_000
    } else {
        -(delay * variance * (-zc) / 1_000_000_000)
    }
}

/// A normal sample around `delay` with standard deviation `delay * variance`,
/// given as its deviation `z`; clamped to `[delay / 2, 2 * delay]`, then
/// floored at 10. Without spread (`delay` or `variance` zero) `delay` is kept.
pub open spec fn add_variance_spec(delay: nat, variance: nat, z: int) -> nat {
    if delay == 0 || variance == 0 {
        delay
    } else {
        let sample: int = delay as int + variance_offset(delay as int, variance as int, z);
        let lo: int = delay as int / 2;
        let hi: int = 2 * (delay as int);
        let c = if sample < lo {
            lo
        } else if sample > hi {
            hi
        } else {
            sample
        };
        if c < 10 {
            10
        } else {
            c as nat
        }
    }
}

/// Adds gaussian variance to a delay. `variance` is the relative standard
/// deviation in parts per million; `deviation` is a standard-normal draw in
/// thousandths.
pub fn add_variance(delay_ms: u64, variance: u32, deviation: i64) -> (r: u64)
    requires
        delay_ms <= MAX_VARIED_MS,
    ensures
        r as nat == add_variance_spec(delay_ms as nat, variance as nat, deviation as int),
        r <= 2 * delay_ms + 10,
{
    if delay_ms == 0 || variance == 0 {
        return delay_ms;
    }
    let zc: i64 = if deviation < -DEVIATION_LIMIT {
        -DEVIATION_LIMIT
    } else if deviation > DEVIATION_LIMIT {
        DEVIATION_LIMIT
    } else {
        deviation
    };
    let mag: u64 = if zc >= 0 {
        zc as u64
    } else {
        (-zc) as u64
    };
    let d = delay_ms as u128;
    proof {
        assert((d as int) * (variance as int) <= 0x1_0000_0000_0000_0000 * 0x1_0000_0000) by (nonlinear_arith)
            requires
                d < 0x1_0000_0000_0000_0000,
                variance < 0x1_0000_0000,
        ;
        assert((d as int) * (variance as int) * (mag as int) <= 0x1_0000_0000_0000_0000 * 0x1_0000_0000
            * 0x8000_0000) by (nonlinear_arith)
            requires
                (d as int) * (variance as int) <= 0x1_0000_0000_0000_0000 * 0x1_0000_0000,
                0 <= mag < 0x8000_0000,
                (d as int) * (variance as int) >= 0,
        ;
    }
    let off: u128 = d * (variance as u128) * (mag as u128) / 1_000_000_000;
    let lo: u128 = d / 2;
    let hi: u128 = 2 * d;
    let c: u128 = if zc >= 0 {
        if d + off > hi {
            hi
        } else {
            d + off
        }
    } else {
        if off > d - lo {
            lo
        } else {
            d - off
        }
    };
    if c < 10 {
        10
    } else {
        c as u64
    }
}

/// `d * num / den`, rounded down.
pub open spec fn scale(d: int, num: int, den: int) -> int {
    d * num / den
}

/// Largest running delay, in thousandths of a millisecond, that a scaling
/// step accepts.
pub const SCALE_LIMIT: u64 = 0x1_0000_0000_0000;

/// Multiplies a running delay by a factor of at most 2.
fn scale_by(d: u64, num: u128, den: u128) -> (r: u64)
    requires
        0 < den < 0x4000_0000_0000_0000_0000,
        num <= 2 * den,
        d < SCALE_LIMIT,
    ensures
        r == scale(d as int, num as int, den as int),
        r <= 2 * d,
{
    proof {
        assert((d as int) * (num as int) <= (d as int) * (2 * den as int)) by (nonlinear_arith)
            requires
                num <= 2 * den,
                d >= 0,
        ;
        assert((d as int) * (2 * den as int) <= 0x1_0000_0000_0000 * 0x8000_0000_0000_0000_0000)
            by (nonlinear_arith)
            requires
                d < 0x1_0000_0000_0000,
                2 * den < 0x8000_0000_0000_0000_0000,
        ;
        assert(((d as int) * (num as int)) / (den as int) <= 2 * d) by (nonlinear_arith)
            requires
                (d as int) * (num as int) <= (d as int) * (2 * den as int),
                den > 0,
                d >= 0,
        ;
        assert(((d as int) * (num as int)) / (den as int) >= 0) by (nonlinear_arith)
            requires
                num >= 0,
                den > 0,
                d >= 0,
        ;
    }
    ((d as u128) * num / den) as u64
}

/// The uniform draws of one delay: factors in thousandths above their
/// range's floor, and rolls in parts per million.
#[derive(Clone, Copy, Debug, PartialEq, Eq)]
pub struct DelayDraws {
    pub word_start: u32,
    pub digraph: u32,
    pub alternation: u32,
    pub same_hand: u32,
    pub space: u32,
    pub sentence: u32,
    pub clause: u32,
    pub paragraph: u32,
    pub burst_roll: u32,
    pub burst: u32,
    pub thinking_roll: u32,
    pub jitter: u32,
}

impl DelayDraws {
    /// Each draw within its range.
    pub open spec fn wf(&self) -> bool {
        &&& self.word_start < 150
        &&& self.digraph < 100
        &&& self.alternation < 80
        &&& self.same_hand < 100
        &&& self.space < 300
        &&& self.sentence < 400
        &&& self.clause < 600
        &&& self.paragraph < 800
        &&& self.burst_roll < PPM_ONE
        &&& self.burst < 150
        &&& self.thinking_roll < PPM_ONE
        &&& self.jitter < 200
    }

    /// Draws every factor and roll from the thread-local generator.
    pub fn draw() -> (r: Self)
        ensures
            r.wf(),
    {
        DelayDraws {
            word_start: random_below(150),
            digraph: random_below(100),
            alternation: random_below(80),
            same_hand: random_below(100),
            space: random_below(300),
            sentence: random_below(400),
            clause: random_below(600),
            paragraph: random_below(800),
            burst_roll: random_below(PPM_ONE),
            burst: random_below(150),
            thinking_roll: random_below(PPM_ONE),
            jitter: random_below(200),
        }
    }
}

/// A sentence terminator.
pub open spec fn is_sentence_end(c: char) -> bool {
    c == '.' || c == '!' || c == '?'
}

/// A clause separator.
pub open spec fn is_clause_sep(c: char) -> bool {
    c == ',' || c == ';' || c == ':'
}

/// Momentum within a word after `c` of its `l` characters: the factor falls
/// from 1 to 0.85 at 40% of the word, then rises to 0.95 at its end.
pub open spec fn momentum_scale(d: int, c: int, l: int) -> int {
    if 5 * c < 2 * l {
        scale(d, 1000 * l - 375 * c, 1000 * l)
    } else {
        scale(d, 4700 * l + 1000 * c, 6000 * l)
    }
}

/// Hand alternation speeds up, a repeated hand slows down.
pub open spec fn hand_scale(d: int, prev_hand: u8, curr_hand: u8, dr: DelayDraws) -> int {
    if prev_hand != curr_hand && prev_hand < 2 && curr_hand < 2 {
        scale(d, 880 + dr.alternation, 1000)
    } else if prev_hand == curr_hand && prev_hand < 2 {
        scale(d, 1050 + dr.same_hand, 1000)
    } else {
        d
    }
}

/// Whether the position begins a word.
pub open spec fn starts_word(chars: Seq<char>, i: int) -> bool {
    (i == 0 || is_word_boundary_spec(chars[i - 1])) && !is_word_boundary_spec(chars[i])
}

/// Base delay shaped by word rhythm, digraphs, hands and spaces, in
/// thousandths of a millisecond.
pub open spec fn rhythm_spec(cfg: Config, chars: Seq<char>, i: int, dr: DelayDraws) -> int {
    let cur = chars[i];
    let c = run_before(chars, i) as int;
    let l = c + run_from(chars, i);
    let d0: int = base_delay_spec(cfg.base_wpm) as int * 1000;
    let d1 = if starts_word(chars, i) {
        scale(d0, 1150 + dr.word_start, 1000)
    } else {
        d0
    };
    let d2 = if 0 < c < l {
        momentum_scale(d1, c, l)
    } else {
        d1
    };
    let d3 = if i > 0 && digraph_spec(chars[i - 1], cur) {
        scale(d2, 750 + dr.digraph, 1000)
    } else {
        d2
    };
    let d4 = if i > 0 {
        hand_scale(d3, hand_spec(chars[i - 1]), hand_spec(cur), dr)
    } else {
        d3
    };
    if cur == ' ' {
        scale(d4, 1200 + dr.space, 1000)
    } else {
        d4
    }
}

/// Pauses after punctuation and at newlines, in thousandths of a millisecond.
pub open spec fn pause_spec(cfg: Config, chars: Seq<char>, i: int, dr: DelayDraws) -> int {
    let punct = if i > 0 && is_sentence_end(chars[i - 1]) {
        cfg.punctuation_pause * (800 + dr.sentence)
    } else if i > 0 && is_clause_sep(chars[i - 1]) {
        cfg.punctuation_pause * (700 + dr.clause) / 2
    } else {
        0
    };
    let para = if chars[i] == '\n' {
        cfg.paragraph_pause * (600 + dr.paragraph)
    } else {
        0
    };
    punct + para
}

/// Whether a thinking pause falls here: its chance is scaled by 1.5 at a
/// word start, by 2 at a boundary and by 0.3 elsewhere.
pub open spec fn thinks(cfg: Config, chars: Seq<char>, i: int, roll: u32) -> bool {
    let p = cfg.thinking_pause_chance as int;
    if starts_word(chars, i) {
        2 * roll < 3 * p
    } else if is_word_boundary_spec(chars[i]) {
        roll < 2 * p
    } else {
        10 * roll < 3 * p
    }
}

/// The delay before the variance pass, in thousandths of a millisecond:
/// rhythm and pauses, a burst, a thinking pause of `thinking_ms`, warmup over
/// the first 30 characters, fatigue past 85% and a final jitter.
pub open spec fn delay_micros_spec(
    cfg: Config,
    chars: Seq<char>,
    i: int,
    total: int,
    dr: DelayDraws,
    thinking_ms: nat,
) -> int {
    let a = rhythm_spec(cfg, chars, i, dr) + pause_spec(cfg, chars, i, dr);
    let b = if cfg.burst_typing && dr.burst_roll < 80_000 {
        scale(a, 600 + dr.burst, 1000)
    } else {
        a
    };
    let c = if thinks(cfg, chars, i, dr.thinking_roll) {
        b + 1000 * thinking_ms
    } else {
        b
    };
    let e = if i < 30 {
        scale(c, 18000 + 7 * (30 - i) * (30 - i), 18000)
    } else {
        c
    };
    let t = if total < 1 {
        1
    } else {
        total
    };
    let f = if 100 * i > 85 * t {
        scale(e, 15 * t + 100 * i, 100 * t)
    } else {
        e
    };
    scale(f, 900 + dr.jitter, 1000)
}

/// The delay of the character at `i`, in milliseconds, for given draws: the
/// shaped delay, its variance pass (half the configured variance) and the
/// 8 ms floor.
pub open spec fn delay_spec(
    cfg: Config,
    chars: Seq<char>,
    i: int,
    total: int,
    dr: DelayDraws,
    thinking_deviation: int,
    variance_deviation: int,
) -> nat {
    let thinking = add_variance_spec(
        cfg.thinking_pause_duration as nat,
        400_000,
        thinking_deviation,
    );
    let pre = delay_micros_spec(cfg, chars, i, total, dr, thinking) / 1000;
    let v = add_variance_spec(pre as nat, (cfg.wpm_variance / 2) as nat, variance_deviation);
    if v < 8 {
        8
    } else {
        v
    }
}

/// Word rhythm, digraph, hand and space adjustments.
fn rhythm(cfg: &Config, chars: &[char], i: usize, dr: &DelayDraws) -> (r: u64)
    requires
        cfg.wf(),
        dr.wf(),
        i < chars@.len(),
    ensures
        r == rhythm_spec(*cfg, chars@, i as int, *dr),
        r <= 384_000_000,
{
    let cur = chars[i];
    let ctx = WordContext::analyze(chars, i);
    let d0: u64 = base_delay_ms(cfg.base_wpm) * 1000;
    let d1 = if ctx.is_word_start {
        scale_by(d0, 1150 + dr.word_start as u128, 1000)
    } else {
        d0
    };
    let c = ctx.chars_in_word;
    let l = ctx.word_length_estimate;
    let d2 = if 0 < c && c < l {
        if 5 * (c as u128) < 2 * (l as u128) {
            scale_by(d1, 1000 * (l as u128) - 375 * (c as u128), 1000 * (l as u128))
        } else {
            scale_by(d1, 4700 * (l as u128) + 1000 * (c as u128), 6000 * (l as u128))
        }
    } else {
        d1
    };
    let d3 = if i > 0 && is_common_digraph(chars[i - 1], cur) {
        scale_by(d2, 750 + dr.digraph as u128, 1000)
    } else {
        d2
    };
    let d4 = if i > 0 {
        let ph = get_hand(chars[i - 1]);
        let ch = get_hand(cur);
        if ph != ch && ph < 2 && ch < 2 {
            scale_by(d3, 880 + dr.alternation as u128, 1000)
        } else if ph == ch && ph < 2 {
            scale_by(d3, 1050 + dr.same_hand as u128, 1000)
        } else {
            d3
        }
    } else {
        d3
    };
    if cur == ' ' {
        scale_by(d4, 1200 + dr.space as u128, 1000)
    } else {
        d4
    }
}

/// The shaped delay before the variance pass.
fn delay_micros(
    cfg: &Config,
    chars: &[char],
    i: usize,
    total: usize,
    dr: &DelayDraws,
    thinking_ms: u64,
) -> (r: u64)
    requires
        cfg.wf(),
        dr.wf(),
        i < chars@.len(),
        i < total,
        thinking_ms <= 2 * MAX_PAUSE_MS + 10,
    ensures
        r == delay_micros_spec(*cfg, chars@, i as int, total as int, *dr, thinking_ms as nat),
{
    let cur = chars[i];
    let rh = rhythm(cfg, chars, i, dr);
    proof {
        let pp = cfg.punctuation_pause as int;
        let qq = cfg.paragraph_pause as int;
        assert(pp * (800 + dr.sentence) <= 1_000_000_000 * 1200) by (nonlinear_arith)
            requires
                0 <= pp <= 1_000_000_000,
                0 <= dr.sentence < 400,
        ;
        assert(pp * (700 + dr.clause) <= 1_000_000_000 * 1300) by (nonlinear_arith)
            requires
                0 <= pp <= 1_000_000_000,
                0 <= dr.clause < 600,
        ;
        assert(qq * (600 + dr.paragraph) <= 1_000_000_000 * 1400) by (nonlinear_arith)
            requires
                0 <= qq <= 1_000_000_000,
                0 <= dr.paragraph < 800,
        ;
    }
    let punct: u64 = if i > 0 && (chars[i - 1] == '.' || chars[i - 1] == '!' || chars[i - 1] == '?') {
        cfg.punctuation_pause * (800 + dr.sentence as u64)
    } else if i > 0 && (chars[i - 1] == ',' || chars[i - 1] == ';' || chars[i - 1] == ':') {
        cfg.punctuation_pause * (700 + dr.clause as u64) / 2
    } else {
        0
    };
    let para: u64 = if cur == '\n' {
        cfg.paragraph_pause * (600 + dr.paragraph as u64)
    } else {
        0
    };
    let a = rh + punct + para;
    let b = if cfg.burst_typing && dr.burst_roll < 80_000 {
        scale_by(a, 600 + dr.burst as u128, 1000)
    } else {
        a
    };
    let p = cfg.thinking_pause_chance as u64;
    let roll = dr.thinking_roll as u64;
    let start = (i == 0 || is_word_boundary(chars[i - 1])) && !is_word_boundary(cur);
    let think = if start {
        2 * roll < 3 * p
    } else if is_word_boundary(cur) {
        roll < 2 * p
    } else {
        10 * roll < 3 * p
    };
    let c = if think {
        b + 1000 * thinking_ms
    } else {
        b
    };
    let e = if i < 30 {
        let w = (30 - i) as u128;
        proof {
            assert(7 * w * w <= 6300) by (nonlinear_arith)
                requires
                    0 <= w <= 30,
            ;
        }
        scale_by(c, 18000 + 7 * w * w, 18000)
    } else {
        c
    };
    let t: u128 = if total < 1 {
        1
    } else {
        total as u128
    };
    let f = if 100 * (i as u128) > 85 * t {
        scale_by(e, 15 * t + 100 * (i as u128), 100 * t)
    } else {
        e
    };
    scale_by(f, 900 + dr.jitter as u128, 1000)
}

/// The delay of the character at `i`, in milliseconds, for given draws and
/// given standard-normal deviations (in thousandths) of the thinking pause
/// and of the variance pass.
pub fn delay_from_draws(
    config: &Config,
    chars: &[char],
    current_index: usize,
    total_chars: usize,
    draws: &DelayDraws,
    thinking_deviation: i64,
    variance_deviation: i64,
) -> (r: u64)
    requires
        config.wf(),
        draws.wf(),
        current_index < chars@.len(),
        current_index < total_chars,
    ensures
        r as nat == delay_spec(
            *config,
            chars@,
            current_index as int,
            total_chars as int,
            *draws,
            thinking_deviation as int,
            variance_deviation as int,
        ),
        r >= 8,
{
    let thinking = add_variance(config.thinking_pause_duration, 400_000, thinking_deviation);
    let pre = delay_micros(config, chars, current_index, total_chars, draws, thinking) / 1000;
    let v = add_variance(pre, config.wpm_variance / 2, variance_deviation);
    if v < 8 {
        8
    } else {
        v
    }
}

/// The delay of the character at `current_index`, in milliseconds, with the
/// uniform draws taken from the thread-local generator.
pub fn calculate_delay_v2(
    config: &Config,
    chars: &[char],
    current_index: usize,
    total_chars: usize,
    thinking_deviation: i64,
    variance_deviation: i64,
) -> (r: u64)
    requires
        config.wf(),
        current_index < chars@.len(),
        current_index < total_chars,
    ensures
        r >= 8,
        exists|dr: DelayDraws|
            dr.wf() && r as nat == delay_spec(
                *config,
                chars@,
                current_index as int,
                total_chars as int,
                dr,
                thinking_deviation as int,
                variance_deviation as int,
            ),
{
    let draws = DelayDraws::draw();
    delay_from_draws(
        config,
        chars,
        current_index,
        total_chars,
        &draws,
        thinking_deviation,
        variance_deviation,
    )
}

/// The delay between backspaces: 70% of the base delay, with half the
/// configured variance, floored at 10 ms.
pub open spec fn backspace_delay_spec(cfg: Config, deviation: int) -> nat {
    let v = add_variance_spec(
        base_delay_spec(cfg.base_wpm) * 7 / 10,
        (cfg.wpm_variance / 2) as nat,
        deviation,
    );
    if v < 10 {
        10
    } else {
        v
    }
}

/// Delay between backspaces, in milliseconds; `deviation` is the
/// standard-normal draw of its variance pass, in thousandths.
pub fn backspace_delay(config: &Config, deviation: i64) -> (r: u64)
    requires
        config.wf(),
    ensures
        r as nat == backspace_delay_spec(*config, deviation as int),
        r >= 10,
{
    let base = base_delay_ms(config.base_wpm);
    let v = add_variance(base * 7 / 10, config.wpm_variance / 2, deviation);
    if v < 10 {
        10
    } else {
        v
    }
}

/// How long a mistake goes unnoticed, in milliseconds: drawn from `50..500`.
pub fn notice_mistake_delay() -> (r: u64)
    ensures
        50 <= r < 500,
{
    50 + random_below(450) as u64
}

} // verus!
