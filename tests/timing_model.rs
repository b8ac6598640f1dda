use ghostkeys::config::Config;
use ghostkeys::timing::{
    add_variance, backspace_delay, base_delay_ms, calculate_delay_v2, delay_from_draws, get_hand,
    is_common_digraph, is_word_boundary, notice_mistake_delay, DelayDraws, WordContext,
};

fn zero_draws() -> DelayDraws {
    DelayDraws {
        word_start: 0,
        digraph: 0,
        alternation: 0,
        same_hand: 0,
        space: 0,
        sentence: 0,
        clause: 0,
        paragraph: 0,
        burst_roll: 0,
        burst: 0,
        thinking_roll: 0,
        jitter: 0,
    }
}

#[test]
fn base_delay_follows_wpm() {
    assert_eq!(base_delay_ms(60), 200);
    assert_eq!(base_delay_ms(1), 12000);
    assert_eq!(base_delay_ms(600), 20);
    assert_eq!(base_delay_ms(599), 20);
    assert_eq!(base_delay_ms(400), 30);
}

#[test]
fn base_delay_floor_binds_above_six_hundred() {
    assert_eq!(base_delay_ms(1000), 20);
    assert_eq!(base_delay_ms(12000), 20);
    assert_eq!(base_delay_ms(u32::MAX), 20);
}

#[test]
fn word_boundaries() {
    assert!(is_word_boundary(' '));
    assert!(is_word_boundary('\n'));
    assert!(is_word_boundary('\t'));
    assert!(is_word_boundary('.'));
    assert!(is_word_boundary('\\'));
    assert!(is_word_boundary('\u{A0}'));
    assert!(!is_word_boundary('a'));
    assert!(!is_word_boundary('_'));
}

#[test]
fn hands_on_qwerty() {
    assert_eq!(get_hand('a'), 0);
    assert_eq!(get_hand('A'), 0);
    assert_eq!(get_hand('j'), 1);
    assert_eq!(get_hand('P'), 1);
    assert_eq!(get_hand(' '), 2);
    assert_eq!(get_hand('\u{e9}'), 2);
}

#[test]
fn digraphs_ignore_case() {
    assert!(is_common_digraph('t', 'h'));
    assert!(is_common_digraph('T', 'H'));
    assert!(is_common_digraph('s', 'S'));
    assert!(!is_common_digraph('h', 't'));
    assert!(!is_common_digraph('q', 'z'));
}

#[test]
fn word_context_inside_a_word() {
    let chars: Vec<char> = "hello world".chars().collect();
    let ctx = WordContext::analyze(&chars, 8);
    assert_eq!(ctx.chars_in_word, 2);
    assert_eq!(ctx.word_length_estimate, 5);
    assert!(!ctx.is_word_start);
    assert!(!ctx.is_word_end);
}

#[test]
fn word_context_at_edges() {
    let chars: Vec<char> = "hello world".chars().collect();
    let start = WordContext::analyze(&chars, 6);
    assert!(start.is_word_start);
    assert_eq!(start.chars_in_word, 0);
    assert_eq!(start.word_length_estimate, 5);
    let last = WordContext::analyze(&chars, 10);
    assert!(last.is_word_end);
    assert_eq!(last.chars_in_word, 4);
    let space = WordContext::analyze(&chars, 5);
    assert!(!space.is_word_start);
    assert!(!space.is_word_end);
    assert_eq!(space.chars_in_word, 5);
    assert_eq!(space.word_length_estimate, 5);
    let past = WordContext::analyze(&chars, 11);
    assert_eq!(past.chars_in_word, 5);
    assert!(!past.is_word_start);
}

#[test]
fn variance_without_spread_keeps_delay() {
    assert_eq!(add_variance(120, 0, 5000), 120);
    assert_eq!(add_variance(0, 300_000, 5000), 0);
}

#[test]
fn variance_moves_by_deviation() {
    assert_eq!(add_variance(100, 300_000, 0), 100);
    assert_eq!(add_variance(100, 300_000, 1000), 130);
    assert_eq!(add_variance(100, 300_000, -1000), 70);
}

#[test]
fn variance_clamps_and_floors() {
    assert_eq!(add_variance(100, 300_000, 10_000), 200);
    assert_eq!(add_variance(100, 300_000, -10_000), 50);
    assert_eq!(add_variance(4, 1_000_000, 0), 10);
    assert_eq!(add_variance(100, 1_000_000, i64::MAX), 200);
    assert_eq!(add_variance(100, 1_000_000, i64::MIN), 50);
}

#[test]
fn delay_for_fixed_draws() {
    let cfg = Config::default();
    let chars: Vec<char> = "a".chars().collect();
    assert_eq!(delay_from_draws(&cfg, &chars, 0, 1, &zero_draws(), 0, 0), 1990);
}

#[test]
fn delay_without_burst_or_thinking() {
    let cfg = Config::default();
    let chars: Vec<char> = "a".chars().collect();
    let draws = DelayDraws { burst_roll: 999_999, thinking_roll: 999_999, ..zero_draws() };
    assert_eq!(delay_from_draws(&cfg, &chars, 0, 1, &draws, 0, 0), 279);
}

#[test]
fn delay_never_below_eight() {
    let cfg = Config { base_wpm: u32::MAX, wpm_variance: 1_000_000, ..Config::default() };
    let chars: Vec<char> = "the quick brown fox, then.\nend".chars().collect();
    for i in 0..chars.len() {
        assert!(calculate_delay_v2(&cfg, &chars, i, chars.len(), -3000, -3000) >= 8);
        assert!(delay_from_draws(&cfg, &chars, i, chars.len(), &zero_draws(), -9000, -9000) >= 8);
    }
}

#[test]
fn backspace_delay_is_seventy_percent() {
    let cfg = Config::default();
    assert_eq!(backspace_delay(&cfg, 0), 140);
    let fast = Config { base_wpm: 1000, ..Config::default() };
    assert_eq!(backspace_delay(&fast, 0), 14);
}

#[test]
fn notice_delay_in_range() {
    for _ in 0..200 {
        let d = notice_mistake_delay();
        assert!((50..500).contains(&d));
    }
}
