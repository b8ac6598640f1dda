use ghostkeys::mistakes::{
    decide_mistake, generate_mistake, neighbors, MistakeDraws, MistakeType,
};

fn draws(kind_roll: u32, neighbor_pick: u32) -> MistakeDraws {
    MistakeDraws { mistake_roll: 0, kind_roll, neighbor_pick }
}

#[test]
fn no_mistake_when_roll_misses() {
    let r = decide_mistake('a', Some('b'), 30_000, &MistakeDraws { mistake_roll: 30_000, kind_roll: 0, neighbor_pick: 0 });
    assert_eq!(r.chars_to_type, vec!['a']);
    assert!(!r.mistake_made);
    assert_eq!(r.chars_consumed, 1);
    assert_eq!(r.mistake_type, None);
}

#[test]
fn adjacent_key_keeps_case() {
    let r = decide_mistake('a', None, 1_000_000, &draws(0, 0));
    assert_eq!(r.chars_to_type, vec!['q']);
    assert_eq!(r.mistake_type, Some(MistakeType::AdjacentKey));
    let r = decide_mistake('A', None, 1_000_000, &draws(0, 2));
    assert_eq!(r.chars_to_type, vec!['S']);
    assert_eq!(r.chars_consumed, 1);
}

#[test]
fn adjacent_key_without_neighbours_types_correctly() {
    let r = decide_mistake('!', None, 1_000_000, &draws(0, 0));
    assert_eq!(r.chars_to_type, vec!['!']);
    assert!(!r.mistake_made);
}

#[test]
fn transposition_swaps() {
    let r = decide_mistake('a', Some('b'), 1_000_000, &draws(500_000, 0));
    assert_eq!(r.chars_to_type, vec!['b', 'a']);
    assert_eq!(r.chars_consumed, 2);
    assert_eq!(r.mistake_type, Some(MistakeType::Transposition));
}

#[test]
fn transposition_at_end_falls_back() {
    let r = decide_mistake('a', None, 1_000_000, &draws(500_000, 0));
    assert_eq!(r.chars_to_type, vec!['a']);
    assert_eq!(r.chars_consumed, 1);
    assert!(!r.mistake_made);
    assert_eq!(r.mistake_type, None);
}

#[test]
fn omission_types_nothing() {
    let r = decide_mistake('a', Some('b'), 1_000_000, &draws(700_000, 0));
    assert!(r.chars_to_type.is_empty());
    assert_eq!(r.chars_consumed, 1);
    assert_eq!(r.mistake_type, Some(MistakeType::Omission));
}

#[test]
fn double_tap_types_twice() {
    let r = decide_mistake('x', None, 1_000_000, &draws(800_000, 0));
    assert_eq!(r.chars_to_type, vec!['x', 'x']);
    assert_eq!(r.chars_consumed, 1);
}

#[test]
fn capitalization_flips_case() {
    let r = decide_mistake('a', None, 1_000_000, &draws(950_000, 0));
    assert_eq!(r.chars_to_type, vec!['A']);
    let r = decide_mistake('Q', None, 1_000_000, &draws(950_000, 0));
    assert_eq!(r.chars_to_type, vec!['q']);
    let r = decide_mistake('7', None, 1_000_000, &draws(950_000, 0));
    assert_eq!(r.chars_to_type, vec!['7']);
    assert!(!r.mistake_made);
}

#[test]
fn kinds_follow_weights() {
    assert_eq!(MistakeType::from_roll(0), MistakeType::AdjacentKey);
    assert_eq!(MistakeType::from_roll(399_999), MistakeType::AdjacentKey);
    assert_eq!(MistakeType::from_roll(400_000), MistakeType::Transposition);
    assert_eq!(MistakeType::from_roll(600_000), MistakeType::Omission);
    assert_eq!(MistakeType::from_roll(750_000), MistakeType::DoubleTap);
    assert_eq!(MistakeType::from_roll(900_000), MistakeType::Capitalization);
}

#[test]
fn neighbour_table() {
    assert_eq!(neighbors('s'), vec!['a', 'w', 'e', 'd', 'z', 'x']);
    assert_eq!(neighbors('0'), vec!['9', '-', 'o', 'p']);
    assert!(neighbors('!').is_empty());
}

#[test]
fn random_decisions_consume_within_text() {
    for _ in 0..500 {
        let r = generate_mistake('a', Some('b'), 1_000_000);
        assert!(r.chars_consumed >= 1 && r.chars_consumed <= 2);
        if r.mistake_type == Some(MistakeType::Omission) {
            assert!(r.chars_to_type.is_empty());
        }
        let last = generate_mistake('a', None, 1_000_000);
        assert_eq!(last.chars_consumed, 1);
        assert_ne!(last.mistake_type, Some(MistakeType::Transposition));
    }
}

#[test]
fn zero_rate_never_mistakes() {
    for _ in 0..200 {
        let r = generate_mistake('z', Some('y'), 0);
        assert_eq!(r.chars_to_type, vec!['z']);
        assert!(!r.mistake_made);
    }
}
