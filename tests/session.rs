use ghostkeys::config::{Config, TypingStatus};
use ghostkeys::engine::{
    handle_tray_pause_resume, handle_tray_start_stop, CountdownStep, EngineError, Keystroke,
    StartOutcome, Step, TypingEngine,
};

fn quiet_config() -> Config {
    Config { mistake_rate: 0, countdown_seconds: 0, ..Config::default() }
}

fn engine_with(text: &str, config: Config) -> TypingEngine {
    let mut e = TypingEngine::new();
    e.set_config(config);
    e.set_content(text.to_string(), "note.txt".to_string());
    e
}

fn started(e: &mut TypingEngine) -> u64 {
    match e.start() {
        Ok(StartOutcome::Started(id)) => id,
        other => panic!("unexpected start result {:?}", other),
    }
}

fn typed_chars(keys: &[Keystroke]) -> Vec<char> {
    keys.iter()
        .filter_map(|k| match k {
            Keystroke::Char(c) => Some(*c),
            _ => None,
        })
        .collect()
}

#[test]
fn fresh_session_is_idle() {
    let e = TypingEngine::new();
    assert_eq!(e.get_status(), TypingStatus::Idle);
    assert_eq!(e.get_file_name(), None);
    assert_eq!(e.get_config(), Config::default());
    let p = e.get_progress();
    assert_eq!((p.current, p.total, p.percent_hundredths), (0, 0, 0));
}

#[test]
fn three_characters_type_in_three_steps() {
    let mut e = engine_with("Hi.", quiet_config());
    let run = started(&mut e);
    assert_eq!(e.get_status(), TypingStatus::Countdown);
    assert_eq!(e.countdown_step(run), CountdownStep::Begin);
    assert_eq!(e.get_status(), TypingStatus::Typing);
    let mut iterations = 0;
    let mut typed = Vec::new();
    loop {
        match e.next_step(run, 0, 0, 0) {
            Step::Keys(it) => {
                iterations += 1;
                typed.extend(typed_chars(&it.keys));
                assert!(it.delay >= 8);
                e.complete_step(run);
            }
            Step::Finished => break,
            _ => panic!("unexpected step"),
        }
    }
    assert_eq!(iterations, 3);
    assert_eq!(typed, vec!['H', 'i', '.']);
    let p = e.get_progress();
    assert_eq!((p.current, p.total, p.percent_hundredths), (3, 3, 10000));
    assert_eq!(e.get_status(), TypingStatus::Done);
}

#[test]
fn countdown_ticks_down() {
    let cfg = Config { countdown_seconds: 3, ..quiet_config() };
    let mut e = engine_with("ab", cfg);
    let run = started(&mut e);
    assert_eq!(e.countdown_step(run), CountdownStep::Tick(3));
    assert_eq!(e.countdown_step(run), CountdownStep::Tick(2));
    assert_eq!(e.countdown_step(run), CountdownStep::Tick(1));
    assert_eq!(e.countdown_step(run), CountdownStep::Begin);
}

#[test]
fn stop_during_countdown_types_nothing() {
    let cfg = Config { countdown_seconds: 3, ..quiet_config() };
    let mut e = engine_with("Hello", cfg);
    let run = started(&mut e);
    e.stop();
    assert_eq!(e.countdown_step(run), CountdownStep::Stopped);
    assert!(matches!(e.next_step(run, 0, 0, 0), Step::Stopped));
    assert_eq!(e.get_status(), TypingStatus::Ready);
    let p = e.get_progress();
    assert_eq!((p.current, p.total, p.percent_hundredths), (0, 5, 0));
}

#[test]
fn pause_and_resume_keep_every_character() {
    let mut e = engine_with("pause me", quiet_config());
    let run = started(&mut e);
    assert_eq!(e.countdown_step(run), CountdownStep::Begin);
    let mut typed = Vec::new();
    let mut steps = 0;
    let mut paused_polls = 0;
    loop {
        if steps == 3 && paused_polls == 0 {
            e.pause();
            assert_eq!(e.get_status(), TypingStatus::Paused);
        }
        match e.next_step(run, 0, 0, 0) {
            Step::Keys(it) => {
                steps += 1;
                typed.extend(typed_chars(&it.keys));
                e.complete_step(run);
            }
            Step::Paused => {
                paused_polls += 1;
                if paused_polls == 2 {
                    e.resume();
                    assert_eq!(e.get_status(), TypingStatus::Typing);
                }
            }
            Step::Finished => break,
            Step::Stopped => panic!("run stopped"),
        }
    }
    assert_eq!(paused_polls, 2);
    assert_eq!(typed.iter().collect::<String>(), "pause me");
    assert_eq!(e.get_status(), TypingStatus::Done);
}

#[test]
fn start_while_paused_resumes() {
    let mut e = engine_with("abc", quiet_config());
    let run = started(&mut e);
    e.countdown_step(run);
    e.pause();
    assert_eq!(e.start(), Ok(StartOutcome::Resumed));
    assert_eq!(e.get_status(), TypingStatus::Typing);
    assert!(!e.is_paused());
}

#[test]
fn failure_on_fifth_character_keeps_cursor() {
    let mut e = engine_with("abcdefgh", quiet_config());
    let run = started(&mut e);
    e.countdown_step(run);
    let mut failures = 0;
    let mut attempts = 0;
    loop {
        match e.next_step(run, 0, 0, 0) {
            Step::Keys(_) => {
                attempts += 1;
                if attempts == 5 {
                    e.fail(run);
                    failures += 1;
                    break;
                }
                e.complete_step(run);
            }
            _ => panic!("unexpected step"),
        }
    }
    assert_eq!(failures, 1);
    assert_eq!(e.get_status(), TypingStatus::Error);
    assert_eq!(e.get_progress().current, 4);
    assert!(matches!(e.next_step(run, 0, 0, 0), Step::Stopped));
    assert_eq!(e.start(), Err(EngineError::InvalidState));
}

#[test]
fn start_rejections() {
    let mut empty = TypingEngine::new();
    assert_eq!(empty.start(), Err(EngineError::EmptyContent));
    assert_eq!(empty.get_status(), TypingStatus::Idle);
    let mut e = engine_with("abc", quiet_config());
    let run = started(&mut e);
    assert_eq!(e.start(), Err(EngineError::AlreadyRunning));
    e.countdown_step(run);
    assert_eq!(e.start(), Err(EngineError::AlreadyRunning));
}

#[test]
fn stop_clears_error() {
    let mut e = engine_with("abc", quiet_config());
    let run = started(&mut e);
    e.countdown_step(run);
    e.fail(run);
    e.stop();
    assert_eq!(e.get_status(), TypingStatus::Ready);
    assert!(e.start().is_ok());
}

#[test]
fn restart_replaces_the_old_run() {
    let mut e = engine_with("abc", quiet_config());
    let first = started(&mut e);
    e.stop();
    let second = started(&mut e);
    assert_ne!(first, second);
    assert_eq!(e.countdown_step(first), CountdownStep::Stopped);
    assert_eq!(e.countdown_step(second), CountdownStep::Begin);
    assert!(matches!(e.next_step(first, 0, 0, 0), Step::Stopped));
}

#[test]
fn progress_counts_characters_not_bytes() {
    let mut e = engine_with("\u{e9}t\u{e9}", quiet_config());
    let run = started(&mut e);
    e.countdown_step(run);
    if let Step::Keys(it) = e.next_step(run, 0, 0, 0) {
        assert_eq!(typed_chars(&it.keys), vec!['\u{e9}']);
    } else {
        panic!("expected keys");
    }
    e.complete_step(run);
    let p = e.get_progress();
    assert_eq!((p.current, p.total, p.percent_hundredths), (1, 3, 3333));
    let again = e.get_progress();
    assert_eq!(p, again);
}

#[test]
fn new_content_resets_cursor_but_not_the_run() {
    let mut e = engine_with("abcd", quiet_config());
    let run = started(&mut e);
    e.countdown_step(run);
    e.next_step(run, 0, 0, 0);
    e.complete_step(run);
    e.set_content("xy".to_string(), "other.txt".to_string());
    assert_eq!(e.get_progress().current, 0);
    assert_eq!(e.get_file_name(), Some("other.txt".to_string()));
    if let Step::Keys(it) = e.next_step(run, 0, 0, 0) {
        assert_eq!(typed_chars(&it.keys), vec!['b']);
    } else {
        panic!("expected keys");
    }
}

#[test]
fn config_change_waits_for_next_run() {
    let mut e = engine_with("ab", quiet_config());
    let run = started(&mut e);
    e.set_config(Config { countdown_seconds: 9, ..quiet_config() });
    assert_eq!(e.countdown_step(run), CountdownStep::Begin);
    assert_eq!(e.get_config().countdown_seconds, 9);
}

#[test]
fn corrected_mistakes_retype_the_source() {
    let cfg = Config { mistake_rate: 1_000_000, correction_rate: 1_000_000, ..quiet_config() };
    let mut e = engine_with("hello there", cfg);
    let run = started(&mut e);
    e.countdown_step(run);
    let mut screen: Vec<char> = Vec::new();
    loop {
        match e.next_step(run, 0, 0, 0) {
            Step::Keys(it) => {
                for k in &it.keys {
                    match k {
                        Keystroke::Char(c) => screen.push(*c),
                        Keystroke::Backspace => {
                            screen.pop();
                        }
                        Keystroke::Wait(_) => {}
                    }
                }
                e.complete_step(run);
            }
            Step::Finished => break,
            _ => panic!("unexpected step"),
        }
    }
    assert_eq!(screen.iter().collect::<String>(), "hello there");
}

#[test]
fn progress_strictly_increases_with_mistakes() {
    let cfg = Config { mistake_rate: 1_000_000, correction_rate: 0, ..quiet_config() };
    let mut e = TypingEngine::default();
    e.set_config(cfg);
    e.set_content("abcdefghij".to_string(), "x".to_string());
    let run = started(&mut e);
    e.countdown_step(run);
    let mut seen = vec![e.get_progress().current];
    loop {
        match e.next_step(run, 0, 0, 0) {
            Step::Keys(it) => {
                assert!(it.decision.chars_consumed >= 1);
                e.complete_step(run);
                seen.push(e.get_progress().current);
            }
            Step::Finished => break,
            _ => panic!("unexpected step"),
        }
    }
    assert!(seen.windows(2).all(|w| w[0] < w[1]));
    assert_eq!(*seen.last().unwrap(), 10);
}

#[test]
fn tray_controls_toggle() {
    let mut e = engine_with("abc", quiet_config());
    assert_eq!(handle_tray_start_stop(&mut e), None);
    assert_eq!(e.get_status(), TypingStatus::Idle);
    e.set_status(TypingStatus::Ready);
    let run = handle_tray_start_stop(&mut e).expect("a run starts");
    assert_eq!(e.get_status(), TypingStatus::Countdown);
    e.countdown_step(run);
    handle_tray_pause_resume(&mut e);
    assert_eq!(e.get_status(), TypingStatus::Paused);
    handle_tray_pause_resume(&mut e);
    assert_eq!(e.get_status(), TypingStatus::Typing);
    assert_eq!(handle_tray_start_stop(&mut e), None);
    assert_eq!(e.get_status(), TypingStatus::Ready);
    assert!(e.is_stopped());
}
