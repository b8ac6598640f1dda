//! The typing session: lifecycle, pause and stop signals, and the plan of
//! keystrokes for each step. The caller performs the keystrokes and the
//! waits, and reports back; every decision is taken here.
use vstd::prelude::*;

use crate::config::{Config, TypingProgress, TypingStatus, PPM_ONE};
use crate::mistakes::{decision_spec, generate_mistake, MistakeDraws, MistakeResult};
use crate::random::random_below;
use crate::text::chars_of;
use crate::timing::{
    backspace_delay, backspace_delay_spec, calculate_delay_v2, delay_spec, notice_mistake_delay,
    DelayDraws,
};

verus! {

/// Why a request or a run failed.
#[derive(Clone, Copy, Debug, PartialEq, Eq, Structural)]
pub enum EngineError {
    /// Start requested while counting down or typing.
    AlreadyRunning,
    /// Start requested in the error state.
    InvalidState,
    /// Start requested with nothing to type.
    EmptyContent,
    /// The key-injection capability failed.
    CapabilityFailure,
    /// The worker running the session failed.
    TaskFailure,
}

/// How a successful start went.
#[derive(Clone, Copy, Debug, PartialEq, Eq, Structural)]
pub enum StartOutcome {
    /// A new run began its countdown; the number identifies the run.
    Started(u64),
    /// A paused run goes on.
    Resumed,
}

/// One thing for the caller to do.
#[derive(Clone, Copy, Debug, PartialEq, Eq, Structural)]
pub enum Keystroke {
    /// Type a character.
    Char(char),
    /// Press backspace.
    Backspace,
    /// Wait this many milliseconds.
    Wait(u64),
}

/// A step of the countdown.
#[derive(Clone, Copy, Debug, PartialEq, Eq, Structural)]
pub enum CountdownStep {
    /// Announce the seconds left, then wait one second.
    Tick(u32),
    /// The countdown is over: typing has begun.
    Begin,
    /// The run was stopped or replaced: end it.
    Stopped,
}

/// The keystrokes of one step, and the wait after it.
pub struct Iteration {
    pub keys: Vec<Keystroke>,
    /// What the mistake model decided for this step.
    pub decision: MistakeResult,
    /// The character's delay, in milliseconds.
    pub delay: u64,
}

/// A step of the main loop.
pub enum Step {
    /// Perform these keystrokes, then report with `complete_step` or `fail`.
    Keys(Iteration),
    /// Paused: wait for a resume or a stop, then ask again.
    Paused,
    /// Every character is typed: the status is `Done`.
    Finished,
    /// The run was stopped or replaced: end it.
    Stopped,
}

/// The `j`-th keystroke of typing `s` with a wait of `gap` after each
/// character.
pub open spec fn typing_key_at(s: Seq<char>, gap: u64, j: int) -> Keystroke {
    if j % 2 == 0 {
        Keystroke::Char(s[j / 2])
    } else {
        Keystroke::Wait(gap)
    }
}

/// Typing `s`: each character followed by a wait of `gap`.
pub open spec fn typing_keys(s: Seq<char>, gap: u64) -> Seq<Keystroke> {
    Seq::new(2 * s.len(), |j: int| typing_key_at(s, gap, j))
}

/// The `j`-th keystroke of backspaces each followed by a wait of `gap`.
pub open spec fn backspace_key_at(gap: u64, j: int) -> Keystroke {
    if j % 2 == 0 {
        Keystroke::Backspace
    } else {
        Keystroke::Wait(gap)
    }
}

/// `n` backspaces, each followed by a wait of `gap` when it is positive.
pub open spec fn backspace_keys(n: nat, gap: u64) -> Seq<Keystroke> {
    if gap > 0 {
        Seq::new(2 * n, |j: int| backspace_key_at(gap, j))
    } else {
        Seq::new(n, |j: int| Keystroke::Backspace)
    }
}

/// The keystrokes of a step at `i`: what the decision types, at half the
/// delay apart; then, for a mistake that is corrected, a wait to notice it,
/// one backspace per typed character and the consumed source characters
/// typed again at the full delay apart.
pub open spec fn plan_spec(
    chars: Seq<char>,
    i: int,
    typed: Seq<char>,
    made: bool,
    consumed: nat,
    delay: u64,
    correct: bool,
    notice: u64,
    backspace_gap: u64,
) -> Seq<Keystroke> {
    let first = typing_keys(typed, delay / 2);
    if made && correct {
        first + seq![Keystroke::Wait(notice)] + backspace_keys(typed.len(), backspace_gap)
            + typing_keys(chars.subrange(i, i + consumed), delay)
    } else {
        first
    }
}

/// Pushing after a concatenation pushes onto its second part.
proof fn lemma_append_pushes<A>(a: Seq<A>, b: Seq<A>, x: A, y: A)
    ensures
        (a + b).push(x).push(y) == a + b.push(x).push(y),
{
    assert((a + b).push(x).push(y) =~= a + b.push(x).push(y));
}

/// Typing one more character appends it and its wait.
proof fn lemma_typing_keys_push(s: Seq<char>, from: int, k: int, gap: u64, c: char)
    requires
        0 <= from <= k < s.len(),
        c == s[k],
    ensures
        typing_keys(s.subrange(from, k + 1), gap) == typing_keys(s.subrange(from, k), gap).push(
            Keystroke::Char(c),
        ).push(Keystroke::Wait(gap)),
{
    let prev = typing_keys(s.subrange(from, k), gap);
    let next = typing_keys(s.subrange(from, k + 1), gap);
    let sub0 = s.subrange(from, k);
    let sub1 = s.subrange(from, k + 1);
    let tail = Seq::<Keystroke>::empty().push(Keystroke::Char(c)).push(Keystroke::Wait(gap));
    let m = k - from;
    assert(prev.len() == 2 * m);
    assert(next.len() == 2 * m + 2);
    assert(tail.len() == 2);
    assert forall|j: int| 0 <= j < next.len() implies #[trigger] next[j] == (prev + tail)[j] by {
        assert(next[j] == typing_key_at(sub1, gap, j));
        if j < 2 * m {
            assert(j / 2 < m) by (nonlinear_arith)
                requires
                    0 <= j < 2 * m,
            ;
            assert(prev[j] == typing_key_at(sub0, gap, j));
            assert(sub1[j / 2] == sub0[j / 2]);
            assert(typing_key_at(sub1, gap, j) == typing_key_at(sub0, gap, j));
            assert((prev + tail)[j] == prev[j]);
        } else if j == 2 * m {
            assert(j / 2 == m && j % 2 == 0) by (nonlinear_arith)
                requires
                    j == 2 * m,
            ;
            assert(sub1[m] == s[k]);
            assert((prev + tail)[j] == tail[0]);
        } else {
            assert(j % 2 == 1) by (nonlinear_arith)
                requires
                    j == 2 * m + 1,
            ;
            assert((prev + tail)[j] == tail[1]);
        }
    }
    assert(next =~= prev + tail);
    assert(prev + tail =~= prev.push(Keystroke::Char(c)).push(Keystroke::Wait(gap)));
}

/// One step of typing after a prefix `o`.
proof fn lemma_typing_step(o: Seq<Keystroke>, s: Seq<char>, from: int, k: int, gap: u64, c: char)
    requires
        0 <= from <= k < s.len(),
        c == s[k],
    ensures
        (o + typing_keys(s.subrange(from, k), gap)).push(Keystroke::Char(c)).push(
            Keystroke::Wait(gap),
        ) == o + typing_keys(s.subrange(from, k + 1), gap),
{
    lemma_typing_keys_push(s, from, k, gap, c);
    lemma_append_pushes(
        o,
        typing_keys(s.subrange(from, k), gap),
        Keystroke::Char(c),
        Keystroke::Wait(gap),
    );
}

/// Appends the typing of `s[from..to]`, each character followed by `gap`.
fn push_typing(out: &mut Vec<Keystroke>, s: &Vec<char>, from: usize, to: usize, gap: u64)
    requires
        from <= to <= s@.len(),
    ensures
        final(out)@ == old(out)@ + typing_keys(s@.subrange(from as int, to as int), gap),
{
    let mut k: usize = from;
    assert(typing_keys(s@.subrange(from as int, from as int), gap) =~= Seq::<Keystroke>::empty());
    assert(out@ =~= old(out)@ + typing_keys(s@.subrange(from as int, from as int), gap));
    while k < to
        invariant
            from <= k <= to <= s@.len(),
            out@ == old(out)@ + typing_keys(s@.subrange(from as int, k as int), gap),
        decreases to - k,
    {
        let c = s[k];
        out.push(Keystroke::Char(c));
        out.push(Keystroke::Wait(gap));
        proof {
            lemma_typing_step(old(out)@, s@, from as int, k as int, gap, c);
        }
        k += 1;
    }
}

/// Appends `n` backspaces, each followed by `gap` when it is positive.
fn push_backspaces(out: &mut Vec<Keystroke>, n: usize, gap: u64)
    ensures
        final(out)@ == old(out)@ + backspace_keys(n as nat, gap),
{
    let mut k: usize = 0;
    assert(out@ =~= old(out)@ + backspace_keys(0, gap));
    while k < n
        invariant
            k <= n,
            out@ == old(out)@ + backspace_keys(k as nat, gap),
        decreases n - k,
    {
        out.push(Keystroke::Backspace);
        if gap > 0 {
            out.push(Keystroke::Wait(gap));
        }
        proof {
            let prev = backspace_keys(k as nat, gap);
            let next = backspace_keys((k + 1) as nat, gap);
            let tail = if gap > 0 {
                seq![Keystroke::Backspace, Keystroke::Wait(gap)]
            } else {
                seq![Keystroke::Backspace]
            };
            assert(next =~= prev + tail);
            assert(out@ =~= old(out)@ + next);
        }
        k += 1;
    }
}

/// The keystrokes of a step at `i` for a decision, a delay and the
/// correction choices.
pub fn plan_iteration(
    chars: &Vec<char>,
    i: usize,
    decision: &MistakeResult,
    delay: u64,
    correct: bool,
    notice: u64,
    backspace_gap: u64,
) -> (r: Vec<Keystroke>)
    requires
        i + decision.chars_consumed <= chars@.len(),
    ensures
        r@ == plan_spec(
            chars@,
            i as int,
            decision.chars_to_type@,
            decision.mistake_made,
            decision.chars_consumed as nat,
            delay,
            correct,
            notice,
            backspace_gap,
        ),
{
    let n = chars.len();
    let mut out: Vec<Keystroke> = Vec::new();
    let typed = &decision.chars_to_type;
    push_typing(&mut out, typed, 0, typed.len(), delay / 2);
    assert(typed@.subrange(0, typed@.len() as int) =~= typed@);
    if decision.mistake_made && correct {
        out.push(Keystroke::Wait(notice));
        push_backspaces(&mut out, typed.len(), backspace_gap);
        push_typing(&mut out, chars, i, i + decision.chars_consumed, delay);
        assert(out@ =~= plan_spec(
            chars@,
            i as int,
            typed@,
            decision.mistake_made,
            decision.chars_consumed as nat,
            delay,
            correct,
            notice,
            backspace_gap,
        ));
    }
    out
}

/// The session as values.
pub struct EngineView {
    pub status: TypingStatus,
    pub config: Config,
    pub content: Seq<char>,
    pub file_name: Option<Seq<char>>,
    /// The published cursor, which progress reports.
    pub current_index: nat,
    pub stop: bool,
    pub pause: bool,
    /// The text of the current run, captured when it started.
    pub run_chars: Seq<char>,
    /// The configuration of the current run, captured when it started.
    pub run_config: Config,
    /// The run's own cursor into `run_chars`.
    pub run_cursor: nat,
    /// Characters the step handed out last will consume once completed.
    pub pending: nat,
    pub countdown_left: nat,
    pub run_id: u64,
}

impl EngineView {
    /// Valid configurations, and cursors within the run's text.
    pub open spec fn wf(self) -> bool {
        &&& self.config.wf()
        &&& self.run_config.wf()
        &&& self.run_cursor + self.pending <= self.run_chars.len()
        &&& self.current_index <= self.run_cursor
    }
}

/// The identifier of the run after `id`.
pub open spec fn next_run_id(id: u64) -> u64 {
    if id == u64::MAX {
        0
    } else {
        (id + 1) as u64
    }
}

/// `start`: rejected while counting down or typing, and in the error
/// state; a paused run resumes; otherwise a run with the current text and
/// configuration begins its countdown, unless the text is empty.
pub open spec fn start_spec(v: EngineView) -> (EngineView, Result<StartOutcome, EngineError>) {
    match v.status {
        TypingStatus::Typing | TypingStatus::Countdown => (v, Err(EngineError::AlreadyRunning)),
        TypingStatus::Error => (v, Err(EngineError::InvalidState)),
        TypingStatus::Paused => (
            EngineView { status: TypingStatus::Typing, pause: false, ..v },
            Ok(StartOutcome::Resumed),
        ),
        _ => if v.content.len() == 0 {
            (v, Err(EngineError::EmptyContent))
        } else {
            let id = next_run_id(v.run_id);
            (
                EngineView {
                    status: TypingStatus::Countdown,
                    stop: false,
                    pause: false,
                    current_index: 0,
                    run_chars: v.content,
                    run_config: v.config,
                    run_cursor: 0,
                    pending: 0,
                    countdown_left: v.config.countdown_seconds as nat,
                    run_id: id,
                    ..v
                },
                Ok(StartOutcome::Started(id)),
            )
        },
    }
}

/// Whether a status belongs to a run in flight.
pub open spec fn is_active(s: TypingStatus) -> bool {
    s == TypingStatus::Countdown || s == TypingStatus::Typing || s == TypingStatus::Paused
}

/// `stop`: raises the stop signal and lowers the pause signal; a run in
/// flight, or an error, gives way to `Ready`.
pub open spec fn stop_spec(v: EngineView) -> EngineView {
    EngineView {
        stop: true,
        pause: false,
        status: if is_active(v.status) || v.status == TypingStatus::Error {
            TypingStatus::Ready
        } else {
            v.status
        },
        ..v
    }
}

/// `pause`: only a typing run pauses.
pub open spec fn pause_spec(v: EngineView) -> EngineView {
    if v.status == TypingStatus::Typing {
        EngineView { status: TypingStatus::Paused, pause: true, ..v }
    } else {
        v
    }
}

/// `resume`: only a paused run resumes.
pub open spec fn resume_spec(v: EngineView) -> EngineView {
    if v.status == TypingStatus::Paused {
        EngineView { status: TypingStatus::Typing, pause: false, ..v }
    } else {
        v
    }
}

/// One countdown step of run `run`.
pub open spec fn countdown_spec(v: EngineView, run: u64) -> (EngineView, CountdownStep) {
    if run != v.run_id || v.status != TypingStatus::Countdown {
        (v, CountdownStep::Stopped)
    } else if v.stop {
        (EngineView { status: TypingStatus::Ready, ..v }, CountdownStep::Stopped)
    } else if v.countdown_left > 0 {
        (
            EngineView { countdown_left: (v.countdown_left - 1) as nat, ..v },
            CountdownStep::Tick(v.countdown_left as u32),
        )
    } else {
        (EngineView { status: TypingStatus::Typing, ..v }, CountdownStep::Begin)
    }
}

/// Completing the pending step of run `run` advances its cursor by what the
/// step consumed and publishes it.
pub open spec fn complete_spec(v: EngineView, run: u64) -> EngineView {
    if run == v.run_id && v.pending > 0 {
        let c = v.run_cursor + v.pending;
        EngineView { run_cursor: c, current_index: c, pending: 0, ..v }
    } else {
        v
    }
}

/// A failure of run `run` puts the session in the error state; the cursor
/// stays where the failed step began.
pub open spec fn fail_spec(v: EngineView, run: u64) -> EngineView {
    if run == v.run_id {
        EngineView { status: TypingStatus::Error, pending: 0, ..v }
    } else {
        v
    }
}

/// Progress: the published cursor (at most the total) out of the number of
/// characters in the text, both capped at `u32::MAX`, and the share in
/// hundredths of a percent, rounded down; zero for an empty text.
pub open spec fn progress_spec(v: EngineView) -> TypingProgress {
    let total: nat = if v.content.len() > u32::MAX {
        u32::MAX as nat
    } else {
        v.content.len()
    };
    let current: nat = if v.current_index > total {
        total
    } else {
        v.current_index
    };
    TypingProgress {
        current: current as u32,
        total: total as u32,
        percent_hundredths: if total > 0 {
            (current * 10000 / total) as u32
        } else {
            0
        },
    }
}

/// The character after position `i`, if any.
pub open spec fn next_of(chars: Seq<char>, i: int) -> Option<char> {
    if i + 1 < chars.len() {
        Some(chars[i + 1])
    } else {
        None
    }
}

/// What a step at the run's cursor hands out: a decision of the mistake
/// model for the current character, the character's delay, and the plan of
/// keystrokes for both, for some draws of the random sources.
pub open spec fn iteration_spec(
    v: EngineView,
    keys: Seq<Keystroke>,
    decision: MistakeResult,
    delay: u64,
    thinking_deviation: i64,
    variance_deviation: i64,
    backspace_deviation: i64,
) -> bool {
    let chars = v.run_chars;
    let i = v.run_cursor as int;
    let cfg = v.run_config;
    &&& exists|d: MistakeDraws|
        d.wf() && decision.is(decision_spec(chars[i], next_of(chars, i), cfg.mistake_rate, d))
    &&& exists|dr: DelayDraws|
        dr.wf() && delay as nat == delay_spec(
            cfg,
            chars,
            i,
            chars.len() as int,
            dr,
            thinking_deviation as int,
            variance_deviation as int,
        )
    &&& exists|correct: bool, notice: u64|
        50 <= notice < 500 && keys == #[trigger] plan_spec(
            chars,
            i,
            decision.chars_to_type@,
            decision.mistake_made,
            decision.chars_consumed as nat,
            delay,
            correct,
            notice,
            backspace_delay_spec(cfg, backspace_deviation as int) as u64,
        )
    &&& 1 <= decision.chars_consumed
    &&& i + decision.chars_consumed <= chars.len()
    &&& delay >= 8
}

/// Completing a step moves the run's cursor by exactly what the step
/// consumed, which is at least one character, publishes that cursor, and
/// never passes the end of the text.
pub proof fn law_cursor_advance(v: EngineView, run: u64)
    requires
        v.wf(),
        run == v.run_id,
        v.pending >= 1,
    ensures
        complete_spec(v, run).run_cursor == v.run_cursor + v.pending,
        complete_spec(v, run).current_index == v.run_cursor + v.pending,
        complete_spec(v, run).run_cursor <= v.run_chars.len(),
        complete_spec(v, run).wf(),
{
}

/// Reading progress twice with no change in between gives the same values.
pub proof fn law_progress_reads_agree(v1: EngineView, v2: EngineView)
    requires
        v1 == v2,
    ensures
        progress_spec(v1) == progress_spec(v2),
{
}

/// Within a run, each completed step publishes a strictly greater cursor,
/// and the progress it reports does not go back; while the text is the one
/// the run captured, reported progress strictly increases.
pub proof fn law_progress_increases(v: EngineView, run: u64)
    requires
        v.wf(),
        run == v.run_id,
        v.pending >= 1,
    ensures
        complete_spec(v, run).current_index > v.current_index,
        progress_spec(complete_spec(v, run)).current >= progress_spec(v).current,
        v.content == v.run_chars && v.run_chars.len() <= u32::MAX ==> progress_spec(
            complete_spec(v, run),
        ).current > progress_spec(v).current,
{
}

/// The state of one typing session.
pub struct TypingEngine {
    status: TypingStatus,
    config: Config,
    content: Vec<char>,
    file_name: Option<String>,
    current_index: usize,
    stop_signal: bool,
    pause_signal: bool,
    run_chars: Vec<char>,
    run_config: Config,
    run_cursor: usize,
    pending: usize,
    countdown_left: u32,
    run_id: u64,
}

impl View for TypingEngine {
    type V = EngineView;

    closed spec fn view(&self) -> EngineView {
        EngineView {
            status: self.status,
            config: self.config,
            content: self.content@,
            file_name: match self.file_name {
                Some(f) => Some(f@),
                None => None,
            },
            current_index: self.current_index as nat,
            stop: self.stop_signal,
            pause: self.pause_signal,
            run_chars: self.run_chars@,
            run_config: self.run_config,
            run_cursor: self.run_cursor as nat,
            pending: self.pending as nat,
            countdown_left: self.countdown_left as nat,
            run_id: self.run_id,
        }
    }
}

impl TypingEngine {
    /// A fresh session: idle, default configuration, no text.
    pub fn new() -> (r: Self)
        ensures
            r@.wf(),
            r@.status == TypingStatus::Idle,
            r@.config == r@.run_config,
            r@.config.base_wpm == 60,
            r@.content.len() == 0,
            r@.file_name is None,
            r@.current_index == 0,
            !r@.stop,
            !r@.pause,
            r@.run_chars.len() == 0,
            r@.run_cursor == 0,
            r@.pending == 0,
            r@.run_id == 0,
    {
        let config = Config::default();
        TypingEngine {
            status: TypingStatus::Idle,
            config,
            content: Vec::new(),
            file_name: None,
            current_index: 0,
            stop_signal: false,
            pause_signal: false,
            run_chars: Vec::new(),
            run_config: config,
            run_cursor: 0,
            pending: 0,
            countdown_left: 0,
            run_id: 0,
        }
    }

    pub fn get_status(&self) -> (r: TypingStatus)
        ensures
            r == self@.status,
    {
        self.status
    }

    /// Sets the status as it stands, with nothing else changed.
    pub fn set_status(&mut self, status: TypingStatus)
        ensures
            final(self)@ == (EngineView { status, ..old(self)@ }),
    {
        self.status = status;
    }

    pub fn get_config(&self) -> (r: Config)
        ensures
            r == self@.config,
    {
        self.config
    }

    /// Replaces the configuration for future runs; a run in flight keeps
    /// the one it captured.
    pub fn set_config(&mut self, config: Config)
        requires
            config.wf(),
            old(self)@.wf(),
        ensures
            final(self)@ == (EngineView { config, ..old(self)@ }),
            final(self)@.wf(),
    {
        self.config = config;
    }

    /// Replaces the text and its label and resets the published cursor; a
    /// run in flight keeps the text it captured.
    pub fn set_content(&mut self, content: String, file_name: String)
        requires
            old(self)@.wf(),
        ensures
            final(self)@ == (EngineView {
                content: content@,
                file_name: Some(file_name@),
                current_index: 0,
                ..old(self)@
            }),
            final(self)@.wf(),
    {
        self.content = chars_of(content.as_str());
        self.file_name = Some(file_name);
        self.current_index = 0;
    }

    pub fn get_file_name(&self) -> (r: Option<String>)
        ensures
            match r {
                Some(f) => self@.file_name == Some(f@),
                None => self@.file_name is None,
            },
    {
        match &self.file_name {
            Some(f) => Some(f.clone()),
            None => None,
        }
    }

    /// Where the session stands; reading it changes nothing.
    pub fn get_progress(&self) -> (r: TypingProgress)
        ensures
            r == progress_spec(self@),
            r.current <= r.total,
            r.percent_hundredths <= 10000,
    {
        let len = self.content.len();
        let total: u32 = if len > u32::MAX as usize {
            u32::MAX
        } else {
            len as u32
        };
        let current: u32 = if self.current_index > total as usize {
            total
        } else {
            self.current_index as u32
        };
        let percent: u32 = if total > 0 {
            proof {
                assert((current as int) * 10000 <= (total as int) * 10000) by (nonlinear_arith)
                    requires
                        current <= total,
                ;
                assert((current as int) * 10000 / (total as int) <= 10000) by (nonlinear_arith)
                    requires
                        (current as int) * 10000 <= (total as int) * 10000,
                        total > 0,
                ;
            }
            ((current as u64) * 10000 / (total as u64)) as u32
        } else {
            0
        };
        TypingProgress { current, total, percent_hundredths: percent }
    }

    /// Asks the run to stop.
    pub fn stop(&mut self)
        ensures
            final(self)@ == stop_spec(old(self)@),
    {
        self.stop_signal = true;
        self.pause_signal = false;
        match self.status {
            TypingStatus::Countdown | TypingStatus::Typing | TypingStatus::Paused
            | TypingStatus::Error => {
                self.status = TypingStatus::Ready;
            },
            _ => {},
        }
    }

    /// Pauses a typing run.
    pub fn pause(&mut self)
        ensures
            final(self)@ == pause_spec(old(self)@),
    {
        if self.status == TypingStatus::Typing {
            self.status = TypingStatus::Paused;
            self.pause_signal = true;
        }
    }

    /// Resumes a paused run.
    pub fn resume(&mut self)
        ensures
            final(self)@ == resume_spec(old(self)@),
    {
        if self.status == TypingStatus::Paused {
            self.status = TypingStatus::Typing;
            self.pause_signal = false;
        }
    }

    pub fn is_stopped(&self) -> (r: bool)
        ensures
            r == self@.stop,
    {
        self.stop_signal
    }

    pub fn is_paused(&self) -> (r: bool)
        ensures
            r == self@.pause,
    {
        self.pause_signal
    }

    /// Starts a run, or resumes a paused one.
    pub fn start(&mut self) -> (r: Result<StartOutcome, EngineError>)
        requires
            old(self)@.wf(),
        ensures
            (final(self)@, r) == start_spec(old(self)@),
            final(self)@.wf(),
    {
        match self.status {
            TypingStatus::Typing | TypingStatus::Countdown => Err(EngineError::AlreadyRunning),
            TypingStatus::Error => Err(EngineError::InvalidState),
            TypingStatus::Paused => {
                self.status = TypingStatus::Typing;
                self.pause_signal = false;
                Ok(StartOutcome::Resumed)
            },
            _ => {
                if self.content.len() == 0 {
                    return Err(EngineError::EmptyContent);
                }
                let id = if self.run_id == u64::MAX {
                    0
                } else {
                    self.run_id + 1
                };
                self.status = TypingStatus::Countdown;
                self.stop_signal = false;
                self.pause_signal = false;
                self.current_index = 0;
                self.run_chars = self.content.clone();
                self.run_config = self.config;
                self.run_cursor = 0;
                self.pending = 0;
                self.countdown_left = self.config.countdown_seconds;
                self.run_id = id;
                Ok(StartOutcome::Started(id))
            },
        }
    }

    /// One step of the countdown of run `run`.
    pub fn countdown_step(&mut self, run: u64) -> (r: CountdownStep)
        requires
            old(self)@.wf(),
        ensures
            (final(self)@, r) == countdown_spec(old(self)@, run),
            final(self)@.wf(),
    {
        if run != self.run_id || self.status != TypingStatus::Countdown {
            CountdownStep::Stopped
        } else if self.stop_signal {
            self.status = TypingStatus::Ready;
            CountdownStep::Stopped
        } else if self.countdown_left > 0 {
            let left = self.countdown_left;
            self.countdown_left = left - 1;
            CountdownStep::Tick(left)
        } else {
            self.status = TypingStatus::Typing;
            CountdownStep::Begin
        }
    }

    /// The next step of run `run`: an end when the run was replaced or
    /// stopped, a wait while paused, the end of the text, or the keystrokes
    /// for the character at the cursor. The deviations are standard-normal
    /// draws, in thousandths, for the thinking pause, the delay's variance
    /// and the backspace delay's variance.
    pub fn next_step(
        &mut self,
        run: u64,
        thinking_deviation: i64,
        variance_deviation: i64,
        backspace_deviation: i64,
    ) -> (r: Step)
        requires
            old(self)@.wf(),
        ensures
            final(self)@.wf(),
            ({
                let v = old(self)@;
                if run != v.run_id {
                    r is Stopped && final(self)@ == v
                } else if v.stop {
                    r is Stopped && final(self)@ == (EngineView {
                        status: if is_active(v.status) {
                            TypingStatus::Ready
                        } else {
                            v.status
                        },
                        ..v
                    })
                } else if v.pause {
                    r is Paused && final(self)@ == v
                } else if v.status != TypingStatus::Typing {
                    r is Stopped && final(self)@ == v
                } else if v.run_cursor >= v.run_chars.len() {
                    r is Finished && final(self)@ == (EngineView { status: TypingStatus::Done, ..v })
                } else {
                    match r {
                        Step::Keys(it) => iteration_spec(
                            v,
                            it.keys@,
                            it.decision,
                            it.delay,
                            thinking_deviation,
                            variance_deviation,
                            backspace_deviation,
                        ) && final(self)@ == (EngineView {
                            pending: it.decision.chars_consumed as nat,
                            ..v
                        }),
                        _ => false,
                    }
                }
            }),
    {
        if run != self.run_id {
            return Step::Stopped;
        }
        if self.stop_signal {
            match self.status {
                TypingStatus::Countdown | TypingStatus::Typing | TypingStatus::Paused => {
                    self.status = TypingStatus::Ready;
                },
                _ => {},
            }
            return Step::Stopped;
        }
        if self.pause_signal {
            return Step::Paused;
        }
        if self.status != TypingStatus::Typing {
            return Step::Stopped;
        }
        let len = self.run_chars.len();
        let i = self.run_cursor;
        if i >= len {
            self.status = TypingStatus::Done;
            return Step::Finished;
        }
        let cfg = self.run_config;
        let current = self.run_chars[i];
        let next = if i + 1 < len {
            Some(self.run_chars[i + 1])
        } else {
            None
        };
        let delay = calculate_delay_v2(
            &cfg,
            self.run_chars.as_slice(),
            i,
            len,
            thinking_deviation,
            variance_deviation,
        );
        let decision = generate_mistake(current, next, cfg.mistake_rate);
        let correct = random_below(PPM_ONE) < cfg.correction_rate;
        let notice = notice_mistake_delay();
        let gap = backspace_delay(&cfg, backspace_deviation);
        let keys = plan_iteration(&self.run_chars, i, &decision, delay, correct, notice, gap);
        self.pending = decision.chars_consumed;
        proof {
            let v = old(self)@;
            assert(current == v.run_chars[i as int]);
            assert(next == next_of(v.run_chars, i as int));
            assert(gap as nat == backspace_delay_spec(cfg, backspace_deviation as int));
            assert(keys@ == plan_spec(
                v.run_chars,
                i as int,
                decision.chars_to_type@,
                decision.mistake_made,
                decision.chars_consumed as nat,
                delay,
                correct,
                notice,
                backspace_delay_spec(cfg, backspace_deviation as int) as u64,
            ));
        }
        Step::Keys(Iteration { keys, decision, delay })
    }

    /// Commits the step of run `run` that was performed in full.
    pub fn complete_step(&mut self, run: u64)
        requires
            old(self)@.wf(),
        ensures
            final(self)@ == complete_spec(old(self)@, run),
            final(self)@.wf(),
    {
        let _len = self.run_chars.len();
        if run == self.run_id && self.pending > 0 {
            let c = self.run_cursor + self.pending;
            self.run_cursor = c;
            self.current_index = c;
            self.pending = 0;
        }
    }

    /// Records that run `run` failed: the key-injection capability or the
    /// worker gave out.
    pub fn fail(&mut self, run: u64)
        requires
            old(self)@.wf(),
        ensures
            final(self)@ == fail_spec(old(self)@, run),
            final(self)@.wf(),
    {
        if run == self.run_id {
            self.status = TypingStatus::Error;
            self.pending = 0;
        }
    }
}


impl Default for TypingEngine {
    fn default() -> (r: Self)
        ensures
            r@.wf(),
            r@.status == TypingStatus::Idle,
            r@.content.len() == 0,
            r@.current_index == 0,
    {
        TypingEngine::new()
    }
}

/// The start/stop control: a run in flight stops; a ready or finished
/// session starts a run (its identifier is returned when one began); an idle
/// or failed session is left alone.
pub fn handle_tray_start_stop(engine: &mut TypingEngine) -> (r: Option<u64>)
    requires
        old(engine)@.wf(),
    ensures
        final(engine)@.wf(),
        is_active(old(engine)@.status) ==> r is None && final(engine)@ == stop_spec(old(engine)@),
        (old(engine)@.status == TypingStatus::Ready || old(engine)@.status == TypingStatus::Done)
            ==> ({
            let (v, s) = start_spec(old(engine)@);
            &&& final(engine)@ == v
            &&& r == match s {
                Ok(StartOutcome::Started(id)) => Some(id),
                _ => None,
            }
        }),
        (old(engine)@.status == TypingStatus::Idle || old(engine)@.status == TypingStatus::Error)
            ==> r is None && final(engine)@ == old(engine)@,
{
    match engine.get_status() {
        TypingStatus::Typing | TypingStatus::Countdown | TypingStatus::Paused => {
            engine.stop();
            None
        },
        TypingStatus::Ready | TypingStatus::Done => match engine.start() {
            Ok(StartOutcome::Started(id)) => Some(id),
            _ => None,
        },
        _ => None,
    }
}

/// The pause/resume control: a typing run pauses, a paused one resumes.
pub fn handle_tray_pause_resume(engine: &mut TypingEngine)
    ensures
        old(engine)@.status == TypingStatus::Typing ==> final(engine)@ == pause_spec(old(engine)@),
        old(engine)@.status == TypingStatus::Paused ==> final(engine)@ == resume_spec(old(engine)@),
        old(engine)@.status != TypingStatus::Typing && old(engine)@.status != TypingStatus::Paused
            ==> final(engine)@ == old(engine)@,
{
    match engine.get_status() {
        TypingStatus::Typing => engine.pause(),
        TypingStatus::Paused => engine.resume(),
        _ => {},
    }
}

} // verus!
