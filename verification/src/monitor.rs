//! The monitor: a state machine that is told what each clipboard access
//! gave and answers with what to do next.
//!
//! The caller owns the clipboard and the clock. It starts with
//! `MonitorState::new`, reads the clipboard, and hands each outcome to
//! `MonitorState::step`; the answer is to write a text, to sleep before the
//! next read, or to exit.

use vstd::prelude::*;
use vstd::string::StrSliceExecFns;
use crate::config::Config;
use crate::rewrite::{replace, rewritten};
use crate::text::{contains, str_contains, str_trim, trimmed};

verus! {

/// The longest content, in characters, that is still rewritten.
pub const MAX_CONTENT_CHARS: usize = 1_000_000;

/// Exit status after too many consecutive failures.
pub const EXIT_FAILURE: i32 = 1;

/// The error code with which the clipboard reports that it holds no text.
pub const NO_TEXT_CODE: &'static str = "1168";

/// Content is worth rewriting: not blank, and not longer than
/// `MAX_CONTENT_CHARS`.
pub open spec fn valid_content(content: Seq<char>) -> bool {
    trimmed(content).len() > 0 && content.len() <= MAX_CONTENT_CHARS
}

/// Whether `content` is worth rewriting.
pub fn is_valid_content(content: &str) -> (valid: bool)
    ensures
        valid == valid_content(content@),
{
    !str_trim(content).is_empty() && content.unicode_len() <= MAX_CONTENT_CHARS
}

/// Whether the message of a failed read says that the clipboard merely
/// holds no text, which is no failure.
pub fn is_benign_read_error(message: &str) -> (benign: bool)
    ensures
        benign == contains(message@, NO_TEXT_CODE@),
{
    str_contains(message, NO_TEXT_CODE)
}

/// What the monitor waits for.
#[derive(Debug)]
pub enum Phase {
    /// The outcome of the next read.
    AwaitingRead,
    /// The outcome of writing the rewrite of the content held here.
    AwaitingWrite(String),
    /// Nothing: the monitor has given up.
    Stopped,
}

/// The mathematical content of a `Phase`.
pub enum PhaseView {
    AwaitingRead,
    AwaitingWrite(Seq<char>),
    Stopped,
}

impl View for Phase {
    type V = PhaseView;

    open spec fn view(&self) -> PhaseView {
        match self {
            Phase::AwaitingRead => PhaseView::AwaitingRead,
            Phase::AwaitingWrite(original) => PhaseView::AwaitingWrite(original@),
            Phase::Stopped => PhaseView::Stopped,
        }
    }
}

/// What a clipboard access gave.
#[derive(Debug)]
pub enum Event {
    /// The read gave this text.
    ReadText(String),
    /// The read found no text in the clipboard.
    ReadEmpty,
    /// The read failed.
    ReadFailed,
    /// The write went through.
    WriteDone,
    /// The write failed.
    WriteFailed,
}

/// The mathematical content of an `Event`.
pub enum EventView {
    ReadText(Seq<char>),
    ReadEmpty,
    ReadFailed,
    WriteDone,
    WriteFailed,
}

impl View for Event {
    type V = EventView;

    open spec fn view(&self) -> EventView {
        match self {
            Event::ReadText(content) => EventView::ReadText(content@),
            Event::ReadEmpty => EventView::ReadEmpty,
            Event::ReadFailed => EventView::ReadFailed,
            Event::WriteDone => EventView::WriteDone,
            Event::WriteFailed => EventView::WriteFailed,
        }
    }
}

/// What the caller does next.
#[derive(Debug)]
pub enum Action {
    /// Write this text to the clipboard and report the outcome.
    Write(String),
    /// Sleep this many milliseconds, then read the clipboard.
    Sleep(u64),
    /// Exit the process with this status.
    Exit(i32),
}

/// The mathematical content of an `Action`.
pub enum ActionView {
    Write(Seq<char>),
    Sleep(u64),
    Exit(i32),
}

impl View for Action {
    type V = ActionView;

    open spec fn view(&self) -> ActionView {
        match self {
            Action::Write(text) => ActionView::Write(text@),
            Action::Sleep(millis) => ActionView::Sleep(*millis),
            Action::Exit(status) => ActionView::Exit(*status),
        }
    }
}

/// The state of the monitor.
#[derive(Debug)]
pub struct MonitorState {
    /// The current delay between checks, in milliseconds.
    pub backoff: u64,
    /// The content that was last rewritten and written back.
    pub last_content: String,
    /// The number of failures since the last success.
    pub retry_count: u32,
    /// What the monitor waits for.
    pub phase: Phase,
}

/// The mathematical content of a `MonitorState`.
pub struct MonitorView {
    pub backoff: u64,
    pub last_content: Seq<char>,
    pub retry_count: u32,
    pub phase: PhaseView,
}

impl View for MonitorState {
    type V = MonitorView;

    open spec fn view(&self) -> MonitorView {
        MonitorView {
            backoff: self.backoff,
            last_content: self.last_content@,
            retry_count: self.retry_count,
            phase: self.phase@,
        }
    }
}

/// Twice the delay, but no more than the ceiling.
pub open spec fn doubled(backoff: u64, ceiling: u64) -> u64 {
    if 2 * backoff < ceiling {
        (2 * backoff) as u64
    } else {
        ceiling
    }
}

impl MonitorView {
    /// The delay lies between the base delay and the ceiling, and the
    /// failures are within what is tolerated.
    pub open spec fn wf(self, config: Config) -> bool {
        &&& config.check_interval <= self.backoff <= config.max_backoff
        &&& self.retry_count <= config.max_retries
    }

    /// The state in which a monitor starts.
    pub open spec fn initial(config: Config) -> MonitorView {
        MonitorView {
            backoff: config.check_interval,
            last_content: Seq::empty(),
            retry_count: 0,
            phase: PhaseView::AwaitingRead,
        }
    }

    /// The state after a failed read or write: stopped where no further
    /// failure is tolerated, otherwise one failure more and the delay
    /// doubled.
    pub open spec fn after_failure(self, config: Config) -> MonitorView {
        if self.retry_count >= config.max_retries {
            MonitorView { phase: PhaseView::Stopped, ..self }
        } else {
            MonitorView {
                backoff: doubled(self.backoff, config.max_backoff),
                retry_count: (self.retry_count + 1) as u32,
                phase: PhaseView::AwaitingRead,
                ..self
            }
        }
    }

    /// The content of a read is new and worth rewriting.
    pub open spec fn accepts(self, content: Seq<char>) -> bool {
        valid_content(content) && content != self.last_content
    }

    /// The state after `event`.
    pub open spec fn next(self, config: Config, event: EventView) -> MonitorView {
        match self.phase {
            PhaseView::AwaitingRead => match event {
                EventView::ReadText(content) => if self.accepts(content) {
                    MonitorView { phase: PhaseView::AwaitingWrite(content), ..self }
                } else {
                    self
                },
                EventView::ReadFailed => self.after_failure(config),
                _ => self,
            },
            PhaseView::AwaitingWrite(original) => match event {
                EventView::WriteDone => MonitorView {
                    backoff: config.check_interval,
                    last_content: original,
                    retry_count: 0,
                    phase: PhaseView::AwaitingRead,
                },
                EventView::WriteFailed => self.after_failure(config),
                _ => MonitorView { phase: PhaseView::AwaitingRead, ..self },
            },
            PhaseView::Stopped => self,
        }
    }

    /// What the caller is told to do after `event`.
    pub open spec fn action(self, config: Config, event: EventView) -> ActionView {
        let next = self.next(config, event);
        match next.phase {
            PhaseView::AwaitingRead => ActionView::Sleep(next.backoff),
            PhaseView::AwaitingWrite(original) => ActionView::Write(
                rewritten(original, config.domains()),
            ),
            PhaseView::Stopped => ActionView::Exit(EXIT_FAILURE),
        }
    }
}

/// Twice the delay, but no more than the ceiling.
fn double_backoff(backoff: u64, ceiling: u64) -> (r: u64)
    ensures
        r == doubled(backoff, ceiling),
{
    match backoff.checked_mul(2) {
        Some(twice) => if twice < ceiling {
            twice
        } else {
            ceiling
        },
        None => ceiling,
    }
}

impl MonitorState {
    /// A monitor that has seen nothing yet.
    pub fn new(config: &Config) -> (state: MonitorState)
        ensures
            state@ == MonitorView::initial(*config),
            config.wf() ==> state@.wf(*config),
    {
        MonitorState {
            backoff: config.check_interval,
            last_content: String::new(),
            retry_count: 0,
            phase: Phase::AwaitingRead,
        }
    }

    /// Records a failed read or write.
    fn fail(&mut self, config: &Config)
        ensures
            final(self)@ == old(self)@.after_failure(*config),
    {
        if self.retry_count >= config.max_retries {
            self.phase = Phase::Stopped;
        } else {
            self.backoff = double_backoff(self.backoff, config.max_backoff);
            self.retry_count = self.retry_count + 1;
            self.phase = Phase::AwaitingRead;
        }
    }

    /// What the state asks of the caller.
    fn pending_action(&self, config: &Config) -> (action: Action)
        ensures
            action@ == match self@.phase {
                PhaseView::AwaitingRead => ActionView::Sleep(self.backoff),
                PhaseView::AwaitingWrite(original) => ActionView::Write(
                    rewritten(original, config.domains()),
                ),
                PhaseView::Stopped => ActionView::Exit(EXIT_FAILURE),
            },
    {
        match &self.phase {
            Phase::AwaitingRead => Action::Sleep(self.backoff),
            Phase::AwaitingWrite(original) => Action::Write(replace(original.as_str(), config)),
            Phase::Stopped => Action::Exit(EXIT_FAILURE),
        }
    }

    /// Takes the outcome of the last clipboard access, moves to the next
    /// state and says what to do.
    ///
    /// A read that gives new, valid content asks for its rewrite to be
    /// written. A write that went through makes that content the last one
    /// seen and resets delay and failures. A failed read or write counts as
    /// a failure and doubles the delay, up to the ceiling; the failure after
    /// `max_retries` tolerated ones stops the monitor. Every other outcome
    /// changes nothing. An outcome that the monitor did not wait for is
    /// taken as no outcome: the monitor goes back to reading.
    pub fn step(&mut self, config: &Config, event: Event) -> (action: Action)
        ensures
            final(self)@ == old(self)@.next(*config, event@),
            action@ == old(self)@.action(*config, event@),
            config.wf() && old(self)@.wf(*config) ==> final(self)@.wf(*config),
    {
        let mut phase = Phase::AwaitingRead;
        std::mem::swap(&mut self.phase, &mut phase);
        match phase {
            Phase::AwaitingRead => match event {
                Event::ReadText(content) => {
                    if is_valid_content(content.as_str()) && content != self.last_content {
                        self.phase = Phase::AwaitingWrite(content);
                    }
                },
                Event::ReadFailed => {
                    self.fail(config);
                },
                _ => {},
            },
            Phase::AwaitingWrite(original) => match event {
                Event::WriteDone => {
                    self.backoff = config.check_interval;
                    self.last_content = original;
                    self.retry_count = 0;
                },
                Event::WriteFailed => {
                    self.fail(config);
                },
                _ => {},
            },
            Phase::Stopped => {
                self.phase = Phase::Stopped;
            },
        }
        self.pending_action(config)
    }
}

/// The delay stays between the base delay and the ceiling, and the
/// failures within what is tolerated, whatever happens.
pub proof fn lemma_step_keeps_range(state: MonitorView, config: Config, event: EventView)
    requires
        config.wf(),
        state.wf(config),
    ensures
        state.next(config, event).wf(config),
{
}

/// The last content seen changes only when a write went through, and then
/// to the content that was read, not to its rewrite.
pub proof fn lemma_last_content_follows_writes(
    state: MonitorView,
    config: Config,
    event: EventView,
)
    ensures
        state.next(config, event).last_content != state.last_content ==> event
            == EventView::WriteDone && state.phase == PhaseView::AwaitingWrite(
            state.next(config, event).last_content,
        ),
        event == EventView::WriteFailed ==> state.next(config, event).last_content
            == state.last_content,
{
}

/// A tolerated failure doubles the delay up to the ceiling and counts; a
/// write that went through resets both.
pub proof fn lemma_backoff_grows_and_resets(state: MonitorView, config: Config)
    ensures
        state.phase == PhaseView::AwaitingRead && state.retry_count < config.max_retries ==> {
            let next = state.next(config, EventView::ReadFailed);
            &&& next.backoff == doubled(state.backoff, config.max_backoff)
            &&& next.retry_count == state.retry_count + 1
            &&& state.action(config, EventView::ReadFailed) == ActionView::Sleep(next.backoff)
        },
        state.phase is AwaitingWrite && state.retry_count < config.max_retries ==> {
            let next = state.next(config, EventView::WriteFailed);
            &&& next.backoff == doubled(state.backoff, config.max_backoff)
            &&& next.retry_count == state.retry_count + 1
            &&& state.action(config, EventView::WriteFailed) == ActionView::Sleep(next.backoff)
        },
        state.phase is AwaitingWrite ==> {
            let next = state.next(config, EventView::WriteDone);
            &&& next.backoff == config.check_interval
            &&& next.retry_count == 0
            &&& state.action(config, EventView::WriteDone) == ActionView::Sleep(
                config.check_interval,
            )
        },
{
}

/// The failure after the last tolerated one stops the monitor with
/// `EXIT_FAILURE`, and a stopped monitor stays stopped: whatever it is
/// told, it asks for the exit again and for nothing else.
pub proof fn lemma_exhaustion_stops(state: MonitorView, config: Config, event: EventView)
    ensures
        state.phase == PhaseView::AwaitingRead && state.retry_count >= config.max_retries ==> {
            &&& state.next(config, EventView::ReadFailed).phase == PhaseView::Stopped
            &&& state.action(config, EventView::ReadFailed) == ActionView::Exit(EXIT_FAILURE)
        },
        state.phase is AwaitingWrite && state.retry_count >= config.max_retries ==> {
            &&& state.next(config, EventView::WriteFailed).phase == PhaseView::Stopped
            &&& state.action(config, EventView::WriteFailed) == ActionView::Exit(EXIT_FAILURE)
        },
        state.phase == PhaseView::Stopped ==> {
            &&& state.next(config, event) == state
            &&& state.action(config, event) == ActionView::Exit(EXIT_FAILURE)
        },
{
}

/// Content that was written back is not written again: once the write of
/// `content` went through, a read that gives `content` once more changes
/// nothing and asks for a sleep.
pub proof fn lemma_unchanged_content_suppressed(
    state: MonitorView,
    config: Config,
    content: Seq<char>,
)
    requires
        state.phase == PhaseView::AwaitingWrite(content),
    ensures
        ({
            let written = state.next(config, EventView::WriteDone);
            &&& written.last_content == content
            &&& written.next(config, EventView::ReadText(content)) == written
            &&& written.action(config, EventView::ReadText(content)) == ActionView::Sleep(
                written.backoff,
            )
        }),
{
}

/// A write is asked for only after a read that gave new, valid content,
/// and every outcome of a write is answered with a sleep or the exit: each
/// round of reading and writing ends in exactly one sleep.
pub proof fn lemma_one_sleep_per_round(state: MonitorView, config: Config, event: EventView)
    ensures
        state.action(config, event) is Write ==> state.phase == PhaseView::AwaitingRead && (
        event matches EventView::ReadText(content) && state.accepts(content)),
        state.phase is AwaitingWrite ==> !(state.action(config, event) is Write),
{
}

} // verus!
