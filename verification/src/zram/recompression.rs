//! zram recompression.
//!
//! A recompression pass has the kernel compress pages of the zram device again, with a stronger
//! algorithm: huge pages that have been idle, idle pages and huge pages, in this order.
use crate::os::NANOS_PER_SECOND;
use crate::step::Step;
use crate::text;
use vstd::prelude::*;

verus! {

/// Why a file of the zram device could not be read.
#[derive(Debug)]
pub enum ReadError<E> {
    /// There is no such file: the kernel lacks the feature.
    NotFound,
    /// Reading failed otherwise.
    Other(E),
}

/// Whether zram recompression is activated, given the outcome of reading the recompression
/// algorithm of the device.
pub fn is_zram_recompression_activated<E>(algorithm: Result<String, ReadError<E>>) -> (activated:
    Result<bool, E>)
    ensures
        activated == match algorithm {
            Ok(name) => Ok::<bool, E>(name@.len() > 0),
            Err(ReadError::NotFound) => Ok(false),
            Err(ReadError::Other(e)) => Err(e),
        },
{
    match algorithm {
        Ok(name) => Ok(!name.as_str().is_empty()),
        Err(ReadError::NotFound) => Ok(false),
        Err(ReadError::Other(e)) => Err(e),
    }
}

/// The parameters of a recompression pass. Durations are in nanoseconds.
#[derive(Debug, Clone, Copy)]
pub struct Params {
    /// The time that has to pass between two recompressions.
    pub backoff_duration: u128,
    /// The least time for which a page has to be untouched to count as idle.
    pub min_idle: u128,
    /// The most time for which a page has to be untouched to count as idle.
    pub max_idle: u128,
    /// Whether to recompress huge idle pages.
    pub huge_idle: bool,
    /// Whether to recompress idle pages.
    pub idle: bool,
    /// Whether to recompress huge pages.
    pub huge: bool,
    /// The threshold that a recompression is given, if it is not 0.
    pub max_mib: u64,
}

impl Params {
    /// The parameters where nothing else is asked for: all three kinds of pages, the idle ones
    /// after two to four hours, at most every half an hour.
    pub open spec fn defaults() -> Params {
        Params {
            backoff_duration: (1800 * NANOS_PER_SECOND) as u128,
            min_idle: (7200 * NANOS_PER_SECOND) as u128,
            max_idle: (14400 * NANOS_PER_SECOND) as u128,
            huge_idle: true,
            idle: true,
            huge: true,
            max_mib: 1024,
        }
    }
}

impl Default for Params {
    fn default() -> (params: Self)
        ensures
            params == Params::defaults(),
            params.huge_idle && params.idle && params.huge,
            params.min_idle <= params.max_idle,
    {
        Params {
            backoff_duration: 1800 * NANOS_PER_SECOND,
            min_idle: 7200 * NANOS_PER_SECOND,
            max_idle: 14400 * NANOS_PER_SECOND,
            huge_idle: true,
            idle: true,
            huge: true,
            max_mib: 1024,
        }
    }
}

/// The pages that one recompression takes.
#[derive(Debug, Clone, Copy, PartialEq, Eq, Structural)]
pub enum Mode {
    /// Pages that are both huge and idle.
    HugeIdle,
    /// Idle pages.
    Idle,
    /// Huge pages.
    Huge,
}

/// Why the idle time could not be calculated.
#[derive(Debug)]
pub enum IdleTimeError<E> {
    /// The least idle time exceeds the most.
    InvalidMinAndMax,
    /// The state of the memory could not be had.
    Meminfo(E),
}

/// Error from [`ZramRecompression`].
#[derive(Debug)]
pub enum Error<E> {
    /// The last recompression is too recent.
    BackoffTime,
    /// Failed to calculate the idle time.
    CalculateIdle(IdleTimeError<E>),
    /// Failed to mark pages as idle.
    MarkIdle(E),
    /// Failed to recompress pages.
    Recompress(E),
}

/// Work on the zram device. `T` is the type of its texts.
#[derive(Debug, PartialEq, Eq)]
pub enum Action<T> {
    /// Calculate from the state of the memory, in seconds, after which idle time between these
    /// two a page shall count as idle.
    CalculateIdleTime {
        /// The least idle time, in nanoseconds.
        min_idle: u128,
        /// The most idle time, in nanoseconds.
        max_idle: u128,
    },
    /// Mark the pages that have been idle for so many seconds.
    SetIdle(T),
    /// Recompress the pages that this trigger names.
    Recompress(T),
}

impl View for Action<String> {
    type V = Action<Seq<char>>;

    open spec fn view(&self) -> Action<Seq<char>> {
        match *self {
            Action::CalculateIdleTime { min_idle, max_idle } => Action::CalculateIdleTime {
                min_idle,
                max_idle,
            },
            Action::SetIdle(seconds) => Action::SetIdle(seconds@),
            Action::Recompress(trigger) => Action::Recompress(trigger@),
        }
    }
}

/// What came of an [`Action`].
#[derive(Debug)]
pub enum Event<E> {
    /// The idle time in seconds.
    IdleTime(Result<u64, E>),
    /// Pages were marked as idle, or could not be.
    IdleSet(Result<(), E>),
    /// Pages were recompressed, or could not be.
    Recompressed(Result<(), E>),
}

/// The outcome that a pass waits for.
#[derive(Debug, Clone, Copy, PartialEq, Eq)]
pub enum Awaiting {
    /// That of calculating the idle time.
    IdleTime,
    /// That of marking pages as idle.
    IdleSet,
    /// That of recompressing pages.
    Recompressed,
}

/// A recompression pass under way.
#[derive(Debug, Clone, Copy)]
pub struct Pass {
    /// The parameters of the pass.
    pub params: Params,
    /// When the pass started, in nanoseconds of a clock that does not run backwards.
    pub now: u128,
    /// The pages that the pass is at.
    pub mode: Mode,
    /// What it waits for.
    pub awaiting: Awaiting,
}

/// What a recompression pass wants next.
pub type PassStep<E> = Step<Pass, Action<String>, Result<(), Error<E>>>;

/// A [`PassStep`] in contracts.
pub type PassStepView<E> = Step<Pass, Action<Seq<char>>, Result<(), Error<E>>>;

/// Recompresses zram, and remembers when it did.
#[derive(Debug, Clone, Copy)]
pub struct ZramRecompression {
    /// The start of the last pass that recompressed pages.
    pub last_recompress_at: Option<u128>,
}

// ---------------------------------------------------------------------------------------------
// What a pass does
// ---------------------------------------------------------------------------------------------

impl Params {
    /// Whether the pages of `mode` are to be recompressed.
    pub open spec fn enables(self, mode: Mode) -> bool {
        match mode {
            Mode::HugeIdle => self.huge_idle,
            Mode::Idle => self.idle,
            Mode::Huge => self.huge,
        }
    }

    /// The first mode that is enabled.
    pub open spec fn first_mode(self) -> Option<Mode> {
        if self.huge_idle {
            Some(Mode::HugeIdle)
        } else {
            self.mode_after(Mode::HugeIdle)
        }
    }

    /// The next mode after `mode` that is enabled.
    pub open spec fn mode_after(self, mode: Mode) -> Option<Mode> {
        if mode == Mode::HugeIdle && self.idle {
            Some(Mode::Idle)
        } else if mode != Mode::Huge && self.huge {
            Some(Mode::Huge)
        } else {
            None
        }
    }
}

/// The name that the kernel gives the pages of `mode`.
pub open spec fn mode_name(mode: Mode) -> Seq<char> {
    match mode {
        Mode::HugeIdle => "huge_idle"@,
        Mode::Idle => "idle"@,
        Mode::Huge => "huge"@,
    }
}

/// The trigger that recompresses the pages of `mode`. It names a threshold unless that is 0.
pub open spec fn trigger(mode: Mode, max_mib: u64) -> Seq<char> {
    let pages = "type="@ + mode_name(mode);
    if max_mib > 0 {
        pages + " threshold="@ + text::decimal(max_mib as nat)
    } else {
        pages
    }
}

/// How a pass takes up the pages of `mode`, or ends if there are none left. Pages that have to
/// be idle need an idle time first; huge pages are recompressed at once.
pub open spec fn take_up<E>(params: Params, now: u128, mode: Option<Mode>) -> PassStepView<E> {
    match mode {
        None => Step::Finished(Ok(())),
        Some(Mode::Huge) => Step::Perform {
            stage: Pass { params, now, mode: Mode::Huge, awaiting: Awaiting::Recompressed },
            action: Action::Recompress(trigger(Mode::Huge, params.max_mib)),
        },
        Some(mode) => if params.min_idle > params.max_idle {
            Step::Finished(Err(Error::CalculateIdle(IdleTimeError::InvalidMinAndMax)))
        } else {
            Step::Perform {
                stage: Pass { params, now, mode, awaiting: Awaiting::IdleTime },
                action: Action::CalculateIdleTime {
                    min_idle: params.min_idle,
                    max_idle: params.max_idle,
                },
            }
        },
    }
}

/// What `pass` wants after `event`: a failure ends it, and otherwise pages with a known idle
/// time are marked, marked pages are recompressed, and then the next pages are taken up.
pub open spec fn pass_next<E>(pass: Pass, event: Event<E>) -> PassStepView<E> {
    match event {
        Event::IdleTime(Err(e)) => Step::Finished(
            Err(Error::CalculateIdle(IdleTimeError::Meminfo(e))),
        ),
        Event::IdleTime(Ok(seconds)) => Step::Perform {
            stage: Pass { awaiting: Awaiting::IdleSet, ..pass },
            action: Action::SetIdle(text::decimal(seconds as nat)),
        },
        Event::IdleSet(Err(e)) => Step::Finished(Err(Error::MarkIdle(e))),
        Event::IdleSet(Ok(_)) => Step::Perform {
            stage: Pass { awaiting: Awaiting::Recompressed, ..pass },
            action: Action::Recompress(trigger(pass.mode, pass.params.max_mib)),
        },
        Event::Recompressed(Err(e)) => Step::Finished(Err(Error::Recompress(e))),
        Event::Recompressed(Ok(_)) => take_up(
            pass.params,
            pass.now,
            pass.params.mode_after(pass.mode),
        ),
    }
}

impl Pass {
    /// Whether `event` is the outcome that the pass waits for.
    pub open spec fn awaits<E>(self, event: Event<E>) -> bool {
        match self.awaiting {
            Awaiting::IdleTime => event is IdleTime,
            Awaiting::IdleSet => event is IdleSet,
            Awaiting::Recompressed => event is Recompressed,
        }
    }
}

impl ZramRecompression {
    /// Whether the last recompression is less than `backoff_duration` before `now`.
    pub open spec fn backs_off(self, backoff_duration: u128, now: u128) -> bool {
        match self.last_recompress_at {
            // The clock does not run backwards: a start in the future is no time ago.
            Some(at) => (if now >= at {
                now - at
            } else {
                0
            }) < backoff_duration,
            None => false,
        }
    }

    /// How a pass starts at `now`.
    pub open spec fn pass_start<E>(self, params: Params, now: u128) -> PassStepView<E> {
        if self.backs_off(params.backoff_duration, now) {
            Step::Finished(Err(Error::BackoffTime))
        } else {
            take_up(params, now, params.first_mode())
        }
    }

    /// What is remembered after `event` in `pass`: when the pass started, if it has recompressed
    /// pages.
    pub open spec fn after<E>(self, pass: Pass, event: Event<E>) -> ZramRecompression {
        match event {
            Event::Recompressed(Ok(_)) => ZramRecompression { last_recompress_at: Some(pass.now) },
            _ => self,
        }
    }
}

// ---------------------------------------------------------------------------------------------
// Doing it
// ---------------------------------------------------------------------------------------------

/// Writes the trigger that recompresses the pages of `mode`.
fn trigger_text(mode: Mode, max_mib: u64) -> (written: String)
    ensures
        written@ == trigger(mode, max_mib),
{
    let mut written = "type=".to_owned();
    written.append(
        match mode {
            Mode::HugeIdle => "huge_idle",
            Mode::Idle => "idle",
            Mode::Huge => "huge",
        },
    );
    if max_mib > 0 {
        written.append(" threshold=");
        written.append(text::decimal_text(max_mib).as_str());
    }
    written
}

/// Takes up the pages of `mode`, or ends the pass if there are none left.
fn take_up_pages<E>(params: &Params, now: u128, mode: Option<Mode>) -> (step: PassStep<E>)
    ensures
        step@ == take_up::<E>(*params, now, mode),
{
    match mode {
        None => Step::Finished(Ok(())),
        Some(Mode::Huge) => Step::Perform {
            stage: Pass { params: *params, now, mode: Mode::Huge, awaiting: Awaiting::Recompressed },
            action: Action::Recompress(trigger_text(Mode::Huge, params.max_mib)),
        },
        Some(mode) => {
            if params.min_idle > params.max_idle {
                return Step::Finished(Err(Error::CalculateIdle(IdleTimeError::InvalidMinAndMax)));
            }
            Step::Perform {
                stage: Pass { params: *params, now, mode, awaiting: Awaiting::IdleTime },
                action: Action::CalculateIdleTime {
                    min_idle: params.min_idle,
                    max_idle: params.max_idle,
                },
            }
        },
    }
}

/// The next mode after `mode` that is enabled.
fn next_mode(params: &Params, mode: Mode) -> (next: Option<Mode>)
    ensures
        next == params.mode_after(mode),
{
    if mode == Mode::HugeIdle && params.idle {
        Some(Mode::Idle)
    } else if mode != Mode::Huge && params.huge {
        Some(Mode::Huge)
    } else {
        None
    }
}

impl ZramRecompression {
    /// Has not recompressed anything yet.
    pub fn new() -> (created: Self)
        ensures
            created.last_recompress_at is None,
    {
        ZramRecompression { last_recompress_at: None }
    }

    /// Marks idle pages and recompresses pages of the zram device, at `now`. Returns the first
    /// step of the pass; [`ZramRecompression::resume`] returns the others.
    pub fn mark_and_recompress<E>(&self, params: &Params, now: u128) -> (step: PassStep<E>)
        ensures
            step@ == self.pass_start::<E>(*params, now),
    {
        if let Some(at) = self.last_recompress_at {
            let elapsed: u128 = if now >= at {
                now - at
            } else {
                0
            };
            if elapsed < params.backoff_duration {
                return Step::Finished(Err(Error::BackoffTime));
            }
        }
        let first = if params.huge_idle {
            Some(Mode::HugeIdle)
        } else {
            next_mode(params, Mode::HugeIdle)
        };
        take_up_pages(params, now, first)
    }

    /// Goes on with `pass` after `event`.
    pub fn resume<E>(&mut self, pass: Pass, event: Event<E>) -> (step: PassStep<E>)
        requires
            pass.awaits(event),
        ensures
            step@ == pass_next(pass, event),
            *final(self) == old(self).after(pass, event),
    {
        match event {
            Event::IdleTime(Err(e)) => Step::Finished(
                Err(Error::CalculateIdle(IdleTimeError::Meminfo(e))),
            ),
            Event::IdleTime(Ok(seconds)) => Step::Perform {
                stage: Pass { awaiting: Awaiting::IdleSet, ..pass },
                action: Action::SetIdle(text::decimal_text(seconds)),
            },
            Event::IdleSet(Err(e)) => Step::Finished(Err(Error::MarkIdle(e))),
            Event::IdleSet(Ok(_)) => Step::Perform {
                stage: Pass { awaiting: Awaiting::Recompressed, ..pass },
                action: Action::Recompress(trigger_text(pass.mode, pass.params.max_mib)),
            },
            Event::Recompressed(Err(e)) => Step::Finished(Err(Error::Recompress(e))),
            Event::Recompressed(Ok(_)) => {
                self.last_recompress_at = Some(pass.now);
                take_up_pages(&pass.params, pass.now, next_mode(&pass.params, pass.mode))
            },
        }
    }
}

// ---------------------------------------------------------------------------------------------
// Whole passes
// ---------------------------------------------------------------------------------------------

/// What a device that gives these outcomes for each mode says of the action that `pass` waits
/// for.
pub open spec fn pass_reply<E>(
    pass: Pass,
    idle_time: spec_fn(Mode) -> Result<u64, E>,
    set_idle: spec_fn(Mode) -> Result<(), E>,
    recompress: spec_fn(Mode) -> Result<(), E>,
) -> Event<E> {
    match pass.awaiting {
        Awaiting::IdleTime => Event::IdleTime(idle_time(pass.mode)),
        Awaiting::IdleSet => Event::IdleSet(set_idle(pass.mode)),
        Awaiting::Recompressed => Event::Recompressed(recompress(pass.mode)),
    }
}

/// A number that gets smaller with every step of a pass.
pub open spec fn pass_rank<E>(step: PassStepView<E>) -> nat {
    match step {
        Step::Finished(_) => 0,
        Step::Perform { stage, .. } => {
            let later_modes: nat = match stage.mode {
                Mode::HugeIdle => 6,
                Mode::Idle => 3,
                Mode::Huge => 0,
            };
            let later_actions: nat = match stage.awaiting {
                Awaiting::IdleTime => 3,
                Awaiting::IdleSet => 2,
                Awaiting::Recompressed => 1,
            };
            later_modes + later_actions
        },
    }
}

/// A pass from `step` on: its actions, its result, and what is remembered in the end.
pub open spec fn pass_run<E>(
    memory: ZramRecompression,
    step: PassStepView<E>,
    idle_time: spec_fn(Mode) -> Result<u64, E>,
    set_idle: spec_fn(Mode) -> Result<(), E>,
    recompress: spec_fn(Mode) -> Result<(), E>,
) -> (Seq<Action<Seq<char>>>, Result<(), Error<E>>, ZramRecompression)
    decreases pass_rank(step),
{
    match step {
        Step::Finished(result) => (seq![], result, memory),
        Step::Perform { stage, action } => {
            let event = pass_reply(stage, idle_time, set_idle, recompress);
            let (actions, result, after) = pass_run(
                memory.after(stage, event),
                pass_next(stage, event),
                idle_time,
                set_idle,
                recompress,
            );
            (seq![action] + actions, result, after)
        },
    }
}

/// An action of a pass, with the pages and the outcome that it is about.
pub struct Planned {
    /// The pages.
    pub mode: Mode,
    /// The outcome.
    pub awaiting: Awaiting,
    /// The action.
    pub action: Action<Seq<char>>,
}

/// The actions that recompress the pages of `mode`: pages that have to be idle are marked first.
pub open spec fn mode_plan<E>(
    params: Params,
    mode: Mode,
    idle_time: spec_fn(Mode) -> Result<u64, E>,
) -> Seq<Planned> {
    let recompress = Planned {
        mode,
        awaiting: Awaiting::Recompressed,
        action: Action::Recompress(trigger(mode, params.max_mib)),
    };
    if mode == Mode::Huge {
        seq![recompress]
    } else {
        seq![
            Planned {
                mode,
                awaiting: Awaiting::IdleTime,
                action: Action::CalculateIdleTime {
                    min_idle: params.min_idle,
                    max_idle: params.max_idle,
                },
            },
            Planned {
                mode,
                awaiting: Awaiting::IdleSet,
                action: Action::SetIdle(text::decimal(idle_time(mode)->Ok_0 as nat)),
            },
            recompress,
        ]
    }
}

/// The actions for the pages of `mode` if they are enabled, and none otherwise.
pub open spec fn enabled_plan<E>(
    params: Params,
    mode: Mode,
    idle_time: spec_fn(Mode) -> Result<u64, E>,
) -> Seq<Planned> {
    if params.enables(mode) {
        mode_plan(params, mode, idle_time)
    } else {
        seq![]
    }
}

/// The actions of a whole pass: those for huge idle pages, for idle pages and for huge pages, as
/// far as they are enabled.
pub open spec fn pass_plan<E>(
    params: Params,
    idle_time: spec_fn(Mode) -> Result<u64, E>,
) -> Seq<Planned> {
    enabled_plan(params, Mode::HugeIdle, idle_time) + (enabled_plan(params, Mode::Idle, idle_time)
        + enabled_plan(params, Mode::Huge, idle_time))
}

/// The error of a planned action, if it fails.
pub open spec fn planned_failure<E>(
    planned: Planned,
    idle_time: spec_fn(Mode) -> Result<u64, E>,
    set_idle: spec_fn(Mode) -> Result<(), E>,
    recompress: spec_fn(Mode) -> Result<(), E>,
) -> Option<Error<E>> {
    match planned.awaiting {
        Awaiting::IdleTime => match idle_time(planned.mode) {
            Ok(_) => None,
            Err(e) => Some(Error::CalculateIdle(IdleTimeError::Meminfo(e))),
        },
        Awaiting::IdleSet => match set_idle(planned.mode) {
            Ok(_) => None,
            Err(e) => Some(Error::MarkIdle(e)),
        },
        Awaiting::Recompressed => match recompress(planned.mode) {
            Ok(_) => None,
            Err(e) => Some(Error::Recompress(e)),
        },
    }
}

/// Carries out `plan` up to the first action that fails: the actions, the result, and what is
/// remembered in the end of a pass that started at `now`.
pub open spec fn carry_out<E>(
    memory: ZramRecompression,
    now: u128,
    plan: Seq<Planned>,
    idle_time: spec_fn(Mode) -> Result<u64, E>,
    set_idle: spec_fn(Mode) -> Result<(), E>,
    recompress: spec_fn(Mode) -> Result<(), E>,
) -> (Seq<Action<Seq<char>>>, Result<(), Error<E>>, ZramRecompression)
    decreases plan.len(),
{
    if plan.len() == 0 {
        (seq![], Ok(()), memory)
    } else {
        match planned_failure(plan[0], idle_time, set_idle, recompress) {
            Some(e) => (seq![plan[0].action], Err(e), memory),
            None => {
                let memory = if plan[0].awaiting == Awaiting::Recompressed {
                    ZramRecompression { last_recompress_at: Some(now) }
                } else {
                    memory
                };
                let (actions, result, after) = carry_out(
                    memory,
                    now,
                    plan.drop_first(),
                    idle_time,
                    set_idle,
                    recompress,
                );
                (seq![plan[0].action] + actions, result, after)
            },
        }
    }
}

/// A pass from the pages of `mode` on carries out the plan for them and then `rest`, where
/// `rest` is what a pass carries out from the next mode on.
proof fn lemma_mode_carried_out<E>(
    memory: ZramRecompression,
    params: Params,
    now: u128,
    mode: Mode,
    rest: Seq<Planned>,
    idle_time: spec_fn(Mode) -> Result<u64, E>,
    set_idle: spec_fn(Mode) -> Result<(), E>,
    recompress: spec_fn(Mode) -> Result<(), E>,
)
    requires
        mode == Mode::Huge || params.min_idle <= params.max_idle,
        ({
            let after = ZramRecompression { last_recompress_at: Some(now) };
            pass_run(
                after,
                take_up(params, now, params.mode_after(mode)),
                idle_time,
                set_idle,
                recompress,
            ) == carry_out(after, now, rest, idle_time, set_idle, recompress)
        }),
    ensures
        pass_run(
            memory,
            take_up(params, now, Some(mode)),
            idle_time,
            set_idle,
            recompress,
        ) == carry_out(
            memory,
            now,
            mode_plan(params, mode, idle_time) + rest,
            idle_time,
            set_idle,
            recompress,
        ),
{
    reveal_with_fuel(pass_run, 4);
    reveal_with_fuel(carry_out, 4);
    let plan = mode_plan(params, mode, idle_time) + rest;
    let none: Seq<Action<Seq<char>>> = seq![];
    if mode == Mode::Huge {
        assert(plan.drop_first() =~= rest);
        assert(seq![plan[0].action] + none =~= seq![plan[0].action]);
    } else {
        assert(plan.drop_first().drop_first().drop_first() =~= rest);
        assert(plan.drop_first()[0] == plan[1]);
        assert(plan.drop_first().drop_first()[0] == plan[2]);
        assert(seq![plan[0].action] + none =~= seq![plan[0].action]);
        assert(seq![plan[1].action] + none =~= seq![plan[1].action]);
        assert(seq![plan[2].action] + none =~= seq![plan[2].action]);
    }
}

/// A pass that does not back off carries out its plan in order and stops at the first action
/// that fails, with the error of that action; it succeeds exactly when none fails. The start of
/// the pass is remembered from its first successful recompression on.
///
/// This holds if the idle times are in order or no pages have to be idle: see
/// [`law_pass_refuses_idle_times`].
pub proof fn law_pass_carries_out_plan<E>(
    memory: ZramRecompression,
    params: Params,
    now: u128,
    idle_time: spec_fn(Mode) -> Result<u64, E>,
    set_idle: spec_fn(Mode) -> Result<(), E>,
    recompress: spec_fn(Mode) -> Result<(), E>,
)
    requires
        !memory.backs_off(params.backoff_duration, now),
        params.min_idle <= params.max_idle || !(params.huge_idle || params.idle),
    ensures
        pass_run(
            memory,
            memory.pass_start::<E>(params, now),
            idle_time,
            set_idle,
            recompress,
        ) == carry_out(
            memory,
            now,
            pass_plan(params, idle_time),
            idle_time,
            set_idle,
            recompress,
        ),
{
    let done = ZramRecompression { last_recompress_at: Some(now) };
    let none: Seq<Planned> = seq![];
    let huge = enabled_plan(params, Mode::Huge, idle_time);
    let idle = enabled_plan(params, Mode::Idle, idle_time) + huge;
    assert(mode_plan(params, Mode::Huge, idle_time) + none =~= mode_plan(
        params,
        Mode::Huge,
        idle_time,
    ));
    assert(none + huge =~= huge);
    assert(none + idle =~= idle);
    if params.huge {
        lemma_mode_carried_out(
            done, params, now, Mode::Huge, none, idle_time, set_idle, recompress,
        );
        lemma_mode_carried_out(
            memory, params, now, Mode::Huge, none, idle_time, set_idle, recompress,
        );
    }
    if params.idle {
        lemma_mode_carried_out(
            done, params, now, Mode::Idle, huge, idle_time, set_idle, recompress,
        );
        lemma_mode_carried_out(
            memory, params, now, Mode::Idle, huge, idle_time, set_idle, recompress,
        );
    }
    if params.huge_idle {
        lemma_mode_carried_out(
            memory, params, now, Mode::HugeIdle, idle, idle_time, set_idle, recompress,
        );
    }
}

/// If nothing fails, a pass performs every action of its plan, in order, and succeeds. Its start
/// is remembered if the plan ends in a recompression.
pub proof fn law_plan_without_failure<E>(
    memory: ZramRecompression,
    now: u128,
    plan: Seq<Planned>,
    idle_time: spec_fn(Mode) -> Result<u64, E>,
    set_idle: spec_fn(Mode) -> Result<(), E>,
    recompress: spec_fn(Mode) -> Result<(), E>,
)
    requires
        forall|mode: Mode| #[trigger] idle_time(mode) is Ok,
        forall|mode: Mode| #[trigger] set_idle(mode) is Ok,
        forall|mode: Mode| #[trigger] recompress(mode) is Ok,
    ensures
        ({
            let (actions, result, after) = carry_out(
                memory, now, plan, idle_time, set_idle, recompress,
            );
            &&& result is Ok
            &&& actions == Seq::new(plan.len(), |i: int| plan[i].action)
            &&& plan.len() > 0 && plan.last().awaiting == Awaiting::Recompressed
                ==> after.last_recompress_at == Some(now)
        }),
    decreases plan.len(),
{
    if plan.len() > 0 {
        let memory = if plan[0].awaiting == Awaiting::Recompressed {
            ZramRecompression { last_recompress_at: Some(now) }
        } else {
            memory
        };
        assert(planned_failure(plan[0], idle_time, set_idle, recompress) is None) by {
            assert(idle_time(plan[0].mode) is Ok);
            assert(set_idle(plan[0].mode) is Ok);
            assert(recompress(plan[0].mode) is Ok);
        }
        law_plan_without_failure(
            memory, now, plan.drop_first(), idle_time, set_idle, recompress,
        );
    }
}

/// If the least idle time exceeds the most, a pass for idle pages fails before it does anything.
pub proof fn law_pass_refuses_idle_times<E>(memory: ZramRecompression, params: Params, now: u128)
    requires
        !memory.backs_off(params.backoff_duration, now),
        params.min_idle > params.max_idle,
        params.huge_idle || params.idle,
    ensures
        memory.pass_start::<E>(params, now) == PassStepView::<E>::Finished(
            Err(Error::CalculateIdle(IdleTimeError::InvalidMinAndMax)),
        ),
{
}

/// After a recompression, a later pass is refused, and does nothing, until the backoff duration
/// is over since the start of the pass that recompressed; from then on it is not refused.
pub proof fn law_backoff<E>(
    memory: ZramRecompression,
    pass: Pass,
    event: Event<E>,
    params: Params,
    later: u128,
)
    requires
        event matches Event::Recompressed(Ok(_)),
        pass.now <= later,
    ensures
        memory.after(pass, event).pass_start::<E>(params, later) == PassStepView::<E>::Finished(
            Err(Error::BackoffTime),
        ) <==> later < pass.now + params.backoff_duration,
{
}

/// Unless pages were recompressed before, no pass backs off.
pub proof fn law_no_backoff_at_first<E>(params: Params, now: u128)
    ensures
        !(ZramRecompression { last_recompress_at: None }.pass_start::<E>(params, now) matches Step::Finished(
            Err(Error::BackoffTime),
        )),
{
}

/// The trigger of a recompression is `type=` with the kernel's name for the pages. A threshold
/// from 1 on follows it in decimal; a threshold of 0 is not written.
pub proof fn law_trigger_texts(max_mib: u64)
    ensures
        max_mib == 0 ==> trigger(Mode::HugeIdle, max_mib) == "type=huge_idle"@,
        max_mib == 0 ==> trigger(Mode::Idle, max_mib) == "type=idle"@,
        max_mib == 0 ==> trigger(Mode::Huge, max_mib) == "type=huge"@,
        max_mib >= 1 ==> trigger(Mode::HugeIdle, max_mib) == "type=huge_idle threshold="@
            + text::decimal(max_mib as nat),
        max_mib >= 1 ==> trigger(Mode::Idle, max_mib) == "type=idle threshold="@ + text::decimal(
            max_mib as nat,
        ),
        max_mib >= 1 ==> trigger(Mode::Huge, max_mib) == "type=huge threshold="@ + text::decimal(
            max_mib as nat,
        ),
{
    reveal_strlit("type=");
    reveal_strlit("huge_idle");
    reveal_strlit("idle");
    reveal_strlit("huge");
    reveal_strlit(" threshold=");
    reveal_strlit("type=huge_idle");
    reveal_strlit("type=idle");
    reveal_strlit("type=huge");
    reveal_strlit("type=huge_idle threshold=");
    reveal_strlit("type=idle threshold=");
    reveal_strlit("type=huge threshold=");
    assert("type="@ + "huge_idle"@ =~= "type=huge_idle"@);
    assert("type="@ + "idle"@ =~= "type=idle"@);
    assert("type="@ + "huge"@ =~= "type=huge"@);
    assert("type=huge_idle"@ + " threshold="@ =~= "type=huge_idle threshold="@);
    assert("type=idle"@ + " threshold="@ =~= "type=idle threshold="@);
    assert("type=huge"@ + " threshold="@ =~= "type=huge threshold="@);
}

/// By default all three kinds of pages are recompressed, the idle ones after two to four hours,
/// at most every half an hour, with a threshold of 1024.
pub proof fn law_default_params()
    ensures
        Params::defaults().huge_idle,
        Params::defaults().idle,
        Params::defaults().huge,
        Params::defaults().backoff_duration == 1_800_000_000_000,
        Params::defaults().min_idle == 7_200_000_000_000,
        Params::defaults().max_idle == 14_400_000_000_000,
        Params::defaults().max_mib == 1024,
{
}

/// A pass is refused for the backoff exactly when less than the backoff duration has passed since
/// the start that is remembered, where a time before that start counts as that start.
pub proof fn law_backoff_time<E>(memory: ZramRecompression, params: Params, now: u128)
    ensures
        memory.pass_start::<E>(params, now) == PassStepView::<E>::Finished(Err(Error::BackoffTime))
            <==> (memory.last_recompress_at matches Some(at) && params.backoff_duration > 0 && now
            < at + params.backoff_duration),
{
}

/// A pass that does not back off takes up huge idle pages first, then idle pages and then huge
/// pages, each kind only if it is enabled. Pages that have to be idle get an idle time, are marked
/// with it in decimal, and are then recompressed; huge pages are recompressed at once. What fails
/// first ends the pass with its error. What succeeds is remembered, and the pass goes on as one
/// for the kinds that are left.
pub proof fn law_pass_kind_by_kind<E>(
    memory: ZramRecompression,
    params: Params,
    now: u128,
    idle_time: spec_fn(Mode) -> Result<u64, E>,
    set_idle: spec_fn(Mode) -> Result<(), E>,
    recompress: spec_fn(Mode) -> Result<(), E>,
)
    requires
        memory.last_recompress_at matches Some(at) ==> params.backoff_duration == 0 || now >= at
            + params.backoff_duration,
    ensures
        ({
            let (actions, result, after) = pass_run(
                memory,
                memory.pass_start::<E>(params, now),
                idle_time,
                set_idle,
                recompress,
            );
            let done = ZramRecompression { last_recompress_at: Some(now) };
            if params.huge_idle || params.idle {
                let mode = if params.huge_idle {
                    Mode::HugeIdle
                } else {
                    Mode::Idle
                };
                let left = Params {
                    backoff_duration: 0,
                    huge_idle: false,
                    idle: params.huge_idle && params.idle,
                    ..params
                };
                let calculate = Action::CalculateIdleTime {
                    min_idle: params.min_idle,
                    max_idle: params.max_idle,
                };
                let mark = Action::SetIdle(text::decimal(idle_time(mode)->Ok_0 as nat));
                let write = Action::Recompress(trigger(mode, params.max_mib));
                let rest = pass_run(
                    done,
                    done.pass_start::<E>(left, now),
                    idle_time,
                    set_idle,
                    recompress,
                );
                if params.min_idle > params.max_idle {
                    &&& actions == Seq::<Action<Seq<char>>>::empty()
                    &&& result == Err::<(), _>(
                        Error::<E>::CalculateIdle(IdleTimeError::InvalidMinAndMax),
                    )
                    &&& after == memory
                } else if idle_time(mode) is Err {
                    &&& actions == seq![calculate]
                    &&& result == Err::<(), _>(
                        Error::CalculateIdle(IdleTimeError::Meminfo(idle_time(mode)->Err_0)),
                    )
                    &&& after == memory
                } else if set_idle(mode) is Err {
                    &&& actions == seq![calculate, mark]
                    &&& result == Err::<(), _>(Error::MarkIdle(set_idle(mode)->Err_0))
                    &&& after == memory
                } else if recompress(mode) is Err {
                    &&& actions == seq![calculate, mark, write]
                    &&& result == Err::<(), _>(Error::Recompress(recompress(mode)->Err_0))
                    &&& after == memory
                } else {
                    &&& actions == seq![calculate, mark, write] + rest.0
                    &&& result == rest.1
                    &&& after == rest.2
                }
            } else if params.huge {
                &&& actions == seq![
                    Action::Recompress(trigger(Mode::Huge, params.max_mib)),
                ]
                &&& result == match recompress(Mode::Huge) {
                    Ok(_) => Ok::<(), Error<E>>(()),
                    Err(e) => Err(Error::Recompress(e)),
                }
                &&& after == if recompress(Mode::Huge) is Ok {
                    done
                } else {
                    memory
                }
            } else {
                &&& actions == Seq::<Action<Seq<char>>>::empty()
                &&& result == Ok::<(), Error<E>>(())
                &&& after == memory
            }
        }),
{
    let run = pass_run(
        memory,
        memory.pass_start::<E>(params, now),
        idle_time,
        set_idle,
        recompress,
    );
    let done = ZramRecompression { last_recompress_at: Some(now) };
    if (params.huge_idle || params.idle) && params.min_idle > params.max_idle {
        assert(run.0 =~= seq![]);
    } else {
        law_pass_carries_out_plan(memory, params, now, idle_time, set_idle, recompress);
        reveal_with_fuel(carry_out, 4);
        let plan = pass_plan(params, idle_time);
        if params.huge_idle || params.idle {
            let left = Params {
                backoff_duration: 0,
                huge_idle: false,
                idle: params.huge_idle && params.idle,
                ..params
            };
            law_pass_carries_out_plan(done, left, now, idle_time, set_idle, recompress);
            assert(plan.drop_first()[0] == plan[1]);
            assert(plan.drop_first().drop_first()[0] == plan[2]);
            assert(mode_plan(left, Mode::Idle, idle_time) =~= mode_plan(
                params,
                Mode::Idle,
                idle_time,
            ));
            assert(mode_plan(left, Mode::Huge, idle_time) =~= mode_plan(
                params,
                Mode::Huge,
                idle_time,
            ));
            assert(plan.drop_first().drop_first().drop_first() =~= pass_plan(left, idle_time));
            let rest = carry_out(
                done,
                now,
                pass_plan(left, idle_time),
                idle_time,
                set_idle,
                recompress,
            );
            let (a, b, c) = (plan[0].action, plan[1].action, plan[2].action);
            assert(seq![a] + (seq![b] + (seq![c] + rest.0)) =~= seq![a, b, c] + rest.0);
            assert(seq![a] + seq![b] =~= seq![a, b]);
            assert(seq![a] + (seq![b] + seq![c]) =~= seq![a, b, c]);
        } else if params.huge {
            assert(plan =~= mode_plan(params, Mode::Huge, idle_time));
            assert(plan.drop_first() =~= seq![]);
            assert(seq![plan[0].action] + Seq::<Action<Seq<char>>>::empty() =~= seq![
                plan[0].action,
            ]);
        } else {
            assert(plan =~= seq![]);
        }
    }
}

/// In contracts an action is what it is, with its own text and its own times.
pub proof fn law_action_texts(text: String, min_idle: u128, max_idle: u128)
    ensures
        (Action::<String>::CalculateIdleTime { min_idle, max_idle })@ == (Action::<
            Seq<char>,
        >::CalculateIdleTime { min_idle, max_idle }),
        Action::SetIdle(text)@ == Action::SetIdle(text@),
        Action::Recompress(text)@ == Action::Recompress(text@),
{
}

/// Every reply of the device can be handed to the pass that waits for it.
pub proof fn law_pass_awaits<E>(
    pass: Pass,
    idle_time: spec_fn(Mode) -> Result<u64, E>,
    set_idle: spec_fn(Mode) -> Result<(), E>,
    recompress: spec_fn(Mode) -> Result<(), E>,
)
    ensures
        pass.awaits(pass_reply(pass, idle_time, set_idle, recompress)),
{
}

} // verus!
