//! The service of the daemon: zram maintenance on request.
use crate::os::NANOS_PER_SECOND;
use crate::step::Step;
use crate::zram::recompression;
use crate::zram::recompression::ZramRecompression;
use crate::zram::stats::ZramBdStat;
use crate::zram::stats::ZramMmStat;
use crate::zram::writeback;
use crate::zram::writeback::ZramWriteback;
use vstd::prelude::*;

verus! {

// ---------------------------------------------------------------------------------------------
// Parameters
// ---------------------------------------------------------------------------------------------

/// The properties of the system that a writeback goes by; `None` for one that is not set.
#[derive(Debug, Clone, Copy)]
pub struct WritebackProps {
    /// The time that has to pass between two writebacks, in seconds.
    pub backoff: Option<u64>,
    /// The least idle time, in seconds.
    pub min_idle: Option<u64>,
    /// The most idle time, in seconds.
    pub max_idle: Option<u64>,
    /// Whether to write back huge idle pages.
    pub huge_idle_enabled: Option<bool>,
    /// Whether to write back idle pages.
    pub idle_enabled: Option<bool>,
    /// Whether to write back huge pages.
    pub huge_enabled: Option<bool>,
    /// The least number of bytes to write back at once.
    pub min_bytes: Option<u64>,
    /// The most bytes to write back at once.
    pub max_bytes: Option<u64>,
    /// The most bytes to write back in a day.
    pub max_bytes_per_day: Option<u64>,
}

/// The properties of the system that a recompression goes by; `None` for one that is not set.
#[derive(Debug, Clone, Copy)]
pub struct RecompressionProps {
    /// The time that has to pass between two recompressions, in seconds.
    pub backoff: Option<u64>,
    /// The least idle time, in seconds.
    pub min_idle: Option<u64>,
    /// The most idle time, in seconds.
    pub max_idle: Option<u64>,
    /// Whether to recompress huge idle pages.
    pub huge_idle_enabled: Option<bool>,
    /// Whether to recompress idle pages.
    pub idle_enabled: Option<bool>,
    /// Whether to recompress huge pages.
    pub huge_enabled: Option<bool>,
    /// The threshold that a recompression is given.
    pub threshold_mib: Option<u64>,
}

/// The value of a property, or `default` if it is not set.
pub open spec fn set_or<T>(property: Option<T>, default: T) -> T {
    match property {
        Some(value) => value,
        None => default,
    }
}

/// The duration in nanoseconds that a property gives in seconds, or `default` if it is not set.
pub open spec fn duration_or(seconds: Option<u64>, default: u128) -> u128 {
    match seconds {
        Some(seconds) => (seconds * NANOS_PER_SECOND) as u128,
        None => default,
    }
}

/// The duration that a property gives.
fn duration(seconds: Option<u64>, default: u128) -> (nanos: u128)
    ensures
        nanos == duration_or(seconds, default),
{
    match seconds {
        Some(seconds) => seconds as u128 * NANOS_PER_SECOND,
        None => default,
    }
}

/// The parameters of a writeback: what the properties say, and the defaults where they are not
/// set.
pub open spec fn writeback_params(props: WritebackProps) -> writeback::Params {
    let defaults = writeback::Params::defaults();
    writeback::Params {
        backoff_duration: duration_or(props.backoff, defaults.backoff_duration),
        min_idle: duration_or(props.min_idle, defaults.min_idle),
        max_idle: duration_or(props.max_idle, defaults.max_idle),
        huge_idle: set_or(props.huge_idle_enabled, defaults.huge_idle),
        idle: set_or(props.idle_enabled, defaults.idle),
        huge: set_or(props.huge_enabled, defaults.huge),
        min_bytes: set_or(props.min_bytes, defaults.min_bytes),
        max_bytes: set_or(props.max_bytes, defaults.max_bytes),
        max_bytes_per_day: set_or(props.max_bytes_per_day, defaults.max_bytes_per_day),
    }
}

/// The parameters of a recompression: what the properties say, and the defaults where they are
/// not set.
pub open spec fn recompression_params(props: RecompressionProps) -> recompression::Params {
    let defaults = recompression::Params::defaults();
    recompression::Params {
        backoff_duration: duration_or(props.backoff, defaults.backoff_duration),
        min_idle: duration_or(props.min_idle, defaults.min_idle),
        max_idle: duration_or(props.max_idle, defaults.max_idle),
        huge_idle: set_or(props.huge_idle_enabled, defaults.huge_idle),
        idle: set_or(props.idle_enabled, defaults.idle),
        huge: set_or(props.huge_enabled, defaults.huge),
        max_mib: set_or(props.threshold_mib, defaults.max_mib),
    }
}

/// Loads the parameters of a writeback from the properties.
pub fn load_zram_writeback_params(props: &WritebackProps) -> (params: writeback::Params)
    ensures
        params == writeback_params(*props),
        params.huge_idle == match props.huge_idle_enabled {
            Some(enabled) => enabled,
            None => true,
        },
        params.idle == match props.idle_enabled {
            Some(enabled) => enabled,
            None => true,
        },
        params.huge == match props.huge_enabled {
            Some(enabled) => enabled,
            None => true,
        },
        params.backoff_duration == match props.backoff {
            Some(seconds) => seconds * 1_000_000_000,
            None => 600_000_000_000int,
        },
        params.min_idle == match props.min_idle {
            Some(seconds) => seconds * 1_000_000_000,
            None => 72_000_000_000_000int,
        },
        params.max_idle == match props.max_idle {
            Some(seconds) => seconds * 1_000_000_000,
            None => 90_000_000_000_000int,
        },
        params.min_bytes == match props.min_bytes {
            Some(bytes) => bytes,
            None => 5_242_880u64,
        },
        params.max_bytes == match props.max_bytes {
            Some(bytes) => bytes,
            None => 314_572_800u64,
        },
        params.max_bytes_per_day == match props.max_bytes_per_day {
            Some(bytes) => bytes,
            None => 1_073_741_824u64,
        },
{
    let mut params = writeback::Params::default();
    params.backoff_duration = duration(props.backoff, params.backoff_duration);
    params.min_idle = duration(props.min_idle, params.min_idle);
    params.max_idle = duration(props.max_idle, params.max_idle);
    params.huge_idle = props.huge_idle_enabled.unwrap_or(params.huge_idle);
    params.idle = props.idle_enabled.unwrap_or(params.idle);
    params.huge = props.huge_enabled.unwrap_or(params.huge);
    params.min_bytes = props.min_bytes.unwrap_or(params.min_bytes);
    params.max_bytes = props.max_bytes.unwrap_or(params.max_bytes);
    params.max_bytes_per_day = props.max_bytes_per_day.unwrap_or(params.max_bytes_per_day);
    params
}

/// Loads the parameters of a recompression from the properties.
pub fn load_zram_recompression_params(props: &RecompressionProps) -> (params: recompression::Params)
    ensures
        params == recompression_params(*props),
        params.huge_idle == match props.huge_idle_enabled {
            Some(enabled) => enabled,
            None => true,
        },
        params.idle == match props.idle_enabled {
            Some(enabled) => enabled,
            None => true,
        },
        params.huge == match props.huge_enabled {
            Some(enabled) => enabled,
            None => true,
        },
        params.backoff_duration == match props.backoff {
            Some(seconds) => seconds * 1_000_000_000,
            None => 1_800_000_000_000int,
        },
        params.min_idle == match props.min_idle {
            Some(seconds) => seconds * 1_000_000_000,
            None => 7_200_000_000_000int,
        },
        params.max_idle == match props.max_idle {
            Some(seconds) => seconds * 1_000_000_000,
            None => 14_400_000_000_000int,
        },
        params.max_mib == match props.threshold_mib {
            Some(threshold) => threshold,
            None => 1024u64,
        },
{
    let mut params = recompression::Params::default();
    params.backoff_duration = duration(props.backoff, params.backoff_duration);
    params.min_idle = duration(props.min_idle, params.min_idle);
    params.max_idle = duration(props.max_idle, params.max_idle);
    params.huge_idle = props.huge_idle_enabled.unwrap_or(params.huge_idle);
    params.idle = props.idle_enabled.unwrap_or(params.idle);
    params.huge = props.huge_enabled.unwrap_or(params.huge);
    params.max_mib = props.threshold_mib.unwrap_or(params.max_mib);
    params
}

// ---------------------------------------------------------------------------------------------
// Writeback statistics
// ---------------------------------------------------------------------------------------------

/// Error from [`load_zram_writeback_stats`].
#[derive(Debug)]
pub enum StatsError<E> {
    /// Failed to load the memory statistics.
    LoadMmStat(E),
    /// Failed to load the backing device statistics.
    LoadBdStat(E),
}

/// What has to be read for the statistics.
#[derive(Debug, Clone, Copy, PartialEq, Eq)]
pub enum StatsAction {
    /// The memory statistics of the zram device.
    LoadMmStat,
    /// The backing device statistics of the zram device.
    LoadBdStat,
}

/// What came of a [`StatsAction`].
#[derive(Debug)]
pub enum StatsEvent<E> {
    /// The memory statistics.
    MmStat(Result<ZramMmStat, E>),
    /// The backing device statistics.
    BdStat(Result<ZramBdStat, E>),
}

/// Which outcome the loading of the statistics waits for.
#[derive(Debug, Clone, Copy)]
pub enum StatsStage {
    /// The memory statistics.
    MmStat,
    /// The backing device statistics, after these memory statistics.
    BdStat(ZramMmStat),
}

/// What the loading of the statistics wants next.
pub type StatsStep<E> = Step<StatsStage, StatsAction, Result<writeback::Stats, StatsError<E>>>;

/// What the loading wants after `event`: the backing device statistics after the memory
/// statistics, unless one of them cannot be loaded.
pub open spec fn stats_next<E>(stage: StatsStage, event: StatsEvent<E>) -> StatsStep<E> {
    match event {
        StatsEvent::MmStat(Err(e)) => Step::Finished(Err(StatsError::LoadMmStat(e))),
        StatsEvent::MmStat(Ok(mm_stat)) => Step::Perform {
            stage: StatsStage::BdStat(mm_stat),
            action: StatsAction::LoadBdStat,
        },
        StatsEvent::BdStat(Err(e)) => Step::Finished(Err(StatsError::LoadBdStat(e))),
        StatsEvent::BdStat(Ok(bd_stat)) => Step::Finished(
            Ok(
                writeback::Stats {
                    orig_data_size: stage->BdStat_0.orig_data_size,
                    current_writeback_pages: bd_stat.bd_count_pages,
                },
            ),
        ),
    }
}

/// Loads the statistics that a writeback needs. Returns the first step; [`StatsStage::resume`]
/// returns the others.
pub fn load_zram_writeback_stats<E>() -> (step: StatsStep<E>)
    ensures
        step == (StatsStep::<E>::Perform {
            stage: StatsStage::MmStat,
            action: StatsAction::LoadMmStat,
        }),
{
    Step::Perform { stage: StatsStage::MmStat, action: StatsAction::LoadMmStat }
}

impl StatsStage {
    /// Whether `event` is the outcome that the loading waits for.
    pub open spec fn awaits<E>(self, event: StatsEvent<E>) -> bool {
        match self {
            StatsStage::MmStat => event is MmStat,
            StatsStage::BdStat(_) => event is BdStat,
        }
    }

    /// Goes on with the loading after `event`.
    pub fn resume<E>(self, event: StatsEvent<E>) -> (step: StatsStep<E>)
        requires
            self.awaits(event),
        ensures
            step == stats_next(self, event),
    {
        match (self, event) {
            (StatsStage::MmStat, StatsEvent::MmStat(Ok(mm_stat))) => Step::Perform {
                stage: StatsStage::BdStat(mm_stat),
                action: StatsAction::LoadBdStat,
            },
            (StatsStage::BdStat(mm_stat), StatsEvent::BdStat(Ok(bd_stat))) => Step::Finished(
                Ok(
                    writeback::Stats {
                        orig_data_size: mm_stat.orig_data_size,
                        current_writeback_pages: bd_stat.bd_count_pages,
                    },
                ),
            ),
            (_, StatsEvent::MmStat(Err(e))) => Step::Finished(Err(StatsError::LoadMmStat(e))),
            (_, StatsEvent::BdStat(Err(e))) => Step::Finished(Err(StatsError::LoadBdStat(e))),
            _ => vstd::pervasive::unreached(),
        }
    }
}

// ---------------------------------------------------------------------------------------------
// Maintenance
// ---------------------------------------------------------------------------------------------

/// What zram maintenance works on.
#[derive(Debug, Clone, Copy)]
pub struct ZramContext {
    /// The writeback, if it is in use.
    pub zram_writeback: Option<ZramWriteback>,
    /// The recompression, if it is in use.
    pub zram_recompression: Option<ZramRecompression>,
}

/// The service of the daemon.
#[derive(Debug)]
pub struct MmdService {
    /// What the service works on.
    pub ctx: ZramContext,
}

/// Work for zram maintenance. `T` is the type of its texts.
#[derive(Debug)]
pub enum MaintenanceAction<T> {
    /// Read the properties that a recompression goes by, and then the clock.
    ReadRecompressionProps,
    /// Work for the recompression.
    Recompression(recompression::Action<T>),
    /// Read the properties that a writeback goes by.
    ReadWritebackProps,
    /// Work for the writeback statistics.
    Stats(StatsAction),
    /// Mark pages and write them back.
    FlushPages {
        /// The parameters of the writeback.
        params: writeback::Params,
        /// What the writeback needs to know of the zram device.
        stats: writeback::Stats,
    },
}

impl View for MaintenanceAction<String> {
    type V = MaintenanceAction<Seq<char>>;

    open spec fn view(&self) -> MaintenanceAction<Seq<char>> {
        match *self {
            MaintenanceAction::ReadRecompressionProps =>
                MaintenanceAction::ReadRecompressionProps,
            MaintenanceAction::Recompression(action) => MaintenanceAction::Recompression(action@),
            MaintenanceAction::ReadWritebackProps => MaintenanceAction::ReadWritebackProps,
            MaintenanceAction::Stats(action) => MaintenanceAction::Stats(action),
            MaintenanceAction::FlushPages { params, stats } => MaintenanceAction::FlushPages {
                params,
                stats,
            },
        }
    }
}

/// What came of a [`MaintenanceAction`].
#[derive(Debug)]
pub enum MaintenanceEvent<E> {
    /// The properties that a recompression goes by, and the time in nanoseconds.
    RecompressionProps {
        /// The properties.
        props: RecompressionProps,
        /// The time.
        now: u128,
    },
    /// What came of work for the recompression.
    Recompression(recompression::Event<E>),
    /// The properties that a writeback goes by.
    WritebackProps(WritebackProps),
    /// What came of work for the writeback statistics.
    Stats(StatsEvent<E>),
    /// Pages were written back, or were not.
    PagesFlushed(Result<(), writeback::Error<E>>),
}

/// Which outcome the maintenance waits for.
#[derive(Debug, Clone, Copy)]
pub enum MaintenanceStage {
    /// The properties that the recompression goes by.
    RecompressionProps,
    /// An outcome of this recompression pass.
    Recompression(recompression::Pass),
    /// The properties that the writeback goes by.
    WritebackProps,
    /// Statistics for a writeback with these parameters.
    Stats(writeback::Params, StatsStage),
    /// That of the writeback.
    PagesFlushed,
}

/// A failure that the maintenance reports.
#[derive(Debug)]
pub enum Failure<E> {
    /// Failed to zram recompress.
    Recompression(recompression::Error<E>),
    /// Failed to load zram writeback stats.
    WritebackStats(StatsError<E>),
    /// Failed to zram writeback.
    Writeback(writeback::Error<E>),
}

/// What the maintenance wants next. It always succeeds in the end.
pub type MaintenanceStep = Step<MaintenanceStage, MaintenanceAction<String>, ()>;

/// A [`MaintenanceStep`] in contracts.
pub type MaintenanceStepView = Step<MaintenanceStage, MaintenanceAction<Seq<char>>, ()>;

impl MaintenanceStage {
    /// Whether `event` is the outcome that the maintenance waits for.
    pub open spec fn awaits<E>(self, event: MaintenanceEvent<E>) -> bool {
        match (self, event) {
            (
                MaintenanceStage::RecompressionProps,
                MaintenanceEvent::RecompressionProps { .. },
            ) => true,
            (MaintenanceStage::Recompression(pass), MaintenanceEvent::Recompression(event)) =>
                pass.awaits(event),
            (MaintenanceStage::WritebackProps, MaintenanceEvent::WritebackProps(_)) => true,
            (MaintenanceStage::Stats(_, stage), MaintenanceEvent::Stats(event)) => stage.awaits(
                event,
            ),
            (MaintenanceStage::PagesFlushed, MaintenanceEvent::PagesFlushed(_)) => true,
            _ => false,
        }
    }

    /// Whether the stage is one of the recompression.
    pub open spec fn recompresses(self) -> bool {
        self is RecompressionProps || self is Recompression
    }
}

impl MmdService {
    /// How the maintenance goes about the writeback, if that is in use.
    pub open spec fn writeback_turn(self) -> MaintenanceStepView {
        if self.ctx.zram_writeback is Some {
            Step::Perform {
                stage: MaintenanceStage::WritebackProps,
                action: MaintenanceAction::ReadWritebackProps,
            }
        } else {
            Step::Finished(())
        }
    }

    /// How the maintenance starts: with the recompression, if that is in use.
    pub open spec fn maintenance_start(self) -> MaintenanceStepView {
        if self.ctx.zram_recompression is Some {
            Step::Perform {
                stage: MaintenanceStage::RecompressionProps,
                action: MaintenanceAction::ReadRecompressionProps,
            }
        } else {
            self.writeback_turn()
        }
    }

    /// How the maintenance follows a recompression pass: when the pass is over it goes on to the
    /// writeback. A failure of the pass is reported unless it backed off.
    pub open spec fn follow_pass<E>(self, step: recompression::PassStepView<E>) -> (
        Option<Failure<E>>,
        MaintenanceStepView,
    ) {
        match step {
            Step::Perform { stage, action } => (
                None,
                Step::Perform {
                    stage: MaintenanceStage::Recompression(stage),
                    action: MaintenanceAction::Recompression(action),
                },
            ),
            Step::Finished(result) => (pass_failure(result), self.writeback_turn()),
        }
    }

    /// What the maintenance wants after `event`, and the failure that it reports.
    pub open spec fn maintenance_next<E>(
        self,
        stage: MaintenanceStage,
        event: MaintenanceEvent<E>,
    ) -> (Option<Failure<E>>, MaintenanceStepView) {
        match event {
            MaintenanceEvent::RecompressionProps { props, now } => self.follow_pass(
                self.ctx.zram_recompression->0.pass_start::<E>(recompression_params(props), now),
            ),
            MaintenanceEvent::Recompression(event) => self.follow_pass(
                recompression::pass_next(stage->Recompression_0, event),
            ),
            MaintenanceEvent::WritebackProps(props) => (
                None,
                Step::Perform {
                    stage: MaintenanceStage::Stats(writeback_params(props), StatsStage::MmStat),
                    action: MaintenanceAction::Stats(StatsAction::LoadMmStat),
                },
            ),
            MaintenanceEvent::Stats(event) => follow_stats(
                stage->Stats_0,
                stats_next(stage->Stats_1, event),
            ),
            MaintenanceEvent::PagesFlushed(result) => (
                writeback_failure(result),
                Step::Finished(()),
            ),
        }
    }

    /// The service after `event`: the recompression remembers what it has done.
    pub open spec fn after<E>(self, stage: MaintenanceStage, event: MaintenanceEvent<E>) -> Self {
        match event {
            MaintenanceEvent::Recompression(event) => MmdService {
                ctx: ZramContext {
                    zram_recompression: Some(
                        self.ctx.zram_recompression->0.after(stage->Recompression_0, event),
                    ),
                    ..self.ctx
                },
            },
            _ => self,
        }
    }
}

/// The failure to report of a recompression pass with this result.
pub open spec fn pass_failure<E>(result: Result<(), recompression::Error<E>>) -> Option<
    Failure<E>,
> {
    match result {
        Ok(_) => None,
        Err(e) => if e is BackoffTime {
            None
        } else {
            Some(Failure::Recompression(e))
        },
    }
}

/// The failure to report of a writeback with this result.
pub open spec fn writeback_failure<E>(result: Result<(), writeback::Error<E>>) -> Option<
    Failure<E>,
> {
    match result {
        Ok(_) => None,
        Err(e) => if e is BackoffTime || e is Limit {
            None
        } else {
            Some(Failure::Writeback(e))
        },
    }
}

/// How the maintenance follows the loading of the statistics: with the writeback when they are
/// loaded. If they cannot be loaded, that is reported, and nothing is written back.
pub open spec fn follow_stats<E>(params: writeback::Params, step: StatsStep<E>) -> (
    Option<Failure<E>>,
    MaintenanceStepView,
) {
    match step {
        Step::Perform { stage, action } => (
            None,
            Step::Perform {
                stage: MaintenanceStage::Stats(params, stage),
                action: MaintenanceAction::Stats(action),
            },
        ),
        Step::Finished(Err(e)) => (Some(Failure::WritebackStats(e)), Step::Finished(())),
        Step::Finished(Ok(stats)) => (
            None,
            Step::Perform {
                stage: MaintenanceStage::PagesFlushed,
                action: MaintenanceAction::FlushPages { params, stats },
            },
        ),
    }
}

impl MmdService {
    /// A service for these.
    pub fn new(
        zram_writeback: Option<ZramWriteback>,
        zram_recompression: Option<ZramRecompression>,
    ) -> (service: Self)
        ensures
            service.ctx == (ZramContext { zram_writeback, zram_recompression }),
    {
        MmdService { ctx: ZramContext { zram_writeback, zram_recompression } }
    }

    /// Goes about the writeback, if that is in use.
    fn start_writeback(&self) -> (step: MaintenanceStep)
        ensures
            step@ == self.writeback_turn(),
    {
        if self.ctx.zram_writeback.is_some() {
            Step::Perform {
                stage: MaintenanceStage::WritebackProps,
                action: MaintenanceAction::ReadWritebackProps,
            }
        } else {
            Step::Finished(())
        }
    }

    /// Follows a recompression pass.
    fn continue_pass<E>(&self, step: recompression::PassStep<E>) -> (next: (
        Option<Failure<E>>,
        MaintenanceStep,
    ))
        ensures
            (next.0, next.1@) == self.follow_pass(step@),
    {
        match step {
            Step::Perform { stage, action } => (
                None,
                Step::Perform {
                    stage: MaintenanceStage::Recompression(stage),
                    action: MaintenanceAction::Recompression(action),
                },
            ),
            Step::Finished(Ok(_)) => (None, self.start_writeback()),
            Step::Finished(Err(recompression::Error::BackoffTime)) => (
                None,
                self.start_writeback(),
            ),
            Step::Finished(Err(e)) => (Some(Failure::Recompression(e)), self.start_writeback()),
        }
    }

    /// Does zram maintenance: recompression before writeback. Returns the first step;
    /// [`MmdService::resume`] returns the others.
    pub fn do_zram_maintenance(&self) -> (step: MaintenanceStep)
        ensures
            step@ == self.maintenance_start(),
    {
        // Execute recompression before writeback.
        if self.ctx.zram_recompression.is_some() {
            Step::Perform {
                stage: MaintenanceStage::RecompressionProps,
                action: MaintenanceAction::ReadRecompressionProps,
            }
        } else {
            self.start_writeback()
        }
    }

    /// Goes on with the maintenance after `event`. Returns a failure to report, if there is one,
    /// and the next step.
    pub fn resume<E>(&mut self, stage: MaintenanceStage, event: MaintenanceEvent<E>) -> (next: (
        Option<Failure<E>>,
        MaintenanceStep,
    ))
        requires
            stage.awaits(event),
            stage.recompresses() ==> old(self).ctx.zram_recompression is Some,
        ensures
            (next.0, next.1@) == old(self).maintenance_next(stage, event),
            *final(self) == old(self).after(stage, event),
    {
        match (stage, event) {
            (
                MaintenanceStage::RecompressionProps,
                MaintenanceEvent::RecompressionProps { props, now },
            ) => match self.ctx.zram_recompression {
                Some(recompression) => {
                    let params = load_zram_recompression_params(&props);
                    self.continue_pass(recompression.mark_and_recompress(&params, now))
                },
                None => vstd::pervasive::unreached(),
            },
            (MaintenanceStage::Recompression(pass), MaintenanceEvent::Recompression(event)) =>
                match self.ctx.zram_recompression {
                Some(memory) => {
                    let mut recompression = memory;
                    let step = recompression.resume(pass, event);
                    self.ctx.zram_recompression = Some(recompression);
                    self.continue_pass(step)
                },
                None => vstd::pervasive::unreached(),
            },
            (MaintenanceStage::WritebackProps, MaintenanceEvent::WritebackProps(props)) => {
                continue_stats(load_zram_writeback_params(&props), load_zram_writeback_stats())
            },
            (MaintenanceStage::Stats(params, stage), MaintenanceEvent::Stats(event)) => {
                continue_stats(params, stage.resume(event))
            },
            (MaintenanceStage::PagesFlushed, MaintenanceEvent::PagesFlushed(result)) => {
                let failure = match result {
                    Ok(_) => None,
                    Err(writeback::Error::BackoffTime) => None,
                    Err(writeback::Error::Limit) => None,
                    Err(e) => Some(Failure::Writeback(e)),
                };
                (failure, Step::Finished(()))
            },
            _ => vstd::pervasive::unreached(),
        }
    }
}

/// Follows the loading of the statistics.
fn continue_stats<E>(params: writeback::Params, step: StatsStep<E>) -> (next: (
    Option<Failure<E>>,
    MaintenanceStep,
))
    ensures
        (next.0, next.1@) == follow_stats(params, step),
{
    match step {
        Step::Perform { stage, action } => (
            None,
            Step::Perform {
                stage: MaintenanceStage::Stats(params, stage),
                action: MaintenanceAction::Stats(action),
            },
        ),
        Step::Finished(Err(e)) => (Some(Failure::WritebackStats(e)), Step::Finished(())),
        Step::Finished(Ok(stats)) => (
            None,
            Step::Perform {
                stage: MaintenanceStage::PagesFlushed,
                action: MaintenanceAction::FlushPages { params, stats },
            },
        ),
    }
}

// ---------------------------------------------------------------------------------------------
// Whole maintenances
// ---------------------------------------------------------------------------------------------

/// What a device says to all that a maintenance may ask of it.
pub ghost struct MaintenanceReplies<E> {
    /// The properties that the recompression goes by.
    pub recompression: RecompressionProps,
    /// The time.
    pub now: u128,
    /// The idle times for the recompression.
    pub idle_time: spec_fn(recompression::Mode) -> Result<u64, E>,
    /// The outcomes of marking pages for the recompression.
    pub set_idle: spec_fn(recompression::Mode) -> Result<(), E>,
    /// The outcomes of recompressing pages.
    pub recompress: spec_fn(recompression::Mode) -> Result<(), E>,
    /// The properties that the writeback goes by.
    pub writeback: WritebackProps,
    /// The memory statistics.
    pub mm_stat: Result<ZramMmStat, E>,
    /// The backing device statistics.
    pub bd_stat: Result<ZramBdStat, E>,
    /// The outcome of the writeback.
    pub flush: Result<(), writeback::Error<E>>,
}

/// What the device says of the action that `stage` waits for.
pub open spec fn maintenance_reply<E>(
    stage: MaintenanceStage,
    replies: MaintenanceReplies<E>,
) -> MaintenanceEvent<E> {
    match stage {
        MaintenanceStage::RecompressionProps => MaintenanceEvent::RecompressionProps {
            props: replies.recompression,
            now: replies.now,
        },
        MaintenanceStage::Recompression(pass) => MaintenanceEvent::Recompression(
            recompression::pass_reply(
                pass,
                replies.idle_time,
                replies.set_idle,
                replies.recompress,
            ),
        ),
        MaintenanceStage::WritebackProps => MaintenanceEvent::WritebackProps(replies.writeback),
        MaintenanceStage::Stats(_, StatsStage::MmStat) => MaintenanceEvent::Stats(
            StatsEvent::MmStat(replies.mm_stat),
        ),
        MaintenanceStage::Stats(_, StatsStage::BdStat(_)) => MaintenanceEvent::Stats(
            StatsEvent::BdStat(replies.bd_stat),
        ),
        MaintenanceStage::PagesFlushed => MaintenanceEvent::PagesFlushed(replies.flush),
    }
}

/// A number that gets smaller with every step of a maintenance.
pub open spec fn maintenance_rank(step: MaintenanceStepView) -> nat {
    match step {
        Step::Finished(_) => 0,
        Step::Perform { stage: MaintenanceStage::PagesFlushed, .. } => 1,
        Step::Perform { stage: MaintenanceStage::Stats(_, StatsStage::BdStat(_)), .. } => 2,
        Step::Perform { stage: MaintenanceStage::Stats(_, StatsStage::MmStat), .. } => 3,
        Step::Perform { stage: MaintenanceStage::WritebackProps, .. } => 4,
        Step::Perform {
            stage: MaintenanceStage::Recompression(pass),
            action: MaintenanceAction::Recompression(action),
        } => 4 + recompression::pass_rank::<()>(Step::Perform { stage: pass, action }),
        Step::Perform { stage: MaintenanceStage::Recompression(_), .. } => 14,
        Step::Perform { stage: MaintenanceStage::RecompressionProps, .. } => 15,
    }
}

/// A failure as a sequence of at most one.
pub open spec fn reported<E>(failure: Option<Failure<E>>) -> Seq<Failure<E>> {
    match failure {
        Some(failure) => seq![failure],
        None => seq![],
    }
}

/// A maintenance from `step` on: its actions, the failures it reports, and the service after it.
pub open spec fn maintenance_run<E>(
    service: MmdService,
    step: MaintenanceStepView,
    replies: MaintenanceReplies<E>,
) -> (Seq<MaintenanceAction<Seq<char>>>, Seq<Failure<E>>, MmdService)
    decreases maintenance_rank(step),
{
    match step {
        Step::Finished(_) => (seq![], seq![], service),
        Step::Perform { stage, action } => {
            let event = maintenance_reply(stage, replies);
            let (failure, next) = service.maintenance_next(stage, event);
            let (actions, failures, after) = maintenance_run(
                service.after(stage, event),
                next,
                replies,
            );
            (seq![action] + actions, reported(failure) + failures, after)
        },
    }
}

/// What a maintenance does for the recompression: its actions, the failures it reports, and the
/// service after it.
pub open spec fn recompression_part<E>(service: MmdService, replies: MaintenanceReplies<E>) -> (
    Seq<MaintenanceAction<Seq<char>>>,
    Seq<Failure<E>>,
    MmdService,
) {
    match service.ctx.zram_recompression {
        None => (seq![], seq![], service),
        Some(memory) => {
            let (actions, result, after) = recompression::pass_run(
                memory,
                memory.pass_start::<E>(recompression_params(replies.recompression), replies.now),
                replies.idle_time,
                replies.set_idle,
                replies.recompress,
            );
            (
                seq![MaintenanceAction::ReadRecompressionProps] + actions.map_values(
                    |action: recompression::Action<Seq<char>>|
                        MaintenanceAction::Recompression(action),
                ),
                reported(pass_failure(result)),
                MmdService { ctx: ZramContext { zram_recompression: Some(after), ..service.ctx } },
            )
        },
    }
}

/// What a maintenance does for the writeback: its actions and the failures it reports. Pages are
/// written back exactly when the writeback is in use and both statistics can be loaded.
pub open spec fn writeback_part<E>(service: MmdService, replies: MaintenanceReplies<E>) -> (
    Seq<MaintenanceAction<Seq<char>>>,
    Seq<Failure<E>>,
) {
    let params = MaintenanceAction::ReadWritebackProps;
    let mm_stat = MaintenanceAction::Stats(StatsAction::LoadMmStat);
    let bd_stat = MaintenanceAction::Stats(StatsAction::LoadBdStat);
    if service.ctx.zram_writeback is None {
        (seq![], seq![])
    } else {
        match (replies.mm_stat, replies.bd_stat) {
            (Err(e), _) => (
                seq![params, mm_stat],
                seq![Failure::WritebackStats(StatsError::LoadMmStat(e))],
            ),
            (Ok(_), Err(e)) => (
                seq![params, mm_stat, bd_stat],
                seq![Failure::WritebackStats(StatsError::LoadBdStat(e))],
            ),
            (Ok(mm), Ok(bd)) => (
                seq![
                    params,
                    mm_stat,
                    bd_stat,
                    MaintenanceAction::FlushPages {
                        params: writeback_params(replies.writeback),
                        stats: writeback::Stats {
                            orig_data_size: mm.orig_data_size,
                            current_writeback_pages: bd.bd_count_pages,
                        },
                    },
                ],
                reported(writeback_failure(replies.flush)),
            ),
        }
    }
}

/// The writeback turn of a maintenance does what is said of the writeback.
proof fn lemma_writeback_turn<E>(service: MmdService, replies: MaintenanceReplies<E>)
    ensures
        maintenance_run(service, service.writeback_turn(), replies) == (
            writeback_part(service, replies).0,
            writeback_part(service, replies).1,
            service,
        ),
{
    reveal_with_fuel(maintenance_run, 5);
    let (actions, failures, _) = maintenance_run(service, service.writeback_turn(), replies);
    assert(actions =~= writeback_part(service, replies).0);
    assert(failures =~= writeback_part(service, replies).1);
}

/// Following a recompression pass from one of its steps on performs its actions, reports its
/// failure, and then goes about the writeback.
proof fn lemma_follow_pass<E>(
    service: MmdService,
    memory: ZramRecompression,
    step: recompression::PassStepView<E>,
    replies: MaintenanceReplies<E>,
)
    requires
        service.ctx.zram_recompression == Some(memory),
    ensures
        ({
            let (failure, next) = service.follow_pass(step);
            let (actions, failures, after) = maintenance_run(service, next, replies);
            let (pass_actions, result, pass_after) = recompression::pass_run(
                memory,
                step,
                replies.idle_time,
                replies.set_idle,
                replies.recompress,
            );
            &&& actions == pass_actions.map_values(
                |action: recompression::Action<Seq<char>>|
                    MaintenanceAction::Recompression(action),
            ) + writeback_part(service, replies).0
            &&& reported(failure) + failures == reported(pass_failure(result)) + writeback_part(
                service,
                replies,
            ).1
            &&& after == (MmdService {
                ctx: ZramContext { zram_recompression: Some(pass_after), ..service.ctx },
            })
        }),
    decreases recompression::pass_rank(step),
{
    let wrap = |action: recompression::Action<Seq<char>>| MaintenanceAction::Recompression(action);
    let (failure, next) = service.follow_pass(step);
    let (actions, failures, after) = maintenance_run(service, next, replies);
    let (pass_actions, result, pass_after) = recompression::pass_run(
        memory,
        step,
        replies.idle_time,
        replies.set_idle,
        replies.recompress,
    );
    match step {
        Step::Finished(_) => {
            lemma_writeback_turn(service, replies);
            assert(pass_actions.map_values(wrap) =~= seq![]);
            assert(actions =~= pass_actions.map_values(wrap) + writeback_part(service, replies).0);
        },
        Step::Perform { stage, action } => {
            let event = recompression::pass_reply(
                stage,
                replies.idle_time,
                replies.set_idle,
                replies.recompress,
            );
            let later = service.after(
                MaintenanceStage::Recompression(stage),
                MaintenanceEvent::Recompression(event),
            );
            let next_step = recompression::pass_next(stage, event);
            lemma_follow_pass(later, memory.after(stage, event), next_step, replies);
            assert(later.follow_pass(next_step) == service.follow_pass(next_step));
            assert(writeback_part(later, replies) == writeback_part(service, replies));
            let rest = recompression::pass_run(
                memory.after(stage, event),
                next_step,
                replies.idle_time,
                replies.set_idle,
                replies.recompress,
            ).0;
            assert((seq![action] + rest).map_values(wrap) =~= seq![wrap(action)]
                + rest.map_values(wrap));
            assert(actions =~= pass_actions.map_values(wrap) + writeback_part(service, replies).0);
            assert(reported(failure) + failures =~= failures);
        },
    }
}

/// A maintenance does the recompression first, as a pass of its own, and then the writeback.
/// Whatever comes of the recompression, the writeback is done the same, and whatever comes of
/// either, the maintenance comes to its end. Nothing but the memory of the recompression
/// changes.
pub proof fn law_maintenance<E>(service: MmdService, replies: MaintenanceReplies<E>)
    ensures
        ({
            let (actions, failures, after) = maintenance_run(
                service,
                service.maintenance_start(),
                replies,
            );
            let recompression = recompression_part(service, replies);
            let writeback = writeback_part(service, replies);
            &&& actions == recompression.0 + writeback.0
            &&& failures == recompression.1 + writeback.1
            &&& after == recompression.2
            &&& after.ctx.zram_writeback == service.ctx.zram_writeback
        }),
{
    let (actions, failures, after) = maintenance_run(
        service,
        service.maintenance_start(),
        replies,
    );
    let recompression = recompression_part(service, replies);
    let writeback = writeback_part(service, replies);
    match service.ctx.zram_recompression {
        None => {
            lemma_writeback_turn(service, replies);
            assert(actions =~= recompression.0 + writeback.0);
            assert(failures =~= recompression.1 + writeback.1);
        },
        Some(memory) => {
            lemma_follow_pass(
                service,
                memory,
                memory.pass_start::<E>(recompression_params(replies.recompression), replies.now),
                replies,
            );
            assert(actions =~= recompression.0 + writeback.0);
            assert(failures =~= recompression.1 + writeback.1);
        },
    }
}

/// While the recompression backs off, a maintenance does nothing for it but read its properties,
/// and reports nothing of it.
pub proof fn law_maintenance_within_backoff<E>(service: MmdService, replies: MaintenanceReplies<E>)
    requires
        service.ctx.zram_recompression matches Some(memory) && memory.backs_off(
            recompression_params(replies.recompression).backoff_duration,
            replies.now,
        ),
    ensures
        recompression_part(service, replies) == (
            seq![MaintenanceAction::<Seq<char>>::ReadRecompressionProps],
            Seq::<Failure<E>>::empty(),
            service,
        ),
{
    let part = recompression_part(service, replies);
    assert(part.0 =~= seq![MaintenanceAction::<Seq<char>>::ReadRecompressionProps]);
    assert(part.1 =~= seq![]);
}

/// The triggers that `actions` recompress pages with, in order.
pub open spec fn recompress_writes(actions: Seq<MaintenanceAction<Seq<char>>>) -> Seq<Seq<char>>
    decreases actions.len(),
{
    if actions.len() == 0 {
        seq![]
    } else {
        let before = recompress_writes(actions.drop_last());
        match actions.last() {
            MaintenanceAction::Recompression(recompression::Action::Recompress(trigger)) =>
                before.push(trigger),
            _ => before,
        }
    }
}

/// The trigger that recompresses the pages of `mode` if they are enabled, and none otherwise.
pub open spec fn enabled_trigger(params: recompression::Params, mode: recompression::Mode) -> Seq<
    Seq<char>,
> {
    if params.enables(mode) {
        seq![recompression::trigger(mode, params.max_mib)]
    } else {
        seq![]
    }
}

/// The triggers that recompress all pages that are enabled, in order.
pub open spec fn enabled_triggers(params: recompression::Params) -> Seq<Seq<char>> {
    enabled_trigger(params, recompression::Mode::HugeIdle) + (enabled_trigger(
        params,
        recompression::Mode::Idle,
    ) + enabled_trigger(params, recompression::Mode::Huge))
}

/// Whether a pass can be made with `params`: the idle times are in order, or no pages have to be
/// idle.
pub open spec fn idle_times_ok(params: recompression::Params) -> bool {
    params.min_idle <= params.max_idle || !(params.huge_idle || params.idle)
}

/// Whether the device says of no action of a recompression that it failed.
pub open spec fn recompression_succeeds<E>(replies: MaintenanceReplies<E>) -> bool {
    &&& forall|mode: recompression::Mode| #[trigger] (replies.idle_time)(mode) is Ok
    &&& forall|mode: recompression::Mode| #[trigger] (replies.set_idle)(mode) is Ok
    &&& forall|mode: recompression::Mode| #[trigger] (replies.recompress)(mode) is Ok
}

/// The triggers of some actions and then others.
proof fn lemma_writes_concat(
    first: Seq<MaintenanceAction<Seq<char>>>,
    then: Seq<MaintenanceAction<Seq<char>>>,
)
    ensures
        recompress_writes(first + then) == recompress_writes(first) + recompress_writes(then),
    decreases then.len(),
{
    if then.len() == 0 {
        assert(first + then =~= first);
        assert(recompress_writes(first) + recompress_writes(then) =~= recompress_writes(first));
    } else {
        lemma_writes_concat(first, then.drop_last());
        assert((first + then).drop_last() =~= first + then.drop_last());
        assert((first + then).last() == then.last());
        assert(recompress_writes(first + then) =~= recompress_writes(first) + recompress_writes(
            then,
        ));
    }
}

/// The actions of a plan as actions of a maintenance.
spec fn planned_actions(plan: Seq<recompression::Planned>) -> Seq<MaintenanceAction<Seq<char>>> {
    Seq::new(plan.len(), |i: int| MaintenanceAction::Recompression(plan[i].action))
}

/// The plan for the pages of a mode has one trigger if they are enabled.
proof fn lemma_mode_writes<E>(
    params: recompression::Params,
    mode: recompression::Mode,
    idle_time: spec_fn(recompression::Mode) -> Result<u64, E>,
)
    ensures
        recompress_writes(
            planned_actions(recompression::enabled_plan(params, mode, idle_time)),
        ) == enabled_trigger(params, mode),
{
    reveal_with_fuel(recompress_writes, 4);
    let actions = planned_actions(recompression::enabled_plan(params, mode, idle_time));
    assert(recompress_writes(actions) =~= enabled_trigger(params, mode));
}

/// A pass for which nothing fails, and which does not back off, writes the triggers of the
/// enabled pages, and remembers its start if there are any.
proof fn lemma_pass_writes<E>(
    service: MmdService,
    memory: ZramRecompression,
    replies: MaintenanceReplies<E>,
)
    requires
        service.ctx.zram_recompression == Some(memory),
        !memory.backs_off(
            recompression_params(replies.recompression).backoff_duration,
            replies.now,
        ),
        idle_times_ok(recompression_params(replies.recompression)),
        recompression_succeeds(replies),
    ensures
        recompress_writes(recompression_part(service, replies).0) == enabled_triggers(
            recompression_params(replies.recompression),
        ),
        recompression_params(replies.recompression).first_mode() is Some
            ==> recompression_part(service, replies).2.ctx.zram_recompression == Some(
            ZramRecompression { last_recompress_at: Some(replies.now) },
        ),
{
    let params = recompression_params(replies.recompression);
    let plan = recompression::pass_plan(params, replies.idle_time);
    recompression::law_pass_carries_out_plan(
        memory,
        params,
        replies.now,
        replies.idle_time,
        replies.set_idle,
        replies.recompress,
    );
    recompression::law_plan_without_failure(
        memory,
        replies.now,
        plan,
        replies.idle_time,
        replies.set_idle,
        replies.recompress,
    );
    let huge_idle = recompression::enabled_plan(
        params,
        recompression::Mode::HugeIdle,
        replies.idle_time,
    );
    let idle = recompression::enabled_plan(params, recompression::Mode::Idle, replies.idle_time);
    let huge = recompression::enabled_plan(params, recompression::Mode::Huge, replies.idle_time);
    lemma_mode_writes(params, recompression::Mode::HugeIdle, replies.idle_time);
    lemma_mode_writes(params, recompression::Mode::Idle, replies.idle_time);
    lemma_mode_writes(params, recompression::Mode::Huge, replies.idle_time);
    lemma_writes_concat(planned_actions(idle), planned_actions(huge));
    lemma_writes_concat(planned_actions(huge_idle), planned_actions(idle + huge));
    let read = seq![MaintenanceAction::<Seq<char>>::ReadRecompressionProps];
    lemma_writes_concat(read, planned_actions(plan));
    assert(planned_actions(idle + huge) =~= planned_actions(idle) + planned_actions(huge));
    assert(planned_actions(plan) =~= planned_actions(huge_idle) + planned_actions(idle + huge));
    assert(recompression_part(service, replies).0 =~= read + planned_actions(plan));
    reveal_with_fuel(recompress_writes, 2);
    assert(recompress_writes(read) =~= seq![]);
    assert(recompress_writes(read + planned_actions(plan)) =~= enabled_triggers(params));
}

/// The writeback recompresses nothing.
proof fn lemma_writeback_writes<E>(service: MmdService, replies: MaintenanceReplies<E>)
    ensures
        recompress_writes(writeback_part(service, replies).0) == Seq::<Seq<char>>::empty(),
{
    reveal_with_fuel(recompress_writes, 5);
}

/// Between two maintenances the recompression backs off. After a maintenance that recompressed
/// pages, one that comes before the backoff duration is over recompresses nothing; one that
/// comes when it is over, or later, recompresses all enabled pages again.
///
/// The idle times have to be in order or not needed: see
/// [`recompression::law_pass_refuses_idle_times`].
pub proof fn law_backoff_between_maintenances<E>(
    service: MmdService,
    first: MaintenanceReplies<E>,
    second: MaintenanceReplies<E>,
)
    requires
        service.ctx.zram_recompression matches Some(memory) && !memory.backs_off(
            recompression_params(first.recompression).backoff_duration,
            first.now,
        ),
        recompression_params(first.recompression).first_mode() is Some,
        idle_times_ok(recompression_params(first.recompression)),
        recompression_succeeds(first),
        first.now <= second.now,
        second.now - first.now >= recompression_params(second.recompression).backoff_duration
            ==> idle_times_ok(recompression_params(second.recompression))
            && recompression_succeeds(second),
    ensures
        ({
            let (actions, _, after) = maintenance_run(
                service,
                service.maintenance_start(),
                first,
            );
            let (later_actions, _, _) = maintenance_run(after, after.maintenance_start(), second);
            let params = recompression_params(second.recompression);
            &&& recompress_writes(actions) == enabled_triggers(
                recompression_params(first.recompression),
            )
            &&& recompress_writes(later_actions) == if second.now - first.now
                < params.backoff_duration {
                seq![]
            } else {
                enabled_triggers(params)
            }
        }),
{
    let memory = service.ctx.zram_recompression->0;
    let (actions, _, after) = maintenance_run(service, service.maintenance_start(), first);
    let (later_actions, _, _) = maintenance_run(after, after.maintenance_start(), second);
    let params = recompression_params(second.recompression);
    law_maintenance(service, first);
    law_maintenance(after, second);
    lemma_pass_writes(service, memory, first);
    lemma_writeback_writes(service, first);
    lemma_writeback_writes(after, second);
    lemma_writes_concat(recompression_part(service, first).0, writeback_part(service, first).0);
    lemma_writes_concat(recompression_part(after, second).0, writeback_part(after, second).0);
    let remembered = ZramRecompression { last_recompress_at: Some(first.now) };
    assert(after.ctx.zram_recompression == Some(remembered));
    assert(remembered.backs_off(params.backoff_duration, second.now) <==> second.now - first.now
        < params.backoff_duration);
    if remembered.backs_off(params.backoff_duration, second.now) {
        law_maintenance_within_backoff(after, second);
        reveal_with_fuel(recompress_writes, 2);
        assert(recompress_writes(recompression_part(after, second).0) =~= seq![]);
        assert(recompress_writes(later_actions) =~= seq![]);
    } else {
        lemma_pass_writes(after, remembered, second);
        assert(recompress_writes(later_actions) =~= enabled_triggers(params));
    }
    assert(recompress_writes(actions) =~= enabled_triggers(
        recompression_params(first.recompression),
    ));
}

/// Whether `props` leave the kinds of pages and the idle times of a recompression as they are by
/// default.
pub open spec fn default_kinds(props: RecompressionProps) -> bool {
    &&& props.huge_idle_enabled is None
    &&& props.idle_enabled is None
    &&& props.huge_enabled is None
    &&& props.min_idle is None
    &&& props.max_idle is None
}

/// Unless a property says otherwise, huge idle, idle and huge pages are all recompressed, in this
/// order, and again when the backoff duration is over but not before.
pub proof fn law_backoff_with_default_kinds<E>(
    service: MmdService,
    first: MaintenanceReplies<E>,
    second: MaintenanceReplies<E>,
)
    requires
        service.ctx.zram_recompression matches Some(memory) && !memory.backs_off(
            recompression_params(first.recompression).backoff_duration,
            first.now,
        ),
        default_kinds(first.recompression),
        second.recompression == first.recompression,
        recompression_succeeds(first),
        first.now <= second.now,
        second.now - first.now >= recompression_params(first.recompression).backoff_duration
            ==> recompression_succeeds(second),
    ensures
        ({
            let (actions, _, after) = maintenance_run(
                service,
                service.maintenance_start(),
                first,
            );
            let (later_actions, _, _) = maintenance_run(after, after.maintenance_start(), second);
            let params = recompression_params(first.recompression);
            let all = seq![
                recompression::trigger(recompression::Mode::HugeIdle, params.max_mib),
                recompression::trigger(recompression::Mode::Idle, params.max_mib),
                recompression::trigger(recompression::Mode::Huge, params.max_mib),
            ];
            &&& recompress_writes(actions) == all
            &&& recompress_writes(later_actions) == if second.now - first.now
                < params.backoff_duration {
                seq![]
            } else {
                all
            }
        }),
{
    law_backoff_between_maintenances(service, first, second);
    let params = recompression_params(first.recompression);
    assert(enabled_triggers(params) =~= seq![
        recompression::trigger(recompression::Mode::HugeIdle, params.max_mib),
        recompression::trigger(recompression::Mode::Idle, params.max_mib),
        recompression::trigger(recompression::Mode::Huge, params.max_mib),
    ]);
}

/// Whether the service has what `step` works on.
pub open spec fn can_resume(service: MmdService, step: MaintenanceStepView) -> bool {
    step matches Step::Perform { stage, .. } ==> stage.recompresses()
        ==> service.ctx.zram_recompression is Some
}

/// A maintenance never loses what it works on: each of its steps can be resumed with whatever
/// outcome it waits for.
pub proof fn law_maintenance_can_resume<E>(
    service: MmdService,
    stage: MaintenanceStage,
    action: MaintenanceAction<Seq<char>>,
    event: MaintenanceEvent<E>,
)
    requires
        can_resume(service, Step::Perform { stage, action }),
        stage.awaits(event),
    ensures
        can_resume(service, service.maintenance_start()),
        can_resume(service.after(stage, event), service.maintenance_next(stage, event).1),
{
}

/// Each parameter of a writeback is its own property where that is set, whatever the others are,
/// with durations in seconds. Where it is not set, it is its own default: every kind of pages, ten
/// minutes of backoff, 20 to 25 hours of idleness, 5 to 300 MiB at once, and 1 GiB in a day.
pub proof fn law_writeback_params(props: WritebackProps)
    ensures
        writeback_params(props).huge_idle == match props.huge_idle_enabled {
            Some(enabled) => enabled,
            None => true,
        },
        writeback_params(props).idle == match props.idle_enabled {
            Some(enabled) => enabled,
            None => true,
        },
        writeback_params(props).huge == match props.huge_enabled {
            Some(enabled) => enabled,
            None => true,
        },
        writeback_params(props).backoff_duration == match props.backoff {
            Some(seconds) => seconds * 1_000_000_000,
            None => 600_000_000_000int,
        },
        writeback_params(props).min_idle == match props.min_idle {
            Some(seconds) => seconds * 1_000_000_000,
            None => 72_000_000_000_000int,
        },
        writeback_params(props).max_idle == match props.max_idle {
            Some(seconds) => seconds * 1_000_000_000,
            None => 90_000_000_000_000int,
        },
        writeback_params(props).min_bytes == match props.min_bytes {
            Some(bytes) => bytes,
            None => 5_242_880u64,
        },
        writeback_params(props).max_bytes == match props.max_bytes {
            Some(bytes) => bytes,
            None => 314_572_800u64,
        },
        writeback_params(props).max_bytes_per_day == match props.max_bytes_per_day {
            Some(bytes) => bytes,
            None => 1_073_741_824u64,
        },
{
}

/// Each parameter of a recompression is its own property where that is set, whatever the others
/// are, with durations in seconds. Where it is not set, it is its own default: every kind of
/// pages, half an hour of backoff, 2 to 4 hours of idleness, and a threshold of 1024.
pub proof fn law_recompression_params(props: RecompressionProps)
    ensures
        recompression_params(props).huge_idle == match props.huge_idle_enabled {
            Some(enabled) => enabled,
            None => true,
        },
        recompression_params(props).idle == match props.idle_enabled {
            Some(enabled) => enabled,
            None => true,
        },
        recompression_params(props).huge == match props.huge_enabled {
            Some(enabled) => enabled,
            None => true,
        },
        recompression_params(props).backoff_duration == match props.backoff {
            Some(seconds) => seconds * 1_000_000_000,
            None => 1_800_000_000_000int,
        },
        recompression_params(props).min_idle == match props.min_idle {
            Some(seconds) => seconds * 1_000_000_000,
            None => 7_200_000_000_000int,
        },
        recompression_params(props).max_idle == match props.max_idle {
            Some(seconds) => seconds * 1_000_000_000,
            None => 14_400_000_000_000int,
        },
        recompression_params(props).max_mib == match props.threshold_mib {
            Some(threshold) => threshold,
            None => 1024u64,
        },
{
}

/// The statistics of a writeback are the original data size of the memory statistics and the
/// count of pages of the backing device statistics, which are loaded in this order. What cannot
/// be loaded first is the error.
pub proof fn law_stats<E>(mm_stat: Result<ZramMmStat, E>, bd_stat: Result<ZramBdStat, E>)
    ensures
        ({
            let second = stats_next(StatsStage::MmStat, StatsEvent::MmStat(mm_stat));
            match mm_stat {
                Err(e) => second == StatsStep::<E>::Finished(Err(StatsError::LoadMmStat(e))),
                Ok(mm) => {
                    &&& second matches Step::Perform { stage, action }
                    &&& action == StatsAction::LoadBdStat
                    &&& match bd_stat {
                        Err(e) => stats_next(stage, StatsEvent::BdStat(bd_stat)) == StatsStep::<
                            E,
                        >::Finished(Err(StatsError::LoadBdStat(e))),
                        Ok(bd) => {
                            &&& stats_next(stage, StatsEvent::BdStat(bd_stat)) matches
                                Step::Finished(Ok(stats))
                            &&& stats.orig_data_size == mm.orig_data_size
                            &&& stats.current_writeback_pages == bd.bd_count_pages
                        },
                    }
                },
            }
        }),
{
}

/// A maintenance of a service with both parts is one of the same service without writeback,
/// followed by one of the same service without recompression: neither part changes what is done
/// for the other.
pub proof fn law_maintenance_parts<E>(service: MmdService, replies: MaintenanceReplies<E>)
    ensures
        ({
            let one = MmdService { ctx: ZramContext { zram_writeback: None, ..service.ctx } };
            let other = MmdService {
                ctx: ZramContext { zram_recompression: None, ..service.ctx },
            };
            let both = maintenance_run(service, service.maintenance_start(), replies);
            let first = maintenance_run(one, one.maintenance_start(), replies);
            let second = maintenance_run(other, other.maintenance_start(), replies);
            &&& both.0 == first.0 + second.0
            &&& both.1 == first.1 + second.1
            &&& both.2.ctx.zram_recompression == first.2.ctx.zram_recompression
            &&& both.2.ctx.zram_writeback == service.ctx.zram_writeback
            &&& first.2.ctx.zram_writeback is None
            &&& second.2 == other
        }),
{
    let one = MmdService { ctx: ZramContext { zram_writeback: None, ..service.ctx } };
    let other = MmdService { ctx: ZramContext { zram_recompression: None, ..service.ctx } };
    let both = maintenance_run(service, service.maintenance_start(), replies);
    let first = maintenance_run(one, one.maintenance_start(), replies);
    let second = maintenance_run(other, other.maintenance_start(), replies);
    law_maintenance(service, replies);
    law_maintenance(one, replies);
    law_maintenance(other, replies);
    assert(both.0 =~= first.0 + second.0);
    assert(both.1 =~= first.1 + second.1);
}

/// A maintenance for the recompression alone reads the properties and the clock, and then
/// performs a pass with the parameters that those properties give, at that time. It reports the
/// failure of that pass, but says nothing of a backoff, and the service keeps what the pass
/// remembers. Without a recompression nothing is done.
pub proof fn law_recompression_maintenance<E>(
    service: MmdService,
    replies: MaintenanceReplies<E>,
)
    requires
        service.ctx.zram_writeback is None,
    ensures
        ({
            let (actions, failures, after) = maintenance_run(
                service,
                service.maintenance_start(),
                replies,
            );
            match service.ctx.zram_recompression {
                None => {
                    &&& actions.len() == 0
                    &&& failures.len() == 0
                    &&& after == service
                },
                Some(memory) => {
                    let (pass_actions, result, pass_after) = recompression::pass_run(
                        memory,
                        memory.pass_start::<E>(
                            recompression_params(replies.recompression),
                            replies.now,
                        ),
                        replies.idle_time,
                        replies.set_idle,
                        replies.recompress,
                    );
                    &&& actions.len() == 1 + pass_actions.len()
                    &&& actions[0] == MaintenanceAction::<Seq<char>>::ReadRecompressionProps
                    &&& forall|i: int|
                        0 <= i < pass_actions.len() ==> actions[i + 1]
                            == MaintenanceAction::Recompression(#[trigger] pass_actions[i])
                    &&& (result is Ok || result == Err::<(), _>(
                        recompression::Error::<E>::BackoffTime,
                    )) ==> failures == Seq::<Failure<E>>::empty()
                    &&& (result is Err && result != Err::<(), _>(
                        recompression::Error::<E>::BackoffTime,
                    )) ==> failures == seq![Failure::Recompression(result->Err_0)]
                    &&& after.ctx.zram_recompression == Some(pass_after)
                    &&& after.ctx.zram_writeback is None
                },
            }
        }),
{
    law_maintenance(service, replies);
}

/// A maintenance for the writeback alone reads the properties, loads the memory statistics and
/// the backing device statistics, and writes pages back with what they say. What cannot be loaded
/// is reported, and then nothing is written back. A writeback that fails is reported, unless it
/// is within its backoff or at its limit. Without a writeback nothing is done.
pub proof fn law_writeback_maintenance<E>(service: MmdService, replies: MaintenanceReplies<E>)
    requires
        service.ctx.zram_recompression is None,
    ensures
        ({
            let (actions, failures, after) = maintenance_run(
                service,
                service.maintenance_start(),
                replies,
            );
            let read = MaintenanceAction::<Seq<char>>::ReadWritebackProps;
            let mm_stat = MaintenanceAction::<Seq<char>>::Stats(StatsAction::LoadMmStat);
            let bd_stat = MaintenanceAction::<Seq<char>>::Stats(StatsAction::LoadBdStat);
            &&& after == service
            &&& if service.ctx.zram_writeback is None {
                &&& actions.len() == 0
                &&& failures.len() == 0
            } else if replies.mm_stat is Err {
                &&& actions == seq![read, mm_stat]
                &&& failures == seq![
                    Failure::WritebackStats(StatsError::LoadMmStat(replies.mm_stat->Err_0)),
                ]
            } else if replies.bd_stat is Err {
                &&& actions == seq![read, mm_stat, bd_stat]
                &&& failures == seq![
                    Failure::WritebackStats(StatsError::LoadBdStat(replies.bd_stat->Err_0)),
                ]
            } else {
                &&& actions.len() == 4
                &&& actions[0] == read
                &&& actions[1] == mm_stat
                &&& actions[2] == bd_stat
                &&& actions[3] matches MaintenanceAction::FlushPages { params, stats }
                &&& params == writeback_params(replies.writeback)
                &&& stats.orig_data_size == replies.mm_stat->Ok_0.orig_data_size
                &&& stats.current_writeback_pages == replies.bd_stat->Ok_0.bd_count_pages
                &&& match replies.flush {
                    Ok(_) => failures == Seq::<Failure<E>>::empty(),
                    Err(writeback::Error::BackoffTime) => failures == Seq::<Failure<E>>::empty(),
                    Err(writeback::Error::Limit) => failures == Seq::<Failure<E>>::empty(),
                    Err(e) => failures == seq![Failure::Writeback(e)],
                }
            }
        }),
{
    law_maintenance(service, replies);
    let (actions, failures, _) = maintenance_run(service, service.maintenance_start(), replies);
    let part = writeback_part(service, replies);
    assert(actions =~= part.0);
    assert(failures =~= part.1);
}

/// In contracts an action is what it is, with the texts of its own work.
pub proof fn law_maintenance_action_texts(
    action: recompression::Action<String>,
    stats_action: StatsAction,
    params: writeback::Params,
    stats: writeback::Stats,
)
    ensures
        MaintenanceAction::<String>::ReadRecompressionProps@ == MaintenanceAction::<
            Seq<char>,
        >::ReadRecompressionProps,
        MaintenanceAction::<String>::ReadWritebackProps@ == MaintenanceAction::<
            Seq<char>,
        >::ReadWritebackProps,
        MaintenanceAction::Recompression(action)@ == MaintenanceAction::Recompression(action@),
        MaintenanceAction::<String>::Stats(stats_action)@ == MaintenanceAction::<
            Seq<char>,
        >::Stats(stats_action),
        (MaintenanceAction::<String>::FlushPages { params, stats })@ == (MaintenanceAction::<
            Seq<char>,
        >::FlushPages { params, stats }),
{
}

/// Every reply of the device can be handed to the stage that waits for it.
pub proof fn law_maintenance_awaits<E>(stage: MaintenanceStage, replies: MaintenanceReplies<E>)
    ensures
        stage.awaits(maintenance_reply(stage, replies)),
{
}

} // verus!
