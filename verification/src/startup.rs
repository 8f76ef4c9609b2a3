//! The start of the daemon.
use crate::service::MmdService;
use crate::setup_zram;
use crate::setup_zram::SetupAction;
use crate::setup_zram::SetupError;
use crate::setup_zram::SetupEvent;
use crate::setup_zram::SetupOutcome;
use crate::setup_zram::SetupStage;
use crate::step::Step;
use crate::zram::recompression;
use crate::zram::recompression::ReadError;
use crate::zram::recompression::ZramRecompression;
use crate::zram::writeback;
use crate::zram::writeback::DiskSizeAction;
use crate::zram::writeback::DiskSizeEvent;
use crate::zram::writeback::DiskSizeStage;
use crate::zram::writeback::ZramWriteback;
use vstd::prelude::*;

verus! {

/// The argument that has the daemon write [`ENABLED_PROPERTY`] and do nothing else.
pub const SET_PROPERTY_ARG: &'static str = "--set-property";

/// The property that says whether the daemon is enabled, for those that cannot read the flag.
pub const ENABLED_PROPERTY: &'static str = "mmd.enabled_aconfig";

/// Work for the start of the daemon. `T` is the type of its texts.
#[derive(Debug, PartialEq, Eq)]
pub enum StartupAction<T> {
    /// Write a property of the system.
    WriteProperty {
        /// Its name.
        name: T,
        /// Its value.
        value: T,
    },
    /// Read the property that says whether to set up zram.
    ReadZramEnabled,
    /// Work for the setup of zram.
    Setup(SetupAction<T>),
    /// Load the size of the zram device.
    LoadTotalZramSize,
    /// Read the property that says whether to write back.
    ReadWritebackEnabled,
    /// Work for the size of the writeback disk.
    DiskSize(DiskSizeAction<T>),
    /// Read the property that says whether to recompress.
    ReadRecompressionEnabled,
    /// Read the recompression algorithm of the zram device.
    ReadRecompAlgorithm,
}

impl View for StartupAction<String> {
    type V = StartupAction<Seq<char>>;

    open spec fn view(&self) -> StartupAction<Seq<char>> {
        match *self {
            StartupAction::WriteProperty { name, value } => StartupAction::WriteProperty {
                name: name@,
                value: value@,
            },
            StartupAction::ReadZramEnabled => StartupAction::ReadZramEnabled,
            StartupAction::Setup(action) => StartupAction::Setup(action@),
            StartupAction::LoadTotalZramSize => StartupAction::LoadTotalZramSize,
            StartupAction::ReadWritebackEnabled => StartupAction::ReadWritebackEnabled,
            StartupAction::DiskSize(action) => StartupAction::DiskSize(action@),
            StartupAction::ReadRecompressionEnabled => StartupAction::ReadRecompressionEnabled,
            StartupAction::ReadRecompAlgorithm => StartupAction::ReadRecompAlgorithm,
        }
    }
}

/// What came of a [`StartupAction`]. A property is `None` if it is not set.
#[derive(Debug)]
pub enum StartupEvent<E> {
    /// The property was written, or could not be.
    PropertyWritten(Result<(), E>),
    /// Whether to set up zram.
    ZramEnabled(Option<bool>),
    /// What came of work for the setup.
    Setup(SetupEvent<E>),
    /// The size of the zram device, in bytes.
    TotalZramSize(Result<u64, E>),
    /// Whether to write back.
    WritebackEnabled(Option<bool>),
    /// What came of work for the size of the writeback disk.
    DiskSize(DiskSizeEvent<E>),
    /// Whether to recompress.
    RecompressionEnabled(Option<bool>),
    /// The recompression algorithm.
    RecompAlgorithm(Result<String, ReadError<E>>),
}

/// Which outcome the start of the daemon waits for.
#[derive(Debug, Clone, Copy)]
pub enum StartupStage {
    /// That of writing the property.
    PropertyWritten,
    /// Whether to set up zram.
    ZramEnabled,
    /// An outcome of the setup.
    Setup(SetupStage),
    /// The size of the zram device.
    TotalZramSize,
    /// Whether to write back.
    WritebackEnabled {
        /// The size of the zram device, in bytes.
        total_zram_size: u64,
    },
    /// An outcome of loading the size of the writeback disk.
    DiskSize {
        /// The size of the zram device, in bytes.
        total_zram_size: u64,
        /// How far the loading has come.
        stage: DiskSizeStage,
    },
    /// Whether to recompress.
    RecompressionEnabled {
        /// The writeback of the service.
        zram_writeback: Option<ZramWriteback>,
    },
    /// The recompression algorithm.
    RecompAlgorithm {
        /// The writeback of the service.
        zram_writeback: Option<ZramWriteback>,
    },
}

/// What the start of the daemon tells its log.
#[derive(Debug)]
pub enum Note<E> {
    /// zram is already on, skipping zram setup.
    ZramAlreadyOn,
    /// zram writeback is activated.
    WritebackActivated,
    /// zram writeback is not activated.
    WritebackNotActivated,
    /// Failed to load zram writeback file size.
    WritebackFailed(E),
    /// zram writeback is disabled.
    WritebackDisabled,
    /// zram recompression is activated.
    RecompressionActivated,
    /// zram recompression is not activated.
    RecompressionNotActivated,
    /// Failed to check zram recompression is activated.
    RecompressionFailed(E),
    /// zram recompression is disabled.
    RecompressionDisabled,
}

/// How the start of the daemon ends.
#[derive(Debug)]
pub enum Startup<E> {
    /// The property is written, and that was all.
    PropertyWritten,
    /// The property could not be written: the daemon aborts.
    PropertyNotWritten(E),
    /// The daemon is disabled, and leaves.
    Disabled,
    /// zram could not be set up: the daemon aborts.
    SetupFailed(SetupError<E>),
    /// The size of the zram device could not be loaded: the daemon exits as failed.
    NoTotalZramSize(E),
    /// The daemon registers this service, and serves.
    Serve(MmdService),
}

/// What the start of the daemon wants next.
pub type StartupStep<E> = Step<StartupStage, StartupAction<String>, Startup<E>>;

/// A [`StartupStep`] in contracts.
pub type StartupStepView<E> = Step<StartupStage, StartupAction<Seq<char>>, Startup<E>>;

/// Whether the first argument of the daemon is the one to write the property.
pub open spec fn asks_for_property(first_arg: Option<String>) -> bool {
    first_arg matches Some(arg) && arg@ == SET_PROPERTY_ARG@
}

/// How the start begins. It writes the property if it is asked to, and ends at once if the
/// daemon is disabled.
pub open spec fn startup_start<E>(first_arg: Option<String>, enabled: bool) -> StartupStepView<
    E,
> {
    if asks_for_property(first_arg) {
        Step::Perform {
            stage: StartupStage::PropertyWritten,
            action: StartupAction::WriteProperty {
                name: ENABLED_PROPERTY@,
                value: if enabled {
                    "true"@
                } else {
                    "false"@
                },
            },
        }
    } else if !enabled {
        Step::Finished(Startup::Disabled)
    } else {
        Step::Perform {
            stage: StartupStage::ZramEnabled,
            action: StartupAction::ReadZramEnabled,
        }
    }
}

/// The step to load the size of the zram device.
pub open spec fn total_size_turn<E>() -> StartupStepView<E> {
    Step::Perform { stage: StartupStage::TotalZramSize, action: StartupAction::LoadTotalZramSize }
}

/// The step to find out whether to recompress.
pub open spec fn recompression_turn<E>(zram_writeback: Option<ZramWriteback>) -> StartupStepView<
    E,
> {
    Step::Perform {
        stage: StartupStage::RecompressionEnabled { zram_writeback },
        action: StartupAction::ReadRecompressionEnabled,
    }
}

/// The end with a service for these.
pub open spec fn serve<E>(
    zram_writeback: Option<ZramWriteback>,
    zram_recompression: Option<ZramRecompression>,
) -> StartupStepView<E> {
    Step::Finished(
        Startup::Serve(
            MmdService {
                ctx: crate::service::ZramContext { zram_writeback, zram_recompression },
            },
        ),
    )
}

/// How the start follows the setup of zram: a failure is its end.
pub open spec fn follow_setup<E>(step: setup_zram::SetupStepView<E>) -> (
    Option<Note<E>>,
    StartupStepView<E>,
) {
    match step {
        Step::Perform { stage, action } => (
            None,
            Step::Perform {
                stage: StartupStage::Setup(stage),
                action: StartupAction::Setup(action),
            },
        ),
        Step::Finished(Err(e)) => (None, Step::Finished(Startup::SetupFailed(e))),
        Step::Finished(Ok(SetupOutcome::AlreadyOn)) => (
            Some(Note::ZramAlreadyOn),
            total_size_turn(),
        ),
        Step::Finished(Ok(SetupOutcome::Activated)) => (None, total_size_turn()),
    }
}

/// How the start follows the loading of the writeback disk size: there is a writeback if there
/// is a size.
pub open spec fn follow_disk_size<E>(
    total_zram_size: u64,
    step: writeback::DiskSizeStepView<E>,
) -> (Option<Note<E>>, StartupStepView<E>) {
    match step {
        Step::Perform { stage, action } => (
            None,
            Step::Perform {
                stage: StartupStage::DiskSize { total_zram_size, stage },
                action: StartupAction::DiskSize(action),
            },
        ),
        Step::Finished(Ok(Some(zram_writeback_disk_size))) => (
            Some(Note::WritebackActivated),
            recompression_turn(
                Some(ZramWriteback { total_zram_size, zram_writeback_disk_size }),
            ),
        ),
        Step::Finished(Ok(None)) => (
            Some(Note::WritebackNotActivated),
            recompression_turn(None),
        ),
        Step::Finished(Err(e)) => (Some(Note::WritebackFailed(e)), recompression_turn(None)),
    }
}

/// What the start wants after `event`, and what it notes. zram is not set up unless a property
/// says so; it is written back and recompressed unless a property says otherwise.
pub open spec fn startup_next<E>(stage: StartupStage, event: StartupEvent<E>) -> (
    Option<Note<E>>,
    StartupStepView<E>,
) {
    match event {
        StartupEvent::PropertyWritten(Ok(_)) => (None, Step::Finished(Startup::PropertyWritten)),
        StartupEvent::PropertyWritten(Err(e)) => (
            None,
            Step::Finished(Startup::PropertyNotWritten(e)),
        ),
        StartupEvent::ZramEnabled(Some(true)) => follow_setup(setup_zram::setup_start::<E>()),
        StartupEvent::ZramEnabled(_) => (None, total_size_turn()),
        StartupEvent::Setup(event) => follow_setup(setup_zram::setup_next(event)),
        StartupEvent::TotalZramSize(Err(e)) => (None, Step::Finished(Startup::NoTotalZramSize(e))),
        StartupEvent::TotalZramSize(Ok(total_zram_size)) => (
            None,
            Step::Perform {
                stage: StartupStage::WritebackEnabled { total_zram_size },
                action: StartupAction::ReadWritebackEnabled,
            },
        ),
        StartupEvent::WritebackEnabled(Some(false)) => (
            Some(Note::WritebackDisabled),
            recompression_turn(None),
        ),
        StartupEvent::WritebackEnabled(_) => follow_disk_size(
            stage->WritebackEnabled_total_zram_size,
            writeback::disk_size_start::<E>(),
        ),
        StartupEvent::DiskSize(event) => follow_disk_size(
            stage->DiskSize_total_zram_size,
            writeback::disk_size_next(event),
        ),
        StartupEvent::RecompressionEnabled(Some(false)) => (
            Some(Note::RecompressionDisabled),
            serve(stage->RecompressionEnabled_zram_writeback, None),
        ),
        StartupEvent::RecompressionEnabled(_) => (
            None,
            Step::Perform {
                stage: StartupStage::RecompAlgorithm {
                    zram_writeback: stage->RecompressionEnabled_zram_writeback,
                },
                action: StartupAction::ReadRecompAlgorithm,
            },
        ),
        StartupEvent::RecompAlgorithm(algorithm) => {
            let zram_writeback = stage->RecompAlgorithm_zram_writeback;
            match algorithm {
                Ok(name) => if name@.len() > 0 {
                    (
                        Some(Note::RecompressionActivated),
                        serve(
                            zram_writeback,
                            Some(ZramRecompression { last_recompress_at: None }),
                        ),
                    )
                } else {
                    (Some(Note::RecompressionNotActivated), serve(zram_writeback, None))
                },
                Err(ReadError::NotFound) => (
                    Some(Note::RecompressionNotActivated),
                    serve(zram_writeback, None),
                ),
                Err(ReadError::Other(e)) => (
                    Some(Note::RecompressionFailed(e)),
                    serve(zram_writeback, None),
                ),
            }
        },
    }
}

impl StartupStage {
    /// Whether `event` is the outcome that the start waits for.
    pub open spec fn awaits<E>(self, event: StartupEvent<E>) -> bool {
        match (self, event) {
            (StartupStage::PropertyWritten, StartupEvent::PropertyWritten(_)) => true,
            (StartupStage::ZramEnabled, StartupEvent::ZramEnabled(_)) => true,
            (StartupStage::Setup(stage), StartupEvent::Setup(event)) => stage.awaits(event),
            (StartupStage::TotalZramSize, StartupEvent::TotalZramSize(_)) => true,
            (StartupStage::WritebackEnabled { .. }, StartupEvent::WritebackEnabled(_)) => true,
            (StartupStage::DiskSize { stage, .. }, StartupEvent::DiskSize(event)) => stage.awaits(
                event,
            ),
            (
                StartupStage::RecompressionEnabled { .. },
                StartupEvent::RecompressionEnabled(_),
            ) => true,
            (StartupStage::RecompAlgorithm { .. }, StartupEvent::RecompAlgorithm(_)) => true,
            _ => false,
        }
    }

    /// Goes on with the start after `event`. Returns what to note, if there is something, and
    /// the next step.
    pub fn resume<E>(self, event: StartupEvent<E>) -> (next: (Option<Note<E>>, StartupStep<E>))
        requires
            self.awaits(event),
        ensures
            (next.0, next.1@) == startup_next(self, event),
    {
        match (self, event) {
            (_, StartupEvent::PropertyWritten(Ok(_))) => (
                None,
                Step::Finished(Startup::PropertyWritten),
            ),
            (_, StartupEvent::PropertyWritten(Err(e))) => (
                None,
                Step::Finished(Startup::PropertyNotWritten(e)),
            ),
            (_, StartupEvent::ZramEnabled(property)) => {
                if property.unwrap_or(false) {
                    continue_setup(setup_zram::setup_zram())
                } else {
                    (None, load_total_size())
                }
            },
            (StartupStage::Setup(stage), StartupEvent::Setup(event)) => continue_setup(
                stage.resume(event),
            ),
            (_, StartupEvent::TotalZramSize(Err(e))) => (
                None,
                Step::Finished(Startup::NoTotalZramSize(e)),
            ),
            (_, StartupEvent::TotalZramSize(Ok(total_zram_size))) => (
                None,
                Step::Perform {
                    stage: StartupStage::WritebackEnabled { total_zram_size },
                    action: StartupAction::ReadWritebackEnabled,
                },
            ),
            (
                StartupStage::WritebackEnabled { total_zram_size },
                StartupEvent::WritebackEnabled(property),
            ) => {
                if property.unwrap_or(true) {
                    continue_disk_size(total_zram_size, writeback::load_zram_writeback_disk_size())
                } else {
                    (Some(Note::WritebackDisabled), read_recompression_enabled(None))
                }
            },
            (StartupStage::DiskSize { total_zram_size, stage }, StartupEvent::DiskSize(event)) => {
                continue_disk_size(total_zram_size, stage.resume(event))
            },
            (
                StartupStage::RecompressionEnabled { zram_writeback },
                StartupEvent::RecompressionEnabled(property),
            ) => {
                if property.unwrap_or(true) {
                    (
                        None,
                        Step::Perform {
                            stage: StartupStage::RecompAlgorithm { zram_writeback },
                            action: StartupAction::ReadRecompAlgorithm,
                        },
                    )
                } else {
                    (Some(Note::RecompressionDisabled), start_serving(zram_writeback, None))
                }
            },
            (
                StartupStage::RecompAlgorithm { zram_writeback },
                StartupEvent::RecompAlgorithm(algorithm),
            ) => match recompression::is_zram_recompression_activated(algorithm) {
                Ok(is_activated) => {
                    if is_activated {
                        (
                            Some(Note::RecompressionActivated),
                            start_serving(zram_writeback, Some(ZramRecompression::new())),
                        )
                    } else {
                        (
                            Some(Note::RecompressionNotActivated),
                            start_serving(zram_writeback, None),
                        )
                    }
                },
                Err(e) => (
                    Some(Note::RecompressionFailed(e)),
                    start_serving(zram_writeback, None),
                ),
            },
            _ => vstd::pervasive::unreached(),
        }
    }
}

/// Follows the setup of zram.
fn continue_setup<E>(step: setup_zram::SetupStep<E>) -> (next: (Option<Note<E>>, StartupStep<E>))
    ensures
        (next.0, next.1@) == follow_setup(step@),
{
    match step {
        Step::Perform { stage, action } => (
            None,
            Step::Perform {
                stage: StartupStage::Setup(stage),
                action: StartupAction::Setup(action),
            },
        ),
        Step::Finished(Err(e)) => (None, Step::Finished(Startup::SetupFailed(e))),
        Step::Finished(Ok(SetupOutcome::AlreadyOn)) => (
            Some(Note::ZramAlreadyOn),
            load_total_size(),
        ),
        Step::Finished(Ok(SetupOutcome::Activated)) => (None, load_total_size()),
    }
}

/// Follows the loading of the writeback disk size.
fn continue_disk_size<E>(total_zram_size: u64, step: writeback::DiskSizeStep<E>) -> (next: (
    Option<Note<E>>,
    StartupStep<E>,
))
    ensures
        (next.0, next.1@) == follow_disk_size(total_zram_size, step@),
{
    match step {
        Step::Perform { stage, action } => (
            None,
            Step::Perform {
                stage: StartupStage::DiskSize { total_zram_size, stage },
                action: StartupAction::DiskSize(action),
            },
        ),
        Step::Finished(Ok(Some(zram_writeback_disk_size))) => (
            Some(Note::WritebackActivated),
            read_recompression_enabled(
                Some(ZramWriteback::new(total_zram_size, zram_writeback_disk_size)),
            ),
        ),
        Step::Finished(Ok(None)) => (
            Some(Note::WritebackNotActivated),
            read_recompression_enabled(None),
        ),
        Step::Finished(Err(e)) => (
            Some(Note::WritebackFailed(e)),
            read_recompression_enabled(None),
        ),
    }
}

/// Wants the size of the zram device.
fn load_total_size<E>() -> (step: StartupStep<E>)
    ensures
        step@ == total_size_turn::<E>(),
{
    Step::Perform { stage: StartupStage::TotalZramSize, action: StartupAction::LoadTotalZramSize }
}

/// Wants to know whether to recompress.
fn read_recompression_enabled<E>(zram_writeback: Option<ZramWriteback>) -> (step: StartupStep<E>)
    ensures
        step@ == recompression_turn::<E>(zram_writeback),
{
    Step::Perform {
        stage: StartupStage::RecompressionEnabled { zram_writeback },
        action: StartupAction::ReadRecompressionEnabled,
    }
}

/// Ends with a service for these.
fn start_serving<E>(
    zram_writeback: Option<ZramWriteback>,
    zram_recompression: Option<ZramRecompression>,
) -> (step: StartupStep<E>)
    ensures
        step@ == serve::<E>(zram_writeback, zram_recompression),
{
    Step::Finished(Startup::Serve(MmdService::new(zram_writeback, zram_recompression)))
}

/// Starts the daemon with this first argument, where the flag says whether it is enabled.
/// Returns the first step; [`StartupStage::resume`] returns the others.
pub fn start<E>(first_arg: Option<String>, enabled: bool) -> (step: StartupStep<E>)
    ensures
        step@ == startup_start::<E>(first_arg, enabled),
{
    let set_property = match first_arg {
        Some(arg) => arg == SET_PROPERTY_ARG.to_owned(),
        None => false,
    };
    if set_property {
        return Step::Perform {
            stage: StartupStage::PropertyWritten,
            action: StartupAction::WriteProperty {
                name: ENABLED_PROPERTY.to_owned(),
                value: if enabled {
                    "true".to_owned()
                } else {
                    "false".to_owned()
                },
            },
        };
    }
    if !enabled {
        return Step::Finished(Startup::Disabled);
    }
    Step::Perform { stage: StartupStage::ZramEnabled, action: StartupAction::ReadZramEnabled }
}

// ---------------------------------------------------------------------------------------------
// Whole starts
// ---------------------------------------------------------------------------------------------

/// What a device says to all that the start may ask of it.
pub ghost struct StartupReplies<E> {
    /// The outcome of writing the property.
    pub property_written: Result<(), E>,
    /// Whether to set up zram.
    pub zram_enabled: Option<bool>,
    /// What the device says to the setup.
    pub setup: setup_zram::SetupReplies<E>,
    /// The size of the zram device.
    pub total_zram_size: Result<u64, E>,
    /// Whether to write back.
    pub writeback_enabled: Option<bool>,
    /// Whether zram writeback is activated.
    pub writeback_activated: Result<bool, E>,
    /// The size of the writeback disk.
    pub file_size: Result<u64, E>,
    /// Whether to recompress.
    pub recompression_enabled: Option<bool>,
    /// The recompression algorithm.
    pub recomp_algorithm: Result<String, ReadError<E>>,
}

/// What the device says of the action that `stage` waits for.
pub open spec fn startup_reply<E>(
    stage: StartupStage,
    replies: StartupReplies<E>,
) -> StartupEvent<E> {
    match stage {
        StartupStage::PropertyWritten => StartupEvent::PropertyWritten(replies.property_written),
        StartupStage::ZramEnabled => StartupEvent::ZramEnabled(replies.zram_enabled),
        StartupStage::Setup(stage) => StartupEvent::Setup(
            setup_zram::setup_reply(stage, replies.setup),
        ),
        StartupStage::TotalZramSize => StartupEvent::TotalZramSize(replies.total_zram_size),
        StartupStage::WritebackEnabled { .. } => StartupEvent::WritebackEnabled(
            replies.writeback_enabled,
        ),
        StartupStage::DiskSize { stage: DiskSizeStage::Activated, .. } => StartupEvent::DiskSize(
            DiskSizeEvent::Activated(replies.writeback_activated),
        ),
        StartupStage::DiskSize { stage: DiskSizeStage::FileSize, .. } => StartupEvent::DiskSize(
            DiskSizeEvent::FileSize(replies.file_size),
        ),
        StartupStage::RecompressionEnabled { .. } => StartupEvent::RecompressionEnabled(
            replies.recompression_enabled,
        ),
        StartupStage::RecompAlgorithm { .. } => StartupEvent::RecompAlgorithm(
            replies.recomp_algorithm,
        ),
    }
}

/// A number that gets smaller with every step of the start.
pub open spec fn startup_rank<E>(step: StartupStepView<E>) -> nat {
    match step {
        Step::Finished(_) => 0,
        Step::Perform { stage, .. } => match stage {
            StartupStage::PropertyWritten => 1,
            StartupStage::RecompAlgorithm { .. } => 1,
            StartupStage::RecompressionEnabled { .. } => 2,
            StartupStage::DiskSize { stage: DiskSizeStage::FileSize, .. } => 3,
            StartupStage::DiskSize { stage: DiskSizeStage::Activated, .. } => 4,
            StartupStage::WritebackEnabled { .. } => 5,
            StartupStage::TotalZramSize => 6,
            StartupStage::Setup(stage) => 6 + setup_zram::setup_rank::<E>(
                Step::Perform { stage, action: SetupAction::ReadSwapAreas },
            ),
            StartupStage::ZramEnabled => 12,
        },
    }
}

/// A note as a sequence of at most one.
pub open spec fn noted<E>(note: Option<Note<E>>) -> Seq<Note<E>> {
    match note {
        Some(note) => seq![note],
        None => seq![],
    }
}

/// A start from `step` on: its actions, its notes and its end.
pub open spec fn startup_run<E>(step: StartupStepView<E>, replies: StartupReplies<E>) -> (
    Seq<StartupAction<Seq<char>>>,
    Seq<Note<E>>,
    Startup<E>,
)
    decreases startup_rank(step),
{
    match step {
        Step::Finished(end) => (seq![], seq![], end),
        Step::Perform { stage, action } => {
            let (note, next) = startup_next(stage, startup_reply(stage, replies));
            let (actions, notes, end) = startup_run(next, replies);
            (seq![action] + actions, noted(note) + notes, end)
        },
    }
}

/// What the start does about recompression: its actions, its note, and the recompression that
/// the service gets. It gets one unless a property disables it, if the kernel names an
/// algorithm.
pub open spec fn recompression_part<E>(replies: StartupReplies<E>) -> (
    Seq<StartupAction<Seq<char>>>,
    Note<E>,
    Option<ZramRecompression>,
) {
    let ask = StartupAction::ReadRecompressionEnabled;
    let read = StartupAction::ReadRecompAlgorithm;
    if replies.recompression_enabled == Some(false) {
        (seq![ask], Note::RecompressionDisabled, None)
    } else {
        match replies.recomp_algorithm {
            Err(ReadError::Other(e)) => (seq![ask, read], Note::RecompressionFailed(e), None),
            Err(ReadError::NotFound) => (seq![ask, read], Note::RecompressionNotActivated, None),
            Ok(name) => if name@.len() == 0 {
                (seq![ask, read], Note::RecompressionNotActivated, None)
            } else {
                (
                    seq![ask, read],
                    Note::RecompressionActivated,
                    Some(ZramRecompression { last_recompress_at: None }),
                )
            },
        }
    }
}

/// What the start does about writeback: its actions, its note, and the writeback that the
/// service gets. It gets one unless a property disables it, if zram writeback is activated and
/// the size of its file can be read.
pub open spec fn writeback_part<E>(total_zram_size: u64, replies: StartupReplies<E>) -> (
    Seq<StartupAction<Seq<char>>>,
    Note<E>,
    Option<ZramWriteback>,
) {
    let ask = StartupAction::ReadWritebackEnabled;
    let check = StartupAction::DiskSize(DiskSizeAction::CheckActivated);
    let read = StartupAction::DiskSize(
        DiskSizeAction::ReadFileSize(writeback::ZRAM_WRITEBACK_FILE_PATH@),
    );
    if replies.writeback_enabled == Some(false) {
        (seq![ask], Note::WritebackDisabled, None)
    } else {
        match (replies.writeback_activated, replies.file_size) {
            (Err(e), _) => (seq![ask, check], Note::WritebackFailed(e), None),
            (Ok(false), _) => (seq![ask, check], Note::WritebackNotActivated, None),
            (Ok(true), Err(e)) => (seq![ask, check, read], Note::WritebackFailed(e), None),
            (Ok(true), Ok(size)) => (
                seq![ask, check, read],
                Note::WritebackActivated,
                Some(ZramWriteback { total_zram_size, zram_writeback_disk_size: size }),
            ),
        }
    }
}

/// What the start does when zram is set up or needs no setup: its actions, its notes and its
/// end. Without the size of the zram device there is nothing to serve; with it, whatever comes
/// of writeback and recompression, the daemon serves.
pub open spec fn service_part<E>(replies: StartupReplies<E>) -> (
    Seq<StartupAction<Seq<char>>>,
    Seq<Note<E>>,
    Startup<E>,
) {
    let load = seq![StartupAction::LoadTotalZramSize];
    match replies.total_zram_size {
        Err(e) => (load, seq![], Startup::NoTotalZramSize(e)),
        Ok(total_zram_size) => {
            let writeback = writeback_part(total_zram_size, replies);
            let recompression = recompression_part(replies);
            (
                load + writeback.0 + recompression.0,
                seq![writeback.1, recompression.1],
                Startup::Serve(
                    MmdService {
                        ctx: crate::service::ZramContext {
                            zram_writeback: writeback.2,
                            zram_recompression: recompression.2,
                        },
                    },
                ),
            )
        },
    }
}

/// What an enabled daemon does when it starts: its actions, its notes and its end. zram is set
/// up first if a property asks for that, and if it cannot be, that is the end.
pub open spec fn enabled_start<E>(replies: StartupReplies<E>) -> (
    Seq<StartupAction<Seq<char>>>,
    Seq<Note<E>>,
    Startup<E>,
) {
    let ask = seq![StartupAction::ReadZramEnabled];
    let service = service_part(replies);
    if replies.zram_enabled != Some(true) {
        (ask + service.0, service.1, service.2)
    } else {
        let (actions, result) = setup_zram::setup_run(
            setup_zram::setup_start::<E>(),
            replies.setup,
        );
        let setup = ask + actions.map_values(
            |action: SetupAction<Seq<char>>| StartupAction::Setup(action),
        );
        match result {
            Err(e) => (setup, seq![], Startup::SetupFailed(e)),
            Ok(SetupOutcome::AlreadyOn) => (
                setup + service.0,
                seq![Note::ZramAlreadyOn] + service.1,
                service.2,
            ),
            Ok(SetupOutcome::Activated) => (setup + service.0, service.1, service.2),
        }
    }
}

/// From the size of the zram device on, a start does what is said of the service.
proof fn lemma_service_part<E>(replies: StartupReplies<E>)
    ensures
        startup_run(total_size_turn::<E>(), replies) == service_part(replies),
{
    reveal_with_fuel(startup_run, 7);
    let (actions, notes, end) = startup_run(total_size_turn::<E>(), replies);
    assert(actions =~= service_part(replies).0);
    assert(notes =~= service_part(replies).1);
    assert(end == service_part(replies).2);
}

/// From a step of the setup on, a start does that setup, and then what is said of the service if
/// the setup succeeds.
proof fn lemma_follow_setup<E>(step: setup_zram::SetupStepView<E>, replies: StartupReplies<E>)
    ensures
        ({
            let (note, next) = follow_setup(step);
            let (actions, notes, end) = startup_run(next, replies);
            let (setup_actions, result) = setup_zram::setup_run(step, replies.setup);
            let setup = setup_actions.map_values(
                |action: SetupAction<Seq<char>>| StartupAction::Setup(action),
            );
            let service = service_part(replies);
            match result {
                Err(e) => {
                    &&& actions == setup
                    &&& noted(note) + notes == Seq::<Note<E>>::empty()
                    &&& end == Startup::SetupFailed(e)
                },
                Ok(outcome) => {
                    &&& actions == setup + service.0
                    &&& noted(note) + notes == if outcome == SetupOutcome::AlreadyOn {
                        seq![Note::ZramAlreadyOn] + service.1
                    } else {
                        service.1
                    }
                    &&& end == service.2
                },
            }
        }),
    decreases setup_zram::setup_rank(step),
{
    let wrap = |action: SetupAction<Seq<char>>| StartupAction::Setup(action);
    let (note, next) = follow_setup(step);
    let (actions, notes, end) = startup_run(next, replies);
    let (setup_actions, result) = setup_zram::setup_run(step, replies.setup);
    let service = service_part(replies);
    match step {
        Step::Finished(_) => {
            lemma_service_part(replies);
            assert(setup_actions.map_values(wrap) =~= seq![]);
            assert(seq![] + service.0 =~= service.0);
            assert(noted::<E>(None) + service.1 =~= service.1);
            assert(noted::<E>(None) + Seq::<Note<E>>::empty() =~= seq![]);
        },
        Step::Perform { stage, action } => {
            let later = setup_zram::setup_next(setup_zram::setup_reply(stage, replies.setup));
            lemma_follow_setup(later, replies);
            let rest = setup_zram::setup_run(later, replies.setup).0;
            assert((seq![action] + rest).map_values(wrap) =~= seq![wrap(action)]
                + rest.map_values(wrap));
            assert(seq![wrap(action)] + (rest.map_values(wrap) + service.0) =~= seq![wrap(action)]
                + rest.map_values(wrap) + service.0);
            assert(noted(note) + notes =~= notes);
        },
    }
}

/// A start that is asked for the property writes whether the daemon is enabled, and nothing
/// else. A disabled daemon does nothing at all. An enabled one sets up zram if it is asked to,
/// and then serves with what is in use of writeback and recompression.
pub proof fn law_startup<E>(
    first_arg: Option<String>,
    enabled: bool,
    replies: StartupReplies<E>,
)
    ensures
        ({
            let (actions, notes, end) = startup_run(
                startup_start::<E>(first_arg, enabled),
                replies,
            );
            if asks_for_property(first_arg) {
                &&& actions == seq![
                    StartupAction::WriteProperty {
                        name: ENABLED_PROPERTY@,
                        value: if enabled {
                            "true"@
                        } else {
                            "false"@
                        },
                    },
                ]
                &&& notes == Seq::<Note<E>>::empty()
                &&& end == match replies.property_written {
                    Ok(_) => Startup::PropertyWritten,
                    Err(e) => Startup::PropertyNotWritten(e),
                }
            } else if !enabled {
                &&& actions == Seq::<StartupAction<Seq<char>>>::empty()
                &&& notes == Seq::<Note<E>>::empty()
                &&& end == Startup::<E>::Disabled
            } else {
                (actions, notes, end) == enabled_start(replies)
            }
        }),
{
    reveal_with_fuel(startup_run, 2);
    let (actions, notes, end) = startup_run(startup_start::<E>(first_arg, enabled), replies);
    if asks_for_property(first_arg) {
        assert(actions.len() == 1);
        assert(notes =~= seq![]);
    } else if enabled {
        if replies.zram_enabled == Some(true) {
            lemma_follow_setup(setup_zram::setup_start::<E>(), replies);
        } else {
            lemma_service_part(replies);
        }
        assert(actions =~= enabled_start(replies).0);
        assert(notes =~= enabled_start(replies).1);
        assert(end == enabled_start(replies).2);
    }
}

/// A start that is asked for the property writes it, with whether the daemon is enabled, and does
/// nothing else. Without that argument a disabled daemon does nothing at all.
pub proof fn law_start_without_service<E>(
    first_arg: Option<String>,
    enabled: bool,
    replies: StartupReplies<E>,
)
    requires
        !enabled || (first_arg matches Some(arg) && arg@ == "--set-property"@),
    ensures
        ({
            let (actions, notes, end) = startup_run(
                startup_start::<E>(first_arg, enabled),
                replies,
            );
            &&& notes.len() == 0
            &&& if first_arg matches Some(arg) && arg@ == "--set-property"@ {
                &&& actions.len() == 1
                &&& actions[0] matches StartupAction::WriteProperty { name, value }
                &&& name == "mmd.enabled_aconfig"@
                &&& enabled ==> value == "true"@
                &&& !enabled ==> value == "false"@
                &&& replies.property_written is Ok ==> end == Startup::<E>::PropertyWritten
                &&& replies.property_written matches Err(e) ==> end == Startup::PropertyNotWritten(
                    e,
                )
            } else {
                &&& actions.len() == 0
                &&& end == Startup::<E>::Disabled
            }
        }),
{
    law_startup(first_arg, enabled, replies);
}

/// An enabled daemon ends its start with a service exactly when zram, if a property asks for its
/// setup, could be set up or was on already, and the size of the zram device could be loaded.
///
/// That service has a recompression, which remembers nothing, exactly when the property does not
/// disable it and the algorithm that was read is not empty, whatever the replies about writeback
/// were. It has a writeback exactly when the property does not disable it, zram writeback is
/// activated and the size of its file was read, whatever the replies about recompression were.
/// The writeback has the size of the zram device and the size of that file.
pub proof fn law_service_of_start<E>(first_arg: Option<String>, replies: StartupReplies<E>)
    requires
        !(first_arg matches Some(arg) && arg@ == "--set-property"@),
    ensures
        ({
            let (actions, notes, end) = startup_run(startup_start::<E>(first_arg, true), replies);
            let setup = setup_zram::setup_run(setup_zram::setup_start::<E>(), replies.setup).1;
            let ready = replies.zram_enabled != Some(true) || setup is Ok;
            &&& !ready ==> end == Startup::SetupFailed(setup->Err_0)
            &&& ready && replies.total_zram_size is Err ==> end == Startup::NoTotalZramSize(
                replies.total_zram_size->Err_0,
            )
            &&& ready && replies.total_zram_size is Ok ==> {
                &&& end matches Startup::Serve(service)
                &&& service.ctx.zram_recompression is Some <==> (replies.recompression_enabled
                    != Some(false) && replies.recomp_algorithm is Ok
                    && replies.recomp_algorithm->Ok_0@.len() > 0)
                &&& service.ctx.zram_recompression matches Some(recompression)
                    ==> recompression.last_recompress_at is None
                &&& service.ctx.zram_writeback is Some <==> (replies.writeback_enabled != Some(
                    false,
                ) && replies.writeback_activated == Ok::<bool, E>(true) && replies.file_size is Ok)
                &&& service.ctx.zram_writeback matches Some(writeback) ==> {
                    &&& writeback.total_zram_size == replies.total_zram_size->Ok_0
                    &&& writeback.zram_writeback_disk_size == replies.file_size->Ok_0
                }
            }
        }),
{
    law_startup(first_arg, true, replies);
}

/// Two starts of an enabled daemon with the same replies about recompression serve with the same
/// recompression if they serve, and two with the same replies about the sizes and writeback serve
/// with the same writeback.
pub proof fn law_parts_of_service_are_independent<E>(
    first_arg: Option<String>,
    one: StartupReplies<E>,
    other: StartupReplies<E>,
)
    requires
        startup_run(startup_start::<E>(first_arg, true), one).2 is Serve,
        startup_run(startup_start::<E>(first_arg, true), other).2 is Serve,
    ensures
        ({
            let one_service = startup_run(startup_start::<E>(first_arg, true), one).2->Serve_0;
            let other_service = startup_run(startup_start::<E>(first_arg, true), other).2->Serve_0;
            &&& (one.recompression_enabled == other.recompression_enabled && one.recomp_algorithm
                == other.recomp_algorithm) ==> one_service.ctx.zram_recompression
                == other_service.ctx.zram_recompression
            &&& (one.total_zram_size == other.total_zram_size && one.writeback_enabled
                == other.writeback_enabled && one.writeback_activated == other.writeback_activated
                && one.file_size == other.file_size) ==> one_service.ctx.zram_writeback
                == other_service.ctx.zram_writeback
        }),
{
    law_startup(first_arg, true, one);
    law_startup(first_arg, true, other);
}

/// An enabled daemon first asks whether to set up zram, and does so only if a property says so.
/// Where it goes on from there, it loads the size of the zram device, asks for writeback, unless
/// that is disabled looks whether it is activated and, if so, how large its file is, asks for
/// recompression, and unless that is disabled reads the algorithm. It notes what came of each.
pub proof fn law_actions_of_start<E>(first_arg: Option<String>, replies: StartupReplies<E>)
    requires
        !(first_arg matches Some(arg) && arg@ == "--set-property"@),
    ensures
        ({
            let (actions, notes, end) = startup_run(startup_start::<E>(first_arg, true), replies);
            let (setup_actions, setup) = setup_zram::setup_run(
                setup_zram::setup_start::<E>(),
                replies.setup,
            );
            let before = if replies.zram_enabled == Some(true) {
                seq![StartupAction::ReadZramEnabled] + setup_actions.map_values(
                    |action: SetupAction<Seq<char>>| StartupAction::Setup(action),
                )
            } else {
                seq![StartupAction::ReadZramEnabled]
            };
            let already_on = if replies.zram_enabled == Some(true) && setup == Ok::<
                SetupOutcome,
                SetupError<E>,
            >(SetupOutcome::AlreadyOn) {
                seq![Note::<E>::ZramAlreadyOn]
            } else {
                seq![]
            };
            let load = seq![StartupAction::<Seq<char>>::LoadTotalZramSize];
            let about_writeback = if replies.writeback_enabled == Some(false) {
                seq![StartupAction::ReadWritebackEnabled]
            } else if replies.writeback_activated == Ok::<bool, E>(true) {
                seq![
                    StartupAction::ReadWritebackEnabled,
                    StartupAction::DiskSize(DiskSizeAction::CheckActivated),
                    StartupAction::DiskSize(
                        DiskSizeAction::ReadFileSize("/data/per_boot/zram_swap"@),
                    ),
                ]
            } else {
                seq![
                    StartupAction::ReadWritebackEnabled,
                    StartupAction::DiskSize(DiskSizeAction::CheckActivated),
                ]
            };
            let about_recompression = if replies.recompression_enabled == Some(false) {
                seq![StartupAction::<Seq<char>>::ReadRecompressionEnabled]
            } else {
                seq![
                    StartupAction::ReadRecompressionEnabled,
                    StartupAction::ReadRecompAlgorithm,
                ]
            };
            let writeback_note = if replies.writeback_enabled == Some(false) {
                Note::WritebackDisabled
            } else if replies.writeback_activated is Err {
                Note::WritebackFailed(replies.writeback_activated->Err_0)
            } else if !replies.writeback_activated->Ok_0 {
                Note::WritebackNotActivated
            } else if replies.file_size is Err {
                Note::WritebackFailed(replies.file_size->Err_0)
            } else {
                Note::WritebackActivated
            };
            let recompression_note = if replies.recompression_enabled == Some(false) {
                Note::RecompressionDisabled
            } else {
                match replies.recomp_algorithm {
                    Err(ReadError::Other(e)) => Note::RecompressionFailed(e),
                    Err(ReadError::NotFound) => Note::RecompressionNotActivated,
                    Ok(name) => if name@.len() == 0 {
                        Note::RecompressionNotActivated
                    } else {
                        Note::RecompressionActivated
                    },
                }
            };
            if replies.zram_enabled == Some(true) && setup is Err {
                &&& actions == before
                &&& notes.len() == 0
            } else if replies.total_zram_size is Err {
                &&& actions == before + load
                &&& notes == already_on
            } else {
                &&& actions == before + load + about_writeback + about_recompression
                &&& notes == already_on + seq![writeback_note, recompression_note]
            }
        }),
{
    law_startup(first_arg, true, replies);
    let (actions, notes, _) = startup_run(startup_start::<E>(first_arg, true), replies);
    let before = if replies.zram_enabled == Some(true) {
        seq![StartupAction::ReadZramEnabled] + setup_zram::setup_run(
            setup_zram::setup_start::<E>(),
            replies.setup,
        ).0.map_values(|action: SetupAction<Seq<char>>| StartupAction::Setup(action))
    } else {
        seq![StartupAction::ReadZramEnabled]
    };
    if let Ok(total) = replies.total_zram_size {
        let load = seq![StartupAction::<Seq<char>>::LoadTotalZramSize];
        let (a, b) = (writeback_part(total, replies).0, recompression_part(replies).0);
        assert(before + (load + a + b) =~= before + load + a + b);
    }
    let none: Seq<Note<E>> = seq![];
    assert(none + service_part(replies).1 =~= service_part(replies).1);
    assert(seq![Note::<E>::ZramAlreadyOn] + none =~= seq![Note::<E>::ZramAlreadyOn]);
}

/// In contracts an action is what it is, with its own texts and those of its own work.
pub proof fn law_startup_action_texts(
    name: String,
    value: String,
    setup_action: SetupAction<String>,
    disk_action: DiskSizeAction<String>,
)
    ensures
        (StartupAction::WriteProperty { name, value })@ == (StartupAction::WriteProperty {
            name: name@,
            value: value@,
        }),
        StartupAction::Setup(setup_action)@ == StartupAction::Setup(setup_action@),
        StartupAction::DiskSize(disk_action)@ == StartupAction::DiskSize(disk_action@),
        StartupAction::<String>::ReadZramEnabled@ == StartupAction::<Seq<char>>::ReadZramEnabled,
        StartupAction::<String>::LoadTotalZramSize@ == StartupAction::<
            Seq<char>,
        >::LoadTotalZramSize,
        StartupAction::<String>::ReadWritebackEnabled@ == StartupAction::<
            Seq<char>,
        >::ReadWritebackEnabled,
        StartupAction::<String>::ReadRecompressionEnabled@ == StartupAction::<
            Seq<char>,
        >::ReadRecompressionEnabled,
        StartupAction::<String>::ReadRecompAlgorithm@ == StartupAction::<
            Seq<char>,
        >::ReadRecompAlgorithm,
{
}

/// Every reply of the device can be handed to the stage that waits for it, if the size that is
/// asked for fits.
pub proof fn law_startup_awaits<E>(stage: StartupStage, replies: StartupReplies<E>)
    requires
        crate::zram::setup::zram_size_fits(
            setup_zram::size_spec(replies.setup.property),
            replies.setup.pages.page_size,
            replies.setup.pages.page_count,
        ),
    ensures
        stage.awaits(startup_reply(stage, replies)),
{
}

} // verus!
