//! zram writeback.
use crate::os::NANOS_PER_SECOND;
use crate::step::Step;
use vstd::prelude::*;

verus! {

/// The file that zram writes pages back to.
pub const ZRAM_WRITEBACK_FILE_PATH: &'static str = "/data/per_boot/zram_swap";

/// The parameters of a writeback. Durations are in nanoseconds.
#[derive(Debug, Clone, Copy)]
pub struct Params {
    /// The time that has to pass between two writebacks.
    pub backoff_duration: u128,
    /// The least time for which a page has to be untouched to count as idle.
    pub min_idle: u128,
    /// The most time for which a page has to be untouched to count as idle.
    pub max_idle: u128,
    /// Whether to write back huge idle pages.
    pub huge_idle: bool,
    /// Whether to write back idle pages.
    pub idle: bool,
    /// Whether to write back huge pages.
    pub huge: bool,
    /// The least number of bytes to write back at once.
    pub min_bytes: u64,
    /// The most bytes to write back at once.
    pub max_bytes: u64,
    /// The most bytes to write back in a day.
    pub max_bytes_per_day: u64,
}

impl Params {
    /// The parameters where nothing else is asked for: all three kinds of pages, the idle ones
    /// after 20 to 25 hours, at most every ten minutes, 5 to 300 MiB at once and 1 GiB in a day.
    pub open spec fn defaults() -> Params {
        Params {
            backoff_duration: (600 * NANOS_PER_SECOND) as u128,
            min_idle: (72000 * NANOS_PER_SECOND) as u128,
            max_idle: (90000 * NANOS_PER_SECOND) as u128,
            huge_idle: true,
            idle: true,
            huge: true,
            min_bytes: 5242880,
            max_bytes: 314572800,
            max_bytes_per_day: 1073741824,
        }
    }
}

impl Default for Params {
    fn default() -> (params: Self)
        ensures
            params == Params::defaults(),
            params.huge_idle && params.idle && params.huge,
            params.min_idle <= params.max_idle,
            params.min_bytes <= params.max_bytes <= params.max_bytes_per_day,
    {
        Params {
            backoff_duration: 600 * NANOS_PER_SECOND,
            min_idle: 72000 * NANOS_PER_SECOND,
            max_idle: 90000 * NANOS_PER_SECOND,
            huge_idle: true,
            idle: true,
            huge: true,
            min_bytes: 5242880,
            max_bytes: 314572800,
            max_bytes_per_day: 1073741824,
        }
    }
}

/// What a writeback needs to know of the zram device.
#[derive(Debug, Clone, Copy)]
pub struct Stats {
    /// The uncompressed size of the data on the device, in bytes.
    pub orig_data_size: u64,
    /// How many pages are on the backing device.
    pub current_writeback_pages: u64,
}

/// Why pages were not written back.
#[derive(Debug)]
pub enum Error<E> {
    /// The last writeback is too recent.
    BackoffTime,
    /// The limit on writebacks is reached.
    Limit,
    /// The writeback failed otherwise.
    Failed(E),
}

/// A zram device that pages are written back from.
#[derive(Debug, Clone, Copy)]
pub struct ZramWriteback {
    /// The size of the zram device, in bytes.
    pub total_zram_size: u64,
    /// The size of the file that pages are written back to, in bytes.
    pub zram_writeback_disk_size: u64,
}

impl ZramWriteback {
    /// Writeback between a device and a file of these sizes.
    pub fn new(total_zram_size: u64, zram_writeback_disk_size: u64) -> (created: Self)
        ensures
            created == (ZramWriteback { total_zram_size, zram_writeback_disk_size }),
    {
        ZramWriteback { total_zram_size, zram_writeback_disk_size }
    }
}

/// What has to be found out about the writeback disk. `T` is the type of its texts.
#[derive(Debug, PartialEq, Eq)]
pub enum DiskSizeAction<T> {
    /// Find out whether zram writeback is activated.
    CheckActivated,
    /// Read the size of this file.
    ReadFileSize(T),
}

impl View for DiskSizeAction<String> {
    type V = DiskSizeAction<Seq<char>>;

    open spec fn view(&self) -> DiskSizeAction<Seq<char>> {
        match *self {
            DiskSizeAction::CheckActivated => DiskSizeAction::CheckActivated,
            DiskSizeAction::ReadFileSize(path) => DiskSizeAction::ReadFileSize(path@),
        }
    }
}

/// What came of a [`DiskSizeAction`].
#[derive(Debug)]
pub enum DiskSizeEvent<E> {
    /// Whether zram writeback is activated.
    Activated(Result<bool, E>),
    /// The size of the file, in bytes.
    FileSize(Result<u64, E>),
}

/// Which outcome the loading of the writeback disk size waits for.
#[derive(Debug, Clone, Copy, PartialEq, Eq)]
pub enum DiskSizeStage {
    /// Whether zram writeback is activated.
    Activated,
    /// The size of the file.
    FileSize,
}

/// What the loading of the writeback disk size wants next.
pub type DiskSizeStep<E> = Step<DiskSizeStage, DiskSizeAction<String>, Result<Option<u64>, E>>;

/// A [`DiskSizeStep`] in contracts.
pub type DiskSizeStepView<E> = Step<
    DiskSizeStage,
    DiskSizeAction<Seq<char>>,
    Result<Option<u64>, E>,
>;

/// The loading starts by finding out whether zram writeback is activated.
pub open spec fn disk_size_start<E>() -> DiskSizeStepView<E> {
    Step::Perform { stage: DiskSizeStage::Activated, action: DiskSizeAction::CheckActivated }
}

/// What the loading wants after `event`: the size of the file if zram writeback is activated,
/// and no size if it is not.
pub open spec fn disk_size_next<E>(event: DiskSizeEvent<E>) -> DiskSizeStepView<E> {
    match event {
        DiskSizeEvent::Activated(Err(e)) => Step::Finished(Err(e)),
        DiskSizeEvent::Activated(Ok(false)) => Step::Finished(Ok(None)),
        DiskSizeEvent::Activated(Ok(true)) => Step::Perform {
            stage: DiskSizeStage::FileSize,
            action: DiskSizeAction::ReadFileSize(ZRAM_WRITEBACK_FILE_PATH@),
        },
        DiskSizeEvent::FileSize(Err(e)) => Step::Finished(Err(e)),
        DiskSizeEvent::FileSize(Ok(size)) => Step::Finished(Ok(Some(size))),
    }
}

/// Loads the zram writeback disk size.
///
/// If zram writeback is not enabled, the result is `Ok(None)`. Returns the first step;
/// [`DiskSizeStage::resume`] returns the others.
pub fn load_zram_writeback_disk_size<E>() -> (step: DiskSizeStep<E>)
    ensures
        step@ == disk_size_start::<E>(),
{
    Step::Perform { stage: DiskSizeStage::Activated, action: DiskSizeAction::CheckActivated }
}

impl DiskSizeStage {
    /// Whether `event` is the outcome that the loading waits for.
    pub open spec fn awaits<E>(self, event: DiskSizeEvent<E>) -> bool {
        match self {
            DiskSizeStage::Activated => event is Activated,
            DiskSizeStage::FileSize => event is FileSize,
        }
    }

    /// Goes on with the loading after `event`.
    pub fn resume<E>(self, event: DiskSizeEvent<E>) -> (step: DiskSizeStep<E>)
        requires
            self.awaits(event),
        ensures
            step@ == disk_size_next(event),
    {
        match event {
            DiskSizeEvent::Activated(Err(e)) => Step::Finished(Err(e)),
            DiskSizeEvent::Activated(Ok(activated)) => {
                if !activated {
                    return Step::Finished(Ok(None));
                }
                Step::Perform {
                    stage: DiskSizeStage::FileSize,
                    action: DiskSizeAction::ReadFileSize(ZRAM_WRITEBACK_FILE_PATH.to_owned()),
                }
            },
            DiskSizeEvent::FileSize(Err(e)) => Step::Finished(Err(e)),
            DiskSizeEvent::FileSize(Ok(size)) => Step::Finished(Ok(Some(size))),
        }
    }
}

/// By default all three kinds of pages are written back, the idle ones after 20 to 25 hours, at
/// most every ten minutes, 5 to 300 MiB at once and 1 GiB in a day.
pub proof fn law_default_params()
    ensures
        Params::defaults().huge_idle,
        Params::defaults().idle,
        Params::defaults().huge,
        Params::defaults().backoff_duration == 600_000_000_000,
        Params::defaults().min_idle == 72_000_000_000_000,
        Params::defaults().max_idle == 90_000_000_000_000,
        Params::defaults().min_bytes == 5 * 1024 * 1024,
        Params::defaults().max_bytes == 300 * 1024 * 1024,
        Params::defaults().max_bytes_per_day == 1024 * 1024 * 1024,
{
}

/// The loading first finds out whether zram writeback is activated. Only if it is, the size of
/// the writeback file is read, and is the result; if it is not, there is no size. Either failure
/// is the result as it came.
pub proof fn law_disk_size<E>(activated: Result<bool, E>, size: Result<u64, E>)
    ensures
        disk_size_start::<E>() matches Step::Perform {
            stage: DiskSizeStage::Activated,
            action: DiskSizeAction::CheckActivated,
        },
        activated == Ok::<bool, E>(true) ==> (disk_size_next(DiskSizeEvent::Activated(activated))
            matches Step::Perform {
            stage: DiskSizeStage::FileSize,
            action: DiskSizeAction::ReadFileSize(path),
        } && path == "/data/per_boot/zram_swap"@),
        activated == Ok::<bool, E>(false) ==> disk_size_next(DiskSizeEvent::Activated(activated))
            == DiskSizeStepView::<E>::Finished(Ok(None)),
        activated matches Err(e) ==> disk_size_next(DiskSizeEvent::Activated(activated))
            == DiskSizeStepView::<E>::Finished(Err(e)),
        size matches Ok(bytes) ==> disk_size_next(DiskSizeEvent::FileSize(size))
            == DiskSizeStepView::<E>::Finished(Ok(Some(bytes))),
        size matches Err(e) ==> disk_size_next(DiskSizeEvent::FileSize(size)) == DiskSizeStepView::<
            E,
        >::Finished(Err(e)),
{
}

/// In contracts an action is what it is, with its own text.
pub proof fn law_disk_size_action_texts(text: String)
    ensures
        DiskSizeAction::<String>::CheckActivated@ == DiskSizeAction::<Seq<char>>::CheckActivated,
        DiskSizeAction::ReadFileSize(text)@ == DiskSizeAction::ReadFileSize(text@),
{
}

} // verus!
