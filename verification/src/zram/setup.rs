//! zram setup.
//!
//! The setup assumes that the zram kernel module has been loaded early on init with only one
//! zram device (`zram0`).
use crate::os::PageInfo;
use crate::step::Step;
use crate::text;
use vstd::prelude::*;

verus! {

/// The block device that zram swaps to.
pub const ZRAM_DEVICE_PATH: &'static str = "/dev/block/zram0";

/// The largest share of the memory that a zram device may be given, in percent.
pub const MAX_ZRAM_PERCENTAGE_ALLOWED: u64 = 500;

// ---------------------------------------------------------------------------------------------
// Is zram swap on?
// ---------------------------------------------------------------------------------------------

/// Whether a list of swap areas, which starts with a header line, has a line for zram.
pub open spec fn zram_swap_listed(swaps: Seq<char>) -> bool {
    exists|i: int|
        1 <= i < text::lines(swaps).len() && text::occurs(
            #[trigger] text::lines(swaps)[i],
            "zram"@,
        )
}

/// Whether the four characters from `at` on spell the zram keyword.
fn zram_at(chars: &Vec<char>, at: usize) -> (found: bool)
    requires
        at <= chars@.len(),
    ensures
        found == text::occurs_at(chars@, "zram"@, at as int),
{
    proof {
        reveal_strlit("zram");
    }
    let found = chars.len() - at >= 4 && chars[at] == 'z' && chars[at + 1] == 'r' && chars[at + 2]
        == 'a' && chars[at + 3] == 'm';
    proof {
        if chars@.len() - at >= 4 {
            let here = chars@.subrange(at as int, at + 4);
            assert(here[0] == chars@[at as int] && here[1] == chars@[at + 1] && here[2] == chars@[at
                + 2] && here[3] == chars@[at + 3]);
            if found {
                assert(here =~= "zram"@);
            }
        }
    }
    found
}

/// Whether a list of swap areas has a line for zram.
fn has_zram_line(swaps: &str) -> (found: bool)
    ensures
        found == zram_swap_listed(swaps@),
{
    let chars = text::characters(swaps);
    let len: usize = chars.len();
    let ghost word = "zram"@;
    let ghost end = text::first_line_len(swaps@) as int;
    proof {
        reveal_strlit("zram");
        assert(text::is_word(word));
        text::lemma_first_line(swaps@);
        text::lemma_word_after_first_line(swaps@, word);
    }
    let mut header: usize = 0;
    while header < len && chars[header] != '\n'
        invariant
            header <= end <= len,
            len == chars@.len(),
            chars@ == swaps@,
            end == text::first_line_len(swaps@),
            end < len ==> swaps@[end] == '\n',
            forall|i: int| 0 <= i < end ==> #[trigger] swaps@[i] != '\n',
        decreases len - header,
    {
        header = header + 1;
    }
    assert(header == end);
    if header == len {
        return false;
    }
    let ghost rest = swaps@.skip(end + 1);
    let mut at: usize = header + 1;
    while at < len
        invariant
            end + 1 <= at <= len,
            len == chars@.len(),
            chars@ == swaps@,
            0 <= end < len,
            rest == swaps@.skip(end + 1),
            word == "zram"@,
            zram_swap_listed(swaps@) <==> text::occurs(rest, word),
            forall|i: int| end < i < at ==> !text::occurs_at(swaps@, word, i),
        decreases len - at,
    {
        if zram_at(&chars, at) {
            proof {
                assert(rest.subrange(at - end - 1, at - end - 1 + word.len()) =~= word);
                assert(text::occurs_at(rest, word, at - end - 1));
            }
            return true;
        }
        at = at + 1;
    }
    proof {
        reveal_strlit("zram");
        if text::occurs(rest, word) {
            let i = choose|i: int| text::occurs_at(rest, word, i);
            assert(swaps@.subrange(i + end + 1, i + end + 1 + word.len()) =~= word);
            assert(text::occurs_at(swaps@, word, i + end + 1));
        }
    }
    false
}

/// Whether or not zram is already set up on the device, given the outcome of reading the swap
/// areas in use.
pub fn is_zram_swap_activated<E>(swaps: Result<String, E>) -> (activated: Result<bool, E>)
    ensures
        activated == match swaps {
            Ok(list) => Ok::<bool, E>(zram_swap_listed(list@)),
            Err(e) => Err(e),
        },
{
    match swaps {
        // Swap is turned on if a line after the header has the zram keyword.
        Ok(list) => Ok(has_zram_line(list.as_str())),
        Err(e) => Err(e),
    }
}

// ---------------------------------------------------------------------------------------------
// The size of the zram device
// ---------------------------------------------------------------------------------------------

/// Error from [`parse_zram_size_spec`].
#[derive(Debug)]
pub enum ZramSpecError {
    /// Zram size was not specified.
    EmptyZramSizeSpec,
    /// Zram size percentage needs to be between 1 and 500%.
    ZramPercentageOutOfRange(u64),
    /// Parsing zram size error.
    ParseZramSize(std::num::ParseIntError),
}

/// What stands before the percent sign that `spec` ends in; `None` if it ends otherwise.
pub open spec fn percentage_text(spec: Seq<char>) -> Option<Seq<char>> {
    if spec.len() > 0 && spec.last() == '%' {
        Some(spec.drop_last())
    } else {
        None
    }
}

/// Whether a zram device may be given `percentage` percent of the memory.
pub open spec fn percentage_allowed(percentage: u64) -> bool {
    1 <= percentage <= MAX_ZRAM_PERCENTAGE_ALLOWED
}

/// The number of bytes in `percentage` percent of the pages, rounded down to whole pages.
pub open spec fn percentage_size(percentage: u64, page_size: u64, page_count: u64) -> int {
    (page_count * percentage) / 100 * page_size
}

/// The size that `spec` asks for: a share of the memory in percent, or a number of bytes.
pub open spec fn zram_size(spec: Seq<char>, page_size: u64, page_count: u64) -> Result<
    int,
    ZramSpecError,
> {
    if spec.len() == 0 {
        Err(ZramSpecError::EmptyZramSizeSpec)
    } else {
        match percentage_text(spec) {
            Some(number) => match text::u64_of_text(number) {
                Some(percentage) => if percentage_allowed(percentage) {
                    Ok(percentage_size(percentage, page_size, page_count))
                } else {
                    Err(ZramSpecError::ZramPercentageOutOfRange(percentage))
                },
                None => Err(ZramSpecError::ParseZramSize(text::u64_parse_error(number))),
            },
            None => match text::u64_of_text(spec) {
                Some(bytes) => Ok(bytes as int),
                None => Err(ZramSpecError::ParseZramSize(text::u64_parse_error(spec))),
            },
        }
    }
}

/// Whether the size that `spec` asks for can be computed in `u64`. That can fail for a
/// percentage only.
pub open spec fn zram_size_fits(spec: Seq<char>, page_size: u64, page_count: u64) -> bool {
    match percentage_text(spec) {
        Some(number) => match text::u64_of_text(number) {
            Some(percentage) => percentage_allowed(percentage) ==> page_count * percentage
                <= u64::MAX && percentage_size(percentage, page_size, page_count) <= u64::MAX,
            None => true,
        },
        None => true,
    }
}

/// What stands before the percent sign that `spec` ends in.
fn strip_percent(spec: &str) -> (number: Option<&str>)
    ensures
        match number {
            Some(number) => percentage_text(spec@) == Some(number@),
            None => percentage_text(spec@) is None,
        },
{
    let len: usize = spec.unicode_len();
    if len > 0 && spec.get_char(len - 1) == '%' {
        let number = spec.substring_char(0, len - 1);
        assert(number@ =~= spec@.drop_last());
        Some(number)
    } else {
        None
    }
}

/// Whether the size that `spec` asks for can be computed in `u64`.
pub fn size_spec_fits(spec: &str, pages: PageInfo) -> (fits: bool)
    ensures
        fits == zram_size_fits(spec@, pages.page_size, pages.page_count),
{
    match strip_percent(spec) {
        None => true,
        Some(number) => match text::parse_u64(number) {
            Err(_) => true,
            Ok(percentage) => {
                if percentage == 0 || percentage > MAX_ZRAM_PERCENTAGE_ALLOWED {
                    return true;
                }
                match pages.page_count.checked_mul(percentage) {
                    None => false,
                    Some(hundredths) => (hundredths / 100).checked_mul(pages.page_size).is_some(),
                }
            },
        },
    }
}

/// Parse zram size that can be specified by a percentage or an absolute value.
pub fn parse_zram_size_spec(spec: &str, pages: PageInfo) -> (size: Result<u64, ZramSpecError>)
    requires
        zram_size_fits(spec@, pages.page_size, pages.page_count),
    ensures
        zram_size(spec@, pages.page_size, pages.page_count) == match size {
            Ok(bytes) => Ok::<int, ZramSpecError>(bytes as int),
            Err(e) => Err(e),
        },
{
    parse_size_spec_with_page_info(spec, pages.page_size, pages.page_count)
}

/// Parse zram size, given the pages of the system.
pub fn parse_size_spec_with_page_info(
    spec: &str,
    system_page_size: u64,
    system_page_count: u64,
) -> (size: Result<u64, ZramSpecError>)
    requires
        zram_size_fits(spec@, system_page_size, system_page_count),
    ensures
        zram_size(spec@, system_page_size, system_page_count) == match size {
            Ok(bytes) => Ok::<int, ZramSpecError>(bytes as int),
            Err(e) => Err(e),
        },
{
    if spec.is_empty() {
        return Err(ZramSpecError::EmptyZramSizeSpec);
    }
    if let Some(number) = strip_percent(spec) {
        let percentage: u64 = match text::parse_u64(number) {
            Ok(percentage) => percentage,
            Err(e) => {
                return Err(ZramSpecError::ParseZramSize(e));
            },
        };
        if percentage == 0 || percentage > MAX_ZRAM_PERCENTAGE_ALLOWED {
            return Err(ZramSpecError::ZramPercentageOutOfRange(percentage));
        }
        return Ok(system_page_count * percentage / 100 * system_page_size);
    }
    match text::parse_u64(spec) {
        Ok(bytes) => Ok(bytes),
        Err(e) => Err(ZramSpecError::ParseZramSize(e)),
    }
}

/// A size that can be computed in `u64` is one.
pub(crate) proof fn lemma_zram_size_range(spec: Seq<char>, page_size: u64, page_count: u64)
    requires
        zram_size_fits(spec, page_size, page_count),
    ensures
        zram_size(spec, page_size, page_count) matches Ok(size) ==> 0 <= size <= u64::MAX,
{
    assert forall|percentage: u64| #[trigger]
        percentage_size(percentage, page_size, page_count) >= 0 by {
        let all = page_count * percentage;
        assert(all >= 0) by (nonlinear_arith)
            requires
                all == page_count * percentage,
        ;
        let pages = all / 100;
        assert(pages * page_size >= 0) by (nonlinear_arith)
            requires
                pages >= 0,
        ;
    }
}

/// A header line never counts as a swap area, and every line after it does: zram is listed
/// exactly when the keyword stands somewhere after the header.
pub proof fn law_header_line_is_ignored(header: Seq<char>, areas: Seq<char>)
    requires
        !header.contains('\n'),
    ensures
        !zram_swap_listed(header),
        zram_swap_listed(header.push('\n') + areas) <==> text::occurs(areas, "zram"@),
{
    reveal_strlit("zram");
    let word = "zram"@;
    assert(text::is_word(word));
    let list = header.push('\n') + areas;
    text::lemma_first_line(header);
    text::lemma_first_line(list);
    text::lemma_word_after_first_line(header, word);
    text::lemma_word_after_first_line(list, word);
    let end = text::first_line_len(header) as int;
    if end < header.len() {
        assert(header.contains(header[end]));
    }
    let len = text::first_line_len(list) as int;
    assert(list[header.len() as int] == '\n');
    if len < header.len() {
        assert(list[len] == header[len]);
        assert(header.contains(header[len]));
    }
    assert(len == header.len());
    assert(list.skip(len + 1) =~= areas);
}

/// A number of bytes written in decimal is the size it asks for, whatever the pages are.
pub proof fn law_decimal_size(bytes: u64, page_size: u64, page_count: u64)
    ensures
        zram_size(text::decimal(bytes as nat), page_size, page_count) == Ok::<int, ZramSpecError>(
            bytes as int,
        ),
        zram_size_fits(text::decimal(bytes as nat), page_size, page_count),
{
    text::lemma_decimal(bytes as nat);
    text::law_decimal_reads_back(bytes);
    let spec = text::decimal(bytes as nat);
    assert(text::is_digit(spec[spec.len() - 1]));
}

/// A decimal number and a percent sign ask for that share of the memory if it is between 1 and
/// 500 percent, and are out of range otherwise.
pub proof fn law_decimal_percentage(percentage: u64, page_size: u64, page_count: u64)
    ensures
        zram_size(text::decimal(percentage as nat).push('%'), page_size, page_count) == if 1
            <= percentage <= 500 {
            Ok::<int, ZramSpecError>(page_count * percentage / 100 * page_size)
        } else {
            Err(ZramSpecError::ZramPercentageOutOfRange(percentage))
        },
{
    text::law_decimal_reads_back(percentage);
    let spec = text::decimal(percentage as nat).push('%');
    assert(spec.drop_last() =~= text::decimal(percentage as nat));
}

/// A share of the memory is the most whole pages that do not exceed it.
pub proof fn law_percentage_is_whole_pages(percentage: u64, page_size: u64, page_count: u64)
    ensures
        page_size > 0 ==> percentage_size(percentage, page_size, page_count) % (page_size as int)
            == 0,
        100 * percentage_size(percentage, page_size, page_count) <= page_count * page_size
            * percentage,
        page_size > 0 ==> page_count * page_size * percentage < 100 * (percentage_size(
            percentage,
            page_size,
            page_count,
        ) + page_size),
{
    let all = page_count * percentage;
    let pages = all / 100;
    let size = page_size as int;
    assert(page_count * page_size * percentage == all * size) by (nonlinear_arith)
        requires
            all == page_count * percentage,
            size == page_size,
    ;
    assert(all >= 0) by (nonlinear_arith)
        requires
            all == page_count * percentage,
    ;
    assert(100 * pages <= all < 100 * pages + 100);
    assert(100 * (pages * size) <= all * size) by (nonlinear_arith)
        requires
            100 * pages <= all,
            size >= 0,
    ;
    if size > 0 {
        assert((pages * size) % size == 0) by (nonlinear_arith)
            requires
                size > 0,
        ;
        assert(all * size < 100 * (pages * size + size)) by (nonlinear_arith)
            requires
                all < 100 * pages + 100,
                size > 0,
        ;
    }
}

/// A larger percentage never asks for less.
pub proof fn law_percentage_size_grows(less: u64, more: u64, page_size: u64, page_count: u64)
    requires
        less <= more,
    ensures
        percentage_size(less, page_size, page_count) <= percentage_size(
            more,
            page_size,
            page_count,
        ),
{
    let a = page_count * less;
    let b = page_count * more;
    assert(a <= b) by (nonlinear_arith)
        requires
            a == page_count * less,
            b == page_count * more,
            less <= more,
    ;
    let m = a / 100;
    let n = b / 100;
    assert(m <= n);
    assert(m * page_size <= n * page_size) by (nonlinear_arith)
        requires
            m <= n,
    ;
}

// ---------------------------------------------------------------------------------------------
// Activation
// ---------------------------------------------------------------------------------------------

/// What a command that was run has left behind.
#[derive(Debug)]
pub struct CommandOutput {
    /// The wait status that the command ended with: its exit code and the signal that ended it,
    /// as the system encodes them.
    pub status: i32,
    /// What it wrote to its standard output.
    pub stdout: Vec<u8>,
    /// What it wrote to its standard error.
    pub stderr: Vec<u8>,
}

impl CommandOutput {
    /// Whether the command succeeded: it was not ended by a signal, and its exit code is zero.
    pub open spec fn succeeded(self) -> bool {
        self.status == 0
    }

    /// Whether the command succeeded.
    pub fn success(&self) -> (success: bool)
        ensures
            success == self.succeeded(),
            success == (self.status == 0),
    {
        self.status == 0
    }
}

/// Error from [`activate_zram`].
#[derive(Debug)]
pub enum ZramActivationError<E> {
    /// Failed to update zram disk size.
    UpdateZramDiskSize(E),
    /// Failed to swapon.
    SwapOn(E),
    /// Mkswap command could not be executed.
    ExecuteMkSwap(E),
    /// Mkswap command failed.
    MkSwap(CommandOutput),
}

/// Work on the zram device. `T` is the type of its texts.
#[derive(Debug, PartialEq, Eq)]
pub enum ActivationAction<T> {
    /// Write the size of the zram device.
    WriteDiskSize(T),
    /// Set up a swap area on the device.
    MkSwap(T),
    /// Swap to the device.
    SwapOn(T),
}

impl View for ActivationAction<String> {
    type V = ActivationAction<Seq<char>>;

    open spec fn view(&self) -> ActivationAction<Seq<char>> {
        match *self {
            ActivationAction::WriteDiskSize(size) => ActivationAction::WriteDiskSize(size@),
            ActivationAction::MkSwap(device) => ActivationAction::MkSwap(device@),
            ActivationAction::SwapOn(device) => ActivationAction::SwapOn(device@),
        }
    }
}

/// What came of an [`ActivationAction`].
#[derive(Debug)]
pub enum ActivationEvent<E> {
    /// The size was written, or could not be.
    DiskSizeWritten(Result<(), E>),
    /// Mkswap ran, or could not be executed.
    MkSwapRan(Result<CommandOutput, E>),
    /// The device is swapped to, or could not be.
    SwapOnDone(Result<(), E>),
}

/// How far the activation of zram has come: which outcome it waits for.
#[derive(Debug, Clone, Copy, PartialEq, Eq)]
pub enum ActivationStage {
    /// The outcome of writing the disk size.
    WriteDiskSize,
    /// The outcome of mkswap.
    MkSwap,
    /// The outcome of swapon.
    SwapOn,
}

/// What the activation of zram wants next.
pub type ActivationStep<E> = Step<
    ActivationStage,
    ActivationAction<String>,
    Result<(), ZramActivationError<E>>,
>;

/// An [`ActivationStep`] in contracts.
pub type ActivationStepView<E> = Step<
    ActivationStage,
    ActivationAction<Seq<char>>,
    Result<(), ZramActivationError<E>>,
>;

/// The activation starts by writing the size in decimal.
pub open spec fn activation_start<E>(zram_size: u64) -> ActivationStepView<E> {
    Step::Perform {
        stage: ActivationStage::WriteDiskSize,
        action: ActivationAction::WriteDiskSize(text::decimal(zram_size as nat)),
    }
}

/// What the activation wants after `event`: the next of its three actions on the zram device,
/// or, after a failure or the last of them, an end.
pub open spec fn activation_next<E>(event: ActivationEvent<E>) -> ActivationStepView<E> {
    match event {
        ActivationEvent::DiskSizeWritten(Err(e)) => Step::Finished(
            Err(ZramActivationError::UpdateZramDiskSize(e)),
        ),
        ActivationEvent::DiskSizeWritten(Ok(_)) => Step::Perform {
            stage: ActivationStage::MkSwap,
            action: ActivationAction::MkSwap(ZRAM_DEVICE_PATH@),
        },
        ActivationEvent::MkSwapRan(Err(e)) => Step::Finished(
            Err(ZramActivationError::ExecuteMkSwap(e)),
        ),
        ActivationEvent::MkSwapRan(Ok(output)) => if output.succeeded() {
            Step::Perform {
                stage: ActivationStage::SwapOn,
                action: ActivationAction::SwapOn(ZRAM_DEVICE_PATH@),
            }
        } else {
            Step::Finished(Err(ZramActivationError::MkSwap(output)))
        },
        ActivationEvent::SwapOnDone(Err(e)) => Step::Finished(Err(ZramActivationError::SwapOn(e))),
        ActivationEvent::SwapOnDone(Ok(_)) => Step::Finished(Ok(())),
    }
}

/// Set up a zram device with provided parameters. Returns the first step of the activation;
/// [`ActivationStage::resume`] returns the others.
pub fn activate_zram<E>(zram_size: u64) -> (step: ActivationStep<E>)
    ensures
        step@ == activation_start::<E>(zram_size),
{
    Step::Perform {
        stage: ActivationStage::WriteDiskSize,
        action: ActivationAction::WriteDiskSize(text::decimal_text(zram_size)),
    }
}

impl ActivationStage {
    /// Whether `event` is the outcome that the activation waits for.
    pub open spec fn awaits<E>(self, event: ActivationEvent<E>) -> bool {
        match self {
            ActivationStage::WriteDiskSize => event is DiskSizeWritten,
            ActivationStage::MkSwap => event is MkSwapRan,
            ActivationStage::SwapOn => event is SwapOnDone,
        }
    }

    /// Goes on with the activation after `event`.
    pub fn resume<E>(self, event: ActivationEvent<E>) -> (step: ActivationStep<E>)
        requires
            self.awaits(event),
        ensures
            step@ == activation_next(event),
    {
        match event {
            ActivationEvent::DiskSizeWritten(Err(e)) => Step::Finished(
                Err(ZramActivationError::UpdateZramDiskSize(e)),
            ),
            ActivationEvent::DiskSizeWritten(Ok(_)) => Step::Perform {
                stage: ActivationStage::MkSwap,
                action: ActivationAction::MkSwap(ZRAM_DEVICE_PATH.to_owned()),
            },
            ActivationEvent::MkSwapRan(Err(e)) => Step::Finished(
                Err(ZramActivationError::ExecuteMkSwap(e)),
            ),
            ActivationEvent::MkSwapRan(Ok(output)) => {
                if !output.success() {
                    return Step::Finished(Err(ZramActivationError::MkSwap(output)));
                }
                Step::Perform {
                    stage: ActivationStage::SwapOn,
                    action: ActivationAction::SwapOn(ZRAM_DEVICE_PATH.to_owned()),
                }
            },
            ActivationEvent::SwapOnDone(Err(e)) => Step::Finished(
                Err(ZramActivationError::SwapOn(e)),
            ),
            ActivationEvent::SwapOnDone(Ok(_)) => Step::Finished(Ok(())),
        }
    }
}

/// What a device that answers with these three outcomes, one for each action, says of the action
/// that `stage` waits for.
pub open spec fn activation_reply<E>(
    stage: ActivationStage,
    disk_size: Result<(), E>,
    mkswap: Result<CommandOutput, E>,
    swapon: Result<(), E>,
) -> ActivationEvent<E> {
    match stage {
        ActivationStage::WriteDiskSize => ActivationEvent::DiskSizeWritten(disk_size),
        ActivationStage::MkSwap => ActivationEvent::MkSwapRan(mkswap),
        ActivationStage::SwapOn => ActivationEvent::SwapOnDone(swapon),
    }
}

/// At most how many actions are to come, the one of `step` included.
pub open spec fn activation_rank<E>(step: ActivationStepView<E>) -> nat {
    match step {
        Step::Perform { stage: ActivationStage::WriteDiskSize, .. } => 3,
        Step::Perform { stage: ActivationStage::MkSwap, .. } => 2,
        Step::Perform { stage: ActivationStage::SwapOn, .. } => 1,
        Step::Finished(_) => 0,
    }
}

/// The actions from `step` on, and the result, of an activation on a device that answers with
/// these outcomes.
pub open spec fn activation_run<E>(
    step: ActivationStepView<E>,
    disk_size: Result<(), E>,
    mkswap: Result<CommandOutput, E>,
    swapon: Result<(), E>,
) -> (Seq<ActivationAction<Seq<char>>>, Result<(), ZramActivationError<E>>)
    decreases activation_rank(step),
{
    match step {
        Step::Finished(result) => (seq![], result),
        Step::Perform { stage, action } => {
            let next = activation_next(activation_reply(stage, disk_size, mkswap, swapon));
            let (actions, result) = activation_run(next, disk_size, mkswap, swapon);
            (seq![action] + actions, result)
        },
    }
}

/// An activation writes the size in decimal, runs mkswap on the zram device and then swaps to
/// it. It stops at the first of these that fails, with the error of that one, and succeeds
/// exactly when none fails.
pub proof fn law_activation<E>(
    zram_size: u64,
    disk_size: Result<(), E>,
    mkswap: Result<CommandOutput, E>,
    swapon: Result<(), E>,
)
    ensures
        ({
            let write = ActivationAction::WriteDiskSize(text::decimal(zram_size as nat));
            let make = ActivationAction::MkSwap(ZRAM_DEVICE_PATH@);
            let enable = ActivationAction::SwapOn(ZRAM_DEVICE_PATH@);
            let (actions, result) = activation_run(
                activation_start::<E>(zram_size),
                disk_size,
                mkswap,
                swapon,
            );
            match (disk_size, mkswap, swapon) {
                (Err(e), _, _) => {
                    &&& actions == seq![write]
                    &&& result == Err::<(), _>(ZramActivationError::UpdateZramDiskSize(e))
                },
                (Ok(_), Err(e), _) => {
                    &&& actions == seq![write, make]
                    &&& result == Err::<(), _>(ZramActivationError::ExecuteMkSwap(e))
                },
                (Ok(_), Ok(output), swapon) => if !output.succeeded() {
                    &&& actions == seq![write, make]
                    &&& result == Err::<(), _>(ZramActivationError::<E>::MkSwap(output))
                } else {
                    &&& actions == seq![write, make, enable]
                    &&& result == match swapon {
                        Ok(_) => Ok::<(), ZramActivationError<E>>(()),
                        Err(e) => Err(ZramActivationError::SwapOn(e)),
                    }
                },
            }
        }),
{
    reveal_with_fuel(activation_run, 4);
    let write = ActivationAction::WriteDiskSize(text::decimal(zram_size as nat));
    let make = ActivationAction::MkSwap(ZRAM_DEVICE_PATH@);
    let enable = ActivationAction::SwapOn(ZRAM_DEVICE_PATH@);
    let none: Seq<ActivationAction<Seq<char>>> = seq![];
    assert(seq![write] + none =~= seq![write]);
    assert(seq![write] + (seq![make] + none) =~= seq![write, make]);
    assert(seq![write] + (seq![make] + (seq![enable] + none)) =~= seq![write, make, enable]);
}

/// Zram is listed exactly when the letters of the keyword stand side by side somewhere behind a
/// line feed.
pub proof fn law_zram_swap_listed(swaps: Seq<char>)
    ensures
        zram_swap_listed(swaps) <==> exists|feed: int, at: int|
            0 <= feed < at && at + 4 <= swaps.len() && #[trigger] swaps[feed] == '\n'
                && #[trigger] swaps[at] == 'z' && swaps[at + 1] == 'r' && swaps[at + 2] == 'a'
                && swaps[at + 3] == 'm',
{
    reveal_strlit("zram");
    let word = "zram"@;
    let end = text::first_line_len(swaps) as int;
    let rest = swaps.skip(end + 1);
    assert(text::is_word(word));
    text::lemma_first_line(swaps);
    text::lemma_word_after_first_line(swaps, word);
    if zram_swap_listed(swaps) {
        let i = choose|i: int| text::occurs_at(rest, word, i);
        let at = i + end + 1;
        let here = rest.subrange(i, i + 4);
        assert(here == word);
        assert(here[0] == swaps[at] && here[1] == swaps[at + 1] && here[2] == swaps[at + 2]
            && here[3] == swaps[at + 3]);
        assert(swaps[end] == '\n' && swaps[at] == 'z');
    }
    if exists|feed: int, at: int|
        0 <= feed < at && at + 4 <= swaps.len() && #[trigger] swaps[feed] == '\n'
            && #[trigger] swaps[at] == 'z' && swaps[at + 1] == 'r' && swaps[at + 2] == 'a'
            && swaps[at + 3] == 'm' {
        let (feed, at) = choose|feed: int, at: int|
            0 <= feed < at && at + 4 <= swaps.len() && #[trigger] swaps[feed] == '\n'
                && #[trigger] swaps[at] == 'z' && swaps[at + 1] == 'r' && swaps[at + 2] == 'a'
                && swaps[at + 3] == 'm';
        assert(end <= feed);
        let i = at - end - 1;
        assert(rest.subrange(i, i + 4) =~= word);
        assert(text::occurs_at(rest, word, i));
    }
}

/// Every size spec has exactly one of these answers. An empty one is refused as such. One that
/// ends in a percent sign asks for so many percent of the pages, from 1 to 500, in whole pages.
/// Any other asks for its number of bytes.
pub proof fn law_every_size_spec(spec: Seq<char>, page_size: u64, page_count: u64)
    ensures
        spec.len() == 0 ==> zram_size(spec, page_size, page_count) == Err::<int, _>(
            ZramSpecError::EmptyZramSizeSpec,
        ),
        spec.len() > 0 && spec.last() != '%' ==> zram_size(spec, page_size, page_count)
            == match text::u64_of_text(spec) {
            Some(bytes) => Ok::<int, ZramSpecError>(bytes as int),
            None => Err(ZramSpecError::ParseZramSize(text::u64_parse_error(spec))),
        },
        spec.len() > 0 && spec.last() == '%' ==> zram_size(spec, page_size, page_count)
            == match text::u64_of_text(spec.drop_last()) {
            Some(percentage) => if 1 <= percentage <= 500 {
                Ok::<int, ZramSpecError>(page_count * percentage / 100 * page_size)
            } else {
                Err(ZramSpecError::ZramPercentageOutOfRange(percentage))
            },
            None => Err(ZramSpecError::ParseZramSize(text::u64_parse_error(spec.drop_last()))),
        },
{
}

/// A size fits unless it is a share from 1 to 500 percent of which the pages or the bytes exceed
/// what a `u64` can hold.
pub proof fn law_what_does_not_fit(spec: Seq<char>, page_size: u64, page_count: u64)
    ensures
        spec.len() == 0 || spec.last() != '%' ==> zram_size_fits(spec, page_size, page_count),
        spec.len() > 0 && spec.last() == '%' ==> (zram_size_fits(spec, page_size, page_count)
            <==> match text::u64_of_text(spec.drop_last()) {
            Some(percentage) => 1 <= percentage <= 500 ==> (page_count * percentage <= u64::MAX
                && page_count * percentage / 100 * page_size <= u64::MAX),
            None => true,
        }),
{
}

/// A command succeeded exactly when its wait status is 0.
pub proof fn law_success_is_status_zero(output: CommandOutput)
    ensures
        output.succeeded() <==> output.status == 0,
{
}

/// Whatever wait status other than 0 mkswap ends with, the activation ends there: the size was
/// written and mkswap run, the device is not swapped to, and the error is the output as it came.
/// After status 0, and only then, the device is swapped to.
pub proof fn law_activation_by_status<E>(
    zram_size: u64,
    disk_size: Result<(), E>,
    mkswap: Result<CommandOutput, E>,
    swapon: Result<(), E>,
)
    ensures
        ({
            let write = ActivationAction::WriteDiskSize(text::decimal(zram_size as nat));
            let make = ActivationAction::MkSwap("/dev/block/zram0"@);
            let enable = ActivationAction::SwapOn("/dev/block/zram0"@);
            let (actions, result) = activation_run(
                activation_start::<E>(zram_size),
                disk_size,
                mkswap,
                swapon,
            );
            &&& actions[0] == write
            &&& disk_size matches Err(e) ==> actions == seq![write] && result == Err::<(), _>(
                ZramActivationError::UpdateZramDiskSize(e),
            )
            &&& disk_size is Ok && mkswap is Err ==> actions == seq![write, make] && result
                == Err::<(), _>(ZramActivationError::ExecuteMkSwap(mkswap->Err_0))
            &&& disk_size is Ok && mkswap is Ok && mkswap->Ok_0.status != 0 ==> actions
                == seq![write, make] && result == Err::<(), _>(
                ZramActivationError::<E>::MkSwap(mkswap->Ok_0),
            )
            &&& disk_size is Ok && mkswap is Ok && mkswap->Ok_0.status == 0 ==> actions
                == seq![write, make, enable] && (result is Ok <==> swapon is Ok) && (
            swapon matches Err(e) ==> result == Err::<(), _>(ZramActivationError::SwapOn(e)))
            &&& result is Ok <==> disk_size is Ok && mkswap is Ok && mkswap->Ok_0.status == 0
                && swapon is Ok
            &&& actions.contains(enable) <==> disk_size is Ok && mkswap is Ok
                && mkswap->Ok_0.status == 0
        }),
{
    law_activation(zram_size, disk_size, mkswap, swapon);
    let write = ActivationAction::WriteDiskSize(text::decimal(zram_size as nat));
    let make = ActivationAction::MkSwap("/dev/block/zram0"@);
    let enable = ActivationAction::SwapOn("/dev/block/zram0"@);
    assert(seq![write, make, enable][2] == enable);
    assert(!seq![write].contains(enable));
    assert(!seq![write, make].contains(enable));
}

/// In contracts an action is what it is, with its own text.
pub proof fn law_activation_action_texts(text: String)
    ensures
        ActivationAction::WriteDiskSize(text)@ == ActivationAction::WriteDiskSize(text@),
        ActivationAction::MkSwap(text)@ == ActivationAction::MkSwap(text@),
        ActivationAction::SwapOn(text)@ == ActivationAction::SwapOn(text@),
{
}

/// Every reply of the device can be handed to the stage that waits for it.
pub proof fn law_activation_awaits<E>(
    stage: ActivationStage,
    disk_size: Result<(), E>,
    mkswap: Result<CommandOutput, E>,
    swapon: Result<(), E>,
)
    ensures
        stage.awaits(activation_reply(stage, disk_size, mkswap, swapon)),
{
}

} // verus!
