//! The setup of zram when the daemon starts.
use crate::os::PageInfo;
use crate::step::Step;
use crate::text;
use crate::zram::setup;
use crate::zram::setup::ActivationAction;
use crate::zram::setup::ActivationEvent;
use crate::zram::setup::ActivationStage;
use crate::zram::setup::ZramActivationError;
use crate::zram::setup::ZramSpecError;
use vstd::prelude::*;

verus! {

/// The size of the zram device where no property says otherwise.
pub const DEFAULT_ZRAM_SIZE_SPEC: &'static str = "50%";

/// Work for the setup of zram. `T` is the type of its texts.
#[derive(Debug, PartialEq, Eq)]
pub enum SetupAction<T> {
    /// Read the swap areas in use.
    ReadSwapAreas,
    /// Read the property that says how large the zram device shall be, and the pages of the
    /// system.
    LoadSizeSpec,
    /// Work for the activation of zram.
    Activation(ActivationAction<T>),
}

impl View for SetupAction<String> {
    type V = SetupAction<Seq<char>>;

    open spec fn view(&self) -> SetupAction<Seq<char>> {
        match *self {
            SetupAction::ReadSwapAreas => SetupAction::ReadSwapAreas,
            SetupAction::LoadSizeSpec => SetupAction::LoadSizeSpec,
            SetupAction::Activation(action) => SetupAction::Activation(action@),
        }
    }
}

/// What came of a [`SetupAction`].
#[derive(Debug)]
pub enum SetupEvent<E> {
    /// The swap areas in use.
    SwapAreas(Result<String, E>),
    /// How large the zram device shall be.
    SizeSpec {
        /// The property that says so, if it is set.
        property: Option<String>,
        /// The pages of the system.
        pages: PageInfo,
    },
    /// What came of work for the activation.
    Activation(ActivationEvent<E>),
}

/// Which outcome the setup of zram waits for.
#[derive(Debug, Clone, Copy, PartialEq, Eq)]
pub enum SetupStage {
    /// The swap areas in use.
    SwapAreas,
    /// How large the zram device shall be.
    SizeSpec,
    /// An outcome of the activation.
    Activation(ActivationStage),
}

/// How the setup of zram has succeeded.
#[derive(Debug, Clone, Copy, PartialEq, Eq)]
pub enum SetupOutcome {
    /// zram was on already, and the setup was skipped.
    AlreadyOn,
    /// zram was activated.
    Activated,
}

/// Error from [`setup_zram`].
#[derive(Debug)]
pub enum SetupError<E> {
    /// The swap areas in use could not be read.
    SwapAreas(E),
    /// The size of the zram device is not well specified.
    SizeSpec(ZramSpecError),
    /// zram could not be activated.
    Activation(ZramActivationError<E>),
}

/// What the setup of zram wants next.
pub type SetupStep<E> = Step<SetupStage, SetupAction<String>, Result<SetupOutcome, SetupError<E>>>;

/// A [`SetupStep`] in contracts.
pub type SetupStepView<E> = Step<
    SetupStage,
    SetupAction<Seq<char>>,
    Result<SetupOutcome, SetupError<E>>,
>;

/// The size of the zram device that is asked for: what the property says, or else the default.
pub open spec fn size_spec(property: Option<String>) -> Seq<char> {
    match property {
        Some(spec) => spec@,
        None => DEFAULT_ZRAM_SIZE_SPEC@,
    }
}

/// The setup starts by reading the swap areas in use.
pub open spec fn setup_start<E>() -> SetupStepView<E> {
    Step::Perform { stage: SetupStage::SwapAreas, action: SetupAction::ReadSwapAreas }
}

/// How the setup follows the activation: its end is the end of the setup.
pub open spec fn follow_activation<E>(step: setup::ActivationStepView<E>) -> SetupStepView<E> {
    match step {
        Step::Perform { stage, action } => Step::Perform {
            stage: SetupStage::Activation(stage),
            action: SetupAction::Activation(action),
        },
        Step::Finished(Ok(_)) => Step::Finished(Ok(SetupOutcome::Activated)),
        Step::Finished(Err(e)) => Step::Finished(Err(SetupError::Activation(e))),
    }
}

/// What the setup wants after `event`: nothing if zram is on already, and otherwise an
/// activation with the size that is asked for.
pub open spec fn setup_next<E>(event: SetupEvent<E>) -> SetupStepView<E> {
    match event {
        SetupEvent::SwapAreas(Err(e)) => Step::Finished(Err(SetupError::SwapAreas(e))),
        SetupEvent::SwapAreas(Ok(swaps)) => if setup::zram_swap_listed(swaps@) {
            Step::Finished(Ok(SetupOutcome::AlreadyOn))
        } else {
            Step::Perform { stage: SetupStage::SizeSpec, action: SetupAction::LoadSizeSpec }
        },
        SetupEvent::SizeSpec { property, pages } => match setup::zram_size(
            size_spec(property),
            pages.page_size,
            pages.page_count,
        ) {
            Ok(size) => follow_activation(setup::activation_start::<E>(size as u64)),
            Err(e) => Step::Finished(Err(SetupError::SizeSpec(e))),
        },
        SetupEvent::Activation(event) => follow_activation(setup::activation_next(event)),
    }
}

impl SetupStage {
    /// Whether `event` is the outcome that the setup waits for, with a size that can be
    /// computed.
    pub open spec fn awaits<E>(self, event: SetupEvent<E>) -> bool {
        match (self, event) {
            (SetupStage::SwapAreas, SetupEvent::SwapAreas(_)) => true,
            (SetupStage::SizeSpec, SetupEvent::SizeSpec { property, pages }) =>
                setup::zram_size_fits(size_spec(property), pages.page_size, pages.page_count),
            (SetupStage::Activation(stage), SetupEvent::Activation(event)) => stage.awaits(event),
            _ => false,
        }
    }

    /// Goes on with the setup after `event`.
    pub fn resume<E>(self, event: SetupEvent<E>) -> (step: SetupStep<E>)
        requires
            self.awaits(event),
        ensures
            step@ == setup_next(event),
    {
        match (self, event) {
            (SetupStage::SwapAreas, SetupEvent::SwapAreas(swaps)) => {
                match setup::is_zram_swap_activated(swaps) {
                    Err(e) => Step::Finished(Err(SetupError::SwapAreas(e))),
                    Ok(activated) => {
                        if activated {
                            return Step::Finished(Ok(SetupOutcome::AlreadyOn));
                        }
                        Step::Perform {
                            stage: SetupStage::SizeSpec,
                            action: SetupAction::LoadSizeSpec,
                        }
                    },
                }
            },
            (SetupStage::SizeSpec, SetupEvent::SizeSpec { property, pages }) => {
                let size = match property {
                    Some(spec) => setup::parse_zram_size_spec(spec.as_str(), pages),
                    None => setup::parse_zram_size_spec(DEFAULT_ZRAM_SIZE_SPEC, pages),
                };
                match size {
                    Ok(zram_size) => continue_activation(setup::activate_zram(zram_size)),
                    Err(e) => Step::Finished(Err(SetupError::SizeSpec(e))),
                }
            },
            (SetupStage::Activation(stage), SetupEvent::Activation(event)) => continue_activation(
                stage.resume(event),
            ),
            _ => vstd::pervasive::unreached(),
        }
    }
}

/// Follows the activation.
fn continue_activation<E>(step: setup::ActivationStep<E>) -> (next: SetupStep<E>)
    ensures
        next@ == follow_activation(step@),
{
    match step {
        Step::Perform { stage, action } => Step::Perform {
            stage: SetupStage::Activation(stage),
            action: SetupAction::Activation(action),
        },
        Step::Finished(Ok(_)) => Step::Finished(Ok(SetupOutcome::Activated)),
        Step::Finished(Err(e)) => Step::Finished(Err(SetupError::Activation(e))),
    }
}

/// Sets up zram unless it is on already. Returns the first step; [`SetupStage::resume`] returns
/// the others.
pub fn setup_zram<E>() -> (step: SetupStep<E>)
    ensures
        step@ == setup_start::<E>(),
{
    Step::Perform { stage: SetupStage::SwapAreas, action: SetupAction::ReadSwapAreas }
}

/// What a device says to all that the setup may ask of it.
pub ghost struct SetupReplies<E> {
    /// The swap areas in use.
    pub swaps: Result<String, E>,
    /// The property that says how large the zram device shall be.
    pub property: Option<String>,
    /// The pages of the system.
    pub pages: PageInfo,
    /// The outcome of writing the size of the device.
    pub disk_size: Result<(), E>,
    /// The outcome of mkswap.
    pub mkswap: Result<setup::CommandOutput, E>,
    /// The outcome of swapon.
    pub swapon: Result<(), E>,
}

/// What the device says of the action that `stage` waits for.
pub open spec fn setup_reply<E>(stage: SetupStage, replies: SetupReplies<E>) -> SetupEvent<E> {
    match stage {
        SetupStage::SwapAreas => SetupEvent::SwapAreas(replies.swaps),
        SetupStage::SizeSpec => SetupEvent::SizeSpec {
            property: replies.property,
            pages: replies.pages,
        },
        SetupStage::Activation(stage) => SetupEvent::Activation(
            setup::activation_reply(stage, replies.disk_size, replies.mkswap, replies.swapon),
        ),
    }
}

/// A number that gets smaller with every step of the setup.
pub open spec fn setup_rank<E>(step: SetupStepView<E>) -> nat {
    match step {
        Step::Perform { stage: SetupStage::SwapAreas, .. } => 5,
        Step::Perform { stage: SetupStage::SizeSpec, .. } => 4,
        Step::Perform { stage: SetupStage::Activation(ActivationStage::WriteDiskSize), .. } => 3,
        Step::Perform { stage: SetupStage::Activation(ActivationStage::MkSwap), .. } => 2,
        Step::Perform { stage: SetupStage::Activation(ActivationStage::SwapOn), .. } => 1,
        Step::Finished(_) => 0,
    }
}

/// The actions from `step` on, and the result, of a setup.
pub open spec fn setup_run<E>(step: SetupStepView<E>, replies: SetupReplies<E>) -> (
    Seq<SetupAction<Seq<char>>>,
    Result<SetupOutcome, SetupError<E>>,
)
    decreases setup_rank(step),
{
    match step {
        Step::Finished(result) => (seq![], result),
        Step::Perform { stage, action } => {
            let (actions, result) = setup_run(setup_next(setup_reply(stage, replies)), replies);
            (seq![action] + actions, result)
        },
    }
}

/// The setup from a step of the activation on is that activation.
proof fn lemma_follow_activation<E>(step: setup::ActivationStepView<E>, replies: SetupReplies<E>)
    ensures
        ({
            let (actions, result) = setup_run(follow_activation(step), replies);
            let (activation_actions, activation_result) = setup::activation_run(
                step,
                replies.disk_size,
                replies.mkswap,
                replies.swapon,
            );
            &&& actions == activation_actions.map_values(
                |action: ActivationAction<Seq<char>>| SetupAction::Activation(action),
            )
            &&& result == match activation_result {
                Ok(_) => Ok(SetupOutcome::Activated),
                Err(e) => Err(SetupError::Activation(e)),
            }
        }),
    decreases setup::activation_rank(step),
{
    let wrap = |action: ActivationAction<Seq<char>>| SetupAction::Activation(action);
    let (actions, _) = setup_run(follow_activation(step), replies);
    match step {
        Step::Finished(_) => {
            assert(actions =~= Seq::<ActivationAction<Seq<char>>>::empty().map_values(wrap));
        },
        Step::Perform { stage, action } => {
            let next = setup::activation_next(
                setup::activation_reply(stage, replies.disk_size, replies.mkswap, replies.swapon),
            );
            lemma_follow_activation(next, replies);
            let rest = setup::activation_run(
                next,
                replies.disk_size,
                replies.mkswap,
                replies.swapon,
            ).0;
            assert((seq![action] + rest).map_values(wrap) =~= seq![wrap(action)]
                + rest.map_values(wrap));
        },
    }
}

/// A setup that finds zram on, or cannot find out whether it is, does nothing but look. One that
/// finds no zram activates it with the size that the property or else the default asks for, or
/// fails without touching the device if that is no size.
pub proof fn law_setup<E>(replies: SetupReplies<E>)
    requires
        (replies.swaps matches Ok(swaps) && !setup::zram_swap_listed(swaps@))
            ==> setup::zram_size_fits(
            size_spec(replies.property),
            replies.pages.page_size,
            replies.pages.page_count,
        ),
    ensures
        ({
            let (actions, result) = setup_run(setup_start::<E>(), replies);
            let read = SetupAction::<Seq<char>>::ReadSwapAreas;
            let load = SetupAction::<Seq<char>>::LoadSizeSpec;
            match replies.swaps {
                Err(e) => {
                    &&& actions == seq![read]
                    &&& result == Err::<SetupOutcome, _>(SetupError::SwapAreas(e))
                },
                Ok(swaps) => if setup::zram_swap_listed(swaps@) {
                    &&& actions == seq![read]
                    &&& result == Ok::<_, SetupError<E>>(SetupOutcome::AlreadyOn)
                } else {
                    match setup::zram_size(
                        size_spec(replies.property),
                        replies.pages.page_size,
                        replies.pages.page_count,
                    ) {
                        Err(e) => {
                            &&& actions == seq![read, load]
                            &&& result == Err::<SetupOutcome, _>(SetupError::<E>::SizeSpec(e))
                        },
                        Ok(size) => {
                            let (activation_actions, activation_result) = setup::activation_run(
                                setup::activation_start::<E>(size as u64),
                                replies.disk_size,
                                replies.mkswap,
                                replies.swapon,
                            );
                            &&& 0 <= size <= u64::MAX
                            &&& actions == seq![read, load] + activation_actions.map_values(
                                |action: ActivationAction<Seq<char>>|
                                    SetupAction::Activation(action),
                            )
                            &&& result == match activation_result {
                                Ok(_) => Ok(SetupOutcome::Activated),
                                Err(e) => Err(SetupError::Activation(e)),
                            }
                        },
                    }
                },
            }
        }),
{
    reveal_with_fuel(setup_run, 3);
    let (actions, _) = setup_run(setup_start::<E>(), replies);
    let read = SetupAction::<Seq<char>>::ReadSwapAreas;
    let load = SetupAction::<Seq<char>>::LoadSizeSpec;
    let none: Seq<SetupAction<Seq<char>>> = seq![];
    assert(seq![read] + none =~= seq![read]);
    assert(seq![read] + (seq![load] + none) =~= seq![read, load]);
    if let Ok(size) = setup::zram_size(
        size_spec(replies.property),
        replies.pages.page_size,
        replies.pages.page_count,
    ) {
        lemma_follow_activation(setup::activation_start::<E>(size as u64), replies);
        let rest = setup_run(
            follow_activation(setup::activation_start::<E>(size as u64)),
            replies,
        ).0;
        assert(seq![read] + (seq![load] + rest) =~= seq![read, load] + rest);
        if setup::zram_size_fits(
            size_spec(replies.property),
            replies.pages.page_size,
            replies.pages.page_count,
        ) {
            setup::lemma_zram_size_range(
                size_spec(replies.property),
                replies.pages.page_size,
                replies.pages.page_count,
            );
        }
    }
}

/// The size of the zram device is what the property says where it is set, even to nothing, and
/// half of the memory where it is not.
pub proof fn law_size_spec(property: Option<String>)
    ensures
        property matches Some(spec) ==> size_spec(property) == spec@,
        property is None ==> size_spec(property) == "50%"@,
{
}

/// Zram is activated exactly when the swap areas can be read and list no zram, the size is
/// well specified, and the disk size is written, mkswap ends with status 0 and swapon succeeds.
/// The device is touched only if no zram is listed and the size is well specified.
pub proof fn law_setup_activates<E>(replies: SetupReplies<E>)
    requires
        (replies.swaps matches Ok(swaps) && !setup::zram_swap_listed(swaps@))
            ==> setup::zram_size_fits(
            size_spec(replies.property),
            replies.pages.page_size,
            replies.pages.page_count,
        ),
    ensures
        ({
            let (actions, result) = setup_run(setup_start::<E>(), replies);
            let spec = match replies.property {
                Some(spec) => spec@,
                None => "50%"@,
            };
            let size = setup::zram_size(spec, replies.pages.page_size, replies.pages.page_count);
            let may_activate = replies.swaps is Ok && !setup::zram_swap_listed(
                replies.swaps->Ok_0@,
            ) && size is Ok;
            &&& result == Ok::<_, SetupError<E>>(SetupOutcome::Activated) <==> (may_activate
                && replies.disk_size is Ok && replies.mkswap is Ok && replies.mkswap->Ok_0.status
                == 0 && replies.swapon is Ok)
            &&& result == Ok::<_, SetupError<E>>(SetupOutcome::AlreadyOn) <==> (replies.swaps is Ok
                && setup::zram_swap_listed(replies.swaps->Ok_0@))
            &&& actions[0] == SetupAction::<Seq<char>>::ReadSwapAreas
            &&& actions.len() >= 3 <==> may_activate
            &&& may_activate ==> actions[2] == SetupAction::Activation(
                ActivationAction::WriteDiskSize(text::decimal(size->Ok_0 as nat)),
            )
            &&& may_activate && replies.disk_size is Ok ==> actions[3] == SetupAction::Activation(
                ActivationAction::MkSwap("/dev/block/zram0"@),
            )
            &&& actions.contains(
                SetupAction::Activation(ActivationAction::SwapOn("/dev/block/zram0"@)),
            ) <==> (may_activate && replies.disk_size is Ok && replies.mkswap is Ok
                && replies.mkswap->Ok_0.status == 0)
        }),
{
    law_setup(replies);
    let (actions, result) = setup_run(setup_start::<E>(), replies);
    let size = setup::zram_size(
        size_spec(replies.property),
        replies.pages.page_size,
        replies.pages.page_count,
    );
    let read = SetupAction::<Seq<char>>::ReadSwapAreas;
    let load = SetupAction::<Seq<char>>::LoadSizeSpec;
    let enable = SetupAction::Activation(ActivationAction::SwapOn("/dev/block/zram0"@));
    assert(!seq![read].contains(enable));
    assert(!seq![read, load].contains(enable));
    if replies.swaps is Ok && !setup::zram_swap_listed(replies.swaps->Ok_0@) && size is Ok {
        setup::law_activation_by_status(
            size->Ok_0 as u64,
            replies.disk_size,
            replies.mkswap,
            replies.swapon,
        );
        if replies.disk_size is Ok && replies.mkswap is Ok && replies.mkswap->Ok_0.status == 0 {
            assert(actions[4] == enable);
        }
    }
}

/// In contracts an action is what it is, with the texts of its own work.
pub proof fn law_setup_action_texts(action: ActivationAction<String>)
    ensures
        SetupAction::<String>::ReadSwapAreas@ == SetupAction::<Seq<char>>::ReadSwapAreas,
        SetupAction::<String>::LoadSizeSpec@ == SetupAction::<Seq<char>>::LoadSizeSpec,
        SetupAction::Activation(action)@ == SetupAction::Activation(action@),
{
}

/// Every reply of the device can be handed to the stage that waits for it, if the size that is
/// asked for fits.
pub proof fn law_setup_awaits<E>(stage: SetupStage, replies: SetupReplies<E>)
    requires
        setup::zram_size_fits(
            size_spec(replies.property),
            replies.pages.page_size,
            replies.pages.page_count,
        ),
    ensures
        stage.awaits(setup_reply(stage, replies)),
{
}

} // verus!
