use vstd::prelude::*;
use crate::command::{remove_all_command, upgrade_command, remove_all_line, texts, upgrade_line, Command, CommandLine};
use crate::work::ProcessResult;

verus! {

/// Supervisor of the bulk upgrade of the user profile.
///
/// An upgrade may first remove a list of packages in one run; the upgrade of
/// every package follows whatever that run gave. The caller runs the processes:
/// each message yields an [`UpdateAction`], and the end of a spawned process is
/// reported back with [`UpdateAsyncHandlerMsg::ProcessEnded`].
#[derive(Debug)]
pub struct UpdateAsyncHandler {
    stage: UpdateStage,
}

/// Parameters of a new [`UpdateAsyncHandler`].
#[derive(Debug)]
pub struct UpdateAsyncHandlerInit {}

/// Which process of a bulk upgrade is running.
#[derive(Clone, Copy, Debug, PartialEq, Eq, Structural)]
pub enum UpdateStage {
    Idle,
    Removing,
    Upgrading,
}

/// The events that an [`UpdateAsyncHandler`] reacts to.
#[derive(Debug)]
pub enum UpdateAsyncHandlerMsg {
    /// Upgrade every package of the user profile.
    UpdateUserPkgs,
    /// Remove these packages from the user profile, then upgrade every package.
    UpdateUserPkgsRemove(Vec<String>),
    /// The spawned process ended.
    ProcessEnded(ProcessResult),
}

/// The outcome of a bulk upgrade.
#[derive(Clone, Copy, Debug, PartialEq, Eq, Structural)]
pub enum UpdatePageMsg {
    DoneWorking,
    FailedWorking,
}

/// What the caller does after a message.
#[derive(Debug)]
pub enum UpdateAction {
    Nothing,
    /// Spawn this command with its diagnostic output captured.
    Spawn(Command),
    /// Deliver this outcome to the update page.
    Report(UpdatePageMsg),
}

/// The abstract form of an [`UpdateAction`].
pub enum UpdateEffect {
    Nothing,
    Spawn(CommandLine),
    Report(UpdatePageMsg),
}

impl View for UpdateAction {
    type V = UpdateEffect;

    open spec fn view(&self) -> UpdateEffect {
        match self {
            UpdateAction::Nothing => UpdateEffect::Nothing,
            UpdateAction::Spawn(c) => UpdateEffect::Spawn(c@),
            UpdateAction::Report(m) => UpdateEffect::Report(*m),
        }
    }
}

impl View for UpdateAsyncHandler {
    type V = UpdateStage;

    closed spec fn view(&self) -> UpdateStage {
        self.stage
    }
}

impl UpdateStage {
    /// The stage after `msg`.
    pub open spec fn next(self, msg: UpdateAsyncHandlerMsg) -> UpdateStage {
        match msg {
            UpdateAsyncHandlerMsg::UpdateUserPkgs => if self == UpdateStage::Idle {
                UpdateStage::Upgrading
            } else {
                self
            },
            UpdateAsyncHandlerMsg::UpdateUserPkgsRemove(pkgs) => if self != UpdateStage::Idle {
                self
            } else if pkgs@.len() == 0 {
                UpdateStage::Upgrading
            } else {
                UpdateStage::Removing
            },
            UpdateAsyncHandlerMsg::ProcessEnded(_) => match self {
                UpdateStage::Removing => UpdateStage::Upgrading,
                _ => UpdateStage::Idle,
            },
        }
    }

    /// What the caller is asked to do after `msg`.
    ///
    /// A request while a run is in progress fails at once. The end of the
    /// removal run starts the upgrade whatever its result; the end of the
    /// upgrade reports done on exit status zero and failed otherwise.
    pub open spec fn effect(self, msg: UpdateAsyncHandlerMsg) -> UpdateEffect {
        match msg {
            UpdateAsyncHandlerMsg::UpdateUserPkgs => if self == UpdateStage::Idle {
                UpdateEffect::Spawn(upgrade_line())
            } else {
                UpdateEffect::Report(UpdatePageMsg::FailedWorking)
            },
            UpdateAsyncHandlerMsg::UpdateUserPkgsRemove(pkgs) => if self != UpdateStage::Idle {
                UpdateEffect::Report(UpdatePageMsg::FailedWorking)
            } else if pkgs@.len() == 0 {
                UpdateEffect::Spawn(upgrade_line())
            } else {
                UpdateEffect::Spawn(remove_all_line(texts(pkgs@)))
            },
            UpdateAsyncHandlerMsg::ProcessEnded(r) => match self {
                UpdateStage::Idle => UpdateEffect::Nothing,
                UpdateStage::Removing => UpdateEffect::Spawn(upgrade_line()),
                UpdateStage::Upgrading => UpdateEffect::Report(
                    if r.success() {
                        UpdatePageMsg::DoneWorking
                    } else {
                        UpdatePageMsg::FailedWorking
                    },
                ),
            },
        }
    }
}

impl UpdateAsyncHandler {
    /// A supervisor with no run in progress.
    pub fn init(_params: UpdateAsyncHandlerInit) -> (r: UpdateAsyncHandler)
        ensures
            r@ == UpdateStage::Idle,
    {
        UpdateAsyncHandler { stage: UpdateStage::Idle }
    }

    /// The process of a bulk upgrade that is running.
    pub fn stage(&self) -> (r: UpdateStage)
        ensures
            r == self@,
    {
        self.stage
    }

    /// Takes one event and says what to do.
    pub fn update(&mut self, msg: UpdateAsyncHandlerMsg) -> (r: UpdateAction)
        ensures
            final(self)@ == old(self)@.next(msg),
            r@ == old(self)@.effect(msg),
    {
        match msg {
            UpdateAsyncHandlerMsg::UpdateUserPkgs => {
                if self.stage != UpdateStage::Idle {
                    return UpdateAction::Report(UpdatePageMsg::FailedWorking);
                }
                self.stage = UpdateStage::Upgrading;
                UpdateAction::Spawn(upgrade_command())
            },
            UpdateAsyncHandlerMsg::UpdateUserPkgsRemove(pkgs) => {
                if self.stage != UpdateStage::Idle {
                    return UpdateAction::Report(UpdatePageMsg::FailedWorking);
                }
                if pkgs.len() == 0 {
                    self.stage = UpdateStage::Upgrading;
                    UpdateAction::Spawn(upgrade_command())
                } else {
                    self.stage = UpdateStage::Removing;
                    UpdateAction::Spawn(remove_all_command(&pkgs))
                }
            },
            UpdateAsyncHandlerMsg::ProcessEnded(result) => {
                match self.stage {
                    UpdateStage::Idle => UpdateAction::Nothing,
                    UpdateStage::Removing => {
                        self.stage = UpdateStage::Upgrading;
                        UpdateAction::Spawn(upgrade_command())
                    },
                    UpdateStage::Upgrading => {
                        self.stage = UpdateStage::Idle;
                        if result.success() {
                            UpdateAction::Report(UpdatePageMsg::DoneWorking)
                        } else {
                            UpdateAction::Report(UpdatePageMsg::FailedWorking)
                        }
                    },
                }
            },
        }
    }
}

/// What the update page does when asked to upgrade the user profile.
#[derive(Debug)]
pub enum UpdateAllRequest {
    /// The machine is offline: nothing is dispatched and the page shows it.
    Offline,
    /// Send this request to the update supervisor.
    Send(UpdateAsyncHandlerMsg),
    /// Ask the user to confirm the removal of these packages, which the
    /// registry no longer offers, before the upgrade.
    ConfirmRemoval(Vec<String>),
}

/// Decides how a request to upgrade the user profile goes on, given whether
/// the machine is online and which installed packages the registry no longer
/// offers.
pub fn update_all_user(online: bool, unavailable: Vec<String>) -> (r: UpdateAllRequest)
    ensures
        !online ==> r is Offline,
        online && unavailable@.len() == 0 ==> r == UpdateAllRequest::Send(
            UpdateAsyncHandlerMsg::UpdateUserPkgs,
        ),
        online && unavailable@.len() > 0 ==> r == UpdateAllRequest::ConfirmRemoval(unavailable),
{
    if !online {
        UpdateAllRequest::Offline
    } else if unavailable.len() == 0 {
        UpdateAllRequest::Send(UpdateAsyncHandlerMsg::UpdateUserPkgs)
    } else {
        UpdateAllRequest::ConfirmRemoval(unavailable)
    }
}

/// A bulk upgrade with a non-empty removal list first spawns one removal run
/// for the listed packages, and then spawns the upgrade of every package
/// whatever that removal run gave.
pub proof fn lemma_removal_precedes_upgrade(pkgs: Vec<String>, r: ProcessResult)
    requires
        pkgs@.len() > 0,
    ensures
        ({
            let msg = UpdateAsyncHandlerMsg::UpdateUserPkgsRemove(pkgs);
            let removing = UpdateStage::Idle.next(msg);
            &&& UpdateStage::Idle.effect(msg) == UpdateEffect::Spawn(remove_all_line(texts(pkgs@)))
            &&& removing.effect(UpdateAsyncHandlerMsg::ProcessEnded(r)) == UpdateEffect::Spawn(
                upgrade_line(),
            )
            &&& removing.next(UpdateAsyncHandlerMsg::ProcessEnded(r)) == UpdateStage::Upgrading
        }),
{
}

} // verus!
