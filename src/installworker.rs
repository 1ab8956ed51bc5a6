use vstd::prelude::*;
use crate::command::{install_command, remove_command, install_line, remove_line, Command, CommandLine};
use crate::work::{InstallType, PkgAction, PkgMsg, ProcessResult, WorkPkg};

verus! {

/// Supervisor of user-profile install and remove operations.
///
/// It runs at most one package manager process at a time. The process itself is
/// run by the caller: each message yields an [`InstallAction`] to carry out, and
/// the caller reports the end of a spawned process with
/// [`InstallAsyncHandlerMsg::ProcessEnded`].
#[derive(Debug)]
pub struct InstallAsyncHandler {
    work: Option<WorkPkg>,
    pid: Option<u32>,
}

/// Parameters of a new [`InstallAsyncHandler`].
#[derive(Debug)]
pub struct InstallAsyncHandlerInit {}

/// The events that an [`InstallAsyncHandler`] reacts to.
#[derive(Debug)]
pub enum InstallAsyncHandlerMsg {
    /// Run a work item.
    Process(WorkPkg),
    /// Kill the running process, if any, and forget it. No outcome is reported for it.
    CancelProcess,
    /// Record the id of the running process.
    SetPid(Option<u32>),
    /// The spawned process ended.
    ProcessEnded(ProcessResult),
}

/// What the caller does after a message.
#[derive(Debug)]
pub enum InstallAction {
    Nothing,
    /// Spawn this command with its output captured, killed when its task is dropped.
    Spawn(Command),
    /// Deliver this outcome to the dispatcher.
    Report(PkgMsg),
    /// Abort the task that runs the process, which kills the process.
    Abort,
}

/// The abstract form of an [`InstallAction`].
pub enum InstallEffect {
    Nothing,
    Spawn(CommandLine),
    Report(PkgMsg),
    Abort,
}

impl View for InstallAction {
    type V = InstallEffect;

    open spec fn view(&self) -> InstallEffect {
        match self {
            InstallAction::Nothing => InstallEffect::Nothing,
            InstallAction::Spawn(c) => InstallEffect::Spawn(c@),
            InstallAction::Report(m) => InstallEffect::Report(*m),
            InstallAction::Abort => InstallEffect::Abort,
        }
    }
}

/// The abstract state of an [`InstallAsyncHandler`]: the work item whose process
/// is running, and the id of that process once it is known.
pub struct SupervisorState {
    pub work: Option<WorkPkg>,
    pub pid: Option<u32>,
}

impl View for InstallAsyncHandler {
    type V = SupervisorState;

    closed spec fn view(&self) -> SupervisorState {
        SupervisorState { work: self.work, pid: self.pid }
    }
}

/// The command line that carries out a user-profile action on `pkg`.
pub open spec fn command_line(action: PkgAction, pkg: Seq<char>) -> CommandLine {
    match action {
        PkgAction::Install => install_line(pkg),
        PkgAction::Remove => remove_line(pkg),
    }
}

/// The outcome of work item `w` whose process ended with `r`.
pub open spec fn outcome(w: WorkPkg, r: ProcessResult) -> PkgMsg {
    if r.success() {
        PkgMsg::FinishedProcess(w)
    } else {
        PkgMsg::FailedProcess(w)
    }
}

impl SupervisorState {
    /// The state with no process.
    pub open spec fn idle() -> SupervisorState {
        SupervisorState { work: None, pid: None }
    }

    pub open spec fn is_active(self) -> bool {
        self.work is Some
    }

    /// Whether a process is spawned for `w` when it is submitted in this state.
    pub open spec fn accepts(self, w: WorkPkg) -> bool {
        !w.block && w.pkgtype == InstallType::User && !self.is_active()
    }

    /// The state after `msg`.
    pub open spec fn next(self, msg: InstallAsyncHandlerMsg) -> SupervisorState {
        match msg {
            InstallAsyncHandlerMsg::Process(w) => if self.accepts(w) {
                SupervisorState { work: Some(w), pid: self.pid }
            } else {
                self
            },
            InstallAsyncHandlerMsg::CancelProcess => SupervisorState::idle(),
            InstallAsyncHandlerMsg::SetPid(p) => SupervisorState { work: self.work, pid: p },
            InstallAsyncHandlerMsg::ProcessEnded(_) => SupervisorState::idle(),
        }
    }

    /// What the caller is asked to do after `msg`.
    ///
    /// A blocked item is ignored. A system-scope item, or an item submitted while
    /// a process runs, fails at once without a process. An accepted item spawns
    /// its command, and the end of that process reports its outcome once.
    pub open spec fn effect(self, msg: InstallAsyncHandlerMsg) -> InstallEffect {
        match msg {
            InstallAsyncHandlerMsg::Process(w) => if w.block {
                InstallEffect::Nothing
            } else if w.pkgtype == InstallType::System || self.is_active() {
                InstallEffect::Report(PkgMsg::FailedProcess(w))
            } else {
                InstallEffect::Spawn(command_line(w.action, w.pkg@))
            },
            InstallAsyncHandlerMsg::CancelProcess => if self.is_active() {
                InstallEffect::Abort
            } else {
                InstallEffect::Nothing
            },
            InstallAsyncHandlerMsg::SetPid(_) => InstallEffect::Nothing,
            InstallAsyncHandlerMsg::ProcessEnded(r) => match self.work {
                Some(w) => InstallEffect::Report(outcome(w, r)),
                None => InstallEffect::Nothing,
            },
        }
    }
}

impl InstallAsyncHandler {
    /// A supervisor with no process.
    pub fn init(_params: InstallAsyncHandlerInit) -> (r: InstallAsyncHandler)
        ensures
            r@ == SupervisorState::idle(),
    {
        InstallAsyncHandler { work: None, pid: None }
    }

    /// Whether a process is running.
    pub fn is_active(&self) -> (r: bool)
        ensures
            r == self@.is_active(),
    {
        self.work.is_some()
    }

    /// Takes one event and says what to do.
    pub fn update(&mut self, msg: InstallAsyncHandlerMsg) -> (r: InstallAction)
        ensures
            final(self)@ == old(self)@.next(msg),
            r@ == old(self)@.effect(msg),
    {
        match msg {
            InstallAsyncHandlerMsg::Process(work) => {
                if work.block {
                    return InstallAction::Nothing;
                }
                match work.pkgtype {
                    InstallType::System => InstallAction::Report(PkgMsg::FailedProcess(work)),
                    InstallType::User => {
                        if self.work.is_some() {
                            return InstallAction::Report(PkgMsg::FailedProcess(work));
                        }
                        let cmd = match work.action {
                            PkgAction::Install => install_command(work.pkg.as_str()),
                            PkgAction::Remove => remove_command(work.pkg.as_str()),
                        };
                        self.work = Some(work);
                        InstallAction::Spawn(cmd)
                    },
                }
            },
            InstallAsyncHandlerMsg::CancelProcess => {
                let active = self.work.is_some();
                self.work = None;
                self.pid = None;
                if active {
                    InstallAction::Abort
                } else {
                    InstallAction::Nothing
                }
            },
            InstallAsyncHandlerMsg::SetPid(pid) => {
                self.pid = pid;
                InstallAction::Nothing
            },
            InstallAsyncHandlerMsg::ProcessEnded(result) => {
                let work = self.work.take();
                self.pid = None;
                match work {
                    Some(w) => {
                        if result.success() {
                            InstallAction::Report(PkgMsg::FinishedProcess(w))
                        } else {
                            InstallAction::Report(PkgMsg::FailedProcess(w))
                        }
                    },
                    None => InstallAction::Nothing,
                }
            },
        }
    }
}

/// A blocked work item spawns nothing, reports nothing and leaves the state as it was.
pub proof fn lemma_blocked_item_ignored(s: SupervisorState, w: WorkPkg)
    requires
        w.block,
    ensures
        s.effect(InstallAsyncHandlerMsg::Process(w)) == InstallEffect::Nothing,
        s.next(InstallAsyncHandlerMsg::Process(w)) == s,
{
}

/// A system-scope work item fails at once: it is reported as failed, nothing is
/// spawned and the state is left as it was.
pub proof fn lemma_system_scope_fails(s: SupervisorState, w: WorkPkg)
    requires
        !w.block,
        w.pkgtype == InstallType::System,
    ensures
        s.effect(InstallAsyncHandlerMsg::Process(w)) == InstallEffect::Report(
            PkgMsg::FailedProcess(w),
        ),
        s.next(InstallAsyncHandlerMsg::Process(w)) == s,
{
}

/// A user install submitted to an idle supervisor spawns its install command;
/// when that process ends, exactly one outcome is reported: finished on exit
/// status zero, failed otherwise. After it the supervisor is idle and a further
/// end of process reports nothing.
pub proof fn lemma_user_install_reports_once(
    s: SupervisorState,
    w: WorkPkg,
    r: ProcessResult,
    later: ProcessResult,
)
    requires
        !s.is_active(),
        !w.block,
        w.pkgtype == InstallType::User,
        w.action == PkgAction::Install,
    ensures
        s.effect(InstallAsyncHandlerMsg::Process(w)) == InstallEffect::Spawn(install_line(w.pkg@)),
        ({
            let running = s.next(InstallAsyncHandlerMsg::Process(w));
            let done = running.next(InstallAsyncHandlerMsg::ProcessEnded(r));
            &&& running.effect(InstallAsyncHandlerMsg::ProcessEnded(r)) == InstallEffect::Report(
                if r == ProcessResult::Exited(Some(0i32)) {
                    PkgMsg::FinishedProcess(w)
                } else {
                    PkgMsg::FailedProcess(w)
                },
            )
            &&& !done.is_active()
            &&& done.effect(InstallAsyncHandlerMsg::ProcessEnded(later)) == InstallEffect::Nothing
        }),
{
}

/// Cancelling forgets the process and its id, so that the next runnable user
/// item is accepted and spawned.
pub proof fn lemma_cancel_then_submit_accepted(s: SupervisorState, w: WorkPkg)
    requires
        !w.block,
        w.pkgtype == InstallType::User,
    ensures
        s.next(InstallAsyncHandlerMsg::CancelProcess) == SupervisorState::idle(),
        s.next(InstallAsyncHandlerMsg::CancelProcess).accepts(w),
        s.next(InstallAsyncHandlerMsg::CancelProcess).effect(InstallAsyncHandlerMsg::Process(w))
            == InstallEffect::Spawn(command_line(w.action, w.pkg@)),
{
}

} // verus!
