use vstd::prelude::*;

verus! {

/// Which profile a package operation applies to.
#[derive(Clone, Copy, Debug, PartialEq, Eq, Structural)]
pub enum InstallType {
    User,
    System,
}

/// What a package operation does.
#[derive(Clone, Copy, Debug, PartialEq, Eq, Structural)]
pub enum PkgAction {
    Install,
    Remove,
}

/// One requested package operation.
#[derive(Clone, Debug)]
pub struct WorkPkg {
    /// The attribute name of the package.
    pub pkg: String,
    /// The package name as the user profile lists it.
    pub pname: String,
    pub pkgtype: InstallType,
    pub action: PkgAction,
    /// A blocked item is never run.
    pub block: bool,
}

/// The terminal outcome of an accepted work item.
#[derive(Debug)]
pub enum PkgMsg {
    FinishedProcess(WorkPkg),
    FailedProcess(WorkPkg),
}

/// How a supervised process ended.
#[derive(Clone, Copy, Debug, PartialEq, Eq, Structural)]
pub enum ProcessResult {
    /// The process exited; the code is absent when a signal ended it.
    Exited(Option<i32>),
    /// The process could not be spawned or waited for.
    Error,
}

impl ProcessResult {
    pub open spec fn spec_success(self) -> bool {
        self == ProcessResult::Exited(Some(0i32))
    }

    /// Whether the process exited with status zero.
    #[verifier::when_used_as_spec(spec_success)]
    pub fn success(self) -> (r: bool)
        ensures
            r == self.spec_success(),
    {
        match self {
            ProcessResult::Exited(Some(code)) => code == 0,
            _ => false,
        }
    }
}

impl PkgMsg {
    /// The work item that this outcome reports on.
    pub open spec fn spec_work(self) -> WorkPkg {
        match self {
            PkgMsg::FinishedProcess(w) => w,
            PkgMsg::FailedProcess(w) => w,
        }
    }

    /// The work item that this outcome reports on.
    pub fn work(&self) -> (r: &WorkPkg)
        ensures
            *r == self.spec_work(),
    {
        match self {
            PkgMsg::FinishedProcess(w) => w,
            PkgMsg::FailedProcess(w) => w,
        }
    }
}

} // verus!
