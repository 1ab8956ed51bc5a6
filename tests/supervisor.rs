use nix_software_center::busy::{BusySet, Refresh};
use nix_software_center::command::{install_command, remove_all_command, remove_command, upgrade_command, Command};
use nix_software_center::installworker::{
    InstallAction, InstallAsyncHandler, InstallAsyncHandlerInit, InstallAsyncHandlerMsg,
};
use nix_software_center::updateworker::{
    update_all_user, UpdateAction, UpdateAllRequest, UpdateAsyncHandler, UpdateAsyncHandlerInit,
    UpdateAsyncHandlerMsg, UpdatePageMsg, UpdateStage,
};
use nix_software_center::work::{InstallType, PkgAction, PkgMsg, ProcessResult, WorkPkg};

fn work(pkg: &str, pkgtype: InstallType, action: PkgAction, block: bool) -> WorkPkg {
    WorkPkg {
        pkg: pkg.to_string(),
        pname: pkg.to_string(),
        pkgtype,
        action,
        block,
    }
}

fn argv(c: &Command) -> Vec<String> {
    let mut v = vec![c.program.clone()];
    v.extend(c.args.iter().cloned());
    v
}

fn strings(v: &[&str]) -> Vec<String> {
    v.iter().map(|s| s.to_string()).collect()
}

fn spawned(a: &InstallAction) -> Vec<String> {
    match a {
        InstallAction::Spawn(c) => argv(c),
        other => panic!("expected a spawn, got {:?}", other),
    }
}

fn finished_pkg(a: &InstallAction) -> Option<String> {
    match a {
        InstallAction::Report(PkgMsg::FinishedProcess(w)) => Some(w.pkg.clone()),
        _ => None,
    }
}

fn failed_pkg(a: &InstallAction) -> Option<String> {
    match a {
        InstallAction::Report(PkgMsg::FailedProcess(w)) => Some(w.pkg.clone()),
        _ => None,
    }
}

#[test]
fn install_command_line() {
    assert_eq!(
        argv(&install_command("htop")),
        strings(&["nix", "profile", "install", "nixpkgs#htop", "--impure"])
    );
}

#[test]
fn remove_command_line() {
    assert_eq!(
        argv(&remove_command("vim")),
        strings(&["nix", "profile", "remove", "legacyPackages.x86_64-linux.vim"])
    );
}

#[test]
fn upgrade_command_line() {
    assert_eq!(
        argv(&upgrade_command()),
        strings(&["nix", "profile", "upgrade", ".*", "--impure"])
    );
}

#[test]
fn remove_all_command_line() {
    let pkgs = strings(&["foo", "bar"]);
    assert_eq!(
        argv(&remove_all_command(&pkgs)),
        strings(&[
            "nix",
            "profile",
            "remove",
            "legacyPackages.x86_64-linux.foo",
            "legacyPackages.x86_64-linux.bar",
            "--impure"
        ])
    );
    assert_eq!(
        argv(&remove_all_command(&Vec::new())),
        strings(&["nix", "profile", "remove", "--impure"])
    );
}

#[test]
fn process_result_success() {
    assert!(ProcessResult::Exited(Some(0)).success());
    assert!(!ProcessResult::Exited(Some(1)).success());
    assert!(!ProcessResult::Exited(None).success());
    assert!(!ProcessResult::Error.success());
}

#[test]
fn blocked_item_is_ignored() {
    let mut h = InstallAsyncHandler::init(InstallAsyncHandlerInit {});
    let a = h.update(InstallAsyncHandlerMsg::Process(work(
        "htop",
        InstallType::User,
        PkgAction::Install,
        true,
    )));
    assert!(matches!(a, InstallAction::Nothing));
    assert!(!h.is_active());
    let a = h.update(InstallAsyncHandlerMsg::ProcessEnded(ProcessResult::Exited(Some(0))));
    assert!(matches!(a, InstallAction::Nothing));
}

#[test]
fn system_scope_fails_immediately() {
    let mut h = InstallAsyncHandler::init(InstallAsyncHandlerInit {});
    let a = h.update(InstallAsyncHandlerMsg::Process(work(
        "firefox",
        InstallType::System,
        PkgAction::Install,
        false,
    )));
    assert_eq!(failed_pkg(&a), Some("firefox".to_string()));
    assert!(!h.is_active());
}

#[test]
fn user_install_exit_zero_finishes_once() {
    let mut h = InstallAsyncHandler::init(InstallAsyncHandlerInit {});
    let a = h.update(InstallAsyncHandlerMsg::Process(work(
        "htop",
        InstallType::User,
        PkgAction::Install,
        false,
    )));
    assert_eq!(
        spawned(&a),
        strings(&["nix", "profile", "install", "nixpkgs#htop", "--impure"])
    );
    assert!(h.is_active());
    let a = h.update(InstallAsyncHandlerMsg::ProcessEnded(ProcessResult::Exited(Some(0))));
    assert_eq!(finished_pkg(&a), Some("htop".to_string()));
    assert!(!h.is_active());
    let a = h.update(InstallAsyncHandlerMsg::ProcessEnded(ProcessResult::Exited(Some(0))));
    assert!(matches!(a, InstallAction::Nothing));
}

#[test]
fn user_install_nonzero_exit_fails_once() {
    let mut h = InstallAsyncHandler::init(InstallAsyncHandlerInit {});
    h.update(InstallAsyncHandlerMsg::Process(work(
        "htop",
        InstallType::User,
        PkgAction::Install,
        false,
    )));
    let a = h.update(InstallAsyncHandlerMsg::ProcessEnded(ProcessResult::Exited(Some(2))));
    assert_eq!(failed_pkg(&a), Some("htop".to_string()));
    let a = h.update(InstallAsyncHandlerMsg::ProcessEnded(ProcessResult::Exited(Some(2))));
    assert!(matches!(a, InstallAction::Nothing));
}

#[test]
fn spawn_error_fails() {
    let mut h = InstallAsyncHandler::init(InstallAsyncHandlerInit {});
    h.update(InstallAsyncHandlerMsg::Process(work(
        "htop",
        InstallType::User,
        PkgAction::Install,
        false,
    )));
    let a = h.update(InstallAsyncHandlerMsg::ProcessEnded(ProcessResult::Error));
    assert_eq!(failed_pkg(&a), Some("htop".to_string()));
}

#[test]
fn submit_while_running_is_refused() {
    let mut h = InstallAsyncHandler::init(InstallAsyncHandlerInit {});
    h.update(InstallAsyncHandlerMsg::Process(work(
        "htop",
        InstallType::User,
        PkgAction::Install,
        false,
    )));
    let a = h.update(InstallAsyncHandlerMsg::Process(work(
        "vim",
        InstallType::User,
        PkgAction::Remove,
        false,
    )));
    assert_eq!(failed_pkg(&a), Some("vim".to_string()));
    let a = h.update(InstallAsyncHandlerMsg::ProcessEnded(ProcessResult::Exited(Some(0))));
    assert_eq!(finished_pkg(&a), Some("htop".to_string()));
}

#[test]
fn cancel_then_submit_accepted() {
    let mut h = InstallAsyncHandler::init(InstallAsyncHandlerInit {});
    h.update(InstallAsyncHandlerMsg::Process(work(
        "htop",
        InstallType::User,
        PkgAction::Install,
        false,
    )));
    h.update(InstallAsyncHandlerMsg::SetPid(Some(4242)));
    let a = h.update(InstallAsyncHandlerMsg::CancelProcess);
    assert!(matches!(a, InstallAction::Abort));
    assert!(!h.is_active());
    let a = h.update(InstallAsyncHandlerMsg::CancelProcess);
    assert!(matches!(a, InstallAction::Nothing));
    let a = h.update(InstallAsyncHandlerMsg::Process(work(
        "vim",
        InstallType::User,
        PkgAction::Remove,
        false,
    )));
    assert_eq!(
        spawned(&a),
        strings(&["nix", "profile", "remove", "legacyPackages.x86_64-linux.vim"])
    );
}

#[test]
fn duplicate_enqueue_refused() {
    let mut busy = BusySet::new();
    let first = busy.add_to_work_queue(work("htop", InstallType::User, PkgAction::Install, false));
    assert!(matches!(first, Some(InstallAsyncHandlerMsg::Process(_))));
    let second = busy.add_to_work_queue(work("htop", InstallType::User, PkgAction::Remove, false));
    assert!(second.is_none());
    assert!(busy.contains(&"htop".to_string(), InstallType::User));
    let other_scope =
        busy.add_to_work_queue(work("htop", InstallType::System, PkgAction::Install, false));
    assert!(other_scope.is_some());
    let w = work("htop", InstallType::User, PkgAction::Install, false);
    assert!(busy.remove_busy(&w));
    assert!(!busy.remove_busy(&w));
    assert!(!busy.contains(&"htop".to_string(), InstallType::User));
    assert!(busy.contains(&"htop".to_string(), InstallType::System));
}

#[test]
fn busy_key_by_profile() {
    let mut busy = BusySet::new();
    let w = WorkPkg {
        pkg: "python3Packages.black".to_string(),
        pname: "black".to_string(),
        pkgtype: InstallType::User,
        action: PkgAction::Install,
        block: false,
    };
    busy.add_to_work_queue(w.clone());
    assert!(busy.contains(&"black".to_string(), InstallType::User));
    assert!(!busy.contains(&"python3Packages.black".to_string(), InstallType::User));
    let s = WorkPkg {
        pkgtype: InstallType::System,
        ..w
    };
    busy.add_to_work_queue(s);
    assert!(busy.contains(&"python3Packages.black".to_string(), InstallType::System));
}

#[test]
fn install_htop_scenario() {
    let mut busy = BusySet::new();
    let mut h = InstallAsyncHandler::init(InstallAsyncHandlerInit {});
    let msg = busy
        .add_to_work_queue(work("htop", InstallType::User, PkgAction::Install, false))
        .expect("the package is not busy yet");
    assert!(busy.contains(&"htop".to_string(), InstallType::User));
    let a = h.update(msg);
    assert_eq!(
        spawned(&a),
        strings(&["nix", "profile", "install", "nixpkgs#htop", "--impure"])
    );
    // The process writes three diagnostic lines, which are only logged, and
    // exits 0: while it runs the supervisor stays active.
    assert!(h.is_active());
    let mut reports = Vec::new();
    if let InstallAction::Report(m) =
        h.update(InstallAsyncHandlerMsg::ProcessEnded(ProcessResult::Exited(Some(0))))
    {
        reports.push(m);
    }
    assert_eq!(reports.len(), 1);
    assert!(matches!(&reports[0], PkgMsg::FinishedProcess(w) if w.pkg == "htop"));
    let refresh = busy.reconcile(&reports[0]);
    assert_eq!(refresh, Refresh::InventoryAndIcons);
    assert!(!busy.contains(&"htop".to_string(), InstallType::User));
}

#[test]
fn remove_vim_failure_scenario() {
    let mut busy = BusySet::new();
    let mut h = InstallAsyncHandler::init(InstallAsyncHandlerInit {});
    let msg = busy
        .add_to_work_queue(work("vim", InstallType::User, PkgAction::Remove, false))
        .expect("the package is not busy yet");
    assert!(busy.contains(&"vim".to_string(), InstallType::User));
    h.update(msg);
    let a = h.update(InstallAsyncHandlerMsg::ProcessEnded(ProcessResult::Exited(Some(1))));
    let outcome = match a {
        InstallAction::Report(m) => m,
        other => panic!("expected an outcome, got {:?}", other),
    };
    assert!(matches!(&outcome, PkgMsg::FailedProcess(w) if w.pkg == "vim"));
    let a = h.update(InstallAsyncHandlerMsg::ProcessEnded(ProcessResult::Exited(Some(1))));
    assert!(matches!(a, InstallAction::Nothing));
    assert_eq!(busy.reconcile(&outcome), Refresh::Inventory);
    assert!(!busy.contains(&"vim".to_string(), InstallType::User));
}

fn update_spawned(a: &UpdateAction) -> Vec<String> {
    match a {
        UpdateAction::Spawn(c) => argv(c),
        other => panic!("expected a spawn, got {:?}", other),
    }
}

#[test]
fn bulk_upgrade_removes_first_then_upgrades() {
    for removal_result in [
        ProcessResult::Exited(Some(0)),
        ProcessResult::Exited(Some(1)),
        ProcessResult::Error,
    ] {
        let mut h = UpdateAsyncHandler::init(UpdateAsyncHandlerInit {});
        let a = h.update(UpdateAsyncHandlerMsg::UpdateUserPkgsRemove(strings(&["foo", "bar"])));
        assert_eq!(
            update_spawned(&a),
            strings(&[
                "nix",
                "profile",
                "remove",
                "legacyPackages.x86_64-linux.foo",
                "legacyPackages.x86_64-linux.bar",
                "--impure"
            ])
        );
        assert_eq!(h.stage(), UpdateStage::Removing);
        let a = h.update(UpdateAsyncHandlerMsg::ProcessEnded(removal_result));
        assert_eq!(
            update_spawned(&a),
            strings(&["nix", "profile", "upgrade", ".*", "--impure"])
        );
        let a = h.update(UpdateAsyncHandlerMsg::ProcessEnded(ProcessResult::Exited(Some(0))));
        assert!(matches!(a, UpdateAction::Report(UpdatePageMsg::DoneWorking)));
        assert_eq!(h.stage(), UpdateStage::Idle);
    }
}

#[test]
fn bulk_upgrade_without_removals() {
    let mut h = UpdateAsyncHandler::init(UpdateAsyncHandlerInit {});
    let a = h.update(UpdateAsyncHandlerMsg::UpdateUserPkgsRemove(Vec::new()));
    assert_eq!(
        update_spawned(&a),
        strings(&["nix", "profile", "upgrade", ".*", "--impure"])
    );
    let a = h.update(UpdateAsyncHandlerMsg::ProcessEnded(ProcessResult::Exited(Some(1))));
    assert!(matches!(a, UpdateAction::Report(UpdatePageMsg::FailedWorking)));
    let a = h.update(UpdateAsyncHandlerMsg::UpdateUserPkgs);
    assert_eq!(
        update_spawned(&a),
        strings(&["nix", "profile", "upgrade", ".*", "--impure"])
    );
    let busy = h.update(UpdateAsyncHandlerMsg::UpdateUserPkgs);
    assert!(matches!(busy, UpdateAction::Report(UpdatePageMsg::FailedWorking)));
    let a = h.update(UpdateAsyncHandlerMsg::ProcessEnded(ProcessResult::Error));
    assert!(matches!(a, UpdateAction::Report(UpdatePageMsg::FailedWorking)));
    let a = h.update(UpdateAsyncHandlerMsg::ProcessEnded(ProcessResult::Error));
    assert!(matches!(a, UpdateAction::Nothing));
}

#[test]
fn update_all_user_decisions() {
    assert!(matches!(
        update_all_user(false, strings(&["foo"])),
        UpdateAllRequest::Offline
    ));
    assert!(matches!(
        update_all_user(true, Vec::new()),
        UpdateAllRequest::Send(UpdateAsyncHandlerMsg::UpdateUserPkgs)
    ));
    match update_all_user(true, strings(&["foo"])) {
        UpdateAllRequest::ConfirmRemoval(v) => assert_eq!(v, strings(&["foo"])),
        other => panic!("expected a removal to confirm, got {:?}", other),
    }
}
