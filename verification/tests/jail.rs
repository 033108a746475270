use devices::jail::enter::{fds_to_close, EnterAction, EnterEvent, FdEntry};
use devices::jail::{Error, JailCall, JailPath, Minijail};

fn path(text: &str) -> JailPath {
    JailPath::Text(text.to_string())
}

/// A path that is not valid UTF-8.
fn odd_path() -> JailPath {
    JailPath::NotText { shown: "\"\\xFF\"".to_string() }
}

fn named(text: &str) -> FdEntry {
    FdEntry::Named(path(text))
}

#[test]
fn create_and_free() {
    let j = Minijail::new(Some(7u32)).unwrap();
    assert_eq!(*j.jail(), 7);
    drop(j);
    assert_eq!(Minijail::new(None::<u32>).err(), Some(Error::CreatingMinijail));
}

/// Goes into the jail without a list of descriptors, of which 0 to 3 are open.
fn enter_without_list<J>(j: &Minijail<J>) {
    let (mut enter, action) = j.enter(None);
    assert_eq!(action, EnterAction::ListFds);
    let open = vec![named("0"), named("1"), named("2"), named("3")];
    assert_eq!(
        enter.step(EnterEvent::Listed(Ok(open))),
        EnterAction::Close(vec![0, 1, 2, 3])
    );
    assert_eq!(enter.step(EnterEvent::Closed), EnterAction::OpenDevNull);
    // /dev/null is opened by the lowest descriptor that is free, and stays there.
    assert_eq!(enter.step(EnterEvent::DevNullOpened(Ok(0))), EnterAction::DupDevNull(0));
    assert_eq!(enter.step(EnterEvent::Duplicated(Ok(()))), EnterAction::DupDevNull(1));
    assert_eq!(enter.step(EnterEvent::Duplicated(Ok(()))), EnterAction::DupDevNull(2));
    assert_eq!(enter.step(EnterEvent::Duplicated(Ok(()))), EnterAction::EnterJail);
    assert_eq!(enter.step(EnterEvent::Entered), EnterAction::Done);
}

#[test]
// Test that setting a seccomp filter with no-new-privs works as non-root.
// This is equivalent to minijail0 -n -S <seccomp_policy>
fn seccomp_no_new_privs() {
    let mut j = Minijail::new(Some(())).unwrap();
    assert_eq!(j.no_new_privs(), JailCall::NoNewPrivs);
    let policy = path("src/test_filter.policy");
    assert_eq!(
        j.parse_seccomp_filters(&policy, true).unwrap(),
        JailCall::ParseSeccompFilters("src/test_filter.policy".to_string())
    );
    assert_eq!(j.use_seccomp_filter(), JailCall::UseSeccompFilter);
    enter_without_list(&j);
}

#[test]
// Test that open FDs get closed and that FDs in the inherit list are left open.
fn close_fds() {
    let j = Minijail::new(Some(())).unwrap();
    let first = 3;
    let second = 4;
    let fds: Vec<i32> = vec![0, 1, 2, first];
    let (mut enter, action) = j.enter(Some(fds));
    assert_eq!(action, EnterAction::ListFds);
    let open = vec![named("0"), named("1"), named("2"), named("3"), named("4"), named("5")];
    let action = enter.step(EnterEvent::Listed(Ok(open)));
    // `second` is closed, and so is the descriptor by which the directory was read.
    assert_eq!(action, EnterAction::Close(vec![second, 5]));
    assert_eq!(enter.step(EnterEvent::Closed), EnterAction::OpenDevNull);
    assert_eq!(enter.step(EnterEvent::DevNullOpened(Ok(4))), EnterAction::CloseDevNull(4));
    assert_eq!(enter.step(EnterEvent::DevNullClosed), EnterAction::EnterJail);
    assert_eq!(enter.step(EnterEvent::Entered), EnterAction::Done);
}

#[test]
fn chroot() {
    let mut j = Minijail::new(Some(())).unwrap();
    let dir = path(".");
    assert_eq!(j.enter_chroot(&dir).unwrap(), JailCall::EnterChroot(".".to_string()));
    assert_eq!(Minijail::<()>::enter_chroot_result(&dir, 0), Ok(()));
    enter_without_list(&j);
}

#[test]
fn namespace_vfs() {
    let mut j = Minijail::new(Some(())).unwrap();
    assert_eq!(j.namespace_vfs(), JailCall::NamespaceVfs);
    enter_without_list(&j);
}

#[test]
fn standard_fds_are_redirected_unless_inherited() {
    let j = Minijail::new(Some(())).unwrap();
    let (mut enter, _) = j.enter(Some(vec![1, 9]));
    let open = vec![named("0"), named("1"), named("2"), named("9"), named("+12"), named("-3")];
    assert_eq!(
        enter.step(EnterEvent::Listed(Ok(open))),
        EnterAction::Close(vec![0, 2, 12, -3])
    );
    assert_eq!(enter.step(EnterEvent::Closed), EnterAction::OpenDevNull);
    assert_eq!(enter.step(EnterEvent::DevNullOpened(Ok(3))), EnterAction::DupDevNull(0));
    assert_eq!(enter.step(EnterEvent::Duplicated(Ok(()))), EnterAction::DupDevNull(2));
    assert_eq!(enter.step(EnterEvent::Duplicated(Ok(()))), EnterAction::CloseDevNull(3));
    assert_eq!(enter.step(EnterEvent::DevNullClosed), EnterAction::EnterJail);
    assert_eq!(enter.step(EnterEvent::Entered), EnterAction::Done);
}

#[test]
fn dev_null_is_not_closed_where_it_is_a_standard_fd() {
    let j = Minijail::new(Some(())).unwrap();
    let (mut enter, _) = j.enter(Some(vec![0, 1]));
    enter.step(EnterEvent::Listed(Ok(vec![])));
    enter.step(EnterEvent::Closed);
    assert_eq!(enter.step(EnterEvent::DevNullOpened(Ok(2))), EnterAction::DupDevNull(2));
    assert_eq!(enter.step(EnterEvent::Duplicated(Ok(()))), EnterAction::EnterJail);
}

#[test]
fn failures_on_the_way_in_kill_the_process() {
    let j = Minijail::new(Some(())).unwrap();

    for keep in [None, Some(vec![])] {
        let (mut enter, _) = j.enter(keep);
        assert_eq!(
            enter.step(EnterEvent::Listed(Err("gone".to_string()))),
            EnterAction::Abort(Error::ReadFdDir("gone".to_string()))
        );
    }

    let (mut enter, _) = j.enter(Some(vec![]));
    assert_eq!(
        enter.step(EnterEvent::Listed(Ok(vec![named("x")]))),
        EnterAction::Abort(Error::ProcFd("x".to_string()))
    );

    let (mut enter, _) = j.enter(Some(vec![]));
    enter.step(EnterEvent::Listed(Ok(vec![])));
    enter.step(EnterEvent::Closed);
    assert_eq!(
        enter.step(EnterEvent::DevNullOpened(Err("none".to_string()))),
        EnterAction::Abort(Error::OpenDevNull("none".to_string()))
    );

    let (mut enter, _) = j.enter(Some(vec![0, 1]));
    enter.step(EnterEvent::Listed(Ok(vec![])));
    enter.step(EnterEvent::Closed);
    assert_eq!(enter.step(EnterEvent::DevNullOpened(Ok(5))), EnterAction::DupDevNull(2));
    assert_eq!(
        enter.step(EnterEvent::Duplicated(Err(9))),
        EnterAction::Abort(Error::DupDevNull(9))
    );
}

#[test]
fn first_bad_entry_decides() {
    let keep = vec![1];
    assert_eq!(fds_to_close(&vec![named("4"), named("1"), named("3")], &keep), Ok(vec![4, 3]));
    assert_eq!(
        fds_to_close(&vec![named("4"), named("x"), FdEntry::Failed("e".to_string())], &keep),
        Err(Error::ProcFd("x".to_string()))
    );
    assert_eq!(
        fds_to_close(&vec![FdEntry::Failed("e".to_string()), named("x")], &keep),
        Err(Error::ReadFdDirEntry("e".to_string()))
    );
    assert_eq!(
        fds_to_close(&vec![FdEntry::Elsewhere(path("/tmp/3"))], &keep),
        Err(Error::PathToCString(path("/tmp/3")))
    );
    assert_eq!(
        fds_to_close(&vec![FdEntry::Named(odd_path())], &keep),
        Err(Error::PathToCString(odd_path()))
    );
    assert_eq!(
        fds_to_close(&vec![named("2147483648")], &keep),
        Err(Error::ProcFd("2147483648".to_string()))
    );
    assert_eq!(fds_to_close(&vec![named("2147483647")], &keep), Ok(vec![2147483647]));
}

#[test]
fn calls_carry_their_arguments() {
    let mut j = Minijail::new(Some(())).unwrap();
    assert_eq!(j.change_uid(1000), JailCall::ChangeUid(1000));
    assert_eq!(j.change_gid(1001), JailCall::ChangeGid(1001));
    assert_eq!(j.set_supplementary_gids(&[4, 5]), JailCall::SetSupplementaryGids(vec![4, 5]));
    assert_eq!(j.keep_supplementary_gids(), JailCall::KeepSupplementaryGids);
    assert_eq!(j.use_seccomp(), JailCall::UseSeccomp);
    assert_eq!(j.set_seccomp_filter_tsync(), JailCall::SetSeccompFilterTsync);
    assert_eq!(j.log_seccomp_filter_failures(), JailCall::LogSeccompFilterFailures);
    assert_eq!(j.use_caps(0x1234), JailCall::UseCaps(0x1234));
    assert_eq!(j.capbset_drop(0x4321), JailCall::CapbsetDrop(0x4321));
    assert_eq!(j.set_ambient_caps(), JailCall::SetAmbientCaps);
    assert_eq!(j.reset_signal_mask(), JailCall::ResetSignalMask);
    assert_eq!(j.new_session_keyring(), JailCall::NewSessionKeyring);
    assert_eq!(j.skip_remount_private(), JailCall::SkipRemountPrivate);
    assert_eq!(j.namespace_ipc(), JailCall::NamespaceIpc);
    assert_eq!(j.namespace_net(), JailCall::NamespaceNet);
    assert_eq!(j.namespace_cgroups(), JailCall::NamespaceCgroups);
    assert_eq!(j.remount_proc_readonly(), JailCall::RemountProcReadonly);
    assert_eq!(j.inherit_usergroups(), JailCall::InheritUsergroups);
    assert_eq!(j.mount_tmp(), JailCall::MountTmp);
    assert_eq!(j.mount_tmp_size(4096), JailCall::MountTmpSize(4096));
    assert_eq!(
        j.enter_pivot_root(&path("/root")).unwrap(),
        JailCall::EnterPivotRoot("/root".to_string())
    );
}

#[test]
fn id_maps_are_kept() {
    let mut j = Minijail::new(Some(())).unwrap();
    assert_eq!(j.get_uidmap(), None);
    assert_eq!(j.get_gidmap(), None);
    j.uidmap("0 1000 1");
    assert_eq!(j.get_uidmap(), Some("0 1000 1"));
    assert_eq!(j.get_gidmap(), None);
    j.gidmap("0 1001 1");
    j.uidmap("0 2000 1");
    assert_eq!(j.get_uidmap(), Some("0 2000 1"));
    assert_eq!(j.get_gidmap(), Some("0 1001 1"));
}

#[test]
fn names_that_c_cannot_hold_are_refused() {
    let mut j = Minijail::new(Some(())).unwrap();
    let nul = path("a\0b");
    assert_eq!(j.parse_seccomp_filters(&path("p"), false), Err(Error::SeccompPath(path("p"))));
    assert_eq!(j.parse_seccomp_filters(&nul, true), Err(Error::PathToCString(nul.clone())));
    assert_eq!(j.parse_seccomp_filters(&odd_path(), true), Err(Error::PathToCString(odd_path())));
    assert_eq!(j.enter_chroot(&nul), Err(Error::PathToCString(nul.clone())));
    assert_eq!(j.enter_pivot_root(&odd_path()), Err(Error::PathToCString(odd_path())));
    assert_eq!(j.use_alt_syscall("t\0"), Err(Error::StrToCString("t\0".to_string())));
    assert_eq!(j.use_alt_syscall("t"), Ok(JailCall::UseAltSyscall("t".to_string())));

    let good = path("/a");
    assert_eq!(j.mount_bind(&odd_path(), &nul, true), Err(Error::PathToCString(odd_path())));
    assert_eq!(j.mount_bind(&nul, &odd_path(), true), Err(Error::StrToCString("a\0b".to_string())));
    assert_eq!(j.mount_bind(&good, &odd_path(), true), Err(Error::PathToCString(odd_path())));
    assert_eq!(j.mount_bind(&good, &nul, true), Err(Error::StrToCString("a\0b".to_string())));
    assert_eq!(
        j.mount_bind(&good, &path("/b"), true),
        Ok(JailCall::Bind { src: "/a".to_string(), dest: "/b".to_string(), writable: true })
    );
}

#[test]
fn negative_return_values_are_errors() {
    type J = Minijail<()>;
    assert_eq!(J::use_alt_syscall_result("t", 0), Ok(()));
    assert_eq!(
        J::use_alt_syscall_result("t", -2),
        Err(Error::SetAltSyscallTable { errno: -2, name: "t".to_string() })
    );
    assert_eq!(
        J::enter_chroot_result(&path("/"), -1),
        Err(Error::SettingChrootDirectory(-1, path("/")))
    );
    assert_eq!(J::enter_pivot_root_result(&path("/"), 1), Ok(()));
    assert_eq!(
        J::enter_pivot_root_result(&path("/"), -1),
        Err(Error::SettingPivotRootDirectory(-1, path("/")))
    );
    assert_eq!(J::mount_bind_result(&path("/a"), &path("/b"), 0), Ok(()));
    assert_eq!(
        J::mount_bind_result(&path("/a"), &path("/b"), -22),
        Err(Error::BindMount { errno: -22, src: path("/a"), dst: path("/b") })
    );
}

#[test]
fn jail_errors_are_described() {
    let p = path("/a\"b");
    let cases: Vec<(Error, &str)> = vec![
        (
            Error::BindMount { errno: -22, src: path("/a"), dst: path("/b") },
            "failed to accept bind mount \"/a\" -> \"/b\": -22",
        ),
        (Error::CreatingMinijail, "minjail_new failed due to an allocation failure"),
        (Error::SeccompPath(p.clone()), "missing seccomp policy path: \"/a\\\"b\""),
        (
            Error::StrToCString("a\0\"".to_string()),
            "failed to convert string into CString: \"a\\0\\\"\"",
        ),
        (Error::PathToCString(p.clone()), "failed to convert path into CString: \"/a\\\"b\""),
        (
            Error::DupDevNull(9),
            "failed to call dup2 to set stdin, stdout, or stderr to /dev/null: 9",
        ),
        (
            Error::OpenDevNull("e".to_string()),
            "fail to open /dev/null for setting FDs 0, 1, or 2: e",
        ),
        (
            Error::SetAltSyscallTable { errno: -2147483648, name: "t\n".to_string() },
            "failed to set alt-syscall table \"t\\n\": -2147483648",
        ),
        (Error::SettingChrootDirectory(-1, path("/")), "failed to set chroot \"/\": -1"),
        (Error::SettingPivotRootDirectory(-1, path("/")), "failed to set pivot root \"/\": -1"),
        (Error::ReadFdDirEntry("e".to_string()), "failed to read an entry in /proc/self/fd: e"),
        (Error::ReadFdDir("e".to_string()), "failed to open /proc/self/fd: e"),
        (
            Error::ProcFd("x".to_string()),
            "an entry in /proc/self/fd is not an integer: x",
        ),
    ];
    for (error, text) in cases {
        assert_eq!(error.message(), text);
    }
}

#[test]
fn shown_parts_are_given() {
    let error = Error::SetAltSyscallTable { errno: -1, name: "t".to_string() };
    assert_eq!(error.message_with("<t>", ""), "failed to set alt-syscall table <t>: -1");
    let error = Error::StrToCString("s".to_string());
    assert_eq!(error.message_with("<s>", ""), "failed to convert string into CString: <s>");
    let error = Error::BindMount { errno: -22, src: path("/a"), dst: path("/b") };
    assert_eq!(error.message_with("<a>", "<b>"), "failed to accept bind mount <a> -> <b>: -22");
    let error = Error::ProcFd("x".to_string());
    assert_eq!(error.message_with("<>", "<>"), error.message());
}

#[test]
fn paths_are_shown_quoted() {
    assert_eq!(path("/a\"b\n").display(), "\"/a\\\"b\\n\"");
    assert_eq!(odd_path().display(), "\"\\xFF\"");
    assert_eq!(
        Error::SeccompPath(odd_path()).message(),
        "missing seccomp policy path: \"\\xFF\""
    );
}

#[test]
fn dev_null_is_closed_where_it_is_inheritable() {
    // None of the inheritable descriptors is open, and /dev/null is opened by one of them.
    let j = Minijail::new(Some(())).unwrap();
    let (mut enter, _) = j.enter(Some(vec![0, 1, 2]));
    assert_eq!(enter.step(EnterEvent::Listed(Ok(vec![]))), EnterAction::Close(vec![]));
    assert_eq!(enter.step(EnterEvent::Closed), EnterAction::OpenDevNull);
    assert_eq!(enter.step(EnterEvent::DevNullOpened(Ok(0))), EnterAction::CloseDevNull(0));
    assert_eq!(enter.step(EnterEvent::DevNullClosed), EnterAction::EnterJail);

    let (mut enter, _) = j.enter(Some(vec![0]));
    enter.step(EnterEvent::Listed(Ok(vec![])));
    enter.step(EnterEvent::Closed);
    assert_eq!(enter.step(EnterEvent::DevNullOpened(Ok(0))), EnterAction::DupDevNull(1));
    assert_eq!(enter.step(EnterEvent::Duplicated(Ok(()))), EnterAction::DupDevNull(2));
    assert_eq!(enter.step(EnterEvent::Duplicated(Ok(()))), EnterAction::CloseDevNull(0));
}
