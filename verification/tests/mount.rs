//! Mounting and unmounting.

use fuser::kernel_config::SessionACL;
use fuser::ll::errno::{
    all_raw_errnos, strerror_r_dynamic, ErrnoLocaleMapping, ErrnoMessage, LocaleId, MessageStep,
    NulError,
};
use fuser::ids::Errno;
use fuser::mnt::fuse_async_pure::{AsyncMount, UnmountAction};
use fuser::mnt::fuse_direct::{
    closes_descriptor, last_descriptor, still_mounted_by, unmount_flags, AfterAttempt, Attempt,
    DirectMount, SocketRead,
};
use fuser::mnt::fuse_pure::{
    after_sys_mount, close_ranges, detect_fusermount_bin, fuse_mount_fusermount,
    fuse_mount_mount_fusefs, fuse_mount_sys, helper_error, is_mount_fusefs, keeps_socket,
    no_helper_text, receive_fusermount_message, sweep_end, watcher_action, AfterSysMount,
    ControlMessage, HelperError, MountState, MountStep, ReceiveError, StepResult, WatcherAction,
};
use fuser::mnt::fusermount;
use fuser::mnt::fusermount::{
    after_unmount_call, fuse_unmount_pure, parse_fusermount_unmount_stderr, unmount_args,
    AfterUnmountCall, HelperUnmountError,
};
use fuser::mnt::libfuse::{call_succeeded, LibfuseCall, LibfuseSession, SessionUnmount};
use fuser::mnt::mount::{
    drop_umount_flags, is_mount_salvageable, is_mounted, with_fuse_args,
    with_retry_on_busy_or_again, ErrorKind, MountHandle, OsError, PollResult, Retry, UmountStart,
};
use fuser::mnt::mount_options::MountOption;
use fuser::mnt::mtab::{decode_mtab_str, fuse_type, mtab_path, should_auto_unmount, MtabPath};
use fuser::mnt::system_mount::{mount_flags, MountIds};
use fuser::mnt::unmount_options::UnmountOption;

const IDS: MountIds = MountIds {
    fd: 7,
    root_mode: 0o40755,
    uid: 1000,
    gid: 100,
};

#[test]
fn fuse_args() {
    let args = with_fuse_args(
        &[
            MountOption::CUSTOM("foo".into()),
            MountOption::CUSTOM("bar".into()),
        ],
        SessionACL::RootAndOwner,
    );
    assert_eq!(
        args,
        ["rust-fuse", "-o", "foo", "-o", "bar", "-o", "allow_other"]
    );
}

fn messages() -> Vec<ErrnoMessage> {
    vec![
        ErrnoMessage {
            code: libc::EPERM,
            text: Some(b"Operation not permitted".to_vec()),
        },
        ErrnoMessage {
            code: libc::EBUSY,
            text: Some(b"Device or resource busy".to_vec()),
        },
        ErrnoMessage { code: libc::EIO, text: None },
    ]
}

fn mapping() -> ErrnoLocaleMapping {
    let mut mapping = ErrnoLocaleMapping::new();
    mapping.populate_errno_mapping(&messages());
    mapping
}

#[test]
fn test_get_errno_message() {
    let errno = Errno(Errno::EPERM);
    let message = mapping()
        .get_errno_message(errno)
        .expect("message should be present");
    assert_eq!(message, b"Operation not permitted");
}

#[test]
fn test_get_errno_by_message() {
    let message = b"Operation not permitted".to_vec();
    let errno = mapping()
        .get_errno_by_message(&message)
        .expect("errno should be present");
    assert_eq!(errno, Errno(Errno::EPERM));
}

#[test]
fn messages_stand_for_one_number() {
    let mut mapping = mapping();
    assert_eq!(mapping.get_errno_message(Errno(libc::EIO)), None);
    assert_eq!(mapping.get_errno_by_message(&b"nothing".to_vec()), None);
    // a number that is known keeps its message, and a message that comes again moves
    mapping.populate_errno_mapping(&[
        ErrnoMessage {
            code: libc::EPERM,
            text: Some(b"other".to_vec()),
        },
        ErrnoMessage {
            code: libc::EIO,
            text: Some(b"Device or resource busy".to_vec()),
        },
    ]);
    assert_eq!(
        mapping.get_errno_message(Errno(libc::EPERM)),
        Some(b"Operation not permitted".to_vec())
    );
    assert_eq!(mapping.get_errno_message(Errno(libc::EBUSY)), None);
    assert_eq!(
        mapping.get_errno_by_message(&b"Device or resource busy".to_vec()),
        Some(Errno(libc::EIO))
    );
}

#[test]
fn error_numbers_are_those_of_the_system() {
    let all = all_raw_errnos();
    assert_eq!(all.len(), 134);
    for raw in [
        libc::EPERM,
        libc::ENOENT,
        libc::EDEADLOCK,
        libc::EWOULDBLOCK,
        libc::EHWPOISON,
        libc::ENOTSUP,
    ] {
        assert!(all.contains(&raw));
    }
    assert_eq!(
        [
            Errno::EPERM,
            Errno::ENOENT,
            Errno::EINTR,
            Errno::EIO,
            Errno::EAGAIN,
            Errno::EBUSY,
            Errno::ENODEV,
            Errno::EINVAL,
            Errno::ERANGE,
            Errno::ENOSYS,
            Errno::ENOTSUP,
            Errno::ENOTCONN
        ],
        [
            libc::EPERM,
            libc::ENOENT,
            libc::EINTR,
            libc::EIO,
            libc::EAGAIN,
            libc::EBUSY,
            libc::ENODEV,
            libc::EINVAL,
            libc::ERANGE,
            libc::ENOSYS,
            libc::ENOTSUP,
            libc::ENOTCONN
        ]
    );
}

#[test]
fn locales_have_names_without_zero() {
    assert_eq!(LocaleId::try_from(b"C".to_vec()).unwrap().as_bytes(), b"C");
    assert_eq!(LocaleId::try_from(b"a\0b\0".to_vec()), Err(NulError(1)));
}

#[test]
fn messages_get_the_room_they_need() {
    assert_eq!(strerror_r_dynamic(0, 0, 1024), MessageStep::Done);
    assert_eq!(strerror_r_dynamic(-1, libc::ERANGE, 1024), MessageStep::Again(2048));
    assert_eq!(
        strerror_r_dynamic(libc::EINVAL, libc::EINVAL, 1024),
        MessageStep::Failed(libc::EINVAL)
    );
}

#[test]
fn complaints_of_the_helper_are_read() {
    assert_eq!(
        parse_fusermount_unmount_stderr(
            b"fusermount3: failed to unmount /mnt: Device or resource busy"
        )
        .unwrap(),
        Some(b"Device or resource busy".to_vec())
    );
    assert_eq!(parse_fusermount_unmount_stderr(b"something else").unwrap(), None);
    let mapping = mapping();
    assert_eq!(fuse_unmount_pure(true, b"", &mapping).unwrap(), Ok(()));
    assert_eq!(
        fuse_unmount_pure(
            false,
            b"fusermount3: failed to unmount /mnt: Device or resource busy",
            &mapping
        )
        .unwrap(),
        Err(HelperUnmountError::Os(libc::EBUSY))
    );
    assert_eq!(
        fuse_unmount_pure(false, b"fusermount3: failed to unmount /mnt: what", &mapping).unwrap(),
        Err(HelperUnmountError::UnknownReason)
    );
    assert_eq!(
        fuse_unmount_pure(false, b"what", &mapping).unwrap(),
        Err(HelperUnmountError::Unreadable)
    );
}

#[test]
fn the_helper_is_told_what_it_knows() {
    assert_eq!(unmount_args(&[]), ["-u", "--"]);
    assert_eq!(unmount_args(&[UnmountOption::Detach, UnmountOption::Force]), ["-u", "-z", "--"]);
    assert_eq!(after_unmount_call(Err(libc::EPERM)), AfterUnmountCall::TryHelper);
    assert_eq!(after_unmount_call(Err(libc::EBUSY)), AfterUnmountCall::Failed(libc::EBUSY));
    assert_eq!(after_unmount_call(Ok(())), AfterUnmountCall::Unmounted);
}

fn os_error(kind: ErrorKind, raw: Option<i32>) -> OsError {
    OsError { kind, raw }
}

#[test]
fn mounts_are_kept_after_some_errors() {
    assert!(is_mount_salvageable(&os_error(ErrorKind::ResourceBusy, Some(libc::EBUSY))));
    assert!(is_mount_salvageable(&os_error(ErrorKind::PermissionDenied, None)));
    assert!(!is_mount_salvageable(&os_error(ErrorKind::InvalidInput, Some(libc::EBUSY))));
    assert!(!is_mount_salvageable(&os_error(ErrorKind::NotFound, Some(libc::ENOENT))));
    assert!(!is_mount_salvageable(&os_error(ErrorKind::Other, Some(libc::EFAULT))));
    assert!(!is_mount_salvageable(&os_error(ErrorKind::Other, None)));
    assert!(is_mount_salvageable(&os_error(ErrorKind::Other, Some(libc::ENOENT))));
}

#[test]
fn unmounts_are_repeated_while_busy() {
    assert_eq!(with_retry_on_busy_or_again(ErrorKind::ResourceBusy), Retry::After(1000));
    assert_eq!(with_retry_on_busy_or_again(ErrorKind::WouldBlock), Retry::After(10));
    assert_eq!(with_retry_on_busy_or_again(ErrorKind::NotFound), Retry::Stop);
    assert_eq!(drop_umount_flags(), [UnmountOption::Detach]);
}

#[test]
fn a_mount_is_unmounted_once() {
    let mount = MountHandle::Mounted;
    assert_eq!(mount.umount(&[]), UmountStart::Try);
    match mount.umount(&[UnmountOption::Detach, UnmountOption::Expire]) {
        UmountStart::Refused(e) => assert_eq!(e.conflicting.len(), 2),
        _ => panic!("Unexpected start"),
    }
    let busy = os_error(ErrorKind::ResourceBusy, Some(libc::EBUSY));
    assert_eq!(mount.after_umount(Err(busy), true), MountHandle::Mounted);
    assert_eq!(mount.after_umount(Err(busy), false), MountHandle::Gone);
    let gone = mount.after_umount(Ok(()), true);
    assert_eq!(gone, MountHandle::Gone);
    assert_eq!(gone.umount(&[]), UmountStart::NothingToDo);
}

#[test]
fn polls_tell_whether_it_is_mounted() {
    assert_eq!(is_mounted(PollResult::Quiet), Some(true));
    assert_eq!(is_mounted(PollResult::Event { error: true }), Some(true));
    assert_eq!(is_mounted(PollResult::Event { error: false }), Some(false));
    assert_eq!(is_mounted(PollResult::Interrupted), None);
}

#[test]
fn the_table_of_mounts_is_searched() {
    let table = b"proc /proc proc rw 0 0\nfs /mnt/a\\040b fuse.sshfs rw 0 0\next /x ext4 rw 0 0\n";
    assert!(should_auto_unmount(table, b"/mnt/a b"));
    assert!(!should_auto_unmount(table, b"/mnt/a"));
    assert!(!should_auto_unmount(table, b"/x"));
    assert!(!should_auto_unmount(b"", b"/x"));
    assert_eq!(decode_mtab_str(b"a\\134b"), Some(b"a\\b".to_vec()));
    assert_eq!(decode_mtab_str(b"a\\9"), None);
    assert_eq!(decode_mtab_str(b"a\\"), None);
    assert!(fuse_type(b"fuse"));
    assert!(fuse_type(b"fuseblk.ntfs"));
    assert!(!fuse_type(b"fusectl"));
    assert_eq!(mtab_path(true, true), Some(MtabPath::Etc));
    assert_eq!(mtab_path(false, true), Some(MtabPath::Proc));
    assert_eq!(mtab_path(false, false), None);
}

#[test]
fn devices_and_set_ids_are_off_unless_root_asks() {
    let off = (libc::MS_NODEV | libc::MS_NOSUID) as u64;
    assert_eq!(mount_flags(&[], true), off);
    assert_eq!(mount_flags(&[MountOption::Dev, MountOption::Suid], false), off);
    assert_eq!(mount_flags(&[MountOption::Dev, MountOption::Suid], true), 0);
    // what is declined stays off, whatever else is asked for
    assert_eq!(
        mount_flags(&[MountOption::NoDev, MountOption::Dev, MountOption::Suid], true),
        libc::MS_NODEV
    );
    assert_eq!(
        mount_flags(&[MountOption::Dev, MountOption::RO], true),
        (libc::MS_NOSUID | libc::MS_RDONLY) as u64
    );
}

#[test]
fn a_direct_mount_gives_in_step_by_step() {
    let options = [
        MountOption::FSName("src".into()),
        MountOption::Subtype("sub".into()),
        MountOption::DefaultPermissions,
    ];
    let mount = DirectMount::new(&options, SessionACL::All, IDS);
    let call = mount.call(Attempt::First);
    assert_eq!(call.source, "src");
    assert_eq!(call.fstype, "fuse.sub");
    assert_eq!(
        call.options,
        "default_permissions,allow_other,fd=7,rootmode=40000,user_id=1000,group_id=100"
    );
    let after = mount.after(Attempt::First, Err(libc::ENODEV));
    assert_eq!(after, AfterAttempt::Try(Attempt::NoSubtype));
    let call = mount.call(Attempt::NoSubtype);
    assert_eq!(call.source, "sub#src");
    assert_eq!(call.fstype, "fuse");
    let after = mount.after(Attempt::NoSubtype, Err(libc::EINVAL));
    assert_eq!(after, AfterAttempt::Try(Attempt::NoGroup { no_subtype: true }));
    let call = mount.call(Attempt::NoGroup { no_subtype: true });
    assert_eq!(
        call.options,
        "default_permissions,allow_other,fd=7,rootmode=40000,user_id=1000"
    );
    assert_eq!(
        mount.after(Attempt::NoGroup { no_subtype: true }, Err(libc::EINVAL)),
        AfterAttempt::Failed(libc::EINVAL)
    );
    assert_eq!(mount.after(Attempt::First, Ok(())), AfterAttempt::Mounted);
    assert!(mount.options_fit(Some(4096)));
    assert_eq!(unmount_flags(false), 0);
    assert_eq!(unmount_flags(true), libc::MNT_DETACH);
    assert!(still_mounted_by(SocketRead::Interrupted));
    assert!(!still_mounted_by(SocketRead::Read(0)));
    assert!(closes_descriptor(5, 6, last_descriptor(None)));
    assert!(!closes_descriptor(6, 6, last_descriptor(None)));
}

#[test]
fn a_system_mount_is_put_together() {
    let call = fuse_mount_sys(
        &[
            MountOption::FSName("src".into()),
            MountOption::DefaultPermissions,
            MountOption::RO,
        ],
        SessionACL::All,
        IDS,
    );
    assert_eq!(call.source, "src");
    assert_eq!(call.fstype, "fuse");
    assert_eq!(
        call.options,
        "fd=7,rootmode=40755,user_id=1000,group_id=100,default_permissions,allow_other"
    );
    assert_eq!(
        call.flags,
        (libc::MS_NODEV | libc::MS_NOSUID | libc::MS_RDONLY) as u64
    );
    assert_eq!(after_sys_mount(Err(libc::EPERM)), AfterSysMount::TryHelper);
    assert_eq!(after_sys_mount(Err(libc::EBUSY)), AfterSysMount::Failed(libc::EBUSY));
    assert_eq!(after_sys_mount(Ok(())), AfterSysMount::Mounted);
}

#[test]
fn mounting_goes_on_step_by_step() {
    let plain = MountState::start(&[]);
    assert_eq!(plain.step, MountStep::SysMount);
    assert_eq!(plain.next(StepResult::Succeeded).step, MountStep::Done);
    let helper = plain.next(StepResult::NotAllowed);
    assert_eq!(helper.step, MountStep::FindHelper);
    assert_eq!(helper.next(StepResult::Succeeded).step, MountStep::RunHelper);

    let auto = MountState::start(&[MountOption::AutoUnmount]);
    assert_eq!(auto.step, MountStep::FindHelper);
    let watched = auto.next(StepResult::Failed);
    assert_eq!(watched.step, MountStep::StartWatcher);
    let mounting = watched.next(StepResult::Succeeded);
    assert_eq!(mounting.step, MountStep::SysMount);
    assert_eq!(
        mounting.next(StepResult::NotAllowed).step,
        MountStep::Failed { no_helper: true }
    );
}

#[test]
fn helpers_are_called() {
    assert_eq!(
        fuse_mount_fusermount(&[MountOption::FSName("a,b".into())], SessionACL::All),
        ["-o", "fsname=a\\,b,allow_other", "--"]
    );
    assert!(is_mount_fusefs("/sbin/mount_fusefs"));
    assert!(!is_mount_fusefs("fusermount3"));
    assert_eq!(
        fuse_mount_mount_fusefs(&[MountOption::RO], SessionACL::Owner, 9),
        ["-o", "ro", "9"]
    );
    assert!(keeps_socket(&[MountOption::AutoUnmount]));
    assert!(!keeps_socket(&[]));
    assert_eq!(
        helper_error("fusermount3: only allowed if 'user_allow_other' is set"),
        HelperError::PermissionDenied
    );
    assert_eq!(helper_error("something"), HelperError::Other);
}

#[test]
fn helpers_are_found() {
    let mut started = [false; 8];
    assert_eq!(detect_fusermount_bin(None, &started), None);
    started[1] = true;
    started[2] = true;
    assert_eq!(detect_fusermount_bin(None, &started), Some("fusermount".to_owned()));
    assert_eq!(
        detect_fusermount_bin(Some("/my/helper".to_owned()), &started),
        Some("/my/helper".to_owned())
    );
    assert_eq!(fusermount::detect_fusermount_bin(None, &started), "fusermount");
    assert_eq!(fusermount::detect_fusermount_bin(None, &[false; 8]), "fusermount3");
    assert!(no_helper_text().contains("fusermount3"));
    assert!(no_helper_text().contains("FUSERMOUNT_PATH"));
}

#[test]
fn the_descriptor_comes_from_the_helper() {
    assert!(matches!(
        receive_fusermount_message(0, &[]),
        Err(ReceiveError::UnexpectedEof)
    ));
    assert!(matches!(
        receive_fusermount_message(1, &[]),
        Err(ReceiveError::NoDescriptor)
    ));
    assert!(matches!(
        receive_fusermount_message(1, &[ControlMessage::Other]),
        Err(ReceiveError::UnknownMessage(_))
    ));
    assert!(matches!(
        receive_fusermount_message(1, &[ControlMessage::Rights(vec![-1])]),
        Err(ReceiveError::BadDescriptor)
    ));
    assert!(matches!(
        receive_fusermount_message(1, &[ControlMessage::Rights(vec![5])]),
        Ok(5)
    ));
}

#[test]
fn watchers_keep_one_descriptor() {
    let ranges = close_ranges(10);
    assert_eq!(ranges.above, (11, u32::MAX));
    assert_eq!(ranges.below, Some((3, 9)));
    assert_eq!(close_ranges(3).below, None);
    assert_eq!(sweep_end(Some(100)), 100);
    assert_eq!(sweep_end(None), 1_048_576);
    assert_eq!(watcher_action(Ok(3)), WatcherAction::CloseAndLeave);
    assert_eq!(watcher_action(Err(libc::ENOTCONN)), WatcherAction::Unmount);
    assert_eq!(watcher_action(Err(libc::ENOENT)), WatcherAction::Leave);
}

#[test]
fn libfuse_sessions_are_destroyed_once() {
    assert!(call_succeeded(LibfuseCall::SessionNew, 0x1000));
    assert!(!call_succeeded(LibfuseCall::SessionNew, 0));
    assert!(call_succeeded(LibfuseCall::SessionMount, 0));
    assert!(!call_succeeded(LibfuseCall::SessionMount, -1));
    assert!(call_succeeded(LibfuseCall::SessionFd, 0));
    assert!(!call_succeeded(LibfuseCall::MountCompat25, -1));
    let mut session = LibfuseSession { destroyed: false };
    assert_eq!(session.umount_impl(Err(libc::EBUSY)), SessionUnmount::Failed(libc::EBUSY));
    assert_eq!(session.umount_impl(Err(libc::EPERM)), SessionUnmount::UnmountAndDestroy);
    assert!(!session.let_go());
    let mut session = LibfuseSession { destroyed: false };
    assert_eq!(session.umount_impl(Ok(())), SessionUnmount::Unmounted);
    assert!(session.let_go());
    assert!(!session.let_go());
}

#[test]
fn mounts_end_while_other_work_goes_on() {
    let mut mount: AsyncMount<u8, u8> = AsyncMount::new();
    assert_eq!(mount.dev_fuse(), None);
    assert!(mount.mount_impl());
    assert!(!mount.umount_impl_sync());
    mount.mounted(1, Some(2));
    assert_eq!(mount.dev_fuse(), Some(&1));
    assert!(!mount.mount_impl());
    assert_eq!(mount.umount_impl(false, true), UnmountAction::Nothing);
    assert_eq!(mount.umount_impl(true, false), UnmountAction::Helper(Some(2)));
    assert_eq!(mount.umount_impl(true, true), UnmountAction::SystemCall(None));
    assert!(mount.umount_impl_sync());
    assert!(!mount.umount_impl_sync());
}
