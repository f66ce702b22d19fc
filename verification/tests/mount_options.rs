//! Mount options.

use fuser::kernel_config::SessionACL;
use fuser::mnt::mount_options::{
    check_option_conflicts, check_option_values, conflicts_with, option_group,
    option_to_escaped_string, option_to_flag, option_to_string, Config, MountOption,
    MountOptionGroup, ValueError,
};
use fuser::mnt::option_list::{escaped_strings, join, plain_strings};
use fuser::mnt::unmount_options::{
    to_fusermount_option, to_unmount_syscall, UnmountOption,
};
use fuser::mount_options;

fn config(mount_options: Vec<MountOption>) -> Config {
    Config {
        mount_options,
        ..Config::default()
    }
}

#[test]
fn option_checking() {
    assert!(check_option_conflicts(&config(vec![MountOption::Suid, MountOption::NoSuid])).is_err());
    assert!(check_option_conflicts(&config(vec![MountOption::Suid, MountOption::NoExec])).is_ok());
}

#[test]
fn mount_options_option_checking() {
    assert!(mount_options::check_option_conflicts(&[
        mount_options::MountOption::Suid,
        mount_options::MountOption::NoSuid
    ])
    .is_err());
    assert!(mount_options::check_option_conflicts(&[
        mount_options::MountOption::Suid,
        mount_options::MountOption::NoExec
    ])
    .is_ok());
}

#[test]
fn option_value_checking() {
    for option in [MountOption::FSName, MountOption::Subtype, MountOption::CUSTOM] {
        assert!(check_option_values(&[option("no\0name".to_owned())]).is_err());
    }
    for option in [MountOption::Subtype, MountOption::CUSTOM] {
        assert!(check_option_values(&[option("comma,injected".to_owned())]).is_err());
        assert!(check_option_values(&[option("back\\slash".to_owned())]).is_err());
    }
    // fsname can be escaped everywhere it is used
    assert!(check_option_values(&[MountOption::FSName("comma,and\\backslash".to_owned())]).is_ok());
    assert!(check_option_values(&[
        MountOption::FSName("plain".to_owned()),
        MountOption::CUSTOM("plain".to_owned())
    ])
    .is_ok());
}

/// A comma in an option value must not be read as the start of another option by
/// libfuse or fusermount
#[test]
fn option_escaping() {
    assert_eq!(
        option_to_escaped_string(&MountOption::FSName("foo,ro".to_owned())),
        "fsname=foo\\,ro"
    );
    assert_eq!(
        option_to_escaped_string(&MountOption::FSName("back\\slash".to_owned())),
        "fsname=back\\\\slash"
    );
    // A backslash escape must survive libfuse's octal decoding: "\\123" decodes to
    // a literal backslash followed by "123", not to the byte 0o123
    assert_eq!(
        option_to_escaped_string(&MountOption::FSName("\\123".to_owned())),
        "fsname=\\\\123"
    );
    assert_eq!(
        option_to_escaped_string(&MountOption::FSName("plain".to_owned())),
        "fsname=plain"
    );
    assert_eq!(
        option_to_escaped_string(&MountOption::Subtype("plain".to_owned())),
        "subtype=plain"
    );
    assert_eq!(option_to_escaped_string(&MountOption::RO), "ro");
}

fn every_option() -> Vec<MountOption> {
    vec![
        MountOption::FSName("Blah".to_owned()),
        MountOption::Subtype("Bloo".to_owned()),
        MountOption::CUSTOM("bongos".to_owned()),
        MountOption::AutoUnmount,
        MountOption::DefaultPermissions,
        MountOption::Dev,
        MountOption::NoDev,
        MountOption::Suid,
        MountOption::NoSuid,
        MountOption::RO,
        MountOption::RW,
        MountOption::Exec,
        MountOption::NoExec,
        MountOption::Atime,
        MountOption::NoAtime,
        MountOption::DirSync,
        MountOption::Sync,
        MountOption::Async,
    ]
}

#[test]
fn option_round_trip() {
    for x in &every_option() {
        assert_eq!(*x, MountOption::from_str(option_to_string(x).as_ref()));
    }
}

#[test]
fn conflicts_name_both_options() {
    let error = check_option_conflicts(&config(vec![
        MountOption::Suid,
        MountOption::RO,
        MountOption::NoSuid,
        MountOption::Suid,
    ]))
    .unwrap_err();
    assert_eq!(error.conflicting.len(), 2);
    assert!(error.conflicting.contains(&MountOption::Suid));
    assert!(error.conflicting.contains(&MountOption::NoSuid));
    assert_eq!(conflicts_with(&MountOption::Sync), vec![MountOption::Async]);
    assert_eq!(conflicts_with(&MountOption::DirSync), vec![]);
    assert_eq!(
        mount_options::conflicts_with(&mount_options::MountOption::AllowOther),
        vec![mount_options::MountOption::AllowRoot]
    );
}

#[test]
fn values_are_told_with_their_first_bad_character() {
    assert_eq!(
        check_option_values(&[
            MountOption::RO,
            MountOption::CUSTOM("a\\b,c".to_owned()),
            MountOption::CUSTOM("x\0".to_owned())
        ]),
        Err(ValueError { index: 1, invalid: '\\' })
    );
}

#[test]
fn options_fall_into_groups() {
    assert_eq!(option_group(&MountOption::AutoUnmount), MountOptionGroup::Fusermount);
    assert_eq!(option_group(&MountOption::RO), MountOptionGroup::KernelFlag);
    assert_eq!(option_group(&MountOption::DefaultPermissions), MountOptionGroup::KernelOption);
    assert_eq!(
        mount_options::option_group(&mount_options::MountOption::AllowRoot),
        mount_options::MountOptionGroup::KernelOption
    );
    assert_eq!(
        mount_options::option_to_string(&mount_options::MountOption::AllowRoot),
        "allow_root"
    );
}

#[test]
fn flags_are_those_of_the_system() {
    for (option, flag) in [
        (MountOption::NoDev, libc::MS_NODEV),
        (MountOption::NoSuid, libc::MS_NOSUID),
        (MountOption::RO, libc::MS_RDONLY),
        (MountOption::NoExec, libc::MS_NOEXEC),
        (MountOption::NoAtime, libc::MS_NOATIME),
        (MountOption::Sync, libc::MS_SYNCHRONOUS),
        (MountOption::DirSync, libc::MS_DIRSYNC),
        (MountOption::Dev, 0),
        (MountOption::Async, 0),
    ] {
        assert_eq!(option_to_flag(&option).unwrap(), flag as u64);
    }
    assert!(option_to_flag(&MountOption::AutoUnmount).is_err());
    assert_eq!(
        mount_options::option_to_flag(&mount_options::MountOption::NoExec),
        libc::MS_NOEXEC as u64
    );
}

#[test]
fn option_lists() {
    let options = vec![MountOption::RO, MountOption::FSName("a,b".to_owned())];
    assert_eq!(
        join(&plain_strings(&options, SessionACL::Owner)),
        "ro,fsname=a,b"
    );
    assert_eq!(
        join(&escaped_strings(&options, SessionACL::All)),
        "ro,fsname=a\\,b,allow_other"
    );
    assert_eq!(SessionACL::Owner.to_mount_option(), None);
    assert_eq!(SessionACL::RootAndOwner.to_mount_option(), Some("allow_other"));
}

#[test]
fn unmount_flags_are_those_of_the_system() {
    assert_eq!(
        to_unmount_syscall(&[
            UnmountOption::Force,
            UnmountOption::Detach,
            UnmountOption::Force
        ]),
        libc::MNT_FORCE | libc::MNT_DETACH
    );
    assert_eq!(to_unmount_syscall(&[UnmountOption::Expire]), libc::MNT_EXPIRE);
    assert_eq!(to_unmount_syscall(&[UnmountOption::NoFollow]), libc::UMOUNT_NOFOLLOW);
    assert_eq!(to_unmount_syscall(&[]), 0);
    assert_eq!(to_fusermount_option(&UnmountOption::Detach), Some("-z".to_owned()));
    assert_eq!(to_fusermount_option(&UnmountOption::Force), None);
    assert_eq!(
        fuser::mnt::unmount_options::conflicts_with(&UnmountOption::Force),
        [UnmountOption::Detach, UnmountOption::Expire]
    );
    assert_eq!(fuser::mnt::unmount_options::conflicts_with(&UnmountOption::NoFollow), []);
    assert!(fuser::mnt::unmount_options::check_option_conflicts(&[
        UnmountOption::Detach,
        UnmountOption::Expire
    ])
    .is_err());
}
