//! What is handed to the `mount` system call, as far as it follows from the options alone.

use vstd::prelude::*;
use vstd::string::StringExecFns;

use crate::mnt::mount_options::{
    option_flag, option_group, option_text, option_to_flag, option_to_string, spec_option_group,
    MountOption, MountOptionGroup, MS_DIRSYNC, MS_NOATIME, MS_NODEV, MS_NOEXEC, MS_NOSUID,
    MS_RDONLY, MS_SYNCHRONOUS,
};
use crate::text::{decimal, digits, to_decimal, to_digits, to_signed_decimal};

verus! {

/// The path of the FUSE device.
pub open spec fn dev_fuse_path() -> Seq<char> {
    "/dev/fuse"@
}

/// Whether `Dev` is among the options.
pub open spec fn has_dev(options: Seq<MountOption>) -> bool {
    exists|i: int| 0 <= i < options.len() && #[trigger] options[i] is Dev
}

/// Whether `Suid` is among the options.
pub open spec fn has_suid(options: Seq<MountOption>) -> bool {
    exists|i: int| 0 <= i < options.len() && #[trigger] options[i] is Suid
}

/// Whether `AutoUnmount` is among the options.
pub open spec fn has_auto_unmount(options: Seq<MountOption>) -> bool {
    exists|i: int| 0 <= i < options.len() && #[trigger] options[i] is AutoUnmount
}

/// Whether `Dev` is among the options.
pub fn contains_dev(options: &[MountOption]) -> (r: bool)
    ensures
        r == has_dev(options@),
{
    let mut i: usize = 0;
    while i < options.len()
        invariant
            i <= options@.len(),
            forall|k: int| 0 <= k < i ==> !(#[trigger] options@[k] is Dev),
        decreases options.len() - i,
    {
        if let MountOption::Dev = options[i] {
            return true;
        }
        i += 1;
    }
    false
}

/// Whether `Suid` is among the options.
pub fn contains_suid(options: &[MountOption]) -> (r: bool)
    ensures
        r == has_suid(options@),
{
    let mut i: usize = 0;
    while i < options.len()
        invariant
            i <= options@.len(),
            forall|k: int| 0 <= k < i ==> !(#[trigger] options@[k] is Suid),
        decreases options.len() - i,
    {
        if let MountOption::Suid = options[i] {
            return true;
        }
        i += 1;
    }
    false
}

/// Whether `AutoUnmount` is among the options.
pub fn contains_auto_unmount(options: &[MountOption]) -> (r: bool)
    ensures
        r == has_auto_unmount(options@),
{
    let mut i: usize = 0;
    while i < options.len()
        invariant
            i <= options@.len(),
            forall|k: int| 0 <= k < i ==> !(#[trigger] options@[k] is AutoUnmount),
        decreases options.len() - i,
    {
        if let MountOption::AutoUnmount = options[i] {
            return true;
        }
        i += 1;
    }
    false
}

/// The flags of all options that are flags of the system call.
pub open spec fn option_flags(options: Seq<MountOption>) -> u64
    decreases options.len(),
{
    if options.len() == 0 {
        0
    } else {
        option_flags(options.drop_last()) | option_flag(options.last())
    }
}

/// What holds unless the options say otherwise: no devices and no set-user-id bits, where `trusted`
/// says whether the options may say otherwise.
pub open spec fn default_flags(options: Seq<MountOption>, trusted: bool) -> u64 {
    (if trusted && has_dev(options) {
        0u64
    } else {
        MS_NODEV
    }) | (if trusted && has_suid(options) {
        0u64
    } else {
        MS_NOSUID
    })
}

/// The flags of the system call.
pub fn mount_flags(options: &[MountOption], trusted: bool) -> (r: u64)
    ensures
        r == default_flags(options@, trusted) | option_flags(options@),
{
    let dev: u64 = if trusted && contains_dev(options) {
        0
    } else {
        MS_NODEV
    };
    let suid: u64 = if trusted && contains_suid(options) {
        0
    } else {
        MS_NOSUID
    };
    let mut own: u64 = 0;
    let mut i: usize = 0;
    while i < options.len()
        invariant
            i <= options@.len(),
            own == option_flags(options@.take(i as int)),
        decreases options.len() - i,
    {
        assert(options@.take(i + 1).drop_last() =~= options@.take(i as int));
        let flag: u64 = match option_to_flag(&options[i]) {
            Ok(flag) => flag,
            Err(_) => 0,
        };
        own = own | flag;
        i += 1;
    }
    assert(options@.take(i as int) =~= options@);
    (dev | suid) | own
}

/// The value of the last name that is given for the source.
pub open spec fn last_fsname(options: Seq<MountOption>) -> Option<Seq<char>>
    decreases options.len(),
{
    if options.len() == 0 {
        None
    } else {
        match options.last() {
            MountOption::FSName(name) => Some(name@),
            _ => last_fsname(options.drop_last()),
        }
    }
}

/// The value of the last subtype that is given.
pub open spec fn last_subtype(options: Seq<MountOption>) -> Option<Seq<char>>
    decreases options.len(),
{
    if options.len() == 0 {
        None
    } else {
        match options.last() {
            MountOption::Subtype(name) => Some(name@),
            _ => last_subtype(options.drop_last()),
        }
    }
}

/// The value of the first name that is given for the source.
pub open spec fn first_fsname(options: Seq<MountOption>) -> Option<Seq<char>>
    decreases options.len(),
{
    if options.len() == 0 {
        None
    } else {
        match options[0] {
            MountOption::FSName(name) => Some(name@),
            _ => first_fsname(options.skip(1)),
        }
    }
}

/// The value of the first subtype that is given.
pub open spec fn first_subtype(options: Seq<MountOption>) -> Option<Seq<char>>
    decreases options.len(),
{
    if options.len() == 0 {
        None
    } else {
        match options[0] {
            MountOption::Subtype(name) => Some(name@),
            _ => first_subtype(options.skip(1)),
        }
    }
}

/// What an optional string holds.
pub open spec fn text_of(s: Option<String>) -> Option<Seq<char>> {
    match s {
        Some(s) => Some(s@),
        None => None,
    }
}

/// The value of the last name that is given for the source.
pub fn find_last_fsname(options: &[MountOption]) -> (r: Option<String>)
    ensures
        text_of(r) == last_fsname(options@),
{
    let mut i: usize = options.len();
    assert(options@.take(i as int) =~= options@);
    while i > 0
        invariant
            i <= options@.len(),
            last_fsname(options@) == last_fsname(options@.take(i as int)),
        decreases i,
    {
        assert(options@.take(i as int).drop_last() =~= options@.take(i - 1));
        if let MountOption::FSName(name) = &options[i - 1] {
            return Some(name.clone());
        }
        i -= 1;
    }
    None
}

/// The value of the last subtype that is given.
pub fn find_last_subtype(options: &[MountOption]) -> (r: Option<String>)
    ensures
        text_of(r) == last_subtype(options@),
{
    let mut i: usize = options.len();
    assert(options@.take(i as int) =~= options@);
    while i > 0
        invariant
            i <= options@.len(),
            last_subtype(options@) == last_subtype(options@.take(i as int)),
        decreases i,
    {
        assert(options@.take(i as int).drop_last() =~= options@.take(i - 1));
        if let MountOption::Subtype(name) = &options[i - 1] {
            return Some(name.clone());
        }
        i -= 1;
    }
    None
}

/// The value of the first name that is given for the source.
pub fn find_first_fsname(options: &[MountOption]) -> (r: Option<String>)
    ensures
        text_of(r) == first_fsname(options@),
{
    let mut i: usize = 0;
    assert(options@.skip(0) =~= options@);
    while i < options.len()
        invariant
            i <= options@.len(),
            first_fsname(options@) == first_fsname(options@.skip(i as int)),
        decreases options.len() - i,
    {
        assert(options@.skip(i as int).skip(1) =~= options@.skip(i + 1));
        if let MountOption::FSName(name) = &options[i] {
            return Some(name.clone());
        }
        i += 1;
    }
    None
}

/// The value of the first subtype that is given.
pub fn find_first_subtype(options: &[MountOption]) -> (r: Option<String>)
    ensures
        text_of(r) == first_subtype(options@),
{
    let mut i: usize = 0;
    assert(options@.skip(0) =~= options@);
    while i < options.len()
        invariant
            i <= options@.len(),
            first_subtype(options@) == first_subtype(options@.skip(i as int)),
        decreases options.len() - i,
    {
        assert(options@.skip(i as int).skip(1) =~= options@.skip(i + 1));
        if let MountOption::Subtype(name) = &options[i] {
            return Some(name.clone());
        }
        i += 1;
    }
    None
}

/// Who mounts, on what: the numbers that the kernel is told.
#[derive(Clone, Copy, Debug, PartialEq, Eq, Structural)]
pub struct MountIds {
    /// The descriptor of the FUSE device.
    pub fd: i32,
    /// The mode of the mountpoint.
    pub root_mode: u32,
    pub uid: u32,
    pub gid: u32,
}

impl MountIds {
    /// Device, mode and user as options.
    pub open spec fn user_text(self) -> Seq<char> {
        "fd="@ + decimal(self.fd as int) + ",rootmode="@ + digits(self.root_mode as nat, 8)
            + ",user_id="@ + decimal(self.uid as int)
    }

    /// Device, mode, user and group as options.
    pub open spec fn full_text(self) -> Seq<char> {
        self.user_text() + ",group_id="@ + decimal(self.gid as int)
    }

    /// Device, mode and user as options.
    pub fn user_string(&self) -> (r: String)
        ensures
            r@ == self.user_text(),
    {
        String::from_str("fd=").concat(to_signed_decimal(self.fd as i64).as_str()).concat(
            ",rootmode=",
        ).concat(to_digits(self.root_mode as u64, 8).as_str()).concat(",user_id=").concat(
            to_decimal(self.uid as u64).as_str(),
        )
    }

    /// Device, mode, user and group as options.
    pub fn full_string(&self) -> (r: String)
        ensures
            r@ == self.full_text(),
    {
        self.user_string().concat(",group_id=").concat(to_decimal(self.gid as u64).as_str())
    }
}

/// The options that the kernel reads, each with a comma behind it.
pub open spec fn leading_options(options: Seq<MountOption>) -> Seq<char>
    decreases options.len(),
{
    if options.len() == 0 {
        Seq::empty()
    } else if spec_option_group(options.last()) is KernelOption {
        leading_options(options.drop_last()) + option_text(options.last()) + seq![',']
    } else {
        leading_options(options.drop_last())
    }
}

/// The options that the kernel reads, each with a comma before it.
pub open spec fn trailing_options(options: Seq<MountOption>) -> Seq<char>
    decreases options.len(),
{
    if options.len() == 0 {
        Seq::empty()
    } else if spec_option_group(options.last()) is KernelOption {
        trailing_options(options.drop_last()) + seq![','] + option_text(options.last())
    } else {
        trailing_options(options.drop_last())
    }
}

/// The options that the kernel reads, each with a comma behind it.
pub fn leading_string(options: &[MountOption]) -> (r: String)
    ensures
        r@ == leading_options(options@),
{
    let mut out = String::new();
    let mut i: usize = 0;
    while i < options.len()
        invariant
            i <= options@.len(),
            out@ == leading_options(options@.take(i as int)),
        decreases options.len() - i,
    {
        assert(options@.take(i + 1).drop_last() =~= options@.take(i as int));
        if option_group(&options[i]) == MountOptionGroup::KernelOption {
            out.append(option_to_string(&options[i]).as_str());
            out.push(',');
        }
        i += 1;
        assert(out@ =~= leading_options(options@.take(i as int)));
    }
    assert(options@.take(i as int) =~= options@);
    out
}

/// The options that the kernel reads, each with a comma before it.
pub fn trailing_string(options: &[MountOption]) -> (r: String)
    ensures
        r@ == trailing_options(options@),
{
    let mut out = String::new();
    let mut i: usize = 0;
    while i < options.len()
        invariant
            i <= options@.len(),
            out@ == trailing_options(options@.take(i as int)),
        decreases options.len() - i,
    {
        assert(options@.take(i + 1).drop_last() =~= options@.take(i as int));
        if option_group(&options[i]) == MountOptionGroup::KernelOption {
            out.push(',');
            out.append(option_to_string(&options[i]).as_str());
        }
        i += 1;
        assert(out@ =~= trailing_options(options@.take(i as int)));
    }
    assert(options@.take(i as int) =~= options@);
    out
}

/// Whether `NoDev` is among the options.
pub open spec fn has_nodev(options: Seq<MountOption>) -> bool {
    exists|i: int| 0 <= i < options.len() && #[trigger] options[i] is NoDev
}

/// Whether `NoSuid` is among the options.
pub open spec fn has_nosuid(options: Seq<MountOption>) -> bool {
    exists|i: int| 0 <= i < options.len() && #[trigger] options[i] is NoSuid
}

/// The flags of the options hold those two flags where the options that stand for them are given.
proof fn lemma_option_flags(options: Seq<MountOption>)
    ensures
        option_flags(options) & MS_NODEV == (if has_nodev(options) {
            MS_NODEV
        } else {
            0
        }),
        option_flags(options) & MS_NOSUID == (if has_nosuid(options) {
            MS_NOSUID
        } else {
            0
        }),
    decreases options.len(),
{
    if options.len() == 0 {
        assert(0u64 & MS_NODEV == 0 && 0u64 & MS_NOSUID == 0) by (bit_vector);
    } else {
        let front = options.drop_last();
        lemma_option_flags(front);
        let x = option_flags(front);
        let f = option_flag(options.last());
        assert({
            &&& (x | f) & MS_NODEV == (x & MS_NODEV) | (f & MS_NODEV)
            &&& (x | f) & MS_NOSUID == (x & MS_NOSUID) | (f & MS_NOSUID)
            &&& f & MS_NODEV == if f == MS_NODEV { MS_NODEV } else { 0 }
            &&& f & MS_NOSUID == if f == MS_NOSUID { MS_NOSUID } else { 0 }
            &&& MS_NODEV | 0 == MS_NODEV && 0 | MS_NODEV == MS_NODEV
            &&& MS_NODEV | MS_NODEV == MS_NODEV
            &&& MS_NOSUID | 0 == MS_NOSUID && 0 | MS_NOSUID == MS_NOSUID
            &&& MS_NOSUID | MS_NOSUID == MS_NOSUID
            &&& 0u64 | 0 == 0
        }) by (bit_vector)
            requires
                f == 0 || f == MS_NODEV || f == MS_NOSUID || f == MS_RDONLY || f == MS_NOEXEC || f
                    == MS_NOATIME || f == MS_SYNCHRONOUS || f == MS_DIRSYNC,
        ;
        assert forall|i: int| 0 <= i < front.len() implies front[i] == options[i] by {
        }
        if has_nodev(front) {
            let i = choose|i: int| 0 <= i < front.len() && #[trigger] front[i] is NoDev;
            assert(options[i] is NoDev);
        }
        if has_nosuid(front) {
            let i = choose|i: int| 0 <= i < front.len() && #[trigger] front[i] is NoSuid;
            assert(options[i] is NoSuid);
        }
        let last = options[options.len() - 1];
        assert(last == options.last());
        if has_nodev(options) && !(last is NoDev) {
            let i = choose|i: int| 0 <= i < options.len() && #[trigger] options[i] is NoDev;
            assert(front[i] is NoDev);
        }
        if has_nosuid(options) && !(last is NoSuid) {
            let i = choose|i: int| 0 <= i < options.len() && #[trigger] options[i] is NoSuid;
            assert(front[i] is NoSuid);
        }
    }
}

/// Devices are off unless they are asked for by whom may ask and are not declined as well, and so
/// are set-user-id bits.
pub proof fn lemma_defaults_in_force(options: Seq<MountOption>, trusted: bool)
    ensures
        ((default_flags(options, trusted) | option_flags(options)) & MS_NODEV == MS_NODEV) <==> (
        !trusted || !has_dev(options) || has_nodev(options)),
        ((default_flags(options, trusted) | option_flags(options)) & MS_NOSUID == MS_NOSUID) <==> (
        !trusted || !has_suid(options) || has_nosuid(options)),
{
    lemma_option_flags(options);
    let own = option_flags(options);
    let dev = if trusted && has_dev(options) {
        0u64
    } else {
        MS_NODEV
    };
    let suid = if trusted && has_suid(options) {
        0u64
    } else {
        MS_NOSUID
    };
    assert({
        &&& ((dev | suid) | own) & MS_NODEV == MS_NODEV <==> (dev == MS_NODEV || own & MS_NODEV
            == MS_NODEV)
        &&& ((dev | suid) | own) & MS_NOSUID == MS_NOSUID <==> (suid == MS_NOSUID || own & MS_NOSUID
            == MS_NOSUID)
        &&& MS_NODEV != 0
        &&& MS_NOSUID != 0
    }) by (bit_vector)
        requires
            dev == 0 || dev == MS_NODEV,
            suid == 0 || suid == MS_NOSUID,
    ;
}

/// A flag is set by the options exactly where the option that stands for it is given.
proof fn lemma_one_flag(options: Seq<MountOption>, option: MountOption, flag: u64)
    requires
        option_flag(option) == flag,
        flag == 1 || flag == 2 || flag == 4 || flag == 8 || flag == 16 || flag == 128 || flag
            == 1024,
        option is RO || option is NoSuid || option is NoDev || option is NoExec || option is Sync
            || option is DirSync || option is NoAtime,
    ensures
        option_flags(options) & flag == (if options.contains(option) {
            flag
        } else {
            0
        }),
    decreases options.len(),
{
    if options.len() == 0 {
        assert(0u64 & flag == 0) by (bit_vector);
    } else {
        let front = options.drop_last();
        lemma_one_flag(front, option, flag);
        let x = option_flags(front);
        let f = option_flag(options.last());
        assert((x | f) & flag == (if f == flag {
            flag
        } else {
            x & flag
        })) by (bit_vector)
            requires
                flag == 1 || flag == 2 || flag == 4 || flag == 8 || flag == 16 || flag == 128
                    || flag
                    == 1024,
                f == 0 || f == 1 || f == 2 || f == 4 || f == 8 || f == 16 || f == 128 || f == 1024,
        ;
        assert((f == flag) == (options.last() == option));
        if front.contains(option) {
            let k = choose|k: int| 0 <= k < front.len() && front[k] == option;
            assert(options[k] == option);
        }
        if options.last() == option {
            assert(options[options.len() - 1] == option);
        }
        if options.contains(option) && options.last() != option {
            let k = choose|k: int| 0 <= k < options.len() && options[k] == option;
            assert(front[k] == option);
        }
    }
}

/// The options set no other flags.
proof fn lemma_no_other_flags(options: Seq<MountOption>)
    ensures
        option_flags(options) & !0x49f == 0,
    decreases options.len(),
{
    if options.len() == 0 {
        assert(0u64 & !0x49f == 0) by (bit_vector);
    } else {
        lemma_no_other_flags(options.drop_last());
        let x = option_flags(options.drop_last());
        let f = option_flag(options.last());
        assert((x | f) & !0x49f == 0) by (bit_vector)
            requires
                x & !0x49f == 0,
                f == 0 || f == 1 || f == 2 || f == 4 || f == 8 || f == 16 || f == 128 || f == 1024,
        ;
    }
}

/// The flags of the system call are those of the options that are given, by the numbers that the
/// kernel knows: read-only 1, no set-user-id bits 2, no devices 4, no execution 8, synchronous 16,
/// directories synchronous 128, no access times 1024. No devices and no set-user-id bits are on
/// unless the mounter is trusted and asks for them without declining them.
pub proof fn lemma_mount_flags_say(options: &[MountOption], trusted: bool, r: u64)
    requires
        call_ensures(mount_flags, (options, trusted), r),
    ensures
        (r & 1 != 0) <==> options@.contains(MountOption::RO),
        (r & 2 != 0) <==> !trusted || !options@.contains(MountOption::Suid) || options@.contains(
            MountOption::NoSuid,
        ),
        (r & 4 != 0) <==> !trusted || !options@.contains(MountOption::Dev) || options@.contains(
            MountOption::NoDev,
        ),
        (r & 8 != 0) <==> options@.contains(MountOption::NoExec),
        (r & 16 != 0) <==> options@.contains(MountOption::Sync),
        (r & 128 != 0) <==> options@.contains(MountOption::DirSync),
        (r & 1024 != 0) <==> options@.contains(MountOption::NoAtime),
        r & !0x49f == 0,
{
    let list = options@;
    lemma_one_flag(list, MountOption::RO, 1);
    lemma_one_flag(list, MountOption::NoSuid, 2);
    lemma_one_flag(list, MountOption::NoDev, 4);
    lemma_one_flag(list, MountOption::NoExec, 8);
    lemma_one_flag(list, MountOption::Sync, 16);
    lemma_one_flag(list, MountOption::DirSync, 128);
    lemma_one_flag(list, MountOption::NoAtime, 1024);
    lemma_no_other_flags(list);
    if has_dev(list) {
        let i = choose|i: int| 0 <= i < list.len() && #[trigger] list[i] is Dev;
        assert(list[i] == MountOption::Dev);
    }
    if has_suid(list) {
        let i = choose|i: int| 0 <= i < list.len() && #[trigger] list[i] is Suid;
        assert(list[i] == MountOption::Suid);
    }
    if list.contains(MountOption::Dev) {
        let i = choose|i: int| 0 <= i < list.len() && list[i] == MountOption::Dev;
        assert(list[i] is Dev);
    }
    if list.contains(MountOption::Suid) {
        let i = choose|i: int| 0 <= i < list.len() && list[i] == MountOption::Suid;
        assert(list[i] is Suid);
    }
    let own = option_flags(list);
    let dev = if trusted && has_dev(list) {
        0u64
    } else {
        4u64
    };
    let suid = if trusted && has_suid(list) {
        0u64
    } else {
        2u64
    };
    assert(r == (dev | suid) | own);
    assert({
        &&& ((dev | suid) | own) & 1 == own & 1
        &&& (((dev | suid) | own) & 2 != 0) == (suid == 2 || own & 2 != 0)
        &&& (((dev | suid) | own) & 4 != 0) == (dev == 4 || own & 4 != 0)
        &&& ((dev | suid) | own) & 8 == own & 8
        &&& ((dev | suid) | own) & 16 == own & 16
        &&& ((dev | suid) | own) & 128 == own & 128
        &&& ((dev | suid) | own) & 1024 == own & 1024
        &&& ((dev | suid) | own) & !0x49f == own & !0x49f
    }) by (bit_vector)
        requires
            dev == 0 || dev == 4,
            suid == 0 || suid == 2,
    ;
}

/// What a mount is told of the device, the mountpoint and who mounts, in the words of the kernel.
pub proof fn lemma_ids_are_written(ids: MountIds, user: String, full: String)
    requires
        call_ensures(MountIds::user_string, (&ids,), user),
        call_ensures(MountIds::full_string, (&ids,), full),
    ensures
        user@ == "fd="@ + decimal(ids.fd as int) + ",rootmode="@ + digits(ids.root_mode as nat, 8)
            + ",user_id="@ + decimal(ids.uid as int),
        full@ == user@ + ",group_id="@ + decimal(ids.gid as int),
{
}

/// The last name of the source is one that is given, with none behind it, and there is none where
/// none is given.
pub proof fn lemma_last_fsname_is_last(options: Seq<MountOption>)
    ensures
        match last_fsname(options) {
            Some(name) => exists|i: int|
                0 <= i < options.len() && (#[trigger] options[i] matches MountOption::FSName(v)
                    && v@
                    == name) && forall|k: int| i < k < options.len() ==> !(options[k] is FSName),
            None => forall|k: int| 0 <= k < options.len() ==> !(#[trigger] options[k] is FSName),
        },
    decreases options.len(),
{
    if options.len() > 0 {
        let front = options.drop_last();
        lemma_last_fsname_is_last(front);
        assert forall|k: int| 0 <= k < front.len() implies front[k] == options[k] by {
        }
        if options.last() is FSName {
            assert(options[options.len() - 1] is FSName);
        } else if last_fsname(front) is Some {
            let i = choose|i: int|
                0 <= i < front.len() && (#[trigger] front[i] matches MountOption::FSName(v) && v@
                    == last_fsname(front)->0) && forall|k: int|
                    i < k < front.len() ==> !(front[k] is FSName);
            assert(options[i] == front[i]);
            assert forall|k: int| i < k < options.len() implies !(options[k] is FSName) by {
                if k < front.len() {
                    assert(front[k] == options[k]);
                }
            }
        } else {
            assert forall|k: int| 0 <= k < options.len() implies !(#[trigger] options[k] is FSName) by {
                if k < front.len() {
                    assert(!(front[k] is FSName));
                }
            }
        }
    }
}

/// The last subtype is one that is given, with none behind it, and there is none where none is
/// given.
pub proof fn lemma_last_subtype_is_last(options: Seq<MountOption>)
    ensures
        match last_subtype(options) {
            Some(name) => exists|i: int|
                0 <= i < options.len() && (#[trigger] options[i] matches MountOption::Subtype(v)
                    && v@
                    == name) && forall|k: int| i < k < options.len() ==> !(options[k] is Subtype),
            None => forall|k: int| 0 <= k < options.len() ==> !(#[trigger] options[k] is Subtype),
        },
    decreases options.len(),
{
    if options.len() > 0 {
        let front = options.drop_last();
        lemma_last_subtype_is_last(front);
        assert forall|k: int| 0 <= k < front.len() implies front[k] == options[k] by {
        }
        if options.last() is Subtype {
            assert(options[options.len() - 1] is Subtype);
        } else if last_subtype(front) is Some {
            let i = choose|i: int|
                0 <= i < front.len() && (#[trigger] front[i] matches MountOption::Subtype(v) && v@
                    == last_subtype(front)->0) && forall|k: int|
                    i < k < front.len() ==> !(front[k] is Subtype);
            assert(options[i] == front[i]);
            assert forall|k: int| i < k < options.len() implies !(options[k] is Subtype) by {
                if k < front.len() {
                    assert(front[k] == options[k]);
                }
            }
        } else {
            assert forall|k: int| 0 <= k < options.len() implies !(
            #[trigger] options[k] is Subtype) by {
                if k < front.len() {
                    assert(!(front[k] is Subtype));
                }
            }
        }
    }
}

/// The first name of the source is one that is given, with none before it, and there is none where
/// none is given.
pub proof fn lemma_first_fsname_is_first(options: Seq<MountOption>)
    ensures
        match first_fsname(options) {
            Some(name) => exists|i: int|
                0 <= i < options.len() && (#[trigger] options[i] matches MountOption::FSName(v)
                    && v@
                    == name) && forall|k: int| 0 <= k < i ==> !(options[k] is FSName),
            None => forall|k: int| 0 <= k < options.len() ==> !(#[trigger] options[k] is FSName),
        },
    decreases options.len(),
{
    if options.len() > 0 {
        let rest = options.skip(1);
        lemma_first_fsname_is_first(rest);
        assert forall|k: int| 0 <= k < rest.len() implies rest[k] == options[k + 1] by {
        }
        if options[0] is FSName {
        } else if first_fsname(rest) is Some {
            let i = choose|i: int|
                0 <= i < rest.len() && (#[trigger] rest[i] matches MountOption::FSName(v) && v@
                    == first_fsname(rest)->0) && forall|k: int| 0 <= k < i ==> !(rest[k] is FSName);
            assert(options[i + 1] == rest[i]);
            assert forall|k: int| 0 <= k < i + 1 implies !(options[k] is FSName) by {
                if k > 0 {
                    assert(rest[k - 1] == options[k]);
                }
            }
        } else {
            assert forall|k: int| 0 <= k < options.len() implies !(#[trigger] options[k] is FSName) by {
                if k > 0 {
                    assert(!(rest[k - 1] is FSName));
                }
            }
        }
    }
}

/// The first subtype is one that is given, with none before it, and there is none where none is
/// given.
pub proof fn lemma_first_subtype_is_first(options: Seq<MountOption>)
    ensures
        match first_subtype(options) {
            Some(name) => exists|i: int|
                0 <= i < options.len() && (#[trigger] options[i] matches MountOption::Subtype(v)
                    && v@
                    == name) && forall|k: int| 0 <= k < i ==> !(options[k] is Subtype),
            None => forall|k: int| 0 <= k < options.len() ==> !(#[trigger] options[k] is Subtype),
        },
    decreases options.len(),
{
    if options.len() > 0 {
        let rest = options.skip(1);
        lemma_first_subtype_is_first(rest);
        assert forall|k: int| 0 <= k < rest.len() implies rest[k] == options[k + 1] by {
        }
        if options[0] is Subtype {
        } else if first_subtype(rest) is Some {
            let i = choose|i: int|
                0 <= i < rest.len() && (#[trigger] rest[i] matches MountOption::Subtype(v) && v@
                    == first_subtype(rest)->0) && forall|k: int| 0 <= k < i
                        ==> !(rest[k] is Subtype);
            assert(options[i + 1] == rest[i]);
            assert forall|k: int| 0 <= k < i + 1 implies !(options[k] is Subtype) by {
                if k > 0 {
                    assert(rest[k - 1] == options[k]);
                }
            }
        } else {
            assert forall|k: int| 0 <= k < options.len() implies !(#[trigger] options[k] is Subtype) by {
                if k > 0 {
                    assert(!(rest[k - 1] is Subtype));
                }
            }
        }
    }
}

/// What the kernel is told of two lists of options one behind the other is what it is told of each,
/// in that order.
pub proof fn lemma_told_in_order(a: Seq<MountOption>, b: Seq<MountOption>)
    ensures
        leading_options(a + b) == leading_options(a) + leading_options(b),
        trailing_options(a + b) == trailing_options(a) + trailing_options(b),
    decreases b.len(),
{
    if b.len() == 0 {
        assert(a + b =~= a);
        assert(leading_options(a) + leading_options(b) =~= leading_options(a));
        assert(trailing_options(a) + trailing_options(b) =~= trailing_options(a));
    } else {
        let front = b.drop_last();
        lemma_told_in_order(a, front);
        assert((a + b).drop_last() =~= a + front);
        assert((a + b).last() == b.last());
        assert(leading_options(a + b) =~= leading_options(a) + leading_options(b));
        assert(trailing_options(a + b) =~= trailing_options(a) + trailing_options(b));
    }
}

/// What the kernel is told of one option: the option as it is written, with a comma behind it or
/// before it; of one that is not for the kernel, nothing.
pub proof fn lemma_told_of_one(option: MountOption)
    ensures
        spec_option_group(option) is KernelOption ==> leading_options(seq![option]) == option_text(
            option,
        ).push(',') && trailing_options(seq![option]) == seq![','] + option_text(option),
        !(spec_option_group(option) is KernelOption) ==> leading_options(seq![option]).len() == 0
            && trailing_options(seq![option]).len() == 0,
{
    let one = seq![option];
    assert(one.drop_last() =~= Seq::<MountOption>::empty());
    assert(leading_options(one.drop_last()) =~= Seq::<char>::empty());
    assert(trailing_options(one.drop_last()) =~= Seq::<char>::empty());
    assert(one.last() == option);
    if spec_option_group(option) is KernelOption {
        assert(leading_options(one) =~= option_text(option).push(','));
        assert(trailing_options(one) =~= seq![','] + option_text(option));
    }
}

} // verus!
