//! What can be configured of the connection to the kernel.

use fuser::ids::Version;
use fuser::kernel_config::{
    default_init_flags, KernelConfig, SessionACL, INIT_FLAGS, MAX_WRITE_SIZE, MIN_WRITE_SIZE,
    UNSUPPORTED_CAPABILITIES,
};
use fuser::ll::flags::init_flags::InitFlags;
use fuser::time::Duration;

fn flags(bits: u64) -> InitFlags {
    InitFlags::from_bits_retain(bits)
}

#[test]
fn kernel_config_set_max_write_bounds() {
    let mut config = KernelConfig::new(
        InitFlags::empty(),
        65536,
        Version(7, 31),
        true,
        SessionACL::All,
    );
    // Values the kernel would not honor (it clamps max_write below 4096 up
    // to 4096) are rejected with the nearest value that will take effect
    assert_eq!(config.set_max_write(0), Err(MIN_WRITE_SIZE));
    assert_eq!(config.set_max_write(MIN_WRITE_SIZE - 1), Err(MIN_WRITE_SIZE));
    // Values beyond the session's read buffer are rejected likewise
    assert_eq!(config.set_max_write(MAX_WRITE_SIZE + 1), Err(MAX_WRITE_SIZE));
    // Rejected calls must leave the configured value unchanged
    assert_eq!(config.max_write, MAX_WRITE_SIZE);
    // Both bounds themselves are accepted, returning the previous value
    assert_eq!(config.set_max_write(MIN_WRITE_SIZE), Ok(MAX_WRITE_SIZE));
    assert_eq!(config.set_max_write(MAX_WRITE_SIZE), Ok(MIN_WRITE_SIZE));
}

/// FUSE_ALLOW_IDMAP is refused unless the mount can carry it, since the kernel refuses
/// the connection without default_permissions and an owner-only ACL cannot be enforced
/// once the caller's ids are withheld
#[test]
fn add_capabilities_idmap_needs_default_permissions_and_allow_other() {
    let cases = [
        (true, SessionACL::All, true),
        (false, SessionACL::All, false),
        (true, SessionACL::Owner, false),
        (true, SessionACL::RootAndOwner, false),
        (false, SessionACL::Owner, false),
    ];
    for (default_permissions, acl, accepted) in cases {
        let mut config = KernelConfig::new(
            InitFlags::all(),
            65536,
            Version(7, 43),
            default_permissions,
            acl,
        );
        let result = config.add_capabilities(flags(InitFlags::FUSE_ALLOW_IDMAP));
        assert_eq!(
            result.is_ok(),
            accepted,
            "default_permissions={default_permissions} acl={acl:?} should {} the capability",
            if accepted { "accept" } else { "refuse" }
        );
        if !accepted {
            assert_eq!(result, Err(flags(InitFlags::FUSE_ALLOW_IDMAP)));
            assert!(!config.requested.contains(InitFlags::FUSE_ALLOW_IDMAP));
        } else {
            assert!(config.requested.contains(InitFlags::FUSE_ALLOW_IDMAP));
        }
    }
}

/// Negotiating POSIX ACLs puts default_permissions in force just as the mount option does,
/// the kernel setting it from that flag before it validates this one, so it satisfies the
/// requirement on its own - but only where the kernel offers it, since a capability it
/// does not offer is dropped from the negotiated set and sets nothing
#[test]
fn add_capabilities_idmap_accepts_posix_acl_for_default_permissions() {
    // Both in one call
    let mut config = KernelConfig::new(
        InitFlags::all(),
        65536,
        Version(7, 43),
        false,
        SessionACL::All,
    );
    assert_eq!(
        config.add_capabilities(flags(InitFlags::FUSE_POSIX_ACL | InitFlags::FUSE_ALLOW_IDMAP)),
        Ok(())
    );

    // ACLs asked for first, in an earlier call
    let mut config = KernelConfig::new(
        InitFlags::all(),
        65536,
        Version(7, 43),
        false,
        SessionACL::All,
    );
    assert_eq!(config.add_capabilities(flags(InitFlags::FUSE_POSIX_ACL)), Ok(()));
    assert_eq!(config.add_capabilities(flags(InitFlags::FUSE_ALLOW_IDMAP)), Ok(()));

    // A kernel without POSIX ACLs would drop them, leaving nothing to force
    // default_permissions and a connection the kernel would refuse
    let mut config = KernelConfig::new(
        InitFlags::all().intersection(flags(InitFlags::FUSE_POSIX_ACL).complement()),
        65536,
        Version(7, 43),
        false,
        SessionACL::All,
    );
    assert_eq!(
        config.add_capabilities(flags(InitFlags::FUSE_POSIX_ACL | InitFlags::FUSE_ALLOW_IDMAP)),
        Err(flags(InitFlags::FUSE_POSIX_ACL | InitFlags::FUSE_ALLOW_IDMAP))
    );

    // Neither one on its own is enough without allow_other
    let mut config = KernelConfig::new(
        InitFlags::all(),
        65536,
        Version(7, 43),
        false,
        SessionACL::Owner,
    );
    assert_eq!(
        config.add_capabilities(flags(InitFlags::FUSE_POSIX_ACL | InitFlags::FUSE_ALLOW_IDMAP)),
        Err(flags(InitFlags::FUSE_ALLOW_IDMAP))
    );
}

/// A kernel that does not offer it cannot have it forced on, whatever the mount looks like
#[test]
fn add_capabilities_idmap_needs_the_kernel_to_offer_it() {
    let mut config = KernelConfig::new(
        InitFlags::all().intersection(flags(InitFlags::FUSE_ALLOW_IDMAP).complement()),
        65536,
        Version(7, 43),
        true,
        SessionACL::All,
    );
    assert_eq!(
        config.add_capabilities(flags(InitFlags::FUSE_ALLOW_IDMAP)),
        Err(flags(InitFlags::FUSE_ALLOW_IDMAP))
    );
}

#[test]
fn add_capabilities_refuses_unimplemented() {
    // A kernel advertising everything, so only the library's own limits can refuse anything
    let mut config = KernelConfig::new(
        InitFlags::all(),
        65536,
        Version(7, 43),
        true,
        SessionACL::All,
    );
    let before = config.requested;
    let mut refused = 0;
    for bit in 0..64 {
        let capability = flags(UNSUPPORTED_CAPABILITIES & (1 << bit));
        if !capability.is_empty() {
            assert_eq!(config.add_capabilities(capability), Err(capability));
            refused += 1;
        }
    }
    assert_eq!(refused, 8);
    // Now that setattr, open and create carry kill_suid_gid, this one is honored rather
    // than refused, and must not drift back into the refused set
    assert_eq!(
        config.add_capabilities(flags(InitFlags::FUSE_HANDLE_KILLPRIV_V2)),
        Ok(())
    );
    // A capability that is implemented is still accepted from the same kernel
    assert_eq!(config.add_capabilities(flags(InitFlags::FUSE_POSIX_ACL)), Ok(()));
    assert_eq!(
        config.requested,
        before.union(flags(InitFlags::FUSE_HANDLE_KILLPRIV_V2 | InitFlags::FUSE_POSIX_ACL))
    );
}

#[test]
fn refused_capabilities_are_never_requested_by_default() {
    // Refusing a bit that is requested all the same would be incoherent, so the two sets must
    // stay disjoint
    assert!(flags(UNSUPPORTED_CAPABILITIES).intersection(flags(INIT_FLAGS)).is_empty());
}

#[test]
fn add_capabilities_refuses_all_or_nothing() {
    // Advertise everything except one capability that is implemented
    let capabilities = InitFlags::all().difference(flags(InitFlags::FUSE_POSIX_ACL));
    let mut config = KernelConfig::new(capabilities, 65536, Version(7, 43), true, SessionACL::All);
    let before = config.requested;
    // Both reasons for refusing are reported together, and a capability that would have
    // been accepted on its own is not added
    assert_eq!(
        config.add_capabilities(flags(
            InitFlags::FUSE_POSIX_ACL | InitFlags::FUSE_SECURITY_CTX | InitFlags::FUSE_ASYNC_DIO
        )),
        Err(flags(InitFlags::FUSE_POSIX_ACL | InitFlags::FUSE_SECURITY_CTX))
    );
    assert_eq!(config.requested, before);
}

fn config() -> KernelConfig {
    KernelConfig::new(InitFlags::all(), 65536, Version(7, 43), true, SessionACL::All)
}

#[test]
fn max_pages_is_requested_where_it_is_offered() {
    assert_eq!(default_init_flags(InitFlags::empty()).bits(), INIT_FLAGS);
    assert_eq!(
        default_init_flags(flags(InitFlags::FUSE_MAX_PAGES)).bits(),
        INIT_FLAGS | InitFlags::FUSE_MAX_PAGES
    );
}

#[test]
fn stack_depth_has_a_maximum() {
    let mut config = config();
    assert_eq!(config.set_max_stack_depth(3), Err(2));
    assert_eq!(config.set_max_stack_depth(2), Ok(0));
    assert_eq!(config.set_max_stack_depth(1), Ok(2));
}

#[test]
fn time_granularity_is_a_power_of_ten() {
    let mut config = config();
    assert_eq!(config.set_time_granularity(Duration::new(0, 0)), Err(Duration::new(0, 1)));
    assert_eq!(config.set_time_granularity(Duration::new(1, 1)), Err(Duration::new(1, 0)));
    assert_eq!(config.set_time_granularity(Duration::new(2, 0)), Err(Duration::new(1, 0)));
    assert_eq!(config.set_time_granularity(Duration::new(0, 9)), Err(Duration::new(0, 10)));
    assert_eq!(config.set_time_granularity(Duration::new(0, 3)), Err(Duration::new(0, 1)));
    assert_eq!(config.set_time_granularity(Duration::new(0, 550)), Err(Duration::new(0, 100)));
    assert_eq!(
        config.set_time_granularity(Duration::new(0, 999_999_999)),
        Err(Duration::new(1, 0))
    );
    assert_eq!(config.set_time_granularity(Duration::new(0, 150)), Err(Duration::new(0, 100)));
    assert_eq!(config.set_time_granularity(Duration::new(0, 100)), Ok(Duration::new(0, 1)));
    assert_eq!(config.set_time_granularity(Duration::new(1, 0)), Ok(Duration::new(0, 100)));
}

#[test]
fn readahead_is_bounded_by_the_kernel() {
    let mut config = config();
    assert_eq!(config.set_max_readahead(0), Err(1));
    assert_eq!(config.set_max_readahead(65537), Err(65536));
    assert_eq!(config.set_max_readahead(1), Ok(65536));
    // the bound is that of the kernel, not the last value
    assert_eq!(config.set_max_readahead(65536), Ok(1));
}

#[test]
fn capabilities_leave_out_the_extension_bit() {
    let config = config();
    assert!(!config.capabilities().contains(InitFlags::FUSE_INIT_EXT));
    assert!(config.capabilities().contains(InitFlags::FUSE_POSIX_ACL));
    assert_eq!(config.kernel_abi(), Version(7, 43));
}

#[test]
fn background_and_congestion_threshold() {
    let mut config = config();
    assert_eq!(config.set_max_background(0), Err(1));
    assert_eq!(config.congestion_threshold(), 12);
    assert_eq!(config.set_max_background(65535), Ok(16));
    assert_eq!(config.congestion_threshold(), 49151);
    assert_eq!(config.set_congestion_threshold(0), Err(1));
    assert_eq!(config.set_congestion_threshold(20), Ok(49151));
    assert_eq!(config.set_max_background(10), Ok(65535));
    assert_eq!(config.congestion_threshold(), 10);
}

#[test]
fn pages_cover_the_larger_of_write_and_readahead() {
    let mut config = config();
    assert_eq!(config.set_max_write(4097), Ok(MAX_WRITE_SIZE));
    assert_eq!(config.max_pages_at(4096), Some(16));
    assert_eq!(config.set_max_readahead(1), Ok(65536));
    assert_eq!(config.max_pages_at(4096), Some(2));
    // where nothing can be counted
    assert_eq!(config.max_pages_at(0), None);
    assert_eq!(config.set_max_write(65536), Ok(4097));
    assert_eq!(config.max_pages_at(1), None);
    assert_eq!(config.max_pages_at(2), Some(32768));
    assert_eq!(config.set_max_write(4097), Ok(65536));
    // the page size of the machine is a power of two of at least that size
    let pages = config.max_pages().unwrap();
    assert!(pages == 1 || pages == 2);
}

#[test]
fn the_default_acl_is_the_owner() {
    assert_eq!(SessionACL::default(), SessionACL::Owner);
}

#[test]
fn init_flags_are_sent_in_two_words() {
    assert_eq!(flags(0x1_0000_0002).pair(), (2, 1));
}
