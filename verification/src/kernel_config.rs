//! What a filesystem agrees on with the kernel when a session starts.

use vstd::prelude::*;

use crate::ids::Version;
use crate::ll::flags::init_flags::InitFlags;
use crate::time::Duration;

verus! {

/// Which users a session lets in.
#[derive(Clone, Copy, Debug, PartialEq, Eq, Structural)]
pub enum SessionACL {
    /// Every user.
    All,
    /// The user that mounted the filesystem, and root.
    RootAndOwner,
    /// The user that mounted the filesystem.
    Owner,
}

impl Default for SessionACL {
    /// Only the user that mounted the filesystem.
    fn default() -> (r: SessionACL)
        ensures
            r == SessionACL::Owner,
    {
        SessionACL::Owner
    }
}

/// The least write size that the kernel honors.
pub const MIN_WRITE_SIZE: u32 = 4096;

/// The largest write size that fits the buffer of a session.
pub const MAX_WRITE_SIZE: u32 = 16_777_216;

/// The deepest stack of filesystems that the kernel allows.
pub const FILESYSTEM_MAX_STACK_DEPTH: u32 = 2;

/// We generally support async reads
pub const INIT_FLAGS: u64 = InitFlags::FUSE_ASYNC_READ | InitFlags::FUSE_BIG_WRITES;

/// The value that the user and group id of a request have when the kernel withheld the caller's
/// ids, which it does on an idmapped mount for every request that does not create an inode.
pub const FUSE_INVALID_UIDGID: u32 = 0xffff_ffff;

/// Capabilities that nothing here stands behind, whatever the kernel advertises.
///
/// Negotiating one of these makes the kernel change the protocol in a way that is not followed, or
/// claims a feature that is not provided. Since the negotiated set is only ever echoed back to
/// the kernel, such a capability fails silently rather than loudly, so
/// `KernelConfig::add_capabilities` refuses them up front.
///
/// - Marking a submount root needs a flag of an inode's attributes that is sent as padding.
/// - The map alignment is read from a field of the reply that is left zero.
/// - The security context and the supplementary groups follow the name of a request, where
///   parsing stops.
/// - Selecting direct access per inode needs a flag of an inode's attributes that is sent as
///   padding.
/// - There are no `io_uring` queues to which requests could be routed.
/// - Nothing asks the kernel to send requests again.
/// - The request timeout is a field of the reply that is sent as zero.
pub const UNSUPPORTED_CAPABILITIES: u64 = InitFlags::FUSE_SUBMOUNTS | InitFlags::FUSE_MAP_ALIGNMENT
    | InitFlags::FUSE_SECURITY_CTX | InitFlags::FUSE_CREATE_SUPP_GROUP
    | InitFlags::FUSE_HAS_INODE_DAX | InitFlags::FUSE_OVER_IO_URING | InitFlags::FUSE_HAS_RESEND
    | InitFlags::FUSE_REQUEST_TIMEOUT;

/// What is requested of every kernel: the general flags, and large requests where they are offered.
pub fn default_init_flags(capabilities: InitFlags) -> (r: InitFlags)
    ensures
        r.bits == (if capabilities.bits & InitFlags::FUSE_MAX_PAGES == InitFlags::FUSE_MAX_PAGES {
            INIT_FLAGS | InitFlags::FUSE_MAX_PAGES
        } else {
            INIT_FLAGS
        }),
{
    let mut flags = InitFlags::from_bits_retain(INIT_FLAGS);
    if capabilities.contains(InitFlags::FUSE_MAX_PAGES) {
        flags = flags.union(InitFlags::from_bits_retain(InitFlags::FUSE_MAX_PAGES));
    }
    flags
}

/// Nothing that is refused is requested by default, whatever the kernel offers.
pub proof fn lemma_defaults_are_supported(capabilities: InitFlags, requested: InitFlags)
    requires
        requested.bits == (if capabilities.bits & InitFlags::FUSE_MAX_PAGES
            == InitFlags::FUSE_MAX_PAGES {
            INIT_FLAGS | InitFlags::FUSE_MAX_PAGES
        } else {
            INIT_FLAGS
        }),
    ensures
        requested.bits & UNSUPPORTED_CAPABILITIES == 0,
        requested.bits & InitFlags::FUSE_ALLOW_IDMAP == 0,
{
    assert({
        &&& INIT_FLAGS & UNSUPPORTED_CAPABILITIES == 0
        &&& (INIT_FLAGS | InitFlags::FUSE_MAX_PAGES) & UNSUPPORTED_CAPABILITIES == 0
        &&& INIT_FLAGS & InitFlags::FUSE_ALLOW_IDMAP == 0
        &&& (INIT_FLAGS | InitFlags::FUSE_MAX_PAGES) & InitFlags::FUSE_ALLOW_IDMAP == 0
    }) by (bit_vector);
}

/// `page_size::get`: the size of a memory page of this machine. What the number is depends on the
/// machine, so nothing is said of it.
#[verifier::external_body]
fn page_size() -> usize {
    page_size::get()
}

/// Whether asking for the page size of this machine may give `size`.
pub closed spec fn may_be_page_size(size: usize) -> bool {
    call_ensures(page_size, (), size)
}

/// Whether `n` nanoseconds are a power of ten of them, up to a second.
pub open spec fn is_granularity(n: nat) -> bool {
    n == 1 || n == 10 || n == 100 || n == 1_000 || n == 10_000 || n == 100_000 || n == 1_000_000
        || n == 10_000_000 || n == 100_000_000 || n == 1_000_000_000
}

/// The distance between two numbers.
pub open spec fn distance(a: int, b: int) -> int {
    if a <= b {
        b - a
    } else {
        a - b
    }
}

/// Configuration of the fuse kernel module connection
#[derive(Clone, Copy, Debug, PartialEq, Eq, Structural)]
pub struct KernelConfig {
    pub capabilities: InitFlags,
    pub requested: InitFlags,
    pub max_readahead: u32,
    pub max_max_readahead: u32,
    pub max_background: u16,
    pub congestion_threshold: Option<u16>,
    pub max_write: u32,
    pub time_gran: Duration,
    pub max_stack_depth: u32,
    pub kernel_abi: Version,
    /// Whether the mount carries `MountOption::DefaultPermissions`, which
    /// `InitFlags::FUSE_ALLOW_IDMAP` cannot be negotiated without
    pub default_permissions: bool,
    /// The session's ACL, for the same reason
    pub acl: SessionACL,
}

impl KernelConfig {
    /// The configuration is one that the kernel honors.
    pub open spec fn wf(self) -> bool {
        &&& self.requested.bits & UNSUPPORTED_CAPABILITIES == 0
        &&& self.requested.bits & InitFlags::FUSE_ALLOW_IDMAP == InitFlags::FUSE_ALLOW_IDMAP
            ==> self.spec_idmap_available(0)
        &&& self.max_readahead <= self.max_max_readahead
        &&& 1 <= self.max_background
        &&& self.congestion_threshold matches Some(value) ==> 1 <= value
        &&& MIN_WRITE_SIZE <= self.max_write <= MAX_WRITE_SIZE
        &&& self.time_gran.wf()
        &&& is_granularity(self.time_gran.spec_nanos())
        &&& self.max_stack_depth <= FILESYSTEM_MAX_STACK_DEPTH
    }

    /// The configuration that a session starts with.
    pub fn new(
        capabilities: InitFlags,
        max_readahead: u32,
        kernel_abi: Version,
        default_permissions: bool,
        acl: SessionACL,
    ) -> (r: KernelConfig)
        ensures
            r.wf(),
            r.capabilities == capabilities,
            r.requested.bits == (if capabilities.bits & InitFlags::FUSE_MAX_PAGES
                == InitFlags::FUSE_MAX_PAGES {
                INIT_FLAGS | InitFlags::FUSE_MAX_PAGES
            } else {
                INIT_FLAGS
            }),
            r.max_readahead == max_readahead,
            r.max_max_readahead == max_readahead,
            r.max_background == 16,
            r.congestion_threshold is None,
            r.max_write == MAX_WRITE_SIZE,
            r.time_gran == (Duration { secs: 0, nanos: 1 }),
            r.max_stack_depth == 0,
            r.kernel_abi == kernel_abi,
            r.default_permissions == default_permissions,
            r.acl == acl,
    {
        let requested = default_init_flags(capabilities);
        proof {
            lemma_defaults_are_supported(capabilities, requested);
            assert(InitFlags::FUSE_ALLOW_IDMAP != 0);
        }
        KernelConfig {
            capabilities,
            requested,
            max_readahead,
            max_max_readahead: max_readahead,
            max_background: 16,
            congestion_threshold: None,
            // use a max write size that fits into the session's buffer
            max_write: MAX_WRITE_SIZE,
            // 1ns means nano-second granularity.
            time_gran: Duration::new(0, 1),
            max_stack_depth: 0,
            kernel_abi,
            default_permissions,
            acl,
        }
    }

    /// Whether `InitFlags::FUSE_ALLOW_IDMAP` can be negotiated: other users are let in, and
    /// `default_permissions` is in force, by the mount option or because POSIX ACLs are asked for
    /// and offered.
    pub open spec fn spec_idmap_available(self, also_adding: u64) -> bool {
        &&& self.acl == SessionACL::All
        &&& self.default_permissions || (self.requested.bits | also_adding)
            & self.capabilities.bits & InitFlags::FUSE_POSIX_ACL == InitFlags::FUSE_POSIX_ACL
    }

    /// Whether `InitFlags::FUSE_ALLOW_IDMAP` can be negotiated on this mount, given the
    /// capabilities being added alongside it.
    ///
    /// Two things have to hold. The kernel needs something to
    /// check access against, since it withholds the caller's ids from the filesystem: it
    /// refuses the connection outright unless
    /// `default_permissions` is in force. The mount option is one way to put it in force and
    /// `InitFlags::FUSE_POSIX_ACL` is the other, the kernel setting it from that flag before
    /// it looks at this one.
    ///
    /// And once the ids are withheld the mounting user's requests cannot be told from
    /// anyone else's, so `SessionACL::Owner` and `SessionACL::RootAndOwner` could not be
    /// enforced; refusing is better than continuing to offer a restriction that has quietly
    /// stopped applying.
    pub fn idmap_available(&self, also_adding: InitFlags) -> (r: bool)
        ensures
            r == self.spec_idmap_available(also_adding.bits),
    {
        // Requesting POSIX ACLs only counts if the kernel offers them, since a capability it
        // does not offer is dropped from the negotiated set and sets nothing
        let acl_forces_default_permissions = self.requested.union(also_adding).intersection(
            self.capabilities,
        ).contains(InitFlags::FUSE_POSIX_ACL);
        (self.default_permissions || acl_forces_default_permissions) && self.acl == SessionACL::All
    }

    /// Set the maximum stacking depth of the filesystem
    ///
    /// This has to be at least 1 to support passthrough to backing files.  Setting this to 0 (the
    /// default) effectively disables support for passthrough.
    ///
    /// With `max_stack_depth` > 1, the backing files can be on a stacked fs (e.g. overlayfs)
    /// themselves and with `max_stack_depth` == 1, this FUSE filesystem can be stacked as the
    /// underlying fs of a stacked fs (e.g. overlayfs).
    ///
    /// On success, returns the previous value. If the argument is too large, returns the nearest
    /// value which will succeed.
    pub fn set_max_stack_depth(&mut self, value: u32) -> (r: Result<u32, u32>)
        ensures
            match r {
                Ok(previous) => {
                    &&& value <= FILESYSTEM_MAX_STACK_DEPTH
                    &&& previous == old(self).max_stack_depth
                    &&& *final(self) == (KernelConfig { max_stack_depth: value, ..*old(self) })
                },
                Err(nearest) => {
                    &&& value > FILESYSTEM_MAX_STACK_DEPTH
                    &&& nearest == FILESYSTEM_MAX_STACK_DEPTH
                    &&& *final(self) == *old(self)
                },
            },
            old(self).wf() ==> final(self).wf(),
    {
        if value > FILESYSTEM_MAX_STACK_DEPTH {
            return Err(FILESYSTEM_MAX_STACK_DEPTH);
        }
        let previous: u32 = self.max_stack_depth;
        self.max_stack_depth = value;
        Ok(previous)
    }

    /// Set the timestamp granularity
    ///
    /// Must be a power of 10 nanoseconds. i.e. 1s, 0.1s, 0.01s, 1ms, 0.1ms...etc
    ///
    /// On success returns the previous value. If the argument does not match any valid
    /// granularity, returns the nearest value which will succeed; of two that are as near, the
    /// lesser.
    pub fn set_time_granularity(&mut self, value: Duration) -> (r: Result<Duration, Duration>)
        requires
            value.wf(),
        ensures
            match r {
                Ok(previous) => {
                    &&& is_granularity(value.spec_nanos())
                    &&& previous == old(self).time_gran
                    &&& *final(self) == (KernelConfig { time_gran: value, ..*old(self) })
                },
                Err(near) => {
                    &&& !is_granularity(value.spec_nanos())
                    &&& near.wf()
                    &&& is_granularity(near.spec_nanos())
                    &&& forall|g: nat| #[trigger]
                        is_granularity(g) && g != near.spec_nanos() ==> {
                            let here = distance(value.spec_nanos() as int,
                                near.spec_nanos() as int);
                            let there = distance(value.spec_nanos() as int, g as int);
                            here < there || (here == there && near.spec_nanos() < g)
                        }
                    &&& *final(self) == *old(self)
                },
            },
            old(self).wf() ==> final(self).wf(),
    {
        if value.as_nanos() == 0 {
            return Err(Duration::new(0, 1));
        }
        if value.as_secs() > 1 || (value.as_secs() == 1 && value.subsec_nanos() > 0) {
            return Err(Duration::new(1, 0));
        }
        let nanos: u128 = value.as_nanos();
        let mut power_of_10: u128 = 1;
        while power_of_10 < nanos
            invariant
                nanos == value.spec_nanos(),
                1 <= nanos <= 1_000_000_000,
                is_granularity(power_of_10 as nat),
                power_of_10 <= nanos,
                *self == *old(self),
            decreases nanos - power_of_10,
        {
            if nanos < power_of_10 * 10 {
                // value must not be a power of ten, since power_of_10 < value < power_of_10 * 10
                let nearest: u128 = if power_of_10 * 10 - nanos < nanos - power_of_10 {
                    power_of_10 * 10
                } else {
                    power_of_10
                };
                return Err(Duration::new(0, nearest as u32));
            }
            power_of_10 = power_of_10 * 10;
        }
        let previous = self.time_gran;
        self.time_gran = value;
        Ok(previous)
    }

    /// Set the maximum write size for a single request
    ///
    /// On success returns the previous value. If the argument is too small or too large, returns
    /// the nearest value which will succeed.
    pub fn set_max_write(&mut self, value: u32) -> (r: Result<u32, u32>)
        ensures
            match r {
                Ok(previous) => {
                    &&& MIN_WRITE_SIZE <= value <= MAX_WRITE_SIZE
                    &&& previous == old(self).max_write
                    &&& *final(self) == (KernelConfig { max_write: value, ..*old(self) })
                },
                Err(nearest) => {
                    &&& !(MIN_WRITE_SIZE <= value <= MAX_WRITE_SIZE)
                    &&& nearest == (if value < MIN_WRITE_SIZE {
                        MIN_WRITE_SIZE
                    } else {
                        MAX_WRITE_SIZE
                    })
                    &&& *final(self) == *old(self)
                },
            },
            old(self).wf() ==> final(self).wf(),
    {
        // The kernel clamps max_write below 4096 up to 4096, so a smaller advertised value would
        // not take effect: write requests of up to 4096 bytes would still arrive
        if value < MIN_WRITE_SIZE {
            return Err(MIN_WRITE_SIZE);
        }
        if value > MAX_WRITE_SIZE {
            return Err(MAX_WRITE_SIZE);
        }
        let previous: u32 = self.max_write;
        self.max_write = value;
        Ok(previous)
    }

    /// Set the maximum readahead size
    ///
    /// On success returns the previous value. If the argument is zero or too large, returns the
    /// nearest value which will succeed.
    pub fn set_max_readahead(&mut self, value: u32) -> (r: Result<u32, u32>)
        ensures
            match r {
                Ok(previous) => {
                    &&& 1 <= value <= old(self).max_max_readahead
                    &&& previous == old(self).max_readahead
                    &&& *final(self) == (KernelConfig { max_readahead: value, ..*old(self) })
                },
                Err(nearest) => {
                    &&& !(1 <= value <= old(self).max_max_readahead)
                    &&& nearest == (if value == 0 {
                        1
                    } else {
                        old(self).max_max_readahead
                    })
                    &&& *final(self) == *old(self)
                },
            },
            old(self).wf() ==> final(self).wf(),
    {
        if value == 0 {
            return Err(1);
        }
        if value > self.max_max_readahead {
            return Err(self.max_max_readahead);
        }
        let previous: u32 = self.max_readahead;
        self.max_readahead = value;
        Ok(previous)
    }

    /// Query kernel capabilities: those that have a name, but for the one that says that there is
    /// a second word of them.
    pub fn capabilities(&self) -> (r: InitFlags)
        ensures
            r.bits == self.capabilities.bits & (!InitFlags::FUSE_INIT_EXT & InitFlags::ALL),
    {
        self.capabilities.intersection(
            InitFlags::from_bits_retain(InitFlags::FUSE_INIT_EXT).complement(),
        )
    }

    /// Kernel ABI version.
    pub fn kernel_abi(&self) -> (r: Version)
        ensures
            r == self.kernel_abi,
    {
        self.kernel_abi
    }

    /// The capabilities among `to_add` that are refused: named ones that the kernel does not offer,
    /// unsupported ones, and idmapped mounts where they cannot be negotiated.
    pub open spec fn refused(self, to_add: u64) -> u64 {
        to_add & ((!self.capabilities.bits & InitFlags::ALL) | UNSUPPORTED_CAPABILITIES | (
        if self.spec_idmap_available(to_add) {
            0u64
        } else {
            InitFlags::FUSE_ALLOW_IDMAP
        }))
    }

    /// Add a set of capabilities.
    ///
    /// `InitFlags::FUSE_ALLOW_IDMAP` is accepted only where it can be honored: the session
    /// must allow other users, and `default_permissions` must be in force, whether from
    /// `MountOption::DefaultPermissions` or from negotiating `InitFlags::FUSE_POSIX_ACL`.
    /// Relying on the latter means adding it in this call or an earlier one, since what has
    /// not been asked for yet cannot be counted on.
    ///
    /// When the argument includes capabilities the kernel does not support, or ones that cannot be
    /// honored, returns the bits of the capabilities that were refused. Nothing is added in that
    /// case, not even the capabilities that would have been accepted on their own.
    pub fn add_capabilities(&mut self, capabilities_to_add: InitFlags) -> (r: Result<
        (),
        InitFlags,
    >)
        ensures
            match r {
                Ok(_) => {
                    &&& old(self).refused(capabilities_to_add.bits) == 0
                    &&& final(self).requested.bits == old(self).requested.bits
                        | capabilities_to_add.bits
                    &&& *final(self) == (KernelConfig {
                        requested: final(self).requested,
                        ..*old(self)
                    })
                },
                Err(refused) => {
                    &&& refused.bits == old(self).refused(capabilities_to_add.bits)
                    &&& refused.bits != 0
                    &&& *final(self) == *old(self)
                },
            },
            old(self).wf() ==> final(self).wf(),
    {
        let conditional = if self.idmap_available(capabilities_to_add) {
            InitFlags::empty()
        } else {
            InitFlags::from_bits_retain(InitFlags::FUSE_ALLOW_IDMAP)
        };
        let refused = capabilities_to_add.intersection(
            self.capabilities.complement().union(
                InitFlags::from_bits_retain(UNSUPPORTED_CAPABILITIES),
            ).union(conditional),
        );
        if !refused.is_empty() {
            return Err(refused);
        }
        proof {
            if self.wf() {
                lemma_add_keeps_wf(*self, capabilities_to_add.bits);
            }
        }
        self.requested = self.requested.union(capabilities_to_add);
        Ok(())
    }

    /// Set the maximum number of pending background requests. Such as readahead requests.
    ///
    /// On success returns the previous value. If the argument is too small, returns the nearest
    /// value which will succeed.
    pub fn set_max_background(&mut self, value: u16) -> (r: Result<u16, u16>)
        ensures
            match r {
                Ok(previous) => {
                    &&& value != 0
                    &&& previous == old(self).max_background
                    &&& *final(self) == (KernelConfig { max_background: value, ..*old(self) })
                },
                Err(nearest) => value == 0 && nearest == 1 && *final(self) == *old(self),
            },
            old(self).wf() ==> final(self).wf(),
    {
        if value == 0 {
            return Err(1);
        }
        let previous: u16 = self.max_background;
        self.max_background = value;
        Ok(previous)
    }

    /// Set the threshold of background requests at which the kernel will consider the filesystem
    /// request queue congested. (it may then switch to sleeping instead of spin-waiting, for
    /// example)
    ///
    /// On success returns the previous value. If the argument is too small, returns the nearest
    /// value which will succeed.
    pub fn set_congestion_threshold(&mut self, value: u16) -> (r: Result<u16, u16>)
        ensures
            match r {
                Ok(previous) => {
                    &&& value != 0
                    &&& previous == old(self).spec_congestion_threshold()
                    &&& *final(self) == (KernelConfig {
                        congestion_threshold: Some(value),
                        ..*old(self)
                    })
                },
                Err(nearest) => value == 0 && nearest == 1 && *final(self) == *old(self),
            },
            old(self).wf() ==> final(self).wf(),
    {
        if value == 0 {
            return Err(1);
        }
        let previous: u16 = self.congestion_threshold();
        self.congestion_threshold = Some(value);
        Ok(previous)
    }

    /// The threshold that is in force: the one that was set, but no more than the pending requests
    /// that are allowed, and three quarters of these where none was set.
    pub open spec fn spec_congestion_threshold(self) -> int {
        match self.congestion_threshold {
            None => self.max_background * 3 / 4,
            Some(value) => if value <= self.max_background {
                value as int
            } else {
                self.max_background as int
            },
        }
    }

    /// The threshold that is in force.
    pub fn congestion_threshold(&self) -> (r: u16)
        ensures
            r == self.spec_congestion_threshold(),
    {
        match self.congestion_threshold {
            None => (self.max_background as u32 * 3 / 4) as u16,
            Some(value) => if value <= self.max_background {
                value
            } else {
                self.max_background
            },
        }
    }

    /// The size of the largest request.
    pub open spec fn largest_request(self) -> u32 {
        if self.max_write >= self.max_readahead {
            self.max_write
        } else {
            self.max_readahead
        }
    }

    /// How many whole pages of `page_size` bytes the largest request fills before its last byte.
    /// Only the low half of the page size and of the number of pages count.
    pub open spec fn full_pages(self, page_size: usize) -> int {
        ((self.largest_request() - 1) / (page_size as u32) as int) % 65536
    }

    /// Whether the pages of `page_size` bytes that the largest request takes can be counted.
    pub open spec fn pages_countable(self, page_size: usize) -> bool {
        page_size as u32 != 0 && self.full_pages(page_size) < 65535
    }

    /// How many pages of `page_size` bytes the largest request takes, where they can be counted.
    pub open spec fn counted_pages(self, page_size: usize) -> Option<u16> {
        if self.pages_countable(page_size) {
            Some((self.full_pages(page_size) + 1) as u16)
        } else {
            None
        }
    }

    /// How many pages of `page_size` bytes the largest request takes, where they can be counted.
    pub fn max_pages_at(&self, page_size: usize) -> (r: Option<u16>)
        requires
            self.wf(),
        ensures
            r == self.counted_pages(page_size),
    {
        let largest: u32 = if self.max_write >= self.max_readahead {
            self.max_write
        } else {
            self.max_readahead
        };
        let page: u32 = #[verifier::truncate] (page_size as u32);
        if page == 0 {
            return None;
        }
        let full: u32 = (largest - 1) / page % 65536;
        if full == 65535 {
            None
        } else {
            Some(full as u16 + 1)
        }
    }

    /// How many pages the largest request takes on this machine, where they can be counted: what
    /// `max_pages_at` gives for the page size of this machine.
    pub fn max_pages(&self) -> (r: Option<u16>)
        requires
            self.wf(),
        ensures
            exists|size: usize|
                #[trigger] may_be_page_size(size) && r == self.counted_pages(size),
    {
        let size: usize = page_size();
        assert(may_be_page_size(size));
        self.max_pages_at(size)
    }
}

/// A configuration that the kernel honors stays one when capabilities are added of which none is
/// refused.
proof fn lemma_add_keeps_wf(config: KernelConfig, to_add: u64)
    requires
        config.wf(),
        config.refused(to_add) == 0,
    ensures
        (KernelConfig {
            requested: InitFlags { bits: config.requested.bits | to_add },
            ..config
        }).wf(),
{
    let requested = config.requested.bits;
    let caps = config.capabilities.bits;
    let cond = if config.spec_idmap_available(to_add) {
        0u64
    } else {
        InitFlags::FUSE_ALLOW_IDMAP
    };
    let hidden = !caps & InitFlags::ALL;
    assert((requested | to_add) & UNSUPPORTED_CAPABILITIES == 0) by (bit_vector)
        requires
            requested & UNSUPPORTED_CAPABILITIES == 0,
            to_add & (hidden | UNSUPPORTED_CAPABILITIES | cond) == 0,
    ;
    if (requested | to_add) & InitFlags::FUSE_ALLOW_IDMAP == InitFlags::FUSE_ALLOW_IDMAP {
        assert((requested | to_add) | 0u64 == requested | to_add) by (bit_vector);
        if !config.spec_idmap_available(to_add) {
            assert(requested & InitFlags::FUSE_ALLOW_IDMAP == InitFlags::FUSE_ALLOW_IDMAP)
                by (bit_vector)
                requires
                    (requested | to_add) & InitFlags::FUSE_ALLOW_IDMAP
                        == InitFlags::FUSE_ALLOW_IDMAP,
                    to_add & (hidden | UNSUPPORTED_CAPABILITIES | InitFlags::FUSE_ALLOW_IDMAP) == 0,
            ;
            assert((requested | 0u64) & caps & InitFlags::FUSE_POSIX_ACL
                == InitFlags::FUSE_POSIX_ACL ==> (requested | to_add) & caps
                & InitFlags::FUSE_POSIX_ACL == InitFlags::FUSE_POSIX_ACL) by (bit_vector);
        }
    }
}

/// Capabilities that were added are offered by the kernel, as far as they have a name, and none of
/// them is unsupported.
pub proof fn lemma_added_capabilities(config: KernelConfig, to_add: InitFlags)
    requires
        config.refused(to_add.bits) == 0,
    ensures
        to_add.bits & InitFlags::ALL & !config.capabilities.bits == 0,
        to_add.bits & UNSUPPORTED_CAPABILITIES == 0,
{
    let bits = to_add.bits;
    let caps = config.capabilities.bits;
    let cond = if config.spec_idmap_available(bits) {
        0u64
    } else {
        InitFlags::FUSE_ALLOW_IDMAP
    };
    assert(bits & InitFlags::ALL & !caps == 0 && bits & UNSUPPORTED_CAPABILITIES == 0)
        by (bit_vector)
        requires
            bits & ((!caps & InitFlags::ALL) | UNSUPPORTED_CAPABILITIES | cond) == 0,
    ;
}

/// The write size that is named where another was refused would be accepted, and none that would
/// be is nearer.
pub proof fn lemma_nearest_max_write(value: u32, nearest: u32, other: u32)
    requires
        !(MIN_WRITE_SIZE <= value <= MAX_WRITE_SIZE),
        nearest == (if value < MIN_WRITE_SIZE {
            MIN_WRITE_SIZE
        } else {
            MAX_WRITE_SIZE
        }),
        MIN_WRITE_SIZE <= other <= MAX_WRITE_SIZE,
    ensures
        MIN_WRITE_SIZE <= nearest <= MAX_WRITE_SIZE,
        distance(value as int, nearest as int) <= distance(value as int, other as int),
{
}

/// The readahead size that is named where another was refused would be accepted, and none that
/// would be is nearer, unless the kernel allows no readahead at all.
pub proof fn lemma_nearest_max_readahead(config: KernelConfig, value: u32, nearest: u32, other: u32)
    requires
        !(1 <= value <= config.max_max_readahead),
        nearest == (if value == 0 {
            1
        } else {
            config.max_max_readahead
        }),
        1 <= other <= config.max_max_readahead,
    ensures
        1 <= nearest <= config.max_max_readahead,
        distance(value as int, nearest as int) <= distance(value as int, other as int),
{
}

/// The threshold that is in force is never more than the pending requests that are allowed.
pub proof fn lemma_threshold_within_background(config: KernelConfig)
    ensures
        0 <= config.spec_congestion_threshold() <= config.max_background,
{
}

/// A write size is kept where it lies between 4 KiB and 16 MiB, and then the one before it comes
/// back; else the nearer bound comes back and nothing changes.
pub proof fn lemma_write_size_is_kept(config: &mut KernelConfig, value: u32, r: Result<u32, u32>)
    requires
        call_ensures(KernelConfig::set_max_write, (config, value), r),
    ensures
        r is Ok <==> 4096 <= value <= 16_777_216,
        r matches Ok(previous) ==> previous == old(config).max_write && final(config).max_write
            == value && final(config).max_readahead == old(config).max_readahead,
        r == Err::<u32, u32>(4096) <==> value < 4096,
        r == Err::<u32, u32>(16_777_216) <==> value > 16_777_216,
        r is Err ==> *final(config) == *old(config),
{
}

/// A readahead size is kept where it is not zero and no more than the kernel offered, and then the
/// one before it comes back; else the nearer bound comes back and nothing changes.
pub proof fn lemma_readahead_is_kept(config: &mut KernelConfig, value: u32, r: Result<u32, u32>)
    requires
        call_ensures(KernelConfig::set_max_readahead, (config, value), r),
    ensures
        r is Ok <==> value > 0 && old(config).max_max_readahead >= value,
        r matches Ok(previous) ==> previous == old(config).max_readahead
            && final(config).max_readahead == value && final(config).max_max_readahead
                == old(config).max_max_readahead && final(config).max_write
                == old(config).max_write,
        r matches Err(near) ==> (value == 0 && near == 1) || (value > near && near
            == old(config).max_max_readahead),
        r is Err ==> *final(config) == *old(config),
{
}

/// A stack depth is kept up to two, and then the one before it comes back.
pub proof fn lemma_stack_depth_is_kept(config: &mut KernelConfig, value: u32, r: Result<u32, u32>)
    requires
        call_ensures(KernelConfig::set_max_stack_depth, (config, value), r),
    ensures
        r is Ok <==> value < 3,
        r matches Ok(previous) ==> previous == old(config).max_stack_depth
            && final(config).max_stack_depth == value,
        r matches Err(near) ==> near == 2 && *final(config) == *old(config),
{
}

/// A number of pending requests is kept where it is not zero, and then the one before it comes
/// back.
pub proof fn lemma_background_is_kept(config: &mut KernelConfig, value: u16, r: Result<u16, u16>)
    requires
        call_ensures(KernelConfig::set_max_background, (config, value), r),
    ensures
        r is Ok <==> value > 0,
        r matches Ok(previous) ==> previous == old(config).max_background
            && final(config).max_background == value && final(config).congestion_threshold
                == old(config).congestion_threshold,
        r matches Err(near) ==> near == 1 && *final(config) == *old(config),
{
}

/// A threshold is kept where it is not zero.
pub proof fn lemma_threshold_is_kept(config: &mut KernelConfig, value: u16, r: Result<u16, u16>)
    requires
        call_ensures(KernelConfig::set_congestion_threshold, (config, value), r),
    ensures
        r is Ok <==> value > 0,
        r is Ok ==> final(config).congestion_threshold == Some(value)
            && final(config).max_background == old(config).max_background,
        r matches Err(near) ==> near == 1 && *final(config) == *old(config),
{
}

/// The threshold in force is never above the pending requests that are allowed: it is the lesser of
/// these and of the one that was set, or else the last number that is no more than three quarters
/// of them.
pub proof fn lemma_threshold_in_force(config: KernelConfig, r: u16)
    requires
        call_ensures(KernelConfig::congestion_threshold, (&config,), r),
    ensures
        r <= config.max_background,
        config.congestion_threshold matches Some(set) ==> r <= set && (r == set || r
            == config.max_background),
        config.congestion_threshold is None ==> 4 * r <= 3 * config.max_background < 4 * r + 4,
{
}

/// A timestamp granularity is kept exactly where it is a power of ten nanoseconds, up to a second,
/// and then the one before it comes back; else one that would have been kept comes back.
pub proof fn lemma_granularity_is_kept(
    config: &mut KernelConfig,
    value: Duration,
    r: Result<Duration, Duration>,
)
    requires
        call_ensures(KernelConfig::set_time_granularity, (config, value), r),
        value.nanos < 1_000_000_000,
    ensures
        r is Ok <==> value == (Duration { secs: 1, nanos: 0 }) || (value.secs == 0 && (value.nanos
            == 1
            || value.nanos == 10 || value.nanos == 100 || value.nanos == 1000 || value.nanos
                == 10000
            || value.nanos == 100000 || value.nanos == 1000000 || value.nanos == 10000000
            || value.nanos == 100000000)),
        r matches Ok(previous) ==> previous == old(config).time_gran && final(config).time_gran
            == value,
        r is Err ==> *final(config) == *old(config),
        r is Err && value.secs > 0 ==> r->Err_0 == (Duration { secs: 1, nanos: 0 }),
        r is Err && value.secs == 0 && value.nanos == 0 ==> r->Err_0 == (Duration {
            secs: 0,
            nanos: 1,
        }),
        r is Err && value.secs == 0 && 100 < value.nanos <= 550 ==> r->Err_0 == (Duration {
            secs: 0,
            nanos: 100,
        }),
        r is Err && value.secs == 0 && 550 < value.nanos < 1000 ==> r->Err_0 == (Duration {
            secs: 0,
            nanos: 1000,
        }),
{
    assert(is_granularity(1));
    assert(is_granularity(100));
    assert(is_granularity(1000));
    assert(is_granularity(1_000_000_000));
}

/// What a session starts with: asynchronous reads and large writes are asked for, and requests of
/// many pages where they are offered.
pub proof fn lemma_session_starts_with(
    capabilities: InitFlags,
    max_readahead: u32,
    kernel_abi: Version,
    default_permissions: bool,
    acl: SessionACL,
    r: KernelConfig,
)
    requires
        call_ensures(
            KernelConfig::new,
            (capabilities, max_readahead, kernel_abi, default_permissions, acl),
            r,
        ),
    ensures
        capabilities.bits & 0x40_0000 == 0 ==> r.requested.bits == 0x21,
        capabilities.bits & 0x40_0000 != 0 ==> r.requested.bits == 0x40_0021,
        r.capabilities == capabilities,
        max_readahead == r.max_readahead,
        max_readahead == r.max_max_readahead,
        kernel_abi == r.kernel_abi,
        default_permissions == r.default_permissions,
        acl == r.acl,
        16 == r.max_background,
        16_777_216 == r.max_write,
        0 == r.max_stack_depth,
        0 == r.time_gran.secs && 1 == r.time_gran.nanos,
        r.congestion_threshold is None,
{
    let offered: u64 = capabilities.bits;
    assert({
        &&& (0x1u64 | 0x20u64) == 0x21u64
        &&& (0x21u64 | 0x40_0000u64) == 0x40_0021u64
        &&& offered & 0x40_0000u64 == 0 || offered & 0x40_0000u64 == 0x40_0000u64
    }) by (bit_vector);
}

/// Idmapped mounts can be had only where every user is let in, and then with the mount option, or
/// with POSIX ACLs that the kernel offers and that were asked for before or are being asked for.
pub proof fn lemma_idmap_can_be_had(config: KernelConfig, adding: InitFlags, r: bool)
    requires
        call_ensures(KernelConfig::idmap_available, (&config, adding), r),
    ensures
        !(config.acl is All) ==> !r,
        config.acl is All && config.default_permissions ==> r,
        config.acl is All && !config.default_permissions ==> (r <==> config.capabilities.bits
            & 0x10_0000 != 0 && (config.requested.bits & 0x10_0000 != 0 || adding.bits & 0x10_0000
            != 0)),
{
    let a: u64 = config.requested.bits;
    let b: u64 = adding.bits;
    let c: u64 = config.capabilities.bits;
    assert(((a | b) & c & 0x10_0000u64 == 0x10_0000u64) <==> (c & 0x10_0000u64 != 0 && (a
        & 0x10_0000u64 != 0 || b & 0x10_0000u64 != 0))) by (bit_vector);
}

/// What is refused of capabilities, bit by bit: only what was asked for; of that each of the
/// forty-three named ones that the kernel does not offer, the eight that nothing stands behind, and
/// idmapped mounts where they cannot be had.
pub proof fn lemma_capability_is_refused(config: KernelConfig, to_add: u64, bit: u64)
    requires
        bit < 64,
    ensures
        (config.refused(to_add) >> bit) & 1 == 1 <==> (to_add >> bit) & 1 == 1 && ({
            ||| bit < 43 && (config.capabilities.bits >> bit) & 1 == 0
            ||| bit == 26 || bit == 27 || bit == 32 || bit == 33 || bit == 34 || bit == 39 || bit
                == 41 || bit == 42
            ||| bit == 40 && !config.spec_idmap_available(to_add)
        }),
{
    let c: u64 = config.capabilities.bits;
    let idmap: u64 = if config.spec_idmap_available(to_add) {
        0u64
    } else {
        InitFlags::FUSE_ALLOW_IDMAP
    };
    let r: u64 = config.refused(to_add);
    assert((r >> bit) & 1 == 1 <==> (to_add >> bit) & 1 == 1 && ({
        ||| bit < 43 && (c >> bit) & 1 == 0
        ||| bit == 26 || bit == 27 || bit == 32 || bit == 33 || bit == 34 || bit == 39 || bit == 41
            || bit == 42
        ||| bit == 40 && idmap != 0
    })) by (bit_vector)
        requires
            r == to_add & ((!c & InitFlags::ALL) | UNSUPPORTED_CAPABILITIES | idmap),
            idmap == 0 || idmap == InitFlags::FUSE_ALLOW_IDMAP,
            bit < 64,
    ;
}

/// Capabilities are added all together or not at all: where one is refused, the refused ones come
/// back and nothing changes.
pub proof fn lemma_capabilities_are_added(
    config: &mut KernelConfig,
    to_add: InitFlags,
    r: Result<(), InitFlags>,
)
    requires
        call_ensures(KernelConfig::add_capabilities, (config, to_add), r),
    ensures
        r is Ok <==> old(config).refused(to_add.bits) == 0,
        r matches Err(refused) ==> refused.bits == old(config).refused(to_add.bits)
            && *final(config) == *old(config),
        r is Ok ==> final(config).requested.bits == old(config).requested.bits | to_add.bits
            && final(config).capabilities == old(config).capabilities && final(config).acl
                == old(config).acl,
{
}

/// Of the forty-three named capabilities all that the kernel offers are told, but for the one that
/// stands for the second word.
pub proof fn lemma_capabilities_are_told(config: KernelConfig, r: InitFlags, bit: u64)
    requires
        call_ensures(KernelConfig::capabilities, (&config,), r),
        bit < 64,
    ensures
        (r.bits >> bit) & 1 == 1 <==> (config.capabilities.bits >> bit) & 1 == 1 && bit < 43 && bit
            != 30,
{
    let told: u64 = r.bits;
    let c: u64 = config.capabilities.bits;
    assert((told >> bit) & 1 == 1 <==> (c >> bit) & 1 == 1 && bit < 43 && bit != 30) by (bit_vector)
        requires
            told == c & (!InitFlags::FUSE_INIT_EXT & InitFlags::ALL),
            bit < 64,
    ;
}

/// The pages of a request hold the larger of the largest write and the largest readahead, and one
/// page less does not.
pub proof fn lemma_pages_hold_the_request(config: KernelConfig, page: usize, r: Option<u16>)
    requires
        config.wf(),
        call_ensures(KernelConfig::max_pages_at, (&config, page), r),
        0 < page <= u32::MAX,
        config.max_write <= page * 65535,
        config.max_readahead <= page * 65535,
    ensures
        r matches Some(n) && config.max_write <= n * page && config.max_readahead <= n * page && ((
        n - 1) * page < config.max_write || (n - 1) * page < config.max_readahead),
{
    let largest = config.largest_request() as int;
    let p = page as int;
    let q = (largest - 1) / p;
    vstd::arithmetic::div_mod::lemma_fundamental_div_mod(largest - 1, p);
    vstd::arithmetic::div_mod::lemma_mod_bound(largest - 1, p);
    vstd::arithmetic::div_mod::lemma_div_pos_is_pos(largest - 1, p);
    assert(q < 65535) by (nonlinear_arith)
        requires
            p * q <= largest - 1,
            largest <= p * 65535,
            p > 0,
    ;
    assert((q + 1) * p == p * q + p) by (nonlinear_arith);
    assert(q * p == p * q) by (nonlinear_arith);
    vstd::arithmetic::div_mod::lemma_small_mod(q as nat, 65536);
    assert((q + 1) as u16 == q + 1);
}

} // verus!
