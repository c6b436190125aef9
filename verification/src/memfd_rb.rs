//! The parts of the shared-memory ring that an application and the safety
//! guard map into their address spaces, and the rules by which a process that
//! attaches to an existing mapping decides whether it holds a ring it can use.
//!
//! The structs carry the compiler's default representation: their field order
//! and offsets are fixed only within one build, so every process that shares a
//! ring must run the same build. The cache-line alignment comes from a
//! zero-sized 512-bit vector array, which ties the crate to x86_64.
use vstd::prelude::*;
use core::arch::x86_64::__m512i;
use core::mem::MaybeUninit;
use std::sync::atomic::{AtomicU32, AtomicU64, Ordering};

verus! {

/// A 512-bit vector type; its 64-byte alignment is what [`CacheLine`] borrows.
#[verifier::external_type_specification]
#[verifier::external_body]
pub struct ExM512i(__m512i);

/// The magic number at the start of every ring: the bytes `SHMRINGU` read as a
/// big-endian integer.
pub const MAGIC: u64 = 0x5348_4D52_494E_4755;

/// The version of the layout that this library writes and accepts.
pub const LAYOUT_VERSION: u32 = 1;

/// A zero-sized marker whose only effect is to give the struct that holds it
/// the alignment of a cache line (64 bytes).
pub struct CacheLine([__m512i; 0]);

impl CacheLine {
    /// The marker.
    pub fn new() -> CacheLine {
        CacheLine([])
    }
}

/// A value that sits alone on its own cache line, so that the reader's and the
/// writer's indices never share one.
pub struct CacheAligned<T>(pub T, pub CacheLine);

impl<T> CacheAligned<T> {
    /// Wraps `value`.
    pub fn new(value: T) -> (r: Self)
        ensures
            r.0 == value,
    {
        CacheAligned(value, CacheLine::new())
    }
}

/// The header of a shared ring: what identifies it and whether it is ready.
pub struct Header {
    pub magic: u64,
    pub version: u32,
    pub flags: u32,
    pub total_size: u64,
    pub ring_capacity: u64,
    /// Set to 1, with release ordering, once the creator has written the rest.
    pub initialized: AtomicU32,
    pub cache_line: CacheLine,
}

/// The whole shared mapping: the header, the two indices on cache lines of
/// their own, and `N` slots of `T`, in the order the compiler chooses.
pub struct SharedLayout<T, const N: usize> {
    pub header: Header,
    pub read_index: CacheAligned<AtomicU64>,
    pub write_index: CacheAligned<AtomicU64>,
    pub storage: [MaybeUninit<T>; N],
}

/// Why a mapping is refused by a process that attaches to it.
#[derive(Debug, Clone, Copy, PartialEq, Eq, Structural)]
pub enum HeaderError {
    /// The magic number is not [`MAGIC`].
    BadMagic,
    /// The layout version is not [`LAYOUT_VERSION`].
    UnsupportedVersion,
    /// The ring was made for another number of slots.
    CapacityMismatch,
    /// The creator has not yet published the ring.
    NotInitialized,
}

/// Which header fields a freshly made header holds.
pub open spec fn is_fresh_header(h: Header, total_size: u64, ring_capacity: u64) -> bool {
    &&& h.magic == MAGIC
    &&& h.version == LAYOUT_VERSION
    &&& h.flags == 0
    &&& h.total_size == total_size
    &&& h.ring_capacity == ring_capacity
}

/// The verdict on the fields of a header, checked in this order: magic,
/// version, capacity, then the initialization flag (1 means published).
pub open spec fn header_verdict(
    magic: u64,
    version: u32,
    ring_capacity: u64,
    initialized: u32,
    expected_capacity: u64,
) -> Result<(), HeaderError> {
    if magic != MAGIC {
        Err(HeaderError::BadMagic)
    } else if version != LAYOUT_VERSION {
        Err(HeaderError::UnsupportedVersion)
    } else if ring_capacity != expected_capacity {
        Err(HeaderError::CapacityMismatch)
    } else if initialized != 1 {
        Err(HeaderError::NotInitialized)
    } else {
        Ok(())
    }
}

/// The verdict on a header's fixed fields alone, before its initialization
/// flag is read.
pub open spec fn static_verdict(h: Header, expected_capacity: u64) -> Result<(), HeaderError> {
    header_verdict(h.magic, h.version, h.ring_capacity, 1, expected_capacity)
}

/// Decides whether a header with these field values describes a ring of
/// `expected_capacity` slots that is ready to use.
pub fn check_header(
    magic: u64,
    version: u32,
    ring_capacity: u64,
    initialized: u32,
    expected_capacity: u64,
) -> (r: Result<(), HeaderError>)
    ensures
        r == header_verdict(magic, version, ring_capacity, initialized, expected_capacity),
        magic != MAGIC ==> r == Err::<(), HeaderError>(HeaderError::BadMagic),
        magic == MAGIC && version != LAYOUT_VERSION ==> r == Err::<(), HeaderError>(HeaderError::UnsupportedVersion),
        magic == MAGIC && version == LAYOUT_VERSION && ring_capacity != expected_capacity ==> r
            == Err::<(), HeaderError>(HeaderError::CapacityMismatch),
        magic == MAGIC && version == LAYOUT_VERSION && ring_capacity == expected_capacity
            && initialized != 1 ==> r == Err::<(), HeaderError>(HeaderError::NotInitialized),
        r is Ok <==> (magic == MAGIC && version == LAYOUT_VERSION && ring_capacity
            == expected_capacity && initialized == 1),
{
    if magic != MAGIC {
        Err(HeaderError::BadMagic)
    } else if version != LAYOUT_VERSION {
        Err(HeaderError::UnsupportedVersion)
    } else if ring_capacity != expected_capacity {
        Err(HeaderError::CapacityMismatch)
    } else if initialized != 1 {
        Err(HeaderError::NotInitialized)
    } else {
        Ok(())
    }
}

impl HeaderError {
    /// Whether the error means "try again later" rather than "this is not a
    /// ring you can use".
    pub fn would_block(&self) -> (r: bool)
        ensures
            r == (*self == HeaderError::NotInitialized),
    {
        match self {
            HeaderError::NotInitialized => true,
            _ => false,
        }
    }

    /// The text that goes with the error.
    pub fn message(&self) -> (r: &'static str)
        ensures
            *self == HeaderError::BadMagic ==> r@ == "Invalid memfd magic"@,
            *self == HeaderError::UnsupportedVersion ==> r@ == "Unsupported shared memory version"@,
            *self == HeaderError::CapacityMismatch ==> r@ == "Ring capacity mismatch"@,
            *self == HeaderError::NotInitialized ==> r@ == "Shared memory not initialized"@,
    {
        match self {
            HeaderError::BadMagic => "Invalid memfd magic",
            HeaderError::UnsupportedVersion => "Unsupported shared memory version",
            HeaderError::CapacityMismatch => "Ring capacity mismatch",
            HeaderError::NotInitialized => "Shared memory not initialized",
        }
    }
}

impl Header {
    /// A header for a mapping of `total_size` bytes holding `ring_capacity`
    /// slots, not yet published.
    pub fn new(total_size: u64, ring_capacity: u64) -> (h: Header)
        ensures
            is_fresh_header(h, total_size, ring_capacity),
    {
        Header {
            magic: MAGIC,
            version: LAYOUT_VERSION,
            flags: 0,
            total_size,
            ring_capacity,
            initialized: AtomicU32::new(0),
            cache_line: CacheLine::new(),
        }
    }

    /// Publishes the ring: stores 1 in the initialization flag with release
    /// ordering, after which a process that reads the flag with acquire
    /// ordering sees everything written before.
    pub fn publish(&self) {
        self.initialized.store(1, Ordering::Release);
    }

    /// Decides whether this header describes a ready ring of
    /// `expected_capacity` slots. The fixed fields decide first; only when they
    /// pass is the initialization flag read (with acquire ordering), and the
    /// ring is then accepted or found not yet published.
    pub fn validate(&self, expected_capacity: u64) -> (r: Result<(), HeaderError>)
        ensures
            static_verdict(*self, expected_capacity) is Err ==> r == static_verdict(*self, expected_capacity),
            static_verdict(*self, expected_capacity) is Ok ==> (r is Ok || r == Err::<(), HeaderError>(HeaderError::NotInitialized)),
            self.magic != MAGIC ==> r == Err::<(), HeaderError>(HeaderError::BadMagic),
            self.magic == MAGIC && self.version != LAYOUT_VERSION ==> r == Err::<(), HeaderError>(HeaderError::UnsupportedVersion),
            self.magic == MAGIC && self.version == LAYOUT_VERSION && self.ring_capacity != expected_capacity
                ==> r == Err::<(), HeaderError>(HeaderError::CapacityMismatch),
            r is Ok ==> (self.magic == MAGIC && self.version == LAYOUT_VERSION && self.ring_capacity
                == expected_capacity),
    {
        if self.magic != MAGIC {
            return Err(HeaderError::BadMagic);
        }
        if self.version != LAYOUT_VERSION {
            return Err(HeaderError::UnsupportedVersion);
        }
        if self.ring_capacity != expected_capacity {
            return Err(HeaderError::CapacityMismatch);
        }
        let initialized = self.initialized.load(Ordering::Acquire);
        check_header(self.magic, self.version, self.ring_capacity, initialized, expected_capacity)
    }
}

/// The verdict on a header goes by its fields in a fixed order: a wrong magic
/// number is refused as such whatever else the header holds; with the right
/// magic, a wrong version is refused as such; with both right, a wrong
/// capacity; with all three right, a flag other than 1 means not yet
/// published; and the header is accepted exactly when all four are right.
pub proof fn lemma_header_verdict_order(
    magic: u64,
    version: u32,
    ring_capacity: u64,
    initialized: u32,
    expected_capacity: u64,
)
    ensures
        magic != MAGIC ==> header_verdict(magic, version, ring_capacity, initialized, expected_capacity)
            == Err::<(), HeaderError>(HeaderError::BadMagic),
        magic == MAGIC && version != LAYOUT_VERSION ==> header_verdict(
            magic,
            version,
            ring_capacity,
            initialized,
            expected_capacity,
        ) == Err::<(), HeaderError>(HeaderError::UnsupportedVersion),
        magic == MAGIC && version == LAYOUT_VERSION && ring_capacity != expected_capacity
            ==> header_verdict(magic, version, ring_capacity, initialized, expected_capacity)
            == Err::<(), HeaderError>(HeaderError::CapacityMismatch),
        magic == MAGIC && version == LAYOUT_VERSION && ring_capacity == expected_capacity
            && initialized != 1 ==> header_verdict(
            magic,
            version,
            ring_capacity,
            initialized,
            expected_capacity,
        ) == Err::<(), HeaderError>(HeaderError::NotInitialized),
        header_verdict(magic, version, ring_capacity, initialized, expected_capacity) is Ok <==> (
        magic == MAGIC && version == LAYOUT_VERSION && ring_capacity == expected_capacity
            && initialized == 1),
{
}

/// A ring that its creator made for `ring_capacity` slots is accepted by a
/// process that expects that many slots once it has been published (flag 1);
/// before that it is refused as not yet initialized; a process that expects
/// another number of slots refuses it as a capacity mismatch, published or not.
pub proof fn lemma_fresh_header_verdict(
    h: Header,
    total_size: u64,
    ring_capacity: u64,
    expected_capacity: u64,
    initialized: u32,
)
    requires
        is_fresh_header(h, total_size, ring_capacity),
    ensures
        header_verdict(h.magic, h.version, h.ring_capacity, initialized, expected_capacity) == (
        if expected_capacity != ring_capacity {
            Err::<(), HeaderError>(HeaderError::CapacityMismatch)
        } else if initialized != 1 {
            Err::<(), HeaderError>(HeaderError::NotInitialized)
        } else {
            Ok::<(), HeaderError>(())
        }),
{
}

impl<T, const N: usize> SharedLayout<T, N> {
    /// The number of slots, as the header records it.
    pub fn capacity() -> (r: u64)
        ensures
            r == N,
    {
        N as u64
    }

    /// The size in bytes of the whole mapping.
    pub fn total_size() -> (r: u64)
        ensures
            r == vstd::layout::size_of::<SharedLayout<T, N>>(),
    {
        core::mem::size_of::<SharedLayout<T, N>>() as u64
    }

    /// The header that the creator of a ring of `N` slots writes, before it
    /// publishes the ring.
    pub fn initial_header() -> (h: Header)
        ensures
            is_fresh_header(h, vstd::layout::size_of::<SharedLayout<T, N>>() as u64, N as u64),
    {
        Header::new(Self::total_size(), Self::capacity())
    }

    /// Decides whether this mapping holds a ready ring of `N` slots, as
    /// [`Header::validate`] does.
    pub fn validate(&self) -> (r: Result<(), HeaderError>)
        ensures
            static_verdict(self.header, N as u64) is Err ==> r == static_verdict(self.header, N as u64),
            static_verdict(self.header, N as u64) is Ok ==> (r is Ok || r == Err::<(), HeaderError>(HeaderError::NotInitialized)),
            self.header.magic != MAGIC ==> r == Err::<(), HeaderError>(HeaderError::BadMagic),
            self.header.magic == MAGIC && self.header.version != LAYOUT_VERSION ==> r
                == Err::<(), HeaderError>(HeaderError::UnsupportedVersion),
            self.header.magic == MAGIC && self.header.version == LAYOUT_VERSION
                && self.header.ring_capacity != N ==> r == Err::<(), HeaderError>(HeaderError::CapacityMismatch),
            r is Ok ==> (self.header.magic == MAGIC && self.header.version == LAYOUT_VERSION
                && self.header.ring_capacity == N),
    {
        self.header.validate(Self::capacity())
    }
}

} // verus!
