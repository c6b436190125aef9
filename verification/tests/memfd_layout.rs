use safetyguard::memfd_rb::{
    check_header, CacheAligned, Header, HeaderError, SharedLayout, LAYOUT_VERSION, MAGIC,
};
use std::mem::{align_of, size_of, MaybeUninit};
use std::sync::atomic::{AtomicU64, Ordering};

#[derive(Copy, Clone, Debug, PartialEq)]
struct TestMessage {
    pub id: u64,
    pub value: u32,
    _padding: u32,
}

fn fresh_layout<const N: usize>() -> Box<SharedLayout<TestMessage, N>> {
    Box::new(SharedLayout {
        header: SharedLayout::<TestMessage, N>::initial_header(),
        read_index: CacheAligned::new(AtomicU64::new(0)),
        write_index: CacheAligned::new(AtomicU64::new(0)),
        storage: std::array::from_fn(|_| MaybeUninit::uninit()),
    })
}

#[test]
fn validate_alignment() {
    assert_eq!(align_of::<Header>(), 64);

    assert_eq!(align_of::<SharedLayout<TestMessage, 8>>(), 64);

    assert_eq!(align_of::<CacheAligned<AtomicU64>>(), 64);
}

#[test]
fn validate_sizes() {
    println!("Header size: {}", size_of::<Header>());

    println!("SharedLayout size: {}", size_of::<SharedLayout<TestMessage, 128>>());

    assert_eq!(size_of::<CacheAligned<AtomicU64>>(), 64);
}

#[test]
fn magic_spells_shmringu() {
    assert_eq!(MAGIC, u64::from_be_bytes(*b"SHMRINGU"));
}

#[test]
fn new_header_fields() {
    let h = Header::new(4096, 128);
    assert_eq!(h.magic, MAGIC);
    assert_eq!(h.version, 1);
    assert_eq!(LAYOUT_VERSION, 1);
    assert_eq!(h.flags, 0);
    assert_eq!(h.total_size, 4096);
    assert_eq!(h.ring_capacity, 128);
    assert_eq!(h.initialized.load(Ordering::Acquire), 0);
}

#[test]
fn initial_header_records_size_and_capacity() {
    let h = SharedLayout::<TestMessage, 128>::initial_header();
    assert_eq!(h.total_size, size_of::<SharedLayout<TestMessage, 128>>() as u64);
    assert_eq!(h.ring_capacity, 128);
    assert_eq!(SharedLayout::<TestMessage, 128>::capacity(), 128);
    assert_eq!(
        SharedLayout::<TestMessage, 128>::total_size(),
        size_of::<SharedLayout<TestMessage, 128>>() as u64
    );
}

#[test]
fn check_header_accepts_published_ring() {
    assert_eq!(check_header(MAGIC, 1, 64, 1, 64), Ok(()));
}

#[test]
fn check_header_refusals_in_order() {
    assert_eq!(check_header(0, 7, 3, 0, 64), Err(HeaderError::BadMagic));
    assert_eq!(check_header(MAGIC, 2, 3, 0, 64), Err(HeaderError::UnsupportedVersion));
    assert_eq!(check_header(MAGIC, 1, 3, 0, 64), Err(HeaderError::CapacityMismatch));
    assert_eq!(check_header(MAGIC, 1, 64, 0, 64), Err(HeaderError::NotInitialized));
    assert_eq!(check_header(MAGIC, 1, 64, 2, 64), Err(HeaderError::NotInitialized));
}

#[test]
fn unpublished_ring_is_refused_then_accepted() {
    let layout = fresh_layout::<64>();
    assert_eq!(layout.validate(), Err(HeaderError::NotInitialized));
    layout.header.publish();
    assert_eq!(layout.header.initialized.load(Ordering::Acquire), 1);
    assert_eq!(layout.validate(), Ok(()));
    assert_eq!(layout.read_index.0.load(Ordering::Acquire), 0);
    assert_eq!(layout.write_index.0.load(Ordering::Acquire), 0);
}

#[test]
fn other_capacity_is_refused() {
    let layout = fresh_layout::<16>();
    layout.header.publish();
    assert_eq!(layout.header.validate(32), Err(HeaderError::CapacityMismatch));
    assert_eq!(layout.header.validate(16), Ok(()));
}

#[test]
fn corrupted_header_is_refused() {
    let mut layout = fresh_layout::<8>();
    layout.header.publish();
    layout.header.version = 2;
    assert_eq!(layout.validate(), Err(HeaderError::UnsupportedVersion));
    layout.header.magic = 1;
    assert_eq!(layout.validate(), Err(HeaderError::BadMagic));
}

#[test]
fn header_error_messages() {
    assert_eq!(HeaderError::BadMagic.message(), "Invalid memfd magic");
    assert_eq!(HeaderError::UnsupportedVersion.message(), "Unsupported shared memory version");
    assert_eq!(HeaderError::CapacityMismatch.message(), "Ring capacity mismatch");
    assert_eq!(HeaderError::NotInitialized.message(), "Shared memory not initialized");
    assert!(HeaderError::NotInitialized.would_block());
    assert!(!HeaderError::BadMagic.would_block());
    assert!(!HeaderError::UnsupportedVersion.would_block());
    assert!(!HeaderError::CapacityMismatch.would_block());
}
