use wasm_plugin_guest::random::ADDRESS_SPACE;
use wasm_plugin_guest::region::copy_to_start;
use wasm_plugin_guest::{fill, GuestError, RandomRequest};

/// What a host that answers every request with the bytes 1, 2, 3, ... writes
/// for a request of `length` bytes.
fn pattern(length: usize) -> Vec<u8> {
    (0..length).map(|i| (i % 255) as u8 + 1).collect()
}

#[test]
fn fill_writes_exactly_the_bytes_asked_for() {
    let mut buffer = [0xEEu8; 8];
    assert_eq!(fill(&mut buffer, 5, &pattern(5)), Ok(()));
    assert_eq!(buffer, [1, 2, 3, 4, 5, 0xEE, 0xEE, 0xEE]);
}

#[test]
fn fill_of_the_whole_buffer() {
    let mut buffer = vec![0u8; 300];
    assert_eq!(fill(&mut buffer, 300, &pattern(300)), Ok(()));
    assert_eq!(buffer, pattern(300));
}

#[test]
fn fill_of_no_bytes_changes_nothing() {
    let mut buffer = [9u8; 4];
    assert_eq!(fill(&mut buffer, 0, &[]), Ok(()));
    assert_eq!(buffer, [9, 9, 9, 9]);
}

#[test]
fn fill_refuses_a_short_delivery() {
    let mut buffer = [0xEEu8; 8];
    assert_eq!(
        fill(&mut buffer, 5, &pattern(4)),
        Err(GuestError::PlatformEntropyUnavailable)
    );
    assert_eq!(buffer, [0xEE; 8]);
}

#[test]
fn fill_refuses_a_long_delivery() {
    let mut buffer = [0xEEu8; 8];
    assert_eq!(
        fill(&mut buffer, 5, &pattern(6)),
        Err(GuestError::PlatformEntropyUnavailable)
    );
    assert_eq!(buffer, [0xEE; 8]);
}

#[test]
fn fill_refuses_a_request_beyond_the_buffer() {
    let mut buffer = [0xEEu8; 8];
    assert_eq!(
        fill(&mut buffer, 9, &pattern(9)),
        Err(GuestError::PlatformEntropyUnavailable)
    );
    assert_eq!(buffer, [0xEE; 8]);
}

#[test]
fn copy_to_start_leaves_the_rest() {
    let mut region = [5u8; 6];
    copy_to_start(&mut region, &[1, 2, 3]);
    assert_eq!(region, [1, 2, 3, 5, 5, 5]);
    copy_to_start(&mut region, &[]);
    assert_eq!(region, [1, 2, 3, 5, 5, 5]);
    copy_to_start(&mut region, &[6, 5, 4, 3, 2, 1]);
    assert_eq!(region, [6, 5, 4, 3, 2, 1]);
}

#[test]
fn address_space_is_that_of_a_32_bit_word() {
    assert_eq!(ADDRESS_SPACE, 1u64 << 32);
}

#[test]
fn request_keeps_address_and_length() {
    assert_eq!(
        RandomRequest::new(0x1000, 32),
        Ok(RandomRequest { address: 0x1000, length: 32 })
    );
    assert_eq!(
        RandomRequest::new(0, 0),
        Ok(RandomRequest { address: 0, length: 0 })
    );
}

#[test]
fn request_may_end_at_the_end_of_the_address_space() {
    assert_eq!(
        RandomRequest::new(0xFFFF_FFFF, 1),
        Ok(RandomRequest { address: 0xFFFF_FFFF, length: 1 })
    );
    assert_eq!(
        RandomRequest::new(1, 0xFFFF_FFFF),
        Ok(RandomRequest { address: 1, length: 0xFFFF_FFFF })
    );
}

#[test]
fn request_beyond_the_address_space_is_refused() {
    assert_eq!(
        RandomRequest::new(0xFFFF_FFFF, 2),
        Err(GuestError::PlatformEntropyUnavailable)
    );
    assert_eq!(
        RandomRequest::new(0x8000_0000, 0x8000_0001),
        Err(GuestError::PlatformEntropyUnavailable)
    );
}

#[test]
fn request_with_a_number_too_large_for_a_word_is_refused() {
    let too_large = u32::MAX as usize + 1;
    assert_eq!(
        RandomRequest::new(too_large, 0),
        Err(GuestError::PlatformEntropyUnavailable)
    );
    assert_eq!(
        RandomRequest::new(0, too_large),
        Err(GuestError::PlatformEntropyUnavailable)
    );
}
