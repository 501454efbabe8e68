use std::cell::Cell;

use efi::common::Address;
use efi::common::Event;
use efi::common::Guid;
use efi::common::Handle;
use efi::common::Header;
use efi::common::Registration;
use efi::common::Status;
use efi::common::PAGE_SIZE;
use efi::common::UNUSABLE_REPLY;
use efi::tools::result;

#[test]
fn check_of_zero_is_success_with_the_value() {
    assert_eq!(Status { raw: 0 }.check(17), Ok(17));
    assert_eq!(Status::null().check("text"), Ok("text"));
}

#[test]
fn check_of_nonzero_is_failure_with_the_code() {
    assert_eq!(Status { raw: 1 }.check(17), Err(Status { raw: 1 }));
    assert_eq!(Status { raw: 14 }.check(()), Err(Status { raw: 14 }));
    assert_eq!(Status { raw: usize::MAX }.check(17), Err(Status { raw: usize::MAX }));
}

#[test]
fn check_map_computes_only_on_success() {
    let calls = Cell::new(0);
    let r = Status { raw: 0 }.check_map(|| {
        calls.set(calls.get() + 1);
        5
    });
    assert_eq!(r, Ok(5));
    assert_eq!(calls.get(), 1);
    let r = Status { raw: 9 }.check_map(|| {
        calls.set(calls.get() + 1);
        5
    });
    assert_eq!(r, Err(Status { raw: 9 }));
    assert_eq!(calls.get(), 1);
}

#[test]
fn check_flat_map_folds_the_second_outcome_in() {
    let r: Result<u8, Status> = Status { raw: 0 }.check_flat_map(|| Ok(3));
    assert_eq!(r, Ok(3));
    let r: Result<u8, Status> = Status { raw: 0 }.check_flat_map(|| Err(Status { raw: 4 }));
    assert_eq!(r, Err(Status { raw: 4 }));
}

#[test]
fn check_flat_map_keeps_the_first_failure() {
    let calls = Cell::new(0);
    let r: Result<u8, Status> = Status { raw: 6 }.check_flat_map(|| {
        calls.set(calls.get() + 1);
        Ok(3)
    });
    assert_eq!(r, Err(Status { raw: 6 }));
    assert_eq!(calls.get(), 0);
}

#[test]
fn result_is_check() {
    assert_eq!(result(Status { raw: 0 }, 'a'), Ok('a'));
    assert_eq!(result(Status { raw: 2 }, 'a'), Err(Status { raw: 2 }));
}

#[test]
fn unusable_status_is_a_failure() {
    assert_eq!(Status::unusable().raw, UNUSABLE_REPLY);
    assert_eq!(Status::unusable().check(1), Err(Status { raw: 1 }));
}

#[test]
fn identifiers_keep_their_word() {
    assert_eq!(Handle::new(12).raw(), 12);
    assert_eq!(Event::new(13).raw(), 13);
    assert_eq!(Registration::new(14).raw(), 14);
    assert_eq!(Registration::null().raw(), 0);
    assert_eq!(Handle::new(3), Handle::new(3));
    assert_ne!(Handle::new(3), Handle::new(4));
    assert!(Handle::new(3) < Handle::new(4));
}

#[test]
fn addresses_are_64_bits_wide() {
    assert_eq!(Address::new(0xffff_ffff_ffff_fff0).raw(), 0xffff_ffff_ffff_fff0);
    assert!(Address::null().is_null());
    assert_eq!(Address::null().raw(), 0);
    assert!(!Address::new(1).is_null());
}

#[test]
fn guids_compare_by_all_four_fields() {
    let g = Guid(0x387477c1, 0x69c7, 0x11d2, [0x8e, 0x39, 0x0, 0xa0, 0xc9, 0x69, 0x72, 0x3b]);
    assert!(g == Guid(0x387477c1, 0x69c7, 0x11d2, [0x8e, 0x39, 0x0, 0xa0, 0xc9, 0x69, 0x72, 0x3b]));
    assert!(g != Guid(0x387477c2, 0x69c7, 0x11d2, [0x8e, 0x39, 0x0, 0xa0, 0xc9, 0x69, 0x72, 0x3b]));
    assert!(g != Guid(0x387477c1, 0x69c8, 0x11d2, [0x8e, 0x39, 0x0, 0xa0, 0xc9, 0x69, 0x72, 0x3b]));
    assert!(g != Guid(0x387477c1, 0x69c7, 0x11d3, [0x8e, 0x39, 0x0, 0xa0, 0xc9, 0x69, 0x72, 0x3b]));
    assert!(g != Guid(0x387477c1, 0x69c7, 0x11d2, [0x8e, 0x39, 0x0, 0xa0, 0xc9, 0x69, 0x72, 0x3c]));
    assert!(g != Guid(0x387477c1, 0x69c7, 0x11d2, [0x8f, 0x39, 0x0, 0xa0, 0xc9, 0x69, 0x72, 0x3b]));
}

#[test]
fn header_keeps_its_fields() {
    let h = Header::new(0x5453595320494249, 0x0002_0046, 0x78, 0xdead_beef);
    assert_eq!(h.signature, 0x5453595320494249);
    assert_eq!(h.revision, 0x0002_0046);
    assert_eq!(h.size, 0x78);
    assert_eq!(h.crc32, 0xdead_beef);
    assert_eq!(h.reserved, 0);
}

#[test]
fn page_size_is_4096() {
    assert_eq!(PAGE_SIZE, 4096);
}
