use std::collections::HashMap;

use efi::array::fits;
use efi::array::locate;
use efi::array::Array;
use efi::array::ArrayStride;
use efi::array::Memory;
use efi::array::Pointer;
use efi::common::Address;

struct Words {
    cells: HashMap<u64, u32>,
}

impl Memory<u32> for Words {
    fn read(&self, at: &Pointer<u32>) -> u32 {
        self.cells[&at.address().raw()]
    }
}

fn words() -> Words {
    let mut cells = HashMap::new();
    for i in 0..8u64 {
        cells.insert(0x1000 + 4 * i, 100 + i as u32);
    }
    Words { cells }
}

#[test]
fn pointer_refuses_null() {
    assert!(Pointer::<u8>::new(Address::null()).is_none());
    let p = Pointer::<u8>::new(Address::new(0x40)).unwrap();
    assert_eq!(p.address().raw(), 0x40);
    assert_eq!(Pointer::<u8>::from_raw(Address::new(0x41)).address().raw(), 0x41);
}

#[test]
fn pointer_loads_what_lies_at_its_address() {
    let p = Pointer::<u32>::new(Address::new(0x1008)).unwrap();
    assert_eq!(p.load(&words()), 102);
}

#[test]
fn array_reports_its_length() {
    let a = Array::<u32>::new(Address::new(0x1000), 8).unwrap();
    assert_eq!(a.length(), 8);
    let a = Array::<u32>::from_raw(Address::new(0x1000), 0);
    assert_eq!(a.length(), 0);
    let a = Array::<u64>::from_raw(Address::new(0x1000), 1000);
    assert_eq!(a.length(), 1000);
}

#[test]
fn array_index_in_range_is_base_plus_offset() {
    let a = Array::<u32>::new(Address::new(0x1000), 8).unwrap();
    assert_eq!(a.index(0).address().raw(), 0x1000);
    assert_eq!(a.index(3).address().raw(), 0x1000 + 3 * 4);
    assert_eq!(a.index(7).address().raw(), 0x1000 + 7 * 4);
    let b = Array::<u64>::new(Address::new(0x1000), 8).unwrap();
    assert_eq!(b.index(7).address().raw(), 0x1000 + 7 * 8);
}

#[test]
fn array_index_out_of_range_aliases_first_element() {
    let a = Array::<u32>::new(Address::new(0x1000), 8).unwrap();
    assert_eq!(a.index(8).address(), a.index(0).address());
    assert_eq!(a.index(9).address(), a.index(0).address());
    assert_eq!(a.index(usize::MAX).address(), a.index(0).address());
    assert!(a.index(8) == a.index(0));
    assert!(a.index(7) != a.index(0));
}

#[test]
fn array_out_of_range_reads_the_value_of_the_first_element() {
    let a = Array::<u32>::new(Address::new(0x1000), 8).unwrap();
    let memory = words();
    assert_eq!(a.load(&memory, 0), 100);
    assert_eq!(a.load(&memory, 5), 105);
    assert_eq!(a.load(&memory, 8), a.load(&memory, 0));
    assert_eq!(a.load(&memory, 1000), 100);
}

#[test]
fn empty_array_aliases_its_base() {
    let a = Array::<u32>::new(Address::new(0x1000), 0).unwrap();
    assert_eq!(a.index(0).address().raw(), 0x1000);
    assert_eq!(a.index(5).address().raw(), 0x1000);
}

#[test]
fn array_refuses_null_and_regions_that_do_not_fit() {
    assert!(Array::<u32>::new(Address::null(), 8).is_none());
    assert!(Array::<u32>::new(Address::new(0x1000), usize::MAX).is_none());
    assert!(Array::<u8>::new(Address::new(u64::MAX), 1).is_none());
    assert!(Array::<u8>::new(Address::new(u64::MAX), 0).is_some());
    assert!(Array::<u8>::new(Address::new(u64::MAX - 4), 4).is_some());
    assert!(Array::<u8>::new(Address::new(u64::MAX - 4), 5).is_none());
}

#[test]
fn array_as_bytes_spans_length_times_size() {
    let a = Array::<u32>::new(Address::new(0x1000), 8).unwrap();
    let bytes = a.as_slice();
    assert_eq!(bytes.length(), 32);
    assert_eq!(bytes.as_ptr().address().raw(), 0x1000);
    assert_eq!(bytes.index(31).address().raw(), 0x1000 + 31);
    assert_eq!(a.as_ptr().address().raw(), 0x1000);
}

#[test]
fn arrays_compare_by_place_and_length() {
    let a = Array::<u32>::new(Address::new(0x1000), 8).unwrap();
    assert!(a == Array::<u32>::new(Address::new(0x1000), 8).unwrap());
    assert!(a != Array::<u32>::new(Address::new(0x1000), 7).unwrap());
    assert!(a != Array::<u32>::new(Address::new(0x1004), 8).unwrap());
    let s = ArrayStride::<u32>::new(Address::new(0x1000), 8, 8).unwrap();
    assert!(s == ArrayStride::<u32>::new(Address::new(0x1000), 8, 8).unwrap());
    assert!(s != ArrayStride::<u32>::new(Address::new(0x1000), 8, 12).unwrap());
}

#[test]
fn strided_array_reports_its_parts() {
    let a = ArrayStride::<u64>::new(Address::new(0x2000), 8, 40).unwrap();
    assert_eq!(a.length(), 8);
    assert_eq!(a.stride(), 40);
    assert_eq!(a.as_ptr().address().raw(), 0x2000);
    assert_eq!(a.as_mut_ptr().address().raw(), 0x2000);
    let b = ArrayStride::<u64>::from_raw(Address::new(0x2000), 3, 8);
    assert_eq!(b.length(), 3);
    assert_eq!(b.stride(), 8);
}

#[test]
fn strided_index_steps_by_stride() {
    let a = ArrayStride::<u64>::new(Address::new(0x2000), 8, 40).unwrap();
    assert_eq!(a.index(0).address().raw(), 0x2000);
    assert_eq!(a.index(2).address().raw(), 0x2000 + 80);
    assert_eq!(a.index(7).address().raw(), 0x2000 + 280);
}

#[test]
fn strided_index_out_of_range_aliases_first_element() {
    let a = ArrayStride::<u64>::new(Address::new(0x2000), 8, 40).unwrap();
    assert_eq!(a.index(8).address(), a.index(0).address());
    assert_eq!(a.index(usize::MAX).address().raw(), 0x2000);
}

#[test]
fn strided_array_refuses_a_stride_below_the_element_size() {
    assert!(ArrayStride::<u64>::new(Address::new(0x2000), 8, 7).is_none());
    assert!(ArrayStride::<u64>::new(Address::new(0x2000), 8, 8).is_some());
    assert!(ArrayStride::<u64>::new(Address::null(), 8, 8).is_none());
    assert!(ArrayStride::<u64>::new(Address::new(0x2000), usize::MAX, 8).is_none());
}

#[test]
fn fits_and_locate_agree_with_the_views() {
    assert!(fits(Address::new(0x1000), 8, 4));
    assert!(!fits(Address::null(), 8, 4));
    assert!(!fits(Address::new(0x1000), usize::MAX, 2));
    assert_eq!(locate(Address::new(0x1000), 8, 4, 3).raw(), 0x100c);
    assert_eq!(locate(Address::new(0x1000), 8, 4, 8).raw(), 0x1000);
}
