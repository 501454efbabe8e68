//! The configuration tables: vendor tables that the firmware publishes,
//! each under the identifier of its type.

use vstd::prelude::*;
use crate::array::Pointer;
use crate::common::Address;
use crate::common::Guid;
use crate::common::HasGuid;

verus! {

/// One entry of the list of configuration tables.
#[derive(Copy, Clone, Debug)]
pub struct ConfigurationTable {
    /// The identifier of the table's type.
    pub vendor_guid: Guid,
    /// Where the table is.
    pub vendor_table: Address,
}

/// Whether entry `index` is the first of `entries` that is published under
/// `guid`.
pub open spec fn is_first_entry(entries: Seq<ConfigurationTable>, guid: Guid, index: int) -> bool {
    &&& 0 <= index < entries.len()
    &&& entries[index].vendor_guid == guid
    &&& forall|before: int| 0 <= before < index ==> entries[before].vendor_guid != guid
}

/// Whether no entry of `entries` is published under `guid`.
pub open spec fn has_no_entry(entries: Seq<ConfigurationTable>, guid: Guid) -> bool {
    forall|index: int| 0 <= index < entries.len() ==> entries[index].vendor_guid != guid
}

/// The index of the first of `entries` that is published under `guid`, if
/// there is one.
pub fn find_entry(entries: &[ConfigurationTable], guid: &Guid) -> (r: Option<usize>)
    ensures
        r is None <==> has_no_entry(entries@, *guid),
        r matches Some(index) ==> is_first_entry(entries@, *guid, index as int),
{
    let mut index: usize = 0;
    while index < entries.len()
        invariant
            index <= entries@.len(),
            forall|before: int| 0 <= before < index ==> entries@[before].vendor_guid != *guid,
        decreases entries@.len() - index,
    {
        if entries[index].vendor_guid == *guid {
            return Some(index);
        }
        index = index + 1;
    }
    None
}

/// Whether `r` is the table that `entries` publish under `guid`: where the
/// first entry published under it says the table is. There is none if no
/// entry is published under `guid`, or if that entry names no place.
pub open spec fn table_found<T>(entries: Seq<ConfigurationTable>, guid: Guid, r: Option<Pointer<T>>) -> bool {
    &&& has_no_entry(entries, guid) ==> r is None
    &&& forall|index: int|
        is_first_entry(entries, guid, index) ==> (r is Some <==> (
        #[trigger] entries[index]).vendor_table@ != 0)
    &&& forall|index: int|
        r is Some && is_first_entry(entries, guid, index) ==> r->Some_0.target() == (
        #[trigger] entries[index]).vendor_table
    &&& r matches Some(pointer) ==> pointer.wf()
}

/// The table that `entries` publish under `guid`: see `table_found`.
pub fn table_under<T>(entries: &[ConfigurationTable], guid: &Guid) -> (r: Option<Pointer<T>>)
    ensures
        table_found(entries@, *guid, r),
{
    match find_entry(entries, guid) {
        None => None,
        Some(found) => {
            proof {
                lemma_first_entry_is_unique(entries@, *guid, found as int);
            }
            Pointer::new(entries[found].vendor_table)
        },
    }
}

/// A list of configuration tables in which a table can be looked up by the
/// type that it has.
pub trait FindTable {
    /// The entries of the list, in their order.
    spec fn entries(&self) -> Seq<ConfigurationTable>;

    /// The table of type `T`: the one that the entries publish under an
    /// identifier that `T` is bound to, as `table_found` says. A pointer that
    /// comes back is where one of the entries says a table is.
    fn table<T: HasGuid>(&self) -> (r: Option<Pointer<T>>)
        ensures
            exists|guid: Guid|
                call_ensures(T::guid, (), guid) && table_found(self.entries(), guid, r),
            r matches Some(pointer) ==> pointer.wf() && exists|index: int|
                0 <= index < self.entries().len() && (
                #[trigger] self.entries()[index]).vendor_table == pointer.target(),
    ;
}

impl FindTable for [ConfigurationTable] {
    open spec fn entries(&self) -> Seq<ConfigurationTable> {
        self@
    }

    fn table<T: HasGuid>(&self) -> (r: Option<Pointer<T>>) {
        let guid = T::guid();
        assert(call_ensures(T::guid, (), guid));
        let found = table_under(self, &guid);
        proof {
            assert(self.entries() == self@);
            assert(table_found(self.entries(), guid, found));
            if found is Some {
                assert(!has_no_entry(self@, guid));
                let some = choose|index: int|
                    0 <= index < self@.len() && self@[index].vendor_guid == guid;
                lemma_has_first_entry(self@, guid, some);
                let first = choose|index: int| is_first_entry(self@, guid, index);
                assert(0 <= first < self.entries().len());
                assert(self.entries()[first].vendor_table == found->Some_0.target());
            }
        }
        found
    }
}

/// Where some entry is published under an identifier, one of them is the
/// first.
pub proof fn lemma_has_first_entry(entries: Seq<ConfigurationTable>, guid: Guid, some: int)
    requires
        0 <= some < entries.len(),
        entries[some].vendor_guid == guid,
    ensures
        exists|index: int| is_first_entry(entries, guid, index),
    decreases some,
{
    if forall|before: int| 0 <= before < some ==> entries[before].vendor_guid != guid {
        assert(is_first_entry(entries, guid, some));
    } else {
        let before = choose|before: int| 0 <= before < some && entries[before].vendor_guid == guid;
        lemma_has_first_entry(entries, guid, before);
    }
}

/// At most one entry is the first that is published under an identifier.
pub proof fn lemma_first_entry_is_unique(entries: Seq<ConfigurationTable>, guid: Guid, found: int)
    requires
        is_first_entry(entries, guid, found),
    ensures
        forall|index: int| is_first_entry(entries, guid, index) ==> index == found,
        !has_no_entry(entries, guid),
{
    assert forall|index: int| is_first_entry(entries, guid, index) implies index == found by {
        if index < found {
            assert(entries[index].vendor_guid != guid);
        } else if found < index {
            assert(entries[found].vendor_guid != guid);
        }
    }
}

/// The MPS table.
pub struct MSPTable {}

impl HasGuid for MSPTable {
    fn guid() -> (g: Guid)
        ensures
            g == Guid(0xeb9d2d2f, 0x2d88, 0x11d3, [0x9au8, 0x16u8, 0x0u8, 0x90u8, 0x27u8, 0x3fu8, 0xc1u8, 0x4du8]),
    {
        Guid(0xeb9d2d2f, 0x2d88, 0x11d3, [0x9a, 0x16, 0x0, 0x90, 0x27, 0x3f, 0xc1, 0x4d])
    }
}

/// The ACPI table of the first version.
pub struct ACPITable {}

impl HasGuid for ACPITable {
    fn guid() -> (g: Guid)
        ensures
            g == Guid(0xeb9d2d30, 0x2d88, 0x11d3, [0x9au8, 0x16u8, 0x0u8, 0x90u8, 0x27u8, 0x3fu8, 0xc1u8, 0x4du8]),
    {
        Guid(0xeb9d2d30, 0x2d88, 0x11d3, [0x9a, 0x16, 0x0, 0x90, 0x27, 0x3f, 0xc1, 0x4d])
    }
}

/// The ACPI table from version 2.0 on.
pub struct ACPI20Table {}

impl HasGuid for ACPI20Table {
    fn guid() -> (g: Guid)
        ensures
            g == Guid(0x8868e871, 0xe4f1, 0x11d3, [0xbcu8, 0x22u8, 0x0u8, 0x80u8, 0xc7u8, 0x3cu8, 0x88u8, 0x81u8]),
    {
        Guid(0x8868e871, 0xe4f1, 0x11d3, [0xbc, 0x22, 0x0, 0x80, 0xc7, 0x3c, 0x88, 0x81])
    }
}

/// The SMBIOS table.
pub struct SMBIOSTable {}

impl HasGuid for SMBIOSTable {
    fn guid() -> (g: Guid)
        ensures
            g == Guid(0xeb9d2d31, 0x2d88, 0x11d3, [0x9au8, 0x16u8, 0x0u8, 0x90u8, 0x27u8, 0x3fu8, 0xc1u8, 0x4du8]),
    {
        Guid(0xeb9d2d31, 0x2d88, 0x11d3, [0x9a, 0x16, 0x0, 0x90, 0x27, 0x3f, 0xc1, 0x4d])
    }
}

/// The SAL system table.
pub struct SALTable {}

impl HasGuid for SALTable {
    fn guid() -> (g: Guid)
        ensures
            g == Guid(0xeb9d2d32, 0x2d88, 0x11d3, [0x9au8, 0x16u8, 0x0u8, 0x90u8, 0x27u8, 0x3fu8, 0xc1u8, 0x4du8]),
    {
        Guid(0xeb9d2d32, 0x2d88, 0x11d3, [0x9a, 0x16, 0x0, 0x90, 0x27, 0x3f, 0xc1, 0x4d])
    }
}

} // verus!
