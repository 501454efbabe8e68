use efi::array::Array;
use efi::array::Pointer;
use efi::boot_services::BootServices;
use efi::boot_services::BootServicesTable;
use efi::boot_services::MemoryMapReply;
use efi::common::Address;
use efi::common::Guid;
use efi::common::Handle;
use efi::common::HasGuid;
use efi::common::Header;
use efi::common::Registration;
use efi::common::Status;
use efi::configuration_table::find_entry;
use efi::configuration_table::table_under;
use efi::configuration_table::ACPI20Table;
use efi::configuration_table::ACPITable;
use efi::configuration_table::ConfigurationTable;
use efi::configuration_table::FindTable;
use efi::configuration_table::MSPTable;
use efi::configuration_table::SALTable;
use efi::configuration_table::SMBIOSTable;
use efi::interface::simple_input::InputKey;
use efi::interface::simple_input::SimpleInput;
use efi::interface::simple_input::SimpleInputTable;
use efi::interface::simple_text_output::SimpleTextOutput;
use efi::interface::simple_text_output::SimpleTextOutputMode;
use efi::interface::simple_text_output::SimpleTextOutputTable;
use efi::common::Event;
use efi::runtime_services::RuntimeServices;
use efi::system_table::Console;
use efi::system_table::SystemTable;
use efi::tools::create_utf16;
use efi::tools::EfiObject;
use efi::tools::MAX_STRING_LENGTH;

fn entries() -> Vec<ConfigurationTable> {
    vec![
        ConfigurationTable { vendor_guid: SMBIOSTable::guid(), vendor_table: Address::new(0x100) },
        ConfigurationTable { vendor_guid: ACPITable::guid(), vendor_table: Address::new(0x200) },
        ConfigurationTable { vendor_guid: MSPTable::guid(), vendor_table: Address::null() },
        ConfigurationTable { vendor_guid: ACPITable::guid(), vendor_table: Address::new(0x400) },
    ]
}

#[test]
fn table_identifiers() {
    let tail = [0x9a, 0x16, 0x0, 0x90, 0x27, 0x3f, 0xc1, 0x4d];
    assert!(MSPTable::guid() == Guid(0xeb9d2d2f, 0x2d88, 0x11d3, tail));
    assert!(ACPITable::guid() == Guid(0xeb9d2d30, 0x2d88, 0x11d3, tail));
    assert!(SMBIOSTable::guid() == Guid(0xeb9d2d31, 0x2d88, 0x11d3, tail));
    assert!(SALTable::guid() == Guid(0xeb9d2d32, 0x2d88, 0x11d3, tail));
    assert!(
        ACPI20Table::guid()
            == Guid(0x8868e871, 0xe4f1, 0x11d3, [0xbc, 0x22, 0x0, 0x80, 0xc7, 0x3c, 0x88, 0x81])
    );
}

#[test]
fn find_entry_finds_the_first_match() {
    let list = entries();
    assert_eq!(find_entry(&list, &SMBIOSTable::guid()), Some(0));
    assert_eq!(find_entry(&list, &ACPITable::guid()), Some(1));
    assert_eq!(find_entry(&list, &MSPTable::guid()), Some(2));
    assert_eq!(find_entry(&list, &SALTable::guid()), None);
    assert_eq!(find_entry(&[], &SALTable::guid()), None);
}

#[test]
fn table_is_where_the_first_match_says() {
    let list = entries();
    let acpi: Pointer<ACPITable> = list.table::<ACPITable>().unwrap();
    assert_eq!(acpi.address().raw(), 0x200);
    assert_eq!(list.table::<SMBIOSTable>().unwrap().address().raw(), 0x100);
    assert!(list.table::<SALTable>().is_none());
    assert!(list.table::<ACPI20Table>().is_none());
    assert!(list[..1].table::<ACPITable>().is_none());
}

#[test]
fn table_that_names_no_place_is_not_found() {
    let list = entries();
    assert!(list.table::<MSPTable>().is_none());
    assert!(table_under::<u8>(&list, &MSPTable::guid()).is_none());
    assert_eq!(table_under::<u8>(&list, &ACPITable::guid()).unwrap().address().raw(), 0x200);
}

#[test]
fn text_ends_before_the_first_zero() {
    assert_eq!(create_utf16(&[0x68, 0x69, 0, 0x21, 0]), &[0x68, 0x69]);
    assert_eq!(create_utf16(&[0x68, 0x69]), &[0x68, 0x69]);
    assert_eq!(create_utf16(&[0, 0x69]), &[] as &[u16]);
    assert_eq!(create_utf16(&[]), &[] as &[u16]);
}

#[test]
fn text_is_cut_at_the_greatest_length() {
    let long = vec![0x61u16; 2000];
    assert_eq!(MAX_STRING_LENGTH, 1024);
    assert_eq!(create_utf16(&long).len(), 1024);
    assert_eq!(create_utf16(&long[..1024]).len(), 1024);
    assert_eq!(create_utf16(&long[..1023]).len(), 1023);
}

#[test]
fn object_keeps_its_parts() {
    let value = 5u32;
    let object = EfiObject::from_parts(Some(Handle::new(3)), &value);
    assert_eq!(object.get_handle(), Some(Handle::new(3)));
    assert_eq!(*object.get(), 5);
    let object = EfiObject::from_parts(None, &value);
    assert_eq!(object.get_handle(), None);
}

#[test]
fn runtime_services_header_and_signature() {
    let header = Header::new(0x56524553544e5552, 1, 2, 3);
    let runtime = RuntimeServices::new(header);
    assert!(runtime.is_valid());
    assert_eq!(runtime.get_header(), header);
    assert!(!RuntimeServices::new(Header::new(0x56524553544f4f42, 1, 2, 3)).is_valid());
    assert_eq!(efi::runtime_services::SIGNATURE, 0x56524553544e5552);
}

struct Nothing;

impl BootServicesTable for Nothing {
    fn allocate_pages(&self, _t: usize, _m: usize, _pages: usize, address: Address) -> (
        Status,
        Address,
    ) {
        (Status { raw: 9 }, address)
    }

    fn free_pages(&self, _address: Address, _pages: usize) -> Status {
        Status { raw: 9 }
    }

    fn get_memory_map(&self, _map_size: usize, _memory_map: Address) -> MemoryMapReply {
        MemoryMapReply {
            status: Status { raw: 9 },
            map_size: 0,
            map_key: 0,
            descriptor_size: 0,
            descriptor_version: 0,
        }
    }

    fn handle_protocol(&self, _handle: Handle, _protocol: &Guid) -> (Status, Address) {
        (Status { raw: 3 }, Address::null())
    }

    fn locate_handle_buffer(&self, _t: u32, _p: Option<Guid>, _k: Registration) -> (
        Status,
        usize,
        Address,
    ) {
        (Status { raw: 14 }, 0, Address::null())
    }

    fn exit_boot_services(&self, _handle: Handle, _map_key: usize) -> Status {
        Status { raw: 9 }
    }
}

impl SimpleInputTable for Nothing {
    fn reset(&self, _this: Address, _extended_verification: u8) -> Status {
        Status { raw: 0 }
    }

    fn read_key_stroke(&self, _this: Address, key: InputKey) -> (Status, InputKey) {
        (Status { raw: 6 }, key)
    }

    fn wait_for_key(&self, _this: Address) -> Event {
        Event::new(0)
    }
}

impl SimpleTextOutputTable for Nothing {
    fn reset(&self, _this: Address, _extended_verification: u8) -> Status {
        Status { raw: 0 }
    }

    fn output_string(&self, _this: Address, _string: &[u16]) -> Status {
        Status { raw: 0 }
    }

    fn test_string(&self, _this: Address, _string: &[u16]) -> Status {
        Status { raw: 0 }
    }

    fn query_mode(&self, this: Address, mode_number: usize) -> (Status, usize, usize) {
        (Status { raw: 0 }, this.raw() as usize, mode_number)
    }

    fn set_mode(&self, _this: Address, _mode_number: usize) -> Status {
        Status { raw: 0 }
    }

    fn set_attribute(&self, _this: Address, _attribute: usize) -> Status {
        Status { raw: 0 }
    }

    fn clear_screen(&self, _this: Address) -> Status {
        Status { raw: 0 }
    }

    fn set_cursor_position(&self, _this: Address, _column: usize, _row: usize) -> Status {
        Status { raw: 0 }
    }

    fn enable_cursor(&self, _this: Address, _enable: u8) -> Status {
        Status { raw: 0 }
    }

    fn mode(&self, _this: Address) -> SimpleTextOutputMode {
        SimpleTextOutputMode {
            max_mode: 0,
            mode: 0,
            attribute: 0,
            cursor_column: 0,
            cursor_row: 0,
            cursor_visible: 0,
        }
    }
}

fn system_table(firmware: &Nothing, signature: u64) -> SystemTable<'_, Nothing> {
    SystemTable {
        header: Header::new(signature, 0x0002_0046, 0x78, 0),
        firmware_vendor: Pointer::from_raw(Address::new(0x3000)),
        firmware_revision: 0x0001_0000,
        stdin: Console {
            handle: Handle::new(1),
            interface: SimpleInput::new(firmware, Address::new(0x100)),
        },
        stdout: Console {
            handle: Handle::new(2),
            interface: SimpleTextOutput::new(firmware, Address::new(0x200)),
        },
        stderr: Console {
            handle: Handle::new(3),
            interface: SimpleTextOutput::new(firmware, Address::new(0x300)),
        },
        runtime_services: RuntimeServices::new(Header::new(0x56524553544e5552, 0, 0, 0)),
        boot_services: BootServices::new(Header::new(0x56524553544f4f42, 0, 0, 0), firmware),
        configuration_tables: Array::from_raw(Address::new(0x5000), 4),
    }
}

#[test]
fn system_table_signature() {
    let firmware = Nothing;
    let table = system_table(&firmware, 0x5453595320494249);
    assert!(table.is_valid());
    table.check();
    assert!(!system_table(&firmware, 0x5453595320494248).is_valid());
    assert_eq!(efi::system_table::SIGNATURE, 0x5453595320494249);
}

#[test]
fn system_table_hands_out_its_parts() {
    let firmware = Nothing;
    let table = system_table(&firmware, 0x5453595320494249);
    assert_eq!(table.header().size, 0x78);
    assert_eq!(table.firmware_vendor().address().raw(), 0x3000);
    assert_eq!(table.firmware_revision(), 0x0001_0000);
    assert_eq!(table.stdin().read_key_stroke(), Err(Status { raw: 6 }));
    assert_eq!(table.stdout().query_mode(4), Ok((0x200, 4)));
    assert_eq!(table.stderr().query_mode(5), Ok((0x300, 5)));
    assert!(table.runtime_services().is_valid());
    assert!(table.boot_services().is_valid());
    assert_eq!(table.configuration_tables().length(), 4);
}

#[test]
fn system_table_objects_carry_their_handles() {
    let firmware = Nothing;
    let table = system_table(&firmware, 0x5453595320494249);
    assert_eq!(table.get_stdin().get_handle(), Some(Handle::new(1)));
    assert_eq!(table.get_stdout().get_handle(), Some(Handle::new(2)));
    assert_eq!(table.get_stdout().get().query_mode(1), Ok((0x200, 1)));
    assert_eq!(table.get_stderr().get_handle(), Some(Handle::new(3)));
    assert_eq!(table.get_runtime_services().get_handle(), None);
    assert_eq!(table.get_boot_services().get_handle(), None);
    let object = table.as_object(Handle::new(9));
    assert_eq!(object.get_handle(), Some(Handle::new(9)));
    assert_eq!(object.get().firmware_revision(), 0x0001_0000);
}
