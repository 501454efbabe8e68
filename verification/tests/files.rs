use std::cell::RefCell;

use efi::array::Memory;
use efi::array::Pointer;
use efi::boot_services::BootServices;
use efi::boot_services::BootServicesTable;
use efi::boot_services::MemoryMapReply;
use efi::boot_services::SIGNATURE;
use efi::common::Address;
use efi::common::Guid;
use efi::common::Handle;
use efi::common::HasGuid;
use efi::common::Header;
use efi::common::Registration;
use efi::common::Status;
use efi::interface::file::is_supported;
use efi::interface::file::Attributes;
use efi::interface::file::File;
use efi::interface::file::FileInfo;
use efi::interface::file::FileInfoRaw;
use efi::interface::file::FileTable;
use efi::interface::file::OpenMode;
use efi::interface::file::Time;
use efi::interface::file::ALL_ATTRIBUTES;
use efi::interface::file::ARCHIVE;
use efi::interface::file::DIRECTORY;
use efi::interface::file::HIDDEN;
use efi::interface::file::MAX_FILE_NAME_SIZE;
use efi::interface::file::READ_ONLY;
use efi::interface::file::RESERVED;
use efi::interface::file::REVISION1;
use efi::interface::file::REVISION2;
use efi::interface::file::SYSTEM;
use efi::interface::simple_file_system::SimpleFileSystem;
use efi::interface::simple_file_system::SimpleFileSystemTable;

const NOT_FOUND: usize = 14;

/// Volumes behind the handles 1, 2 and 3. The volume of handle 1 does not
/// open, that of handle 2 has no file, and that of handle 3 has the file
/// `boot`. Handle 4 has no file system at all.
struct Volumes {
    calls: RefCell<Vec<String>>,
    old_files: bool,
}

impl Volumes {
    fn new() -> Self {
        Volumes { calls: RefCell::new(Vec::new()), old_files: false }
    }

    fn log(&self, call: String) {
        self.calls.borrow_mut().push(call);
    }
}

fn system_at(handle: usize) -> u64 {
    0x1000 * handle as u64
}

fn root_at(handle: usize) -> u64 {
    0x1000 * handle as u64 + 0x100
}

fn file_at(handle: usize) -> u64 {
    0x1000 * handle as u64 + 0x200
}

impl SimpleFileSystemTable for Volumes {
    fn file_system_revision(&self, _this: Address) -> u64 {
        0x0001_0000
    }

    fn open_volume(&self, this: Address) -> (Status, Address) {
        self.log(format!("open_volume {:#x}", this.raw()));
        if this.raw() == system_at(1) {
            (Status { raw: 7 }, Address::null())
        } else {
            (Status { raw: 0 }, Address::new(this.raw() + 0x100))
        }
    }
}

impl FileTable for Volumes {
    fn revision(&self, _this: Address) -> u64 {
        if self.old_files {
            0x0000_ffff
        } else {
            0x0002_0000
        }
    }

    fn open(&self, this: Address, file_name: &[u16], open_mode: u64, attributes: u64) -> (
        Status,
        Address,
    ) {
        self.log(format!("open {:#x} {:?} {:#x} {:#x}", this.raw(), file_name, open_mode, attributes));
        if this.raw() == root_at(3) && file_name == [0x62, 0x6f, 0x6f, 0x74, 0] {
            (Status { raw: 0 }, Address::new(file_at(3)))
        } else {
            (Status { raw: NOT_FOUND }, Address::null())
        }
    }

    fn close(&self, this: Address) -> Status {
        self.log(format!("close {:#x}", this.raw()));
        Status { raw: 0 }
    }

    fn read(&self, this: Address, mut buffer: Vec<u8>) -> (Status, usize, Vec<u8>) {
        self.log(format!("read {:#x} {}", this.raw(), buffer.len()));
        if this.raw() != file_at(3) {
            return (Status { raw: 2 }, 0, buffer);
        }
        let text = b"kernel";
        let count = text.len().min(buffer.len());
        buffer[..count].copy_from_slice(&text[..count]);
        (Status { raw: 0 }, count, buffer)
    }

    fn get_info(&self, this: Address, information_type: &Guid, size: usize, info: FileInfoRaw) -> (
        Status,
        FileInfoRaw,
    ) {
        self.log(format!("get_info {:#x} {}", this.raw(), size));
        assert!(*information_type == FileInfoRaw::guid());
        assert_eq!(info.size, size as u64);
        if this.raw() != file_at(3) {
            return (Status { raw: 2 }, info);
        }
        let mut filled = info;
        filled.file_size = 6;
        filled.physical_size = 4096;
        filled.create_time.year = 2017;
        filled.modification_time.year = 2018;
        filled.attributes = Attributes::from_bits_truncate(READ_ONLY);
        filled.file_name[0] = 0x62;
        (Status { raw: 0 }, filled)
    }
}

impl BootServicesTable for Volumes {
    fn allocate_pages(&self, _t: usize, _m: usize, _pages: usize, address: Address) -> (
        Status,
        Address,
    ) {
        (Status { raw: 9 }, address)
    }

    fn free_pages(&self, _address: Address, _pages: usize) -> Status {
        Status { raw: 9 }
    }

    fn get_memory_map(&self, _map_size: usize, _memory_map: Address) -> MemoryMapReply {
        MemoryMapReply {
            status: Status { raw: 9 },
            map_size: 0,
            map_key: 0,
            descriptor_size: 0,
            descriptor_version: 0,
        }
    }

    fn handle_protocol(&self, handle: Handle, protocol: &Guid) -> (Status, Address) {
        self.log(format!("handle_protocol {}", handle.raw()));
        if *protocol == SimpleFileSystem::<Volumes>::guid() && handle.raw() <= 3 {
            (Status { raw: 0 }, Address::new(system_at(handle.raw())))
        } else {
            (Status { raw: 3 }, Address::null())
        }
    }

    fn locate_handle_buffer(
        &self,
        search_type: u32,
        protocol: Option<Guid>,
        _search_key: Registration,
    ) -> (Status, usize, Address) {
        if search_type == 2 && protocol == Some(SimpleFileSystem::<Volumes>::guid()) {
            (Status { raw: 0 }, 4, Address::new(0x9000))
        } else {
            (Status { raw: NOT_FOUND }, 0, Address::null())
        }
    }

    fn exit_boot_services(&self, _handle: Handle, _map_key: usize) -> Status {
        Status { raw: 9 }
    }
}

impl Memory<Handle> for Volumes {
    fn read(&self, at: &Pointer<Handle>) -> Handle {
        let index = (at.address().raw() - 0x9000) as usize / std::mem::size_of::<Handle>();
        Handle::new([4, 1, 2, 3][index])
    }
}

const BOOT: [u16; 5] = [0x62, 0x6f, 0x6f, 0x74, 0];

#[test]
fn revisions_count_by_their_low_half() {
    assert_eq!(REVISION1, 0x0001_0000);
    assert_eq!(REVISION2, 0x0002_0000);
    assert!(is_supported(0x0001_0000));
    assert!(is_supported(0x0002_0000));
    assert!(!is_supported(0xffff));
    assert!(!is_supported(0));
    assert!(!is_supported(0x0000_0001_0000_0000));
    assert!(is_supported(0xffff_ffff_0001_0000));
}

#[test]
fn file_attaches_only_to_a_supported_revision() {
    let volumes = Volumes::new();
    assert!(File::new(&volumes, Address::new(0x10), 0x0001_0000).is_some());
    assert!(File::new(&volumes, Address::new(0x10), 0xffff).is_none());
    assert!(SimpleFileSystem::new(&volumes, Address::new(0x10), 0x0001_0000).is_some());
    assert!(SimpleFileSystem::new(&volumes, Address::new(0x10), 0).is_none());
}

#[test]
fn file_attaches_only_to_a_usable_answer() {
    let mut volumes = Volumes::new();
    let ok = Status { raw: 0 };
    assert!(File::attach(&volumes, ok, Address::new(0x10)).is_ok());
    assert_eq!(File::attach(&volumes, ok, Address::null()).err(), Some(Status { raw: 1 }));
    assert_eq!(
        File::attach(&volumes, Status { raw: 14 }, Address::new(0x10)).err(),
        Some(Status { raw: 14 })
    );
    assert_eq!(
        File::attach(&volumes, Status { raw: 14 }, Address::null()).err(),
        Some(Status { raw: 14 })
    );
    volumes.old_files = true;
    assert_eq!(File::attach(&volumes, ok, Address::new(0x10)).err(), Some(Status { raw: 1 }));
}

#[test]
fn file_system_attaches_at_a_pointer() {
    let volumes = Volumes::new();
    let place = Pointer::from_raw(Address::new(system_at(2)));
    let system = SimpleFileSystem::attach(&volumes, &place).unwrap();
    assert!(system.open_volume().is_ok());
}

#[test]
fn open_modes_in_raw_form() {
    assert_eq!(OpenMode::Read.into_raw(), 0x1);
    assert_eq!(OpenMode::ReadWrite.into_raw(), 0x3);
    assert_eq!(OpenMode::CreateReadWrite.into_raw(), 0x8000_0000_0000_0003);
}

#[test]
fn file_attributes_are_bits() {
    assert_eq!(
        (READ_ONLY, HIDDEN, SYSTEM, RESERVED, DIRECTORY, ARCHIVE),
        (1, 2, 4, 8, 16, 32)
    );
    assert_eq!(ALL_ATTRIBUTES, 63);
    assert_eq!(Attributes::empty().bits(), 0);
    let a = Attributes::from_bits(READ_ONLY | DIRECTORY).unwrap();
    assert_eq!(a.bits(), 17);
    assert!(a.contains(Attributes::from_bits_truncate(DIRECTORY)));
    assert!(!a.contains(Attributes::from_bits_truncate(HIDDEN)));
    assert!(a.contains(Attributes::empty()));
    assert!(Attributes::from_bits(64).is_none());
    assert_eq!(Attributes::from_bits_truncate(64 | 2).bits(), 2);
}

#[test]
fn empty_file_info_states_its_size() {
    let raw = FileInfoRaw::empty();
    assert_eq!(raw.size, std::mem::size_of::<FileInfoRaw>() as u64);
    assert_eq!(raw.size, FileInfoRaw::size() as u64);
    assert_eq!(raw.file_size, 0);
    assert_eq!(raw.physical_size, 0);
    assert_eq!(raw.create_time, Time::default());
    assert_eq!(raw.attributes.bits(), 0);
    assert_eq!(raw.file_name, [0u16; 64]);
    assert_eq!(MAX_FILE_NAME_SIZE, 64);
    assert_eq!(Time::default().year, 0);
    assert_eq!(Time::default().nanosecond, 0);
}

#[test]
fn file_info_takes_the_file_size_from_the_record() {
    let mut raw = FileInfoRaw::empty();
    raw.file_size = 10;
    raw.physical_size = 512;
    raw.last_access_time.day = 3;
    raw.file_name[1] = 0x41;
    let info = FileInfo::from(raw);
    assert_eq!(info.size, 10);
    assert_eq!(info.physical_size, 512);
    assert_eq!(info.last_access_time.day, 3);
    assert_eq!(info.name[1], 0x41);
    assert_eq!(info.name[0], 0);
}

#[test]
fn open_volume_gives_the_root() {
    let volumes = Volumes::new();
    let system = SimpleFileSystem::new(&volumes, Address::new(system_at(2)), 0x0001_0000).unwrap();
    assert!(system.open_volume().is_ok());
    let broken = SimpleFileSystem::new(&volumes, Address::new(system_at(1)), 0x0001_0000).unwrap();
    assert_eq!(broken.open_volume().err(), Some(Status { raw: 7 }));
}

#[test]
fn open_volume_refuses_an_old_file_interface() {
    let mut volumes = Volumes::new();
    volumes.old_files = true;
    let system = SimpleFileSystem::new(&volumes, Address::new(system_at(2)), 0x0001_0000).unwrap();
    assert_eq!(system.open_volume().err(), Some(Status { raw: 1 }));
}

#[test]
fn file_calls_go_to_its_interface() {
    let volumes = Volumes::new();
    let root = File::new(&volumes, Address::new(root_at(3)), 0x0001_0000).unwrap();
    let attributes = Attributes::from_bits_truncate(READ_ONLY);
    let file = root.open(&BOOT, OpenMode::Read, attributes).ok().unwrap();
    let mut buffer = vec![0u8; 4];
    assert_eq!(file.read(&mut buffer), Ok(4));
    assert_eq!(buffer, b"kern");
    let mut buffer = vec![0u8; 16];
    assert_eq!(file.read(&mut buffer), Ok(6));
    assert_eq!(&buffer[..6], b"kernel");
    assert_eq!(buffer.len(), 16);
    assert_eq!(&buffer[6..], &[0u8; 10]);
    let info = file.get_file_info().ok().unwrap();
    assert_eq!(info.size, 6);
    assert_eq!(info.physical_size, 4096);
    assert_eq!(info.create_time.year, 2017);
    assert_eq!(info.modification_time.year, 2018);
    assert_eq!(info.name[0], 0x62);
    assert_eq!(file.close(), Ok(()));
    assert_eq!(
        *volumes.calls.borrow(),
        vec![
            format!("open {:#x} {:?} 0x1 0x1", root_at(3), BOOT),
            format!("read {:#x} 4", file_at(3)),
            format!("read {:#x} 16", file_at(3)),
            format!("get_info {:#x} {}", file_at(3), std::mem::size_of::<FileInfoRaw>()),
            format!("close {:#x}", file_at(3)),
        ]
    );
}

#[test]
fn file_failures_are_handed_on() {
    let volumes = Volumes::new();
    let root = File::new(&volumes, Address::new(root_at(2)), 0x0001_0000).unwrap();
    let r = root.open(&BOOT, OpenMode::ReadWrite, Attributes::empty());
    assert_eq!(r.err(), Some(Status { raw: NOT_FOUND }));
    let mut buffer = vec![7u8; 4];
    assert_eq!(root.read(&mut buffer), Err(Status { raw: 2 }));
    assert_eq!(buffer, vec![7u8; 4]);
    assert_eq!(root.get_file_info().err(), Some(Status { raw: 2 }));
}

#[test]
fn find_file_opens_the_first_volume_that_has_the_file() {
    let volumes = Volumes::new();
    let boot = BootServices::new(Header::new(SIGNATURE, 0, 0, 0), &volumes);
    let file = boot.find_file(&volumes, &BOOT, OpenMode::Read, Attributes::empty());
    let file = file.unwrap();
    let mut buffer = vec![0u8; 6];
    assert_eq!(file.read(&mut buffer), Ok(6));
    assert_eq!(buffer, b"kernel");
    let calls = volumes.calls.borrow();
    assert_eq!(calls[0], "handle_protocol 4");
    assert_eq!(calls[1], "handle_protocol 1");
    assert_eq!(calls[2], format!("open_volume {:#x}", system_at(1)));
    assert_eq!(calls[3], "handle_protocol 2");
    assert_eq!(calls[4], format!("open_volume {:#x}", system_at(2)));
    assert_eq!(calls[5], format!("open {:#x} {:?} 0x1 0x0", root_at(2), BOOT));
    assert_eq!(calls[6], "handle_protocol 3");
}

#[test]
fn find_file_finds_nothing_where_no_volume_has_the_file() {
    let volumes = Volumes::new();
    let boot = BootServices::new(Header::new(SIGNATURE, 0, 0, 0), &volumes);
    let name = [0x78, 0];
    assert!(boot.find_file(&volumes, &name, OpenMode::Read, Attributes::empty()).is_none());
    assert!(boot.open_on(Handle::new(4), &BOOT, OpenMode::Read, Attributes::empty()).is_none());
    assert!(boot.open_on(Handle::new(3), &BOOT, OpenMode::Read, Attributes::empty()).is_some());
}

#[test]
fn file_protocols_have_their_identifiers() {
    let info = FileInfoRaw::guid();
    assert_eq!((info.0, info.1, info.2), (0x09576e92, 0x6d3f, 0x11d2));
    assert_eq!(info.3, [0x8e, 0x39, 0x00, 0xa0, 0xc9, 0x69, 0x72, 0x3b]);
    let system = SimpleFileSystem::<Volumes>::guid();
    assert_eq!((system.0, system.1, system.2), (0x964e5b22, 0x6459, 0x11d2));
    assert_eq!(system.3, [0x8e, 0x39, 0x0, 0xa0, 0xc9, 0x69, 0x72, 0x3b]);
}
