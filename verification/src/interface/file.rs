//! The file protocol: one open file or directory of a volume.

use vstd::prelude::*;
use crate::boot_services::interface_reply;
use crate::common::Address;
use crate::common::Char16;
use crate::common::Guid;
use crate::common::HasGuid;
use crate::common::Status;
use crate::common::Word;

verus! {

/// The first revision of the protocol.
pub const REVISION1: u32 = 0x0001_0000;

/// The revision that added the asynchronous entry points.
pub const REVISION2: u32 = 0x0002_0000;

/// The number of code units that a file name in a `FileInfo` has room for.
pub const MAX_FILE_NAME_SIZE: usize = 64;

pub const READ_ONLY: u64 = 0x1;

pub const HIDDEN: u64 = 0x2;

pub const SYSTEM: u64 = 0x4;

pub const RESERVED: u64 = 0x8;

pub const DIRECTORY: u64 = 0x10;

pub const ARCHIVE: u64 = 0x20;

/// Every attribute bit that has a meaning.
pub const ALL_ATTRIBUTES: u64 = 0x3f;

/// Whether a table that reports `revision` offers the entry points of the
/// first revision: the low 32 bits count.
pub open spec fn supported(revision: u64) -> bool {
    revision & 0xffff_ffff >= REVISION1
}

/// Decides `supported`.
pub fn is_supported(revision: u64) -> (r: bool)
    ensures
        r == supported(revision),
{
    revision & 0xffff_ffff >= 0x0001_0000
}

/// How a file is opened.
#[derive(Copy, Clone, Debug, PartialEq, Eq, Structural)]
pub enum OpenMode {
    Read,
    ReadWrite,
    CreateReadWrite,
}

impl OpenMode {
    /// The mode as the firmware takes it: one bit to read, one to write and
    /// the highest to create.
    pub open spec fn bits(self) -> u64 {
        match self {
            OpenMode::Read => 0x1,
            OpenMode::ReadWrite => 0x3,
            OpenMode::CreateReadWrite => 0x8000_0000_0000_0003,
        }
    }

    pub fn into_raw(self) -> (r: u64)
        ensures
            r == self.bits(),
    {
        match self {
            OpenMode::Read => 0x1,
            OpenMode::ReadWrite => 0x3,
            OpenMode::CreateReadWrite => 0x8000_0000_0000_0003,
        }
    }
}

/// The attributes of a file, one bit each.
#[derive(Copy, Clone, Debug, PartialEq, Eq, Structural)]
pub struct Attributes {
    bits: u64,
}

impl View for Attributes {
    type V = u64;

    closed spec fn view(&self) -> u64 {
        self.bits
    }
}

impl Attributes {
    /// No attribute at all.
    pub fn empty() -> (r: Self)
        ensures
            r@ == 0,
    {
        Attributes { bits: 0 }
    }

    /// The attributes in `bits`, if every bit set there has a meaning.
    pub fn from_bits(bits: u64) -> (r: Option<Self>)
        ensures
            r is Some <==> bits & !ALL_ATTRIBUTES == 0,
            r matches Some(a) ==> a@ == bits,
    {
        if bits & !ALL_ATTRIBUTES == 0 {
            Some(Attributes { bits })
        } else {
            None
        }
    }

    /// The attributes in `bits`, without the bits that have no meaning.
    pub fn from_bits_truncate(bits: u64) -> (r: Self)
        ensures
            r@ == bits & ALL_ATTRIBUTES,
    {
        Attributes { bits: bits & ALL_ATTRIBUTES }
    }

    pub fn bits(&self) -> (r: u64)
        ensures
            r == self@,
    {
        self.bits
    }

    /// Whether every attribute of `other` is among these.
    pub fn contains(&self, other: Attributes) -> (r: bool)
        ensures
            r == (self@ & other@ == other@),
    {
        self.bits & other.bits == other.bits
    }
}

/// A point in time as the firmware records it.
#[derive(Copy, Clone, Debug, PartialEq, Eq, Structural)]
pub struct Time {
    pub year: u16,
    pub month: u8,
    pub day: u8,
    pub hour: u8,
    pub minute: u8,
    pub second: u8,
    pub pad1: u8,
    pub nanosecond: u32,
    pub time_zone: i16,
    pub day_light: u8,
    pub pad2: u8,
}

impl Time {
    /// The time with every field zero.
    pub open spec fn zero() -> Time {
        Time {
            year: 0,
            month: 0,
            day: 0,
            hour: 0,
            minute: 0,
            second: 0,
            pad1: 0,
            nanosecond: 0,
            time_zone: 0,
            day_light: 0,
            pad2: 0,
        }
    }
}

impl Default for Time {
    fn default() -> (time: Self)
        ensures
            time == Time::zero(),
    {
        Time {
            year: 0,
            month: 0,
            day: 0,
            hour: 0,
            minute: 0,
            second: 0,
            pad1: 0,
            nanosecond: 0,
            time_zone: 0,
            day_light: 0,
            pad2: 0,
        }
    }
}

/// The record that the firmware fills in when asked about a file.
#[derive(Copy, Clone, Debug)]
pub struct FileInfoRaw {
    /// The size of this record in bytes.
    pub size: u64,
    pub file_size: u64,
    pub physical_size: u64,
    pub create_time: Time,
    pub last_access_time: Time,
    pub modification_time: Time,
    pub attributes: Attributes,
    pub file_name: [Char16; 64],
}

impl FileInfoRaw {
    /// The size of the record in bytes.
    pub fn size() -> (r: usize)
        ensures
            r == vstd::layout::size_of::<FileInfoRaw>(),
    {
        core::mem::size_of::<FileInfoRaw>()
    }

    /// Whether the record is one to hand to the firmware: it states its own
    /// size, and everything else in it is zero.
    pub open spec fn is_blank(self) -> bool {
        &&& self.size == vstd::layout::size_of::<FileInfoRaw>()
        &&& self.file_size == 0
        &&& self.physical_size == 0
        &&& self.create_time == Time::zero()
        &&& self.last_access_time == Time::zero()
        &&& self.modification_time == Time::zero()
        &&& self.attributes@ == 0
        &&& forall|i: int| 0 <= i < 64 ==> self.file_name[i] == 0
    }

    /// The identifier of the kind of information that the record holds.
    pub open spec fn identifier() -> Guid {
        Guid(0x09576e92, 0x6d3f, 0x11d2, [0x8eu8, 0x39u8, 0x00u8, 0xa0u8, 0xc9u8, 0x69u8, 0x72u8, 0x3bu8])
    }

    /// A record to hand to the firmware: it states its own size, and
    /// everything else in it is zero.
    pub fn empty() -> (r: Self)
        ensures
            r.is_blank(),
    {
        FileInfoRaw {
            size: Self::size() as u64,
            file_size: 0,
            physical_size: 0,
            create_time: Time::default(),
            last_access_time: Time::default(),
            modification_time: Time::default(),
            attributes: Attributes::empty(),
            file_name: [0u16; 64],
        }
    }
}

/// What a caller learns about a file.
#[derive(Copy, Clone, Debug)]
pub struct FileInfo {
    /// The size of the file in bytes.
    pub size: u64,
    /// The number of bytes that the file takes on the volume.
    pub physical_size: u64,
    pub create_time: Time,
    pub last_access_time: Time,
    pub modification_time: Time,
    pub name: [Char16; 64],
}

impl From<FileInfoRaw> for FileInfo {
    fn from(raw: FileInfoRaw) -> (info: Self) {
        FileInfo {
            size: raw.file_size,
            physical_size: raw.physical_size,
            create_time: raw.create_time,
            last_access_time: raw.last_access_time,
            modification_time: raw.modification_time,
            name: raw.file_name,
        }
    }
}

impl vstd::std_specs::convert::FromSpecImpl<FileInfoRaw> for FileInfo {
    open spec fn obeys_from_spec() -> bool {
        true
    }

    open spec fn from_spec(raw: FileInfoRaw) -> Self {
        FileInfo {
            size: raw.file_size,
            physical_size: raw.physical_size,
            create_time: raw.create_time,
            last_access_time: raw.last_access_time,
            modification_time: raw.modification_time,
            name: raw.file_name,
        }
    }
}

/// The identifier of the kind of information that `FileInfoRaw` holds.
impl HasGuid for FileInfoRaw {
    fn guid() -> (g: Guid)
        ensures
            g == FileInfoRaw::identifier(),
    {
        Guid(0x09576e92, 0x6d3f, 0x11d2, [0x8e, 0x39, 0x00, 0xa0, 0xc9, 0x69, 0x72, 0x3b])
    }
}

/// The entry points of the file protocol. `this` is the address of the
/// interface that the call is for.
pub trait FileTable {
    /// The revision that the interface at `this` reports.
    fn revision(&self, this: Address) -> u64;

    /// Opens `file_name` relative to `this`; the address of the new file's
    /// interface comes out.
    fn open(&self, this: Address, file_name: &[Char16], open_mode: u64, attributes: u64) -> (
        Status,
        Address,
    );

    fn close(&self, this: Address) -> Status;

    /// Reads into `buffer`; the number of bytes read comes out, and with
    /// it the buffer.
    fn read(&self, this: Address, buffer: Vec<u8>) -> (Status, Word, Vec<u8>);

    /// Asks for the information of kind `information_type` in a record of
    /// `size` bytes; `info` goes in and the filled record comes out.
    fn get_info(&self, this: Address, information_type: &Guid, size: Word, info: FileInfoRaw) -> (
        Status,
        FileInfoRaw,
    );
}

/// One interface of the file protocol: an open file or directory.
pub struct File<'a, F: FileTable> {
    this: Address,
    revision: u64,
    table: &'a F,
}

impl<'a, F: FileTable> File<'a, F> {
    #[verifier::type_invariant]
    spec fn inv(self) -> bool {
        self.wf()
    }

    /// The address of the interface.
    pub closed spec fn place(self) -> Address {
        self.this
    }

    /// The revision that the interface reported when it was attached.
    pub closed spec fn version(self) -> u64 {
        self.revision
    }

    /// What holds of every file: its interface offers the entry points of
    /// the first revision.
    pub open spec fn wf(self) -> bool {
        supported(self.version())
    }

    /// The entry points through which the interface is reached.
    pub closed spec fn entries(self) -> &'a F {
        self.table
    }

    /// The interface at `this`, reached through `table`, if the revision
    /// that it reports is one that this layer can call.
    pub fn new(table: &'a F, this: Address, revision: u64) -> (r: Option<Self>)
        ensures
            r is Some <==> supported(revision),
            r matches Some(file) ==> file.place() == this && file.version() == revision
                && file.entries() == table && file.wf(),
    {
        if is_supported(revision) {
            Some(File { this, revision, table })
        } else {
            None
        }
    }

    /// Whether `r` is what `attach` makes of the answer `status` and `this`
    /// to a request that opens a file. A failure of the firmware is handed
    /// on, and success with a null address is a failure too. Of an interface
    /// that is there the firmware is asked for the revision: the file is at
    /// `this` with that revision, and a revision older than the first is a
    /// failure as well.
    pub open spec fn attached(table: &'a F, status: Status, this: Address, r: Result<Self, Status>) -> bool {
        if status.raw != 0 || this@ == 0 {
            r == Err::<Self, Status>(status.failure())
        } else {
            exists|revision: u64|
                call_ensures(F::revision, (table, this), revision) && if supported(revision) {
                    r matches Ok(file) && file.place() == this && file.version() == revision
                        && file.entries() == table
                } else {
                    r == Err::<Self, Status>(Status::unusable_reply())
                }
        }
    }

    /// Attaches to the interface that a request to open a file answered
    /// with: see `attached`.
    pub fn attach(table: &'a F, status: Status, this: Address) -> (r: Result<Self, Status>)
        ensures
            Self::attached(table, status, this, r),
            r matches Ok(file) ==> status.raw == 0 && this@ != 0 && file.place() == this
                && file.wf(),
            r matches Err(failure) ==> failure.raw != 0,
    {
        let place = match interface_reply::<Self>(status, this) {
            Ok(pointer) => pointer.address(),
            Err(failure) => {
                return Err(failure);
            },
        };
        proof {
            Address::lemma_view_injective(place, this);
        }
        let revision = table.revision(place);
        assert(call_ensures(F::revision, (table, this), revision));
        match File::new(table, place, revision) {
            Some(file) => Ok(file),
            None => Err(Status::unusable()),
        }
    }

    /// Whether `r` is what `open` makes of an answer that the firmware
    /// gives to the request to open the file named `name` relative to this
    /// one, in the mode `open_mode` and with `attributes`: the mode and the
    /// attributes are handed over as their bits, and the answer is read as
    /// `attached` says.
    pub open spec fn opened(
        self,
        name: Seq<Char16>,
        open_mode: OpenMode,
        attributes: Attributes,
        r: Result<Self, Status>,
    ) -> bool {
        exists|file_name: &[Char16], status: Status, other: Address|
            file_name@ == name && call_ensures(
                F::open,
                (self.entries(), self.place(), file_name, open_mode.bits(), attributes@),
                (status, other),
            ) && Self::attached(self.entries(), status, other, r)
    }

    /// Opens `file_name` relative to this file: see `opened`. A file that
    /// comes back is at an address other than null and of a revision that
    /// this layer can call, and every failure carries a status other than
    /// zero.
    pub fn open(&self, file_name: &[Char16], open_mode: OpenMode, attributes: Attributes) -> (r:
        Result<File<'a, F>, Status>)
        ensures
            self.opened(file_name@, open_mode, attributes, r),
            r matches Ok(file) ==> file.wf() && file.place()@ != 0,
            r matches Err(status) ==> status.raw != 0,
    {
        let (status, other) = self.table.open(
            self.this,
            file_name,
            open_mode.into_raw(),
            attributes.bits(),
        );
        assert(call_ensures(
            F::open,
            (self.entries(), self.place(), file_name, open_mode.bits(), attributes@),
            (status, other),
        ));
        Self::attach(self.table, status, other)
    }

    /// Closes the file: the result is success where the firmware answers
    /// that request with the status zero, and that status as the failure
    /// otherwise.
    pub fn close(&self) -> (r: Result<(), Status>)
        ensures
            exists|status: Status|
                call_ensures(F::close, (self.entries(), self.place()), status) && r
                    == status.checked(()),
            r matches Err(status) ==> status.raw != 0,
    {
        let status = self.table.close(self.this);
        assert(call_ensures(F::close, (self.entries(), self.place()), status));
        status.check(())
    }

    /// Whether `r` is what `read` makes of an answer that the firmware
    /// gives to the request to read from this file into a buffer that holds
    /// `before`: the buffer then holds `after`, and `r` is the number of bytes
    /// that the firmware reports where the status is zero, and the status as
    /// the failure otherwise.
    pub open spec fn was_read(self, before: Seq<u8>, after: Seq<u8>, r: Result<Word, Status>) -> bool {
        exists|handed: Vec<u8>, status: Status, size: Word, filled: Vec<u8>|
            handed@ == before && filled@ == after && call_ensures(
                F::read,
                (self.entries(), self.place(), handed),
                (status, size, filled),
            ) && r == status.checked(size)
    }

    /// Reads into `buffer` and returns the number of bytes that the
    /// firmware reports: see `was_read`. The buffer is handed to the firmware
    /// and holds afterwards what came back.
    pub fn read(&self, buffer: &mut Vec<u8>) -> (r: Result<Word, Status>)
        ensures
            self.was_read(old(buffer)@, final(buffer)@, r),
            r matches Err(status) ==> status.raw != 0,
    {
        let mut handed: Vec<u8> = Vec::new();
        core::mem::swap(buffer, &mut handed);
        let (status, size, filled) = self.table.read(self.this, handed);
        assert(call_ensures(
            F::read,
            (self.entries(), self.place(), handed),
            (status, size, filled),
        ));
        *buffer = filled;
        status.check(size)
    }

    /// Whether `r` is what `get_file_info` makes of an answer that the
    /// firmware gives when asked about this file. The request names the kind
    /// of information by `FileInfoRaw::identifier`, gives the size of a
    /// record and hands over a blank record. Where the status is zero the
    /// result is what `FileInfo` takes from the record that came out, and
    /// otherwise the status as the failure.
    pub open spec fn info_read(self, r: Result<FileInfo, Status>) -> bool {
        exists|size: Word, blank: FileInfoRaw, status: Status, info: FileInfoRaw|
            size == vstd::layout::size_of::<FileInfoRaw>() && blank.is_blank() && call_ensures(
                F::get_info,
                (self.entries(), self.place(), &FileInfoRaw::identifier(), size, blank),
                (status, info),
            ) && r == status.checked(
                <FileInfo as vstd::std_specs::convert::FromSpec<FileInfoRaw>>::from_spec(info),
            )
    }

    /// Asks the firmware about the file: see `info_read`.
    pub fn get_file_info(&self) -> (r: Result<FileInfo, Status>)
        ensures
            self.info_read(r),
            r matches Err(status) ==> status.raw != 0,
    {
        let guid = FileInfoRaw::guid();
        let size = FileInfoRaw::size();
        let blank = FileInfoRaw::empty();
        let (status, info) = self.table.get_info(self.this, &guid, size, blank);
        assert(call_ensures(
            F::get_info,
            (self.entries(), self.place(), &FileInfoRaw::identifier(), size, blank),
            (status, info),
        ));
        status.check(FileInfo::from(info))
    }
}

} // verus!
