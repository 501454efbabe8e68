//! The boot services: page allocation, the memory map, the lookup of
//! protocols and handles, and the hand-over that ends them.
//!
//! The firmware's entry points are a `BootServicesTable`. What it answers is
//! taken as it comes: every function here says what it returns for each
//! possible answer, and promises nothing of the firmware.

use vstd::prelude::*;
use crate::array::region_fits;
use crate::array::Array;
use crate::array::Pointer;
use crate::common::Address;
use crate::common::Guid;
use crate::common::Handle;
use crate::common::HasGuid;
use crate::common::Header;
use crate::common::Registration;
use crate::common::Status;
use crate::common::Word;
use crate::dynamic_array::DynamicArrayStride;

verus! {

/// The signature in the header of the boot services table.
pub const SIGNATURE: u64 = 0x56524553544f4f42;

/// How often `get_memory_map` asks for the size of the map before it gives
/// up on a map that keeps changing.
pub const MEMORY_MAP_ATTEMPTS: usize = 4;

pub const MEMORY_UC: u64 = 0x1;

pub const MEMORY_WC: u64 = 0x2;

pub const MEMORY_WT: u64 = 0x4;

pub const MEMORY_WB: u64 = 0x8;

pub const MEMORY_UCE: u64 = 0x10;

pub const MEMORY_WP: u64 = 0x1000;

pub const MEMORY_RP: u64 = 0x2000;

pub const MEMORY_XP: u64 = 0x4000;

pub const MEMORY_NV: u64 = 0x8000;

pub const MEMORY_MORE_RELIABLE: u64 = 0x1_0000;

pub const MEMORY_RO: u64 = 0x2_0000;

pub const MEMORY_RUNTIME: u64 = 0x8000_0000_0000_0000;

/// Every attribute bit that has a meaning.
pub const MEMORY_ALL: u64 = 0x8000_0000_0003_f01f;

/// The number of memory types that there are.
pub const MEMORY_TYPES: u32 = 15;

/// The attributes of a memory region, one bit each.
#[derive(Copy, Clone, Debug, PartialEq, Eq, Structural)]
pub struct MemoryAttributes {
    bits: u64,
}

impl View for MemoryAttributes {
    type V = u64;

    closed spec fn view(&self) -> u64 {
        self.bits
    }
}

impl MemoryAttributes {
    /// The attributes in `bits`, if every bit set there has a meaning.
    pub fn from_bits(bits: u64) -> (r: Option<Self>)
        ensures
            r is Some <==> bits & !MEMORY_ALL == 0,
            r matches Some(a) ==> a@ == bits,
    {
        if bits & !MEMORY_ALL == 0 {
            Some(MemoryAttributes { bits })
        } else {
            None
        }
    }

    /// The attributes in `bits`, without the bits that have no meaning.
    pub fn from_bits_truncate(bits: u64) -> (r: Self)
        ensures
            r@ == bits & MEMORY_ALL,
    {
        MemoryAttributes { bits: bits & MEMORY_ALL }
    }

    pub fn bits(&self) -> (r: u64)
        ensures
            r == self@,
    {
        self.bits
    }

    /// Whether every attribute of `other` is among these.
    pub fn contains(&self, other: MemoryAttributes) -> (r: bool)
        ensures
            r == (self@ & other@ == other@),
    {
        self.bits & other.bits == other.bits
    }
}

/// What a region of memory is used for.
#[derive(Copy, Clone, Debug, PartialEq, Eq, Structural)]
pub enum MemoryType {
    ReservedMemoryType,
    LoaderCode,
    LoaderData,
    BootServicesCode,
    BootServicesData,
    RuntimeServicesCode,
    RuntimeServicesData,
    ConventionalMemory,
    UnusableMemory,
    ACPIReclaimMemory,
    ACPIMemoryNVS,
    MemoryMappedIO,
    MemoryMappedIOPortSpace,
    PalCode,
    PersistentMemory,
}

impl MemoryType {
    /// The number that the firmware knows the type by: its place in the
    /// list, from zero.
    pub open spec fn code(self) -> Word {
        match self {
            MemoryType::ReservedMemoryType => 0,
            MemoryType::LoaderCode => 1,
            MemoryType::LoaderData => 2,
            MemoryType::BootServicesCode => 3,
            MemoryType::BootServicesData => 4,
            MemoryType::RuntimeServicesCode => 5,
            MemoryType::RuntimeServicesData => 6,
            MemoryType::ConventionalMemory => 7,
            MemoryType::UnusableMemory => 8,
            MemoryType::ACPIReclaimMemory => 9,
            MemoryType::ACPIMemoryNVS => 10,
            MemoryType::MemoryMappedIO => 11,
            MemoryType::MemoryMappedIOPortSpace => 12,
            MemoryType::PalCode => 13,
            MemoryType::PersistentMemory => 14,
        }
    }

    /// The type that the firmware knows by the number `code`, if there is
    /// one.
    pub fn from_raw(code: u32) -> (r: Option<Self>)
        ensures
            r is Some <==> code < MEMORY_TYPES,
            r matches Some(memory_type) ==> memory_type.code() == code,
    {
        match code {
            0 => Some(MemoryType::ReservedMemoryType),
            1 => Some(MemoryType::LoaderCode),
            2 => Some(MemoryType::LoaderData),
            3 => Some(MemoryType::BootServicesCode),
            4 => Some(MemoryType::BootServicesData),
            5 => Some(MemoryType::RuntimeServicesCode),
            6 => Some(MemoryType::RuntimeServicesData),
            7 => Some(MemoryType::ConventionalMemory),
            8 => Some(MemoryType::UnusableMemory),
            9 => Some(MemoryType::ACPIReclaimMemory),
            10 => Some(MemoryType::ACPIMemoryNVS),
            11 => Some(MemoryType::MemoryMappedIO),
            12 => Some(MemoryType::MemoryMappedIOPortSpace),
            13 => Some(MemoryType::PalCode),
            14 => Some(MemoryType::PersistentMemory),
            _ => None,
        }
    }

    /// Every type has a number below `MEMORY_TYPES`, and no two types have
    /// the same.
    pub proof fn lemma_code_injective(a: MemoryType, b: MemoryType)
        ensures
            a.code() < MEMORY_TYPES,
            a.code() == b.code() ==> a == b,
    {
    }

    pub fn into_raw(self) -> (r: Word)
        ensures
            r == self.code(),
    {
        match self {
            MemoryType::ReservedMemoryType => 0,
            MemoryType::LoaderCode => 1,
            MemoryType::LoaderData => 2,
            MemoryType::BootServicesCode => 3,
            MemoryType::BootServicesData => 4,
            MemoryType::RuntimeServicesCode => 5,
            MemoryType::RuntimeServicesData => 6,
            MemoryType::ConventionalMemory => 7,
            MemoryType::UnusableMemory => 8,
            MemoryType::ACPIReclaimMemory => 9,
            MemoryType::ACPIMemoryNVS => 10,
            MemoryType::MemoryMappedIO => 11,
            MemoryType::MemoryMappedIOPortSpace => 12,
            MemoryType::PalCode => 13,
            MemoryType::PersistentMemory => 14,
        }
    }
}

/// One record of the memory map as it lies in the firmware's memory.
#[derive(Copy, Clone, Debug, PartialEq, Eq, Structural)]
pub struct MemoryDescriptorRaw {
    pub memory_type: u32,
    pub physical_start: u64,
    pub virtual_start: u64,
    pub number_of_pages: u64,
    pub attribute: u64,
}

/// One record of the memory map: a region of physical memory.
#[derive(Copy, Clone, Debug, PartialEq, Eq, Structural)]
pub struct MemoryDescriptor {
    pub memory_type: MemoryType,
    pub physical_start: Address,
    pub virtual_start: Address,
    pub number_of_pages: u64,
    pub attribute: MemoryAttributes,
}

impl MemoryDescriptor {
    /// Whether `descriptor` says what `raw` says: the same type, places and
    /// number of pages, and the attributes of `raw` that have a meaning.
    pub open spec fn describes(descriptor: MemoryDescriptor, raw: MemoryDescriptorRaw) -> bool {
        &&& descriptor.memory_type.code() == raw.memory_type
        &&& descriptor.physical_start@ == raw.physical_start
        &&& descriptor.virtual_start@ == raw.virtual_start
        &&& descriptor.number_of_pages == raw.number_of_pages
        &&& descriptor.attribute@ == raw.attribute & MEMORY_ALL
    }

    /// Reads a record. There is no descriptor for a record whose type is
    /// none of the known ones; attribute bits without a meaning are dropped.
    pub fn from_raw(raw: MemoryDescriptorRaw) -> (r: Option<Self>)
        ensures
            r is Some <==> raw.memory_type < MEMORY_TYPES,
            r matches Some(descriptor) ==> Self::describes(descriptor, raw),
    {
        match MemoryType::from_raw(raw.memory_type) {
            None => None,
            Some(memory_type) => Some(
                MemoryDescriptor {
                    memory_type,
                    physical_start: Address::new(raw.physical_start),
                    virtual_start: Address::new(raw.virtual_start),
                    number_of_pages: raw.number_of_pages,
                    attribute: MemoryAttributes::from_bits_truncate(raw.attribute),
                },
            ),
        }
    }
}

/// Where the allocator may place the pages of a request.
#[derive(Copy, Clone, Debug)]
pub enum AllocateType {
    AllocateAnyPages,
    AllocateMaxAddress(Address),
    AllocateAddress(Address),
}

impl AllocateType {
    /// The kind of placement and the address that goes with it, as the
    /// firmware takes them.
    pub open spec fn raw_parts(self) -> (Word, u64) {
        match self {
            AllocateType::AllocateAnyPages => (0, 0),
            AllocateType::AllocateMaxAddress(limit) => (1, limit@),
            AllocateType::AllocateAddress(address) => (2, address@),
        }
    }

    pub fn into_raw(self) -> (r: (Word, Address))
        ensures
            r.0 == self.raw_parts().0,
            r.1@ == self.raw_parts().1,
    {
        match self {
            AllocateType::AllocateAnyPages => (0, Address::null()),
            AllocateType::AllocateMaxAddress(limit) => (1, limit),
            AllocateType::AllocateAddress(address) => (2, address),
        }
    }
}

/// Which handles `locate_handle_buffer` looks for.
#[derive(Copy, Clone, Debug)]
pub enum SearchKey {
    /// Every handle there is.
    AllHandles,
    /// The handles that the notification registered under this token is for.
    ByRegisterNotify(Registration),
    /// The handles that support the protocol with this identifier.
    ByProtocol(Guid),
}

impl SearchKey {
    /// The search mode, the protocol and the token, as the firmware takes
    /// them: each mode uses one of the two and leaves the other empty.
    pub open spec fn raw_parts(self) -> (u32, Option<Guid>, Word) {
        match self {
            SearchKey::AllHandles => (0, None, 0),
            SearchKey::ByRegisterNotify(registration) => (1, None, registration@),
            SearchKey::ByProtocol(guid) => (2, Some(guid), 0),
        }
    }

    pub fn into_raw(self) -> (r: (u32, Option<Guid>, Registration))
        ensures
            r.0 == self.raw_parts().0,
            r.1 == self.raw_parts().1,
            r.2@ == self.raw_parts().2,
    {
        match self {
            SearchKey::AllHandles => (0, None, Registration::null()),
            SearchKey::ByRegisterNotify(registration) => (1, None, registration),
            SearchKey::ByProtocol(guid) => (2, Some(guid), Registration::null()),
        }
    }
}

/// What the firmware answers to a request for the memory map.
#[derive(Copy, Clone, Debug)]
pub struct MemoryMapReply {
    pub status: Status,
    /// The size of the whole map in bytes.
    pub map_size: Word,
    /// The key that names this state of the map.
    pub map_key: Word,
    /// The distance in bytes from one record to the next.
    pub descriptor_size: Word,
    pub descriptor_version: u32,
}

/// Why the answer to the request that was to fill the buffer left it
/// without the map.
#[derive(Copy, Clone, Debug, PartialEq, Eq, Structural)]
pub enum Cause {
    /// The map is no longer the one the buffer was made for.
    Stale,
    /// The firmware failed for another reason.
    Failed(Status),
}

/// What to make of the answer to the request that was to fill the buffer.
#[derive(Copy, Clone, Debug, PartialEq, Eq, Structural)]
pub enum Verdict {
    /// The buffer holds the map.
    Complete,
    /// The buffer does not hold the map.
    Incomplete(Cause),
}

/// What follows an attempt that did not end with a complete map.
#[derive(Copy, Clone, Debug, PartialEq, Eq, Structural)]
pub enum Step {
    /// Ask for the size of the map again.
    Again,
    /// Give up with this failure.
    Stop(Status),
}

impl MemoryMapReply {
    /// Whether the sizes in the reply describe a map of whole records with
    /// room for a descriptor in each.
    pub open spec fn describes_records(self) -> bool {
        &&& self.descriptor_size != 0
        &&& self.descriptor_size >= vstd::layout::size_of::<MemoryDescriptorRaw>()
        &&& self.map_size % self.descriptor_size == 0
    }

    /// What `layout` returns: the number of records and their stride, the
    /// firmware's failure, or `UNUSABLE_REPLY` for sizes that describe no
    /// records.
    pub open spec fn layout_of(self) -> Result<(Word, Word), Status> {
        if self.status.raw != 0 {
            Err(self.status)
        } else if !self.describes_records() {
            Err(Status::unusable_reply())
        } else {
            Ok(((self.map_size / self.descriptor_size) as Word, self.descriptor_size))
        }
    }

    /// Reads the answer to a request that only asked for the size of the
    /// map: how many records there are and how far apart.
    pub fn layout(&self) -> (r: Result<(Word, Word), Status>)
        ensures
            r == self.layout_of(),
            r matches Ok(l) ==> l.0 * l.1 == self.map_size && l.1 >= vstd::layout::size_of::<
                MemoryDescriptorRaw,
            >(),
    {
        if self.status.raw != 0 {
            return Err(self.status);
        }
        if self.descriptor_size == 0 || self.descriptor_size < core::mem::size_of::<
            MemoryDescriptorRaw,
        >() || self.map_size % self.descriptor_size != 0 {
            return Err(Status::unusable());
        }
        proof {
            vstd::arithmetic::div_mod::lemma_fundamental_div_mod(
                self.map_size as int,
                self.descriptor_size as int,
            );
            vstd::arithmetic::mul::lemma_mul_is_commutative(
                self.descriptor_size as int,
                self.map_size as int / self.descriptor_size as int,
            );
        }
        Ok((self.map_size / self.descriptor_size, self.descriptor_size))
    }

    /// What `verdict` returns for the answer `self` to a request that was to
    /// fill a buffer made for `probe`.
    pub open spec fn verdict_of(self, probe: MemoryMapReply) -> Verdict {
        if self.map_size != probe.map_size || self.descriptor_size != probe.descriptor_size {
            Verdict::Incomplete(Cause::Stale)
        } else if self.status.raw != 0 {
            Verdict::Incomplete(Cause::Failed(self.status))
        } else {
            Verdict::Complete
        }
    }

    /// Judges the answer to the request that was to fill a buffer made for
    /// `probe`. A map whose size or stride differs from the probe's is
    /// stale, whatever the status says.
    pub fn verdict(&self, probe: &MemoryMapReply) -> (v: Verdict)
        ensures
            v == self.verdict_of(*probe),
    {
        if self.map_size != probe.map_size || self.descriptor_size != probe.descriptor_size {
            Verdict::Incomplete(Cause::Stale)
        } else if self.status.raw != 0 {
            Verdict::Incomplete(Cause::Failed(self.status))
        } else {
            Verdict::Complete
        }
    }

    /// A complete map is the size that the probe announced, at its stride,
    /// and the firmware reported success.
    pub proof fn lemma_complete_map_matches_probe(self, probe: MemoryMapReply)
        requires
            self.verdict_of(probe) == Verdict::Complete,
        ensures
            self.status.raw == 0,
            self.map_size == probe.map_size,
            self.descriptor_size == probe.descriptor_size,
    {
    }
}

/// What `next_step` returns.
pub open spec fn step_after(cause: Cause, last: Status, released: Result<(), Status>, attempts: usize) -> Step {
    match released {
        Err(fatal) => Step::Stop(fatal),
        Ok(_) => match cause {
            Cause::Failed(status) => Step::Stop(status),
            Cause::Stale => if attempts > 0 {
                Step::Again
            } else {
                Step::Stop(last.failure())
            },
        },
    }
}

/// Decides what follows an attempt whose fill left the buffer without the
/// map, for `cause`, once the buffer has been released. `last` is the status
/// of that fill, `released` what the allocator said to the release, and
/// `attempts` the number of attempts that are still allowed.
///
/// A release that failed ends everything with its own failure: nothing can
/// be relied on after it. Otherwise a fill that failed ends everything with
/// its failure, and a stale map is asked for again while attempts are left.
/// Once none is left, the status of the last fill is the failure, or
/// `UNUSABLE_REPLY` where that fill claimed success.
pub fn next_step(cause: Cause, last: Status, released: Result<(), Status>, attempts: usize) -> (step:
    Step)
    ensures
        step == step_after(cause, last, released, attempts),
{
    match released {
        Err(fatal) => Step::Stop(fatal),
        Ok(_) => match cause {
            Cause::Failed(status) => Step::Stop(status),
            Cause::Stale => if attempts > 0 {
                Step::Again
            } else {
                Step::Stop(last.to_failure())
            },
        },
    }
}

/// Only a stale map is asked for again, and only while attempts are left
/// and the release went well: a failure of the fill or of the release is
/// never passed over.
pub proof fn lemma_again_only_when_stale(
    cause: Cause,
    last: Status,
    released: Result<(), Status>,
    attempts: usize,
)
    requires
        step_after(cause, last, released, attempts) == Step::Again,
    ensures
        cause == Cause::Stale,
        released is Ok,
        attempts > 0,
{
}

/// A map that has grown since the probe is asked for again or given up, and
/// the failure that gives it up is one: the buffer that was too small for it
/// never counts as the map.
pub proof fn lemma_grown_map_is_probed_again(
    fill: MemoryMapReply,
    probe: MemoryMapReply,
    released: Result<(), Status>,
    attempts: usize,
)
    requires
        fill.map_size > probe.map_size,
        released matches Err(fatal) ==> fatal.raw != 0,
    ensures
        fill.verdict_of(probe) == Verdict::Incomplete(Cause::Stale),
        released is Ok && attempts > 0 ==> step_after(Cause::Stale, fill.status, released, attempts)
            == Step::Again,
        step_after(Cause::Stale, fill.status, released, attempts) matches Step::Stop(status)
            ==> status.raw != 0,
{
}

/// Whatever ends the retrieval after a fill that left the buffer without
/// the map is a failure, as long as the release reports its failure by a
/// status other than zero.
pub proof fn lemma_stop_is_failure(
    fill: MemoryMapReply,
    probe: MemoryMapReply,
    released: Result<(), Status>,
    attempts: usize,
)
    requires
        fill.verdict_of(probe) matches Verdict::Incomplete(_),
        released matches Err(fatal) ==> fatal.raw != 0,
    ensures
        step_after(fill.verdict_of(probe)->Incomplete_0, fill.status, released, attempts)
            matches Step::Stop(status) ==> status.raw != 0,
{
}

/// Whether `r` is what the answer `status` and `interface` to a request
/// for a protocol of a handle is read as: the pointer to the interface, or
/// the failure. A failure of the firmware is handed on; success with a null
/// interface is a failure too, and never a pointer.
pub open spec fn interface_read<T>(status: Status, interface: Address, r: Result<Pointer<T>, Status>) -> bool {
    &&& r is Ok <==> status.raw == 0 && interface@ != 0
    &&& r matches Ok(pointer) ==> pointer.wf() && pointer.target() == interface
    &&& r matches Err(failure) ==> failure == status.failure()
}

/// Reads the answer to a request for a protocol of a handle: see
/// `interface_read`.
pub fn interface_reply<T>(status: Status, interface: Address) -> (r: Result<Pointer<T>, Status>)
    ensures
        interface_read(status, interface, r),
{
    match Pointer::new(interface) {
        Some(pointer) => status.check(pointer),
        None => Err(status.to_failure()),
    }
}

/// Whether an answer to a search for handles holds a buffer of handles.
pub open spec fn holds_handles(status: Status, count: Word, buffer: Address) -> bool {
    status.raw == 0 && region_fits(buffer, count, Array::<Handle>::width())
}

/// Whether `r` is what the answer `status`, `count` and `buffer` to a
/// search for handles is read as: the view of the handles, or the failure.
/// A failure of the firmware is handed on; success with a buffer that is
/// null, or that would not fit below the end of the address space, is a
/// failure too.
pub open spec fn handles_read(status: Status, count: Word, buffer: Address, r: Result<Array<Handle>, Status>) -> bool {
    &&& r is Ok <==> holds_handles(status, count, buffer)
    &&& r matches Ok(handles) ==> handles.wf() && handles.base() == buffer && handles.len()
        == count
    &&& r matches Err(failure) ==> failure == status.failure()
}

/// Reads the answer to a search for handles: see `handles_read`.
pub fn handle_buffer_reply(status: Status, count: Word, buffer: Address) -> (r: Result<
    Array<Handle>,
    Status,
>)
    ensures
        handles_read(status, count, buffer, r),
{
    match Array::new(buffer, count) {
        Some(handles) => status.check(handles),
        None => Err(status.to_failure()),
    }
}

/// The entry points of the firmware's boot services. Each takes and returns
/// what the firmware's own function takes and returns, in and out
/// parameters as values.
pub trait BootServicesTable {
    /// Asks for `pages` pages; `address` goes in and the granted address
    /// comes out.
    fn allocate_pages(
        &self,
        allocate_type: Word,
        memory_type: Word,
        pages: Word,
        address: Address,
    ) -> (Status, Address);

    /// Gives back `pages` pages at `address`.
    fn free_pages(&self, address: Address, pages: Word) -> Status;

    /// Asks for the memory map in a buffer of `map_size` bytes at
    /// `memory_map`.
    fn get_memory_map(&self, map_size: Word, memory_map: Address) -> MemoryMapReply;

    /// Asks for the interface of `protocol` on `handle`.
    fn handle_protocol(&self, handle: Handle, protocol: &Guid) -> (Status, Address);

    /// Searches for handles; the number of handles and their buffer come
    /// out.
    fn locate_handle_buffer(
        &self,
        search_type: u32,
        protocol: Option<Guid>,
        search_key: Registration,
    ) -> (Status, Word, Address);

    /// Ends the boot services for the image `handle`.
    fn exit_boot_services(&self, handle: Handle, map_key: Word) -> Status;
}

/// The boot services of one firmware.
pub struct BootServices<'a, F: BootServicesTable> {
    header: Header,
    table: &'a F,
}

/// The memory map, in pages of its own, with the key that names its state.
pub struct MemoryDescriptorArray<'a, F: BootServicesTable> {
    pub array: DynamicArrayStride<'a, F, MemoryDescriptorRaw>,
    pub key: Word,
    pub descriptor_version: u32,
}

impl<'a, F: BootServicesTable> MemoryDescriptorArray<'a, F> {
    /// The map in `array`, as the answer `fill` to the request that filled
    /// it describes it: the key and the version are those of that answer.
    pub fn new(array: DynamicArrayStride<'a, F, MemoryDescriptorRaw>, fill: &MemoryMapReply) -> (map:
        Self)
        ensures
            map.array == array,
            map.key == fill.map_key,
            map.descriptor_version == fill.descriptor_version,
    {
        MemoryDescriptorArray {
            array,
            key: fill.map_key,
            descriptor_version: fill.descriptor_version,
        }
    }
}

impl<'a, F: BootServicesTable> BootServices<'a, F> {
    /// The header that the table was attached with.
    pub closed spec fn header(self) -> Header {
        self.header
    }

    /// The entry points that the table was attached with.
    pub closed spec fn entries(self) -> &'a F {
        self.table
    }

    /// Whether the header carries the signature of the boot services.
    pub open spec fn signed(self) -> bool {
        self.header().signature == SIGNATURE
    }

    /// Attaches to the table `table`, whose header is `header`.
    pub fn new(header: Header, table: &'a F) -> (r: Self)
        ensures
            r.header() == header,
            r.entries() == table,
    {
        BootServices { header, table }
    }

    /// Whether the table is what it claims to be, by its signature.
    pub fn is_valid(&self) -> (r: bool)
        ensures
            r == self.signed(),
    {
        self.header.signature == SIGNATURE
    }

    /// States that the table is what it claims to be. It is for callers
    /// that know so: `is_valid` finds out.
    pub fn check(&self)
        requires
            self.signed(),
    {
    }

    pub fn get_header(&self) -> (r: Header)
        ensures
            r == self.header(),
    {
        self.header
    }

    /// The entry points that these boot services call.
    pub fn table(&self) -> (r: &'a F)
        ensures
            r == self.entries(),
    {
        self.table
    }

    /// Whether `r` is what `allocate_pages` makes of an answer that the
    /// firmware gives to the request: the granted address where the status
    /// is zero, and the status as the failure otherwise. The request is for
    /// `pages` pages of memory of the type `memory_type`, placed as
    /// `allocate_type` says.
    pub open spec fn allocated(
        self,
        allocate_type: AllocateType,
        memory_type: MemoryType,
        pages: Word,
        r: Result<Address, Status>,
    ) -> bool {
        exists|address: Address, status: Status, granted: Address|
            address@ == allocate_type.raw_parts().1 && call_ensures(
                F::allocate_pages,
                (self.entries(), allocate_type.raw_parts().0, memory_type.code(), pages, address),
                (status, granted),
            ) && r == status.checked(granted)
    }

    /// Asks the allocator for `pages` pages: see `allocated`.
    pub fn allocate_pages(
        &self,
        allocate_type: AllocateType,
        memory_type: MemoryType,
        pages: Word,
    ) -> (r: Result<Address, Status>)
        ensures
            self.allocated(allocate_type, memory_type, pages, r),
            r matches Err(status) ==> status.raw != 0,
    {
        let (kind, address) = allocate_type.into_raw();
        let (status, granted) = self.table.allocate_pages(
            kind,
            memory_type.into_raw(),
            pages,
            address,
        );
        assert(call_ensures(
            F::allocate_pages,
            (self.entries(), kind, memory_type.code(), pages, address),
            (status, granted),
        ));
        status.check(granted)
    }

    /// Whether `r` is what `free_pages` makes of an answer that the
    /// firmware gives to the request to take back `pages` pages at
    /// `address`: success where the status is zero, and the status as the
    /// failure otherwise.
    pub open spec fn freed(self, address: Address, pages: Word, r: Result<(), Status>) -> bool {
        exists|status: Status|
            call_ensures(F::free_pages, (self.entries(), address, pages), status) && r
                == status.checked(())
    }

    /// Gives `pages` pages at `address` back to the allocator: see `freed`.
    pub fn free_pages(&self, address: Address, pages: Word) -> (r: Result<(), Status>)
        ensures
            self.freed(address, pages, r),
            r matches Err(status) ==> status.raw != 0,
    {
        let status = self.table.free_pages(address, pages);
        assert(call_ensures(F::free_pages, (self.entries(), address, pages), status));
        status.check(())
    }

    /// Whether `reply` is an answer that the firmware gives to the request
    /// for the memory map in a buffer of `map_size` bytes at the address
    /// `buffer`.
    pub open spec fn map_asked(self, map_size: Word, buffer: u64, reply: MemoryMapReply) -> bool {
        exists|at: Address|
            at@ == buffer && call_ensures(
                F::get_memory_map,
                (self.entries(), map_size, at),
                reply,
            )
    }

    /// Whether `r` is what a retrieval of the memory map that may make
    /// `attempts` attempts makes of the answers that the firmware gives.
    ///
    /// An attempt asks for the size of the map with no buffer and reads the
    /// answer as `layout_of` says; a failure there ends the retrieval. It
    /// then makes an array of loader data for exactly that many records at
    /// that stride; a failure there ends the retrieval too. It asks again,
    /// with the size that the probe announced and the array as the buffer. If
    /// the verdict on that answer is that the map is complete, the result is
    /// the array with the key and the version of that answer. If not, the
    /// array is released, and `step_after` says whether that ends the
    /// retrieval or another attempt follows, with one attempt fewer left.
    pub open spec fn retrieved(
        &'a self,
        attempts: nat,
        r: Result<MemoryDescriptorArray<'a, F>, Status>,
    ) -> bool
        decreases attempts,
    {
        attempts > 0 && exists|probe: MemoryMapReply|
            #[trigger] self.map_asked(0, 0, probe) && match probe.layout_of() {
                Err(status) => r == Err::<MemoryDescriptorArray<'a, F>, Status>(status),
                Ok(layout) => exists|
                    made: Result<DynamicArrayStride<'a, F, MemoryDescriptorRaw>, Status>,
                |
                    #[trigger] DynamicArrayStride::constructed(
                        self,
                        layout.0,
                        layout.1,
                        MemoryType::LoaderData,
                        made,
                    ) && match made {
                        Err(status) => r == Err::<MemoryDescriptorArray<'a, F>, Status>(status),
                        Ok(array) => exists|fill: MemoryMapReply|
                            #[trigger] self.map_asked(probe.map_size, array.view().base()@, fill)
                                && match fill.verdict_of(probe) {
                                Verdict::Complete => r == Ok::<
                                    MemoryDescriptorArray<'a, F>,
                                    Status,
                                >(
                                    MemoryDescriptorArray {
                                        array,
                                        key: fill.map_key,
                                        descriptor_version: fill.descriptor_version,
                                    },
                                ),
                                Verdict::Incomplete(cause) => exists|released: Result<(), Status>|
                                    #[trigger] self.freed(
                                        array.view().base(),
                                        array.page_total(),
                                        released,
                                    ) && match step_after(
                                        cause,
                                        fill.status,
                                        released,
                                        (attempts - 1) as usize,
                                    ) {
                                        Step::Stop(status) => r == Err::<
                                            MemoryDescriptorArray<'a, F>,
                                            Status,
                                        >(status),
                                        Step::Again => self.retrieved((attempts - 1) as nat, r),
                                    },
                            },
                    },
            }
    }

    /// Retrieves the memory map into pages of its own.
    ///
    /// It asks for the size of the map with no buffer, allocates an array
    /// for exactly that many records, and asks again to have it filled. If
    /// the map is then no longer the one the array was made for (`verdict`),
    /// the array is released and the whole is tried again, up to
    /// `MEMORY_MAP_ATTEMPTS` times: see `retrieved`. A map that comes back
    /// has records with room for a descriptor, and every failure carries a
    /// status other than zero.
    pub fn get_memory_map(&'a self) -> (r: Result<MemoryDescriptorArray<'a, F>, Status>)
        ensures
            self.retrieved(MEMORY_MAP_ATTEMPTS as nat, r),
            r matches Ok(map) ==> map.array.wf() && map.array.allocator() == self,
            r matches Err(status) ==> status.raw != 0,
    {
        let mut attempts: usize = MEMORY_MAP_ATTEMPTS;
        loop
            invariant
                0 < attempts <= MEMORY_MAP_ATTEMPTS,
                forall|r: Result<MemoryDescriptorArray<'a, F>, Status>|
                    #[trigger] self.retrieved(attempts as nat, r) ==> self.retrieved(
                        MEMORY_MAP_ATTEMPTS as nat,
                        r,
                    ),
            decreases attempts,
        {
            let ghost allowed = attempts as nat;
            attempts = attempts - 1;
            let probe = self.table.get_memory_map(0, Address::null());
            assert(self.map_asked(0, 0, probe));
            let (length, stride) = match probe.layout() {
                Ok(layout) => layout,
                Err(status) => {
                    let failed = Err(status);
                    assert(self.retrieved(allowed, failed));
                    return failed;
                },
            };
            let made = DynamicArrayStride::new(self, length, stride);
            let array = match made {
                Ok(array) => array,
                Err(status) => {
                    let failed = Err(status);
                    assert(self.retrieved(allowed, failed));
                    return failed;
                },
            };
            let ghost held = array;
            let (buffer, _) = array.release_request();
            let fill = self.table.get_memory_map(probe.map_size, buffer);
            assert(self.map_asked(probe.map_size, held.view().base()@, fill));
            let cause = match fill.verdict(&probe) {
                Verdict::Complete => {
                    let done = Ok(MemoryDescriptorArray::new(array, &fill));
                    assert(self.retrieved(allowed, done));
                    return done;
                },
                Verdict::Incomplete(cause) => cause,
            };
            let released = array.release();
            assert(self.freed(held.view().base(), held.page_total(), released));
            match next_step(cause, fill.status, released, attempts) {
                Step::Again => {
                    assert forall|r: Result<MemoryDescriptorArray<'a, F>, Status>|
                        #[trigger] self.retrieved(attempts as nat, r) implies self.retrieved(
                        MEMORY_MAP_ATTEMPTS as nat,
                        r,
                    ) by {
                        assert(self.retrieved(allowed, r));
                    }
                },
                Step::Stop(status) => {
                    proof {
                        lemma_stop_is_failure(fill, probe, released, attempts);
                    }
                    let failed = Err(status);
                    assert(self.retrieved(allowed, failed));
                    return failed;
                },
            }
        }
    }

    /// Whether `r` is what `handle_protocol` makes of an answer that the
    /// firmware gives to the request for the protocol of `T` on `handle`:
    /// the identifier handed over is one that `T` is bound to, and the
    /// answer is read as `interface_read` says.
    pub open spec fn protocol_found<T: HasGuid>(self, handle: Handle, r: Result<Pointer<T>, Status>) -> bool {
        exists|guid: Guid, status: Status, interface: Address|
            call_ensures(T::guid, (), guid) && call_ensures(
                F::handle_protocol,
                (self.entries(), handle, &guid),
                (status, interface),
            ) && interface_read(status, interface, r)
    }

    /// Asks for the interface of the protocol that `T` is bound to, on
    /// `handle`: see `protocol_found`. A pointer that comes back is not
    /// null, and every failure carries a status other than zero.
    pub fn handle_protocol<T: HasGuid>(&self, handle: Handle) -> (r: Result<Pointer<T>, Status>)
        ensures
            self.protocol_found(handle, r),
            r matches Ok(pointer) ==> pointer.wf(),
            r matches Err(status) ==> status.raw != 0,
    {
        let guid = T::guid();
        assert(call_ensures(T::guid, (), guid));
        let (status, interface) = self.table.handle_protocol(handle, &guid);
        assert(call_ensures(
            F::handle_protocol,
            (self.entries(), handle, &guid),
            (status, interface),
        ));
        interface_reply(status, interface)
    }

    /// Whether `r` is what `locate_handle_buffer` makes of an answer that
    /// the firmware gives to the search by `search_key`: the search mode, the
    /// protocol and the token handed over are the raw parts of the key, and
    /// the answer is read as `handles_read` says.
    pub open spec fn handles_located(self, search_key: SearchKey, r: Result<Array<Handle>, Status>) -> bool {
        exists|token: Registration, status: Status, count: Word, buffer: Address|
            token@ == search_key.raw_parts().2 && call_ensures(
                F::locate_handle_buffer,
                (self.entries(), search_key.raw_parts().0, search_key.raw_parts().1, token),
                (status, count, buffer),
            ) && handles_read(status, count, buffer, r)
    }

    /// Searches for handles by `search_key`: see `handles_located`. A
    /// buffer that comes back is a view of handles, and every failure
    /// carries a status other than zero.
    pub fn locate_handle_buffer(&self, search_key: SearchKey) -> (r: Result<
        Array<Handle>,
        Status,
    >)
        ensures
            self.handles_located(search_key, r),
            r matches Ok(handles) ==> handles.wf(),
            r matches Err(status) ==> status.raw != 0,
    {
        let (search_type, protocol, registration) = search_key.into_raw();
        let (status, count, buffer) = self.table.locate_handle_buffer(
            search_type,
            protocol,
            registration,
        );
        assert(call_ensures(
            F::locate_handle_buffer,
            (self.entries(), search_type, protocol, registration),
            (status, count, buffer),
        ));
        handle_buffer_reply(status, count, buffer)
    }

    /// Whether `r` is what `exit_boot_services` makes of an answer that
    /// the firmware gives to the request to end the boot services for the
    /// image `handle` with the key `map_key`: success where the status is
    /// zero, and the status as the failure otherwise.
    pub open spec fn exited(self, handle: Handle, map_key: Word, r: Result<(), Status>) -> bool {
        exists|status: Status|
            call_ensures(F::exit_boot_services, (self.entries(), handle, map_key), status) && r
                == status.checked(())
    }

    /// Ends the boot services for the image `handle`, with the key of the
    /// memory map that the caller holds: see `exited`.
    pub fn exit_boot_services(&self, handle: Handle, map_key: Word) -> (r: Result<(), Status>)
        ensures
            self.exited(handle, map_key, r),
            r matches Err(status) ==> status.raw != 0,
    {
        let status = self.table.exit_boot_services(handle, map_key);
        assert(call_ensures(F::exit_boot_services, (self.entries(), handle, map_key), status));
        status.check(())
    }
}

} // verus!
