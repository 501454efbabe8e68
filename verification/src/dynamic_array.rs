//! Arrays that own their memory: pages that the boot-time allocator granted
//! on construction and takes back on release.

use vstd::prelude::*;
use crate::array::region_fits;
use crate::array::ArrayStride;
use crate::array::Pointer;
use crate::boot_services::AllocateType;
use crate::boot_services::BootServices;
use crate::boot_services::BootServicesTable;
use crate::boot_services::MemoryType;
use crate::common::Address;
use crate::common::Status;
use crate::common::Word;
use crate::common::PAGE_SIZE;

verus! {

/// The number of pages that `bytes` bytes take: the least number of pages
/// that hold them.
pub open spec fn pages_for(bytes: nat) -> nat {
    (bytes + PAGE_SIZE - 1) as nat / (PAGE_SIZE as nat)
}

/// Computes `pages_for`.
pub fn page_count(bytes: Word) -> (pages: Word)
    ensures
        pages == pages_for(bytes as nat),
{
    if bytes % PAGE_SIZE == 0 {
        bytes / PAGE_SIZE
    } else {
        bytes / PAGE_SIZE + 1
    }
}

/// `pages_for(bytes)` pages hold `bytes` bytes, and one page fewer would not.
pub proof fn lemma_pages_for_is_least(bytes: nat)
    ensures
        pages_for(bytes) * PAGE_SIZE >= bytes,
        bytes > 0 ==> (pages_for(bytes) - 1) * PAGE_SIZE < bytes,
        bytes == 0 ==> pages_for(bytes) == 0,
{
}

/// What the two owning arrays have in common: where the storage is, how the
/// elements lie in it, and how many pages were granted for it.
pub trait Array<T> {
    /// The address of the first element.
    spec fn base(&self) -> Address;

    /// The distance in bytes from one element to the next.
    spec fn step(&self) -> Word;

    /// The number of elements.
    spec fn len(&self) -> Word;

    /// The number of pages that were granted.
    spec fn granted(&self) -> Word;

    fn raw(&self) -> (p: Pointer<T>)
        ensures
            p.target() == self.base(),
            p.wf(),
    ;

    fn stride(&self) -> (n: Word)
        ensures
            n == self.step(),
    ;

    fn count(&self) -> (n: Word)
        ensures
            n == self.len(),
    ;

    /// The number of pages to hand back on release: as many as were granted.
    fn pages(&self) -> (n: Word)
        ensures
            n == self.granted(),
            n == pages_for((self.len() * self.step()) as nat),
    ;

    /// The address to hand back on release: the one that was granted.
    fn physical_address(&self) -> (a: Address)
        ensures
            a == self.base(),
            a@ != 0,
    ;
}

/// Whether the allocator's answer to a request for the storage of `count`
/// elements, `stride` bytes apart, is storage that an array can take.
pub open spec fn usable_grant(grant: Result<Address, Status>, count: Word, stride: nat) -> bool {
    grant matches Ok(address) && region_fits(address, count, stride)
}

/// The failure that a constructor reports for an answer that is not a
/// `usable_grant`: the allocator's own status where it failed, and
/// `UNUSABLE_REPLY` where it claimed success.
pub open spec fn grant_failure(grant: Result<Address, Status>) -> Status {
    match grant {
        Err(status) => status,
        Ok(_) => Status::unusable_reply(),
    }
}

/// An owning array of elements that lie one behind the other.
pub struct DynamicArray<'a, F: BootServicesTable, T> {
    boot_services: &'a BootServices<'a, F>,
    storage: ArrayStride<T>,
    reserved: Word,
}

impl<'a, F: BootServicesTable, T> DynamicArray<'a, F, T> {
    #[verifier::type_invariant]
    spec fn inv(self) -> bool {
        self.wf()
    }

    /// The storage, seen as a view that does not own it.
    pub closed spec fn view(self) -> ArrayStride<T> {
        self.storage
    }

    /// The number of pages recorded at construction.
    pub closed spec fn page_total(self) -> Word {
        self.reserved
    }

    /// The boot services that granted the pages.
    pub closed spec fn allocator(self) -> &'a BootServices<'a, F> {
        self.boot_services
    }

    /// The size of one element in bytes.
    pub open spec fn width() -> nat {
        vstd::layout::size_of::<T>()
    }

    /// What holds of every such array: the elements lie one element's size
    /// apart, and the pages recorded are those that the elements take.
    pub open spec fn wf(self) -> bool {
        &&& self.view().wf()
        &&& self.view().step() == Self::width()
        &&& self.page_total() == pages_for((self.view().len() * self.view().step()) as nat)
    }

    /// The number of pages to ask for to hold `count` elements.
    pub fn pages_needed(count: Word) -> (pages: Word)
        requires
            count * Self::width() <= usize::MAX,
        ensures
            pages == pages_for((count * Self::width()) as nat),
    {
        page_count(count * core::mem::size_of::<T>())
    }

    /// Whether `r` is what the allocator's answer `grant` to a request for
    /// the pages of `count` elements makes: the array of `count` elements at
    /// the granted address, owned through `boot_services`, or the failure. A
    /// failure of the allocator is handed on; an address that is null, or so
    /// high that the elements would not fit below the end of the address
    /// space, is no storage.
    pub open spec fn made_of(
        boot_services: &'a BootServices<'a, F>,
        grant: Result<Address, Status>,
        count: Word,
        r: Result<Self, Status>,
    ) -> bool {
        &&& r is Ok <==> usable_grant(grant, count, Self::width())
        &&& r matches Ok(a) ==> a.wf() && a.view().base() == grant->Ok_0 && a.view().len()
            == count && a.allocator() == boot_services
        &&& r matches Err(status) ==> status == grant_failure(grant)
    }

    /// Whether `r` is what a constructor makes of an answer that the
    /// allocator gives to its request: the request is for exactly the pages
    /// that `count` elements take, anywhere, for memory of the type
    /// `memory_type`, and the answer is read as `made_of` says.
    pub open spec fn constructed(
        boot_services: &'a BootServices<'a, F>,
        count: Word,
        memory_type: MemoryType,
        r: Result<Self, Status>,
    ) -> bool {
        exists|grant: Result<Address, Status>|
            #[trigger] boot_services.allocated(
                AllocateType::AllocateAnyPages,
                memory_type,
                pages_for((count * Self::width()) as nat) as Word,
                grant,
            ) && Self::made_of(boot_services, grant, count, r)
    }

    /// Makes the array from the allocator's answer to a request for
    /// `pages_needed(count)` pages. A failure of the allocator is handed on; an
    /// address that is null, or so high that the elements would not fit
    /// below the end of the address space, is no storage.
    pub fn from_grant(
        boot_services: &'a BootServices<'a, F>,
        grant: Result<Address, Status>,
        count: Word,
    ) -> (r: Result<Self, Status>)
        requires
            count * Self::width() <= usize::MAX,
        ensures
            Self::made_of(boot_services, grant, count, r),
    {
        let address = match grant {
            Ok(address) => address,
            Err(status) => {
                return Err(status);
            },
        };
        let width = core::mem::size_of::<T>();
        match ArrayStride::new(address, count, width) {
            Some(storage) => Ok(
                DynamicArray { boot_services, storage, reserved: page_count(count * width) },
            ),
            None => Err(Status::unusable()),
        }
    }

    /// Asks the allocator for the pages that `count` elements take, as
    /// loader data, and makes the array in them: see `constructed`. Whatever
    /// the allocator answers, a failure keeps no pages, and a success has
    /// exactly `count` elements.
    pub fn new(boot_services: &'a BootServices<'a, F>, count: Word) -> (r: Result<Self, Status>)
        requires
            count * Self::width() <= usize::MAX,
        ensures
            Self::constructed(boot_services, count, MemoryType::LoaderData, r),
            r matches Ok(a) ==> a.wf() && a.view().len() == count && a.allocator()
                == boot_services,
            r matches Err(status) ==> status.raw != 0,
    {
        Self::with_memory_type(boot_services, count, MemoryType::LoaderData)
    }

    /// Asks the allocator for the pages that `count` elements take, for
    /// memory of type `memory_type`, and makes the array in them: see
    /// `constructed`. Whatever the allocator answers, a failure keeps no
    /// pages, and a success has exactly `count` elements.
    pub fn with_memory_type(
        boot_services: &'a BootServices<'a, F>,
        count: Word,
        memory_type: MemoryType,
    ) -> (r: Result<Self, Status>)
        requires
            count * Self::width() <= usize::MAX,
        ensures
            Self::constructed(boot_services, count, memory_type, r),
            r matches Ok(a) ==> a.wf() && a.view().len() == count && a.allocator()
                == boot_services,
            r matches Err(status) ==> status.raw != 0,
    {
        let pages = Self::pages_needed(count);
        let grant = boot_services.allocate_pages(
            AllocateType::AllocateAnyPages,
            memory_type,
            pages,
        );
        assert(pages == pages_for((count * Self::width()) as nat) as Word);
        assert(boot_services.allocated(
            AllocateType::AllocateAnyPages,
            memory_type,
            pages_for((count * Self::width()) as nat) as Word,
            grant,
        ));
        Self::from_grant(boot_services, grant, count)
    }

    /// The place of element `index`. An index that is out of range stands
    /// for the first element.
    pub fn index(&self, index: Word) -> (p: Pointer<T>)
        ensures
            p.target()@ == self.view().element_address(index),
            index < self.view().len() ==> p.target()@ == self.view().base()@ + index
                * Self::width(),
            index >= self.view().len() ==> p.target() == self.view().base(),
            p.wf(),
    {
        proof {
            use_type_invariant(self);
        }
        self.storage.index(index)
    }

    /// What a release hands back to the allocator: the address and the
    /// number of pages recorded at construction.
    pub fn release_request(&self) -> (request: (Address, Word))
        ensures
            request.0 == self.view().base(),
            request.1 == self.page_total(),
            request.1 == pages_for((self.view().len() * Self::width()) as nat),
            self.wf(),
    {
        proof {
            use_type_invariant(self);
        }
        (self.storage.as_ptr().address(), self.reserved)
    }

    /// Gives the pages back to the allocator that granted them: the result
    /// is what the boot services make of the firmware's answer to the request
    /// to take back exactly the pages recorded at construction, at the
    /// address recorded there. A failure of the allocator is reported and not
    /// survivable: its books no longer agree with the caller's.
    pub fn release(self) -> (r: Result<(), Status>)
        ensures
            self.allocator().freed(self.view().base(), self.page_total(), r),
            r matches Err(status) ==> status.raw != 0,
    {
        let (address, pages) = self.release_request();
        self.boot_services.free_pages(address, pages)
    }

    /// Every element in range lies within the pages that were granted.
    pub proof fn lemma_elements_within_pages(self, index: Word)
        requires
            self.wf(),
            index < self.view().len(),
        ensures
            self.view().base()@ <= self.view().element_address(index),
            self.view().element_address(index) + Self::width() <= self.view().base()@
                + self.page_total() * PAGE_SIZE,
    {
        self.view().lemma_index_in_range(index);
        lemma_pages_for_is_least((self.view().len() * self.view().step()) as nat);
    }
}

impl<'a, F: BootServicesTable, T> Array<T> for DynamicArray<'a, F, T> {
    open spec fn base(&self) -> Address {
        self.view().base()
    }

    open spec fn step(&self) -> Word {
        self.view().step()
    }

    open spec fn len(&self) -> Word {
        self.view().len()
    }

    open spec fn granted(&self) -> Word {
        self.page_total()
    }

    fn raw(&self) -> (p: Pointer<T>) {
        self.storage.as_ptr()
    }

    fn stride(&self) -> (n: Word)
        ensures
            n == Self::width(),
    {
        proof {
            use_type_invariant(self);
        }
        self.storage.stride()
    }

    fn count(&self) -> (n: Word) {
        self.storage.length()
    }

    fn pages(&self) -> (n: Word) {
        proof {
            use_type_invariant(self);
        }
        self.reserved
    }

    fn physical_address(&self) -> (a: Address) {
        self.storage.as_ptr().address()
    }
}

/// An owning array of elements that lie `stride` bytes apart, where the
/// stride is at least the size of one element.
pub struct DynamicArrayStride<'a, F: BootServicesTable, T> {
    boot_services: &'a BootServices<'a, F>,
    storage: ArrayStride<T>,
    reserved: Word,
}

impl<'a, F: BootServicesTable, T> DynamicArrayStride<'a, F, T> {
    #[verifier::type_invariant]
    spec fn inv(self) -> bool {
        self.wf()
    }

    /// The storage, seen as a view that does not own it.
    pub closed spec fn view(self) -> ArrayStride<T> {
        self.storage
    }

    /// The number of pages recorded at construction.
    pub closed spec fn page_total(self) -> Word {
        self.reserved
    }

    /// The boot services that granted the pages.
    pub closed spec fn allocator(self) -> &'a BootServices<'a, F> {
        self.boot_services
    }

    /// The size of one element in bytes.
    pub open spec fn width() -> nat {
        vstd::layout::size_of::<T>()
    }

    /// What holds of every such array: the stride leaves room for an
    /// element, and the pages recorded are those that the elements take.
    pub open spec fn wf(self) -> bool {
        &&& self.view().wf()
        &&& self.page_total() == pages_for((self.view().len() * self.view().step()) as nat)
    }

    /// The number of pages to ask for to hold `count` elements that lie
    /// `stride` bytes apart.
    pub fn pages_needed(count: Word, stride: Word) -> (pages: Word)
        requires
            count * stride <= usize::MAX,
        ensures
            pages == pages_for((count * stride) as nat),
    {
        page_count(count * stride)
    }

    /// Whether `r` is what the allocator's answer `grant` to a request for
    /// the pages of `count` elements that lie `stride` bytes apart makes: the
    /// array of those elements at the granted address, owned through
    /// `boot_services`, or the failure. A failure of the allocator is handed
    /// on; an address that is null, or so high that the elements would not
    /// fit below the end of the address space, is no storage.
    pub open spec fn made_of(
        boot_services: &'a BootServices<'a, F>,
        grant: Result<Address, Status>,
        count: Word,
        stride: Word,
        r: Result<Self, Status>,
    ) -> bool {
        &&& r is Ok <==> usable_grant(grant, count, stride as nat)
        &&& r matches Ok(a) ==> a.wf() && a.view().base() == grant->Ok_0 && a.view().len()
            == count && a.view().step() == stride && a.allocator() == boot_services
        &&& r matches Err(status) ==> status == grant_failure(grant)
    }

    /// Whether `r` is what a constructor makes of an answer that the
    /// allocator gives to its request: the request is for exactly the pages
    /// that `count` elements take when they lie `stride` bytes apart,
    /// anywhere, for memory of the type `memory_type`, and the answer is read
    /// as `made_of` says.
    pub open spec fn constructed(
        boot_services: &'a BootServices<'a, F>,
        count: Word,
        stride: Word,
        memory_type: MemoryType,
        r: Result<Self, Status>,
    ) -> bool {
        exists|grant: Result<Address, Status>|
            #[trigger] boot_services.allocated(
                AllocateType::AllocateAnyPages,
                memory_type,
                pages_for((count * stride) as nat) as Word,
                grant,
            ) && Self::made_of(boot_services, grant, count, stride, r)
    }

    /// Makes the array from the allocator's answer to a request for
    /// `pages_needed(count, stride)` pages. A failure of the allocator is
    /// handed on; an address that is null, or so high that the elements would
    /// not fit below the end of the address space, is no storage.
    pub fn from_grant(
        boot_services: &'a BootServices<'a, F>,
        grant: Result<Address, Status>,
        count: Word,
        stride: Word,
    ) -> (r: Result<Self, Status>)
        requires
            stride >= Self::width(),
            count * stride <= usize::MAX,
        ensures
            Self::made_of(boot_services, grant, count, stride, r),
    {
        let address = match grant {
            Ok(address) => address,
            Err(status) => {
                return Err(status);
            },
        };
        match ArrayStride::new(address, count, stride) {
            Some(storage) => Ok(
                DynamicArrayStride { boot_services, storage, reserved: page_count(count * stride) },
            ),
            None => Err(Status::unusable()),
        }
    }

    /// Asks the allocator for the pages that `count` elements take when they
    /// lie `stride` bytes apart, as loader data, and makes the array in
    /// them: see `constructed`. Whatever the allocator answers, a failure
    /// keeps no pages, and a success has exactly `count` elements at that
    /// stride.
    pub fn new(boot_services: &'a BootServices<'a, F>, count: Word, stride: Word) -> (r: Result<
        Self,
        Status,
    >)
        requires
            stride >= Self::width(),
            count * stride <= usize::MAX,
        ensures
            Self::constructed(boot_services, count, stride, MemoryType::LoaderData, r),
            r matches Ok(a) ==> a.wf() && a.view().len() == count && a.view().step() == stride
                && a.allocator() == boot_services,
            r matches Err(status) ==> status.raw != 0,
    {
        Self::with_memory_type(boot_services, count, stride, MemoryType::LoaderData)
    }

    /// Asks the allocator for the pages that `count` elements take when they
    /// lie `stride` bytes apart, for memory of type `memory_type`, and makes
    /// the array in them: see `constructed`. Whatever the allocator answers,
    /// a failure keeps no pages, and a success has exactly `count` elements
    /// at that stride.
    pub fn with_memory_type(
        boot_services: &'a BootServices<'a, F>,
        count: Word,
        stride: Word,
        memory_type: MemoryType,
    ) -> (r: Result<Self, Status>)
        requires
            stride >= Self::width(),
            count * stride <= usize::MAX,
        ensures
            Self::constructed(boot_services, count, stride, memory_type, r),
            r matches Ok(a) ==> a.wf() && a.view().len() == count && a.view().step() == stride
                && a.allocator() == boot_services,
            r matches Err(status) ==> status.raw != 0,
    {
        let pages = Self::pages_needed(count, stride);
        let grant = boot_services.allocate_pages(
            AllocateType::AllocateAnyPages,
            memory_type,
            pages,
        );
        assert(pages == pages_for((count * stride) as nat) as Word);
        assert(boot_services.allocated(
            AllocateType::AllocateAnyPages,
            memory_type,
            pages_for((count * stride) as nat) as Word,
            grant,
        ));
        Self::from_grant(boot_services, grant, count, stride)
    }

    /// The place of element `index`. An index that is out of range stands
    /// for the first element.
    pub fn index(&self, index: Word) -> (p: Pointer<T>)
        ensures
            p.target()@ == self.view().element_address(index),
            index < self.view().len() ==> p.target()@ == self.view().base()@ + index
                * self.view().step(),
            index >= self.view().len() ==> p.target() == self.view().base(),
            p.wf(),
    {
        self.storage.index(index)
    }

    /// What a release hands back to the allocator: the address and the
    /// number of pages recorded at construction.
    pub fn release_request(&self) -> (request: (Address, Word))
        ensures
            request.0 == self.view().base(),
            request.1 == self.page_total(),
            request.1 == pages_for((self.view().len() * self.view().step()) as nat),
            self.wf(),
    {
        proof {
            use_type_invariant(self);
        }
        (self.storage.as_ptr().address(), self.reserved)
    }

    /// Gives the pages back to the allocator that granted them: the result
    /// is what the boot services make of the firmware's answer to the request
    /// to take back exactly the pages recorded at construction, at the
    /// address recorded there. A failure of the allocator is reported and not
    /// survivable: its books no longer agree with the caller's.
    pub fn release(self) -> (r: Result<(), Status>)
        ensures
            self.allocator().freed(self.view().base(), self.page_total(), r),
            r matches Err(status) ==> status.raw != 0,
    {
        let (address, pages) = self.release_request();
        self.boot_services.free_pages(address, pages)
    }

    /// Every element in range lies within the pages that were granted.
    pub proof fn lemma_elements_within_pages(self, index: Word)
        requires
            self.wf(),
            index < self.view().len(),
        ensures
            self.view().base()@ <= self.view().element_address(index),
            self.view().element_address(index) + Self::width() <= self.view().base()@
                + self.page_total() * PAGE_SIZE,
    {
        self.view().lemma_index_in_range(index);
        lemma_pages_for_is_least((self.view().len() * self.view().step()) as nat);
    }
}

impl<'a, F: BootServicesTable, T> Array<T> for DynamicArrayStride<'a, F, T> {
    open spec fn base(&self) -> Address {
        self.view().base()
    }

    open spec fn step(&self) -> Word {
        self.view().step()
    }

    open spec fn len(&self) -> Word {
        self.view().len()
    }

    open spec fn granted(&self) -> Word {
        self.page_total()
    }

    fn raw(&self) -> (p: Pointer<T>) {
        self.storage.as_ptr()
    }

    fn stride(&self) -> (n: Word) {
        self.storage.stride()
    }

    fn count(&self) -> (n: Word) {
        self.storage.length()
    }

    fn pages(&self) -> (n: Word) {
        proof {
            use_type_invariant(self);
        }
        self.reserved
    }

    fn physical_address(&self) -> (a: Address) {
        self.storage.as_ptr().address()
    }
}

} // verus!
