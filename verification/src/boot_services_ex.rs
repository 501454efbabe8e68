//! What is built on the boot services: memory for a view, and the search
//! for a file on every volume.

use vstd::prelude::*;
use crate::array::Array;
use crate::array::Memory;
use crate::array::Pointer;
use crate::boot_services::AllocateType;
use crate::boot_services::BootServices;
use crate::boot_services::BootServicesTable;
use crate::boot_services::MemoryType;
use crate::boot_services::SearchKey;
use crate::common::Address;
use crate::common::Char16;
use crate::common::Handle;
use crate::common::HasGuid;
use crate::common::Status;
use crate::common::Word;
use crate::dynamic_array::grant_failure;
use crate::dynamic_array::page_count;
use crate::dynamic_array::pages_for;
use crate::dynamic_array::usable_grant;
use crate::interface::file::Attributes;
use crate::interface::file::File;
use crate::interface::file::FileTable;
use crate::interface::file::OpenMode;
use crate::interface::simple_file_system::identifier;
use crate::interface::simple_file_system::SimpleFileSystem;
use crate::interface::simple_file_system::SimpleFileSystemTable;

verus! {

/// Whether `r` is what the allocator's answer `grant` to a request for the
/// pages of `length` elements makes: the view of the elements at the granted
/// address, or the failure. A failure of the allocator is handed on; an
/// address that is null, or so high that the elements would not fit below
/// the end of the address space, is no memory.
pub open spec fn view_made<T>(grant: Result<Address, Status>, length: Word, r: Result<Array<T>, Status>) -> bool {
    &&& r is Ok <==> usable_grant(grant, length, Array::<T>::width())
    &&& r matches Ok(a) ==> a.wf() && a.base() == grant->Ok_0 && a.len() == length
    &&& r matches Err(status) ==> status == grant_failure(grant)
}

/// Makes the view of `length` elements from the allocator's answer to a
/// request for their pages. A failure of the allocator is handed on; an
/// address that is null, or so high that the elements would not fit below
/// the end of the address space, is no memory.
pub fn view_of_grant<T>(grant: Result<Address, Status>, length: Word) -> (r: Result<
    Array<T>,
    Status,
>)
    ensures
        view_made(grant, length, r),
{
    match grant {
        Err(status) => Err(status),
        Ok(address) => match Array::new(address, length) {
            Some(array) => Ok(array),
            None => Err(Status::unusable()),
        },
    }
}

/// What `free` hands back to the allocator for `array`: its address, and
/// the pages that its elements take.
pub fn pages_of<T>(array: &Array<T>) -> (request: (Address, Word))
    ensures
        request.0 == array.base(),
        request.1 == pages_for((array.len() * Array::<T>::width()) as nat),
{
    let bytes = array.as_slice();
    (array.as_ptr().address(), page_count(bytes.length()))
}

impl<'a, F: BootServicesTable> BootServices<'a, F> {
    /// Asks the allocator for the pages that `length` elements take, for
    /// memory of type `memory_type`, and gives the view of the elements in
    /// them: the request is for exactly the pages that the elements take,
    /// anywhere, and the answer is read as `view_made` says. A view that comes
    /// back has `length` elements, and every failure carries a status other
    /// than zero.
    pub fn allocate<T>(&self, length: usize, memory_type: MemoryType) -> (r: Result<Array<T>, Status>)
        requires
            length * Array::<T>::width() <= usize::MAX,
        ensures
            exists|grant: Result<Address, Status>|
                #[trigger] self.allocated(
                    AllocateType::AllocateAnyPages,
                    memory_type,
                    pages_for((length * Array::<T>::width()) as nat) as Word,
                    grant,
                ) && view_made(grant, length, r),
            r matches Ok(a) ==> a.wf() && a.len() == length,
            r matches Err(status) ==> status.raw != 0,
    {
        let pages = page_count(length * core::mem::size_of::<T>());
        let grant = self.allocate_pages(AllocateType::AllocateAnyPages, memory_type, pages);
        assert(pages == pages_for((length * Array::<T>::width()) as nat) as Word);
        assert(self.allocated(
            AllocateType::AllocateAnyPages,
            memory_type,
            pages_for((length * Array::<T>::width()) as nat) as Word,
            grant,
        ));
        view_of_grant(grant, length)
    }

    /// Gives the pages of a view that `allocate` made back to the
    /// allocator: the result is what `free_pages` makes of the firmware's
    /// answer to the request to take back the pages that the elements of the
    /// view take, at the address of the view.
    pub fn free<T>(&self, array: Array<T>) -> (r: Result<(), Status>)
        ensures
            self.freed(
                array.base(),
                pages_for((array.len() * Array::<T>::width()) as nat) as Word,
                r,
            ),
            r matches Err(status) ==> status.raw != 0,
    {
        let (address, pages) = pages_of(&array);
        self.free_pages(address, pages)
    }
}

impl<'a, F: BootServicesTable + SimpleFileSystemTable + FileTable> BootServices<'a, F> {
    /// Whether `r` is what `open_on` makes of the answers that the firmware
    /// gives on the way to the file named `name` on the volume behind
    /// `handle`. The handle is asked for its file system, the file system is
    /// attached, its volume opened, and the file opened relative to the root
    /// of the volume. Each answer is read as the function that asks says; the
    /// first step that fails ends the way with nothing, and the file that the
    /// last step gives is the result.
    pub open spec fn opened_on(
        self,
        handle: Handle,
        name: Seq<Char16>,
        open_mode: OpenMode,
        attributes: Attributes,
        r: Option<File<'a, F>>,
    ) -> bool {
        exists|found: Result<Pointer<SimpleFileSystem<'a, F>>, Status>|
            #[trigger] self.protocol_found(handle, found) && match found {
                Err(_) => r is None,
                Ok(pointer) => exists|system: Option<SimpleFileSystem<'a, F>>|
                    #[trigger] SimpleFileSystem::attached(self.entries(), pointer.target(), system)
                        && match system {
                        None => r is None,
                        Some(system) => exists|volume: Result<File<'a, F>, Status>|
                            #[trigger] system.volume_opened(volume) && match volume {
                                Err(_) => r is None,
                                Ok(root) => exists|file: Result<File<'a, F>, Status>|
                                    #[trigger] root.opened(name, open_mode, attributes, file)
                                        && match file {
                                        Err(_) => r is None,
                                        Ok(file) => r == Some(file),
                                    },
                            },
                    },
            }
    }

    /// Opens `filename` on the volume behind `handle`, if the handle has a
    /// file system, its volume opens and the file is there: see `opened_on`.
    pub fn open_on(
        &self,
        handle: Handle,
        filename: &[Char16],
        open_mode: OpenMode,
        attributes: Attributes,
    ) -> (r: Option<File<'a, F>>)
        ensures
            self.opened_on(handle, filename@, open_mode, attributes, r),
            r matches Some(file) ==> file.wf(),
    {
        let found = self.handle_protocol::<SimpleFileSystem<'a, F>>(handle);
        let pointer = match found {
            Ok(pointer) => pointer,
            Err(_) => {
                return None;
            },
        };
        let attached = SimpleFileSystem::attach(self.table(), &pointer);
        let system = match attached {
            Some(system) => system,
            None => {
                return None;
            },
        };
        let volume = system.open_volume();
        let root = match volume {
            Ok(root) => root,
            Err(_) => {
                return None;
            },
        };
        let file = root.open(filename, open_mode, attributes);
        match file {
            Ok(file) => Some(file),
            Err(_) => None,
        }
    }

    /// Whether handle `index` of `handles`, read out of `memory`, was tried
    /// for the file named `name` and gave `r`.
    pub open spec fn tried<M: Memory<Handle>>(
        self,
        memory: &M,
        handles: Array<Handle>,
        index: Word,
        name: Seq<Char16>,
        open_mode: OpenMode,
        attributes: Attributes,
        r: Option<File<'a, F>>,
    ) -> bool {
        exists|handle: Handle|
            #[trigger] handles.loaded(memory, index, handle) && self.opened_on(
                handle,
                name,
                open_mode,
                attributes,
                r,
            )
    }

    /// Whether the first `count` of `handles` were all tried for the file
    /// named `name` and gave nothing.
    pub open spec fn none_opened<M: Memory<Handle>>(
        self,
        memory: &M,
        handles: Array<Handle>,
        count: Word,
        name: Seq<Char16>,
        open_mode: OpenMode,
        attributes: Attributes,
    ) -> bool {
        forall|index: Word|
            index < count ==> #[trigger] self.tried(
                memory,
                handles,
                index,
                name,
                open_mode,
                attributes,
                None,
            )
    }

    /// Whether `r` is what `find_file` makes of the answers that the
    /// firmware gives on the way to the file named `name`. The handles that
    /// have a file system are searched for; where that fails there is no
    /// file. Otherwise the handles are read out of `memory` in their order
    /// and each is tried as `opened_on` says: the result is the file of the
    /// first that gives one, after all before it gave nothing, and nothing
    /// if none gives one.
    pub open spec fn file_found<M: Memory<Handle>>(
        self,
        memory: &M,
        name: Seq<Char16>,
        open_mode: OpenMode,
        attributes: Attributes,
        r: Option<File<'a, F>>,
    ) -> bool {
        exists|located: Result<Array<Handle>, Status>|
            #[trigger] self.handles_located(SearchKey::ByProtocol(identifier()), located)
                && match located {
                Err(_) => r is None,
                Ok(handles) => match r {
                    None => self.none_opened(
                        memory,
                        handles,
                        handles.len(),
                        name,
                        open_mode,
                        attributes,
                    ),
                    Some(file) => exists|index: Word|
                        {
                            &&& index < handles.len()
                            &&& #[trigger] self.tried(
                                memory,
                                handles,
                                index,
                                name,
                                open_mode,
                                attributes,
                                Some(file),
                            )
                            &&& self.none_opened(
                                memory,
                                handles,
                                index,
                                name,
                                open_mode,
                                attributes,
                            )
                        },
                },
            }
    }

    /// Looks for `filename` on the volumes of all handles that have a file
    /// system, in the order in which the firmware lists them, and opens the
    /// first that is found. The handles are read out of `memory`. See
    /// `file_found`.
    pub fn find_file<M: Memory<Handle>>(
        &self,
        memory: &M,
        filename: &[Char16],
        open_mode: OpenMode,
        attributes: Attributes,
    ) -> (r: Option<File<'a, F>>)
        ensures
            self.file_found(memory, filename@, open_mode, attributes, r),
            r matches Some(file) ==> file.wf(),
    {
        let guid = SimpleFileSystem::<'a, F>::guid();
        let located = self.locate_handle_buffer(SearchKey::ByProtocol(guid));
        let handles = match located {
            Ok(handles) => handles,
            Err(_) => {
                return None;
            },
        };
        let mut index: Word = 0;
        while index < handles.length()
            invariant
                index <= handles.len(),
                located == Ok::<Array<Handle>, Status>(handles),
                self.handles_located(SearchKey::ByProtocol(identifier()), located),
                self.none_opened(memory, handles, index, filename@, open_mode, attributes),
            decreases handles.len() - index,
        {
            let handle = handles.load(memory, index);
            let opened = self.open_on(handle, filename, open_mode, attributes);
            assert(self.tried(
                memory,
                handles,
                index,
                filename@,
                open_mode,
                attributes,
                opened,
            ));
            match opened {
                Some(file) => {
                    return Some(file);
                },
                None => {},
            }
            index = index + 1;
        }
        None
    }
}

} // verus!
