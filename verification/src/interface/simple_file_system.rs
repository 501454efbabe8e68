//! The simple file system protocol: the way to the root of a volume.

use vstd::prelude::*;
use crate::array::Pointer;
use crate::common::Address;
use crate::common::Guid;
use crate::common::HasGuid;
use crate::common::Status;
use crate::interface::file::is_supported;
use crate::interface::file::supported;
use crate::interface::file::File;
use crate::interface::file::FileTable;

verus! {

/// The entry points of the simple file system protocol. `this` is the
/// address of the interface that the call is for.
pub trait SimpleFileSystemTable {
    /// The revision that the interface at `this` reports.
    fn file_system_revision(&self, this: Address) -> u64;

    /// Opens the root directory of the volume; the address of its file
    /// interface comes out.
    fn open_volume(&self, this: Address) -> (Status, Address);
}

/// One interface of the simple file system protocol.
pub struct SimpleFileSystem<'a, F: SimpleFileSystemTable + FileTable> {
    this: Address,
    revision: u64,
    table: &'a F,
}

impl<'a, F: SimpleFileSystemTable + FileTable> SimpleFileSystem<'a, F> {
    #[verifier::type_invariant]
    spec fn inv(self) -> bool {
        self.wf()
    }

    /// The address of the interface.
    pub closed spec fn place(self) -> Address {
        self.this
    }

    /// The revision that the interface reported when it was attached.
    pub closed spec fn version(self) -> u64 {
        self.revision
    }

    /// What holds of every such interface: it offers the entry points of
    /// the first revision. The file protocol counts revisions the same way.
    pub open spec fn wf(self) -> bool {
        supported(self.version())
    }

    /// The entry points through which the interface is reached.
    pub closed spec fn entries(self) -> &'a F {
        self.table
    }

    /// The interface at `this`, reached through `table`, if the revision
    /// that it reports is one that this layer can call.
    pub fn new(table: &'a F, this: Address, revision: u64) -> (r: Option<Self>)
        ensures
            r is Some <==> supported(revision),
            r matches Some(system) ==> system.place() == this && system.version() == revision
                && system.entries() == table && system.wf(),
    {
        if is_supported(revision) {
            Some(SimpleFileSystem { this, revision, table })
        } else {
            None
        }
    }

    /// Whether `r` is what `attach` makes of the revision that the firmware
    /// reports for the interface at `this`: the interface there with that
    /// revision, if the revision is one that this layer can call, and nothing
    /// otherwise.
    pub open spec fn attached(table: &'a F, this: Address, r: Option<Self>) -> bool {
        exists|revision: u64|
            {
                &&& call_ensures(F::file_system_revision, (table, this), revision)
                &&& r is Some <==> supported(revision)
                &&& r matches Some(system) ==> system.place() == this && system.version()
                    == revision && system.entries() == table
            }
    }

    /// Attaches to the interface at `place`: asks for its revision and
    /// makes the interface, if that revision is one that this layer can
    /// call. See `attached`.
    pub fn attach(table: &'a F, place: &Pointer<Self>) -> (r: Option<Self>)
        ensures
            Self::attached(table, place.target(), r),
            r matches Some(system) ==> system.place() == place.target() && system.wf(),
    {
        let this = place.address();
        let revision = table.file_system_revision(this);
        assert(call_ensures(F::file_system_revision, (table, this), revision));
        Self::new(table, this, revision)
    }

    /// Whether `r` is what `open_volume` makes of an answer that the
    /// firmware gives to the request to open the root directory of this
    /// volume: the answer is read as `File::attached` says.
    pub open spec fn volume_opened(self, r: Result<File<'a, F>, Status>) -> bool {
        exists|status: Status, root: Address|
            call_ensures(F::open_volume, (self.entries(), self.place()), (status, root))
                && File::attached(self.entries(), status, root, r)
    }

    /// Opens the root directory of the volume: see `volume_opened`. A file
    /// that comes back is at an address other than null and of a revision
    /// that this layer can call, and every failure carries a status other
    /// than zero.
    pub fn open_volume(&self) -> (r: Result<File<'a, F>, Status>)
        ensures
            self.volume_opened(r),
            r matches Ok(file) ==> file.wf() && file.place()@ != 0,
            r matches Err(status) ==> status.raw != 0,
    {
        let (status, root) = self.table.open_volume(self.this);
        assert(call_ensures(F::open_volume, (self.entries(), self.place()), (status, root)));
        File::attach(self.table, status, root)
    }
}

impl<'a, F: SimpleFileSystemTable + FileTable> HasGuid for SimpleFileSystem<'a, F> {
    fn guid() -> (g: Guid)
        ensures
            g == identifier(),
    {
        Guid(0x964e5b22, 0x6459, 0x11d2, [0x8e, 0x39, 0x0, 0xa0, 0xc9, 0x69, 0x72, 0x3b])
    }
}

/// The identifier of the simple file system protocol.
pub open spec fn identifier() -> Guid {
    Guid(0x964e5b22, 0x6459, 0x11d2, [0x8eu8, 0x39u8, 0x0u8, 0xa0u8, 0xc9u8, 0x69u8, 0x72u8, 0x3bu8])
}

} // verus!
