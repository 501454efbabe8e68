//! The system table: the root from which everything else of the firmware
//! is reached.

use vstd::prelude::*;
use crate::array::Array;
use crate::array::Pointer;
use crate::boot_services::BootServices;
use crate::boot_services::BootServicesTable;
use crate::common::Char16;
use crate::common::Handle;
use crate::common::Header;
use crate::configuration_table::ConfigurationTable;
use crate::interface::simple_input::SimpleInput;
use crate::interface::simple_input::SimpleInputTable;
use crate::interface::simple_text_output::SimpleTextOutput;
use crate::interface::simple_text_output::SimpleTextOutputTable;
use crate::runtime_services::RuntimeServices;
use crate::tools::EfiObject;

verus! {

/// The signature in the header of the system table.
pub const SIGNATURE: u64 = 0x5453595320494249;

/// A console device together with the handle that it belongs to.
pub struct Console<P> {
    pub handle: Handle,
    pub interface: P,
}

/// The system table of one firmware.
pub struct SystemTable<'a, F: BootServicesTable + SimpleInputTable + SimpleTextOutputTable> {
    pub header: Header,
    pub firmware_vendor: Pointer<Char16>,
    pub firmware_revision: u32,
    pub stdin: Console<SimpleInput<'a, F>>,
    pub stdout: Console<SimpleTextOutput<'a, F>>,
    pub stderr: Console<SimpleTextOutput<'a, F>>,
    pub runtime_services: RuntimeServices,
    pub boot_services: BootServices<'a, F>,
    pub configuration_tables: Array<ConfigurationTable>,
}

impl<'a, F: BootServicesTable + SimpleInputTable + SimpleTextOutputTable> SystemTable<'a, F> {
    /// Whether the header carries the signature of the system table.
    pub open spec fn signed(self) -> bool {
        self.header.signature == SIGNATURE
    }

    /// Whether the table is what it claims to be, by its signature.
    pub fn is_valid(&self) -> (r: bool)
        ensures
            r == self.signed(),
    {
        self.header.signature == SIGNATURE
    }

    /// States that the table is what it claims to be. It is for callers
    /// that know so: `is_valid` finds out.
    pub fn check(&self)
        requires
            self.signed(),
    {
    }

    pub fn header(&self) -> (r: Header)
        ensures
            r == self.header,
    {
        self.header
    }

    /// Where the name of the firmware's vendor is, as text that ends with a
    /// zero.
    pub fn firmware_vendor(&self) -> (r: &Pointer<Char16>)
        ensures
            *r == self.firmware_vendor,
    {
        &self.firmware_vendor
    }

    pub fn firmware_revision(&self) -> (r: u32)
        ensures
            r == self.firmware_revision,
    {
        self.firmware_revision
    }

    pub fn stdin(&self) -> (r: &SimpleInput<'a, F>)
        ensures
            *r == self.stdin.interface,
    {
        &self.stdin.interface
    }

    pub fn stdout(&self) -> (r: &SimpleTextOutput<'a, F>)
        ensures
            *r == self.stdout.interface,
    {
        &self.stdout.interface
    }

    pub fn stderr(&self) -> (r: &SimpleTextOutput<'a, F>)
        ensures
            *r == self.stderr.interface,
    {
        &self.stderr.interface
    }

    pub fn runtime_services(&self) -> (r: &RuntimeServices)
        ensures
            *r == self.runtime_services,
    {
        &self.runtime_services
    }

    pub fn boot_services(&self) -> (r: &BootServices<'a, F>)
        ensures
            *r == self.boot_services,
    {
        &self.boot_services
    }

    pub fn configuration_tables(&self) -> (r: &Array<ConfigurationTable>)
        ensures
            *r == self.configuration_tables,
    {
        &self.configuration_tables
    }

    /// The table itself, as the interface of the image `handle`.
    pub fn as_object(&'a self, handle: Handle) -> (r: EfiObject<'a, Self>)
        ensures
            r.owner() == Some(handle),
            *r.target() == *self,
    {
        EfiObject::from_parts(Some(handle), self)
    }

    /// The input device, with the handle that it belongs to.
    pub fn get_stdin(&'a self) -> (r: EfiObject<'a, SimpleInput<'a, F>>)
        ensures
            r.owner() == Some(self.stdin.handle),
            *r.target() == self.stdin.interface,
    {
        EfiObject::from_parts(Some(self.stdin.handle), &self.stdin.interface)
    }

    /// The output device, with the handle that it belongs to.
    pub fn get_stdout(&'a self) -> (r: EfiObject<'a, SimpleTextOutput<'a, F>>)
        ensures
            r.owner() == Some(self.stdout.handle),
            *r.target() == self.stdout.interface,
    {
        EfiObject::from_parts(Some(self.stdout.handle), &self.stdout.interface)
    }

    /// The device for error output, with the handle that it belongs to.
    pub fn get_stderr(&'a self) -> (r: EfiObject<'a, SimpleTextOutput<'a, F>>)
        ensures
            r.owner() == Some(self.stderr.handle),
            *r.target() == self.stderr.interface,
    {
        EfiObject::from_parts(Some(self.stderr.handle), &self.stderr.interface)
    }

    /// The runtime services, which belong to no handle.
    pub fn get_runtime_services(&'a self) -> (r: EfiObject<'a, RuntimeServices>)
        ensures
            r.owner() == None::<Handle>,
            *r.target() == self.runtime_services,
    {
        EfiObject::from_parts(None, &self.runtime_services)
    }

    /// The boot services, which belong to no handle.
    pub fn get_boot_services(&'a self) -> (r: EfiObject<'a, BootServices<'a, F>>)
        ensures
            r.owner() == None::<Handle>,
            *r.target() == self.boot_services,
    {
        EfiObject::from_parts(None, &self.boot_services)
    }
}

} // verus!
