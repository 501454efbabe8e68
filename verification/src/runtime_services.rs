//! The runtime services: what stays after the boot services have ended.

use vstd::prelude::*;
use crate::common::Header;

verus! {

/// The signature in the header of the runtime services table.
pub const SIGNATURE: u64 = 0x56524553544e5552;

/// The runtime services of one firmware.
#[derive(Copy, Clone, Debug)]
pub struct RuntimeServices {
    header: Header,
}

impl RuntimeServices {
    /// The header that the table was attached with.
    pub closed spec fn header(self) -> Header {
        self.header
    }

    /// Whether the header carries the signature of the runtime services.
    pub open spec fn signed(self) -> bool {
        self.header().signature == SIGNATURE
    }

    /// Attaches to the table whose header is `header`.
    pub fn new(header: Header) -> (r: Self)
        ensures
            r.header() == header,
    {
        RuntimeServices { header }
    }

    /// Whether the table is what it claims to be, by its signature.
    pub fn is_valid(&self) -> (r: bool)
        ensures
            r == self.signed(),
    {
        self.header.signature == SIGNATURE
    }

    pub fn get_header(&self) -> (r: Header)
        ensures
            r == self.header(),
    {
        self.header
    }
}

} // verus!
