//! Words, identifiers and the status convention shared by every firmware call.

use vstd::prelude::*;

verus! {

/// The firmware's native machine word.
pub type Word = usize;

/// One UTF-16 code unit.
pub type Char16 = u16;

/// A boolean as the firmware passes it: zero is false.
pub type Bool = u8;

/// The size of the page allocator's granule, in bytes.
pub const PAGE_SIZE: Word = 0x1000;

/// The raw code of the failure that this layer reports when a call returned
/// success together with values that nobody can use, such as a null address.
pub const UNUSABLE_REPLY: Word = 1;

/// Names an object of the firmware. It is only ever handed back to the firmware.
#[derive(Copy, Clone, Debug, PartialEq, Eq, PartialOrd, Ord, Structural)]
pub struct Handle {
    raw: Word,
}

impl View for Handle {
    type V = Word;

    closed spec fn view(&self) -> Word {
        self.raw
    }
}

impl Handle {
    pub fn new(raw: Word) -> (r: Self)
        ensures
            r@ == raw,
    {
        Handle { raw }
    }

    pub fn raw(&self) -> (r: Word)
        ensures
            r == self@,
    {
        self.raw
    }

    /// Two handles with the same word are the same handle.
    pub proof fn lemma_view_injective(a: Self, b: Self)
        requires
            a@ == b@,
        ensures
            a == b,
    {
    }
}

/// Names an event of the firmware.
#[derive(Copy, Clone, Debug, PartialEq, Eq, PartialOrd, Ord, Structural)]
pub struct Event {
    raw: Word,
}

impl View for Event {
    type V = Word;

    closed spec fn view(&self) -> Word {
        self.raw
    }
}

impl Event {
    pub fn new(raw: Word) -> (r: Self)
        ensures
            r@ == raw,
    {
        Event { raw }
    }

    pub fn raw(&self) -> (r: Word)
        ensures
            r == self@,
    {
        self.raw
    }
}

/// The token that a notification was registered under.
#[derive(Copy, Clone, Debug, PartialEq, Eq, PartialOrd, Ord, Structural)]
pub struct Registration {
    raw: Word,
}

impl View for Registration {
    type V = Word;

    closed spec fn view(&self) -> Word {
        self.raw
    }
}

impl Registration {
    /// The token that stands for "no registration".
    pub fn null() -> (r: Self)
        ensures
            r@ == 0,
    {
        Registration { raw: 0 }
    }

    pub fn new(raw: Word) -> (r: Self)
        ensures
            r@ == raw,
    {
        Registration { raw }
    }

    pub fn raw(&self) -> (r: Word)
        ensures
            r == self@,
    {
        self.raw
    }

    /// Two tokens with the same word are the same token.
    pub proof fn lemma_view_injective(a: Self, b: Self)
        requires
            a@ == b@,
        ensures
            a == b,
    {
    }
}

/// The outcome of one firmware call: zero is success, anything else a failure
/// whose meaning belongs to the firmware.
#[derive(Copy, Clone, Debug, PartialEq, Eq, Structural)]
pub struct Status {
    pub raw: Word,
}

impl Status {
    /// The status that reports success.
    pub fn null() -> (r: Self)
        ensures
            r.raw == 0,
    {
        Status { raw: 0 }
    }

    /// The failure reported for a successful call whose values are unusable.
    pub fn unusable() -> (r: Self)
        ensures
            r == Self::unusable_reply(),
    {
        Status { raw: UNUSABLE_REPLY }
    }

    /// The status whose code is `UNUSABLE_REPLY`.
    pub open spec fn unusable_reply() -> Status {
        Status { raw: UNUSABLE_REPLY }
    }

    /// The failure that a reply with this status is read as when it holds
    /// nothing usable: the status itself where that is a failure, and the
    /// status with the code `UNUSABLE_REPLY` where it claims success.
    pub open spec fn failure(self) -> Status {
        if self.raw != 0 {
            self
        } else {
            Status::unusable_reply()
        }
    }

    /// Computes `failure`.
    pub fn to_failure(self) -> (r: Status)
        ensures
            r == self.failure(),
            r.raw != 0,
    {
        if self.raw != 0 {
            self
        } else {
            Status::unusable()
        }
    }

    /// What `check` returns for a status and a value: the value when the
    /// status is zero, the status itself otherwise.
    pub open spec fn checked<T>(self, value: T) -> Result<T, Status> {
        if self.raw == 0 {
            Ok(value)
        } else {
            Err(self)
        }
    }

    /// Turns a status and the value of a successful call into a result.
    pub fn check<T>(self, value: T) -> (r: Result<T, Status>)
        ensures
            r == self.checked(value),
    {
        if self.raw == 0 {
            Ok(value)
        } else {
            Err(self)
        }
    }

    /// Like `check`, but the value is only computed once it is known to be
    /// needed: `op` runs on success and not otherwise.
    pub fn check_map<T, F>(self, op: F) -> (r: Result<T, Status>) where F: FnOnce() -> T
        requires
            self.raw == 0 ==> op.requires(()),
        ensures
            self.raw == 0 ==> r is Ok && op.ensures((), r->Ok_0),
            self.raw != 0 ==> r == Err::<T, Status>(self),
    {
        if self.raw == 0 {
            Ok(op())
        } else {
            Err(self)
        }
    }

    /// Chains a second step behind a first call: on success the result is
    /// whatever `op` returns, and a failure of the first call is kept as it is.
    pub fn check_flat_map<T, F>(self, op: F) -> (r: Result<T, Status>) where
        F: FnOnce() -> Result<T, Status>,

        requires
            self.raw == 0 ==> op.requires(()),
        ensures
            self.raw == 0 ==> op.ensures((), r),
            self.raw != 0 ==> r == Err::<T, Status>(self),
    {
        if self.raw == 0 {
            op()
        } else {
            Err(self)
        }
    }

    /// A status is a success for some value exactly when its code is zero, and
    /// a failure keeps its code.
    pub proof fn lemma_checked<T>(self, value: T)
        ensures
            self.raw == 0 ==> self.checked(value) == Ok::<T, Status>(value),
            self.raw != 0 ==> self.checked(value) == Err::<T, Status>(self),
            self.checked(value) is Ok <==> self.raw == 0,
    {
    }
}

/// A 128-bit identifier of an interface or table type.
#[derive(Copy, Clone, Debug)]
pub struct Guid(pub u32, pub u16, pub u16, pub [u8; 8]);

impl PartialEq for Guid {
    fn eq(&self, other: &Self) -> (r: bool) {
        let same_tail = self.3[0] == other.3[0] && self.3[1] == other.3[1] && self.3[2]
            == other.3[2] && self.3[3] == other.3[3] && self.3[4] == other.3[4] && self.3[5]
            == other.3[5] && self.3[6] == other.3[6] && self.3[7] == other.3[7];
        proof {
            if same_tail {
                assert(self.3 =~= other.3);
            }
        }
        self.0 == other.0 && self.1 == other.1 && self.2 == other.2 && same_tail
    }
}

impl Eq for Guid {

}

impl vstd::std_specs::cmp::PartialEqSpecImpl for Guid {
    open spec fn obeys_eq_spec() -> bool {
        true
    }

    open spec fn eq_spec(&self, other: &Self) -> bool {
        *self == *other
    }
}

/// The header that every top-level table of the firmware starts with.
#[derive(Copy, Clone, Debug, PartialEq, Eq, Structural)]
pub struct Header {
    pub signature: u64,
    pub revision: u32,
    pub size: u32,
    pub crc32: u32,
    pub reserved: u32,
}

impl Header {
    pub fn new(signature: u64, revision: u32, size: u32, crc32: u32) -> (r: Self)
        ensures
            r.signature == signature,
            r.revision == revision,
            r.size == size,
            r.crc32 == crc32,
            r.reserved == 0,
    {
        Header { signature, revision, size, crc32, reserved: 0 }
    }
}

/// Binds a type to the identifier that the firmware knows it by. Every
/// call of `guid` on one type returns the same identifier.
pub trait HasGuid {
    fn guid() -> Guid;
}

/// A physical address. It is 64 bits wide whatever the width of a native
/// pointer.
#[derive(Copy, Clone, Debug, PartialEq, Eq, PartialOrd, Ord, Structural)]
pub struct Address {
    raw: u64,
}

impl View for Address {
    type V = u64;

    closed spec fn view(&self) -> u64 {
        self.raw
    }
}

impl Address {
    /// The null address, which stands for "no memory".
    pub fn null() -> (r: Self)
        ensures
            r@ == 0,
    {
        Address { raw: 0 }
    }

    pub fn new(raw: u64) -> (r: Self)
        ensures
            r@ == raw,
    {
        Address { raw }
    }

    pub fn raw(&self) -> (r: u64)
        ensures
            r == self@,
    {
        self.raw
    }

    pub fn is_null(&self) -> (r: bool)
        ensures
            r == (self@ == 0),
    {
        self.raw == 0
    }

    /// Two addresses with the same value are the same address.
    pub proof fn lemma_view_injective(a: Self, b: Self)
        requires
            a@ == b@,
        ensures
            a == b,
    {
    }
}

} // verus!
