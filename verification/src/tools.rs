//! What several tables share: an interface together with the handle that it
//! was found on, and text that ends with a zero.

use vstd::prelude::*;
use crate::common::Char16;
use crate::common::Handle;
use crate::common::Status;

verus! {

/// The greatest number of code units that this layer reads of any text that
/// the firmware hands over.
pub const MAX_STRING_LENGTH: usize = 1024;

/// An interface, with the handle that it was found on where it has one.
pub struct EfiObject<'a, T> {
    handle: Option<Handle>,
    implementation: &'a T,
}

impl<'a, T> EfiObject<'a, T> {
    /// The handle that the interface was found on.
    pub closed spec fn owner(self) -> Option<Handle> {
        self.handle
    }

    /// The interface itself.
    pub closed spec fn target(self) -> &'a T {
        self.implementation
    }

    pub fn get_handle(&self) -> (r: Option<Handle>)
        ensures
            r == self.owner(),
    {
        self.handle
    }

    pub fn from_parts(handle: Option<Handle>, implementation: &'a T) -> (r: Self)
        ensures
            r.owner() == handle,
            r.target() == implementation,
    {
        EfiObject { handle, implementation }
    }

    /// The interface itself.
    pub fn get(&self) -> (r: &'a T)
        ensures
            r == self.target(),
    {
        self.implementation
    }
}

/// What every call into the firmware comes to: a value, or the status of
/// the failure.
pub type EfiResult<T> = Result<T, Status>;

/// Turns a status and the value of a successful call into a result: the
/// value when the status is zero, the status itself otherwise.
pub fn result<T>(status: Status, value: T) -> (r: EfiResult<T>)
    ensures
        r == status.checked(value),
{
    status.check(value)
}

/// The number of code units of `units` that stand before the first zero,
/// or all of them, or `MAX_STRING_LENGTH`, whichever is least.
pub open spec fn text_length(units: Seq<Char16>) -> nat {
    text_length_within(units, MAX_STRING_LENGTH as nat)
}

/// The number of code units of `units` that stand before the first zero,
/// or all of them, or `limit`, whichever is least.
pub open spec fn text_length_within(units: Seq<Char16>, limit: nat) -> nat
    decreases units.len(),
{
    if units.len() == 0 || limit == 0 || units[0] == 0 {
        0
    } else {
        1 + text_length_within(units.skip(1), (limit - 1) as nat)
    }
}

/// What `text_length_within` counts: a length within the limit and within
/// the text, with no zero before it, that ends at a zero unless the limit
/// or the end of the text came first.
pub proof fn lemma_text_length_within(units: Seq<Char16>, limit: nat)
    ensures
        text_length_within(units, limit) <= limit,
        text_length_within(units, limit) <= units.len(),
        forall|i: int| 0 <= i < text_length_within(units, limit) ==> units[i] != 0,
        text_length_within(units, limit) < limit && text_length_within(units, limit)
            < units.len() ==> units[text_length_within(units, limit) as int] == 0,
    decreases units.len(),
{
    if units.len() == 0 || limit == 0 || units[0] == 0 {
    } else {
        let rest = units.skip(1);
        lemma_text_length_within(rest, (limit - 1) as nat);
        let n = text_length_within(rest, (limit - 1) as nat);
        assert forall|i: int| 0 <= i < n + 1 implies units[i] != 0 by {
            if i > 0 {
                assert(rest[i - 1] == units[i]);
            }
        }
        if n + 1 < limit && n + 1 < units.len() {
            assert(rest[n as int] == units[n as int + 1]);
        }
    }
}

/// The text at the start of `raw`: the code units before the first zero.
/// No more than `MAX_STRING_LENGTH` of them are taken.
pub fn create_utf16(raw: &[Char16]) -> (text: &[Char16])
    ensures
        text@ == raw@.take(text_length(raw@) as int),
        text@.len() <= MAX_STRING_LENGTH,
        forall|i: int| 0 <= i < text@.len() ==> text@[i] != 0,
{
    let mut length: usize = 0;
    proof {
        lemma_text_length_within(raw@, MAX_STRING_LENGTH as nat);
    }
    while length < raw.len() && length < MAX_STRING_LENGTH && raw[length] != 0
        invariant
            length <= raw@.len(),
            length <= MAX_STRING_LENGTH,
            forall|i: int| 0 <= i < length ==> raw@[i] != 0,
        decreases raw@.len() - length,
    {
        length = length + 1;
    }
    proof {
        lemma_text_length_is(raw@, MAX_STRING_LENGTH as nat, length as nat);
    }
    vstd::slice::slice_subrange(raw, 0, length)
}

/// A length within the limit and the text, with no zero before it, that
/// ends at a zero unless the limit or the end of the text came first, is
/// the length that `text_length_within` counts.
pub proof fn lemma_text_length_is(units: Seq<Char16>, limit: nat, length: nat)
    requires
        length <= limit,
        length <= units.len(),
        forall|i: int| 0 <= i < length ==> units[i] != 0,
        length < limit && length < units.len() ==> units[length as int] == 0,
    ensures
        text_length_within(units, limit) == length,
    decreases units.len(),
{
    if units.len() == 0 || limit == 0 || units[0] == 0 {
        if length > 0 {
            assert(units[0] != 0);
        }
    } else {
        let rest = units.skip(1);
        assert(length > 0);
        assert forall|i: int| 0 <= i < length - 1 implies rest[i] != 0 by {
            assert(rest[i] == units[i + 1]);
        }
        if length - 1 < limit - 1 && length - 1 < rest.len() {
            assert(rest[length - 1] == units[length as int]);
        }
        lemma_text_length_is(rest, (limit - 1) as nat, (length - 1) as nat);
    }
}

} // verus!
