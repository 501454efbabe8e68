//! The simple input protocol: key strokes from the console.

use vstd::prelude::*;
use crate::common::Address;
use crate::common::Bool;
use crate::common::Char16;
use crate::common::Event;
use crate::common::Guid;
use crate::common::HasGuid;
use crate::common::Status;

verus! {

/// One key stroke.
#[derive(Copy, Clone, Debug, PartialEq, Eq, Structural)]
pub struct InputKey {
    pub scan_code: u16,
    pub unicode_char: Char16,
}

impl Default for InputKey {
    fn default() -> (key: Self)
        ensures
            key.scan_code == 0,
            key.unicode_char == 0,
    {
        InputKey { scan_code: 0, unicode_char: 0 }
    }
}

/// The entry points of the simple input protocol. `this` is the address of
/// the interface that the call is for.
pub trait SimpleInputTable {
    fn reset(&self, this: Address, extended_verification: Bool) -> Status;

    /// Reads the next key stroke into `key` and hands it back.
    fn read_key_stroke(&self, this: Address, key: InputKey) -> (Status, InputKey);

    /// The event that is signalled when a key stroke is waiting.
    fn wait_for_key(&self, this: Address) -> Event;
}

/// One interface of the simple input protocol.
pub struct SimpleInput<'a, F: SimpleInputTable> {
    this: Address,
    table: &'a F,
}

impl<'a, F: SimpleInputTable> SimpleInput<'a, F> {
    /// The address of the interface.
    pub closed spec fn place(self) -> Address {
        self.this
    }

    /// The entry points through which the interface is reached.
    pub closed spec fn entries(self) -> &'a F {
        self.table
    }

    /// The interface at `this`, reached through `table`.
    pub fn new(table: &'a F, this: Address) -> (r: Self)
        ensures
            r.place() == this,
            r.entries() == table,
    {
        SimpleInput { this, table }
    }

    /// Whether `r` is what `reset` makes of an answer that the firmware
    /// gives to the request to reset this device: success where the status
    /// is zero, and the status as the failure otherwise.
    pub open spec fn was_reset(self, extended_verification: Bool, r: Result<(), Status>) -> bool {
        exists|status: Status|
            call_ensures(F::reset, (self.entries(), self.place(), extended_verification), status)
                && r == status.checked(())
    }

    /// Resets the input device: see `was_reset`.
    pub fn reset(&self, extended_verification: Bool) -> (r: Result<(), Status>)
        ensures
            self.was_reset(extended_verification, r),
            r matches Err(status) ==> status.raw != 0,
    {
        let status = self.table.reset(self.this, extended_verification);
        assert(call_ensures(
            F::reset,
            (self.entries(), self.place(), extended_verification),
            status,
        ));
        status.check(())
    }

    /// Whether `r` is what `read_key_stroke` makes of an answer that the
    /// firmware gives to the request for the next key stroke of this device,
    /// made with an empty key to fill in: the key that came out where the
    /// status is zero, and the status as the failure otherwise.
    pub open spec fn key_read(self, r: Result<InputKey, Status>) -> bool {
        exists|status: Status, key: InputKey|
            call_ensures(
                F::read_key_stroke,
                (self.entries(), self.place(), (InputKey { scan_code: 0, unicode_char: 0 })),
                (status, key),
            ) && r == status.checked(key)
    }

    /// Reads the next key stroke: see `key_read`.
    pub fn read_key_stroke(&self) -> (r: Result<InputKey, Status>)
        ensures
            self.key_read(r),
            r matches Err(status) ==> status.raw != 0,
    {
        let empty = InputKey::default();
        let (status, key) = self.table.read_key_stroke(self.this, empty);
        assert(call_ensures(
            F::read_key_stroke,
            (self.entries(), self.place(), (InputKey { scan_code: 0, unicode_char: 0 })),
            (status, key),
        ));
        status.check(key)
    }

    /// The event that is signalled when a key stroke is waiting: what the
    /// firmware answers when asked for it at this interface.
    pub fn get_wait_for_key(&self) -> (event: Event)
        ensures
            call_ensures(F::wait_for_key, (self.entries(), self.place()), event),
    {
        self.table.wait_for_key(self.this)
    }
}

impl<'a, F: SimpleInputTable> HasGuid for SimpleInput<'a, F> {
    fn guid() -> (g: Guid)
        ensures
            g == Guid(0x387477c1, 0x69c7, 0x11d2, [0x8eu8, 0x39u8, 0x0u8, 0xa0u8, 0xc9u8, 0x69u8, 0x72u8, 0x3bu8]),
    {
        Guid(0x387477c1, 0x69c7, 0x11d2, [0x8e, 0x39, 0x0, 0xa0, 0xc9, 0x69, 0x72, 0x3b])
    }
}

} // verus!
