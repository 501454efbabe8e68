//! The simple text output protocol: text on the console.

use vstd::prelude::*;
use vstd::string::StringSliceAdditionalSpecFns;
use crate::common::Address;
use crate::common::Bool;
use crate::common::Char16;
use crate::common::Guid;
use crate::common::HasGuid;
use crate::common::Status;
use crate::common::Word;

verus! {

/// The number of characters that `write_str` hands to the firmware at a
/// time.
pub const LINE: usize = 0x50;

/// The state of an output device.
#[derive(Copy, Clone, Debug, PartialEq, Eq, Structural)]
pub struct SimpleTextOutputMode {
    pub max_mode: i32,
    pub mode: i32,
    pub attribute: i32,
    pub cursor_column: i32,
    pub cursor_row: i32,
    pub cursor_visible: Bool,
}

/// The entry points of the simple text output protocol. `this` is the
/// address of the interface that the call is for.
pub trait SimpleTextOutputTable {
    fn reset(&self, this: Address, extended_verification: Bool) -> Status;

    /// Writes `string`, which ends with a zero.
    fn output_string(&self, this: Address, string: &[Char16]) -> Status;

    /// Asks whether the device can show `string`, which ends with a zero.
    fn test_string(&self, this: Address, string: &[Char16]) -> Status;

    /// Asks for the size of mode `mode_number`; columns and rows come out.
    fn query_mode(&self, this: Address, mode_number: Word) -> (Status, Word, Word);

    fn set_mode(&self, this: Address, mode_number: Word) -> Status;

    fn set_attribute(&self, this: Address, attribute: Word) -> Status;

    fn clear_screen(&self, this: Address) -> Status;

    fn set_cursor_position(&self, this: Address, column: Word, row: Word) -> Status;

    fn enable_cursor(&self, this: Address, enable: Bool) -> Status;

    /// The state that the device is in.
    fn mode(&self, this: Address) -> SimpleTextOutputMode;
}

/// A boolean as the firmware takes it.
pub open spec fn flag(value: bool) -> Bool {
    if value {
        1
    } else {
        0
    }
}

/// Computes `flag`.
pub fn to_flag(value: bool) -> (r: Bool)
    ensures
        r == flag(value),
{
    if value {
        1
    } else {
        0
    }
}

/// The number of pieces that `write_str` cuts a text of `length` bytes
/// into: full lines, and one more for what is left over.
pub open spec fn pieces(length: nat) -> nat {
    (length + LINE - 1) as nat / (LINE as nat)
}

/// Piece `piece` of `bytes`, as `write_str` hands it to the firmware: up to
/// `LINE` bytes from where the piece before it ended, each widened to a code
/// unit, and a zero behind them. Behind the last piece there are only
/// pieces without bytes.
pub open spec fn piece_of(bytes: Seq<u8>, piece: nat) -> Seq<Char16> {
    let start = if piece * LINE <= bytes.len() {
        piece * LINE
    } else {
        bytes.len() as int
    };
    let end = if start + LINE <= bytes.len() {
        start + LINE
    } else {
        bytes.len() as int
    };
    Seq::new((end - start + 1) as nat, |i: int| if i < end - start {
        bytes[start + i] as Char16
    } else {
        0
    })
}

/// The pieces hold every byte of the text once, in its order: byte `at` is
/// the code unit at place `at % LINE` of piece `at / LINE`, and what follows
/// the bytes of a piece is its zero.
pub proof fn lemma_pieces_hold_the_text(bytes: Seq<u8>, at: nat)
    requires
        at < bytes.len(),
    ensures
        at / (LINE as nat) < pieces(bytes.len()),
        at % (LINE as nat) < piece_of(bytes, at / (LINE as nat)).len() - 1,
        piece_of(bytes, at / (LINE as nat))[(at % (LINE as nat)) as int] == bytes[at as int] as Char16,
        piece_of(bytes, at / (LINE as nat)).last() == 0,
{
}

/// Computes `piece_of`.
pub fn piece(bytes: &[u8], number: usize) -> (r: Vec<Char16>)
    ensures
        r@ == piece_of(bytes@, number as nat),
        1 <= r@.len() <= LINE + 1,
        r@.last() == 0,
{
    let total: usize = bytes.len();
    let start: usize = if number <= total / LINE {
        number * LINE
    } else {
        total
    };
    let end: usize = if total - start >= LINE {
        start + LINE
    } else {
        total
    };
    let mut buffer: Vec<Char16> = Vec::new();
    let mut at: usize = start;
    while at < end
        invariant
            start <= at <= end <= bytes@.len(),
            buffer@.len() == at - start,
            forall|i: int| 0 <= i < at - start ==> buffer@[i] == bytes@[start + i] as Char16,
        decreases end - at,
    {
        buffer.push(bytes[at] as Char16);
        at = at + 1;
    }
    buffer.push(0);
    assert(buffer@ =~= piece_of(bytes@, number as nat));
    buffer
}

/// Counts `pieces`.
pub fn piece_count(bytes: &[u8]) -> (r: usize)
    ensures
        r == pieces(bytes@.len()),
{
    if bytes.len() % LINE == 0 {
        bytes.len() / LINE
    } else {
        bytes.len() / LINE + 1
    }
}

/// One interface of the simple text output protocol.
pub struct SimpleTextOutput<'a, F: SimpleTextOutputTable> {
    this: Address,
    table: &'a F,
}

impl<'a, F: SimpleTextOutputTable> SimpleTextOutput<'a, F> {
    /// The address of the interface.
    pub closed spec fn place(self) -> Address {
        self.this
    }

    /// The entry points through which the interface is reached.
    pub closed spec fn entries(self) -> &'a F {
        self.table
    }

    /// The interface at `this`, reached through `table`.
    pub fn new(table: &'a F, this: Address) -> (r: Self)
        ensures
            r.place() == this,
            r.entries() == table,
    {
        SimpleTextOutput { this, table }
    }

    /// Whether `status` is an answer that the firmware gives to the request
    /// to write the code units `units` to this device.
    pub open spec fn wrote(self, units: Seq<Char16>, status: Status) -> bool {
        exists|string: &[Char16]|
            string@ == units && call_ensures(
                F::output_string,
                (self.entries(), self.place(), string),
                status,
            )
    }

    /// Whether `r` is what `write_str` makes of the answers that the
    /// firmware gives while the pieces of `bytes` are written in their order.
    /// It is success if every piece was written and answered with the status
    /// zero. It is a failure if some piece was answered with that failure,
    /// after every piece before it had been written and answered with zero.
    pub open spec fn wrote_text(self, bytes: Seq<u8>, r: Result<(), Status>) -> bool {
        match r {
            Ok(_) => forall|number: nat|
                number < pieces(bytes.len()) ==> self.wrote(
                    #[trigger] piece_of(bytes, number),
                    Status { raw: 0 },
                ),
            Err(failure) => failure.raw != 0 && exists|last: nat|
                {
                    &&& last < pieces(bytes.len())
                    &&& self.wrote(#[trigger] piece_of(bytes, last), failure)
                    &&& forall|number: nat|
                        number < last ==> self.wrote(
                            #[trigger] piece_of(bytes, number),
                            Status { raw: 0 },
                        )
                },
        }
    }

    /// Writes `s` to the device, a line's worth at a time: piece by piece as
    /// `piece_of` cuts its bytes, until a piece fails. Only ASCII comes out
    /// right: every byte is taken for a character. See `wrote_text`.
    pub fn write_str(&self, s: &str) -> (r: Result<(), Status>)
        ensures
            self.wrote_text(s.spec_bytes(), r),
            r matches Err(status) ==> status.raw != 0,
    {
        let bytes = s.as_bytes();
        let count = piece_count(bytes);
        let mut done: usize = 0;
        while done < count
            invariant
                done <= count,
                count == pieces(bytes@.len()),
                bytes@ == s.spec_bytes(),
                forall|number: nat|
                    number < done ==> self.wrote(
                        #[trigger] piece_of(bytes@, number),
                        Status { raw: 0 },
                    ),
            decreases count - done,
        {
            let buffer = piece(bytes, done);
            let string = buffer.as_slice();
            let status = self.table.output_string(self.this, string);
            assert(self.wrote(piece_of(bytes@, done as nat), status)) by {
                assert(string@ == piece_of(bytes@, done as nat));
                assert(call_ensures(
                    F::output_string,
                    (self.entries(), self.place(), string),
                    status,
                ));
            }
            if status.raw != 0 {
                assert(self.wrote_text(bytes@, Err(status))) by {
                    let last = done as nat;
                    assert(last < pieces(bytes@.len()));
                    assert(self.wrote(piece_of(bytes@, last), status));
                }
                return Err(status);
            }
            assert(status == Status { raw: 0 });
            done = done + 1;
        }
        Ok(())
    }

    /// Whether `r` is what `reset` makes of an answer that the firmware
    /// gives to the request to reset this device: success where the status
    /// is zero, and the status as the failure otherwise.
    pub open spec fn was_reset(self, extended_verification: bool, r: Result<(), Status>) -> bool {
        exists|status: Status|
            call_ensures(
                F::reset,
                (self.entries(), self.place(), flag(extended_verification)),
                status,
            ) && r == status.checked(())
    }

    /// Resets the device: see `was_reset`.
    pub fn reset(&self, extended_verification: bool) -> (r: Result<(), Status>)
        ensures
            self.was_reset(extended_verification, r),
            r matches Err(status) ==> status.raw != 0,
    {
        let status = self.table.reset(self.this, to_flag(extended_verification));
        assert(call_ensures(
            F::reset,
            (self.entries(), self.place(), flag(extended_verification)),
            status,
        ));
        status.check(())
    }

    /// Writes `string`, which ends with a zero: the result is success where
    /// the firmware answers the request to write it with the status zero, and
    /// that status as the failure otherwise.
    pub fn output_string(&self, string: &[Char16]) -> (r: Result<(), Status>)
        ensures
            exists|status: Status| self.wrote(string@, status) && r == status.checked(()),
            r matches Err(status) ==> status.raw != 0,
    {
        let status = self.table.output_string(self.this, string);
        assert(self.wrote(string@, status)) by {
            assert(call_ensures(
                F::output_string,
                (self.entries(), self.place(), string),
                status,
            ));
        }
        status.check(())
    }

    /// Whether `status` is an answer that the firmware gives when asked
    /// whether this device can show the code units `units`.
    pub open spec fn tested(self, units: Seq<Char16>, status: Status) -> bool {
        exists|string: &[Char16]|
            string@ == units && call_ensures(
                F::test_string,
                (self.entries(), self.place(), string),
                status,
            )
    }

    /// Asks whether the device can show `string`, which ends with a zero:
    /// the result is success where the firmware answers with the status zero,
    /// and that status as the failure otherwise.
    pub fn test_string(&self, string: &[Char16]) -> (r: Result<(), Status>)
        ensures
            exists|status: Status| self.tested(string@, status) && r == status.checked(()),
            r matches Err(status) ==> status.raw != 0,
    {
        let status = self.table.test_string(self.this, string);
        assert(self.tested(string@, status)) by {
            assert(call_ensures(
                F::test_string,
                (self.entries(), self.place(), string),
                status,
            ));
        }
        status.check(())
    }

    /// Whether `r` is what `query_mode` makes of an answer that the
    /// firmware gives when asked for the size of mode `mode_number` of this
    /// device: the columns and rows that came out where the status is zero,
    /// and the status as the failure otherwise.
    pub open spec fn mode_queried(self, mode_number: Word, r: Result<(Word, Word), Status>) -> bool {
        exists|status: Status, columns: Word, rows: Word|
            call_ensures(
                F::query_mode,
                (self.entries(), self.place(), mode_number),
                (status, columns, rows),
            ) && r == status.checked((columns, rows))
    }

    /// Asks for the columns and rows of mode `mode_number`: see
    /// `mode_queried`.
    pub fn query_mode(&self, mode_number: Word) -> (r: Result<(Word, Word), Status>)
        ensures
            self.mode_queried(mode_number, r),
            r matches Err(status) ==> status.raw != 0,
    {
        let (status, columns, rows) = self.table.query_mode(self.this, mode_number);
        assert(call_ensures(
            F::query_mode,
            (self.entries(), self.place(), mode_number),
            (status, columns, rows),
        ));
        status.check((columns, rows))
    }

    /// Puts the device into mode `mode_number`: the result is success where
    /// the firmware answers that request with the status zero, and that
    /// status as the failure otherwise.
    pub fn set_mode(&self, mode_number: Word) -> (r: Result<(), Status>)
        ensures
            exists|status: Status|
                call_ensures(F::set_mode, (self.entries(), self.place(), mode_number), status)
                    && r == status.checked(()),
            r matches Err(status) ==> status.raw != 0,
    {
        let status = self.table.set_mode(self.this, mode_number);
        assert(call_ensures(F::set_mode, (self.entries(), self.place(), mode_number), status));
        status.check(())
    }

    /// Sets the colours that text is written in: the result is success
    /// where the firmware answers that request with the status zero, and
    /// that status as the failure otherwise.
    pub fn set_attribute(&self, attribute: Word) -> (r: Result<(), Status>)
        ensures
            exists|status: Status|
                call_ensures(F::set_attribute, (self.entries(), self.place(), attribute), status)
                    && r == status.checked(()),
            r matches Err(status) ==> status.raw != 0,
    {
        let status = self.table.set_attribute(self.this, attribute);
        assert(call_ensures(F::set_attribute, (self.entries(), self.place(), attribute), status));
        status.check(())
    }

    /// Clears the screen: the result is success where the firmware answers
    /// that request with the status zero, and that status as the failure
    /// otherwise.
    pub fn clear_screen(&self) -> (r: Result<(), Status>)
        ensures
            exists|status: Status|
                call_ensures(F::clear_screen, (self.entries(), self.place()), status) && r
                    == status.checked(()),
            r matches Err(status) ==> status.raw != 0,
    {
        let status = self.table.clear_screen(self.this);
        assert(call_ensures(F::clear_screen, (self.entries(), self.place()), status));
        status.check(())
    }

    /// Puts the cursor at `column` and `row`: the result is success where
    /// the firmware answers that request with the status zero, and that
    /// status as the failure otherwise.
    pub fn set_cursor_position(&self, column: Word, row: Word) -> (r: Result<(), Status>)
        ensures
            exists|status: Status|
                call_ensures(
                    F::set_cursor_position,
                    (self.entries(), self.place(), column, row),
                    status,
                ) && r == status.checked(()),
            r matches Err(status) ==> status.raw != 0,
    {
        let status = self.table.set_cursor_position(self.this, column, row);
        assert(call_ensures(
            F::set_cursor_position,
            (self.entries(), self.place(), column, row),
            status,
        ));
        status.check(())
    }

    /// Shows or hides the cursor: the result is success where the firmware
    /// answers that request with the status zero, and that status as the
    /// failure otherwise.
    pub fn enable_cursor(&self, enable: bool) -> (r: Result<(), Status>)
        ensures
            exists|status: Status|
                call_ensures(F::enable_cursor, (self.entries(), self.place(), flag(enable)), status)
                    && r == status.checked(()),
            r matches Err(status) ==> status.raw != 0,
    {
        let status = self.table.enable_cursor(self.this, to_flag(enable));
        assert(call_ensures(F::enable_cursor, (self.entries(), self.place(), flag(enable)), status));
        status.check(())
    }

    /// The state that the device is in: what the firmware answers when
    /// asked for it at this interface.
    pub fn get_mode(&self) -> (mode: SimpleTextOutputMode)
        ensures
            call_ensures(F::mode, (self.entries(), self.place()), mode),
    {
        self.table.mode(self.this)
    }
}

impl<'a, F: SimpleTextOutputTable> HasGuid for SimpleTextOutput<'a, F> {
    fn guid() -> (g: Guid)
        ensures
            g == Guid(0x387477c2, 0x69c7, 0x11d2, [0x8eu8, 0x39u8, 0x0u8, 0xa0u8, 0xc9u8, 0x69u8, 0x72u8, 0x3bu8]),
    {
        Guid(0x387477c2, 0x69c7, 0x11d2, [0x8e, 0x39, 0x0, 0xa0, 0xc9, 0x69, 0x72, 0x3b])
    }
}

} // verus!
