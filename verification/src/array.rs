//! Views over memory that somebody else owns: one element, a run of elements,
//! and a run of elements that lie a fixed stride apart.
//!
//! A view records where the memory is and how much of it there is. It never
//! owns the memory and never touches it; it says where each element lies.

use vstd::prelude::*;
use vstd::arithmetic::mul::lemma_mul_inequality;
use vstd::layout::layout_of_primitives;
use core::marker::PhantomData;
use crate::common::Address;
use crate::common::Word;

verus! {

/// The position that an index stands for: itself when it is in range, and
/// the first position otherwise.
pub open spec fn slot(index: Word, length: Word) -> Word {
    if index < length {
        index
    } else {
        0
    }
}

/// Whether `length` elements that lie `stride` bytes apart, the first at
/// `base`, make a region that a view can describe: `base` is not null, the
/// size in bytes fits in a word and the region ends within the address space.
pub open spec fn region_fits(base: Address, length: Word, stride: nat) -> bool {
    &&& base@ != 0
    &&& length * stride <= usize::MAX
    &&& base@ + length * stride <= u64::MAX
}

/// The address of the element that `index` stands for in such a region.
pub open spec fn element_at(base: Address, length: Word, stride: nat, index: Word) -> int {
    base@ + slot(index, length) * stride
}

/// Decides `region_fits`.
pub fn fits(base: Address, length: Word, stride: Word) -> (ok: bool)
    ensures
        ok == region_fits(base, length, stride as nat),
{
    if base.is_null() {
        return false;
    }
    match length.checked_mul(stride) {
        None => false,
        Some(bytes) => base.raw().checked_add(bytes as u64).is_some(),
    }
}

/// Computes `element_at`.
pub fn locate(base: Address, length: Word, stride: Word, index: Word) -> (a: Address)
    requires
        region_fits(base, length, stride as nat),
    ensures
        a@ == element_at(base, length, stride as nat, index),
        a@ != 0,
{
    let position: Word = if index < length {
        index
    } else {
        0
    };
    proof {
        lemma_mul_inequality(position as int, length as int, stride as int);
    }
    let offset: Word = position * stride;
    Address::new(base.raw() + offset as u64)
}

/// Read access to the memory that the views describe. The memory belongs to
/// the firmware, and nothing is known of what it holds.
pub trait Memory<T> {
    /// The value that lies at `at`.
    fn read(&self, at: &Pointer<T>) -> T;
}

/// A reference to one value that lives in memory owned by somebody else.
pub struct Pointer<T> {
    raw: Address,
    marker: PhantomData<T>,
}

impl<T> Pointer<T> {
    #[verifier::type_invariant]
    spec fn inv(self) -> bool {
        self.wf()
    }

    /// The address that the pointer refers to.
    pub closed spec fn target(self) -> Address {
        self.raw
    }

    /// A pointer never refers to the null address.
    pub open spec fn wf(self) -> bool {
        self.target()@ != 0
    }

    /// The pointer to `raw`, which the caller knows not to be null.
    pub fn from_raw(raw: Address) -> (r: Self)
        requires
            raw@ != 0,
        ensures
            r.target() == raw,
            r.wf(),
    {
        Pointer { raw, marker: PhantomData }
    }

    /// The pointer to `raw`, unless `raw` is null.
    pub fn new(raw: Address) -> (r: Option<Self>)
        ensures
            raw@ == 0 ==> r is None,
            raw@ != 0 ==> r is Some && r->Some_0.target() == raw && r->Some_0.wf(),
    {
        if raw.is_null() {
            None
        } else {
            Some(Pointer { raw, marker: PhantomData })
        }
    }

    pub fn address(&self) -> (a: Address)
        ensures
            a == self.target(),
            self.wf(),
    {
        proof {
            use_type_invariant(self);
        }
        self.raw
    }

    /// Reads the value that the pointer refers to out of `memory`: the
    /// result is what `memory` answers to a read at this pointer.
    pub fn load<M: Memory<T>>(&self, memory: &M) -> (value: T)
        ensures
            call_ensures(M::read, (memory, self), value),
    {
        memory.read(self)
    }
}

impl<T> PartialEq for Pointer<T> {
    fn eq(&self, other: &Self) -> (r: bool) {
        self.raw == other.raw
    }
}

impl<T> Eq for Pointer<T> {

}

impl<T> vstd::std_specs::cmp::PartialEqSpecImpl for Pointer<T> {
    open spec fn obeys_eq_spec() -> bool {
        true
    }

    open spec fn eq_spec(&self, other: &Self) -> bool {
        self.target() == other.target()
    }
}

/// A bounded view of elements that lie one behind the other.
pub struct Array<T> {
    length: Word,
    raw: Address,
    marker: PhantomData<T>,
}

impl<T> Array<T> {
    #[verifier::type_invariant]
    spec fn inv(self) -> bool {
        self.wf()
    }

    /// The address of the first element.
    pub closed spec fn base(self) -> Address {
        self.raw
    }

    /// The number of elements.
    pub closed spec fn len(self) -> Word {
        self.length
    }

    /// The distance in bytes from one element to the next: the size of one.
    pub open spec fn width() -> nat {
        vstd::layout::size_of::<T>()
    }

    /// What holds of every view: see `region_fits`.
    pub open spec fn wf(self) -> bool {
        region_fits(self.base(), self.len(), Self::width())
    }

    /// The address of the element that `index` stands for.
    pub open spec fn element_address(self, index: Word) -> int {
        element_at(self.base(), self.len(), Self::width(), index)
    }

    /// The view of `length` elements at `raw`. The caller knows that `raw`
    /// is not null and that the elements fit.
    pub fn from_raw(raw: Address, length: Word) -> (r: Self)
        requires
            region_fits(raw, length, Self::width()),
        ensures
            r.base() == raw,
            r.len() == length,
            r.wf(),
    {
        Array { length, raw, marker: PhantomData }
    }

    /// The view of `length` elements at `raw`, if there is such a region.
    pub fn new(raw: Address, length: Word) -> (r: Option<Self>)
        ensures
            r is Some <==> region_fits(raw, length, Self::width()),
            r matches Some(a) ==> a.base() == raw && a.len() == length && a.wf(),
    {
        if fits(raw, length, core::mem::size_of::<T>()) {
            Some(Array { length, raw, marker: PhantomData })
        } else {
            None
        }
    }

    pub fn length(&self) -> (n: Word)
        ensures
            n == self.len(),
    {
        self.length
    }

    /// The first element's place.
    pub fn as_ptr(&self) -> (p: Pointer<T>)
        ensures
            p.target() == self.base(),
            p.wf(),
    {
        proof {
            use_type_invariant(self);
        }
        Pointer::from_raw(self.raw)
    }

    /// The place of element `index`. An index that is out of range stands
    /// for the first element.
    pub fn index(&self, index: Word) -> (p: Pointer<T>)
        ensures
            p.target()@ == self.element_address(index),
            index < self.len() ==> p.target()@ == self.base()@ + index * Self::width(),
            index >= self.len() ==> p.target() == self.base(),
            p.wf(),
    {
        proof {
            use_type_invariant(self);
        }
        let at = locate(self.raw, self.length, core::mem::size_of::<T>(), index);
        proof {
            if index >= self.len() {
                self.lemma_index_out_of_range(index);
                Address::lemma_view_injective(at, self.raw);
            }
        }
        Pointer::from_raw(at)
    }

    /// Whether `value` is what `memory` answers to a read of element
    /// `index`: a read at the pointer to the place that `index` stands for.
    pub open spec fn loaded<M: Memory<T>>(self, memory: &M, index: Word, value: T) -> bool {
        exists|place: Pointer<T>|
            place.wf() && place.target()@ == self.element_address(index) && call_ensures(
                M::read,
                (memory, &place),
                value,
            )
    }

    /// Reads element `index` out of `memory`: what lies at the place that
    /// `index` stands for, which for an index out of range is the place of
    /// the first element.
    pub fn load<M: Memory<T>>(&self, memory: &M, index: Word) -> (value: T)
        ensures
            self.loaded(memory, index, value),
    {
        let place = self.index(index);
        let value = place.load(memory);
        assert(call_ensures(M::read, (memory, &place), value));
        value
    }

    /// The same memory seen as bytes: as many as the elements take together.
    pub fn as_slice(&self) -> (bytes: Array<u8>)
        ensures
            bytes.base() == self.base(),
            bytes.len() == self.len() * Self::width(),
            bytes.wf(),
    {
        proof {
            use_type_invariant(self);
            broadcast use layout_of_primitives;
        }
        let count: Word = self.length * core::mem::size_of::<T>();
        Array::<u8>::from_raw(self.raw, count)
    }

    /// An index in range stands for the element that lies `index` elements
    /// behind the first.
    pub proof fn lemma_index_in_range(self, index: Word)
        requires
            self.wf(),
            index < self.len(),
        ensures
            self.element_address(index) == self.base()@ + index * Self::width(),
            self.base()@ <= self.element_address(index),
            self.element_address(index) + Self::width() <= self.base()@ + self.len()
                * Self::width(),
    {
        lemma_mul_inequality(index as int + 1, self.len() as int, Self::width() as int);
        assert((index + 1) * Self::width() == index * Self::width() + Self::width())
            by (nonlinear_arith);
        assert(0 <= index * Self::width()) by (nonlinear_arith);
    }

    /// An index out of range stands for the very element that index 0 stands
    /// for.
    pub proof fn lemma_index_out_of_range(self, index: Word)
        requires
            index >= self.len(),
        ensures
            self.element_address(index) == self.element_address(0),
            self.element_address(index) == self.base()@,
    {
        vstd::arithmetic::mul::lemma_mul_basics(Self::width() as int);
    }

    /// Two indices in range stand for the same place only if they are equal,
    /// as long as an element takes any room at all.
    pub proof fn lemma_index_distinct(self, i: Word, j: Word)
        requires
            i < j < self.len(),
            Self::width() > 0,
        ensures
            self.element_address(i) + Self::width() <= self.element_address(j),
    {
        lemma_mul_inequality(i as int + 1, j as int, Self::width() as int);
        assert((i + 1) * Self::width() == i * Self::width() + Self::width())
            by (nonlinear_arith);
    }
}

impl<T> PartialEq for Array<T> {
    fn eq(&self, other: &Self) -> (r: bool) {
        self.raw == other.raw && self.length == other.length
    }
}

impl<T> Eq for Array<T> {

}

impl<T> vstd::std_specs::cmp::PartialEqSpecImpl for Array<T> {
    open spec fn obeys_eq_spec() -> bool {
        true
    }

    open spec fn eq_spec(&self, other: &Self) -> bool {
        self.base() == other.base() && self.len() == other.len()
    }
}

/// A bounded view of elements that lie `stride` bytes apart, where the
/// stride is at least the size of one element.
pub struct ArrayStride<T> {
    length: Word,
    stride: Word,
    raw: Address,
    marker: PhantomData<T>,
}

impl<T> ArrayStride<T> {
    #[verifier::type_invariant]
    spec fn inv(self) -> bool {
        self.wf()
    }

    /// The address of the first element.
    pub closed spec fn base(self) -> Address {
        self.raw
    }

    /// The number of elements.
    pub closed spec fn len(self) -> Word {
        self.length
    }

    /// The distance in bytes from one element to the next.
    pub closed spec fn step(self) -> Word {
        self.stride
    }

    /// The size of one element in bytes.
    pub open spec fn width() -> nat {
        vstd::layout::size_of::<T>()
    }

    /// Whether a view with these parts can be made.
    pub open spec fn valid(raw: Address, length: Word, stride: Word) -> bool {
        &&& stride >= Self::width()
        &&& region_fits(raw, length, stride as nat)
    }

    /// What holds of every view: its parts are `valid`.
    pub open spec fn wf(self) -> bool {
        Self::valid(self.base(), self.len(), self.step())
    }

    /// The address of the element that `index` stands for.
    pub open spec fn element_address(self, index: Word) -> int {
        element_at(self.base(), self.len(), self.step() as nat, index)
    }

    /// The view of `length` elements at `raw` that lie `stride` bytes apart.
    /// The caller knows that `raw` is not null, that the stride is no less
    /// than the size of an element, and that the elements fit.
    pub fn from_raw(raw: Address, length: Word, stride: Word) -> (r: Self)
        requires
            Self::valid(raw, length, stride),
        ensures
            r.base() == raw,
            r.len() == length,
            r.step() == stride,
            r.wf(),
    {
        ArrayStride { length, stride, raw, marker: PhantomData }
    }

    /// The view of `length` elements at `raw` that lie `stride` bytes apart,
    /// if there is such a region and the stride leaves room for an element.
    pub fn new(raw: Address, length: Word, stride: Word) -> (r: Option<Self>)
        ensures
            r is Some <==> Self::valid(raw, length, stride),
            r matches Some(a) ==> a.base() == raw && a.len() == length && a.step() == stride
                && a.wf(),
    {
        if stride >= core::mem::size_of::<T>() && fits(raw, length, stride) {
            Some(ArrayStride { length, stride, raw, marker: PhantomData })
        } else {
            None
        }
    }

    pub fn length(&self) -> (n: Word)
        ensures
            n == self.len(),
    {
        self.length
    }

    pub fn stride(&self) -> (n: Word)
        ensures
            n == self.step(),
            n >= Self::width(),
    {
        proof {
            use_type_invariant(self);
        }
        self.stride
    }

    /// The first element's place.
    pub fn as_ptr(&self) -> (p: Pointer<T>)
        ensures
            p.target() == self.base(),
            p.wf(),
    {
        proof {
            use_type_invariant(self);
        }
        Pointer::from_raw(self.raw)
    }

    /// The first element's place, for a caller that means to write there.
    pub fn as_mut_ptr(&self) -> (p: Pointer<T>)
        ensures
            p.target() == self.base(),
            p.wf(),
    {
        self.as_ptr()
    }

    /// The place of element `index`. An index that is out of range stands
    /// for the first element.
    pub fn index(&self, index: Word) -> (p: Pointer<T>)
        ensures
            p.target()@ == self.element_address(index),
            index < self.len() ==> p.target()@ == self.base()@ + index * self.step(),
            index >= self.len() ==> p.target() == self.base(),
            p.wf(),
    {
        proof {
            use_type_invariant(self);
        }
        let at = locate(self.raw, self.length, self.stride, index);
        proof {
            if index >= self.len() {
                self.lemma_index_out_of_range(index);
                Address::lemma_view_injective(at, self.raw);
            }
        }
        Pointer::from_raw(at)
    }

    /// An index in range stands for the element that lies `index` strides
    /// behind the first, and the element ends within the view.
    pub proof fn lemma_index_in_range(self, index: Word)
        requires
            self.wf(),
            index < self.len(),
        ensures
            self.element_address(index) == self.base()@ + index * self.step(),
            self.base()@ <= self.element_address(index),
            self.element_address(index) + Self::width() <= self.base()@ + self.len()
                * self.step(),
    {
        lemma_mul_inequality(index as int + 1, self.len() as int, self.step() as int);
        assert((index + 1) * self.step() == index * self.step() + self.step())
            by (nonlinear_arith);
        assert(0 <= index * self.step()) by (nonlinear_arith);
    }

    /// An index out of range stands for the very element that index 0 stands
    /// for.
    pub proof fn lemma_index_out_of_range(self, index: Word)
        requires
            index >= self.len(),
        ensures
            self.element_address(index) == self.element_address(0),
            self.element_address(index) == self.base()@,
    {
        vstd::arithmetic::mul::lemma_mul_basics(self.step() as int);
    }

    /// Elements at different indices in range do not overlap, as long as an
    /// element takes any room at all.
    pub proof fn lemma_index_distinct(self, i: Word, j: Word)
        requires
            self.wf(),
            i < j < self.len(),
            self.step() > 0,
        ensures
            self.element_address(i) + Self::width() <= self.element_address(j),
    {
        lemma_mul_inequality(i as int + 1, j as int, self.step() as int);
        assert((i + 1) * self.step() == i * self.step() + self.step()) by (nonlinear_arith);
    }
}

impl<T> PartialEq for ArrayStride<T> {
    fn eq(&self, other: &Self) -> (r: bool) {
        self.raw == other.raw && self.length == other.length && self.stride == other.stride
    }
}

impl<T> Eq for ArrayStride<T> {

}

impl<T> vstd::std_specs::cmp::PartialEqSpecImpl for ArrayStride<T> {
    open spec fn obeys_eq_spec() -> bool {
        true
    }

    open spec fn eq_spec(&self, other: &Self) -> bool {
        self.base() == other.base() && self.len() == other.len() && self.step() == other.step()
    }
}

} // verus!
