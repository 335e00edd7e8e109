//! Typed register views.
//!
//! Each view wraps exactly one word-sized cell and exposes the operations
//! appropriate to its access capability. The views here back ordinary
//! memory, which is how a driver stages a value before a bulk commit and how
//! field logic is exercised without real hardware; overlaying a block of
//! them onto a device's register map and performing the accesses as
//! volatile loads and stores is the unverified outer layer's concern.

use vstd::prelude::*;

use crate::mmio::bitopts::{Field, FieldValue, IntLike};
use crate::mmio::{RegisterLongName, TryFromValue};
use core::marker::PhantomData;

verus! {

/// Read/Write registers.
pub struct ReadWrite<T: IntLike, R: RegisterLongName = ()> {
    value: T,
    associated_register: PhantomData<R>,
}

impl<T: IntLike, R: RegisterLongName> View for ReadWrite<T, R> {
    type V = T;

    closed spec fn view(&self) -> T {
        self.value
    }
}

impl<T: IntLike, R: RegisterLongName> ReadWrite<T, R> {
    /// A register holding `value`, backed by ordinary memory.
    pub fn new(value: T) -> (r: Self)
        ensures
            r@ == value,
    {
        ReadWrite { value, associated_register: PhantomData }
    }

    #[inline]
    /// Get the raw register value
    pub fn get(&self) -> (r: T)
        ensures
            r == self@,
    {
        self.value
    }

    #[inline]
    /// Set the raw register value
    pub fn set(&mut self, value: T)
        ensures
            final(self)@ == value,
    {
        self.value = value;
    }

    #[inline]
    /// Read the value of the given field
    pub fn read(&self, field: Field<T, R>) -> (r: T)
        requires
            field.wf(),
        ensures
            r == field.read_spec(self@),
    {
        field.read(self.get())
    }

    #[inline]
    /// Read value of the given field as an enum member
    pub fn read_as_enum<E: TryFromValue<T, EnumType = E>>(&self, field: Field<T, R>) -> (r: Option<
        E,
    >)
        requires
            field.wf(),
        ensures
            r == E::spec_try_from(field.read_spec(self@)),
    {
        field.read_as_enum(self.get())
    }

    #[inline]
    /// Make a local copy of the register
    pub fn extract(&self) -> (r: LocalRegisterCopy<T, R>)
        ensures
            r@ == self@,
    {
        LocalRegisterCopy::new(self.get())
    }

    #[inline]
    /// Write the value of one or more fields, overwriting the other fields with zero
    pub fn write(&mut self, field: FieldValue<T, R>)
        ensures
            final(self)@ == field.value,
    {
        self.set(field.value);
    }

    #[inline]
    /// Write the value of one or more fields, leaving the other fields unchanged
    pub fn modify(&mut self, field: FieldValue<T, R>)
        ensures
            final(self)@ == field.modify_spec(old(self)@),
    {
        let current = self.get();
        self.set(field.modify(current));
    }

    #[inline]
    /// Write the value of one or more fields, maintaining the value of unchanged fields via a
    /// provided original value, rather than a register read.
    pub fn modify_no_read(&mut self, original: LocalRegisterCopy<T, R>, field: FieldValue<T, R>)
        ensures
            final(self)@ == field.modify_spec(original@),
    {
        self.set(field.modify(original.get()));
    }

    #[inline]
    /// Check if one or more bits in a field are set
    pub fn is_set(&self, field: Field<T, R>) -> (r: bool)
        requires
            field.wf(),
        ensures
            r == field.is_set_spec(self@),
    {
        field.is_set(self.get())
    }

    #[inline]
    /// Check if any specified parts of a field match
    pub fn matches_any(&self, field: FieldValue<T, R>) -> (r: bool)
        ensures
            r == field.matches_any_spec(self@),
    {
        field.matches_any(self.get())
    }

    #[inline]
    /// Check if all specified parts of a field match
    pub fn matches_all(&self, field: FieldValue<T, R>) -> (r: bool)
        ensures
            r == field.matches_all_spec(self@),
    {
        field.matches_all(self.get())
    }
}

/// Read-only registers.
pub struct ReadOnly<T: IntLike, R: RegisterLongName = ()> {
    value: T,
    associated_register: PhantomData<R>,
}

impl<T: IntLike, R: RegisterLongName> View for ReadOnly<T, R> {
    type V = T;

    closed spec fn view(&self) -> T {
        self.value
    }
}

impl<T: IntLike, R: RegisterLongName> ReadOnly<T, R> {
    /// A register holding `value`, backed by ordinary memory.
    pub fn new(value: T) -> (r: Self)
        ensures
            r@ == value,
    {
        ReadOnly { value, associated_register: PhantomData }
    }

    #[inline]
    /// Get the raw register value
    pub fn get(&self) -> (r: T)
        ensures
            r == self@,
    {
        self.value
    }

    #[inline]
    /// Read the value of the given field
    pub fn read(&self, field: Field<T, R>) -> (r: T)
        requires
            field.wf(),
        ensures
            r == field.read_spec(self@),
    {
        field.read(self.get())
    }

    #[inline]
    /// Read value of the given field as an enum member
    pub fn read_as_enum<E: TryFromValue<T, EnumType = E>>(&self, field: Field<T, R>) -> (r: Option<
        E,
    >)
        requires
            field.wf(),
        ensures
            r == E::spec_try_from(field.read_spec(self@)),
    {
        field.read_as_enum(self.get())
    }

    #[inline]
    /// Make a local copy of the register
    pub fn extract(&self) -> (r: LocalRegisterCopy<T, R>)
        ensures
            r@ == self@,
    {
        LocalRegisterCopy::new(self.get())
    }

    #[inline]
    /// Check if one or more bits in a field are set
    pub fn is_set(&self, field: Field<T, R>) -> (r: bool)
        requires
            field.wf(),
        ensures
            r == field.is_set_spec(self@),
    {
        field.is_set(self.get())
    }

    #[inline]
    /// Check if any specified parts of a field match
    pub fn matches_any(&self, field: FieldValue<T, R>) -> (r: bool)
        ensures
            r == field.matches_any_spec(self@),
    {
        field.matches_any(self.get())
    }

    #[inline]
    /// Check if all specified parts of a field match
    pub fn matches_all(&self, field: FieldValue<T, R>) -> (r: bool)
        ensures
            r == field.matches_all_spec(self@),
    {
        field.matches_all(self.get())
    }
}

/// Write-only registers.
pub struct WriteOnly<T: IntLike, R: RegisterLongName = ()> {
    value: T,
    associated_register: PhantomData<R>,
}

impl<T: IntLike, R: RegisterLongName> View for WriteOnly<T, R> {
    type V = T;

    closed spec fn view(&self) -> T {
        self.value
    }
}

impl<T: IntLike, R: RegisterLongName> WriteOnly<T, R> {
    /// A register holding `value`, backed by ordinary memory.
    pub fn new(value: T) -> (r: Self)
        ensures
            r@ == value,
    {
        WriteOnly { value, associated_register: PhantomData }
    }

    #[inline]
    /// Set the raw register value
    pub fn set(&mut self, value: T)
        ensures
            final(self)@ == value,
    {
        self.value = value;
    }

    #[inline]
    /// Write the value of one or more fields, overwriting the other fields with zero
    pub fn write(&mut self, field: FieldValue<T, R>)
        ensures
            final(self)@ == field.value,
    {
        self.set(field.value);
    }
}

/// Read-only and write-only registers aliased to the same address.
///
/// Unlike the `ReadWrite` register, this represents a register which has different meanings based
/// on if it is written or read.  This might be found on a device where control and status
/// registers are accessed via the same memory address via writes and reads, respectively.
pub struct Aliased<T: IntLike, R: RegisterLongName = (), W: RegisterLongName = ()> {
    value: T,
    associated_register: PhantomData<(R, W)>,
}

impl<T: IntLike, R: RegisterLongName, W: RegisterLongName> View for Aliased<T, R, W> {
    type V = T;

    closed spec fn view(&self) -> T {
        self.value
    }
}

impl<T: IntLike, R: RegisterLongName, W: RegisterLongName> Aliased<T, R, W> {
    /// A register holding `value`, backed by ordinary memory.
    pub fn new(value: T) -> (r: Self)
        ensures
            r@ == value,
    {
        Aliased { value, associated_register: PhantomData }
    }

    #[inline]
    /// Get the raw register value
    pub fn get(&self) -> (r: T)
        ensures
            r == self@,
    {
        self.value
    }

    #[inline]
    /// Set the raw register value
    pub fn set(&mut self, value: T)
        ensures
            final(self)@ == value,
    {
        self.value = value;
    }

    #[inline]
    /// Read the value of the given field
    pub fn read(&self, field: Field<T, R>) -> (r: T)
        requires
            field.wf(),
        ensures
            r == field.read_spec(self@),
    {
        field.read(self.get())
    }

    #[inline]
    /// Read value of the given field as an enum member
    pub fn read_as_enum<E: TryFromValue<T, EnumType = E>>(&self, field: Field<T, R>) -> (r: Option<
        E,
    >)
        requires
            field.wf(),
        ensures
            r == E::spec_try_from(field.read_spec(self@)),
    {
        field.read_as_enum(self.get())
    }

    #[inline]
    /// Make a local copy of the register
    pub fn extract(&self) -> (r: LocalRegisterCopy<T, R>)
        ensures
            r@ == self@,
    {
        LocalRegisterCopy::new(self.get())
    }

    #[inline]
    /// Write the value of one or more fields, overwriting the other fields with zero
    pub fn write(&mut self, field: FieldValue<T, W>)
        ensures
            final(self)@ == field.value,
    {
        self.set(field.value);
    }

    #[inline]
    /// Check if one or more bits in a field are set
    pub fn is_set(&self, field: Field<T, R>) -> (r: bool)
        requires
            field.wf(),
        ensures
            r == field.is_set_spec(self@),
    {
        field.is_set(self.get())
    }

    #[inline]
    /// Check if any specified parts of a field match
    pub fn matches_any(&self, field: FieldValue<T, R>) -> (r: bool)
        ensures
            r == field.matches_any_spec(self@),
    {
        field.matches_any(self.get())
    }

    #[inline]
    /// Check if all specified parts of a field match
    pub fn matches_all(&self, field: FieldValue<T, R>) -> (r: bool)
        ensures
            r == field.matches_all_spec(self@),
    {
        field.matches_all(self.get())
    }
}

/// A read-only copy of register contents
///
/// This behaves very similarly to a read-only register, but instead of
/// reaching out to a memory-mapped cell to get the value for each function
/// call, a copy of the register contents is stored locally. This allows a
/// peripheral to do a single read on a register, and then check which bits
/// are set without having to do a full register read each time. It also
/// allows the value of the register to be "cached" in case the peripheral
/// driver needs to clear the register in hardware yet still be able to
/// check the bits.
pub struct LocalRegisterCopy<T: IntLike, R: RegisterLongName = ()> {
    value: T,
    associated_register: PhantomData<R>,
}

impl<T: IntLike, R: RegisterLongName> View for LocalRegisterCopy<T, R> {
    type V = T;

    closed spec fn view(&self) -> T {
        self.value
    }
}

impl<T: IntLike, R: RegisterLongName> Clone for LocalRegisterCopy<T, R> {
    fn clone(&self) -> (r: Self)
        ensures
            r == *self,
    {
        *self
    }
}

impl<T: IntLike, R: RegisterLongName> Copy for LocalRegisterCopy<T, R> {
}

impl<T: IntLike, R: RegisterLongName> LocalRegisterCopy<T, R> {
    pub fn new(value: T) -> (r: Self)
        ensures
            r@ == value,
    {
        LocalRegisterCopy { value, associated_register: PhantomData }
    }

    #[inline]
    pub fn get(&self) -> (r: T)
        ensures
            r == self@,
    {
        self.value
    }

    #[inline]
    pub fn read(&self, field: Field<T, R>) -> (r: T)
        requires
            field.wf(),
        ensures
            r == field.read_spec(self@),
    {
        field.read(self.get())
    }

    #[inline]
    pub fn read_as_enum<E: TryFromValue<T, EnumType = E>>(&self, field: Field<T, R>) -> (r: Option<
        E,
    >)
        requires
            field.wf(),
        ensures
            r == E::spec_try_from(field.read_spec(self@)),
    {
        field.read_as_enum(self.get())
    }

    #[inline]
    pub fn is_set(&self, field: Field<T, R>) -> (r: bool)
        requires
            field.wf(),
        ensures
            r == field.is_set_spec(self@),
    {
        field.is_set(self.get())
    }

    #[inline]
    pub fn matches_any(&self, field: FieldValue<T, R>) -> (r: bool)
        ensures
            r == field.matches_any_spec(self@),
    {
        field.matches_any(self.get())
    }

    #[inline]
    pub fn matches_all(&self, field: FieldValue<T, R>) -> (r: bool)
        ensures
            r == field.matches_all_spec(self@),
    {
        field.matches_all(self.get())
    }

    /// Do a bitwise AND operation of the stored value and the passed in value
    /// and return a new LocalRegisterCopy.
    #[inline]
    pub fn bitand(&self, rhs: T) -> (r: LocalRegisterCopy<T, R>)
        ensures
            r@ == self@.and_spec(rhs),
    {
        LocalRegisterCopy::new(self.value.and(rhs))
    }
}

/// In memory register.
///
/// Behaves like a read/write register, but backs ordinary memory rather
/// than a hardware cell: a driver stages a value in it before a single bulk
/// commit, or exercises field logic without touching a device.
pub struct InMemoryRegister<T: IntLike, R: RegisterLongName = ()> {
    value: T,
    associated_register: PhantomData<R>,
}

impl<T: IntLike, R: RegisterLongName> View for InMemoryRegister<T, R> {
    type V = T;

    closed spec fn view(&self) -> T {
        self.value
    }
}

impl<T: IntLike, R: RegisterLongName> InMemoryRegister<T, R> {
    pub fn new(value: T) -> (r: Self)
        ensures
            r@ == value,
    {
        InMemoryRegister { value, associated_register: PhantomData }
    }

    #[inline]
    pub fn get(&self) -> (r: T)
        ensures
            r == self@,
    {
        self.value
    }

    #[inline]
    pub fn set(&mut self, value: T)
        ensures
            final(self)@ == value,
    {
        self.value = value;
    }

    #[inline]
    pub fn read(&self, field: Field<T, R>) -> (r: T)
        requires
            field.wf(),
        ensures
            r == field.read_spec(self@),
    {
        field.read(self.get())
    }

    #[inline]
    pub fn read_as_enum<E: TryFromValue<T, EnumType = E>>(&self, field: Field<T, R>) -> (r: Option<
        E,
    >)
        requires
            field.wf(),
        ensures
            r == E::spec_try_from(field.read_spec(self@)),
    {
        field.read_as_enum(self.get())
    }

    #[inline]
    pub fn extract(&self) -> (r: LocalRegisterCopy<T, R>)
        ensures
            r@ == self@,
    {
        LocalRegisterCopy::new(self.get())
    }

    #[inline]
    pub fn write(&mut self, field: FieldValue<T, R>)
        ensures
            final(self)@ == field.value,
    {
        self.set(field.value);
    }

    #[inline]
    pub fn modify(&mut self, field: FieldValue<T, R>)
        ensures
            final(self)@ == field.modify_spec(old(self)@),
    {
        let current = self.get();
        self.set(field.modify(current));
    }

    #[inline]
    pub fn modify_no_read(&mut self, original: LocalRegisterCopy<T, R>, field: FieldValue<T, R>)
        ensures
            final(self)@ == field.modify_spec(original@),
    {
        self.set(field.modify(original.get()));
    }

    #[inline]
    pub fn is_set(&self, field: Field<T, R>) -> (r: bool)
        requires
            field.wf(),
        ensures
            r == field.is_set_spec(self@),
    {
        field.is_set(self.get())
    }

    #[inline]
    pub fn matches_any(&self, field: FieldValue<T, R>) -> (r: bool)
        ensures
            r == field.matches_any_spec(self@),
    {
        field.matches_any(self.get())
    }

    #[inline]
    pub fn matches_all(&self, field: FieldValue<T, R>) -> (r: bool)
        ensures
            r == field.matches_all_spec(self@),
    {
        field.matches_all(self.get())
    }
}

/// Snapshot equivalence: a local copy holding the same raw value as a live
/// register answers `read`, `is_set`, `matches_any` and `matches_all`
/// exactly as the live register does — every query of either goes through
/// the same function of the raw value.
pub proof fn lemma_snapshot_equivalence<T: IntLike, R: RegisterLongName>(
    snapshot: LocalRegisterCopy<T, R>,
    reg: ReadWrite<T, R>,
    field: Field<T, R>,
    fragment: FieldValue<T, R>,
)
    requires
        snapshot@ == reg@,
    ensures
        field.read_spec(snapshot@) == field.read_spec(reg@),
        field.is_set_spec(snapshot@) == field.is_set_spec(reg@),
        fragment.matches_any_spec(snapshot@) == fragment.matches_any_spec(reg@),
        fragment.matches_all_spec(snapshot@) == fragment.matches_all_spec(reg@),
{
}

} // verus!
