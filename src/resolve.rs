//! Turning a module-and-symbol or module-and-offset description into an
//! absolute address.
use vstd::prelude::*;
use vstd::string::StringSliceAdditionalSpecFns;

use crate::backend::{get_module_base, get_symbol_address, module_lookup, symbol_lookup, Backend};
use crate::offset::{add_signed, add_unsigned, offset_address};
use crate::Address;

verus! {

/// A description of a base address: an absolute address, or the name of a
/// module whose base the backend looks up.
pub trait ResolveFnBase: Sized {
    /// The address this base stands for by itself, if it names no module.
    spec fn absolute(&self) -> Option<Address>;

    /// The module name that the backend looks up, if `absolute` is `None`.
    spec fn module_name(&self) -> Seq<u8>;

    fn resolve_base<B: Backend>(self, backend: &B) -> (r: Address)
        requires
            self.absolute() is None ==> backend.configured(),
        ensures
            self.absolute() matches Some(a) ==> r == a,
            self.absolute() is None ==> r == module_lookup(backend, self.module_name()),
            self.absolute() is None && r != 0 ==> backend.is_module(r),
    ;
}

impl ResolveFnBase for Address {
    open spec fn absolute(&self) -> Option<Address> {
        Some(*self)
    }

    open spec fn module_name(&self) -> Seq<u8> {
        Seq::empty()
    }

    fn resolve_base<B: Backend>(self, backend: &B) -> (r: Address) {
        self
    }
}

impl<'a> ResolveFnBase for &'a str {
    open spec fn absolute(&self) -> Option<Address> {
        None
    }

    open spec fn module_name(&self) -> Seq<u8> {
        self.spec_bytes()
    }

    fn resolve_base<B: Backend>(self, backend: &B) -> (r: Address) {
        get_module_base(backend, self)
    }
}

/// A description of a location relative to a module's base: a number of
/// bytes, of any integer width, or the name of a symbol in the module.
pub trait ResolveFnOffset: Sized {
    /// The offset in bytes, if this is a number rather than a symbol name.
    spec fn offset_value(&self) -> Option<int>;

    /// The symbol name that the backend looks up, if `offset_value` is `None`.
    spec fn symbol_name(&self) -> Seq<u8>;

    /// The address this offset names from `base`. A number is added in
    /// pointer-width wraparound arithmetic; a symbol is looked up in the
    /// module at `base`, which must then be loaded in a configured backend.
    fn resolve_offset<B: Backend>(self, backend: &B, base: Address) -> (r: Address)
        requires
            self.offset_value() is None ==> backend.configured() && backend.is_module(base),
        ensures
            self.offset_value() matches Some(n) ==> r == offset_address(base, n),
            self.offset_value() is None ==> r == symbol_lookup(backend, base, self.symbol_name()),
    ;
}

impl<'a> ResolveFnOffset for &'a str {
    open spec fn offset_value(&self) -> Option<int> {
        None
    }

    open spec fn symbol_name(&self) -> Seq<u8> {
        self.spec_bytes()
    }

    fn resolve_offset<B: Backend>(self, backend: &B, base: Address) -> (r: Address) {
        get_symbol_address(backend, base, self)
    }
}

impl ResolveFnOffset for u8 {
    open spec fn offset_value(&self) -> Option<int> {
        Some(*self as int)
    }

    open spec fn symbol_name(&self) -> Seq<u8> {
        Seq::empty()
    }

    fn resolve_offset<B: Backend>(self, backend: &B, base: Address) -> (r: Address) {
        add_unsigned(base, self as u64)
    }
}

impl ResolveFnOffset for u16 {
    open spec fn offset_value(&self) -> Option<int> {
        Some(*self as int)
    }

    open spec fn symbol_name(&self) -> Seq<u8> {
        Seq::empty()
    }

    fn resolve_offset<B: Backend>(self, backend: &B, base: Address) -> (r: Address) {
        add_unsigned(base, self as u64)
    }
}

impl ResolveFnOffset for u32 {
    open spec fn offset_value(&self) -> Option<int> {
        Some(*self as int)
    }

    open spec fn symbol_name(&self) -> Seq<u8> {
        Seq::empty()
    }

    fn resolve_offset<B: Backend>(self, backend: &B, base: Address) -> (r: Address) {
        add_unsigned(base, self as u64)
    }
}

impl ResolveFnOffset for u64 {
    open spec fn offset_value(&self) -> Option<int> {
        Some(*self as int)
    }

    open spec fn symbol_name(&self) -> Seq<u8> {
        Seq::empty()
    }

    fn resolve_offset<B: Backend>(self, backend: &B, base: Address) -> (r: Address) {
        add_unsigned(base, self as u64)
    }
}

impl ResolveFnOffset for usize {
    open spec fn offset_value(&self) -> Option<int> {
        Some(*self as int)
    }

    open spec fn symbol_name(&self) -> Seq<u8> {
        Seq::empty()
    }

    fn resolve_offset<B: Backend>(self, backend: &B, base: Address) -> (r: Address) {
        add_unsigned(base, self as u64)
    }
}

impl ResolveFnOffset for i8 {
    open spec fn offset_value(&self) -> Option<int> {
        Some(*self as int)
    }

    open spec fn symbol_name(&self) -> Seq<u8> {
        Seq::empty()
    }

    fn resolve_offset<B: Backend>(self, backend: &B, base: Address) -> (r: Address) {
        add_signed(base, self as i64)
    }
}

impl ResolveFnOffset for i16 {
    open spec fn offset_value(&self) -> Option<int> {
        Some(*self as int)
    }

    open spec fn symbol_name(&self) -> Seq<u8> {
        Seq::empty()
    }

    fn resolve_offset<B: Backend>(self, backend: &B, base: Address) -> (r: Address) {
        add_signed(base, self as i64)
    }
}

impl ResolveFnOffset for i32 {
    open spec fn offset_value(&self) -> Option<int> {
        Some(*self as int)
    }

    open spec fn symbol_name(&self) -> Seq<u8> {
        Seq::empty()
    }

    fn resolve_offset<B: Backend>(self, backend: &B, base: Address) -> (r: Address) {
        add_signed(base, self as i64)
    }
}

impl ResolveFnOffset for i64 {
    open spec fn offset_value(&self) -> Option<int> {
        Some(*self as int)
    }

    open spec fn symbol_name(&self) -> Seq<u8> {
        Seq::empty()
    }

    fn resolve_offset<B: Backend>(self, backend: &B, base: Address) -> (r: Address) {
        add_signed(base, self as i64)
    }
}

impl ResolveFnOffset for isize {
    open spec fn offset_value(&self) -> Option<int> {
        Some(*self as int)
    }

    open spec fn symbol_name(&self) -> Seq<u8> {
        Seq::empty()
    }

    fn resolve_offset<B: Backend>(self, backend: &B, base: Address) -> (r: Address) {
        add_signed(base, self as i64)
    }
}

} // verus!
