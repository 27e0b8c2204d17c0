//! Bindings from wrapper functions to their native calling convention and
//! the place of the real function, resolved on demand.
use vstd::prelude::*;
use vstd::string::StringSliceAdditionalSpecFns;
use vstd::utf8::encode_utf8;

use crate::backend::{
    has_terminator, lookup_outcome, module_lookup, symbol_lookup, try_get_module_base,
    try_get_symbol_address, Backend, ResolveError,
};
use crate::callconv::StandardCallConv;
use crate::offset::{add_signed, add_unsigned, offset_address};
use crate::resolve::{ResolveFnBase, ResolveFnOffset};
use crate::{Address, Ptr};

verus! {

/// A wrapper function whose real counterpart is found at run time.
pub trait WrapperFunc {
    /// The native convention of the real function.
    spec fn convention(&self) -> StandardCallConv;

    /// The binding that says where the real function lies.
    spec fn identity(&self) -> FunctionIdentity;

    fn call_conv(&self) -> (r: StandardCallConv)
        ensures
            r == self.convention(),
    ;

    /// The address of the real function, or `0` where it cannot be found.
    fn real_addr<B: Backend>(&self, backend: &B) -> (r: Address)
        requires
            names_module(self.identity()) ==> backend.configured(),
        ensures
            r == resolution_of(backend, self.identity()),
    ;
}

/// Where a real function's module starts.
#[derive(Debug, Clone, PartialEq, Eq)]
pub enum ModuleRef {
    /// A base address known in advance.
    Absolute(Address),
    /// The name of a loaded module.
    Named(String),
}

/// A distance from a module's base.
#[derive(Debug, Clone, Copy, PartialEq, Eq, Structural)]
pub enum Offset {
    /// A number of bytes past the base.
    Unsigned(u64),
    /// A number of bytes from the base, either way.
    Signed(i64),
}

/// Where a real function lies: an exported symbol of a named module, or a
/// distance from a base.
#[derive(Debug, Clone, PartialEq, Eq)]
pub enum Location {
    Symbol { module: String, symbol: String },
    Offset { base: ModuleRef, offset: Offset },
}

/// A wrapper's binding: its identity, the real function's convention and
/// where that function lies.
#[derive(Debug, Clone, PartialEq, Eq)]
pub struct FunctionIdentity {
    pub wrapper: Ptr,
    pub call_conv: StandardCallConv,
    pub location: Location,
}

/// The distance that `offset` stands for.
pub open spec fn offset_amount(offset: Offset) -> int {
    match offset {
        Offset::Unsigned(n) => n as int,
        Offset::Signed(n) => n as int,
    }
}

/// Whether resolving `id` looks a module up in the backend.
pub open spec fn names_module(id: FunctionIdentity) -> bool {
    match id.location {
        Location::Symbol { .. } => true,
        Location::Offset { base, .. } => base is Named,
    }
}

/// The address that `id` resolves to in `backend`. An absolute base stands
/// for itself; a module that cannot be found gives `0`, and so does a
/// symbol that cannot be found.
pub open spec fn resolution_of<B: Backend>(backend: &B, id: FunctionIdentity) -> Address {
    match id.location {
        Location::Symbol { module, symbol } => {
            let base = module_lookup(backend, encode_utf8(module@));
            if base == 0 {
                0
            } else {
                symbol_lookup(backend, base, encode_utf8(symbol@))
            }
        },
        Location::Offset { base: ModuleRef::Absolute(a), offset } => offset_address(
            a,
            offset_amount(offset),
        ),
        Location::Offset { base: ModuleRef::Named(m), offset } => {
            let b = module_lookup(backend, encode_utf8(m@));
            if b == 0 {
                0
            } else {
                offset_address(b, offset_amount(offset))
            }
        },
    }
}

/// The outcome of resolving `id` in `backend`, with the reason where there
/// is no address.
pub open spec fn try_resolution_of<B: Backend>(backend: &B, id: FunctionIdentity) -> Result<
    Address,
    ResolveError,
> {
    match id.location {
        Location::Symbol { module, symbol } => {
            let m = encode_utf8(module@);
            match lookup_outcome(backend.configured(), has_terminator(m), backend.module_base_of(m)) {
                Ok(base) => {
                    let s = encode_utf8(symbol@);
                    lookup_outcome(true, has_terminator(s), backend.symbol_address_of(base, s))
                },
                Err(e) => Err(e),
            }
        },
        Location::Offset { base: ModuleRef::Absolute(a), offset } => Ok(
            offset_address(a, offset_amount(offset)),
        ),
        Location::Offset { base: ModuleRef::Named(n), offset } => {
            let m = encode_utf8(n@);
            match lookup_outcome(backend.configured(), has_terminator(m), backend.module_base_of(m)) {
                Ok(b) => Ok(offset_address(b, offset_amount(offset))),
                Err(e) => Err(e),
            }
        },
    }
}

fn add_offset(base: Address, offset: Offset) -> (r: Address)
    ensures
        r == offset_address(base, offset_amount(offset)),
{
    match offset {
        Offset::Unsigned(n) => add_unsigned(base, n),
        Offset::Signed(n) => add_signed(base, n),
    }
}

impl FunctionIdentity {
    /// The address of the real function, or `0` where it cannot be found.
    pub fn resolve<B: Backend>(&self, backend: &B) -> (r: Address)
        requires
            names_module(*self) ==> backend.configured(),
        ensures
            r == resolution_of(backend, *self),
    {
        match &self.location {
            Location::Symbol { module, symbol } => {
                let base = module.as_str().resolve_base(backend);
                if base == 0 {
                    return 0;
                }
                symbol.as_str().resolve_offset(backend, base)
            },
            Location::Offset { base: ModuleRef::Absolute(a), offset } => {
                add_offset(a.resolve_base(backend), *offset)
            },
            Location::Offset { base: ModuleRef::Named(n), offset } => {
                let b = n.as_str().resolve_base(backend);
                if b == 0 {
                    return 0;
                }
                add_offset(b, *offset)
            },
        }
    }

    /// The address of the real function, or why it cannot be found.
    pub fn try_resolve<B: Backend>(&self, backend: &B) -> (r: Result<Address, ResolveError>)
        ensures
            r == try_resolution_of(backend, *self),
    {
        match &self.location {
            Location::Symbol { module, symbol } => {
                let base = try_get_module_base(backend, module.as_str())?;
                try_get_symbol_address(backend, base, symbol.as_str())
            },
            Location::Offset { base: ModuleRef::Absolute(a), offset } => Ok(add_offset(*a, *offset)),
            Location::Offset { base: ModuleRef::Named(n), offset } => {
                let b = try_get_module_base(backend, n.as_str())?;
                Ok(add_offset(b, *offset))
            },
        }
    }
}

impl WrapperFunc for FunctionIdentity {
    open spec fn convention(&self) -> StandardCallConv {
        self.call_conv
    }

    open spec fn identity(&self) -> FunctionIdentity {
        *self
    }

    fn call_conv(&self) -> StandardCallConv {
        self.call_conv
    }

    fn real_addr<B: Backend>(&self, backend: &B) -> Address {
        self.resolve(backend)
    }
}

/// Why a binding could not be registered.
#[derive(Debug, Clone, Copy, PartialEq, Eq, Structural)]
pub enum RegistryError {
    /// The wrapper already has a binding.
    AlreadyRegistered,
}

/// Whether some binding in `ids` belongs to `key`.
pub open spec fn has_key(ids: Seq<FunctionIdentity>, key: Ptr) -> bool {
    exists|i: int| 0 <= i < ids.len() && ids[i].wrapper == key
}

/// The bindings of the wrappers, filled during initialisation and read
/// afterwards; each wrapper has at most one.
pub struct Registry {
    entries: Vec<FunctionIdentity>,
}

impl View for Registry {
    type V = Seq<FunctionIdentity>;

    closed spec fn view(&self) -> Seq<FunctionIdentity> {
        self.entries@
    }
}

impl Registry {
    /// No two bindings share a wrapper.
    pub open spec fn wf(&self) -> bool {
        forall|i: int, j: int|
            0 <= i < self@.len() && 0 <= j < self@.len() && #[trigger] self@[i].wrapper
                == #[trigger] self@[j].wrapper ==> i == j
    }

    pub fn new() -> (r: Registry)
        ensures
            r.wf(),
            r@ == Seq::<FunctionIdentity>::empty(),
    {
        Registry { entries: Vec::new() }
    }

    /// The position of the binding of `key`.
    pub fn position(&self, key: Ptr) -> (r: Option<usize>)
        ensures
            r is None <==> !has_key(self@, key),
            r matches Some(i) ==> i < self@.len() && self@[i as int].wrapper == key,
    {
        let mut i: usize = 0;
        while i < self.entries.len()
            invariant
                i <= self@.len(),
                forall|j: int| 0 <= j < i ==> self@[j].wrapper != key,
            decreases self@.len() - i,
        {
            if self.entries[i].wrapper == key {
                return Some(i);
            }
            i = i + 1;
        }
        None
    }

    /// Adds the binding `id`, unless its wrapper already has one.
    pub fn register(&mut self, id: FunctionIdentity) -> (r: Result<(), RegistryError>)
        requires
            old(self).wf(),
        ensures
            final(self).wf(),
            r is Err <==> has_key(old(self)@, id.wrapper),
            r is Ok ==> final(self)@ == old(self)@.push(id),
            r is Err ==> final(self)@ == old(self)@ && r == Err::<(), RegistryError>(
                RegistryError::AlreadyRegistered,
            ),
    {
        if self.position(id.wrapper).is_some() {
            return Err(RegistryError::AlreadyRegistered);
        }
        self.entries.push(id);
        Ok(())
    }

    /// The binding of `key`.
    pub fn lookup(&self, key: Ptr) -> (r: Option<&FunctionIdentity>)
        requires
            self.wf(),
        ensures
            r is None <==> !has_key(self@, key),
            r matches Some(id) ==> has_key(self@, key) && id.wrapper == key && self@.contains(*id),
    {
        match self.position(key) {
            Some(i) => Some(&self.entries[i]),
            None => None,
        }
    }

    /// The native convention bound to `key`.
    pub fn call_conv(&self, key: Ptr) -> (r: Option<StandardCallConv>)
        requires
            self.wf(),
        ensures
            r is None <==> !has_key(self@, key),
            r matches Some(cc) ==> exists|i: int|
                0 <= i < self@.len() && self@[i].wrapper == key && self@[i].call_conv == cc,
    {
        match self.position(key) {
            Some(i) => Some(self.entries[i].call_conv),
            None => None,
        }
    }

    /// The real address bound to `key`, resolved in `backend` now.
    pub fn real_addr<B: Backend>(&self, key: Ptr, backend: &B) -> (r: Option<Address>)
        requires
            self.wf(),
            forall|i: int|
                0 <= i < self@.len() && names_module(#[trigger] self@[i]) ==> backend.configured(),
        ensures
            r is None <==> !has_key(self@, key),
            r matches Some(a) ==> exists|i: int|
                0 <= i < self@.len() && self@[i].wrapper == key && a == resolution_of(
                    backend,
                    self@[i],
                ),
    {
        match self.position(key) {
            Some(i) => Some(self.entries[i].resolve(backend)),
            None => None,
        }
    }

    /// The real address bound to `key`, resolved in `backend` now, or why
    /// there is none; `None` where `key` has no binding.
    pub fn try_real_addr<B: Backend>(&self, key: Ptr, backend: &B) -> (r: Option<Result<Address, ResolveError>>)
        requires
            self.wf(),
        ensures
            r is None <==> !has_key(self@, key),
            r matches Some(o) ==> exists|i: int|
                0 <= i < self@.len() && self@[i].wrapper == key && o == try_resolution_of(
                    backend,
                    self@[i],
                ),
    {
        match self.position(key) {
            Some(i) => Some(self.entries[i].try_resolve(backend)),
            None => None,
        }
    }
}

} // verus!
