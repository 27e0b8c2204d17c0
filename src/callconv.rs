//! The closed set of native calling conventions, per architecture, and a
//! table of adapter entry points selected by convention at run time.
use vstd::prelude::*;

use crate::Address;

verus! {

/// A native parameter-passing convention.
#[derive(Debug, Clone, Copy, PartialEq, Eq, Structural)]
pub enum StandardCallConv {
    Cdecl,
    Stdcall,
    Thiscall,
    Fastcall,
    Win64,
    Sysv64,
    Vectorcall,
}

/// A target architecture with its own set of conventions.
#[derive(Debug, Clone, Copy, PartialEq, Eq, Structural)]
pub enum Arch {
    X86,
    X86_64,
}

/// The conventions of `arch`, in their customary order.
pub open spec fn conventions_of(arch: Arch) -> Seq<StandardCallConv> {
    match arch {
        Arch::X86 => seq![
            StandardCallConv::Cdecl,
            StandardCallConv::Stdcall,
            StandardCallConv::Thiscall,
            StandardCallConv::Fastcall,
            StandardCallConv::Vectorcall,
        ],
        Arch::X86_64 => seq![
            StandardCallConv::Cdecl,
            StandardCallConv::Win64,
            StandardCallConv::Sysv64,
            StandardCallConv::Vectorcall,
        ],
    }
}

/// Whether `cc` belongs to the conventions of `arch`.
pub open spec fn supported_on(arch: Arch, cc: StandardCallConv) -> bool {
    conventions_of(arch).contains(cc)
}

/// The conventions of `arch`.
pub fn conventions(arch: Arch) -> (r: Vec<StandardCallConv>)
    ensures
        r@ == conventions_of(arch),
{
    match arch {
        Arch::X86 => vec![
            StandardCallConv::Cdecl,
            StandardCallConv::Stdcall,
            StandardCallConv::Thiscall,
            StandardCallConv::Fastcall,
            StandardCallConv::Vectorcall,
        ],
        Arch::X86_64 => vec![
            StandardCallConv::Cdecl,
            StandardCallConv::Win64,
            StandardCallConv::Sysv64,
            StandardCallConv::Vectorcall,
        ],
    }
}

/// Whether `cc` is a convention of `arch`.
pub fn is_supported(arch: Arch, cc: StandardCallConv) -> (r: bool)
    ensures
        r == supported_on(arch, cc),
{
    let all = conventions(arch);
    let mut i: usize = 0;
    while i < all.len()
        invariant
            all@ == conventions_of(arch),
            i <= all@.len(),
            forall|j: int| 0 <= j < i ==> all@[j] != cc,
        decreases all@.len() - i,
    {
        if all[i] == cc {
            proof {
                assert(all@[i as int] == cc);
            }
            return true;
        }
        i = i + 1;
    }
    false
}

/// A function type's calling convention, as seen from both sides: the
/// convention a call through it uses, and the one a handler translated for
/// it must have.
pub trait CallConv {
    /// The convention this marker stands for.
    spec fn convention() -> StandardCallConv;

    fn call_cc() -> (r: StandardCallConv)
        ensures
            r == Self::convention(),
    ;

    fn translate_cc() -> (r: StandardCallConv)
        ensures
            r == Self::convention(),
    ;

    /// The entry to call for a function `f` of this convention.
    fn get_call(f: Address) -> (r: Address)
        ensures
            r == f,
    ;

    /// The entry to hand out for a handler `f` already translated to this
    /// convention.
    fn get_translate(f: Address) -> (r: Address)
        ensures
            r == f,
    ;
}

/// The `cdecl` convention.
#[derive(Debug, Clone, Copy, PartialEq, Eq, Structural)]
pub struct Cdecl {}

impl CallConv for Cdecl {
    open spec fn convention() -> StandardCallConv {
        StandardCallConv::Cdecl
    }

    fn call_cc() -> (r: StandardCallConv) {
        StandardCallConv::Cdecl
    }

    fn translate_cc() -> (r: StandardCallConv) {
        StandardCallConv::Cdecl
    }

    fn get_call(f: Address) -> (r: Address) {
        f
    }

    fn get_translate(f: Address) -> (r: Address) {
        f
    }
}

/// The `stdcall` convention.
#[derive(Debug, Clone, Copy, PartialEq, Eq, Structural)]
pub struct Stdcall {}

impl CallConv for Stdcall {
    open spec fn convention() -> StandardCallConv {
        StandardCallConv::Stdcall
    }

    fn call_cc() -> (r: StandardCallConv) {
        StandardCallConv::Stdcall
    }

    fn translate_cc() -> (r: StandardCallConv) {
        StandardCallConv::Stdcall
    }

    fn get_call(f: Address) -> (r: Address) {
        f
    }

    fn get_translate(f: Address) -> (r: Address) {
        f
    }
}

/// The `thiscall` convention.
#[derive(Debug, Clone, Copy, PartialEq, Eq, Structural)]
pub struct Thiscall {}

impl CallConv for Thiscall {
    open spec fn convention() -> StandardCallConv {
        StandardCallConv::Thiscall
    }

    fn call_cc() -> (r: StandardCallConv) {
        StandardCallConv::Thiscall
    }

    fn translate_cc() -> (r: StandardCallConv) {
        StandardCallConv::Thiscall
    }

    fn get_call(f: Address) -> (r: Address) {
        f
    }

    fn get_translate(f: Address) -> (r: Address) {
        f
    }
}

/// The `fastcall` convention.
#[derive(Debug, Clone, Copy, PartialEq, Eq, Structural)]
pub struct Fastcall {}

impl CallConv for Fastcall {
    open spec fn convention() -> StandardCallConv {
        StandardCallConv::Fastcall
    }

    fn call_cc() -> (r: StandardCallConv) {
        StandardCallConv::Fastcall
    }

    fn translate_cc() -> (r: StandardCallConv) {
        StandardCallConv::Fastcall
    }

    fn get_call(f: Address) -> (r: Address) {
        f
    }

    fn get_translate(f: Address) -> (r: Address) {
        f
    }
}

/// The `win64` convention.
#[derive(Debug, Clone, Copy, PartialEq, Eq, Structural)]
pub struct Win64 {}

impl CallConv for Win64 {
    open spec fn convention() -> StandardCallConv {
        StandardCallConv::Win64
    }

    fn call_cc() -> (r: StandardCallConv) {
        StandardCallConv::Win64
    }

    fn translate_cc() -> (r: StandardCallConv) {
        StandardCallConv::Win64
    }

    fn get_call(f: Address) -> (r: Address) {
        f
    }

    fn get_translate(f: Address) -> (r: Address) {
        f
    }
}

/// The `sysv64` convention.
#[derive(Debug, Clone, Copy, PartialEq, Eq, Structural)]
pub struct Sysv64 {}

impl CallConv for Sysv64 {
    open spec fn convention() -> StandardCallConv {
        StandardCallConv::Sysv64
    }

    fn call_cc() -> (r: StandardCallConv) {
        StandardCallConv::Sysv64
    }

    fn translate_cc() -> (r: StandardCallConv) {
        StandardCallConv::Sysv64
    }

    fn get_call(f: Address) -> (r: Address) {
        f
    }

    fn get_translate(f: Address) -> (r: Address) {
        f
    }
}

/// The `vectorcall` convention.
#[derive(Debug, Clone, Copy, PartialEq, Eq, Structural)]
pub struct Vectorcall {}

impl CallConv for Vectorcall {
    open spec fn convention() -> StandardCallConv {
        StandardCallConv::Vectorcall
    }

    fn call_cc() -> (r: StandardCallConv) {
        StandardCallConv::Vectorcall
    }

    fn translate_cc() -> (r: StandardCallConv) {
        StandardCallConv::Vectorcall
    }

    fn get_call(f: Address) -> (r: Address) {
        f
    }

    fn get_translate(f: Address) -> (r: Address) {
        f
    }
}

/// Why an adapter could not be registered.
#[derive(Debug, Clone, Copy, PartialEq, Eq, Structural)]
pub enum AdapterError {
    /// The convention does not belong to the table's architecture.
    Unsupported,
    /// The convention already has an adapter.
    Duplicate,
}

/// For one handler, the entry point of its adapter to each convention of
/// one architecture.
pub struct AdapterTable {
    arch: Arch,
    cdecl: Option<Address>,
    stdcall: Option<Address>,
    thiscall: Option<Address>,
    fastcall: Option<Address>,
    win64: Option<Address>,
    sysv64: Option<Address>,
    vectorcall: Option<Address>,
}

impl AdapterTable {
    /// The adapter registered for each convention.
    pub closed spec fn entries(&self) -> Map<StandardCallConv, Address> {
        Map::new(|cc: StandardCallConv| self.slot(cc) is Some, |cc: StandardCallConv| self.slot(cc)->0)
    }

    /// The architecture whose conventions the table covers.
    pub closed spec fn arch_of(&self) -> Arch {
        self.arch
    }

    spec fn slot(&self, cc: StandardCallConv) -> Option<Address> {
        match cc {
            StandardCallConv::Cdecl => self.cdecl,
            StandardCallConv::Stdcall => self.stdcall,
            StandardCallConv::Thiscall => self.thiscall,
            StandardCallConv::Fastcall => self.fastcall,
            StandardCallConv::Win64 => self.win64,
            StandardCallConv::Sysv64 => self.sysv64,
            StandardCallConv::Vectorcall => self.vectorcall,
        }
    }

    /// Only conventions of the table's architecture have adapters.
    pub closed spec fn wf(&self) -> bool {
        forall|cc: StandardCallConv| #[trigger] self.entries().contains_key(cc) ==> supported_on(self.arch, cc)
    }

    /// An empty table for `arch`.
    pub fn new(arch: Arch) -> (r: AdapterTable)
        ensures
            r.wf(),
            r.arch_of() == arch,
            r.entries() == Map::<StandardCallConv, Address>::empty(),
    {
        let r = AdapterTable {
            arch,
            cdecl: None,
            stdcall: None,
            thiscall: None,
            fastcall: None,
            win64: None,
            sysv64: None,
            vectorcall: None,
        };
        assert(r.entries() =~= Map::<StandardCallConv, Address>::empty());
        r
    }

    /// Records `entry` as the adapter to `cc`.
    pub fn register(&mut self, cc: StandardCallConv, entry: Address) -> (r: Result<(), AdapterError>)
        requires
            old(self).wf(),
        ensures
            final(self).wf(),
            final(self).arch_of() == old(self).arch_of(),
            !supported_on(old(self).arch_of(), cc) ==> r == Err::<(), AdapterError>(AdapterError::Unsupported),
            supported_on(old(self).arch_of(), cc) && old(self).entries().contains_key(cc)
                ==> r == Err::<(), AdapterError>(AdapterError::Duplicate),
            r is Ok <==> supported_on(old(self).arch_of(), cc) && !old(self).entries().contains_key(cc),
            r is Ok ==> final(self).entries() == old(self).entries().insert(cc, entry),
            r is Err ==> final(self).entries() == old(self).entries(),
    {
        if !is_supported(self.arch, cc) {
            return Err(AdapterError::Unsupported);
        }
        if self.select(cc).is_some() {
            return Err(AdapterError::Duplicate);
        }
        let ghost before = self.entries();
        match cc {
            StandardCallConv::Cdecl => self.cdecl = Some(entry),
            StandardCallConv::Stdcall => self.stdcall = Some(entry),
            StandardCallConv::Thiscall => self.thiscall = Some(entry),
            StandardCallConv::Fastcall => self.fastcall = Some(entry),
            StandardCallConv::Win64 => self.win64 = Some(entry),
            StandardCallConv::Sysv64 => self.sysv64 = Some(entry),
            StandardCallConv::Vectorcall => self.vectorcall = Some(entry),
        }
        assert(self.entries() =~= before.insert(cc, entry));
        Ok(())
    }

    /// The adapter to `cc`, chosen by an exhaustive dispatch over the tags.
    pub fn select(&self, cc: StandardCallConv) -> (r: Option<Address>)
        ensures
            r is Some <==> self.entries().contains_key(cc),
            r matches Some(a) ==> a == self.entries()[cc],
    {
        match cc {
            StandardCallConv::Cdecl => self.cdecl,
            StandardCallConv::Stdcall => self.stdcall,
            StandardCallConv::Thiscall => self.thiscall,
            StandardCallConv::Fastcall => self.fastcall,
            StandardCallConv::Win64 => self.win64,
            StandardCallConv::Sysv64 => self.sysv64,
            StandardCallConv::Vectorcall => self.vectorcall,
        }
    }
}

} // verus!
