//! The pluggable backend that looks up modules and symbols and installs
//! redirections, and the detour handles that it hands out.
use vstd::prelude::*;

use vstd::string::StringSliceAdditionalSpecFns;

use crate::Address;

verus! {

/// The bytes of a module or symbol name, as the backend's model speaks of them.
pub type NameBytes = Seq<u8>;

/// Whether `bytes` holds the terminator byte of the OS string representation.
pub open spec fn has_terminator(bytes: Seq<u8>) -> bool {
    exists|i: int| 0 <= i < bytes.len() && bytes[i] == 0
}

/// A module or symbol name in the form the OS lookup calls take:
/// its bytes, none of them the terminator.
pub struct CName {
    bytes: Vec<u8>,
}

impl View for CName {
    type V = Seq<u8>;

    closed spec fn view(&self) -> Seq<u8> {
        self.bytes@
    }
}

impl CName {
    #[verifier::type_invariant]
    spec fn inv(&self) -> bool {
        !has_terminator(self.bytes@)
    }

    /// The name's bytes, or `None` where one of them is the terminator.
    pub fn new(name: &str) -> (r: Option<CName>)
        ensures
            r is None <==> has_terminator(name.spec_bytes()),
            r matches Some(c) ==> c@ == name.spec_bytes(),
    {
        let bytes = name.as_bytes();
        let mut out: Vec<u8> = Vec::new();
        let mut i: usize = 0;
        while i < bytes.len()
            invariant
                bytes@ == name.spec_bytes(),
                i <= bytes@.len(),
                out@ == bytes@.subrange(0, i as int),
                !has_terminator(out@),
            decreases bytes@.len() - i,
        {
            if bytes[i] == 0 {
                return None;
            }
            out.push(bytes[i]);
            i = i + 1;
        }
        assert(out@ == bytes@);
        Some(CName { bytes: out })
    }

    /// The name's bytes followed by the terminator.
    pub fn bytes_with_terminator(&self) -> (r: Vec<u8>)
        ensures
            r@ == self@.push(0),
            !has_terminator(self@),
    {
        proof {
            use_type_invariant(self);
        }
        let mut r = self.bytes.clone();
        r.push(0);
        r
    }
}

/// Why a redirection could not be installed or toggled.
#[derive(Debug, Clone, Copy, PartialEq, Eq, Structural)]
pub enum HookError {
    /// No backend was configured before hooking was attempted.
    NotConfigured,
    /// The code at the target could not be patched.
    InstallFailed,
    /// The redirection could not be switched on or off.
    ToggleFailed,
}

/// A handle to one installed redirection. Its target and hook never change;
/// only whether it is enabled does.
pub trait Detour {
    /// The address whose callers are redirected.
    spec fn target_address(&self) -> Address;

    /// The address that callers of the target reach while enabled.
    spec fn hook_address(&self) -> Address;

    /// Whether the redirection is in effect.
    spec fn enabled(&self) -> bool;

    fn target(&self) -> (r: Address)
        ensures
            r == self.target_address(),
    ;

    fn hook(&self) -> (r: Address)
        ensures
            r == self.hook_address(),
    ;

    fn is_enabled(&self) -> (r: bool)
        ensures
            r == self.enabled(),
    ;

    /// Switches the redirection on (`true`) or off; on failure nothing changes.
    fn set_enabled(&mut self, b: bool) -> (r: Result<(), HookError>)
        ensures
            final(self).target_address() == old(self).target_address(),
            final(self).hook_address() == old(self).hook_address(),
            r is Ok ==> final(self).enabled() == b,
            r is Err ==> final(self).enabled() == old(self).enabled(),
    ;

    fn enable(&mut self) -> (r: Result<(), HookError>)
        ensures
            final(self).target_address() == old(self).target_address(),
            final(self).hook_address() == old(self).hook_address(),
            r is Ok ==> final(self).enabled(),
            r is Err ==> final(self).enabled() == old(self).enabled(),
    {
        self.set_enabled(true)
    }

    fn disable(&mut self) -> (r: Result<(), HookError>)
        ensures
            final(self).target_address() == old(self).target_address(),
            final(self).hook_address() == old(self).hook_address(),
            r is Ok ==> !final(self).enabled(),
            r is Err ==> final(self).enabled() == old(self).enabled(),
    {
        self.set_enabled(false)
    }
}

/// The bookkeeping of one redirection: the fixed (target, hook) pair and
/// whether it is in effect. It starts enabled, as a fresh hook does.
#[derive(Debug, Clone, Copy, PartialEq, Eq, Structural)]
pub struct DetourState {
    target: Address,
    hook: Address,
    enabled: bool,
}

impl DetourState {
    pub fn new(target: Address, hook: Address) -> (r: DetourState)
        ensures
            r.target_address() == target,
            r.hook_address() == hook,
            r.enabled(),
    {
        DetourState { target, hook, enabled: true }
    }

    /// Where control that reaches the target goes: the hook while the
    /// redirection is enabled, the target's own code otherwise.
    pub open spec fn destination_of(&self) -> Address {
        if self.enabled() {
            self.hook_address()
        } else {
            self.target_address()
        }
    }

    /// Records the outcome of patching the code to switch the redirection on
    /// (`true`) or off: only a patch that took effect changes the state.
    pub fn record_toggle(&mut self, b: bool, patched: bool) -> (r: Result<(), HookError>)
        ensures
            final(self).target_address() == old(self).target_address(),
            final(self).hook_address() == old(self).hook_address(),
            patched ==> r is Ok && final(self).enabled() == b,
            !patched ==> r == Err::<(), HookError>(HookError::ToggleFailed) && *final(self) == *old(self),
    {
        if patched {
            self.enabled = b;
            Ok(())
        } else {
            Err(HookError::ToggleFailed)
        }
    }

    pub fn destination(&self) -> (r: Address)
        ensures
            r == self.destination_of(),
    {
        if self.enabled {
            self.hook
        } else {
            self.target
        }
    }
}

impl Detour for DetourState {
    closed spec fn target_address(&self) -> Address {
        self.target
    }

    closed spec fn hook_address(&self) -> Address {
        self.hook
    }

    closed spec fn enabled(&self) -> bool {
        self.enabled
    }

    fn target(&self) -> (r: Address) {
        self.target
    }

    fn hook(&self) -> (r: Address) {
        self.hook
    }

    fn is_enabled(&self) -> (r: bool) {
        self.enabled
    }

    fn set_enabled(&mut self, b: bool) -> (r: Result<(), HookError>)
        ensures
            r is Ok,
    {
        self.enabled = b;
        Ok(())
    }

    fn enable(&mut self) -> (r: Result<(), HookError>)
        ensures
            r is Ok,
    {
        self.set_enabled(true)
    }

    fn disable(&mut self) -> (r: Result<(), HookError>)
        ensures
            r is Ok,
    {
        self.set_enabled(false)
    }
}

/// Toggling a detour off and on again loses nothing: on success, the
/// detour is back where it was when it was enabled, and control that
/// reaches the target goes to the hook again.
pub proof fn lemma_toggle_round_trip(
    start: DetourState,
    off: DetourState,
    on: DetourState,
)
    requires
        start.enabled(),
        off.target_address() == start.target_address(),
        off.hook_address() == start.hook_address(),
        !off.enabled(),
        on.target_address() == off.target_address(),
        on.hook_address() == off.hook_address(),
        on.enabled(),
    ensures
        on == start,
        on.destination_of() == start.hook_address(),
        off.destination_of() == start.target_address(),
{
}

/// Performs module lookup, symbol lookup and the installation of
/// redirections. Lookups answer from the backend's state: the same
/// name gives the same address for as long as that state stands.
pub trait Backend {
    type Hook: Detour;

    /// The base address of the loaded module called `name`, or `0`.
    spec fn module_base_of(&self, name: NameBytes) -> Address;

    /// The address of `symbol` in the module at `base`, or `0`.
    spec fn symbol_address_of(&self, base: Address, symbol: NameBytes) -> Address;

    /// Whether `base` is the base of a currently loaded module.
    spec fn is_module(&self, base: Address) -> bool;

    /// Whether this backend can look anything up or hook anything at all.
    spec fn configured(&self) -> bool;

    fn name(&self) -> &'static str;

    fn is_configured(&self) -> (r: bool)
        ensures
            r == self.configured(),
    ;

    fn find_module(&self, name: &CName) -> (r: Address)
        requires
            self.configured(),
        ensures
            r == self.module_base_of(name@),
            r != 0 ==> self.is_module(r),
    ;

    fn find_symbol(&self, base: Address, symbol: &CName) -> (r: Address)
        requires
            self.configured(),
            self.is_module(base),
        ensures
            r == self.symbol_address_of(base, symbol@),
    ;

    /// Redirects control that reaches `target` to `detour`; the handle
    /// returned is enabled. Without a configured backend nothing is hooked.
    fn hook(&self, target: Address, detour: Address) -> (r: Result<Self::Hook, HookError>)
        ensures
            !self.configured() ==> r is Err && r->Err_0 == HookError::NotConfigured,
            r matches Ok(h) ==> h.target_address() == target && h.hook_address() == detour
                && h.enabled(),
    ;
}

/// What looking up the module `name` in `backend` yields: `0` for a name
/// that the OS string representation cannot hold.
pub open spec fn module_lookup<B: Backend>(backend: &B, name: Seq<u8>) -> Address {
    if has_terminator(name) {
        0
    } else {
        backend.module_base_of(name)
    }
}

/// What looking up `symbol` in the module at `base` yields: `0` for a name
/// that the OS string representation cannot hold.
pub open spec fn symbol_lookup<B: Backend>(backend: &B, base: Address, symbol: Seq<u8>) -> Address {
    if has_terminator(symbol) {
        0
    } else {
        backend.symbol_address_of(base, symbol)
    }
}

/// A name that holds the terminator finds neither a module nor a symbol,
/// whatever the backend and its state.
pub proof fn lemma_terminated_names_fail<B: Backend>(backend: &B, base: Address, name: Seq<u8>)
    requires
        has_terminator(name),
    ensures
        module_lookup(backend, name) == 0,
        symbol_lookup(backend, base, name) == 0,
{
}

/// The base of the loaded module called `name`, or the sentinel `0`.
pub fn get_module_base<B: Backend>(backend: &B, name: &str) -> (r: Address)
    requires
        backend.configured(),
    ensures
        r == module_lookup(backend, name.spec_bytes()),
        r != 0 ==> backend.is_module(r),
{
    match CName::new(name) {
        Some(c) => backend.find_module(&c),
        None => 0,
    }
}

/// The address of `symbol` in the module at `base`, or the sentinel `0`.
pub fn get_symbol_address<B: Backend>(backend: &B, base: Address, symbol: &str) -> (r: Address)
    requires
        backend.configured(),
        backend.is_module(base),
    ensures
        r == symbol_lookup(backend, base, symbol.spec_bytes()),
{
    match CName::new(symbol) {
        Some(c) => backend.find_symbol(base, &c),
        None => 0,
    }
}

/// Why a lookup found nothing.
#[derive(Debug, Clone, Copy, PartialEq, Eq, Structural)]
pub enum ResolveError {
    /// No backend is configured to look anything up.
    NotConfigured,
    /// The name holds the terminator and cannot be handed to the OS.
    InvalidName,
    /// The backend knows no such module or symbol.
    NotFound,
}

/// A lookup's outcome: `0` is the backend's way of saying "not found".
pub open spec fn lookup_outcome(configured: bool, invalid: bool, found: Address) -> Result<Address, ResolveError> {
    if !configured {
        Err(ResolveError::NotConfigured)
    } else if invalid {
        Err(ResolveError::InvalidName)
    } else if found == 0 {
        Err(ResolveError::NotFound)
    } else {
        Ok(found)
    }
}

/// The base of the loaded module called `name`, or why there is none.
pub fn try_get_module_base<B: Backend>(backend: &B, name: &str) -> (r: Result<Address, ResolveError>)
    ensures
        r == lookup_outcome(
            backend.configured(),
            has_terminator(name.spec_bytes()),
            backend.module_base_of(name.spec_bytes()),
        ),
        r matches Ok(a) ==> backend.is_module(a),
{
    if !backend.is_configured() {
        return Err(ResolveError::NotConfigured);
    }
    match CName::new(name) {
        Some(c) => {
            let a = backend.find_module(&c);
            if a == 0 {
                Err(ResolveError::NotFound)
            } else {
                Ok(a)
            }
        },
        None => Err(ResolveError::InvalidName),
    }
}

/// The address of `symbol` in the module at `base`, or why there is none.
pub fn try_get_symbol_address<B: Backend>(backend: &B, base: Address, symbol: &str) -> (r: Result<Address, ResolveError>)
    requires
        backend.is_module(base),
    ensures
        r == lookup_outcome(
            backend.configured(),
            has_terminator(symbol.spec_bytes()),
            backend.symbol_address_of(base, symbol.spec_bytes()),
        ),
{
    if !backend.is_configured() {
        return Err(ResolveError::NotConfigured);
    }
    match CName::new(symbol) {
        Some(c) => {
            let a = backend.find_symbol(base, &c);
            if a == 0 {
                Err(ResolveError::NotFound)
            } else {
                Ok(a)
            }
        },
        None => Err(ResolveError::InvalidName),
    }
}

/// The backend in place before one is configured: it is not configured,
/// so its lookups report `NotConfigured` and it refuses every redirection.
#[derive(Debug, Clone, Copy, PartialEq, Eq, Structural)]
pub struct DefaultBackend {}

impl DefaultBackend {
    pub fn new() -> (r: DefaultBackend)
        ensures
            r == (DefaultBackend {}),
    {
        DefaultBackend {}
    }
}

impl Backend for DefaultBackend {
    type Hook = DetourState;

    open spec fn module_base_of(&self, name: Seq<u8>) -> Address {
        0
    }

    open spec fn symbol_address_of(&self, base: Address, symbol: Seq<u8>) -> Address {
        0
    }

    open spec fn is_module(&self, base: Address) -> bool {
        false
    }

    open spec fn configured(&self) -> bool {
        false
    }

    fn name(&self) -> (r: &'static str)
        ensures
            r@ == "(no backend configured)"@,
    {
        proof {
            reveal_strlit("(no backend configured)");
        }
        "(no backend configured)"
    }

    fn is_configured(&self) -> (r: bool) {
        false
    }

    fn find_module(&self, name: &CName) -> (r: Address) {
        0
    }

    fn find_symbol(&self, base: Address, symbol: &CName) -> (r: Address) {
        0
    }

    fn hook(&self, target: Address, detour: Address) -> (r: Result<DetourState, HookError>)
        ensures
            r == Err::<DetourState, HookError>(HookError::NotConfigured),
    {
        Err(HookError::NotConfigured)
    }
}

} // verus!
