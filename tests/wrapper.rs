use oxibase::backend::{DefaultBackend, ResolveError};
use oxibase::callconv::StandardCallConv;
use oxibase::wrapper::{
    FunctionIdentity, Location, ModuleRef, Offset, Registry, RegistryError, WrapperFunc,
};
use oxibase::Ptr;

fn at_offset(wrapper: usize, base: usize, offset: Offset) -> FunctionIdentity {
    FunctionIdentity {
        wrapper: Ptr(wrapper),
        call_conv: StandardCallConv::Cdecl,
        location: Location::Offset { base: ModuleRef::Absolute(base), offset },
    }
}

#[test]
fn identity_resolves_offsets_from_an_absolute_base() {
    let b = DefaultBackend::new();
    assert_eq!(at_offset(1, 0x1000, Offset::Unsigned(0x20)).real_addr(&b), 0x1020);
    assert_eq!(at_offset(1, 0x1000, Offset::Signed(-0x20)).real_addr(&b), 0xfe0);
    assert_eq!(at_offset(1, 0x1000, Offset::Signed(-0x20)).call_conv(), StandardCallConv::Cdecl);
}

#[test]
fn identity_without_backend_reports_not_configured() {
    let b = DefaultBackend::new();
    let sym = FunctionIdentity {
        wrapper: Ptr(2),
        call_conv: StandardCallConv::Win64,
        location: Location::Symbol { module: "user32.dll".to_string(), symbol: "MessageBoxA".to_string() },
    };
    assert_eq!(sym.try_resolve(&b), Err(ResolveError::NotConfigured));
    let off = FunctionIdentity {
        wrapper: Ptr(3),
        call_conv: StandardCallConv::Win64,
        location: Location::Offset { base: ModuleRef::Named("game.exe".to_string()), offset: Offset::Unsigned(0x10) },
    };
    assert_eq!(off.try_resolve(&b), Err(ResolveError::NotConfigured));
}

#[test]
fn absolute_base_zero_still_adds_the_offset() {
    let b = DefaultBackend::new();
    assert_eq!(at_offset(4, 0, Offset::Unsigned(0x10)).resolve(&b), 0x10);
    assert_eq!(at_offset(4, 0, Offset::Unsigned(0x10)).try_resolve(&b), Ok(0x10));
    assert_eq!(at_offset(4, 0x100, Offset::Signed(-0x200)).try_resolve(&b), Ok(usize::MAX - 0xff));
}

#[test]
fn resolution_is_repeatable() {
    let b = DefaultBackend::new();
    let id = at_offset(1, 0x7000, Offset::Unsigned(0x44));
    assert_eq!(id.resolve(&b), id.resolve(&b));
}

#[test]
fn registry_binds_each_wrapper_once() {
    let mut r = Registry::new();
    assert_eq!(r.register(at_offset(1, 0x1000, Offset::Unsigned(4))), Ok(()));
    assert_eq!(r.register(at_offset(2, 0x2000, Offset::Unsigned(8))), Ok(()));
    assert_eq!(
        r.register(at_offset(1, 0x3000, Offset::Unsigned(0))),
        Err(RegistryError::AlreadyRegistered)
    );
    assert_eq!(r.position(Ptr(2)), Some(1));
    assert_eq!(r.position(Ptr(9)), None);
    assert_eq!(r.lookup(Ptr(1)).map(|id| id.location.clone()), Some(at_offset(1, 0x1000, Offset::Unsigned(4)).location));
}

#[test]
fn registry_answers_by_wrapper() {
    let b = DefaultBackend::new();
    let mut r = Registry::new();
    r.register(at_offset(1, 0x1000, Offset::Unsigned(4))).unwrap();
    assert_eq!(r.real_addr(Ptr(1), &b), Some(0x1004));
    assert_eq!(r.real_addr(Ptr(5), &b), None);
    assert_eq!(r.call_conv(Ptr(1)), Some(StandardCallConv::Cdecl));
    assert_eq!(r.call_conv(Ptr(5)), None);
}

#[test]
fn registry_explains_missing_addresses() {
    let b = DefaultBackend::new();
    let mut r = Registry::new();
    r.register(at_offset(1, 0x1000, Offset::Unsigned(4))).unwrap();
    r.register(FunctionIdentity {
        wrapper: Ptr(8),
        call_conv: StandardCallConv::Sysv64,
        location: Location::Symbol { module: "libm.so.6".to_string(), symbol: "cos".to_string() },
    })
    .unwrap();
    assert_eq!(r.try_real_addr(Ptr(1), &b), Some(Ok(0x1004)));
    assert_eq!(r.try_real_addr(Ptr(8), &b), Some(Err(ResolveError::NotConfigured)));
    assert_eq!(r.try_real_addr(Ptr(9), &b), None);
    assert_eq!(r.call_conv(Ptr(8)), Some(StandardCallConv::Sysv64));
}
