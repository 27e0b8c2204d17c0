use oxibase::callconv::{
    conventions, is_supported, AdapterError, AdapterTable, Arch, CallConv, Cdecl,
    StandardCallConv, Sysv64, Vectorcall, Win64,
};

#[test]
fn each_architecture_has_its_conventions() {
    assert_eq!(
        conventions(Arch::X86),
        vec![
            StandardCallConv::Cdecl,
            StandardCallConv::Stdcall,
            StandardCallConv::Thiscall,
            StandardCallConv::Fastcall,
            StandardCallConv::Vectorcall,
        ]
    );
    assert_eq!(
        conventions(Arch::X86_64),
        vec![
            StandardCallConv::Cdecl,
            StandardCallConv::Win64,
            StandardCallConv::Sysv64,
            StandardCallConv::Vectorcall,
        ]
    );
}

#[test]
fn support_follows_the_architecture() {
    assert!(is_supported(Arch::X86, StandardCallConv::Thiscall));
    assert!(!is_supported(Arch::X86, StandardCallConv::Win64));
    assert!(is_supported(Arch::X86_64, StandardCallConv::Sysv64));
    assert!(!is_supported(Arch::X86_64, StandardCallConv::Fastcall));
}

#[test]
fn markers_report_their_convention_and_pass_entries_through() {
    assert_eq!(Cdecl::call_cc(), StandardCallConv::Cdecl);
    assert_eq!(Win64::translate_cc(), StandardCallConv::Win64);
    assert_eq!(Sysv64::call_cc(), StandardCallConv::Sysv64);
    assert_eq!(Vectorcall::get_call(0x1234), 0x1234);
    assert_eq!(Cdecl::get_translate(0x5678), 0x5678);
}

#[test]
fn table_selects_the_registered_adapter_for_each_tag() {
    let mut t = AdapterTable::new(Arch::X86_64);
    assert_eq!(t.select(StandardCallConv::Cdecl), None);
    for (i, cc) in conventions(Arch::X86_64).into_iter().enumerate() {
        assert_eq!(t.register(cc, 0x100 + i), Ok(()));
    }
    assert_eq!(t.select(StandardCallConv::Cdecl), Some(0x100));
    assert_eq!(t.select(StandardCallConv::Win64), Some(0x101));
    assert_eq!(t.select(StandardCallConv::Sysv64), Some(0x102));
    assert_eq!(t.select(StandardCallConv::Vectorcall), Some(0x103));
    assert_eq!(t.select(StandardCallConv::Stdcall), None);
}

#[test]
fn table_refuses_foreign_and_repeated_conventions() {
    let mut t = AdapterTable::new(Arch::X86);
    assert_eq!(t.register(StandardCallConv::Sysv64, 1), Err(AdapterError::Unsupported));
    assert_eq!(t.select(StandardCallConv::Sysv64), None);
    assert_eq!(t.register(StandardCallConv::Fastcall, 2), Ok(()));
    assert_eq!(t.register(StandardCallConv::Fastcall, 3), Err(AdapterError::Duplicate));
    assert_eq!(t.select(StandardCallConv::Fastcall), Some(2));
}
