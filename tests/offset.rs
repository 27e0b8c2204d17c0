use oxibase::offset::{add_signed, add_unsigned};
use oxibase::resolve::{ResolveFnBase, ResolveFnOffset};
use oxibase::backend::DefaultBackend;

#[test]
fn unsigned_offsets_add_to_the_base() {
    let b = DefaultBackend::new();
    assert_eq!(5u8.resolve_offset(&b, 0x1000), 0x1005);
    assert_eq!(0x200u16.resolve_offset(&b, 0x1000), 0x1200);
    assert_eq!(0x10_0000u32.resolve_offset(&b, 0x1000), 0x10_1000);
    assert_eq!(0x30u64.resolve_offset(&b, 0x1000), 0x1030);
    assert_eq!(7usize.resolve_offset(&b, 0x1000), 0x1007);
}

#[test]
fn unsigned_offsets_wrap_at_pointer_width() {
    let b = DefaultBackend::new();
    assert_eq!(2u8.resolve_offset(&b, usize::MAX), 1);
    assert_eq!(usize::MAX.resolve_offset(&b, 1), 0);
    assert_eq!(add_unsigned(usize::MAX - 1, 3), 1);
}

#[test]
fn wide_unsigned_offset_reduces_modulo_address_space() {
    let expected = 0x10usize.wrapping_add(u64::MAX as usize);
    assert_eq!(add_unsigned(0x10, u64::MAX), expected);
}

#[test]
fn signed_offsets_use_twos_complement() {
    let b = DefaultBackend::new();
    assert_eq!((-1i8).resolve_offset(&b, 0x1000), 0xfff);
    assert_eq!((-0x100i16).resolve_offset(&b, 0x1000), 0xf00);
    assert_eq!(0x20i32.resolve_offset(&b, 0x1000), 0x1020);
    assert_eq!((-0x1000i64).resolve_offset(&b, 0x1000), 0);
    assert_eq!((-3isize).resolve_offset(&b, 0x10), 0xd);
}

#[test]
fn signed_offsets_wrap_below_zero() {
    let b = DefaultBackend::new();
    assert_eq!((-1i32).resolve_offset(&b, 0), usize::MAX);
    assert_eq!(add_signed(10, -20), usize::MAX - 9);
    assert_eq!(add_signed(5, i64::MIN), (5isize.wrapping_add(i64::MIN as isize)) as usize);
}

#[test]
fn signed_offset_matches_signed_arithmetic_reinterpreted() {
    for &(base, n) in &[(0usize, -5i64), (0x7fffusize, 12), (usize::MAX, 1), (123, -123)] {
        let expected = (base as isize).wrapping_add(n as isize) as usize;
        assert_eq!(add_signed(base, n), expected);
    }
}

#[test]
fn absolute_base_resolves_to_itself() {
    let b = DefaultBackend::new();
    assert_eq!(0x4000usize.resolve_base(&b), 0x4000);
    assert_eq!(0usize.resolve_base(&b), 0);
}
