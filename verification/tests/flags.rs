use fna3d::{ClearOptions, ColorMask};

#[test]
fn clear_options_bits() {
    assert_eq!(ClearOptions::target().bits(), 1);
    assert_eq!(ClearOptions::depth_buffer().bits(), 2);
    assert_eq!(ClearOptions::stencil().bits(), 4);
    assert_eq!(ClearOptions::all().bits(), 7);
    assert_eq!(ClearOptions::empty().bits(), 0);
    assert!(ClearOptions::empty().is_empty());
    assert!(ClearOptions::all().is_all());
}

#[test]
fn clear_options_from_bits() {
    assert_eq!(ClearOptions::from_bits(3).map(|o| o.bits()), Some(3));
    assert!(ClearOptions::from_bits(8).is_none());
    assert_eq!(ClearOptions::from_bits_truncate(0xff).bits(), 7);
    assert_eq!(ClearOptions::from_bits_truncate(9).bits(), 1);
}

#[test]
fn clear_options_set_operations() {
    let t = ClearOptions::target();
    let d = ClearOptions::depth_buffer();
    let s = ClearOptions::stencil();
    let td = t.union(d);
    assert_eq!(td.bits(), 3);
    assert!(td.contains(t));
    assert!(td.contains(d));
    assert!(!td.contains(s));
    assert!(td.intersects(t));
    assert!(!td.intersects(s));
    assert_eq!(td.intersection(d).bits(), 2);
    assert_eq!(td.difference(t).bits(), 2);
    assert_eq!(td.symmetric_difference(d.union(s)).bits(), 5);
    assert_eq!(td.complement().bits(), 4);
    assert_eq!(td.complement().complement(), td);
    assert_eq!(td.union(td.complement()), ClearOptions::all());
}

#[test]
fn clear_options_mutation() {
    let mut o = ClearOptions::empty();
    o.insert(ClearOptions::stencil());
    assert!(o.contains(ClearOptions::stencil()));
    o.insert(ClearOptions::target());
    assert_eq!(o.bits(), 5);
    o.remove(ClearOptions::stencil());
    assert_eq!(o.bits(), 1);
    o.toggle(ClearOptions::all());
    assert_eq!(o.bits(), 6);
    o.toggle(ClearOptions::all());
    assert_eq!(o.bits(), 1);
    o.set(ClearOptions::depth_buffer(), true);
    assert_eq!(o.bits(), 3);
    o.set(ClearOptions::target(), false);
    assert_eq!(o.bits(), 2);
}

#[test]
fn color_mask_flags() {
    assert_eq!(ColorMask::none().bits(), 1);
    assert_eq!(ColorMask::none(), ColorMask::r());
    assert_eq!(ColorMask::rgb().bits(), 7);
    assert_eq!(ColorMask::rgba().bits(), 15);
    assert_eq!(ColorMask::all().bits(), 15);
    assert_eq!(ColorMask::r().union(ColorMask::g()).union(ColorMask::b()), ColorMask::rgb());
    assert_eq!(ColorMask::rgb().complement(), ColorMask::a());
    assert!(ColorMask::rgba().contains(ColorMask::rgb()));
    assert!(ColorMask::from_bits(16).is_none());
}
