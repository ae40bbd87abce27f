use retro_rs::Buttons;

#[test]
fn set_any_bit_reads_back() {
    for i in 0u32..16 {
        let b = Buttons::new().mask_inout(true, i);
        assert!(b.get(i));
        let raw = i16::from(b);
        assert!(raw & (1i16 << i) != 0);
        let cleared = b.mask_inout(false, i);
        assert!(!cleared.get(i));
        assert_eq!(i16::from(cleared), 0);
    }
}

#[test]
fn new_is_empty() {
    let b = Buttons::new();
    assert_eq!(i16::from(b), 0);
    for i in 0u32..16 {
        assert!(!b.get(i));
    }
}

#[test]
fn named_setters_hit_their_ids() {
    assert_eq!(i16::from(Buttons::new().b(true)), 1 << 0);
    assert_eq!(i16::from(Buttons::new().y(true)), 1 << 1);
    assert_eq!(i16::from(Buttons::new().select(true)), 1 << 2);
    assert_eq!(i16::from(Buttons::new().start(true)), 1 << 3);
    assert_eq!(i16::from(Buttons::new().up(true)), 1 << 4);
    assert_eq!(i16::from(Buttons::new().down(true)), 1 << 5);
    assert_eq!(i16::from(Buttons::new().left(true)), 1 << 6);
    assert_eq!(i16::from(Buttons::new().right(true)), 1 << 7);
    assert_eq!(i16::from(Buttons::new().a(true)), 1 << 8);
    assert_eq!(i16::from(Buttons::new().x(true)), 1 << 9);
    assert_eq!(i16::from(Buttons::new().l1(true)), 1 << 10);
    assert_eq!(i16::from(Buttons::new().r1(true)), 1 << 11);
    assert_eq!(i16::from(Buttons::new().l2(true)), 1 << 12);
    assert_eq!(i16::from(Buttons::new().r2(true)), 1 << 13);
    assert_eq!(i16::from(Buttons::new().l3(true)), 1 << 14);
    let r3 = Buttons::new().r3(true);
    assert!(r3.get_r3());
    assert_eq!(i16::from(r3), i16::MIN);
}

#[test]
fn named_getters_match_get() {
    let b = Buttons::new().start(true).right(true).a(true);
    assert!(b.get_start() && b.get_right() && b.get_a());
    assert!(!b.get_b() && !b.get_y() && !b.get_select() && !b.get_up());
    assert!(!b.get_down() && !b.get_left() && !b.get_x() && !b.get_l1());
    assert!(!b.get_r1() && !b.get_l2() && !b.get_r2() && !b.get_l3() && !b.get_r3());
    let off = b.start(false);
    assert!(!off.get_start() && off.get_right() && off.get_a());
}

#[test]
fn default_equals_new() {
    assert_eq!(Buttons::default(), Buttons::new());
}
