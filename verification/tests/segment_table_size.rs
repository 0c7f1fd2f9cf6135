use xhci::registers::runtime::EventRingSegmentTableSizeRegister;

#[test]
fn new_size_register_is_zero() {
    let r = EventRingSegmentTableSizeRegister::new();
    assert_eq!(r.bits(), 0);
}

#[test]
fn set_stores_the_count_widened() {
    let mut r = EventRingSegmentTableSizeRegister::new();
    r.set(0x1234);
    assert_eq!(r.bits(), 0x0000_1234);
    r.set(1);
    assert_eq!(r.bits(), 1);
}

#[test]
fn set_accepts_the_smallest_and_the_largest_count() {
    let mut r = EventRingSegmentTableSizeRegister::new();
    r.set(u16::MAX);
    assert_eq!(r.bits(), 0xFFFF);
    r.set(0);
    assert_eq!(r.bits(), 0);
}

#[test]
fn set_stores_every_count_in_the_low_half_of_the_cell() {
    let mut r = EventRingSegmentTableSizeRegister::new();
    for c in 0..=u16::MAX {
        r.set(c);
        assert_eq!(r.bits() & 0xFFFF, u32::from(c));
        assert_eq!(r.bits() >> 16, 0);
    }
}

#[test]
fn setting_a_count_twice_is_setting_it_once() {
    let mut once = EventRingSegmentTableSizeRegister::new();
    once.set(513);
    let mut twice = EventRingSegmentTableSizeRegister::new();
    twice.set(513);
    twice.set(513);
    assert_eq!(once.bits(), twice.bits());
    assert_eq!(twice.bits(), 513);
}

#[test]
fn size_register_is_a_plain_value() {
    let mut r = EventRingSegmentTableSizeRegister::new();
    r.set(9);
    let copy = r;
    r.set(10);
    assert_eq!(copy.bits(), 9);
    assert_eq!(r.clone().bits(), 10);
    assert_eq!(format!("{:?}", copy), "EventRingSegmentTableSizeRegister(9)");
}
