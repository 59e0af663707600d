use grob::{
    GrowByDoubleWithNull, GrowStrategy, GrowToNearestNibble, GrowToNearestNibbleWithNull,
    GrowToNearestQuarterKibi,
};

#[test]
fn nearest_nibble_rounds_up_to_sixteen() {
    let strategy = GrowToNearestNibble::new();
    assert_eq!(strategy.next_capacity(1, 0, 1), 16);
    assert_eq!(strategy.next_capacity(1, 0, 16), 16);
    assert_eq!(strategy.next_capacity(1, 16, 17), 32);
    assert_eq!(strategy.next_capacity(2, 64, 100), 112);
    assert_eq!(strategy.next_capacity(1, 0, 1024), 1024);
}

#[test]
fn nearest_nibble_is_clamped_to_the_largest_capacity() {
    let strategy = GrowToNearestNibble::new();
    assert_eq!(strategy.next_capacity(1, 0, u32::MAX - 15), u32::MAX - 15);
    assert_eq!(strategy.next_capacity(1, 0, u32::MAX - 14), u32::MAX);
    assert_eq!(strategy.next_capacity(1, 0, u32::MAX), u32::MAX);
}

#[test]
fn nearest_nibble_with_null_adds_one_code_unit() {
    let strategy = GrowToNearestNibbleWithNull::new();
    assert_eq!(strategy.next_capacity(1, 0, 1), 16);
    assert_eq!(strategy.next_capacity(1, 0, 14), 16);
    assert_eq!(strategy.next_capacity(1, 0, 15), 32);
    assert_eq!(strategy.next_capacity(1, 0, 16), 32);
    assert_eq!(strategy.next_capacity(1, 0, 100), 112);
    assert_eq!(strategy.next_capacity(1, 0, u32::MAX), u32::MAX);
}

#[test]
fn double_with_null_doubles_and_respects_the_floor() {
    let strategy = GrowByDoubleWithNull::<64>::new();
    assert_eq!(strategy.next_capacity(1, 0, 1), 64);
    assert_eq!(strategy.next_capacity(1, 0, 30), 64);
    assert_eq!(strategy.next_capacity(1, 0, 31), 96);
    assert_eq!(strategy.next_capacity(1, 0, 100), 224);
    assert_eq!(strategy.next_capacity(3, 224, 448), 928);
    let no_floor = GrowByDoubleWithNull::<0>::new();
    assert_eq!(no_floor.next_capacity(1, 0, 1), 32);
    assert_eq!(no_floor.next_capacity(1, 0, 0x8000_0000), u32::MAX);
    let high_floor = GrowByDoubleWithNull::<0x1_0000_0000>::new();
    assert_eq!(high_floor.next_capacity(1, 0, 1), u32::MAX);
}

#[test]
fn nearest_quarter_kibi_leaves_room_to_align() {
    let strategy = GrowToNearestQuarterKibi::new();
    assert_eq!(strategy.next_capacity(1, 0, 1), 256);
    assert_eq!(strategy.next_capacity(1, 0, 240), 256);
    assert_eq!(strategy.next_capacity(1, 0, 241), 512);
    assert_eq!(strategy.next_capacity(1, 65536, 65537), 65792);
    assert_eq!(strategy.next_capacity(1, 0, u32::MAX), u32::MAX);
}

#[test]
fn every_strategy_exceeds_the_current_capacity() {
    let pairs: [(u32, u32); 7] = [
        (0, 1),
        (15, 16),
        (16, 17),
        (1000, 1001),
        (65535, 70000),
        (u32::MAX - 17, u32::MAX - 16),
        (u32::MAX - 1, u32::MAX),
    ];
    for tries in 1..4 {
        for (current, desired) in pairs {
            assert!(GrowToNearestNibble::new().next_capacity(tries, current, desired) > current);
            assert!(
                GrowToNearestNibbleWithNull::new().next_capacity(tries, current, desired) > current
            );
            assert!(
                GrowByDoubleWithNull::<64>::new().next_capacity(tries, current, desired) > current
            );
            assert!(
                GrowToNearestQuarterKibi::new().next_capacity(tries, current, desired) > current
            );
        }
    }
}

#[test]
fn defaults_are_the_strategies_themselves() {
    assert_eq!(GrowToNearestNibble::default().next_capacity(1, 0, 5), 16);
    assert_eq!(GrowToNearestNibbleWithNull::default().next_capacity(1, 0, 15), 32);
    assert_eq!(GrowByDoubleWithNull::<64>::default().next_capacity(1, 0, 5), 64);
    assert_eq!(GrowToNearestQuarterKibi::default().next_capacity(1, 0, 5), 256);
}
