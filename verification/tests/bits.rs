use sbi::bits::{encode_wide, join_wide, split_wide};

#[test]
fn split_gives_low_then_high() {
    assert_eq!(split_wide(0x1_0000_0001), (1, 1));
    assert_eq!(split_wide(0x1234_5678_9abc_def0), (0x9abc_def0, 0x1234_5678));
    assert_eq!(split_wide(0), (0, 0));
    assert_eq!(split_wide(u64::MAX), (u32::MAX, u32::MAX));
    assert_eq!(split_wide(0xffff_ffff), (0xffff_ffff, 0));
    assert_eq!(split_wide(0x1_0000_0000), (0, 1));
    assert_eq!(split_wide(0x8000_0000_0000_0000), (0, 0x8000_0000));
}

#[test]
fn join_puts_high_above_low() {
    assert_eq!(join_wide(1, 1), 0x1_0000_0001);
    assert_eq!(join_wide(0x9abc_def0, 0x1234_5678), 0x1234_5678_9abc_def0);
    assert_eq!(join_wide(0, 0), 0);
    assert_eq!(join_wide(u32::MAX, u32::MAX), u64::MAX);
    assert_eq!(join_wide(u32::MAX, 0), 0xffff_ffff);
    assert_eq!(join_wide(0, 1), 0x1_0000_0000);
}

#[test]
fn join_undoes_split() {
    let values = [
        0u64,
        1,
        0xffff_ffff,
        0x1_0000_0000,
        0x1_0000_0001,
        0xdead_beef_0bad_f00d,
        0x7fff_ffff_ffff_ffff,
        0x8000_0000_0000_0000,
        u64::MAX,
    ];
    for value in values {
        let (low, high) = split_wide(value);
        assert_eq!(join_wide(low, high), value);
    }
}

#[test]
fn split_undoes_join() {
    let halves = [(0u32, 0u32), (1, 0), (0, 1), (u32::MAX, 0), (0, u32::MAX), (0xcafe, 0xf00d)];
    for (low, high) in halves {
        assert_eq!(split_wide(join_wide(low, high)), (low, high));
    }
}

#[test]
fn narrow_registers_take_the_halves() {
    assert_eq!(encode_wide(0x1_0000_0001, 32), (0x0000_0001, 0x0000_0001));
    assert_eq!(encode_wide(0x1234_5678_9abc_def0, 32), (0x9abc_def0, 0x1234_5678));
    assert_eq!(encode_wide(5, 32), (5, 0));
    assert_eq!(encode_wide(u64::MAX, 32), (0xffff_ffff, 0xffff_ffff));
    assert_eq!(encode_wide(0x1_0000_0001, 63), (1, 1));
}

#[test]
fn wide_registers_take_the_value_whole() {
    assert_eq!(encode_wide(0x1_0000_0001, 64), (0x1_0000_0001, 0));
    assert_eq!(encode_wide(0x1_0000_0001, 128), (0x1_0000_0001, 0));
    assert_eq!(encode_wide(u64::MAX, 64), (u64::MAX, 0));
    assert_eq!(encode_wide(0, 64), (0, 0));
}
