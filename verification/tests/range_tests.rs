use mx100qp::range::{auto_vrange, vrange_entry};

#[test]
fn test_auto_vrange() {
    assert_eq!(auto_vrange(0, 0, 0), Some(2));
    assert_eq!(auto_vrange(0, 1_000, 2_000), Some(2));
    assert_eq!(auto_vrange(0, 35_000, 100), Some(1));
    assert_eq!(auto_vrange(0, 35_000, 3_000), Some(1));
    assert_eq!(auto_vrange(0, 35_000, 5_000), Some(3));
    assert_eq!(auto_vrange(0, 35_000, 6_000), Some(3));
    assert_eq!(auto_vrange(0, 70_000, 100), None);
}

#[test]
fn auto_vrange_high_voltage_table() {
    // channels 2 and 3 share the high-voltage table
    assert_eq!(auto_vrange(2, 0, 0), Some(1));
    assert_eq!(auto_vrange(2, 70_000, 1_500), Some(2));
    assert_eq!(auto_vrange(2, 70_000, 3_000), Some(3));
    assert_eq!(auto_vrange(3, 36_000, 100), Some(2));
    assert_eq!(auto_vrange(3, 70_001, 0), None);
    assert_eq!(auto_vrange(3, 0, 6_001), None);
}

#[test]
fn auto_vrange_never_picks_index_zero() {
    for ch in 0..4u8 {
        for v in [0u32, 1, 15_999, 16_000, 35_000, 70_000, 100_000] {
            for c in [0u32, 1, 1_500, 3_000, 6_000, 9_000] {
                if let Some(idx) = auto_vrange(ch, v, c) {
                    assert!(idx >= 1 && idx <= 3);
                }
            }
        }
    }
}

#[test]
fn range_table_entries() {
    let e = vrange_entry(0, 2);
    assert_eq!(e.voltage_mv, 16_000);
    assert_eq!(e.current_ma, 6_000);
    let e = vrange_entry(2, 2);
    assert_eq!(e.voltage_mv, 70_000);
    assert_eq!(e.current_ma, 1_500);
    let e = vrange_entry(1, 0);
    assert_eq!(e.voltage_mv, 0);
    assert_eq!(e.current_ma, 0);
}
