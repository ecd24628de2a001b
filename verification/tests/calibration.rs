use procon::calibration::{
    calibration_present, decode_calibration, decode_deadzone, Side, StickCalibration,
};
use procon::packing::pack_pair;

fn block_of(values: [u16; 6]) -> Vec<u8> {
    let mut block = Vec::new();
    block.extend_from_slice(&pack_pair(values[0], values[1]));
    block.extend_from_slice(&pack_pair(values[2], values[3]));
    block.extend_from_slice(&pack_pair(values[4], values[5]));
    block
}

#[test]
fn block_of_ff_is_absent() {
    assert!(!calibration_present(&[0xFF; 9]));
}

#[test]
fn block_of_zeros_is_absent() {
    assert!(!calibration_present(&[0x00; 9]));
}

#[test]
fn block_mixing_ff_and_zero_is_absent() {
    assert!(!calibration_present(&[0xFF, 0x00, 0xFF, 0xFF, 0x00, 0x00, 0xFF, 0x00, 0xFF]));
}

#[test]
fn one_other_byte_anywhere_makes_the_block_present() {
    for at in 0..9 {
        for other in [0x01u8, 0x7F, 0x80, 0xFE] {
            let mut block = [0xFFu8; 9];
            block[at] = other;
            assert!(calibration_present(&block));
            let mut block = [0x00u8; 9];
            block[at] = other;
            assert!(calibration_present(&block));
        }
    }
}

#[test]
fn empty_block_is_absent() {
    assert!(!calibration_present(&[]));
}

#[test]
fn left_block_is_read_in_order() {
    let block = block_of([0x111, 0x222, 0x333, 0x444, 0x555, 0x666]);
    assert_eq!(
        decode_calibration(&block, Side::Left),
        StickCalibration {
            max_above_x: 0x111,
            max_above_y: 0x222,
            center_x: 0x333,
            center_y: 0x444,
            max_below_x: 0x555,
            max_below_y: 0x666,
        }
    );
}

#[test]
fn right_block_starts_with_the_centre() {
    let block = block_of([0x111, 0x222, 0x333, 0x444, 0x555, 0x666]);
    assert_eq!(
        decode_calibration(&block, Side::Right),
        StickCalibration {
            center_x: 0x111,
            center_y: 0x222,
            max_below_x: 0x333,
            max_below_y: 0x444,
            max_above_x: 0x555,
            max_above_y: 0x666,
        }
    );
}

#[test]
fn calibration_from_raw_bytes() {
    let block = [0x34, 0x12, 0xAB, 0x00, 0x08, 0x80, 0xFF, 0xFF, 0xFF];
    let cal = decode_calibration(&block, Side::Left);
    assert_eq!(cal.max_above_x, 0x234);
    assert_eq!(cal.max_above_y, 0xAB1);
    assert_eq!(cal.center_x, 0x800);
    assert_eq!(cal.center_y, 0x800);
    assert_eq!(cal.max_below_x, 0xFFF);
    assert_eq!(cal.max_below_y, 0xFFF);
}

#[test]
fn deadzone_is_first_value_of_pair_at_offset_three() {
    let mut block = [0u8; 16];
    block[3] = 0xAE;
    block[4] = 0xF0;
    block[5] = 0xFF;
    assert_eq!(decode_deadzone(&block), 0x0AE);
    block[4] = 0x01;
    assert_eq!(decode_deadzone(&block), 0x1AE);
    block[3] = 0xFF;
    block[4] = 0xFF;
    assert_eq!(decode_deadzone(&block), 0xFFF);
}

#[test]
fn deadzone_ignores_all_other_bytes() {
    let mut block = [0xFFu8; 16];
    block[3] = 0x0A;
    block[4] = 0x00;
    assert_eq!(decode_deadzone(&block), 10);
}
