use procon::calibration::Side;
use procon::controller::ProController;
use procon::input::{decode_buttons, decode_raw_sample, trigger_level, Buttons};
use procon::packing::pack_pair;

const NONE: Buttons = Buttons {
    a: false,
    b: false,
    x: false,
    y: false,
    left_shoulder: false,
    right_shoulder: false,
    plus: false,
    minus: false,
    dpad_up: false,
    dpad_down: false,
    dpad_left: false,
    dpad_right: false,
    capture: false,
    home: false,
    left_stick: false,
    right_stick: false,
};

fn report(right: u8, shared: u8, left: u8) -> [u8; 48] {
    let mut r = [0u8; 48];
    r[0] = 0x30;
    r[3] = right;
    r[4] = shared;
    r[5] = left;
    r
}

#[test]
fn no_bits_no_buttons() {
    assert_eq!(decode_buttons(&report(0, 0, 0)), NONE);
}

#[test]
fn right_hand_byte_holds_face_buttons_and_right_shoulder() {
    assert_eq!(decode_buttons(&report(0x01, 0, 0)), Buttons { y: true, ..NONE });
    assert_eq!(decode_buttons(&report(0x02, 0, 0)), Buttons { x: true, ..NONE });
    assert_eq!(decode_buttons(&report(0x04, 0, 0)), Buttons { b: true, ..NONE });
    assert_eq!(decode_buttons(&report(0x08, 0, 0)), Buttons { a: true, ..NONE });
    assert_eq!(decode_buttons(&report(0x40, 0, 0)), Buttons { right_shoulder: true, ..NONE });
    assert_eq!(decode_buttons(&report(0x10, 0, 0)), NONE);
    assert_eq!(decode_buttons(&report(0x20, 0, 0)), NONE);
    assert_eq!(decode_buttons(&report(0x80, 0, 0)), NONE);
}

#[test]
fn shared_byte_holds_plus_minus_and_auxiliary_buttons() {
    assert_eq!(decode_buttons(&report(0, 0x01, 0)), Buttons { minus: true, ..NONE });
    assert_eq!(decode_buttons(&report(0, 0x02, 0)), Buttons { plus: true, ..NONE });
    assert_eq!(decode_buttons(&report(0, 0x04, 0)), Buttons { right_stick: true, ..NONE });
    assert_eq!(decode_buttons(&report(0, 0x08, 0)), Buttons { left_stick: true, ..NONE });
    assert_eq!(decode_buttons(&report(0, 0x10, 0)), Buttons { home: true, ..NONE });
    assert_eq!(decode_buttons(&report(0, 0x20, 0)), Buttons { capture: true, ..NONE });
    assert_eq!(decode_buttons(&report(0, 0xC0, 0)), NONE);
}

#[test]
fn left_hand_byte_holds_dpad_and_left_shoulder() {
    assert_eq!(decode_buttons(&report(0, 0, 0x01)), Buttons { dpad_down: true, ..NONE });
    assert_eq!(decode_buttons(&report(0, 0, 0x02)), Buttons { dpad_up: true, ..NONE });
    assert_eq!(decode_buttons(&report(0, 0, 0x04)), Buttons { dpad_right: true, ..NONE });
    assert_eq!(decode_buttons(&report(0, 0, 0x08)), Buttons { dpad_left: true, ..NONE });
    assert_eq!(decode_buttons(&report(0, 0, 0x40)), Buttons { left_shoulder: true, ..NONE });
    assert_eq!(decode_buttons(&report(0, 0, 0xB0)), NONE);
}

#[test]
fn all_bits_all_buttons() {
    let all = decode_buttons(&report(0xFF, 0xFF, 0xFF));
    assert_eq!(
        all,
        Buttons {
            a: true,
            b: true,
            x: true,
            y: true,
            left_shoulder: true,
            right_shoulder: true,
            plus: true,
            minus: true,
            dpad_up: true,
            dpad_down: true,
            dpad_left: true,
            dpad_right: true,
            capture: true,
            home: true,
            left_stick: true,
            right_stick: true,
        }
    );
}

#[test]
fn triggers_are_the_top_bits() {
    let session = ProController::new();
    let s = session.decode(&report(0x80, 0, 0));
    assert!(s.right_trigger);
    assert!(!s.left_trigger);
    let s = session.decode(&report(0, 0, 0x80));
    assert!(!s.right_trigger);
    assert!(s.left_trigger);
    let s = session.decode(&report(0x7F, 0xFF, 0x7F));
    assert!(!s.right_trigger);
    assert!(!s.left_trigger);
}

#[test]
fn trigger_level_is_all_or_nothing() {
    assert_eq!(trigger_level(true), 255);
    assert_eq!(trigger_level(false), 0);
}

#[test]
fn raw_samples_sit_at_bytes_six_and_nine() {
    let mut r = report(0, 0, 0);
    r[6..9].copy_from_slice(&pack_pair(0x123, 0x456));
    r[9..12].copy_from_slice(&pack_pair(0x789, 0xABC));
    assert_eq!(decode_raw_sample(&r, Side::Left), (0x123, 0x456));
    assert_eq!(decode_raw_sample(&r, Side::Right), (0x789, 0xABC));
}

#[test]
fn fresh_session_decodes_sticks_against_zero_calibration() {
    let session = ProController::new();
    let mut r = report(0x08, 0, 0);
    r[6..9].copy_from_slice(&pack_pair(100, 0));
    let s = session.decode(&r);
    assert!(s.buttons.a);
    assert_eq!(s.left_stick.x.numerator, 100);
    assert_eq!(s.left_stick.x.denominator, 0);
    assert_eq!(s.right_stick.x.numerator, 0);
}

#[test]
fn xinput_word_has_one_bit_per_mapped_button() {
    assert_eq!(NONE.xinput_word(), 0);
    assert_eq!(Buttons { dpad_up: true, ..NONE }.xinput_word(), 0x0001);
    assert_eq!(Buttons { dpad_down: true, ..NONE }.xinput_word(), 0x0002);
    assert_eq!(Buttons { dpad_left: true, ..NONE }.xinput_word(), 0x0004);
    assert_eq!(Buttons { dpad_right: true, ..NONE }.xinput_word(), 0x0008);
    assert_eq!(Buttons { plus: true, ..NONE }.xinput_word(), 0x0010);
    assert_eq!(Buttons { minus: true, ..NONE }.xinput_word(), 0x0020);
    assert_eq!(Buttons { left_shoulder: true, ..NONE }.xinput_word(), 0x0100);
    assert_eq!(Buttons { right_shoulder: true, ..NONE }.xinput_word(), 0x0200);
    assert_eq!(Buttons { a: true, ..NONE }.xinput_word(), 0x1000);
    assert_eq!(Buttons { b: true, ..NONE }.xinput_word(), 0x2000);
    assert_eq!(Buttons { x: true, ..NONE }.xinput_word(), 0x4000);
    assert_eq!(Buttons { y: true, ..NONE }.xinput_word(), 0x8000);
}

#[test]
fn xinput_word_leaves_out_auxiliary_buttons() {
    let aux = Buttons { capture: true, home: true, left_stick: true, right_stick: true, ..NONE };
    assert_eq!(aux.xinput_word(), 0);
    assert_eq!(decode_buttons(&report(0xFF, 0xFF, 0xFF)).xinput_word(), 0xF33F);
}
