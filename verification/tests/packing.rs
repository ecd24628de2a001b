use procon::packing::{pack_pair, unpack_pair, MAX_12BIT};

#[test]
fn unpack_takes_low_nibble_for_first_and_high_nibble_for_second() {
    assert_eq!(unpack_pair(0x34, 0x12, 0xAB), (0x234, 0xAB1));
    assert_eq!(unpack_pair(0x00, 0x00, 0x00), (0, 0));
    assert_eq!(unpack_pair(0xFF, 0xFF, 0xFF), (0xFFF, 0xFFF));
    assert_eq!(unpack_pair(0xFF, 0x0F, 0x00), (0xFFF, 0));
    assert_eq!(unpack_pair(0x00, 0xF0, 0xFF), (0, 0xFFF));
}

#[test]
fn pack_places_twelve_bits_of_each_value() {
    assert_eq!(pack_pair(0x234, 0xAB1), [0x34, 0x12, 0xAB]);
    assert_eq!(pack_pair(0, 0), [0, 0, 0]);
    assert_eq!(pack_pair(0xFFF, 0xFFF), [0xFF, 0xFF, 0xFF]);
    assert_eq!(pack_pair(0xFFF, 0), [0xFF, 0x0F, 0x00]);
    assert_eq!(pack_pair(0, 0xFFF), [0x00, 0xF0, 0xFF]);
}

#[test]
fn unpack_inverts_pack_on_every_first_value() {
    let mut a: u16 = 0;
    while a <= MAX_12BIT {
        let mut b: u16 = 0;
        while b <= MAX_12BIT {
            let p = pack_pair(a, b);
            assert_eq!(unpack_pair(p[0], p[1], p[2]), (a, b));
            b += 13;
        }
        a += 1;
    }
}

#[test]
fn unpack_inverts_pack_on_every_second_value() {
    let mut b: u16 = 0;
    while b <= MAX_12BIT {
        let mut a: u16 = 0;
        while a <= MAX_12BIT {
            let p = pack_pair(a, b);
            assert_eq!(unpack_pair(p[0], p[1], p[2]), (a, b));
            a += 17;
        }
        b += 1;
    }
}

#[test]
fn pack_inverts_unpack_on_sampled_bytes() {
    let mut b0: u16 = 0;
    while b0 < 256 {
        let mut b1: u16 = 0;
        while b1 < 256 {
            let mut b2: u16 = 0;
            while b2 < 256 {
                let (a, b) = unpack_pair(b0 as u8, b1 as u8, b2 as u8);
                assert_eq!(pack_pair(a, b), [b0 as u8, b1 as u8, b2 as u8]);
                b2 += 5;
            }
            b1 += 1;
        }
        b0 += 3;
    }
}

#[test]
fn pack_stores_only_the_low_twelve_bits() {
    assert_eq!(pack_pair(0x1234, 0xFAB1), pack_pair(0x234, 0xAB1));
    let p = pack_pair(0xFFFF, 0xF000);
    assert_eq!(unpack_pair(p[0], p[1], p[2]), (0xFFF, 0));
}

#[test]
fn unpacked_values_fit_in_twelve_bits() {
    let (a, b) = unpack_pair(0xFF, 0xFF, 0xFF);
    assert!(a <= MAX_12BIT);
    assert!(b <= MAX_12BIT);
    assert_eq!(MAX_12BIT, 4095);
}
