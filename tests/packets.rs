use hexapod_motion::{AckDataPackage, RcDataPackage};

fn with_buttons(b1: u8, b2: u8) -> RcDataPackage {
    let mut p = RcDataPackage::new();
    p.buttons_1 = b1;
    p.buttons_2 = b2;
    p
}

#[test]
fn buttons_read_low_nibble_of_first_flag_byte() {
    let p = with_buttons(0b0000_0101, 0);
    assert!(p.button_a());
    assert!(!p.button_b());
    assert!(p.button_c());
    assert!(!p.button_d());
    assert!(!p.toggle_a());
}

#[test]
fn toggles_read_high_nibble_of_first_flag_byte() {
    let p = with_buttons(0b1010_0000, 0);
    assert!(!p.toggle_a());
    assert!(p.toggle_b());
    assert!(!p.toggle_c());
    assert!(p.toggle_d());
    assert!(!p.button_a() && !p.button_b() && !p.button_c() && !p.button_d());
}

#[test]
fn bumpers_and_stick_buttons_read_second_flag_byte() {
    let p = with_buttons(0, 0b0011_1001);
    assert!(p.bumper_a());
    assert!(!p.bumper_b());
    assert!(!p.bumper_c());
    assert!(p.bumper_d());
    assert!(p.joy_left_button());
    assert!(p.joy_right_button());
    let q = with_buttons(0xff, 0b1100_0000);
    assert!(!q.bumper_a() && !q.joy_left_button() && !q.joy_right_button());
}

#[test]
fn sample_decodes_from_eight_bytes() {
    let p = RcDataPackage::from_bytes(&[1, 2, 3, 4, 5, 6, 0x10, 0x20]).unwrap();
    assert_eq!(p.joy_left_x, 1);
    assert_eq!(p.joy_left_y, 2);
    assert_eq!(p.joy_right_x, 3);
    assert_eq!(p.joy_right_y, 4);
    assert_eq!(p.pot_left, 5);
    assert_eq!(p.pot_right, 6);
    assert!(p.toggle_a());
    assert!(p.joy_right_button());
}

#[test]
fn sample_of_wrong_length_is_refused() {
    assert!(RcDataPackage::from_bytes(&[1, 2, 3, 4, 5, 6, 7]).is_none());
    assert!(RcDataPackage::from_bytes(&[0; 9]).is_none());
    assert!(RcDataPackage::from_bytes(&[]).is_none());
}

#[test]
fn connected_bit_sets_and_clears_alone() {
    let mut a = AckDataPackage::new();
    assert_eq!(a.status(), 0);
    assert!(!a.connected());
    a.set_connected(true);
    assert!(a.connected());
    assert_eq!(a.status(), 1);
    a.set_connected(true);
    assert_eq!(a.status(), 1);
    a.set_connected(false);
    assert!(!a.connected());
    assert_eq!(a.status(), 0);
}
