use ds::util::{ip_from_team_number, push_decimal, to_u8_vec};

fn unpack(bytes: &[u8], count: usize) -> Vec<bool> {
    let mut reversed = bytes.to_vec();
    reversed.reverse();
    (0..count).map(|i| reversed[i / 8] >> (i % 8) & 1 == 1).collect()
}

#[test]
fn ip_of_a_four_digit_team() {
    assert_eq!(ip_from_team_number(4533), Some("10.45.33.2".to_string()));
}

#[test]
fn ip_of_a_one_digit_team() {
    assert_eq!(ip_from_team_number(7), Some("10.0.7.2".to_string()));
}

#[test]
fn ip_of_a_team_that_is_too_large() {
    assert_eq!(ip_from_team_number(100000), None);
    assert_eq!(ip_from_team_number(u32::MAX), None);
}

#[test]
fn ip_at_the_edges() {
    assert_eq!(ip_from_team_number(0), Some("10.0.0.2".to_string()));
    assert_eq!(ip_from_team_number(99), Some("10.0.99.2".to_string()));
    assert_eq!(ip_from_team_number(100), Some("10.1.0.2".to_string()));
    assert_eq!(ip_from_team_number(254), Some("10.2.54.2".to_string()));
    assert_eq!(ip_from_team_number(1001), Some("10.10.1.2".to_string()));
    assert_eq!(ip_from_team_number(25599), Some("10.255.99.2".to_string()));
    assert_eq!(ip_from_team_number(99999), Some("10.999.99.2".to_string()));
}

#[test]
fn ip_matches_the_rule_for_every_team() {
    for team in 0..100000u32 {
        let expected = if team < 100 {
            format!("10.0.{}.2", team)
        } else {
            format!("10.{}.{}.2", team / 100, team % 100)
        };
        assert_eq!(ip_from_team_number(team), Some(expected));
    }
}

#[test]
fn decimal_digits() {
    for n in [0u32, 9, 10, 99, 100, 12345, 4294967295] {
        let mut text = String::from("x");
        push_decimal(&mut text, n);
        assert_eq!(text, format!("x{}", n));
    }
}

#[test]
fn no_buttons_pack_into_no_bytes() {
    assert_eq!(to_u8_vec(&[]), Vec::<u8>::new());
}

#[test]
fn nine_buttons_pack_into_two_bytes() {
    let buttons = [true, false, true, false, false, false, false, false, true];
    assert_eq!(to_u8_vec(&buttons), vec![0x01, 0x05]);
}

#[test]
fn eight_buttons_pack_into_one_byte() {
    assert_eq!(to_u8_vec(&[true; 8]), vec![0xff]);
    assert_eq!(to_u8_vec(&[false; 8]), vec![0x00]);
    let mut buttons = [false; 8];
    buttons[7] = true;
    assert_eq!(to_u8_vec(&buttons), vec![0x80]);
}

#[test]
fn packing_is_undone_by_unpacking() {
    let mut seed: u32 = 0x2545_f491;
    for len in 0..=256usize {
        let mut buttons = Vec::with_capacity(len);
        for _ in 0..len {
            seed ^= seed << 13;
            seed ^= seed >> 17;
            seed ^= seed << 5;
            buttons.push(seed & 1 == 1);
        }
        let packed = to_u8_vec(&buttons);
        assert_eq!(packed.len(), (len + 7) / 8);
        assert_eq!(unpack(&packed, len), buttons);
    }
}
