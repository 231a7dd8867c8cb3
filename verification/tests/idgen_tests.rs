use cursor_pro_helper::idgen::{
    generate_hex_string, generate_machine_id, generate_mac_address, generate_sqm_id,
    generate_uuid,
};

fn is_lower_hex(c: char) -> bool {
    c.is_ascii_digit() || ('a'..='f').contains(&c)
}

#[test]
fn hex_string_is_64_lower_hex() {
    let s = generate_hex_string();
    assert_eq!(s.len(), 64);
    assert!(s.chars().all(is_lower_hex));
}

#[test]
fn machine_id_is_64_lower_hex() {
    let s = generate_machine_id();
    assert_eq!(s.len(), 64);
    assert!(s.chars().all(is_lower_hex));
}

#[test]
fn two_hex_strings_differ() {
    // 256 random bits collide with negligible probability
    assert_ne!(generate_hex_string(), generate_hex_string());
}

#[test]
fn uuid_has_standard_shape() {
    let s = generate_uuid();
    assert_eq!(s.len(), 36);
    for (i, c) in s.chars().enumerate() {
        if i == 8 || i == 13 || i == 18 || i == 23 {
            assert_eq!(c, '-');
        } else {
            assert!(is_lower_hex(c));
        }
    }
    assert_eq!(s.as_bytes()[14], b'4');
}

#[test]
fn sqm_id_is_braced_upper_uuid() {
    let s = generate_sqm_id();
    assert_eq!(s.len(), 38);
    assert!(s.starts_with('{'));
    assert!(s.ends_with('}'));
    let inner = &s[1..37];
    for (i, c) in inner.chars().enumerate() {
        if i == 8 || i == 13 || i == 18 || i == 23 {
            assert_eq!(c, '-');
        } else {
            assert!(c.is_ascii_digit() || ('A'..='F').contains(&c));
        }
    }
    assert_eq!(s.as_bytes()[15], b'4');
}

#[test]
fn mac_address_shape_and_blocklist() {
    for _ in 0..16 {
        let mac = generate_mac_address();
        assert_eq!(mac.len(), 17);
        for (i, c) in mac.chars().enumerate() {
            if i % 3 == 2 {
                assert_eq!(c, ':');
            } else {
                assert!(c.is_ascii_digit() || ('A'..='F').contains(&c));
            }
        }
        assert_ne!(mac, "00:00:00:00:00:00");
        assert_ne!(mac, "ff:ff:ff:ff:ff:ff");
        assert_ne!(mac, "FF:FF:FF:FF:FF:FF");
        assert_ne!(mac, "ac:de:48:00:11:22");
        assert_ne!(mac, "AC:DE:48:00:11:22");
    }
}
