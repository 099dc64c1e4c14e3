use message_digest::Message;

fn decode(text: &str) -> Vec<u8> {
    let digits: Vec<u32> = text.chars().map(|c| c.to_digit(16).unwrap()).collect();
    digits.chunks(2).map(|p| (p[0] * 16 + p[1]) as u8).collect()
}

fn counting() -> [u8; 32] {
    let mut bytes = [0u8; 32];
    for (i, b) in bytes.iter_mut().enumerate() {
        *b = (i + 1) as u8;
    }
    bytes
}

#[test]
fn zeros_render_as_zeros() {
    let text = Message::from_digest([0u8; 32]).to_lower_hex_string();
    assert_eq!(text, "00".repeat(32));
    assert_eq!(text, "0000000000000000000000000000000000000000000000000000000000000000");
}

#[test]
fn counting_bytes_render_in_order() {
    let text = Message::from_digest(counting()).to_lower_hex_string();
    assert_eq!(text, "0102030405060708090a0b0c0d0e0f101112131415161718191a1b1c1d1e1f20");
}

#[test]
fn all_ones_render_lowercase() {
    let text = Message::from_digest([0xffu8; 32]).to_lower_hex_string();
    assert_eq!(text, "ff".repeat(32));
}

#[test]
fn upper_half_comes_first() {
    let mut bytes = [0u8; 32];
    bytes[0] = 0xa5;
    bytes[31] = 0x5a;
    let text = Message::from_digest(bytes).to_lower_hex_string();
    assert!(text.starts_with("a500"));
    assert!(text.ends_with("005a"));
}

#[test]
fn every_digit_is_rendered() {
    let mut bytes = [0u8; 32];
    let values = [0x01u8, 0x23, 0x45, 0x67, 0x89, 0xab, 0xcd, 0xef];
    bytes[..8].copy_from_slice(&values);
    let text = Message::from_digest(bytes).to_lower_hex_string();
    assert_eq!(&text[..16], "0123456789abcdef");
}

#[test]
fn text_has_sixty_four_hex_digits() {
    let inputs = [[0u8; 32], [0xffu8; 32], counting(), [0x9au8; 32]];
    for bytes in inputs.iter() {
        let text = Message::from_digest(*bytes).to_lower_hex_string();
        assert_eq!(text.len(), 64);
        assert!(text.chars().all(|c| matches!(c, '0'..='9' | 'a'..='f')));
    }
}

#[test]
fn text_has_no_prefix_or_line_end() {
    let text = Message::from_digest(counting()).to_lower_hex_string();
    assert!(!text.starts_with("0x"));
    assert!(!text.ends_with('\n'));
    assert!(!text.contains(' '));
}

#[test]
fn decoding_the_text_gives_the_bytes() {
    let mut varied = [0u8; 32];
    for (i, b) in varied.iter_mut().enumerate() {
        *b = (i as u8).wrapping_mul(37).wrapping_add(11);
    }
    let inputs = [[0u8; 32], [0xffu8; 32], counting(), varied];
    for bytes in inputs.iter() {
        let text = Message::from_digest(*bytes).to_lower_hex_string();
        assert_eq!(decode(&text), bytes.to_vec());
    }
}

#[test]
fn rendering_repeats() {
    let m = Message::from_digest(counting());
    assert_eq!(m.to_lower_hex_string(), m.to_lower_hex_string());
}

#[test]
fn text_matches_std_formatting() {
    let bytes = counting();
    let expected: String = bytes.iter().map(|b| format!("{:02x}", b)).collect();
    assert_eq!(Message::from_digest(bytes).to_lower_hex_string(), expected);
}

#[test]
fn decoded_text_rebuilds_the_digest() {
    let m = Message::from_digest(counting());
    let back = Message::from_digest_slice(&decode(&m.to_lower_hex_string())).unwrap();
    assert!(back == m);
}
