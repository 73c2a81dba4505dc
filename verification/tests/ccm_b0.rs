use embedded_cal::build_b0;

#[test]
fn b0_rfc3610_packet_vector_1() {
    let nonce = [
        0x00, 0x00, 0x00, 0x03, 0x02, 0x01, 0x00, 0xA0, 0xA1, 0xA2, 0xA3, 0xA4, 0xA5,
    ];
    let b0 = build_b0(&nonce, 23, 8, 8);
    assert_eq!(
        b0,
        [
            0x59, 0x00, 0x00, 0x00, 0x03, 0x02, 0x01, 0x00, 0xA0, 0xA1, 0xA2, 0xA3, 0xA4, 0xA5,
            0x00, 0x17
        ]
    );
}

#[test]
fn b0_without_associated_data_clears_adata_flag() {
    let nonce = [0x11u8; 13];
    let b0 = build_b0(&nonce, 0x1234, 0, 8);
    assert_eq!(b0[0], 0x19);
    assert_eq!(&b0[1..14], &nonce[..]);
    assert_eq!(&b0[14..], &[0x12, 0x34]);
}

#[test]
fn b0_shortest_nonce_has_eight_length_bytes() {
    let nonce = [0xAAu8; 7];
    let b0 = build_b0(&nonce, 0x0102_0304, 1, 16);
    // L = 8, M' = 7
    assert_eq!(b0[0], 0x40 | (7 << 3) | 7);
    assert_eq!(&b0[1..8], &nonce[..]);
    assert_eq!(&b0[8..], &[0, 0, 0, 0, 0x01, 0x02, 0x03, 0x04]);
}

#[test]
fn b0_length_is_truncated_to_the_length_field() {
    let nonce = [0u8; 14];
    // L = 1: only the low byte of the message length fits
    let b0 = build_b0(&nonce, 0x1FF, 0, 4);
    assert_eq!(b0[0], (1 << 3) | 0);
    assert_eq!(b0[15], 0xFF);
}
