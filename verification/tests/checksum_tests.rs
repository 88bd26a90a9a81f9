use onflight::fletcher16;

#[test]
fn test_empty() {
    assert_eq!(fletcher16(&[]), 0);
}

#[test]
fn test_single_byte() {
    // sum0 = 1, sum1 = 1 → 0x0101
    assert_eq!(fletcher16(&[1]), 0x0101);
}

#[test]
fn test_known_value() {
    // sum0: (0+0x42)%255 = 66, then (66+0x46)%255 = 136
    // sum1: (0+66)%255 = 66, then (66+136)%255 = 202
    let result = fletcher16(&[0x42, 0x46]);
    assert_eq!(result & 0xFF, 136); // sum0
    assert_eq!(result >> 8, 202); // sum1
}

#[test]
fn standard_check_value() {
    // The usual Fletcher 16 check value for the ASCII digits "123456789".
    assert_eq!(fletcher16(b"123456789"), 0x1EDE);
}

#[test]
fn closed_form_matches_running_sums() {
    // Low byte: byte sum mod 255; high byte: sum of prefix sums mod 255.
    let data: Vec<u8> = (0u16..600).map(|i| (i * 37 % 256) as u8).collect();
    let mut byte_sum: u64 = 0;
    let mut prefix_total: u64 = 0;
    for &b in &data {
        byte_sum += b as u64;
        prefix_total += byte_sum;
    }
    let expected = ((prefix_total % 255) << 8 | (byte_sum % 255)) as u16;
    assert_eq!(fletcher16(&data), expected);
}

#[test]
fn bytes_never_reach_255() {
    let data = [0xFFu8; 1000];
    let r = fletcher16(&data);
    assert!(r & 0xFF < 255);
    assert!(r >> 8 < 255);
    // 255 is 0 modulo 255.
    assert_eq!(r, 0);
    assert_eq!(fletcher16(&[0xFE, 0xFE]), ((0xFE + 0xFD) % 255) << 8 | 0xFD);
}

#[test]
fn checksum_of_concatenation_from_parts() {
    let a: Vec<u8> = (0u16..77).map(|i| (i * 13 % 256) as u8).collect();
    let b: Vec<u8> = (0u16..300).map(|i| (i * 91 % 256) as u8).collect();
    let mut ab = a.clone();
    ab.extend_from_slice(&b);
    let (ca, cb, cab) = (fletcher16(&a) as u32, fletcher16(&b) as u32, fletcher16(&ab) as u32);
    let (a0, a1, b0, b1) = (ca & 0xFF, ca >> 8, cb & 0xFF, cb >> 8);
    assert_eq!(cab & 0xFF, (a0 + b0) % 255);
    assert_eq!(cab >> 8, (a1 + (b.len() as u32 * a0) % 255 + b1) % 255);
}
