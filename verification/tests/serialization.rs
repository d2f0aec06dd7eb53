use zokrates_ir::serialization::{
    decode_hex, encode_hex, read_g1, read_g2, write_g1, write_g2, G1Affine, G2Affine, G2AffineFq, G2AffineFq2,
};

fn coordinate(first: u8) -> Vec<u8> {
    (0..32).map(|i| first.wrapping_add(i)).collect()
}

fn text(first: u8) -> String {
    let digits: String = coordinate(first)
        .iter()
        .map(|b| format!("{:02x}", b))
        .collect();
    format!("0x{}", digits)
}

#[test]
fn coordinate_text_is_lower_case_hex_behind_a_prefix() {
    let mut buffer = coordinate(0xa0);
    buffer.extend(coordinate(0x10));
    let g1 = read_g1(&buffer);
    assert_eq!(
        g1.0,
        "0xa0a1a2a3a4a5a6a7a8a9aaabacadaeafb0b1b2b3b4b5b6b7b8b9babbbcbdbebf"
    );
    assert_eq!(g1.1, text(0x10));
}

#[test]
fn g1_round_trip() {
    let mut buffer = coordinate(0xf0);
    buffer.extend(coordinate(0x07));
    let g1 = read_g1(&buffer);
    assert_eq!(write_g1(&g1), Some(buffer));
}

#[test]
fn g2_round_trip_keeps_the_order_of_the_coordinates() {
    let mut buffer = coordinate(1);
    buffer.extend(coordinate(2));
    buffer.extend(coordinate(3));
    buffer.extend(coordinate(4));
    let g2 = read_g2(&buffer);
    assert_eq!(
        g2,
        G2Affine::Fq2(G2AffineFq2((text(1), text(2)), (text(3), text(4))))
    );
    assert_eq!(write_g2(&g2), Some(buffer));
}

#[test]
fn decode_accepts_both_cases() {
    assert_eq!(decode_hex("0x0aFf10"), Some(vec![0x0a, 0xff, 0x10]));
    assert_eq!(decode_hex("0x"), Some(vec![]));
}

#[test]
fn decode_rejects_what_is_no_coordinate() {
    assert_eq!(decode_hex("0aff10"), None);
    assert_eq!(decode_hex("0x0af"), None);
    assert_eq!(decode_hex("0x0g"), None);
    assert_eq!(decode_hex(""), None);
}

#[test]
fn write_rejects_points_that_are_no_text() {
    assert_eq!(write_g1(&G1Affine(text(1), "12".to_string())), None);
    assert_eq!(
        write_g2(&G2Affine::Fq(G2AffineFq(text(1), text(2)))),
        None
    );
    assert_eq!(
        write_g2(&G2Affine::Fq2(G2AffineFq2(
            (text(1), text(2)),
            (text(3), "0xzz".to_string())
        ))),
        None
    );
}

#[test]
fn encode_writes_two_digits_for_each_byte() {
    assert_eq!(encode_hex(&[]), "0x");
    assert_eq!(encode_hex(&[0x00, 0x0f, 0xf0, 0xff]), "0x000ff0ff");
    assert_eq!(decode_hex(&encode_hex(&[1, 2, 254])), Some(vec![1, 2, 254]));
}
