use lcv::coder::hdb3::Hdb3;
use lcv::coder::SigElement;

#[test]
fn test_hdb3_0000_even_to_b00v() {
    let seq = [0, 0, 0, 0];
    let expected = vec![
        SigElement::new(0, 1, 1),
        SigElement::new(1, 2, 0),
        SigElement::new(2, 3, 0),
        SigElement::new(3, 4, 1),
    ];

    let enc = Hdb3::build(1, -1).unwrap();
    assert_eq!(enc.encode(&seq), expected);
}

#[test]
fn test_hdb3_10000_odd_to_000v() {
    let seq = [1, 0, 0, 0, 0];
    let expected = vec![
        SigElement::new(0, 1, 1),
        SigElement::new(1, 2, 0),
        SigElement::new(2, 3, 0),
        SigElement::new(3, 4, 0),
        SigElement::new(4, 5, 1),
    ];

    let enc = Hdb3::build(1, -1).unwrap();
    assert_eq!(enc.encode(&seq), expected);
}

#[test]
fn test_hdb3_11000011() {
    let seq = [1, 1, 0, 0, 0, 0, 1, 1];
    let expected = vec![
        SigElement::new(0, 1, 1),
        SigElement::new(1, 2, -1),
        SigElement::new(2, 3, 1),
        SigElement::new(3, 4, 0),
        SigElement::new(4, 5, 0),
        SigElement::new(5, 6, 1),
        SigElement::new(6, 7, -1),
        SigElement::new(7, 8, 1),
    ];

    let enc = Hdb3::build(1, -1).unwrap();
    assert_eq!(enc.encode(&seq), expected);
}

#[test]
fn test_hdb3_00000000_two_blocks() {
    let seq = [0, 0, 0, 0, 0, 0, 0, 0];
    let expected = vec![
        SigElement::new(0, 1, 1),
        SigElement::new(1, 2, 0),
        SigElement::new(2, 3, 0),
        SigElement::new(3, 4, 1),
        SigElement::new(4, 5, -1),
        SigElement::new(5, 6, 0),
        SigElement::new(6, 7, 0),
        SigElement::new(7, 8, -1),
    ];

    let enc = Hdb3::build(1, -1).unwrap();
    assert_eq!(enc.encode(&seq), expected);
}

#[test]
fn test_hdb3_00010000() {
    let seq = [0, 0, 0, 1, 0, 0, 0, 0];
    let expected = vec![
        SigElement::new(0, 1, 0),
        SigElement::new(1, 2, 0),
        SigElement::new(2, 3, 0),
        SigElement::new(3, 4, 1),
        SigElement::new(4, 5, 0),
        SigElement::new(5, 6, 0),
        SigElement::new(6, 7, 0),
        SigElement::new(7, 8, 1),
    ];

    let enc = Hdb3::build(1, -1).unwrap();
    assert_eq!(enc.encode(&seq), expected);
}

#[test]
fn test_hdb3_mixed_parity_blocks() {
    let seq = [1, 0, 0, 0, 0, 0, 0, 0, 0, 1, 0, 0, 0, 0];
    let expected = vec![
        SigElement::new(0, 1, 1),
        SigElement::new(1, 2, 0),
        SigElement::new(2, 3, 0),
        SigElement::new(3, 4, 0),
        SigElement::new(4, 5, 1),
        SigElement::new(5, 6, -1),
        SigElement::new(6, 7, 0),
        SigElement::new(7, 8, 0),
        SigElement::new(8, 9, -1),
        SigElement::new(9, 10, 1),
        SigElement::new(10, 11, 0),
        SigElement::new(11, 12, 0),
        SigElement::new(12, 13, 0),
        SigElement::new(13, 14, 1),
    ];

    let enc = Hdb3::build(1, -1).unwrap();
    assert_eq!(enc.encode(&seq), expected);
}

#[test]
fn test_hdb3_unarios_len1() {
    let enc = Hdb3::build(1, -1).unwrap();

    let s0 = [0u8; 1];
    let e0 = vec![SigElement::new(0, 1, 0)];
    assert_eq!(enc.encode(&s0), e0);

    let s1 = [1u8; 1];
    let e1 = vec![SigElement::new(0, 1, 1)];
    assert_eq!(enc.encode(&s1), e1);
}
