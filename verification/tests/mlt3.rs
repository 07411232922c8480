use lcv::coder::mlt3::Mlt3;
use lcv::coder::SigElement;

#[test]
fn test_mlt3_len4_cases() {
    let enc = Mlt3::new();
    let cases: [(&[u8], Vec<SigElement>); 4] = [
        (
            &[0, 0, 0, 0],
            vec![
                SigElement::new(0, 1, 0),
                SigElement::new(1, 2, 0),
                SigElement::new(2, 3, 0),
                SigElement::new(3, 4, 0),
            ],
        ),
        (
            &[1, 1, 1, 1],
            vec![
                SigElement::new(0, 1, 1),
                SigElement::new(1, 2, 0),
                SigElement::new(2, 3, -1),
                SigElement::new(3, 4, 0),
            ],
        ),
        (
            &[1, 0, 1, 0],
            vec![
                SigElement::new(0, 1, 1),
                SigElement::new(1, 2, 1),
                SigElement::new(2, 3, 0),
                SigElement::new(3, 4, 0),
            ],
        ),
        (
            &[0, 1, 1, 0],
            vec![
                SigElement::new(0, 1, 0),
                SigElement::new(1, 2, 1),
                SigElement::new(2, 3, 0),
                SigElement::new(3, 4, 0),
            ],
        ),
    ];
    for (seq, exp) in cases {
        assert_eq!(enc.encode(seq), exp);
    }
}

#[test]
fn test_mlt3_len9_edge() {
    let seq = [1, 1, 1, 0, 0, 0, 1, 1, 1];
    let exp = vec![
        SigElement::new(0, 1, 1),
        SigElement::new(1, 2, 0),
        SigElement::new(2, 3, -1),
        SigElement::new(3, 4, -1),
        SigElement::new(4, 5, -1),
        SigElement::new(5, 6, -1),
        SigElement::new(6, 7, 0),
        SigElement::new(7, 8, 1),
        SigElement::new(8, 9, 0),
    ];

    let enc = Mlt3::new();
    assert_eq!(enc.encode(&seq), exp);
}

#[test]
fn test_mlt3_unarios_len1() {
    let enc = Mlt3::new();

    let s0 = [0u8; 1];
    let e0 = vec![SigElement::new(0, 1, 0)];
    assert_eq!(enc.encode(&s0), e0);

    let s1 = [1u8; 1];
    let e1 = vec![SigElement::new(0, 1, 1)];
    assert_eq!(enc.encode(&s1), e1);
}
