use lcv::coder::ami::Ami;
use lcv::coder::hdb3::Hdb3;
use lcv::coder::manch::Manchester;
use lcv::coder::mlt3::Mlt3;
use lcv::coder::nrz::Nrzi;
use lcv::coder::nrz::Nrzl;
use lcv::coder::rz::Rz;
use lcv::coder::SigElement;
use lcv::tui::determine_points;
use lcv::tui::TuiMode;
use lcv::util::CoderError;

#[test]
fn test_encode_empty_is_empty() {
    let none: &[u8] = &[];
    assert!(Nrzl::new().encode(none).is_empty());
    assert!(Nrzi::new().encode(none).is_empty());
    assert!(Rz::new().encode(none).is_empty());
    assert!(Manchester::build(1, 1).unwrap().encode(none).is_empty());
    assert!(Ami::new().encode(none).is_empty());
    assert!(Mlt3::new().encode(none).is_empty());
    assert!(Hdb3::build(1, -1).unwrap().encode(none).is_empty());
}

fn assert_contiguous(segs: &[SigElement]) {
    if let Some(first) = segs.first() {
        assert_eq!(first.ti(), 0);
    }
    for pair in segs.windows(2) {
        assert_eq!(pair[0].tf(), pair[1].ti());
    }
}

#[test]
fn test_segments_contiguous_from_zero() {
    let bits = [1, 0, 0, 1, 1, 0, 0, 0, 0, 1, 0];
    assert_contiguous(&Nrzl::new().encode(&bits));
    assert_contiguous(&Nrzi::new().encode(&bits));
    assert_contiguous(&Rz::new().encode(&bits));
    assert_contiguous(&Manchester::build(2, 3).unwrap().encode(&bits));
    assert_contiguous(&Ami::new().encode(&bits));
    assert_contiguous(&Mlt3::new().encode(&bits));
    assert_contiguous(&Hdb3::build(2, 1).unwrap().encode(&bits));
}

#[test]
fn test_encode_twice_identical() {
    let bits = [1, 1, 0, 0, 0, 0, 1, 0, 1];
    let nrzl = Nrzl::new();
    assert_eq!(nrzl.encode(&bits), nrzl.encode(&bits));
    let nrzi = Nrzi::new();
    assert_eq!(nrzi.encode(&bits), nrzi.encode(&bits));
    let rz = Rz::new();
    assert_eq!(rz.encode(&bits), rz.encode(&bits));
    let manch = Manchester::build(1, 1).unwrap();
    assert_eq!(manch.encode(&bits), manch.encode(&bits));
    let ami = Ami::new();
    assert_eq!(ami.encode(&bits), ami.encode(&bits));
    let mlt3 = Mlt3::new();
    assert_eq!(mlt3.encode(&bits), mlt3.encode(&bits));
    let hdb3 = Hdb3::build(1, -1).unwrap();
    assert_eq!(hdb3.encode(&bits), hdb3.encode(&bits));
}

#[test]
fn test_nrzi_transitions_only_on_ones() {
    let bits = [0, 1, 1, 0, 1, 0, 0, 1];
    let segs = Nrzi::new().encode(&bits);
    for (i, pair) in segs.windows(2).enumerate() {
        let changed = pair[0].lvl() != pair[1].lvl();
        assert_eq!(changed, bits[i + 1] == 1);
    }
}

#[test]
fn test_reconfigure_bit_period() {
    let mut enc = Nrzl::new();
    enc.on_tb(3).unwrap();
    let exp = vec![SigElement::new(0, 3, 1), SigElement::new(3, 6, -1)];
    assert_eq!(enc.encode(&[1, 0]), exp);
}

#[test]
fn test_reconfigure_rejected_keeps_previous() {
    let mut enc = Nrzl::new();
    enc.on_tb(5).unwrap();
    let before = enc.encode(&[1, 0, 1]);

    assert_eq!(enc.on_tb(0), Err(CoderError::InvalidBitPeriod));
    assert_eq!(enc.on_v(0), Err(CoderError::BadAmplitude));
    assert_eq!(enc.on_v(-2), Err(CoderError::BadAmplitude));
    assert_eq!(enc.encode(&[1, 0, 1]), before);
}

#[test]
fn test_reconfigure_amplitude_open_allows_negative() {
    let mut enc = Ami::new();
    enc.on_v(2).unwrap();
    assert_eq!(
        enc.encode(&[1, 1]),
        vec![SigElement::new(0, 1, -2), SigElement::new(1, 2, 2)]
    );
    enc.on_v(-2).unwrap();
    assert_eq!(
        enc.encode(&[1, 1]),
        vec![SigElement::new(0, 1, 2), SigElement::new(1, 2, -2)]
    );
    assert_eq!(enc.on_v(0), Err(CoderError::BadAmplitude));
}

#[test]
fn test_build_rejects_bad_parameters() {
    assert_eq!(
        Manchester::build(0, 1).unwrap_err(),
        CoderError::InvalidBitPeriod
    );
    assert_eq!(
        Manchester::build(1, 0).unwrap_err(),
        CoderError::BadAmplitude
    );
    assert_eq!(
        Manchester::build(1, -1).unwrap_err(),
        CoderError::BadAmplitude
    );
    assert_eq!(Hdb3::build(0, 1).unwrap_err(), CoderError::InvalidBitPeriod);
    assert_eq!(Hdb3::build(1, 0).unwrap_err(), CoderError::BadAmplitude);
    assert!(Hdb3::build(1, -5).is_ok());
}

#[test]
fn test_determine_points_steps() {
    let segs = [
        SigElement::new(0, 1, 1),
        SigElement::new(1, 2, 1),
        SigElement::new(2, 3, -1),
    ];
    let points = determine_points(&segs);
    assert_eq!(
        points,
        vec![(0, 1), (1, 1), (2, 1), (2, -1), (3, -1)]
    );
}

#[test]
fn test_determine_points_empty_and_flat() {
    let no_segs: &[SigElement] = &[];
    assert!(determine_points(no_segs).is_empty());

    let flat = [SigElement::new(0, 2, 5)];
    assert_eq!(determine_points(&flat), vec![(0, 5), (2, 5)]);
}

#[test]
fn test_parse_then_encode_pipeline() {
    let bits = lcv::util::parse_bits("10011").unwrap();
    let segs = Hdb3::build(1, -1).unwrap().encode(&bits);
    assert_eq!(
        segs,
        vec![
            SigElement::new(0, 1, 1),
            SigElement::new(1, 2, 0),
            SigElement::new(2, 3, 0),
            SigElement::new(3, 4, -1),
            SigElement::new(4, 5, 1),
        ]
    );
    assert_contiguous(&segs);
}

#[test]
fn test_tui_mode_flags() {
    let params = TuiMode::default();
    assert!(params.is_params());
    assert!(!params.is_visualizer());

    let vis = TuiMode::Visualizer;
    assert!(vis.is_visualizer());
    assert!(!vis.is_params());
}
