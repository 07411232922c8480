use lcv::util::check_ampl_closed;
use lcv::util::check_ampl_opened;
use lcv::util::check_bit_period;
use lcv::util::check_duty;
use lcv::util::parse_bits;
use lcv::util::CoderError;

#[test]
fn test_bits_parser_with_only_bits() {
    let input = "111001010011010111010111010101010110";
    let result = parse_bits(input);

    assert!(result.is_some());
    assert_eq!(
        vec![
            1, 1, 1, 0, 0, 1, 0, 1, 0, 0, 1, 1, 0, 1, 0, 1, 1, 1, 0, 1, 0, 1, 1, 1, 0, 1, 0, 1,
            0, 1, 0, 1, 0, 1, 1, 0
        ],
        result.unwrap()
    );
}

#[test]
fn test_bits_parser_falis_with_no_bits_data() {
    for input in ["", "abc135", "09"] {
        assert!(parse_bits(input).is_none());
    }
}

#[test]
fn test_bits_parser_rejects_mixed_input() {
    assert!(parse_bits("0101x").is_none());
    assert!(parse_bits(" 01").is_none());
    assert_eq!(parse_bits("0"), Some(vec![0]));
    assert_eq!(parse_bits("1"), Some(vec![1]));
}

#[test]
fn test_check_bit_period() {
    assert_eq!(check_bit_period(1), Ok(1));
    assert_eq!(check_bit_period(250), Ok(250));
    assert_eq!(check_bit_period(0), Err(CoderError::InvalidBitPeriod));
}

#[test]
fn test_check_ampl_closed() {
    assert_eq!(check_ampl_closed(1), Ok(1));
    assert_eq!(check_ampl_closed(7), Ok(7));
    assert_eq!(check_ampl_closed(0), Err(CoderError::BadAmplitude));
    assert_eq!(check_ampl_closed(-3), Err(CoderError::BadAmplitude));
}

#[test]
fn test_check_ampl_opened() {
    assert_eq!(check_ampl_opened(-3), Ok(-3));
    assert_eq!(check_ampl_opened(2), Ok(2));
    assert_eq!(check_ampl_opened(0), Err(CoderError::BadAmplitude));
    assert_eq!(check_ampl_opened(i64::MIN), Err(CoderError::BadAmplitude));
}

#[test]
fn test_check_duty() {
    let half = check_duty(1, 2).unwrap();
    assert_eq!(half, lcv::util::Duty::half());
    assert!(check_duty(1, 1).is_ok());
    assert_eq!(check_duty(0, 2), Err(CoderError::WrongDuty));
    assert_eq!(check_duty(3, 2), Err(CoderError::WrongDuty));
}
