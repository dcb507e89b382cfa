use ahcontrol::feedback::{decode_feedback, torque_enable_values, FeedbackReadError};

fn host_is_little_endian() -> bool {
    u16::from_ne_bytes([1, 0]) == 1
}

#[test]
fn decodes_the_feedback_block() {
    // position 0x01ff, speed 0x0010, load word bytes [0x04, 0x01], 62 V raw, 31 degrees.
    let row = vec![0xff, 0x01, 0x10, 0x00, 0x04, 0x01, 62, 31];
    let f = decode_feedback(3, &row).unwrap();
    assert_eq!(f.id, 3);
    assert_eq!(f.position_raw, 0x01ff);
    assert_eq!(f.speed_raw, 0x0010);
    assert_eq!(f.voltage_raw, 62);
    assert_eq!(f.temperature_c, 31);
    // The load register is big-endian on the servo: 0x0401 = 1025 is minus 1.
    if host_is_little_endian() {
        assert_eq!(f.load, -1);
    } else {
        assert_eq!(f.load, 260);
    }
}

#[test]
fn decodes_positive_and_negative_loads() {
    let positive = decode_feedback(1, &vec![0, 0, 0, 0, 0x01, 0x2c, 0, 0]).unwrap();
    let negative = decode_feedback(1, &vec![0, 0, 0, 0, 0x05, 0xdc, 0, 0]).unwrap();
    if host_is_little_endian() {
        assert_eq!(positive.load, 300);
        assert_eq!(negative.load, -476);
    } else {
        assert_eq!(positive.load, -1);
    }
}

#[test]
fn negative_position_word() {
    let f = decode_feedback(2, &vec![0xfe, 0xff, 0, 0, 0, 0, 0, 0]).unwrap();
    assert_eq!(f.position_raw, -2);
}

#[test]
fn short_answer_is_an_error() {
    assert_eq!(
        decode_feedback(7, &vec![1, 2, 3]),
        Err(FeedbackReadError::WrongLength { id: 7, len: 3 })
    );
    assert_eq!(
        decode_feedback(7, &vec![0; 9]),
        Err(FeedbackReadError::WrongLength { id: 7, len: 9 })
    );
}

#[test]
fn torque_values_repeat_the_flag() {
    assert_eq!(torque_enable_values(3, true), vec![1, 1, 1]);
    assert_eq!(torque_enable_values(2, false), vec![0, 0]);
    assert!(torque_enable_values(0, true).is_empty());
}
