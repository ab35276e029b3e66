use chrono::{Local, Timelike};
use libclockrobustus::clock::ClockMessage;
use libclockrobustus::error::{ClockError, DecodeError, ErrorKind};
use std::f32::consts::PI;

#[test]
fn test_clockmessage_binary_convertion() {
    // Doing the conversion back and forth and testing equality.
    let now = Local::now();
    let hours = now.hour() as u8;
    let minutes = now.minute() as u8;
    let seconds = now.second() as u8;
    let hours_angle = (minutes as f32) * PI / 360f32 + (PI / 2f32 + (PI * (hours % 12) as f32) / 6f32);
    let minutes_angle = (PI / 2f32 + (PI * (minutes % 60) as f32) / 30f32) + (seconds as f32) * PI / 1800f32;
    let seconds_angle = PI / 2f32 + (PI * (seconds % 60) as f32) / 30f32;
    let message1 = ClockMessage::new(
        hours,
        minutes,
        seconds,
        hours_angle.to_bits(),
        minutes_angle.to_bits(),
        seconds_angle.to_bits(),
    );
    let bytes = message1.as_bytes();
    let message2 = ClockMessage::try_from(bytes).unwrap();

    assert_eq!(message1, message2);
}

#[test]
fn clock_wire_form_has_fifteen_bytes() {
    let message = ClockMessage::new(0, 0, 0, 0, 0, 0);
    assert_eq!(message.as_bytes().len(), 15usize);
    assert_eq!(message.as_bytes(), vec![0u8; 15]);
}

#[test]
fn clock_angles_travel_most_significant_byte_first() {
    let quarter = (PI / 2f32).to_bits();
    assert_eq!(quarter, 0x3FC9_0FDB);
    let message = ClockMessage::new(9, 8, 7, quarter, 0x0102_0304, 0xFFFE_FDFC);
    assert_eq!(
        message.as_bytes(),
        vec![9, 8, 7, 0x3F, 0xC9, 0x0F, 0xDB, 1, 2, 3, 4, 0xFF, 0xFE, 0xFD, 0xFC]
    );
    let mut expected = vec![9u8, 8, 7];
    expected.extend_from_slice(&(PI / 2f32).to_be_bytes());
    expected.extend_from_slice(&f32::from_bits(0x0102_0304).to_be_bytes());
    expected.extend_from_slice(&f32::from_bits(0xFFFE_FDFC).to_be_bytes());
    assert_eq!(message.as_bytes(), expected);
}

#[test]
fn clock_decoding_takes_the_angles_as_they_stand() {
    let bytes = vec![25u8, 61, 62, 0x40, 0x49, 0x0F, 0xDB, 0, 0, 0, 0, 0x80, 0, 0, 1];
    let message = ClockMessage::try_from(bytes).unwrap();
    assert_eq!(message.hours(), 25);
    assert_eq!(message.minutes(), 61);
    assert_eq!(message.seconds(), 62);
    assert_eq!(message.hours_angle(), 0x4049_0FDB);
    assert_eq!(f32::from_bits(message.hours_angle()), PI);
    assert_eq!(message.minutes_angle(), 0);
    assert_eq!(message.seconds_angle(), 0x8000_0001);
}

#[test]
fn clock_decoding_refuses_short_buffers() {
    let too_short = Err::<ClockMessage, ClockError>(ClockError(ErrorKind::Decode(DecodeError::TooShort)));
    assert_eq!(ClockMessage::try_from(vec![]), too_short);
    assert_eq!(ClockMessage::try_from(vec![0u8; 14]), too_short);
    assert_eq!(ClockMessage::from_payload(&[1, 2, 3]), too_short);
    assert!(ClockMessage::try_from(vec![0u8; 15]).is_ok());
    assert_eq!(
        ClockMessage::try_from(vec![0u8; 40]),
        Ok(ClockMessage::new(0, 0, 0, 0, 0, 0))
    );
}

#[test]
fn clock_round_trip_keeps_every_bit() {
    for word in [0u32, 1, 0xFF, 0x100, 0xFFFF_FFFF, 0x7FC0_0000, 0x8000_0000, 0x1234_5678] {
        let message = ClockMessage::new(12, 34, 56, word, !word, word.rotate_left(7));
        let back = ClockMessage::try_from(message.as_bytes()).unwrap();
        assert_eq!(back, message);
        assert_eq!(back.hours_angle(), word);
        assert_eq!(back.minutes_angle(), !word);
        assert_eq!(back.seconds_angle(), word.rotate_left(7));
    }
}

#[test]
fn clock_bytes_read_and_written_are_the_same_bytes() {
    let value = vec![1u8, 2, 3, 0, 0, 0, 0, 0x3F, 0x80, 0, 0, 0x40, 0, 0, 0];
    let message = ClockMessage::try_from(value.clone()).unwrap();
    assert_eq!(message.as_bytes(), value);
    assert_eq!(f32::from_bits(message.hours_angle()), 0.0);
    assert_eq!(f32::from_bits(message.minutes_angle()), 1.0);
    assert_eq!(f32::from_bits(message.seconds_angle()), 2.0);
    let odd: Vec<u8> = (100u8..115).collect();
    assert_eq!(ClockMessage::try_from(odd.clone()).unwrap().as_bytes(), odd);
    let mut longer = odd.clone();
    longer.push(7);
    assert_eq!(ClockMessage::try_from(longer).unwrap().as_bytes(), odd);
}

#[test]
fn clock_new_shows_its_parts() {
    let message = ClockMessage::new(1, 2, 3, 4, 5, 6);
    assert_eq!(
        (message.hours(), message.minutes(), message.seconds()),
        (1, 2, 3)
    );
    assert_eq!(
        (message.hours_angle(), message.minutes_angle(), message.seconds_angle()),
        (4, 5, 6)
    );
}
