use gst_core::abi::{
    Format, SeekFlags, SeekType, State, StateChangeReturn, CLOCK_TIME_NONE, CLOCK_TIME_POLL,
    SEEK_FLAG_ACCURATE, SEEK_FLAG_FLUSH, SEEK_FLAG_KEY_UNIT, SEEK_FLAG_SEGMENT, SEEK_FLAG_SKIP,
};
use gst_core::rate::{Direction, Rate, RATE_INFINITY_BITS, RATE_SIGN_BIT};
use gst_core::speed::{SEEK_TO_END, SPEED_SEEK_FLAGS};

#[test]
fn state_codes_are_the_engines() {
    assert_eq!(State::VoidPending.code(), 0);
    assert_eq!(State::Null.code(), 1);
    assert_eq!(State::Ready.code(), 2);
    assert_eq!(State::Paused.code(), 3);
    assert_eq!(State::Playing.code(), 4);
}

#[test]
fn state_codes_read_back() {
    for state in [State::VoidPending, State::Null, State::Ready, State::Paused, State::Playing] {
        assert_eq!(State::from_code(state.code()), Some(state));
    }
}

#[test]
fn unknown_state_code_is_absent() {
    assert_eq!(State::from_code(5), None);
    assert_eq!(State::from_code(1000), None);
    assert_eq!(State::from_code(u32::MAX), None);
}

#[test]
fn state_change_codes_are_the_engines() {
    assert_eq!(StateChangeReturn::Failure.code(), 0);
    assert_eq!(StateChangeReturn::Success.code(), 1);
    assert_eq!(StateChangeReturn::Async.code(), 2);
    assert_eq!(StateChangeReturn::NoPreroll.code(), 3);
}

#[test]
fn state_change_codes_read_back() {
    for result in [
        StateChangeReturn::Failure,
        StateChangeReturn::Success,
        StateChangeReturn::Async,
        StateChangeReturn::NoPreroll,
    ] {
        assert_eq!(StateChangeReturn::from_code(result.code()), Some(result));
    }
}

#[test]
fn unknown_state_change_code_is_absent() {
    assert_eq!(StateChangeReturn::from_code(4), None);
    assert_eq!(StateChangeReturn::from_code(u32::MAX), None);
}

#[test]
fn format_codes_are_the_engines() {
    assert_eq!(Format::Undefined.code(), 0);
    assert_eq!(Format::Default.code(), 1);
    assert_eq!(Format::Bytes.code(), 2);
    assert_eq!(Format::Time.code(), 3);
    assert_eq!(Format::Buffers.code(), 4);
    assert_eq!(Format::Percent.code(), 5);
}

#[test]
fn seek_type_codes_are_the_engines() {
    assert_eq!(SeekType::Keep.code(), 0);
    assert_eq!(SeekType::Absolute.code(), 1);
    assert_eq!(SeekType::FromEnd.code(), 2);
}

#[test]
fn clock_time_limits() {
    assert_eq!(CLOCK_TIME_NONE, u64::MAX);
    assert_eq!(CLOCK_TIME_NONE as i64, -1);
    assert_eq!(CLOCK_TIME_POLL, 0);
    assert_eq!(SEEK_TO_END, -1);
}

#[test]
fn seek_flag_bits() {
    assert_eq!(SEEK_FLAG_FLUSH, 1);
    assert_eq!(SEEK_FLAG_ACCURATE, 2);
    assert_eq!(SEEK_FLAG_KEY_UNIT, 4);
    assert_eq!(SEEK_FLAG_SEGMENT, 8);
    assert_eq!(SEEK_FLAG_SKIP, 16);
    assert_eq!(SPEED_SEEK_FLAGS, SEEK_FLAG_SKIP | SEEK_FLAG_ACCURATE | SEEK_FLAG_FLUSH);
    assert_eq!(SPEED_SEEK_FLAGS, 19);
}

#[test]
fn seek_flags_union_and_membership() {
    let flush = SeekFlags::from_bits(SEEK_FLAG_FLUSH);
    let accurate = SeekFlags::from_bits(SEEK_FLAG_ACCURATE);
    let both = flush.with(accurate);
    assert_eq!(both.bits, 3);
    assert!(both.contains(flush));
    assert!(both.contains(accurate));
    assert!(!flush.contains(accurate));
    assert!(!flush.contains(both));
    assert!(flush.contains(SeekFlags::from_bits(0)));
    assert_eq!(flush.with(flush), flush);
}

fn rate(value: f64) -> Rate {
    Rate::from_bits(value.to_bits())
}

#[test]
fn rate_keeps_its_bits() {
    for value in [0.0f64, -0.0, 1.0, -1.0, 0.5, 2.0, f64::INFINITY, f64::MIN_POSITIVE] {
        assert_eq!(rate(value).to_bits(), value.to_bits());
        assert_eq!(f64::from_bits(rate(value).to_bits()).to_bits(), value.to_bits());
    }
}

#[test]
fn rate_limits_are_the_bits_of_infinity_and_negative_zero() {
    assert_eq!(RATE_INFINITY_BITS, f64::INFINITY.to_bits());
    assert_eq!(RATE_SIGN_BIT, (-0.0f64).to_bits());
}

#[test]
fn zero_rates_stand_still() {
    assert_eq!(rate(0.0).direction(), Direction::Still);
    assert_eq!(rate(-0.0).direction(), Direction::Still);
}

#[test]
fn positive_rates_go_forward() {
    for value in [1.0f64, 0.5, 2.0, 1e-300, f64::MIN_POSITIVE, 5e-324, f64::MAX, f64::INFINITY] {
        assert!(value > 0.0);
        assert_eq!(rate(value).direction(), Direction::Forward, "{}", value);
    }
}

#[test]
fn negative_rates_go_in_reverse() {
    for value in [-1.0f64, -0.5, -2.0, -5e-324, f64::MIN, f64::NEG_INFINITY] {
        assert!(value < 0.0);
        assert_eq!(rate(value).direction(), Direction::Reverse, "{}", value);
    }
}

#[test]
fn rates_that_are_no_number_go_the_way_of_negative_ones() {
    for bits in [f64::NAN.to_bits(), 0x7ff0_0000_0000_0001, 0xfff8_0000_0000_0000, u64::MAX] {
        assert!(f64::from_bits(bits).is_nan());
        assert_eq!(Rate::from_bits(bits).direction(), Direction::Reverse);
    }
}

#[test]
fn direction_agrees_with_float_comparison() {
    let mut bits: u64 = 0x0123_4567_89ab_cdef;
    for _ in 0..20000 {
        bits = bits.wrapping_mul(6364136223846793005).wrapping_add(1442695040888963407);
        let value = f64::from_bits(bits);
        let expected = if value == 0.0 {
            Direction::Still
        } else if value > 0.0 {
            Direction::Forward
        } else {
            Direction::Reverse
        };
        assert_eq!(Rate::from_bits(bits).direction(), expected, "{:#x}", bits);
    }
}
