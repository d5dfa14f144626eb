use ticket_store::store::{from_row, to_row};
use ticket_store::stable::{MAX_ROW_BYTES, ROW_FIXED_BYTES};
use ticket_store::ticket::{
    is_positive_price, length_size, text_bytes, BookingStatus, InvalidReason, Ticket,
    TicketPayload, MAX_POSITIVE_BITS,
};

#[test]
fn row_limits() {
    assert_eq!(MAX_ROW_BYTES, u32::MAX as u64);
    assert_eq!(ROW_FIXED_BYTES, 27);
}

#[test]
fn text_bytes_counts_utf8() {
    assert_eq!(text_bytes(&String::new()), Some(0));
    assert_eq!(text_bytes(&"Rock Night".to_string()), Some(10));
    assert_eq!(text_bytes(&"é".to_string()), Some(2));
    assert_eq!(text_bytes(&"日本".to_string()), Some(6));
}

#[test]
fn length_size_steps() {
    assert_eq!(length_size(0), 1);
    assert_eq!(length_size(255), 1);
    assert_eq!(length_size(256), 2);
    assert_eq!(length_size(65_535), 2);
    assert_eq!(length_size(65_536), 4);
    assert_eq!(length_size(u32::MAX as u64), 4);
}

#[test]
fn positive_prices() {
    assert!(is_positive_price(50.0f64.to_bits()));
    assert!(is_positive_price(0.01f64.to_bits()));
    assert!(is_positive_price(f64::MIN_POSITIVE.to_bits()));
    assert!(is_positive_price(f64::MAX.to_bits()));
    assert!(is_positive_price(f64::INFINITY.to_bits()));
    assert!(is_positive_price(1));
}

#[test]
fn prices_that_are_not_positive() {
    assert!(!is_positive_price(0.0f64.to_bits()));
    assert!(!is_positive_price((-0.0f64).to_bits()));
    assert!(!is_positive_price((-50.0f64).to_bits()));
    assert!(!is_positive_price(f64::NEG_INFINITY.to_bits()));
    assert!(!is_positive_price(f64::NAN.to_bits()));
    assert!(!is_positive_price(MAX_POSITIVE_BITS + 1));
    assert!(!is_positive_price(u64::MAX));
}

#[test]
fn positive_agrees_with_comparison() {
    let samples = [
        0.0, -0.0, 1.0, -1.0, 50.0, 1e-300, -1e-300, 1e300, f64::INFINITY, f64::NEG_INFINITY,
        f64::NAN, f64::MIN_POSITIVE, 5e-324, -5e-324,
    ];
    for price in samples {
        assert_eq!(is_positive_price(price.to_bits()), price > 0.0);
    }
}

#[test]
fn max_positive_bits_is_infinity() {
    assert_eq!(MAX_POSITIVE_BITS, f64::INFINITY.to_bits());
}

#[test]
fn validate_reports_first_failure() {
    let check = |concert: &str, seat: &str, price: f64| {
        TicketPayload {
            concert_name: concert.to_string(),
            seat_number: seat.to_string(),
            price_bits: price.to_bits(),
        }
        .validate()
    };
    assert_eq!(check("Rock Night", "A1", 50.0), Ok(()));
    assert_eq!(check("", "A1", 50.0), Err(InvalidReason::EmptyConcertName));
    assert_eq!(check("Rock Night", "", 50.0), Err(InvalidReason::EmptySeatNumber));
    assert_eq!(check("Rock Night", "A1", 0.0), Err(InvalidReason::NonPositivePrice));
    assert_eq!(check("Rock Night", "A1", f64::NAN), Err(InvalidReason::NonPositivePrice));
    assert_eq!(check("", "", 0.0), Err(InvalidReason::EmptyConcertName));
    assert_eq!(check(" ", " ", 0.5), Ok(()));
}

#[test]
fn row_keeps_every_field() {
    let ticket = Ticket {
        id: 9,
        concert_name: "Rock Night".to_string(),
        seat_number: "A1".to_string(),
        price_bits: 50.0f64.to_bits(),
        booking_status: BookingStatus::Booked,
        created_at: 11,
        updated_at: Some(12),
    };
    let row = to_row(&ticket);
    assert_eq!(
        row,
        ("Rock Night".to_string(), "A1".to_string(), (50.0f64.to_bits(), true, (11, true, 12)))
    );
    assert_eq!(from_row(9, row), ticket);
}

#[test]
fn row_of_a_fresh_ticket() {
    let ticket = Ticket {
        id: 1,
        concert_name: "Rock Night".to_string(),
        seat_number: "A1".to_string(),
        price_bits: 1,
        booking_status: BookingStatus::Available,
        created_at: 11,
        updated_at: None,
    };
    let row = to_row(&ticket);
    assert_eq!(row.2, (1, false, (11, false, 0)));
    assert_eq!(from_row(1, row), ticket);
    let other = from_row(4, ("x".to_string(), "y".to_string(), (2, false, (3, false, 77))));
    assert_eq!(other.id, 4);
    assert_eq!(other.updated_at, None);
}
