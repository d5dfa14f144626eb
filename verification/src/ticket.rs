//! Tickets, the payload that creates or updates one, and the errors that the
//! store reports.

use crate::stable::{texts_fit, utf8_len, MAX_ROW_BYTES, ROW_FIXED_BYTES};
use vstd::prelude::*;

verus! {

/// The greatest bit pattern of a binary64 number that is not a NaN and has
/// its sign bit clear: positive infinity.
pub const MAX_POSITIVE_BITS: u64 = 0x7FF0_0000_0000_0000;

/// Whether a seat can still be taken.
#[derive(Clone, Copy, Debug, PartialEq, Eq, Structural)]
pub enum BookingStatus {
    Available,
    Booked,
}

/// Which check a payload failed.
#[derive(Clone, Copy, Debug, PartialEq, Eq, Structural)]
pub enum InvalidReason {
    EmptyConcertName,
    EmptySeatNumber,
    NonPositivePrice,
}

/// Why an operation of the store did nothing.
#[derive(Clone, Copy, Debug, PartialEq, Eq, Structural)]
pub enum Error {
    /// No ticket is stored under `id`.
    NotFound { id: u64 },
    /// The payload failed validation.
    InvalidInput { reason: InvalidReason },
    /// The ticket under `id` has been booked before.
    AlreadyBooked { id: u64 },
}

/// One seat at one concert.
///
/// The price is kept as the bit pattern of an IEEE 754 binary64 number, so
/// that the store hands back exactly the number it was given.
#[derive(Clone, Debug, PartialEq, Eq)]
pub struct Ticket {
    pub id: u64,
    pub concert_name: String,
    pub seat_number: String,
    pub price_bits: u64,
    pub booking_status: BookingStatus,
    pub created_at: u64,
    pub updated_at: Option<u64>,
}

/// The mathematical value of a [`Ticket`].
pub ghost struct TicketView {
    pub id: u64,
    pub concert_name: Seq<char>,
    pub seat_number: Seq<char>,
    pub price_bits: u64,
    pub booking_status: BookingStatus,
    pub created_at: u64,
    pub updated_at: Option<u64>,
}

impl View for Ticket {
    type V = TicketView;

    open spec fn view(&self) -> TicketView {
        TicketView {
            id: self.id,
            concert_name: self.concert_name@,
            seat_number: self.seat_number@,
            price_bits: self.price_bits,
            booking_status: self.booking_status,
            created_at: self.created_at,
            updated_at: self.updated_at,
        }
    }
}

/// The caller's part of a ticket: what `create` and `update` take.
#[derive(Clone, Debug, PartialEq, Eq)]
pub struct TicketPayload {
    pub concert_name: String,
    pub seat_number: String,
    pub price_bits: u64,
}

/// The mathematical value of a [`TicketPayload`].
pub ghost struct PayloadView {
    pub concert_name: Seq<char>,
    pub seat_number: Seq<char>,
    pub price_bits: u64,
}

impl TicketView {
    /// Whether the store can keep both texts.
    pub open spec fn fits(self) -> bool {
        texts_fit(self.concert_name, self.seat_number)
    }
}

impl View for TicketPayload {
    type V = PayloadView;

    open spec fn view(&self) -> PayloadView {
        PayloadView {
            concert_name: self.concert_name@,
            seat_number: self.seat_number@,
            price_bits: self.price_bits,
        }
    }
}

/// A binary64 bit pattern stands for a number greater than zero exactly when
/// its sign bit is clear, it is not zero, and it is not a NaN.
pub open spec fn price_is_positive(bits: u64) -> bool {
    0 < bits <= MAX_POSITIVE_BITS
}

impl PayloadView {
    /// The first check that the payload fails, in the order in which they
    /// are made: concert name, seat number, price. `None` for a valid one.
    pub open spec fn invalid_reason(self) -> Option<InvalidReason> {
        if self.concert_name.len() == 0 {
            Some(InvalidReason::EmptyConcertName)
        } else if self.seat_number.len() == 0 {
            Some(InvalidReason::EmptySeatNumber)
        } else if !price_is_positive(self.price_bits) {
            Some(InvalidReason::NonPositivePrice)
        } else {
            None
        }
    }

    pub open spec fn is_valid(self) -> bool {
        self.invalid_reason().is_none()
    }

    /// Whether the store can keep both texts: a row with them takes at most
    /// `MAX_ROW_BYTES` bytes.
    pub open spec fn fits(self) -> bool {
        texts_fit(self.concert_name, self.seat_number)
    }
}

/// Tells whether `bits` stands for a price greater than zero.
pub fn is_positive_price(bits: u64) -> (positive: bool)
    ensures
        positive == price_is_positive(bits),
{
    0 < bits && bits <= MAX_POSITIVE_BITS
}

/// The number of bytes that `text` takes in UTF-8, where that is at most
/// `MAX_ROW_BYTES`.
pub fn text_bytes(text: &String) -> (bytes: Option<u64>)
    ensures
        bytes.is_some() == (utf8_len(text@) <= MAX_ROW_BYTES),
        bytes.is_some() ==> bytes.unwrap() == utf8_len(text@),
{
    let n: usize = text.as_str().as_bytes().len();
    if n <= 0xFFFF_FFFF {
        Some(n as u64)
    } else {
        None
    }
}

/// The number of bytes in which a row keeps the length `n` of a text.
pub fn length_size(n: u64) -> (bytes: u64)
    ensures
        bytes == crate::stable::length_bytes(n as nat),
{
    if n <= 0xFF {
        1
    } else if n <= 0xFFFF {
        2
    } else {
        4
    }
}

impl TicketPayload {
    /// Tells whether the store can keep both texts.
    pub fn fits(&self) -> (fits: bool)
        ensures
            fits == self@.fits(),
    {
        match (text_bytes(&self.concert_name), text_bytes(&self.seat_number)) {
            (Some(first), Some(second)) => {
                ROW_FIXED_BYTES + length_size(first) + first + length_size(second) + second
                    <= MAX_ROW_BYTES
            },
            _ => false,
        }
    }

    /// Checks the payload: both texts non-empty and the price positive.
    pub fn validate(&self) -> (checked: Result<(), InvalidReason>)
        ensures
            checked.is_ok() == self@.is_valid(),
            checked.is_err() ==> self@.invalid_reason() == Some(checked->Err_0),
    {
        if self.concert_name.as_str().is_empty() {
            Err(InvalidReason::EmptyConcertName)
        } else if self.seat_number.as_str().is_empty() {
            Err(InvalidReason::EmptySeatNumber)
        } else if !is_positive_price(self.price_bits) {
            Err(InvalidReason::NonPositivePrice)
        } else {
            Ok(())
        }
    }
}

/// The value of an operation's result: the ticket by its view.
pub open spec fn outcome_view(r: Result<Ticket, Error>) -> Result<TicketView, Error> {
    match r {
        Ok(t) => Ok(t@),
        Err(e) => Err(e),
    }
}

} // verus!
