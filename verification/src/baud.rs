//! Baud-rate selection. The bridge accepts only the conventional rates;
//! any other rate string is a startup-time configuration error, reported
//! before a device is ever opened.

use vstd::prelude::*;

use crate::bytes::bytes_eq;

verus! {

/// The conventional line rates the bridge can configure.
#[derive(Clone, Copy, PartialEq, Eq, Structural, Debug)]
pub enum BaudRate {
    Baud110,
    Baud300,
    Baud600,
    Baud1200,
    Baud2400,
    Baud4800,
    Baud9600,
    Baud19200,
    Baud38400,
    Baud57600,
    Baud115200,
}

/// Failure to select a rate: the given string is not one of the
/// conventional rates.
#[derive(Clone, Copy, PartialEq, Eq, Structural, Debug)]
pub enum BaudError {
    Unsupported,
}

/// The decimal digits (as bytes) that denote a rate.
pub open spec fn baud_digits(b: BaudRate) -> Seq<u8> {
    match b {
        BaudRate::Baud110 => seq![49u8, 49u8, 48u8],
        BaudRate::Baud300 => seq![51u8, 48u8, 48u8],
        BaudRate::Baud600 => seq![54u8, 48u8, 48u8],
        BaudRate::Baud1200 => seq![49u8, 50u8, 48u8, 48u8],
        BaudRate::Baud2400 => seq![50u8, 52u8, 48u8, 48u8],
        BaudRate::Baud4800 => seq![52u8, 56u8, 48u8, 48u8],
        BaudRate::Baud9600 => seq![57u8, 54u8, 48u8, 48u8],
        BaudRate::Baud19200 => seq![49u8, 57u8, 50u8, 48u8, 48u8],
        BaudRate::Baud38400 => seq![51u8, 56u8, 52u8, 48u8, 48u8],
        BaudRate::Baud57600 => seq![53u8, 55u8, 54u8, 48u8, 48u8],
        BaudRate::Baud115200 => seq![49u8, 49u8, 53u8, 50u8, 48u8, 48u8],
    }
}

/// What a rate string denotes: the rate whose digits it is, if any.
pub open spec fn spec_parse_baud(s: Seq<u8>) -> Option<BaudRate> {
    if s == baud_digits(BaudRate::Baud110) {
        Some(BaudRate::Baud110)
    } else if s == baud_digits(BaudRate::Baud300) {
        Some(BaudRate::Baud300)
    } else if s == baud_digits(BaudRate::Baud600) {
        Some(BaudRate::Baud600)
    } else if s == baud_digits(BaudRate::Baud1200) {
        Some(BaudRate::Baud1200)
    } else if s == baud_digits(BaudRate::Baud2400) {
        Some(BaudRate::Baud2400)
    } else if s == baud_digits(BaudRate::Baud4800) {
        Some(BaudRate::Baud4800)
    } else if s == baud_digits(BaudRate::Baud9600) {
        Some(BaudRate::Baud9600)
    } else if s == baud_digits(BaudRate::Baud19200) {
        Some(BaudRate::Baud19200)
    } else if s == baud_digits(BaudRate::Baud38400) {
        Some(BaudRate::Baud38400)
    } else if s == baud_digits(BaudRate::Baud57600) {
        Some(BaudRate::Baud57600)
    } else if s == baud_digits(BaudRate::Baud115200) {
        Some(BaudRate::Baud115200)
    } else {
        None
    }
}

/// The digits of a rate, as a runtime value.
pub fn baud_token(b: BaudRate) -> (v: Vec<u8>)
    ensures
        v@ == baud_digits(b),
{
    let v: Vec<u8> = match b {
        BaudRate::Baud110 => vec![49u8, 49u8, 48u8],
        BaudRate::Baud300 => vec![51u8, 48u8, 48u8],
        BaudRate::Baud600 => vec![54u8, 48u8, 48u8],
        BaudRate::Baud1200 => vec![49u8, 50u8, 48u8, 48u8],
        BaudRate::Baud2400 => vec![50u8, 52u8, 48u8, 48u8],
        BaudRate::Baud4800 => vec![52u8, 56u8, 48u8, 48u8],
        BaudRate::Baud9600 => vec![57u8, 54u8, 48u8, 48u8],
        BaudRate::Baud19200 => vec![49u8, 57u8, 50u8, 48u8, 48u8],
        BaudRate::Baud38400 => vec![51u8, 56u8, 52u8, 48u8, 48u8],
        BaudRate::Baud57600 => vec![53u8, 55u8, 54u8, 48u8, 48u8],
        BaudRate::Baud115200 => vec![49u8, 49u8, 53u8, 50u8, 48u8, 48u8],
    };
    proof {
        assert(v@ =~= baud_digits(b));
    }
    v
}

/// Select a rate from its decimal string, as given on the command line.
/// Exactly the eleven conventional rate strings succeed; everything else
/// is rejected, so a bad rate is caught before any device is opened.
pub fn parse_baud_rate(s: &[u8]) -> (r: Result<BaudRate, BaudError>)
    ensures
        spec_parse_baud(s@) matches Some(b) ==> r == Ok::<BaudRate, BaudError>(b),
        spec_parse_baud(s@) is None ==> r == Err::<BaudRate, BaudError>(BaudError::Unsupported),
{
    if bytes_eq(s, baud_token(BaudRate::Baud110).as_slice()) {
        Ok(BaudRate::Baud110)
    } else if bytes_eq(s, baud_token(BaudRate::Baud300).as_slice()) {
        Ok(BaudRate::Baud300)
    } else if bytes_eq(s, baud_token(BaudRate::Baud600).as_slice()) {
        Ok(BaudRate::Baud600)
    } else if bytes_eq(s, baud_token(BaudRate::Baud1200).as_slice()) {
        Ok(BaudRate::Baud1200)
    } else if bytes_eq(s, baud_token(BaudRate::Baud2400).as_slice()) {
        Ok(BaudRate::Baud2400)
    } else if bytes_eq(s, baud_token(BaudRate::Baud4800).as_slice()) {
        Ok(BaudRate::Baud4800)
    } else if bytes_eq(s, baud_token(BaudRate::Baud9600).as_slice()) {
        Ok(BaudRate::Baud9600)
    } else if bytes_eq(s, baud_token(BaudRate::Baud19200).as_slice()) {
        Ok(BaudRate::Baud19200)
    } else if bytes_eq(s, baud_token(BaudRate::Baud38400).as_slice()) {
        Ok(BaudRate::Baud38400)
    } else if bytes_eq(s, baud_token(BaudRate::Baud57600).as_slice()) {
        Ok(BaudRate::Baud57600)
    } else if bytes_eq(s, baud_token(BaudRate::Baud115200).as_slice()) {
        Ok(BaudRate::Baud115200)
    } else {
        Err(BaudError::Unsupported)
    }
}

} // verus!
