//! Error type of the bindings, the provider-error slot and the decimal
//! rendering used for numeric FFI error codes.

use vstd::prelude::*;

verus! {

/// The character of a decimal digit `d` (`0 <= d < 10`).
pub open spec fn digit_char(d: nat) -> char {
    (48 + d) as char
}

/// Decimal digits of a natural number, most significant first, without
/// leading zeros (zero itself is `"0"`).
pub open spec fn nat_decimal(n: nat) -> Seq<char>
    decreases n,
{
    if n < 10 {
        seq![digit_char(n)]
    } else {
        nat_decimal(n / 10).push(digit_char(n % 10))
    }
}

/// Decimal rendering of an integer, with a leading `-` for negatives.
pub open spec fn int_decimal(i: int) -> Seq<char> {
    if i < 0 {
        seq!['-'] + nat_decimal((-i) as nat)
    } else {
        nat_decimal(i as nat)
    }
}

/// The one-character string of a decimal digit.
fn digit_str(d: u64) -> (s: &'static str)
    requires
        d < 10,
    ensures
        s@ == seq![digit_char(d as nat)],
{
    proof {
        reveal_strlit("0");
        reveal_strlit("1");
        reveal_strlit("2");
        reveal_strlit("3");
        reveal_strlit("4");
        reveal_strlit("5");
        reveal_strlit("6");
        reveal_strlit("7");
        reveal_strlit("8");
        reveal_strlit("9");
    }
    match d {
        0 => "0",
        1 => "1",
        2 => "2",
        3 => "3",
        4 => "4",
        5 => "5",
        6 => "6",
        7 => "7",
        8 => "8",
        _ => "9",
    }
}

/// Appends the decimal digits of `n` to `s`.
fn push_decimal(s: &mut String, n: u64)
    ensures
        final(s)@ == old(s)@ + nat_decimal(n as nat),
    decreases n,
{
    if n >= 10 {
        push_decimal(s, n / 10);
    }
    let d = digit_str(n % 10);
    s.append(d);
    proof {
        assert(old(s)@ + nat_decimal(n as nat) =~= if n >= 10 {
            old(s)@ + nat_decimal((n / 10) as nat) + seq![digit_char((n % 10) as nat)]
        } else {
            old(s)@ + seq![digit_char(n as nat)]
        });
    }
}

/// Renders `n` in decimal, e.g. `42` as `"42"`.
pub fn u64_to_decimal(n: u64) -> (s: String)
    ensures
        s@ == nat_decimal(n as nat),
{
    let mut s = String::new();
    push_decimal(&mut s, n);
    s
}

/// Renders `code` in decimal, e.g. `-12` as `"-12"`.
pub fn i32_to_decimal(code: i32) -> (s: String)
    ensures
        s@ == int_decimal(code as int),
{
    let mut s = String::new();
    if code < 0 {
        proof {
            reveal_strlit("-");
        }
        s.append("-");
        let magnitude: u64 = (0i64 - (code as i64)) as u64;
        push_decimal(&mut s, magnitude);
    } else {
        push_decimal(&mut s, code as u64);
    }
    s
}

/// Errors produced by safe-wrapper constructors and parsers.
#[derive(Debug, Clone)]
#[non_exhaustive]
pub enum Error {
    /// A finite real value was required, but the input was NaN or infinite.
    NotFinite,
    /// A string or name could not be parsed into the requested type.
    Parse,
    /// A SuperNOVAS or supporting C library call returned a non-zero status;
    /// the text is the captured description of the failure.
    Ffi(String),
    /// The requested operation is not supported for the given coordinate
    /// system (e.g. converting ITRS coordinates to ecliptic).
    UnsupportedSystem,
    /// Loading or installing a planetary ephemeris failed.
    Ephemeris,
    /// An input lay outside the range the operation accepts; the text names
    /// what was out of range.
    OutOfRange(&'static str),
    /// The operation needs an observer that the frame does not have (e.g.
    /// a local horizon for a geocentric observer).
    UnsupportedObserver,
}

/// The human-readable description of each error, as its `Display` renders it.
pub open spec fn error_message(e: Error) -> Seq<char> {
    match e {
        Error::NotFinite => "value was not finite"@,
        Error::Parse => "parse error"@,
        Error::Ffi(desc) => desc@,
        Error::UnsupportedSystem => "unsupported coordinate system for this operation"@,
        Error::Ephemeris => "ephemeris error"@,
        Error::OutOfRange(what) => what@,
        Error::UnsupportedObserver => "unsupported observer for this operation"@,
    }
}

/// The text an `Ffi` error carries when no description was captured.
pub open spec fn ffi_fallback_message(code: int) -> Seq<char> {
    "FFI error (code "@ + int_decimal(code) + ")"@
}

impl Error {
    /// The human-readable description of this error.
    pub fn message(&self) -> (s: String)
        ensures
            s@ == error_message(*self),
    {
        match self {
            Error::NotFinite => String::from_str("value was not finite"),
            Error::Parse => String::from_str("parse error"),
            Error::Ffi(desc) => desc.clone(),
            Error::UnsupportedSystem => String::from_str(
                "unsupported coordinate system for this operation",
            ),
            Error::Ephemeris => String::from_str("ephemeris error"),
            Error::OutOfRange(what) => String::from_str(what),
            Error::UnsupportedObserver => String::from_str(
                "unsupported observer for this operation",
            ),
        }
    }

    /// Build an `Ffi` error for the non-zero status `code`.
    ///
    /// Drains the description captured in `slot`; falls back to
    /// `"FFI error (code N)"` when nothing was captured.
    pub fn ffi(code: i32, slot: &mut ProviderErrorSlot) -> (e: Error)
        ensures
            final(slot)@ == slot_after_take(),
            e matches Error::Ffi(desc) && desc@ == ffi_description(old(slot)@, code as int),
    {
        match take_provider_error(slot) {
            Some(desc) => Error::Ffi(desc),
            None => {
                let mut desc = String::from_str("FFI error (code ");
                let digits = i32_to_decimal(code);
                desc.append(digits.as_str());
                desc.append(")");
                Error::Ffi(desc)
            },
        }
    }
}

/// The contents of a slot after a description `msg` is stored in it.
pub open spec fn slot_after_set(msg: Seq<char>) -> Option<Seq<char>> {
    Some(msg)
}

/// The contents of a slot after it is drained.
pub open spec fn slot_after_take() -> Option<Seq<char>> {
    None
}

/// What draining a slot with contents `contents` hands back.
pub open spec fn taken_from(contents: Option<Seq<char>>) -> Option<Seq<char>> {
    contents
}

/// The description of an `Ffi` error built for `code` from a slot with
/// contents `contents`: the captured description, else the fallback text.
pub open spec fn ffi_description(contents: Option<Seq<char>>, code: int) -> Seq<char> {
    match contents {
        Some(msg) => msg,
        None => ffi_fallback_message(code),
    }
}

/// The text of an optional string.
pub open spec fn string_option_view(o: Option<String>) -> Option<Seq<char>> {
    match o {
        Some(s) => Some(s@),
        None => None,
    }
}

/// The most recent human-readable error description, if any.
///
/// Filled by an ephemeris callback or by the C library's error handler,
/// and drained by [`take_provider_error`] and [`Error::ffi`].
pub struct ProviderErrorSlot {
    msg: Option<String>,
}

impl View for ProviderErrorSlot {
    type V = Option<Seq<char>>;

    closed spec fn view(&self) -> Option<Seq<char>> {
        match self.msg {
            Some(m) => Some(m@),
            None => None,
        }
    }
}

impl ProviderErrorSlot {
    /// An empty slot.
    pub fn new() -> (slot: ProviderErrorSlot)
        ensures
            slot@ is None,
    {
        ProviderErrorSlot { msg: None }
    }
}

/// Store a descriptive error message, replacing any earlier one.
pub fn set_provider_error(slot: &mut ProviderErrorSlot, msg: &str)
    ensures
        final(slot)@ == slot_after_set(msg@),
{
    slot.msg = Some(String::from_str(msg));
}

/// Retrieve and clear the most recent error description, if any.
pub fn take_provider_error(slot: &mut ProviderErrorSlot) -> (taken: Option<String>)
    ensures
        final(slot)@ == slot_after_take(),
        string_option_view(taken) == taken_from(old(slot)@),
{
    let taken = slot.msg.take();
    taken
}

/// What is stored is what the next drain hands back, and a drained slot
/// hands back nothing: storing `msg` and draining twice yields `Some(msg)`,
/// then `None`.
pub proof fn law_take_returns_last_set(msg: Seq<char>)
    ensures
        taken_from(slot_after_set(msg)) == Some(msg),
        taken_from(slot_after_take()) is None,
{
}

/// An `Ffi` error carries the captured description and drains it, so the
/// next `Ffi` error falls back to `"FFI error (code N)"` for its own code.
pub proof fn law_ffi_drains_description(msg: Seq<char>, first_code: int, second_code: int)
    ensures
        ffi_description(slot_after_set(msg), first_code) == msg,
        ffi_description(slot_after_take(), second_code) == ffi_fallback_message(second_code),
        ffi_fallback_message(second_code).subrange(16, 16 + int_decimal(second_code).len() as int)
            =~= int_decimal(second_code),
{
    reveal_strlit("FFI error (code ");
    assert(ffi_fallback_message(second_code) =~= "FFI error (code "@ + int_decimal(second_code)
        + ")"@);
}

/// The value of a string of decimal digits, most significant first.
pub open spec fn decimal_value(digits: Seq<char>) -> int
    decreases digits.len(),
{
    if digits.len() == 0 {
        0
    } else {
        decimal_value(digits.drop_last()) * 10 + (digits.last() as int - 48)
    }
}

/// The decimal rendering of a natural number reads back as that number.
pub proof fn law_decimal_reads_back(n: nat)
    ensures
        decimal_value(nat_decimal(n)) == n,
    decreases n,
{
    let s = nat_decimal(n);
    lemma_digit_char_value(n % 10);
    if n >= 10 {
        law_decimal_reads_back(n / 10);
        assert(s.drop_last() =~= nat_decimal(n / 10));
        assert(s.last() == digit_char(n % 10));
        assert(decimal_value(s) == decimal_value(s.drop_last()) * 10 + (s.last() as int - 48));
    } else {
        assert(s.drop_last() =~= Seq::<char>::empty());
        assert(decimal_value(s.drop_last()) == 0);
        assert(s.last() == digit_char(n));
    }
}

proof fn lemma_digit_char_value(d: nat)
    requires
        d < 10,
    ensures
        digit_char(d) as int == 48 + d,
{
}

} // verus!
