//! The two startup settings, read from their command-line text.
use vstd::prelude::*;
use vstd::string::*;

verus! {

/// Port used when the given one cannot be read.
pub const DEFAULT_PORT: u16 = 30000;

/// True for the ASCII decimal digits.
pub open spec fn is_digit(c: char) -> bool {
    '0' <= c && c <= '9'
}

/// The value of a string of decimal digits, most significant first.
pub open spec fn digits_value(d: Seq<char>) -> nat
    decreases d.len(),
{
    if d.len() == 0 {
        0
    } else {
        digits_value(d.drop_last()) * 10 + (d.last() as nat - '0' as nat) as nat
    }
}

/// A `u16` written in decimal, with an optional leading `+`; `None` for
/// any other text, the empty one included, and for values over 65535.
pub open spec fn u16_of(s: Seq<char>) -> Option<u16> {
    let d = if s.len() > 0 && s[0] == '+' { s.drop_first() } else { s };
    if d.len() > 0 && (forall|i: int| 0 <= i < d.len() ==> is_digit(d[i])) && digits_value(d)
        <= 65535 {
        Some(digits_value(d) as u16)
    } else {
        None
    }
}

/// Relies on `<u16 as FromStr>::from_str`: an optional `+` followed by
/// decimal digits, whose value must fit in a `u16`.
#[verifier::external_body]
fn parse_u16(s: &str) -> (r: Option<u16>)
    ensures
        r == u16_of(s@),
{
    s.parse::<u16>().ok()
}

/// The startup settings, and which of them fell back to a default.
pub struct Settings {
    pub port: u16,
    pub hex_mode: bool,
    pub port_defaulted: bool,
    pub hex_defaulted: bool,
}

/// True when `s` is the single character `c`.
fn is_single(s: &str, c: char) -> (r: bool)
    ensures
        r == (s@ == seq![c]),
{
    if s.unicode_len() == 1 {
        let first = s.get_char(0);
        assert(first == c ==> s@ =~= seq![c]);
        first == c
    } else {
        false
    }
}

/// Reads the port number and the hex-mode flag (`t` or `f`). A port that is
/// not a `u16` becomes `DEFAULT_PORT`; a flag other than `t` or `f` becomes
/// off. Each fallback is reported.
pub fn settings_from(port_text: &str, hex_text: &str) -> (r: Settings)
    ensures
        r.port == (match u16_of(port_text@) {
            Some(p) => p,
            None => DEFAULT_PORT,
        }),
        r.port_defaulted == u16_of(port_text@) is None,
        r.hex_mode == (hex_text@ == seq!['t']),
        r.hex_defaulted == (hex_text@ != seq!['t'] && hex_text@ != seq!['f']),
{
    let (port, port_defaulted) = match parse_u16(port_text) {
        Some(p) => (p, false),
        None => (DEFAULT_PORT, true),
    };
    let on = is_single(hex_text, 't');
    let off = is_single(hex_text, 'f');
    Settings { port, hex_mode: on, port_defaulted, hex_defaulted: !on && !off }
}

} // verus!
