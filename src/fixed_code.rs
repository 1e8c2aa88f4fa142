//! Settings of the fixed-code server, which answers every request with
//! one status code and an empty body.
use vstd::prelude::*;
use crate::text::chars_of;

verus! {

/// The port listened on where none is given.
pub const DEFAULT_PORT: u16 = 8000;

/// The status code answered where none is given.
pub const DEFAULT_CODE: u16 = 200;

/// `c` is one of the ASCII digits `0` to `9`.
pub open spec fn is_digit(c: char) -> bool {
    0x30 <= c as u32 && c as u32 <= 0x39
}

/// The number that the decimal digits `s` write, most significant first.
pub open spec fn decimal_value(s: Seq<char>) -> nat
    decreases s.len(),
{
    if s.len() == 0 {
        0
    } else {
        decimal_value(s.drop_last()) * 10 + (s.last() as u32 - 0x30) as nat
    }
}

/// The digits of `s`, after one leading `+` if there is one.
pub open spec fn unsigned_digits(s: Seq<char>) -> Seq<char> {
    if s.len() > 0 && s[0] == '+' {
        s.drop_first()
    } else {
        s
    }
}

/// The unsigned 16-bit integer that `s` writes in decimal, as Rust's
/// integer parsing reads it: an optional `+`, then one digit or more, and
/// a value that fits.
pub open spec fn u16_of(s: Seq<char>) -> Option<u16> {
    let d = unsigned_digits(s);
    if d.len() > 0 && (forall|i: int| 0 <= i < d.len() ==> is_digit(#[trigger] d[i]))
        && decimal_value(d) <= u16::MAX {
        Some(decimal_value(d) as u16)
    } else {
        None
    }
}

/// The setting given as `text`, or `default` where none is given; `None`
/// where a text is given that is no unsigned 16-bit integer.
pub open spec fn setting_of(text: Option<&str>, default: u16) -> Option<u16> {
    match text {
        None => Some(default),
        Some(t) => u16_of(t@),
    }
}

/// Reads an unsigned 16-bit integer written in decimal.
pub fn parse_u16(text: &str) -> (r: Option<u16>)
    ensures
        r == u16_of(text@),
{
    let chars = chars_of(text);
    let n = chars.len();
    let start: usize = if n > 0 && chars[0] == '+' {
        1
    } else {
        0
    };
    let ghost d = unsigned_digits(text@);
    assert(d == chars@.subrange(start as int, n as int));
    if start == n {
        return None;
    }
    let mut acc: u32 = 0;
    let mut i: usize = start;
    while i < n
        invariant
            start <= i <= n,
            n == chars@.len(),
            d == chars@.subrange(start as int, n as int),
            d == unsigned_digits(text@),
            forall|k: int| 0 <= k < i - start ==> is_digit(#[trigger] d[k]),
            acc <= 655359,
            acc <= u16::MAX ==> acc == decimal_value(d.subrange(0, i - start)),
            acc > u16::MAX ==> decimal_value(d.subrange(0, i - start)) > u16::MAX,
        decreases n - i,
    {
        let c = chars[i];
        if !((c as u32) >= 0x30 && (c as u32) <= 0x39) {
            assert(d[i - start] == c);
            assert(!is_digit(d[i - start]));
            return None;
        }
        let ghost before = d.subrange(0, i - start);
        let ghost after = d.subrange(0, i - start + 1);
        assert(after.drop_last() == before);
        assert(after.last() == c);
        if acc <= 65535 {
            acc = acc * 10 + (c as u32 - 0x30);
        }
        i = i + 1;
    }
    assert(d.subrange(0, n - start) == d);
    if acc <= 65535 {
        Some(acc as u16)
    } else {
        None
    }
}

/// Why the fixed-code settings could not be read.
#[derive(Debug, Clone, Copy, PartialEq, Eq)]
pub enum SettingError {
    /// The port is given but is no unsigned 16-bit integer.
    Port,
    /// The status code is given but is no unsigned 16-bit integer.
    Code,
}

/// The port to listen on and the status code to answer with.
#[derive(Debug, Clone, Copy, PartialEq, Eq)]
pub struct FixedCodeSettings {
    pub port: u16,
    pub code: u16,
}

/// Reads the settings of the fixed-code server from the texts given for
/// the port and the status code, each defaulting where absent. A malformed
/// port is reported before a malformed code.
pub fn fixed_code_settings(port: Option<&str>, code: Option<&str>) -> (r: Result<
    FixedCodeSettings,
    SettingError,
>)
    ensures
        ({
            let p = setting_of(port, DEFAULT_PORT);
            let c = setting_of(code, DEFAULT_CODE);
            match r {
                Ok(s) => p == Some(s.port) && c == Some(s.code),
                Err(SettingError::Port) => p is None,
                Err(SettingError::Code) => p is Some && c is None,
            }
        }),
{
    let port = match port {
        None => DEFAULT_PORT,
        Some(t) => match parse_u16(t) {
            Some(v) => v,
            None => return Err(SettingError::Port),
        },
    };
    let code = match code {
        None => DEFAULT_CODE,
        Some(t) => match parse_u16(t) {
            Some(v) => v,
            None => return Err(SettingError::Code),
        },
    };
    Ok(FixedCodeSettings { port, code })
}

} // verus!
