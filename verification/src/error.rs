//! The errors that the construction of classes and windows reports.

use vstd::prelude::*;
use vstd::string::*;

verus! {

/// What can go wrong at the boundary to the native subsystem.
#[derive(Clone, Copy, PartialEq, Eq, Structural, Debug)]
pub enum Error {
    /// The native subsystem rejected the registration of a window class.
    RegisterClassFailed,
    /// The native creation call returned an invalid window handle.
    WindowCreationFailed,
    /// A failure code of the native subsystem.
    Hresult(i32),
}

/// The digit of `value` in base sixteen, for `value` below sixteen.
pub open spec fn hex_digit(value: int) -> char {
    seq!['0', '1', '2', '3', '4', '5', '6', '7', '8', '9', 'a', 'b', 'c', 'd', 'e', 'f'][value]
}

/// `value` in base sixteen, in lower case, without leading zeros.
pub open spec fn hex_digits(value: nat) -> Seq<char>
    decreases value,
{
    if value < 16 {
        seq![hex_digit(value as int)]
    } else {
        hex_digits(value / 16).push(hex_digit((value % 16) as int))
    }
}

/// The 32 bits of `code`, read as an unsigned number.
pub open spec fn code_bits(code: i32) -> nat {
    if code >= 0 {
        code as nat
    } else {
        (code + 0x1_0000_0000) as nat
    }
}

/// The 32 bits of `code`, read as an unsigned number.
fn bits_of(code: i32) -> (bits: u32)
    ensures
        bits == code_bits(code),
{
    if code >= 0 {
        code as u32
    } else {
        (code as i64 + 0x1_0000_0000) as u32
    }
}

/// Appends `value` in base sixteen to `text`.
fn push_hex(text: &mut String, value: u32)
    ensures
        final(text)@ == old(text)@ + hex_digits(value as nat),
    decreases value,
{
    if value >= 16 {
        push_hex(text, value / 16);
    }
    let place: usize = (value % 16) as usize;
    let digits = "0123456789abcdef";
    proof {
        reveal_strlit("0123456789abcdef");
    }
    let digit = digits.substring_char(place, place + 1);
    assert(digit@ =~= seq![hex_digit(place as int)]);
    text.append(digit);
    proof {
        if value >= 16 {
            assert(final(text)@ =~= old(text)@ + hex_digits((value / 16) as nat).push(
                hex_digit(place as int),
            ));
        }
    }
}

impl Error {
    /// The text that names this error.
    pub open spec fn text(self) -> Seq<char> {
        match self {
            Error::RegisterClassFailed => "RegisterClass failed"@,
            Error::WindowCreationFailed => "CreateWindow failed"@,
            Error::Hresult(code) => "HRESULT 0x"@ + hex_digits(code_bits(code)),
        }
    }

    /// The text that names this error: which of the two constructions
    /// failed, or the failure code in base sixteen.
    pub fn message(&self) -> (text: String)
        ensures
            text@ == self.text(),
    {
        match self {
            Error::RegisterClassFailed => String::from_str("RegisterClass failed"),
            Error::WindowCreationFailed => String::from_str("CreateWindow failed"),
            Error::Hresult(code) => {
                let mut text = String::from_str("HRESULT 0x");
                push_hex(&mut text, bits_of(*code));
                text
            },
        }
    }
}

} // verus!
