//! The conditions that the adapters raise, the numbers that the codec
//! engine knows them by, and the text of a fatal error.
use vstd::prelude::*;
use vstd::slice::slice_subrange;
use vstd::string::StringExecFns;
use crate::engine::{jerr_buffer_size, jerr_file_read, jerr_file_write, jerr_virtual_bug, jwrn_jpeg_eof};

pub use mozjpeg_sys::jpeg_error_mgr as ErrorMgr;

verus! {

/// A condition that ends the operation in progress. Whoever drives the
/// engine hands it to the engine's error exit, which does not return.
#[derive(Copy, Clone, Debug, PartialEq, Eq, Structural)]
pub enum Fatal {
    /// The cursor claims more free space than the buffer has.
    BufferSize,
    /// The underlying reader failed.
    FileRead,
    /// The underlying writer failed, in a write or in a flush.
    FileWrite,
    /// A source callback was reached through something that is no source
    /// adapter.
    VirtualBug,
    /// A call on an adapter that is no longer live, or for the result of
    /// a compression that was not finished.
    Dangling,
}

/// A condition that is reported and does not stop the operation.
#[derive(Copy, Clone, Debug, PartialEq, Eq, Structural)]
pub enum Warning {
    /// The input ended before the image did.
    JpegEof,
}

impl Fatal {
    /// The engine's message code of the condition; a poisoned adapter has
    /// none.
    pub open spec fn spec_code(self) -> Option<i32> {
        match self {
            Fatal::BufferSize => Some(23i32),
            Fatal::FileRead => Some(36i32),
            Fatal::FileWrite => Some(37i32),
            Fatal::VirtualBug => Some(69i32),
            Fatal::Dangling => None,
        }
    }

    /// The engine's message code of the condition; a poisoned adapter has
    /// none.
    pub fn code(self) -> (code: Option<i32>)
        ensures
            code == self.spec_code(),
    {
        match self {
            Fatal::BufferSize => Some(jerr_buffer_size()),
            Fatal::FileRead => Some(jerr_file_read()),
            Fatal::FileWrite => Some(jerr_file_write()),
            Fatal::VirtualBug => Some(jerr_virtual_bug()),
            Fatal::Dangling => None,
        }
    }
}

impl Warning {
    /// The engine's message code of the condition.
    pub open spec fn spec_code(self) -> i32 {
        match self {
            Warning::JpegEof => 120,
        }
    }

    /// The engine's message code of the condition.
    pub fn code(self) -> (code: i32)
        ensures
            code == self.spec_code(),
    {
        match self {
            Warning::JpegEof => jwrn_jpeg_eof(),
        }
    }
}

/// The text that `String::from_utf8_lossy` makes of bytes: valid UTF-8 is
/// kept, and each invalid sequence becomes U+FFFD.
pub uninterp spec fn lossy_text(bytes: Seq<u8>) -> Seq<char>;

/// `String::from_utf8_lossy`, with the result copied into a `String`.
#[verifier::external_body]
fn from_utf8_lossy(bytes: &[u8]) -> (text: String)
    ensures
        text@ == lossy_text(bytes@),
{
    String::from_utf8_lossy(bytes).into_owned()
}

/// The decimal digits of `n`, the last digit first.
pub open spec fn digits_from_last(n: nat) -> Seq<u8>
    decreases n,
{
    if n < 10 {
        seq![n as u8]
    } else {
        seq![(n % 10) as u8] + digits_from_last(n / 10)
    }
}

/// The character of a decimal digit.
pub open spec fn digit_char(digit: u8) -> char {
    if digit == 0 {
        '0'
    } else if digit == 1 {
        '1'
    } else if digit == 2 {
        '2'
    } else if digit == 3 {
        '3'
    } else if digit == 4 {
        '4'
    } else if digit == 5 {
        '5'
    } else if digit == 6 {
        '6'
    } else if digit == 7 {
        '7'
    } else if digit == 8 {
        '8'
    } else {
        '9'
    }
}

/// The number `n` written in decimal, without leading zeros.
pub open spec fn decimal(n: nat) -> Seq<char> {
    let digits = digits_from_last(n);
    Seq::new(digits.len(), |i: int| digit_char(digits[digits.len() - 1 - i]))
}

/// The text `code N` for a message code `N` written in decimal, with a
/// minus sign if it is negative.
pub open spec fn code_label(code: i32) -> Seq<char> {
    if code < 0 {
        "code -"@ + decimal((-code) as nat)
    } else {
        "code "@ + decimal(code as nat)
    }
}

fn digit_text(digit: u8) -> (text: &'static str)
    requires
        digit < 10,
    ensures
        text@ == seq![digit_char(digit)],
{
    proof {
        reveal_strlit("0");
        reveal_strlit("1");
        reveal_strlit("2");
        reveal_strlit("3");
        reveal_strlit("4");
        reveal_strlit("5");
        reveal_strlit("6");
        reveal_strlit("7");
        reveal_strlit("8");
        reveal_strlit("9");
    }
    let text = if digit == 0 {
        "0"
    } else if digit == 1 {
        "1"
    } else if digit == 2 {
        "2"
    } else if digit == 3 {
        "3"
    } else if digit == 4 {
        "4"
    } else if digit == 5 {
        "5"
    } else if digit == 6 {
        "6"
    } else if digit == 7 {
        "7"
    } else if digit == 8 {
        "8"
    } else {
        "9"
    };
    assert(text@ =~= seq![digit_char(digit)]);
    text
}

/// The word `code` and a message code in decimal.
fn code_label_text(code: i32) -> (text: String)
    ensures
        text@ == code_label(code),
{
    let mut text = if code < 0 {
        String::from_str("code -")
    } else {
        String::from_str("code ")
    };
    let magnitude: u64 = if code < 0 {
        (-(code as i64)) as u64
    } else {
        code as u64
    };
    let mut digits: Vec<u8> = Vec::new();
    let mut rest: u64 = magnitude;
    while rest >= 10
        invariant
            digits_from_last(magnitude as nat) == digits@ + digits_from_last(rest as nat),
            forall|i: int| 0 <= i < digits@.len() ==> digits@[i] < 10,
        decreases rest,
    {
        digits.push((rest % 10) as u8);
        assert(digits@ + digits_from_last((rest / 10) as nat) =~= digits@.drop_last() + (seq![
            (rest % 10) as u8,
        ] + digits_from_last((rest / 10) as nat)));
        rest = rest / 10;
    }
    digits.push(rest as u8);
    assert(digits@ =~= digits_from_last(magnitude as nat));
    let ghost prefix = text@;
    let len = digits.len();
    let mut written: usize = 0;
    while written < len
        invariant
            written <= len,
            len == digits@.len(),
            forall|i: int| 0 <= i < digits@.len() ==> digits@[i] < 10,
            text@ == prefix + Seq::new(
                written as nat,
                |i: int| digit_char(digits@[digits@.len() - 1 - i]),
            ),
        decreases len - written,
    {
        text.append(digit_text(digits[len - 1 - written]));
        written += 1;
        assert(text@ =~= prefix + Seq::new(
            written as nat,
            |i: int| digit_char(digits@[digits@.len() - 1 - i]),
        ));
    }
    assert(text@ =~= prefix + decimal(magnitude as nat));
    text
}

/// The part of `buffer` before its first zero byte, or all of it if it has
/// none.
pub open spec fn before_nul(buffer: Seq<u8>) -> Seq<u8>
    decreases buffer.len(),
{
    if buffer.len() == 0 || buffer[0] == 0 {
        Seq::empty()
    } else {
        seq![buffer[0]] + before_nul(buffer.drop_first())
    }
}

/// `before_nul` is the longest prefix without a zero byte.
pub proof fn lemma_before_nul(buffer: Seq<u8>, n: int)
    requires
        0 <= n <= buffer.len(),
        forall|i: int| 0 <= i < n ==> buffer[i] != 0,
        n == buffer.len() || buffer[n] == 0,
    ensures
        before_nul(buffer) == buffer.take(n),
    decreases buffer.len(),
{
    if n == 0 {
        assert(buffer.take(0) =~= Seq::<u8>::empty());
    } else {
        let rest = buffer.drop_first();
        assert forall|i: int| 0 <= i < n - 1 implies rest[i] != 0 by {
            assert(rest[i] == buffer[i + 1]);
        }
        lemma_before_nul(rest, n - 1);
        assert(buffer.take(n) =~= seq![buffer[0]] + rest.take(n - 1));
    }
}

/// What a fatal error says: `prefix`, then the engine's own message where
/// it has formatted one, or else the message's code.
pub open spec fn message_text(prefix: Seq<char>, formatted: Option<Seq<u8>>, msg_code: i32) -> Seq<
    char,
> {
    match formatted {
        Some(buffer) => prefix + lossy_text(before_nul(buffer)),
        None => prefix + code_label(msg_code),
    }
}

/// `prefix`, and after it `message`.
pub fn prefixed(prefix: &str, message: &str) -> (text: String)
    ensures
        text@ == prefix@ + message@,
{
    let out = String::from_str(prefix);
    out.concat(message)
}

/// Builds the text of a fatal error from what the engine's error manager
/// holds: the buffer that its formatting handler filled, if it has such a
/// handler, and the code of the message.
pub fn formatted_message(prefix: &str, formatted: Option<&[u8]>, msg_code: i32) -> (text: String)
    ensures
        text@ == message_text(
            prefix@,
            match formatted {
                Some(buffer) => Some(buffer@),
                None => None,
            },
            msg_code,
        ),
{
    match formatted {
        Some(buffer) => {
            let mut n: usize = 0;
            while n < buffer.len() && buffer[n] != 0
                invariant
                    n <= buffer@.len(),
                    forall|i: int| 0 <= i < n ==> buffer@[i] != 0,
                decreases buffer@.len() - n,
            {
                n += 1;
            }
            proof {
                lemma_before_nul(buffer@, n as int);
            }
            let msg = from_utf8_lossy(slice_subrange(buffer, 0, n));
            prefixed(prefix, msg.as_str())
        },
        None => {
            let label = code_label_text(msg_code);
            prefixed(prefix, label.as_str())
        },
    }
}

} // verus!
