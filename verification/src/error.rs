//! The typed error surfaced by the native platform layer.
//!
//! A failing native call leaves a numeric error code behind; the driver may
//! also resolve that code to a human-readable message. Either form travels
//! through the library as a [`WindowsError`].

use crate::winstr::chars_to_string;
use vstd::prelude::*;
use vstd::string::StringExecFns;
use vstd::utf8::char_u32_cast;

verus! {

/// The native error context attached to a failed platform call: the raw
/// error code, or the message the platform resolved it to.
#[derive(Debug)]
pub enum WindowsError {
    Code(u32),
    Msg(String),
}

impl Clone for WindowsError {
    /// A clone carries the same error context.
    fn clone(&self) -> (r: WindowsError)
        ensures
            r == self,
    {
        match self {
            WindowsError::Code(c) => WindowsError::Code(*c),
            WindowsError::Msg(m) => WindowsError::Msg(m.clone()),
        }
    }
}

/// The character for one hexadecimal digit, upper case.
pub open spec fn hex_digit(d: nat) -> char {
    if d < 10 {
        ((('0' as u32) + d) as u32) as char
    } else {
        ((('A' as u32) + (d - 10)) as u32) as char
    }
}

/// The upper-case hexadecimal digits of `n`, most significant first.
pub open spec fn hex_of(n: nat) -> Seq<char>
    decreases n,
{
    if n < 16 {
        seq![hex_digit(n)]
    } else {
        hex_of(n / 16).push(hex_digit(n % 16))
    }
}

/// What [`WindowsError::describe`] returns for each variant.
pub open spec fn describe_spec(e: &WindowsError) -> Seq<char> {
    match e {
        WindowsError::Code(c) => "Windows error code: "@ + hex_of(*c as nat),
        WindowsError::Msg(m) => "Windows error: \""@ + m@ + "\""@,
    }
}

/// Appends the upper-case hexadecimal digits of `n` to `out`.
fn push_hex(n: u32, out: &mut Vec<char>)
    ensures
        final(out)@ == old(out)@ + hex_of(n as nat),
    decreases n,
{
    if n >= 16 {
        push_hex(n / 16, out);
    }
    let d = n % 16;
    let c = if d < 10 {
        char::from_u32('0' as u32 + d)
    } else {
        char::from_u32('A' as u32 + (d - 10))
    };
    let c = c.unwrap();
    proof {
        char_u32_cast(c, c as u32);
        assert(c == hex_digit(d as nat));
    }
    out.push(c);
    proof {
        assert(final(out)@ =~= old(out)@ + hex_of(n as nat));
    }
}

impl WindowsError {
    /// Wraps the outcome of resolving an error code to a message: the
    /// resolved message when resolution succeeded, else the code that
    /// resolution itself left behind.
    pub fn from_res(res: Result<String, u32>) -> (r: WindowsError)
        ensures
            res matches Ok(msg) ==> r == WindowsError::Msg(msg),
            res matches Err(code) ==> r == WindowsError::Code(code),
    {
        match res {
            Ok(msg) => WindowsError::Msg(msg),
            Err(code) => WindowsError::Code(code),
        }
    }

    /// A human-readable rendering: the message quoted, or the code in
    /// upper-case hexadecimal.
    pub fn describe(&self) -> (r: String)
        ensures
            r@ == describe_spec(self),
    {
        match self {
            WindowsError::Code(c) => {
                let mut digits: Vec<char> = Vec::new();
                push_hex(*c, &mut digits);
                let mut out = <String as StringExecFns>::from_str("Windows error code: ");
                let tail = chars_to_string(digits);
                out.append(tail.as_str());
                out
            },
            WindowsError::Msg(m) => {
                let mut out = <String as StringExecFns>::from_str("Windows error: \"");
                out.append(m.as_str());
                out.append("\"");
                out
            },
        }
    }
}

} // verus!
