//! NUL-terminated UTF-16 strings, the form the native window layer takes.
//!
//! A [`WinString`] owns a buffer of UTF-16 code units whose last unit is
//! always 0. Encoding from `str` and lossy decoding back are written out
//! here and verified against the specification functions [`utf16_encode`]
//! and [`utf16_decode_lossy`]; [`lemma_utf16_round_trip`] proves that
//! decoding an encoded string gives the original characters back.

use vstd::arithmetic::div_mod::lemma_fundamental_div_mod;
use vstd::prelude::*;
use vstd::string::StrSliceExecFns;
use vstd::utf8::{char_is_scalar, char_u32_cast};

verus! {

/// A unit that begins a surrogate pair.
pub open spec fn is_high_surrogate(u: u16) -> bool {
    0xD800 <= u < 0xDC00
}

/// A unit that ends a surrogate pair.
pub open spec fn is_low_surrogate(u: u16) -> bool {
    0xDC00 <= u < 0xE000
}

/// The scalar value a surrogate pair stands for.
pub open spec fn combined_scalar(hi: u16, lo: u16) -> int {
    0x10000 + (hi - 0xD800) * 0x400 + (lo - 0xDC00)
}

/// The UTF-16 encoding of one character: its scalar value as a single unit,
/// or as a surrogate pair when it lies beyond the basic plane.
pub open spec fn utf16_encode_char(c: char) -> Seq<u16> {
    let u = c as u32;
    if u < 0x10000 {
        seq![u as u16]
    } else {
        seq![
            (0xD800 + (u - 0x10000) / 0x400) as u16,
            (0xDC00 + (u - 0x10000) % 0x400) as u16,
        ]
    }
}

/// The UTF-16 encoding of a character sequence.
pub open spec fn utf16_encode(s: Seq<char>) -> Seq<u16>
    decreases s.len(),
{
    if s.len() == 0 {
        Seq::empty()
    } else {
        utf16_encode_char(s[0]) + utf16_encode(s.drop_first())
    }
}

/// The character U+FFFD, standing in for undecodable units.
pub open spec fn replacement_char() -> char {
    '\u{FFFD}'
}

/// Lossy UTF-16 decoding: a non-surrogate unit is its own scalar, a high
/// surrogate followed by a low one is their combined scalar, and any
/// unpaired surrogate becomes the replacement character.
pub open spec fn utf16_decode_lossy(s: Seq<u16>) -> Seq<char>
    decreases s.len(),
{
    if s.len() == 0 {
        Seq::empty()
    } else if !is_high_surrogate(s[0]) && !is_low_surrogate(s[0]) {
        seq![(s[0] as u32) as char] + utf16_decode_lossy(s.drop_first())
    } else if is_high_surrogate(s[0]) && s.len() >= 2 && is_low_surrogate(s[1]) {
        seq![(combined_scalar(s[0], s[1]) as u32) as char] + utf16_decode_lossy(
            s.subrange(2, s.len() as int),
        )
    } else {
        seq![replacement_char()] + utf16_decode_lossy(s.drop_first())
    }
}

/// Relies on `char::from_u32` of the standard library: it returns `Some`
/// exactly for the Unicode scalar values (everything up to U+10FFFF except
/// the surrogate range), and the character it returns has the given value.
pub assume_specification[ char::from_u32 ](u: u32) -> (r: Option<char>)
    ensures
        r is Some <==> (u < 0xD800 || (0xE000 <= u && u <= 0x10FFFF)),
        r is Some ==> r->0 as u32 == u,
;

/// Relies on `String`'s `FromIterator<char>` implementation: collecting
/// characters yields the string of exactly those characters, in order.
#[verifier::external_body]
pub(crate) fn chars_to_string(chars: Vec<char>) -> (r: String)
    ensures
        r@ == chars@,
{
    String::from_iter(chars)
}

/// Encoding one more character appends that character's units.
pub proof fn lemma_utf16_encode_push(s: Seq<char>, c: char)
    ensures
        utf16_encode(s.push(c)) == utf16_encode(s) + utf16_encode_char(c),
    decreases s.len(),
{
    if s.len() == 0 {
        assert(s.push(c)[0] == c);
        assert(s.push(c).drop_first() =~= Seq::<char>::empty());
        assert(utf16_encode(Seq::<char>::empty()) == Seq::<u16>::empty());
        assert(utf16_encode(s.push(c)) == utf16_encode_char(c) + Seq::<u16>::empty());
        assert(utf16_encode(s.push(c)) =~= utf16_encode(s) + utf16_encode_char(c));
    } else {
        lemma_utf16_encode_push(s.drop_first(), c);
        assert(s.push(c)[0] == s[0]);
        assert(s.push(c).drop_first() =~= s.drop_first().push(c));
        assert(utf16_encode(s.push(c)) =~= utf16_encode(s) + utf16_encode_char(c));
    }
}

/// Decoding an encoded sequence restores the original characters: the
/// encoder emits no unpaired surrogate, so the lossy decoder never
/// substitutes the replacement character.
pub proof fn lemma_utf16_round_trip(s: Seq<char>)
    ensures
        utf16_decode_lossy(utf16_encode(s)) == s,
    decreases s.len(),
{
    if s.len() == 0 {
        assert(utf16_decode_lossy(utf16_encode(s)) =~= s);
    } else {
        let c = s[0];
        let u = c as u32;
        char_is_scalar(c);
        lemma_utf16_round_trip(s.drop_first());
        let rest = utf16_encode(s.drop_first());
        let whole = utf16_encode(s);
        if u < 0x10000 {
            assert(whole == seq![u as u16] + rest);
            assert(whole[0] == u as u16);
            assert(!is_high_surrogate(whole[0]) && !is_low_surrogate(whole[0]));
            char_u32_cast(c, u);
            assert((whole[0] as u32) as char == c);
            assert(whole.drop_first() =~= rest);
            assert(utf16_decode_lossy(whole) =~= s);
        } else {
            let v = (u - 0x10000) as int;
            lemma_fundamental_div_mod(v, 0x400);
            assert(0 <= v <= 0xFFFFF);
            assert(v / 0x400 <= 0x3FF) by {
                assert(v == 0x400 * (v / 0x400) + v % 0x400);
            }
            let hi = (0xD800 + v / 0x400) as u16;
            let lo = (0xDC00 + v % 0x400) as u16;
            assert(whole == seq![hi, lo] + rest);
            assert(whole[0] == hi && whole[1] == lo);
            assert(is_high_surrogate(hi) && is_low_surrogate(lo));
            assert(combined_scalar(hi, lo) == u) by {
                assert(v == 0x400 * (v / 0x400) + v % 0x400);
            }
            char_u32_cast(c, u);
            assert((combined_scalar(whole[0], whole[1]) as u32) as char == c);
            assert(whole.subrange(2, whole.len() as int) =~= rest);
            assert(utf16_decode_lossy(whole) =~= s);
        }
    }
}

/// A NUL-terminated buffer of UTF-16 code units.
///
/// The view is the whole unit sequence, terminator included; well-formedness
/// says the buffer ends in a 0 unit.
pub struct WinString {
    data: Vec<u16>,
}

impl View for WinString {
    type V = Seq<u16>;

    closed spec fn view(&self) -> Seq<u16> {
        self.data@
    }
}

impl WinString {
    /// The buffer always carries at least the terminating NUL unit.
    pub open spec fn well_formed(&self) -> bool {
        self@.len() >= 1 && self@.last() == 0
    }

    /// The units of `s`'s characters followed by the terminator.
    pub open spec fn encoding_of(s: Seq<char>) -> Seq<u16> {
        utf16_encode(s).push(0)
    }

    /// The empty native string: just the terminator.
    pub fn empty() -> (r: WinString)
        ensures
            r@ =~= Self::encoding_of(Seq::<char>::empty()),
            r.well_formed(),
    {
        let mut data: Vec<u16> = Vec::new();
        data.push(0);
        WinString { data }
    }

    /// Encodes `string` into a fresh NUL-terminated buffer.
    pub fn from_str(string: &str) -> (r: WinString)
        ensures
            r@ == Self::encoding_of(string@),
            r.well_formed(),
    {
        let mut winstr = Self::empty();
        winstr.replace(string);
        winstr
    }

    /// Replaces the content with the encoding of `string`, keeping the
    /// buffer NUL-terminated.
    pub fn replace(&mut self, string: &str)
        ensures
            final(self)@ == Self::encoding_of(string@),
            final(self).well_formed(),
    {
        self.data.clear();
        let n = string.unicode_len();
        let mut i: usize = 0;
        while i < n
            invariant
                i <= n,
                n == string@.len(),
                self.data@ == utf16_encode(string@.subrange(0, i as int)),
            decreases n - i,
        {
            let c = string.get_char(i);
            proof {
                char_is_scalar(c);
                lemma_utf16_encode_push(string@.subrange(0, i as int), c);
                assert(string@.subrange(0, i as int).push(c) =~= string@.subrange(
                    0,
                    i as int + 1,
                ));
            }
            let u = c as u32;
            if u < 0x10000 {
                self.data.push(u as u16);
            } else {
                let v = u - 0x10000;
                proof {
                    lemma_fundamental_div_mod(v as int, 0x400);
                    assert(v / 0x400 <= 0x3FF) by {
                        assert(v as int == 0x400 * (v as int / 0x400) + v as int % 0x400);
                    }
                }
                self.data.push(0xD800 + (v / 0x400) as u16);
                self.data.push(0xDC00 + (v % 0x400) as u16);
                proof {
                    assert(self.data@ =~= utf16_encode(string@.subrange(0, i as int + 1)));
                }
            }
            i = i + 1;
        }
        proof {
            assert(string@.subrange(0, n as int) =~= string@);
        }
        self.data.push(0);
    }

    /// The backing code units, terminator included; the native layer takes
    /// the buffer's address from here.
    pub fn as_ptr(&self) -> (r: &[u16])
        ensures
            r@ == self@,
    {
        self.data.as_slice()
    }

    /// Lossily decodes the whole buffer, terminator included, so the result
    /// of a round trip ends in a NUL character.
    pub fn to_string(&self) -> (r: String)
        ensures
            r@ == utf16_decode_lossy(self@),
    {
        decode_units(self.data.as_slice())
    }
}

/// Lossily decodes a buffer of UTF-16 code units, exactly as
/// [`utf16_decode_lossy`] describes: unpaired surrogates become the
/// replacement character.
pub fn decode_units(units: &[u16]) -> (r: String)
    ensures
        r@ == utf16_decode_lossy(units@),
{
    let mut chars: Vec<char> = Vec::new();
    let n = units.len();
    let ghost whole = units@;
    proof {
        assert(whole.subrange(0, n as int) =~= whole);
    }
    let mut i: usize = 0;
    while i < n
        invariant
            i <= n,
            n == units@.len(),
            whole == units@,
            utf16_decode_lossy(whole) == chars@ + utf16_decode_lossy(
                whole.subrange(i as int, n as int),
            ),
        decreases n - i,
    {
        let ghost tail = whole.subrange(i as int, n as int);
        let u = units[i];
        if u < 0xD800 || u >= 0xE000 {
            let c = char::from_u32(u as u32).unwrap();
            chars.push(c);
            proof {
                char_u32_cast(c, u as u32);
                assert(tail[0] == u);
                assert(tail.drop_first() =~= whole.subrange(i as int + 1, n as int));
                assert(utf16_decode_lossy(tail) == seq![c] + utf16_decode_lossy(
                    tail.drop_first(),
                ));
            }
            i = i + 1;
        } else if u < 0xDC00 && i + 1 < n && 0xDC00 <= units[i + 1] && units[i + 1]
            < 0xE000 {
            let lo = units[i + 1];
            let scalar: u32 = 0x10000 + (u as u32 - 0xD800) * 0x400 + (lo as u32 - 0xDC00);
            proof {
                assert(scalar == combined_scalar(u, lo));
                assert(0x10000 <= scalar <= 0x10FFFF);
            }
            let c = char::from_u32(scalar).unwrap();
            chars.push(c);
            proof {
                char_u32_cast(c, scalar);
                assert(tail[0] == u && tail[1] == lo);
                assert(is_high_surrogate(tail[0]) && is_low_surrogate(tail[1]));
                assert(tail.subrange(2, tail.len() as int) =~= whole.subrange(
                    i as int + 2,
                    n as int,
                ));
                assert(utf16_decode_lossy(tail) == seq![c] + utf16_decode_lossy(
                    tail.subrange(2, tail.len() as int),
                ));
            }
            i = i + 2;
        } else {
            let c = char::from_u32(0xFFFD).unwrap();
            chars.push(c);
            proof {
                char_u32_cast(c, 0xFFFD);
                char_u32_cast(replacement_char(), 0xFFFD);
                assert(tail[0] == u);
                assert(is_high_surrogate(tail[0]) || is_low_surrogate(tail[0]));
                assert(!(is_high_surrogate(tail[0]) && tail.len() >= 2 && is_low_surrogate(
                    tail[1],
                )));
                assert(c == replacement_char());
                assert(tail.drop_first() =~= whole.subrange(i as int + 1, n as int));
                assert(utf16_decode_lossy(tail) == seq![c] + utf16_decode_lossy(
                    tail.drop_first(),
                ));
            }
            i = i + 1;
        }
    }
    proof {
        assert(whole.subrange(n as int, n as int) =~= Seq::<u16>::empty());
        assert(chars@ =~= utf16_decode_lossy(whole));
    }
    chars_to_string(chars)
}

} // verus!
