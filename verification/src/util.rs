//! Status codes, the library's error type, and wide-string encoding.

use vstd::prelude::*;

verus! {

/// Foreign status codes are translated once, at the boundary, into this
/// typed error; internal logic never inspects a raw status code again.
#[derive(Clone, Copy, Debug, PartialEq, Eq, Structural)]
pub enum Error {
    /// A required object was absent (a null result from the window system).
    Null,
    /// A foreign call reported the given failure status.
    Hr(i32),
}

impl From<i32> for Error {
    fn from(hr: i32) -> Error {
        Error::Hr(hr)
    }
}

impl vstd::std_specs::convert::FromSpecImpl<i32> for Error {
    open spec fn obeys_from_spec() -> bool {
        true
    }

    open spec fn from_spec(hr: i32) -> Error {
        Error::Hr(hr)
    }
}

/// A foreign status code reports success exactly when it is non-negative.
pub open spec fn spec_succeeded(hr: i32) -> bool {
    hr >= 0
}

#[verifier::when_used_as_spec(spec_succeeded)]
pub fn succeeded(hr: i32) -> (r: bool)
    ensures
        r == spec_succeeded(hr),
{
    hr >= 0
}

/// The UTF-16 code units of one character: a single unit below `0x10000`,
/// a surrogate pair above.
pub open spec fn utf16_units_of(c: char) -> Seq<u16> {
    if (c as u32) < 0x10000 {
        seq![(c as u32) as u16]
    } else {
        seq![
            (0xD800 + ((c as u32) - 0x10000) / 0x400) as u16,
            (0xDC00 + ((c as u32) - 0x10000) % 0x400) as u16,
        ]
    }
}

/// The UTF-16 encoding of a character sequence.
pub open spec fn utf16_encode(s: Seq<char>) -> Seq<u16>
    decreases s.len(),
{
    if s.len() == 0 {
        Seq::empty()
    } else {
        utf16_units_of(s[0]) + utf16_encode(s.skip(1))
    }
}

proof fn lemma_utf16_encode_snoc(s: Seq<char>, i: int)
    requires
        0 <= i < s.len(),
    ensures
        utf16_encode(s.take(i + 1)) == utf16_encode(s.take(i)) + utf16_units_of(s[i]),
    decreases i,
{
    if i == 0 {
        assert(s.take(0) =~= Seq::<char>::empty());
        assert(s.take(1).skip(1) =~= Seq::<char>::empty());
        assert(s.take(1).len() == 1);
        assert(s.take(1)[0] == s[0]);
        assert(utf16_encode(Seq::<char>::empty()) == Seq::<u16>::empty());
        assert(utf16_encode(s.take(1)) == utf16_units_of(s[0]) + Seq::<u16>::empty());
        assert(utf16_units_of(s[0]) + Seq::<u16>::empty() =~= utf16_units_of(s[0]));
        assert(utf16_encode(s.take(0)) + utf16_units_of(s[0]) =~= utf16_units_of(s[0]));
    } else {
        lemma_utf16_encode_snoc(s.skip(1), i - 1);
        assert(s.take(i + 1).skip(1) =~= s.skip(1).take(i));
        assert(s.take(i).skip(1) =~= s.skip(1).take(i - 1));
        assert(s.take(i + 1)[0] == s[0]);
        assert(s.take(i)[0] == s[0]);
        assert(utf16_encode(s.take(i + 1)) == utf16_units_of(s[0]) + utf16_encode(s.skip(1).take(i)));
        assert(utf16_encode(s.take(i)) == utf16_units_of(s[0]) + utf16_encode(s.skip(1).take(i - 1)));
        assert(s.skip(1)[i - 1] == s[i]);
        assert(utf16_encode(s.take(i + 1)) == utf16_encode(s.take(i)) + utf16_units_of(s[i]));
    }
}

/// Encodes a text's characters as UTF-16 code units, without a terminator.
pub fn encode_utf16_units(s: &str) -> (r: Vec<u16>)
    ensures
        r@ == utf16_encode(s@),
{
    let n = s.unicode_len();
    let mut r: Vec<u16> = Vec::new();
    let mut i: usize = 0;
    while i < n
        invariant
            n == s@.len(),
            0 <= i <= n,
            r@ == utf16_encode(s@.take(i as int)),
        decreases n - i,
    {
        let c = s.get_char(i);
        proof {
            lemma_utf16_encode_snoc(s@, i as int);
            vstd::utf8::char_is_scalar(c);
        }
        let v = c as u32;
        if v < 0x10000 {
            r.push(v as u16);
        } else {
            let x = v - 0x10000;
            r.push((0xD800 + x / 0x400) as u16);
            r.push((0xDC00 + x % 0x400) as u16);
            proof {
                assert(r@ =~= utf16_encode(s@.take(i as int)) + utf16_units_of(s@[i as int]));
            }
        }
        i = i + 1;
    }
    proof {
        assert(s@.take(n as int) =~= s@);
    }
    r
}

/// Texts that can be handed to the window system as wide (UTF-16) strings.
pub trait ToWide {
    spec fn chars_view(&self) -> Seq<char>;

    /// The UTF-16 units of the text, without a terminator.
    fn to_wide_sized(&self) -> (r: Vec<u16>)
        ensures
            r@ == utf16_encode(self.chars_view()),
    ;

    /// The UTF-16 units of the text, with a terminating zero unit.
    fn to_wide(&self) -> (r: Vec<u16>)
        ensures
            r@ == utf16_encode(self.chars_view()).push(0u16),
    ;
}

impl ToWide for str {
    open spec fn chars_view(&self) -> Seq<char> {
        self@
    }

    fn to_wide_sized(&self) -> (r: Vec<u16>) {
        encode_utf16_units(self)
    }

    fn to_wide(&self) -> (r: Vec<u16>) {
        let mut r = encode_utf16_units(self);
        r.push(0);
        r
    }
}

impl ToWide for String {
    open spec fn chars_view(&self) -> Seq<char> {
        self@
    }

    fn to_wide_sized(&self) -> (r: Vec<u16>) {
        encode_utf16_units(self.as_str())
    }

    fn to_wide(&self) -> (r: Vec<u16>) {
        let mut r = encode_utf16_units(self.as_str());
        r.push(0);
        r
    }
}

} // verus!
