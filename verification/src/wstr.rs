//! Wide (UTF-16) strings for the window system, and decoding back.

use vstd::prelude::*;
use crate::util::{utf16_encode, ToWide};

verus! {

/// Relies on `char::from_u32`: the code point back as a `char`, or `None`
/// exactly when the value is a surrogate or beyond the last code point.
pub assume_specification[ char::from_u32 ](v: u32) -> (r: Option<char>)
    ensures
        (r is Some) <==> (v < 0xD800 || (0xE000 <= v && v <= 0x10FFFF)),
        r is Some ==> (r->Some_0) as u32 == v,
;

/// Relies on `String::push`: appends the given character to the end.
pub assume_specification[ String::push ](s: &mut String, c: char)
    ensures
        final(s)@ == old(s)@.push(c),
;

/// The characters read from a zero-terminated sequence of UTF-16 units:
/// reading stops at the first zero unit, and a unit that is no valid code
/// point on its own (a surrogate) is skipped.
pub open spec fn wide_decode(w: Seq<u16>) -> Seq<char>
    decreases w.len(),
{
    if w.len() == 0 || w[0] == 0 {
        Seq::empty()
    } else if 0xD800 <= w[0] < 0xE000 {
        wide_decode(w.skip(1))
    } else {
        seq![(w[0] as u32) as char] + wide_decode(w.skip(1))
    }
}

proof fn lemma_wide_decode_snoc(w: Seq<u16>, i: int)
    requires
        0 <= i < w.len(),
        forall|j: int| 0 <= j <= i ==> w[j] != 0,
    ensures
        wide_decode(w.take(i + 1)) == wide_decode(w.take(i)) + (if 0xD800 <= w[i] < 0xE000 {
            Seq::<char>::empty()
        } else {
            seq![(w[i] as u32) as char]
        }),
    decreases i,
{
    let unit = if 0xD800 <= w[i] < 0xE000 {
        Seq::<char>::empty()
    } else {
        seq![(w[i] as u32) as char]
    };
    if i == 0 {
        assert(w.take(0) =~= Seq::<u16>::empty());
        assert(w.take(1).len() == 1);
        assert(w.take(1)[0] == w[0]);
        assert(w.take(1).skip(1) =~= Seq::<u16>::empty());
        assert(wide_decode(w.take(i + 1)) =~= wide_decode(w.take(i)) + unit);
    } else {
        lemma_wide_decode_snoc(w.skip(1), i - 1);
        assert(w.take(i + 1)[0] == w[0]);
        assert(w.take(i)[0] == w[0]);
        assert(w.take(i + 1).skip(1) =~= w.skip(1).take(i));
        assert(w.take(i).skip(1) =~= w.skip(1).take(i - 1));
        assert(w.skip(1)[i - 1] == w[i]);
        assert(wide_decode(w.take(i + 1)) =~= wide_decode(w.take(i)) + unit);
    }
}

/// Reads a zero-terminated wide-character buffer back into a text: stops at
/// the first zero unit, skips units that are no valid code point.
pub fn from_wide(wstr: &Vec<u16>) -> (r: String)
    ensures
        r@ == wide_decode(wstr@),
{
    let n = wstr.len();
    let mut r = String::new();
    let mut i: usize = 0;
    while i < n
        invariant
            n == wstr@.len(),
            0 <= i <= n,
            forall|j: int| 0 <= j < i ==> wstr@[j] != 0,
            r@ == wide_decode(wstr@.take(i as int)),
        decreases n - i,
    {
        let c = wstr[i];
        if c == 0 {
            proof {
                lemma_wide_decode_stops(wstr@, i as int);
            }
            return r;
        }
        proof {
            lemma_wide_decode_snoc(wstr@, i as int);
        }
        match char::from_u32(c as u32) {
            Some(ch) => {
                r.push(ch);
                proof {
                    vstd::utf8::char_u32_cast(ch, c as u32);
                    assert(r@ =~= wide_decode(wstr@.take(i as int)) + seq![
                        (wstr@[i as int] as u32) as char,
                    ]);
                }
            },
            None => {
                proof {
                    assert(0xD800 <= wstr@[i as int] < 0xE000);
                    assert(r@ =~= wide_decode(wstr@.take(i as int + 1)));
                }
            },
        }
        i = i + 1;
    }
    proof {
        assert(wstr@.take(n as int) =~= wstr@);
    }
    r
}

proof fn lemma_wide_decode_stops(w: Seq<u16>, i: int)
    requires
        0 <= i < w.len(),
        w[i] == 0,
        forall|j: int| 0 <= j < i ==> w[j] != 0,
    ensures
        wide_decode(w) == wide_decode(w.take(i)),
    decreases i,
{
    if i == 0 {
        assert(w.take(0) =~= Seq::<u16>::empty());
    } else {
        lemma_wide_decode_stops(w.skip(1), i - 1);
        assert(w.skip(1)[i - 1] == w[i]);
        assert(w.take(i)[0] == w[0]);
        assert(w.take(i).skip(1) =~= w.skip(1).take(i - 1));
    }
}

/// A zero-terminated wide string, ready to hand to the window system.
#[derive(Debug)]
pub struct WString {
    value: Vec<u16>,
}

impl WString {
    /// The stored units, terminator included.
    pub closed spec fn units(self) -> Seq<u16> {
        self.value@
    }

    /// A wide string always ends in its zero terminator.
    pub open spec fn wf(self) -> bool {
        self.units().len() >= 1 && self.units().last() == 0u16
    }

    pub fn from_str(s: &str) -> (w: WString)
        ensures
            w.wf(),
            w.units() == utf16_encode(s@).push(0u16),
    {
        WString { value: s.to_wide() }
    }

    /// The stored units, for inspection.
    pub fn as_units(&self) -> (r: &Vec<u16>)
        ensures
            r@ == self.units(),
    {
        &self.value
    }

    /// The buffer's first unit: where the window system starts reading the
    /// zero-terminated string.
    pub fn lpcwstr(&self) -> (r: &u16)
        requires
            self.wf(),
        ensures
            *r == self.units()[0],
    {
        &self.value[0]
    }
}

} // verus!
