//! Wide strings for the operating system: UTF-16 code units ending in a NUL.

use vstd::prelude::*;
use vstd::slice::{slice_subrange, slice_to_vec};
use vstd::std_specs::convert::FromSpecImpl;

verus! {

broadcast use vstd::string::group_string_axioms;

/// The code units that stand for one character.
pub open spec fn encode_char(c: char) -> Seq<u16> {
    if (c as int) < 0x10000 {
        seq![c as u16]
    } else {
        seq![
            (0xD800 + ((c as int) - 0x10000) / 0x400) as u16,
            (0xDC00 + ((c as int) - 0x10000) % 0x400) as u16,
        ]
    }
}

/// The UTF-16 code units of a text, character by character.
pub open spec fn encode_utf16(text: Seq<char>) -> Seq<u16>
    decreases text.len(),
{
    if text.len() == 0 {
        Seq::empty()
    } else {
        encode_char(text[0]) + encode_utf16(text.drop_first())
    }
}

/// The code units of a text with `c` behind it are the code units of the text
/// and then those of `c`.
pub proof fn lemma_encode_push(text: Seq<char>, c: char)
    ensures
        encode_utf16(text.push(c)) == encode_utf16(text) + encode_char(c),
    decreases text.len(),
{
    if text.len() == 0 {
        assert(text.push(c).drop_first() =~= Seq::<char>::empty());
        assert(encode_utf16(text.push(c)) =~= encode_char(c) + encode_utf16(Seq::empty()));
    } else {
        lemma_encode_push(text.drop_first(), c);
        assert(text.push(c).drop_first() =~= text.drop_first().push(c));
    }
}

/// The first half of a surrogate pair.
pub open spec fn is_high_surrogate(unit: u16) -> bool {
    0xD800 <= unit <= 0xDBFF
}

/// The second half of a surrogate pair.
pub open spec fn is_low_surrogate(unit: u16) -> bool {
    0xDC00 <= unit <= 0xDFFF
}

/// The character that a surrogate pair stands for.
pub open spec fn pair_char(high: u16, low: u16) -> char {
    (0x10000 + (high - 0xD800) * 0x400 + (low - 0xDC00)) as char
}

/// The text that code units stand for, with U+FFFD in place of each code unit
/// that is half of a surrogate pair without its other half.
pub open spec fn decode_utf16_lossy(units: Seq<u16>) -> Seq<char>
    decreases units.len(),
{
    if units.len() == 0 {
        Seq::empty()
    } else if is_high_surrogate(units[0]) && units.len() >= 2 && is_low_surrogate(units[1]) {
        seq![pair_char(units[0], units[1])] + decode_utf16_lossy(units.skip(2))
    } else if is_high_surrogate(units[0]) || is_low_surrogate(units[0]) {
        seq!['\u{FFFD}'] + decode_utf16_lossy(units.skip(1))
    } else {
        seq![units[0] as char] + decode_utf16_lossy(units.skip(1))
    }
}

/// The code units before the first NUL, or all of them where there is none.
pub open spec fn until_nul(units: Seq<u16>) -> Seq<u16>
    decreases units.len(),
{
    if units.len() == 0 || units[0] == 0 {
        Seq::empty()
    } else {
        seq![units[0]] + until_nul(units.drop_first())
    }
}

/// `until_nul` cuts at the first NUL: what it keeps is the start of `units`,
/// holds no NUL, and ends where `units` ends or a NUL stands.
pub proof fn lemma_until_nul(units: Seq<u16>)
    ensures
        until_nul(units).len() <= units.len(),
        until_nul(units) == units.take(until_nul(units).len() as int),
        forall|i: int| 0 <= i < until_nul(units).len() ==> until_nul(units)[i] != 0,
        until_nul(units).len() < units.len() ==> units[until_nul(units).len() as int] == 0,
    decreases units.len(),
{
    if units.len() > 0 && units[0] != 0 {
        let rest = units.drop_first();
        lemma_until_nul(rest);
        let kept = until_nul(rest);
        assert(forall|i: int| 0 <= i < kept.len() + 1 ==> (seq![units[0]] + kept)[i] == units[i]);
        assert(until_nul(units) =~= units.take(until_nul(units).len() as int));
    }
}

/// Where the first `n` code units hold no NUL and a NUL or the end follows,
/// `until_nul` keeps exactly those `n`.
pub proof fn lemma_until_nul_at(units: Seq<u16>, n: int)
    requires
        0 <= n <= units.len(),
        forall|i: int| 0 <= i < n ==> units[i] != 0,
        n < units.len() ==> units[n] == 0,
    ensures
        until_nul(units) == units.take(n),
    decreases n,
{
    if n > 0 {
        let rest = units.drop_first();
        assert(forall|i: int| 0 <= i < n - 1 ==> rest[i] != 0);
        lemma_until_nul_at(rest, n - 1);
    }
}

/// Decoding the code units of one character and then `tail` gives the
/// character and then what `tail` decodes to.
pub proof fn lemma_decode_char(c: char, tail: Seq<u16>)
    ensures
        decode_utf16_lossy(encode_char(c) + tail) == seq![c] + decode_utf16_lossy(tail),
{
    let units = encode_char(c) + tail;
    if (c as int) < 0x10000 {
        assert(units.skip(1) =~= tail);
    } else {
        assert(units.skip(2) =~= tail);
    }
}

/// Decoding undoes encoding.
pub proof fn lemma_decode_encode(text: Seq<char>)
    ensures
        decode_utf16_lossy(encode_utf16(text)) == text,
    decreases text.len(),
{
    if text.len() > 0 {
        lemma_decode_encode(text.drop_first());
        lemma_decode_char(text[0], encode_utf16(text.drop_first()));
    }
}

/// The code units of a character other than NUL are not NUL.
proof fn lemma_encode_char_nul(c: char)
    requires
        c != '\0',
    ensures
        forall|i: int| 0 <= i < encode_char(c).len() ==> encode_char(c)[i] != 0,
{
}

/// The code units of a text hold a NUL only where the text holds the
/// character NUL.
pub proof fn lemma_encode_nul(text: Seq<char>)
    requires
        forall|i: int| 0 <= i < text.len() ==> text[i] != '\0',
    ensures
        forall|i: int| 0 <= i < encode_utf16(text).len() ==> encode_utf16(text)[i] != 0,
    decreases text.len(),
{
    if text.len() > 0 {
        let rest = text.drop_first();
        assert(forall|i: int| 0 <= i < rest.len() ==> rest[i] != '\0');
        lemma_encode_nul(rest);
        let head = encode_char(text[0]);
        lemma_encode_char_nul(text[0]);
        assert forall|i: int| 0 <= i < encode_utf16(text).len() implies encode_utf16(text)[i]
            != 0 by {
            if i >= head.len() {
                assert(encode_utf16(text)[i] == encode_utf16(rest)[i - head.len()]);
            }
        }
    }
}

/// A text without the character NUL, made into a wide string and read back, is
/// the same text.
pub proof fn lemma_text_round_trip(text: Seq<char>)
    requires
        forall|i: int| 0 <= i < text.len() ==> text[i] != '\0',
    ensures
        decode_utf16_lossy(until_nul(encode_utf16(text).push(0))) == text,
{
    let units = encode_utf16(text);
    lemma_encode_nul(text);
    lemma_until_nul_at(units.push(0), units.len() as int);
    assert(units.push(0).take(units.len() as int) =~= units);
    lemma_decode_encode(text);
}

/// The number of a character.
fn code_point(c: char) -> (code: u32)
    ensures
        code as int == c as int,
        code <= 0x10FFFF,
{
    c as u32
}

/// A wide string: the code units handed to the operating system.
#[derive(Debug)]
pub struct WStr {
    chars: Vec<u16>,
}

impl View for WStr {
    type V = Seq<u16>;

    closed spec fn view(&self) -> Seq<u16> {
        self.chars@
    }
}

impl WStr {
    /// The text that the wide string stands for: what its code units before
    /// the first NUL decode to.
    pub open spec fn text(&self) -> Seq<char> {
        decode_utf16_lossy(until_nul(self@))
    }

    /// The UTF-16 code units of `s`, then one NUL.
    pub fn new(s: &str) -> (result: WStr)
        ensures
            result@ == encode_utf16(s@).push(0),
    {
        let mut units: Vec<u16> = Vec::new();
        for c in it: s.chars()
            invariant
                it.seq() == s@,
                units@ == encode_utf16(s@.take(it.index())),
        {
            proof {
                lemma_encode_push(s@.take(it.index()), c);
                assert(s@.take(it.index() + 1) =~= s@.take(it.index()).push(c));
            }
            let code: u32 = code_point(c);
            if code < 0x10000 {
                units.push(code as u16);
            } else {
                let rest: u32 = code - 0x10000;
                units.push((0xD800 + rest / 0x400) as u16);
                units.push((0xDC00 + rest % 0x400) as u16);
            }
        }
        assert(s@.take(s@.len() as int) =~= s@);
        units.push(0);
        WStr { chars: units }
    }

    /// The text before the first NUL, with U+FFFD for each unpaired surrogate.
    pub fn to_string(&self) -> (text: String)
        ensures
            text@ == self.text(),
    {
        let mut end: usize = 0;
        while end < self.chars.len() && self.chars[end] != 0
            invariant
                end <= self.chars.len(),
                forall|i: int| 0 <= i < end ==> self.chars@[i] != 0,
            decreases self.chars.len() - end,
        {
            end += 1;
        }
        proof {
            lemma_until_nul_at(self.chars@, end as int);
        }
        from_utf16_lossy(slice_subrange(self.chars.as_slice(), 0, end))
    }

    /// The code units, for the system call that takes them.
    pub fn as_slice(&self) -> (units: &[u16])
        ensures
            units@ == self@,
    {
        self.chars.as_slice()
    }
}

/// `String::from_utf16_lossy` of std: the text that the code units stand for,
/// where each code unit that is half of a surrogate pair without its other
/// half gives U+FFFD.
#[verifier::external_body]
fn from_utf16_lossy(units: &[u16]) -> (text: String)
    ensures
        text@ == decode_utf16_lossy(units@),
{
    String::from_utf16_lossy(units)
}

/// The code units of a fixed buffer, as they stand: all `N` of them, with
/// whatever follows the first NUL.
impl<const N: usize> From<&[u16; N]> for WStr {
    fn from(s: &[u16; N]) -> (result: WStr)
        ensures
            result@ == s@,
    {
        WStr { chars: slice_to_vec(s.as_slice()) }
    }
}

impl<const N: usize> FromSpecImpl<&[u16; N]> for WStr {
    open spec fn obeys_from_spec() -> bool {
        false
    }

    open spec fn from_spec(s: &[u16; N]) -> WStr {
        arbitrary()
    }
}

impl From<&str> for WStr {
    fn from(s: &str) -> (result: WStr)
        ensures
            result@ == encode_utf16(s@).push(0),
    {
        WStr::new(s)
    }
}

impl FromSpecImpl<&str> for WStr {
    open spec fn obeys_from_spec() -> bool {
        false
    }

    open spec fn from_spec(s: &str) -> WStr {
        arbitrary()
    }
}

} // verus!
