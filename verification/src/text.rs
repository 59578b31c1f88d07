//! Strings in the forms in which the Windows loader takes them.

use vstd::prelude::*;

verus! {

/// The UTF-16 code units of one character: itself inside the basic plane, a
/// surrogate pair beyond it.
pub open spec fn utf16_units(c: char) -> Seq<u16> {
    let code = c as u32;
    if code < 0x1_0000 {
        seq![code as u16]
    } else {
        seq![
            (0xD800 + (code - 0x1_0000) / 0x400) as u16,
            (0xDC00 + (code - 0x1_0000) % 0x400) as u16,
        ]
    }
}

/// A string in UTF-16.
pub open spec fn utf16(s: Seq<char>) -> Seq<u16>
    decreases s.len(),
{
    if s.len() == 0 {
        Seq::empty()
    } else {
        utf16(s.drop_last()) + utf16_units(s.last())
    }
}

/// A string of ASCII characters as bytes, one for each.
pub open spec fn ascii(s: Seq<char>) -> Seq<u8> {
    s.map_values(|c: char| c as u8)
}

/// Encodes `s` in UTF-16.
pub fn encode_utf16(s: &str) -> (units: Vec<u16>)
    ensures
        units@ == utf16(s@),
{
    let mut units: Vec<u16> = Vec::new();
    let len: usize = s.unicode_len();
    let mut i: usize = 0;
    while i < len
        invariant
            i <= len,
            len == s@.len(),
            units@ == utf16(s@.take(i as int)),
        decreases len - i,
    {
        let code: u32 = s.get_char(i) as u32;
        proof {
            assert(s@.take(i + 1).drop_last() =~= s@.take(i as int));
            assert(s@.take(i + 1).last() == s@[i as int]);
        }
        if code < 0x1_0000 {
            units.push(code as u16);
        } else {
            let above: u32 = code - 0x1_0000;
            units.push((0xD800 + above / 0x400) as u16);
            units.push((0xDC00 + above % 0x400) as u16);
        }
        assert(units@ =~= utf16(s@.take(i as int)) + utf16_units(s@[i as int]));
        i += 1;
    }
    assert(s@.take(len as int) =~= s@);
    units
}

/// The bytes of an ASCII string, ended by a zero byte.
pub fn zero_terminated(s: &str) -> (bytes: Vec<u8>)
    requires
        s.is_ascii(),
    ensures
        bytes@ == ascii(s@).push(0),
{
    let mut bytes: Vec<u8> = Vec::new();
    let len: usize = s.unicode_len();
    let mut i: usize = 0;
    while i < len
        invariant
            i <= len,
            len == s@.len(),
            s.is_ascii(),
            bytes@ == ascii(s@.take(i as int)),
        decreases len - i,
    {
        bytes.push(s.get_ascii(i));
        assert(bytes@ =~= ascii(s@.take(i + 1)));
        i += 1;
    }
    assert(s@.take(len as int) =~= s@);
    bytes.push(0);
    bytes
}

/// The UTF-16 form of a string inside the basic plane has one unit for each
/// character, the character's own code.
pub proof fn lemma_utf16_basic_plane(s: Seq<char>)
    requires
        forall|i: int| 0 <= i < s.len() ==> (#[trigger] s[i] as u32) < 0x1_0000,
    ensures
        utf16(s) == s.map_values(|c: char| (c as u32) as u16),
    decreases s.len(),
{
    if s.len() == 0 {
        assert(utf16(s) =~= s.map_values(|c: char| (c as u32) as u16));
    } else {
        lemma_utf16_basic_plane(s.drop_last());
        assert((s[s.len() - 1] as u32) < 0x1_0000);
        assert(utf16(s) =~= s.map_values(|c: char| (c as u32) as u16));
    }
}

/// UTF-16 goes character by character: joined strings have joined encodings.
pub proof fn law_utf16_of_joined_strings(s: Seq<char>, t: Seq<char>)
    ensures
        utf16(Seq::<char>::empty()) == Seq::<u16>::empty(),
        utf16(s + t) == utf16(s) + utf16(t),
    decreases t.len(),
{
    if t.len() == 0 {
        assert(s + t =~= s);
        assert(utf16(s) + utf16(t) =~= utf16(s));
    } else {
        law_utf16_of_joined_strings(s, t.drop_last());
        assert((s + t).drop_last() =~= s + t.drop_last());
        assert(utf16(s + t) =~= utf16(s) + utf16(t));
    }
}

/// One character can be read back from its UTF-16 form: inside the basic plane it
/// is its own unit, beyond it the two halves of a surrogate pair give its code.
pub proof fn law_utf16_can_be_read_back(c: char)
    ensures
        ({
            let units = utf16(seq![c]);
            if (c as u32) < 0x1_0000 {
                &&& units.len() == 1
                &&& units[0] as int == c as u32
            } else {
                &&& units.len() == 2
                &&& 0xD800 <= units[0] < 0xDC00
                &&& 0xDC00 <= units[1] < 0xE000
                &&& 0x1_0000 + (units[0] - 0xD800) * 0x400 + (units[1] - 0xDC00) == c as u32
            }
        }),
{
    reveal_with_fuel(utf16, 2);
    assert(seq![c].drop_last() =~= Seq::<char>::empty());
    assert(utf16(seq![c]) =~= utf16_units(c));
}

/// Every byte of an ASCII string is the code of the character in its place.
pub proof fn law_ascii_keeps_the_codes(s: Seq<char>)
    requires
        forall|i: int| 0 <= i < s.len() ==> 0 <= #[trigger] (s[i] as int) < 0x80,
    ensures
        ascii(s).len() == s.len(),
        forall|i: int| 0 <= i < s.len() ==> (#[trigger] ascii(s)[i]) as int == s[i] as int,
{
    assert forall|i: int| 0 <= i < s.len() implies (#[trigger] ascii(s)[i]) as int
        == s[i] as int by {
        let c = s[i];
        assert(0 <= c as int && (c as int) < 0x80);
        assert(ascii(s)[i] == c as u8);
    }
}

} // verus!
