//! Windows strings and paths: sequences of 16-bit units that are meant as
//! UTF-16 but need not be well formed.
use vstd::prelude::*;

verus! {

/// Whether `u` opens a surrogate pair.
pub open spec fn is_high_surrogate(u: u16) -> bool {
    0xD800 <= u < 0xDC00
}

/// Whether `u` closes a surrogate pair.
pub open spec fn is_low_surrogate(u: u16) -> bool {
    0xDC00 <= u < 0xE000
}

/// The character that a surrogate pair stands for.
pub open spec fn paired(high: u16, low: u16) -> char {
    (0x10000 + (high - 0xD800) * 0x400 + (low - 0xDC00)) as char
}

/// The text of a sequence of units. A surrogate that is not part of a pair
/// reads as the replacement character.
pub open spec fn decode(units: Seq<u16>) -> Seq<char>
    decreases units.len(),
{
    if units.len() == 0 {
        seq![]
    } else if is_high_surrogate(units[0]) && units.len() > 1 && is_low_surrogate(units[1]) {
        seq![paired(units[0], units[1])] + decode(units.skip(2))
    } else if is_high_surrogate(units[0]) || is_low_surrogate(units[0]) {
        seq!['\u{FFFD}'] + decode(units.skip(1))
    } else {
        seq![units[0] as char] + decode(units.skip(1))
    }
}

/// The units of one character.
pub open spec fn encode_char(c: char) -> Seq<u16> {
    let v = c as int;
    if v < 0x10000 {
        seq![v as u16]
    } else {
        seq![
            (0xD800 + (v - 0x10000) / 0x400) as u16,
            (0xDC00 + (v - 0x10000) % 0x400) as u16,
        ]
    }
}

/// The units of a text.
pub open spec fn encode(text: Seq<char>) -> Seq<u16>
    decreases text.len(),
{
    if text.len() == 0 {
        seq![]
    } else {
        encode_char(text[0]) + encode(text.skip(1))
    }
}

/// A Windows string, such as a path or a command line argument.
#[derive(Debug, PartialEq, Eq)]
pub struct WideText {
    units: Vec<u16>,
}

impl View for WideText {
    type V = Seq<u16>;

    closed spec fn view(&self) -> Seq<u16> {
        self.units@
    }
}

impl WideText {
    /// The string with the given units.
    pub fn from_units(units: Vec<u16>) -> (wide: WideText)
        ensures
            wide@ == units@,
    {
        WideText { units }
    }

    /// The units of the string.
    pub fn units(&self) -> (units: &Vec<u16>)
        ensures
            units@ == self@,
    {
        &self.units
    }

    /// The string that holds `text`.
    pub fn new(text: &str) -> (wide: WideText)
        ensures
            wide@ == encode(text@),
    {
        let mut units: Vec<u16> = Vec::new();
        assert(text@.skip(0) == text@);
        for c in it: text.chars()
            invariant
                it.seq() == text@,
                units@ + encode(text@.skip(it.index() as int)) == encode(text@),
        {
            let v: u32 = c as u32;
            let ghost rest = text@.skip(it.index() as int);
            let ghost before = units@;
            proof {
                crate::text::lemma_char_range(c);
                assert(rest[0] == c);
                assert(rest.skip(1) == text@.skip(it.index() + 1));
            }
            if v < 0x10000 {
                units.push(v as u16);
            } else {
                let w: u32 = v - 0x10000;
                units.push((0xD800 + w / 0x400) as u16);
                units.push((0xDC00 + w % 0x400) as u16);
            }
            assert(units@ == before + encode_char(c));
            assert(units@ + encode(rest.skip(1)) =~= before + encode(rest));
        }
        assert(text@.skip(text@.len() as int).len() == 0);
        assert(units@ =~= encode(text@));
        WideText { units }
    }

    /// An equal string.
    pub fn copy(&self) -> (wide: WideText)
        ensures
            wide@ == self@,
    {
        WideText { units: self.units.clone() }
    }

    /// The text of the string, with the replacement character for whatever is
    /// not well formed.
    pub fn to_string_lossy(&self) -> (text: String)
        ensures
            text@ == decode(self@),
    {
        let mut text = String::new();
        let mut i: usize = 0;
        let n: usize = self.units.len();
        assert(self@.skip(0) == self@);
        while i < n
            invariant
                i <= n == self@.len(),
                self@ == self.units@,
                text@ + decode(self@.skip(i as int)) == decode(self@),
            decreases n - i,
        {
            let u: u16 = self.units[i];
            let ghost rest = self@.skip(i as int);
            let ghost before = text@;
            proof {
                assert(rest[0] == u);
                assert(rest.skip(1) == self@.skip(i + 1));
            }
            if u < 0xD800 || u >= 0xE000 {
                let c: char = char::from_u32(u as u32).unwrap();
                proof {
                    crate::text::lemma_char_range(c);
                }
                text.push(c);
                i = i + 1;
                assert(text@ =~= before + seq![u as char]);
            } else if u < 0xDC00 && i + 1 < n && self.units[i + 1] >= 0xDC00
                && self.units[i + 1] < 0xE000 {
                let low: u16 = self.units[i + 1];
                let v: u32 = 0x10000 + (u as u32 - 0xD800) * 0x400 + (low as u32 - 0xDC00);
                let c: char = char::from_u32(v).unwrap();
                text.push(c);
                proof {
                    crate::text::lemma_char_range(c);
                    assert(rest[1] == low);
                    assert(rest.skip(2) == self@.skip(i + 2));
                    assert(c == paired(u, low));
                }
                i = i + 2;
                assert(text@ =~= before + seq![paired(u, low)]);
            } else {
                text.push('\u{FFFD}');
                i = i + 1;
                assert(text@ =~= before + seq!['\u{FFFD}']);
            }
            assert(text@ + decode(self@.skip(i as int)) =~= before + decode(rest));
        }
        assert(self@.skip(n as int).len() == 0);
        assert(text@ =~= decode(self@));
        text
    }
}

/// Text survives being stored as a Windows string: reading `encode(text)` gives
/// `text` back.
pub proof fn law_text_round_trip(text: Seq<char>)
    ensures
        decode(encode(text)) == text,
    decreases text.len(),
{
    if text.len() > 0 {
        let rest = text.skip(1);
        law_text_round_trip(rest);
        let c = text[0];
        let head = encode_char(c);
        let all = encode(text);
        assert(all == head + encode(rest));
        assert(all.skip(head.len() as int) =~= encode(rest));
        assert(all[0] == head[0]);
        let v = c as int;
        crate::text::lemma_char_range(c);
        if v >= 0x10000 {
            assert(all[1] == head[1]);
            assert(paired(all[0], all[1]) == c);
        }
        assert(decode(all) == seq![c] + decode(encode(rest)));
        assert(seq![c] + rest =~= text);
    }
}

/// A unit outside the surrogates reads as the character of that number; a
/// surrogate on its own reads as the replacement character; a pair reads as one
/// character beyond the first 65536, with ten bits of its number from each half.
pub proof fn law_units_read_as_utf16(unit: u16, high: u16, low: u16)
    requires
        0xD800 <= high <= 0xDBFF,
        0xDC00 <= low <= 0xDFFF,
    ensures
        decode(seq![]) == Seq::<char>::empty(),
        decode(seq![unit]).len() == 1,
        unit < 0xD800 || unit > 0xDFFF ==> decode(seq![unit])[0] as int == unit,
        0xD800 <= unit <= 0xDFFF ==> decode(seq![unit])[0] as int == 0xFFFD,
        decode(seq![high, low]).len() == 1,
        decode(seq![high, low])[0] as int == 0x10000 + (high - 0xD800) * 0x400 + (low - 0xDC00),
{
    assert(seq![unit].skip(1) =~= seq![]);
    assert(seq![high, low].skip(2) =~= seq![]);
    assert(decode(seq![]) =~= seq![]);
}

/// A string reads piece by piece, unless the cut goes through a pair.
pub proof fn law_strings_read_piece_by_piece(first: Seq<u16>, second: Seq<u16>)
    requires
        first.len() > 0 && second.len() > 0 ==> !(0xD800 <= first.last() <= 0xDBFF && 0xDC00
            <= second[0] <= 0xDFFF),
    ensures
        decode(first + second) == decode(first) + decode(second),
    decreases first.len(),
{
    let all = first + second;
    if first.len() == 0 {
        assert(all =~= second);
        assert(decode(first) + decode(second) =~= decode(second));
    } else {
        let taken: int = if is_high_surrogate(first[0]) && first.len() > 1 && is_low_surrogate(
            first[1],
        ) {
            2
        } else {
            1
        };
        let rest = first.skip(taken);
        assert(all[0] == first[0]);
        assert(all.skip(taken) =~= rest + second);
        if first.len() > 1 {
            assert(all[1] == first[1]);
        } else if second.len() > 0 {
            assert(all[1] == second[0]);
            assert(first.last() == first[0]);
        }
        if rest.len() > 0 {
            assert(rest.last() == first.last());
        }
        law_strings_read_piece_by_piece(rest, second);
        assert(decode(all) =~= decode(first) + decode(second));
    }
}

/// Text is written character by character: one unit for a character among the
/// first 65536, else a high surrogate with the upper and a low surrogate with
/// the lower ten bits of what lies beyond.
pub proof fn law_text_is_written_as_utf16(c: char, first: Seq<char>, second: Seq<char>)
    ensures
        encode(seq![]) == Seq::<u16>::empty(),
        (c as int) < 0x10000 ==> encode(seq![c]).len() == 1 && encode(seq![c])[0] == c as int,
        c as int >= 0x10000 ==> {
            let units = encode(seq![c]);
            &&& units.len() == 2
            &&& 0xD800 <= units[0] <= 0xDBFF
            &&& 0xDC00 <= units[1] <= 0xDFFF
            &&& c as int == 0x10000 + (units[0] - 0xD800) * 0x400 + (units[1] - 0xDC00)
        },
        encode(first + second) == encode(first) + encode(second),
    decreases first.len(),
{
    crate::text::lemma_char_range(c);
    assert(seq![c].skip(1) =~= seq![]);
    assert(encode(seq![]) =~= seq![]);
    assert(encode(seq![c]) =~= encode_char(c));
    if first.len() == 0 {
        assert(first + second =~= second);
        assert(encode(first) + encode(second) =~= encode(second));
    } else {
        law_text_is_written_as_utf16(c, first.skip(1), second);
        assert((first + second).skip(1) =~= first.skip(1) + second);
        assert(encode(first + second) =~= encode(first) + encode(second));
    }
}

} // verus!
