//! Fixed offsets from UTC.

use crate::numeral::{
    all_digits, digit_value, digits_value, int32_value, is_digit, is_sign, numeral_value, parse_int32,
};
use crate::text::{digit_char, digits_text, push_zero_padded, zero_padded_text, zeros};
use vstd::prelude::*;
use vstd::string::*;

verus! {

/// Largest distance from UTC, in seconds, that an [`Offset`] can have: fourteen hours.
pub const MAX_OFFSET_SECS: i32 = 50_400;

/// Whether `secs` is a legal distance from UTC.
pub open spec fn offset_in_range(secs: int) -> bool {
    -50_400 <= secs <= 50_400
}

/// A fixed offset from UTC, counted in seconds east of Greenwich.
///
/// The offset never lies more than fourteen hours from UTC.
#[derive(Clone, Copy, Debug, PartialEq, Eq, Structural)]
pub struct Offset {
    secs: i32,
}

impl View for Offset {
    type V = int;

    /// Seconds east of UTC.
    closed spec fn view(&self) -> int {
        self.secs as int
    }
}

impl Offset {
    #[verifier::type_invariant]
    spec fn in_range(self) -> bool {
        offset_in_range(self.secs as int)
    }

    /// UTC itself.
    pub fn utc() -> (offset: Offset)
        ensures
            offset@ == 0,
    {
        Offset { secs: 0 }
    }

    /// The offset `secs` seconds east of UTC, or `None` when that lies
    /// more than fourteen hours away.
    pub fn east_opt(secs: i32) -> (offset: Option<Offset>)
        ensures
            offset is Some <==> offset_in_range(secs as int),
            offset matches Some(o) ==> o@ == secs,
    {
        if -MAX_OFFSET_SECS <= secs && secs <= MAX_OFFSET_SECS {
            Some(Offset { secs })
        } else {
            None
        }
    }

    /// Seconds to add to a UTC time to get the local time.
    pub fn local_minus_utc(&self) -> (secs: i32)
        ensures
            secs == self@,
            offset_in_range(secs as int),
    {
        proof {
            use_type_invariant(self);
        }
        self.secs
    }

    /// Seconds to add to a local time to get the UTC time.
    pub fn utc_minus_local(&self) -> (secs: i32)
        ensures
            secs == -self@,
            offset_in_range(secs as int),
    {
        proof {
            use_type_invariant(self);
        }
        -self.secs
    }
}

/// `secs` where that is a legal distance from UTC, `None` where it is not.
pub open spec fn checked_secs(secs: int) -> Option<int> {
    if offset_in_range(secs) {
        Some(secs)
    } else {
        None
    }
}

/// The offset, in seconds east of UTC, that a zone abbreviation stands for.
///
/// Five abbreviations are known, each in capitals: UTC, IST, JST, PST and EST.
pub open spec fn alias_secs(name: Seq<char>) -> Option<int> {
    if name =~= seq!['U', 'T', 'C'] {
        Some(0)
    } else if name =~= seq!['I', 'S', 'T'] {
        Some(19_800)
    } else if name =~= seq!['J', 'S', 'T'] {
        Some(32_400)
    } else if name =~= seq!['P', 'S', 'T'] {
        Some(-28_800)
    } else if name =~= seq!['E', 'S', 'T'] {
        Some(-18_000)
    } else {
        None
    }
}

/// The offset that a bare number of hours stands for: `None` where `s` is
/// no 32-bit numeral, `Some(None)` where the hours lie out of range.
pub open spec fn hours_secs(s: Seq<char>) -> Option<Option<int>> {
    match int32_value(s) {
        Some(hours) => Some(checked_secs(hours * 3600)),
        None => None,
    }
}

/// The position of the first colon of `s` at or after `from`, or the
/// length of `s` where there is none.
pub open spec fn colon_position(s: Seq<char>, from: int) -> int
    decreases s.len() - from,
{
    if from >= s.len() {
        s.len() as int
    } else if s[from] == ':' {
        from
    } else {
        colon_position(s, from + 1)
    }
}

/// The offset that a signed literal stands for.
///
/// A signed literal is a sign, a 32-bit numeral of hours, one colon and a
/// 32-bit numeral of minutes, as in `+05:30`. Its offset is that many
/// hours and minutes east of UTC for a plus sign and west of it for a
/// minus sign; `None` where the text has another shape or the offset lies
/// out of range.
pub open spec fn signed_literal_secs(s: Seq<char>) -> Option<int> {
    if s.len() > 0 && is_sign(s[0]) {
        let colon = colon_position(s, 1);
        if colon < s.len() {
            match (int32_value(s.subrange(1, colon)), int32_value(s.subrange(colon + 1, s.len() as int))) {
                (Some(hours), Some(minutes)) => {
                    let total = hours * 3600 + minutes * 60;
                    checked_secs(
                        if s[0] == '+' {
                            total
                        } else {
                            -total
                        },
                    )
                },
                _ => None,
            }
        } else {
            None
        }
    } else {
        None
    }
}

/// Whether `tz` is read as a fixed offset, and not as the name of a zone:
/// it is an abbreviation, a numeral, or starts with a sign.
pub open spec fn is_fixed_form(tz: Seq<char>) -> bool {
    alias_secs(tz) is Some || int32_value(tz) is Some || (tz.len() > 0 && is_sign(tz[0]))
}

/// The offset that a text in fixed form stands for: the abbreviation's
/// offset, else the bare hours, else the signed literal.
pub open spec fn fixed_secs(tz: Seq<char>) -> Option<int> {
    if alias_secs(tz) is Some {
        alias_secs(tz)
    } else {
        match hours_secs(tz) {
            Some(secs) => secs,
            None => signed_literal_secs(tz),
        }
    }
}

/// The display text of an offset: its sign, then hours and minutes in two
/// digits each, as in `+05:30`. Seconds beyond the whole minute are left out.
pub open spec fn offset_text(secs: int) -> Seq<char> {
    let distance = if secs < 0 {
        -secs
    } else {
        secs
    };
    seq![if secs >= 0 {
        '+'
    } else {
        '-'
    }] + zero_padded_text(distance / 3600, 2) + seq![':'] + zero_padded_text((distance % 3600) / 60, 2)
}

/// A number below one hundred, written in two digits, reads back as itself.
pub proof fn lemma_two_digits(x: int)
    requires
        0 <= x < 100,
    ensures
        zero_padded_text(x, 2) == seq![digit_char(x / 10), digit_char(x % 10)],
        is_digit(digit_char(x / 10)),
        is_digit(digit_char(x % 10)),
        int32_value(zero_padded_text(x, 2)) == Some(x),
{
    let s = seq![digit_char(x / 10), digit_char(x % 10)];
    reveal_with_fuel(digits_text, 2);
    if x < 10 {
        assert(zeros(1) =~= seq!['0']);
    } else {
        assert(zeros(0) =~= Seq::<char>::empty());
    }
    assert(zero_padded_text(x, 2) =~= s);
    assert(all_digits(s));
    assert(s.drop_last() =~= seq![digit_char(x / 10)]);
    assert(s.drop_last().drop_last() =~= Seq::<char>::empty());
    reveal_with_fuel(digits_value, 3);
    assert(digit_value(digit_char(x / 10)) == x / 10);
    assert(digit_value(digit_char(x % 10)) == x % 10);
    assert(digits_value(s) == x);
    assert(numeral_value(s) == Some(x));
}

/// Reading the display text of an offset of whole minutes gives the
/// offset back, and so labelling what was read gives the same text again.
pub proof fn lemma_label_round_trip(secs: int)
    requires
        offset_in_range(secs),
        secs % 60 == 0,
    ensures
        is_fixed_form(offset_text(secs)),
        fixed_secs(offset_text(secs)) == Some(secs),
        signed_literal_secs(offset_text(secs)) == Some(secs),
{
    let distance = if secs < 0 {
        -secs
    } else {
        secs
    };
    let hours = distance / 3600;
    let minutes = (distance % 3600) / 60;
    let sign = if secs >= 0 {
        '+'
    } else {
        '-'
    };
    lemma_two_digits(hours);
    lemma_two_digits(minutes);
    let h = seq![digit_char(hours / 10), digit_char(hours % 10)];
    let m = seq![digit_char(minutes / 10), digit_char(minutes % 10)];
    let s = offset_text(secs);
    assert(s =~= seq![sign, h[0], h[1], ':', m[0], m[1]]);
    assert(s.len() == 6);
    reveal_with_fuel(colon_position, 4);
    assert(colon_position(s, 1) == 3);
    assert(s.subrange(1, 3) =~= h);
    assert(s.subrange(4, 6) =~= m);
    assert(hours * 3600 + minutes * 60 == distance);
    assert(alias_secs(s) is None);
    assert(numeral_value(s) is None) by {
        let body = s.subrange(1, 6);
        assert(body[2] == ':');
        assert(!is_digit(body[2]));
    }
}

/// Whether `s` is a signed literal in display form: a sign, two digits of
/// hours, a colon and two digits of minutes below sixty, as in `+05:30`.
pub open spec fn is_display_literal(s: Seq<char>) -> bool {
    &&& s.len() == 6
    &&& is_sign(s[0])
    &&& is_digit(s[1])
    &&& is_digit(s[2])
    &&& s[3] == ':'
    &&& is_digit(s[4])
    &&& is_digit(s[5])
    &&& digit_value(s[4]) < 6
}

/// Labelling the offset read from a literal in display form gives the
/// literal back. Zero written with a minus sign is left out: it reads as
/// UTC, whose label has a plus sign.
pub proof fn lemma_literal_round_trip(s: Seq<char>)
    requires
        is_display_literal(s),
        fixed_secs(s) is Some,
        !(s[0] == '-' && fixed_secs(s) == Some(0int)),
    ensures
        offset_text(fixed_secs(s)->0) == s,
{
    let h = s.subrange(1, 3);
    let m = s.subrange(4, 6);
    let hours = digit_value(s[1]) * 10 + digit_value(s[2]);
    let minutes = digit_value(s[4]) * 10 + digit_value(s[5]);
    reveal_with_fuel(colon_position, 4);
    assert(colon_position(s, 1) == 3);
    reveal_with_fuel(digits_value, 3);
    assert(h.drop_last() =~= seq![s[1]]);
    assert(h.drop_last().drop_last() =~= Seq::<char>::empty());
    assert(m.drop_last() =~= seq![s[4]]);
    assert(m.drop_last().drop_last() =~= Seq::<char>::empty());
    assert(digits_value(h) == hours);
    assert(digits_value(m) == minutes);
    assert(all_digits(h));
    assert(all_digits(m));
    assert(int32_value(h) == Some(hours));
    assert(int32_value(m) == Some(minutes));
    assert(alias_secs(s) is None);
    assert(numeral_value(s) is None) by {
        let body = s.subrange(1, 6);
        assert(body[2] == ':');
        assert(!is_digit(body[2]));
    }
    let total = hours * 3600 + minutes * 60;
    assert(total / 3600 == hours);
    assert((total % 3600) / 60 == minutes);
    lemma_two_digits(hours);
    lemma_two_digits(minutes);
    assert(digit_char(hours / 10) == s[1]);
    assert(digit_char(hours % 10) == s[2]);
    assert(digit_char(minutes / 10) == s[4]);
    assert(digit_char(minutes % 10) == s[5]);
    assert(offset_text(fixed_secs(s)->0) =~= s);
}

impl Offset {
    /// The offset `secs` seconds east of UTC, for a `secs` of any width.
    pub fn from_secs(secs: i64) -> (offset: Option<Offset>)
        ensures
            offset is Some <==> offset_in_range(secs as int),
            offset matches Some(o) ==> o@ == secs,
    {
        if -50_400 <= secs && secs <= 50_400 {
            Some(Offset { secs: secs as i32 })
        } else {
            None
        }
    }

    /// The offset of one of the five known zone abbreviations.
    pub fn from_alias(name: &Vec<char>) -> (offset: Option<Offset>)
        ensures
            offset is Some <==> alias_secs(name@) is Some,
            offset matches Some(o) ==> alias_secs(name@) == Some(o@),
    {
        if name.len() != 3 {
            return None;
        }
        let (a, b, c) = (name[0], name[1], name[2]);
        assert(name@ =~= seq![a, b, c]);
        if b == 'S' && c == 'T' {
            if a == 'I' {
                Some(Offset { secs: 19_800 })
            } else if a == 'J' {
                Some(Offset { secs: 32_400 })
            } else if a == 'P' {
                Some(Offset { secs: -28_800 })
            } else if a == 'E' {
                Some(Offset { secs: -18_000 })
            } else {
                None
            }
        } else if a == 'U' && b == 'T' && c == 'C' {
            Some(Offset { secs: 0 })
        } else {
            None
        }
    }

    /// Reads a bare number of hours, as in `9` or `-8`.
    ///
    /// The outer `None` says that `text` is no 32-bit numeral; the inner
    /// one that the hours lie more than fourteen from UTC.
    pub fn from_hours(text: &Vec<char>) -> (offset: Option<Option<Offset>>)
        ensures
            offset is Some <==> hours_secs(text@) is Some,
            offset matches Some(inner) ==> {
                &&& inner is Some <==> hours_secs(text@)->0 is Some
                &&& inner matches Some(o) ==> hours_secs(text@)->0 == Some(o@)
            },
    {
        assert(text@.subrange(0, text@.len() as int) =~= text@);
        match parse_int32(text, 0, text.len()) {
            Some(hours) => Some(Offset::from_secs(hours as i64 * 3600)),
            None => None,
        }
    }

    /// Reads a signed literal of hours and minutes, as in `+05:30`.
    pub fn from_signed_literal(text: &Vec<char>) -> (offset: Option<Offset>)
        ensures
            offset is Some <==> signed_literal_secs(text@) is Some,
            offset matches Some(o) ==> signed_literal_secs(text@) == Some(o@),
    {
        if text.len() == 0 {
            return None;
        }
        let sign = text[0];
        if !(sign == '+' || sign == '-') {
            return None;
        }
        let mut colon: usize = 1;
        while colon < text.len() && text[colon] != ':'
            invariant
                1 <= colon <= text.len(),
                colon_position(text@, colon as int) == colon_position(text@, 1),
            decreases text.len() - colon,
        {
            colon = colon + 1;
        }
        if colon >= text.len() {
            return None;
        }
        let hours = match parse_int32(text, 1, colon) {
            Some(hours) => hours,
            None => {
                return None;
            },
        };
        let minutes = match parse_int32(text, colon + 1, text.len()) {
            Some(minutes) => minutes,
            None => {
                return None;
            },
        };
        let total: i64 = hours as i64 * 3600 + minutes as i64 * 60;
        if sign == '+' {
            Offset::from_secs(total)
        } else {
            Offset::from_secs(-total)
        }
    }

    /// Reads an offset in fixed form: an abbreviation, a bare number of
    /// hours or a signed literal, tried in this order.
    ///
    /// The outer `None` says that `text` is not in fixed form, so that
    /// it may still name a zone; the inner one that it is in fixed form and
    /// stands for no legal offset.
    pub fn from_fixed_form(text: &Vec<char>) -> (offset: Option<Option<Offset>>)
        ensures
            offset is Some <==> is_fixed_form(text@),
            offset matches Some(inner) ==> {
                &&& inner is Some <==> fixed_secs(text@) is Some
                &&& inner matches Some(o) ==> fixed_secs(text@) == Some(o@)
            },
    {
        match Offset::from_alias(text) {
            Some(offset) => {
                return Some(Some(offset));
            },
            None => {},
        }
        match Offset::from_hours(text) {
            Some(inner) => {
                return Some(inner);
            },
            None => {},
        }
        if text.len() > 0 && (text[0] == '+' || text[0] == '-') {
            Some(Offset::from_signed_literal(text))
        } else {
            None
        }
    }

    /// The display text of the offset, as in `+05:30`.
    pub fn label(&self) -> (text: String)
        ensures
            text@ == offset_text(self@),
    {
        proof {
            use_type_invariant(self);
            reveal_strlit("+");
            reveal_strlit("-");
            reveal_strlit(":");
        }
        let secs: i64 = self.secs as i64;
        let distance: i64 = if secs < 0 {
            -secs
        } else {
            secs
        };
        let mut text = String::new();
        if secs >= 0 {
            text.append("+");
        } else {
            text.append("-");
        }
        push_zero_padded(&mut text, distance / 3600, 2);
        text.append(":");
        push_zero_padded(&mut text, (distance % 3600) / 60, 2);
        assert(text@ =~= offset_text(self@));
        text
    }
}

} // verus!
