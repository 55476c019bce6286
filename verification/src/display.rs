//! Display text for instants and the cells of a result table.

use crate::api::{FuzzyDate, Media, Title};
use crate::offset::Offset;
use crate::table::{cells_view, rows_view, StyledCell, Tint};
use crate::text::{decimal_text, push_decimal, push_zero_padded, text_eq, zero_padded_text};
use crate::zones::{timestamp_in_range, TIMESTAMP_MAX, TIMESTAMP_MIN};
use vstd::prelude::*;
use vstd::string::*;

verus! {

/// What `chrono` writes for the instant `instant`, shown at `offset`
/// seconds east of UTC, under the strftime pattern `pattern`.
pub uninterp spec fn instant_text(instant: int, offset: int, pattern: Seq<char>) -> Seq<char>;

/// The patterns that this crate writes instants with.
pub open spec fn is_known_pattern(pattern: Seq<char>) -> bool {
    ||| pattern =~= "%H:%M %m/%d/%y"@
    ||| pattern =~= "%Y-%m-%d %H:%M"@
    ||| pattern =~= "%Y-%m-%d %H:%M:%S %Z"@
}

/// `chrono::DateTime::format`, written out with `to_string`, of the instant
/// `chrono::DateTime::from_timestamp(instant, 0)` moved to the offset
/// `chrono::FixedOffset::east_opt(offset_secs)` by
/// `chrono::DateTime::with_timezone`. The text depends on the instant, the
/// offset and the pattern alone. The instant and the offset have to be
/// ones that `chrono` can represent, and the pattern one that it can parse.
#[verifier::external_body]
pub(crate) fn format_instant(instant: i64, offset_secs: i32, pattern: &str) -> (text: String)
    requires
        timestamp_in_range(instant as int),
        -86_400 < offset_secs < 86_400,
        is_known_pattern(pattern@),
    ensures
        text@ == instant_text(instant as int, offset_secs as int, pattern@),
{
    let zone = chrono::FixedOffset::east_opt(offset_secs).unwrap();
    let utc = chrono::DateTime::from_timestamp(instant, 0).unwrap();
    utc.with_timezone(&zone).format(pattern).to_string()
}

/// The time of day and the date of `instant` at `offset`, as in `21:30 04/05/24`.
pub open spec fn datetime_text(instant: int, offset: int) -> Seq<char> {
    instant_text(instant, offset, "%H:%M %m/%d/%y"@)
}

/// Writes the time of day and the date of an instant in the user's
/// timezone, without naming the timezone, as in `21:30 04/05/24`.
pub fn format_datetime(instant: i64, timezone: Offset) -> (text: String)
    requires
        timestamp_in_range(instant as int),
    ensures
        text@ == datetime_text(instant as int, timezone@),
{
    format_instant(instant, timezone.local_minus_utc(), "%H:%M %m/%d/%y")
}

/// Writes the time of day and the date of an instant as
/// [`format_datetime`] does, or nothing where the instant lies outside
/// what the calendar can represent.
pub fn try_format_datetime(instant: i64, timezone: Offset) -> (text: Option<String>)
    ensures
        text is Some <==> timestamp_in_range(instant as int),
        text matches Some(t) ==> t@ == datetime_text(instant as int, timezone@),
{
    if TIMESTAMP_MIN <= instant && instant <= TIMESTAMP_MAX {
        Some(format_datetime(instant, timezone))
    } else {
        None
    }
}

/// Why a response could not be shown.
#[derive(Clone, Copy, Debug, PartialEq, Eq, Structural)]
pub enum RenderError {
    /// An airing lies at an instant that the calendar cannot represent.
    InstantOutOfRange,
}

impl RenderError {
    /// The error in words.
    pub fn message(&self) -> (text: String)
        ensures
            text@ == "airing time is out of range"@,
    {
        String::from_str("airing time is out of range")
    }
}

/// The title to show for a work: the English one, else the one in Latin
/// letters, else `Unknown Title`.
pub open spec fn title_text(title: Title) -> Seq<char> {
    match title.english {
        Some(english) => english@,
        None => match title.romaji {
            Some(romaji) => romaji@,
            None => "Unknown Title"@,
        },
    }
}

/// The text to show for a text that may be missing: `fallback` where it is.
pub open spec fn text_or(value: Option<String>, fallback: Seq<char>) -> Seq<char> {
    match value {
        Some(text) => text@,
        None => fallback,
    }
}

/// The text to show for a number that may be missing: a question mark where it is.
pub open spec fn count_text(value: Option<i64>) -> Seq<char> {
    match value {
        Some(n) => decimal_text(n as int),
        None => "?"@,
    }
}

/// A part of a date, zero where it is missing.
pub open spec fn part_or_zero(part: Option<i64>) -> int {
    match part {
        Some(n) => n as int,
        None => 0,
    }
}

/// The text to show for a date: `Unknown` where year, month and day are
/// all zero or missing, else the year in four digits and the month and
/// the day in two, as in `2024-04-05`.
pub open spec fn date_text(date: FuzzyDate) -> Seq<char> {
    let year = part_or_zero(date.year);
    let month = part_or_zero(date.month);
    let day = part_or_zero(date.day);
    if year == 0 && month == 0 && day == 0 {
        "Unknown"@
    } else {
        zero_padded_text(year, 4) + "-"@ + zero_padded_text(month, 2) + "-"@ + zero_padded_text(day, 2)
    }
}

impl Title {
    /// The title to show: the English one, else the one in Latin letters,
    /// else `Unknown Title`.
    pub fn display(&self) -> (text: String)
        ensures
            text@ == title_text(*self),
    {
        match &self.english {
            Some(english) => english.clone(),
            None => match &self.romaji {
                Some(romaji) => romaji.clone(),
                None => String::from_str("Unknown Title"),
            },
        }
    }
}

/// The text to show for a text that may be missing.
pub fn text_or_default(value: &Option<String>, fallback: &str) -> (text: String)
    ensures
        text@ == text_or(*value, fallback@),
{
    match value {
        Some(text) => text.clone(),
        None => String::from_str(fallback),
    }
}

/// The text to show for a number that may be missing.
pub fn format_count(value: Option<i64>) -> (text: String)
    ensures
        text@ == count_text(value),
{
    let mut text = String::new();
    match value {
        Some(n) => push_decimal(&mut text, n),
        None => text.append("?"),
    }
    assert(text@ =~= count_text(value));
    text
}

/// The text to show for a date.
pub fn format_date(date: &FuzzyDate) -> (text: String)
    ensures
        text@ == date_text(*date),
{
    let year = match date.year {
        Some(n) => n,
        None => 0,
    };
    let month = match date.month {
        Some(n) => n,
        None => 0,
    };
    let day = match date.day {
        Some(n) => n,
        None => 0,
    };
    let mut text = String::new();
    if year == 0 && month == 0 && day == 0 {
        text.append("Unknown");
    } else {
        push_zero_padded(&mut text, year, 4);
        text.append("-");
        push_zero_padded(&mut text, month, 2);
        text.append("-");
        push_zero_padded(&mut text, day, 2);
    }
    assert(text@ =~= date_text(*date));
    text
}

/// The texts of a list of names that may be missing, `Unknown` for each that is.
pub open spec fn names_view(names: Seq<Option<String>>) -> Seq<Seq<char>> {
    names.map_values(|name: Option<String>| text_or(name, "Unknown"@))
}

/// `names` in a row, with a comma and a space between one and the next.
pub open spec fn joined_text(names: Seq<Seq<char>>) -> Seq<char>
    decreases names.len(),
{
    if names.len() == 0 {
        Seq::empty()
    } else if names.len() == 1 {
        names[0]
    } else {
        joined_text(names.drop_last()) + ", "@ + names.last()
    }
}

/// The text to show for the genres of a work: their names with commas
/// between, and `Unknown` where the list is missing.
pub open spec fn genres_text(genres: Option<Vec<Option<String>>>) -> Seq<char> {
    match genres {
        Some(names) => joined_text(names_view(names@)),
        None => "Unknown"@,
    }
}

/// The kind of a work as shown: `Unknown` where it is missing.
pub open spec fn kind_text(item: Media) -> Seq<char> {
    text_or(item.media_type, "Unknown"@)
}

/// How long a work is: the number of episodes of an anime, and the
/// number of chapters of anything else.
pub open spec fn length_text(item: Media) -> Seq<char> {
    if kind_text(item) =~= seq!['A', 'N', 'I', 'M', 'E'] {
        count_text(item.episodes)
    } else {
        count_text(item.chapters)
    }
}

/// The row of a work in a list of works: its title, kind, format, status,
/// length, score and first day, each in its colour. A ranked list shows
/// the popularity and the genres before the first day as well.
pub open spec fn media_row_view(item: Media, ranked: bool) -> Seq<(Seq<char>, Tint)> {
    let head = seq![
        (title_text(item.title), Tint::Cyan),
        (kind_text(item), Tint::Yellow),
        (text_or(item.format, "Unknown"@), Tint::Green),
        (text_or(item.status, "Unknown"@), Tint::Magenta),
        (length_text(item), Tint::Blue),
        (text_or(item.score, "?"@), Tint::Red),
    ];
    let day = seq![(date_text(item.start_date), Tint::White)];
    if ranked {
        head + seq![(count_text(item.popularity), Tint::White), (genres_text(item.genres), Tint::Green)]
            + day
    } else {
        head + day
    }
}

/// The rows of a list of works: one for each, in order.
pub open spec fn media_rows_view(items: Seq<Media>, ranked: bool) -> Seq<Seq<(Seq<char>, Tint)>> {
    items.map_values(|item: Media| media_row_view(item, ranked))
}

/// The text to show for the genres of a work.
pub fn format_genres(genres: &Option<Vec<Option<String>>>) -> (text: String)
    ensures
        text@ == genres_text(*genres),
{
    match genres {
        Some(names) => {
            let mut text = String::new();
            let mut i: usize = 0;
            assert(names_view(names@.take(0)) =~= Seq::<Seq<char>>::empty());
            while i < names.len()
                invariant
                    i <= names.len(),
                    text@ == joined_text(names_view(names@.take(i as int))),
                decreases names.len() - i,
            {
                if i > 0 {
                    text.append(", ");
                }
                let name = text_or_default(&names[i], "Unknown");
                text.append(name.as_str());
                proof {
                    let upto = names_view(names@.take(i + 1));
                    assert(upto.drop_last() =~= names_view(names@.take(i as int)));
                    assert(upto.last() == name@);
                    if i == 0 {
                        assert(text@ =~= name@);
                    } else {
                        assert(text@ =~= joined_text(upto.drop_last()) + ", "@ + name@);
                    }
                }
                i = i + 1;
            }
            assert(names@.take(names.len() as int) =~= names@);
            text
        },
        None => String::from_str("Unknown"),
    }
}

/// A cell with the text `text` in the colour `tint`.
pub fn styled_cell(text: String, tint: Tint) -> (cell: StyledCell)
    ensures
        cell@ == (text@, tint),
{
    StyledCell { text, tint }
}

/// The row of a work in a list of works.
pub fn media_row(item: &Media, ranked: bool) -> (cells: Vec<StyledCell>)
    ensures
        cells_view(cells@) == media_row_view(*item, ranked),
{
    let kind = text_or_default(&item.media_type, "Unknown");
    proof {
        reveal_strlit("ANIME");
        assert("ANIME"@ =~= seq!['A', 'N', 'I', 'M', 'E']);
    }
    let length = if text_eq(kind.as_str(), "ANIME") {
        format_count(item.episodes)
    } else {
        format_count(item.chapters)
    };
    let mut cells: Vec<StyledCell> = Vec::new();
    cells.push(styled_cell(item.title.display(), Tint::Cyan));
    cells.push(styled_cell(kind, Tint::Yellow));
    cells.push(styled_cell(text_or_default(&item.format, "Unknown"), Tint::Green));
    cells.push(styled_cell(text_or_default(&item.status, "Unknown"), Tint::Magenta));
    cells.push(styled_cell(length, Tint::Blue));
    cells.push(styled_cell(text_or_default(&item.score, "?"), Tint::Red));
    if ranked {
        cells.push(styled_cell(format_count(item.popularity), Tint::White));
        cells.push(styled_cell(format_genres(&item.genres), Tint::Green));
    }
    cells.push(styled_cell(format_date(&item.start_date), Tint::White));
    assert(cells_view(cells@) =~= media_row_view(*item, ranked));
    cells
}

/// The rows of a list of works: one for each, in order.
pub fn media_rows(items: &Vec<Media>, ranked: bool) -> (rows: Vec<Vec<StyledCell>>)
    ensures
        rows_view(rows@) == media_rows_view(items@, ranked),
{
    let mut rows: Vec<Vec<StyledCell>> = Vec::new();
    let mut i: usize = 0;
    while i < items.len()
        invariant
            i <= items.len(),
            rows@.len() == i,
            rows_view(rows@) == media_rows_view(items@.take(i as int), ranked),
        decreases items.len() - i,
    {
        let ghost before = rows@;
        rows.push(media_row(&items[i], ranked));
        proof {
            let upto = items@.take(i + 1);
            assert(rows@.drop_last() =~= before);
            assert forall|j: int| 0 <= j < rows@.len() implies rows_view(rows@)[j] == media_rows_view(
                upto,
                ranked,
            )[j] by {
                if j < i {
                    assert(rows@[j] == before[j]);
                    assert(rows_view(before)[j] == media_rows_view(items@.take(i as int), ranked)[j]);
                }
            }
            assert(rows_view(rows@) =~= media_rows_view(upto, ranked));
        }
        i = i + 1;
    }
    assert(items@.take(items.len() as int) =~= items@);
    rows
}

} // verus!
