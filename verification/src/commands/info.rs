//! Details of one anime or manga: what is asked for, and the report that is shown.

use crate::api::{Credit, InfoVariables, Media, NextAiring};
use crate::commands::Command;
use crate::display::{
    count_text, date_text, format_count, format_date, format_instant, instant_text, styled_cell,
    text_or, text_or_default, title_text, RenderError,
};
use crate::table::{
    cells_view, lines_of_rows, lines_of_texts, listing, listing_rows, listing_titles, rows_view,
    texts_view, StyledCell, Tint,
};
use crate::text::{decimal_text, push_decimal};
use crate::zones::{timestamp_in_range, TIMESTAMP_MAX, TIMESTAMP_MIN};
use vstd::prelude::*;
use vstd::string::*;
use vstd::utf8::encode_utf8;

verus! {

/// The GraphQL document that asks for the details of one work.
pub const INFO_QUERY: &'static str = "
            query ($id: Int, $type: MediaType) {
                Media(id: $id, type: $type) {
                    id
                    title {
                        romaji
                        english
                        native
                    }
                    type
                    format
                    status
                    description
                    episodes
                    chapters
                    volumes
                    duration
                    averageScore
                    popularity
                    startDate {
                        year
                        month
                        day
                    }
                    endDate {
                        year
                        month
                        day
                    }
                    nextAiringEpisode {
                        episode
                        airingAt
                    }
                    characters(sort: ROLE) {
                        nodes {
                            role
                            character {
                                name {
                                    full
                                }
                                image {
                                    medium
                                }
                            }
                        }
                    }
                    staff {
                        nodes {
                            role
                            person {
                                name {
                                    full
                                }
                                image {
                                    medium
                                }
                            }
                        }
                    }
                }
            }
        ";

/// The most characters, and the most members of the staff, that a report names.
pub const MAX_CREDITS: usize = 5;

/// Command to show detailed information about an anime or a manga.
pub struct InfoCommand {
    /// The number of the work at the service.
    pub id: i32,
    /// `ANIME` or `MANGA`.
    pub media_type: String,
    /// Whether to name the main characters.
    pub show_characters: bool,
    /// Whether to name the key staff.
    pub show_staff: bool,
}

/// A heading and the rule drawn under it.
pub struct Heading {
    pub text: String,
    /// As many equals signs as the heading has bytes.
    pub rule: String,
}

/// All that is shown of one work.
pub struct InfoReport {
    /// The title of the work, as a heading.
    pub title: Heading,
    /// The table of properties: a name and a value in each row.
    pub properties: prettytable::Table,
    /// The description, where the service gave one.
    pub description: Option<String>,
    /// The line of the first day, as in `Start: 2024-04-05`.
    pub start: String,
    /// The line of the last day, as in `End: Unknown`.
    pub end: String,
    /// The line of the next episode, where one is to air.
    pub next_episode: Option<String>,
    /// A line for each of the first main characters, where they were
    /// asked for and the service named any.
    pub characters: Option<Vec<String>>,
    /// A line for each of the first members of the staff, where they were
    /// asked for and the service named any.
    pub staff: Option<Vec<String>>,
}

/// The rule under a heading: an equals sign for each byte of the heading's text.
pub open spec fn rule_text(heading: Seq<char>) -> Seq<char> {
    Seq::new(encode_utf8(heading).len(), |i: int| '=')
}

/// The text to show for the length of an episode, as in `24 min`.
pub open spec fn duration_minutes_text(minutes: Option<i64>) -> Seq<char> {
    match minutes {
        Some(n) => decimal_text(n as int) + " min"@,
        None => "?"@,
    }
}

/// One row of the table of properties.
pub open spec fn property_row(name: Seq<char>, value: Seq<char>) -> Seq<(Seq<char>, Tint)> {
    seq![(name, Tint::Cyan), (value, Tint::White)]
}

/// The table of properties of a work.
pub open spec fn property_rows(media: Media) -> Seq<Seq<(Seq<char>, Tint)>> {
    seq![
        property_row("Type"@, text_or(media.media_type, "Unknown"@)),
        property_row("Format"@, text_or(media.format, "Unknown"@)),
        property_row("Status"@, text_or(media.status, "Unknown"@)),
        property_row("Episodes"@, count_text(media.episodes)),
        property_row("Chapters"@, count_text(media.chapters)),
        property_row("Volumes"@, count_text(media.volumes)),
        property_row("Duration"@, duration_minutes_text(media.duration)),
        property_row("Score"@, text_or(media.score, "?"@)),
        property_row("Popularity"@, count_text(media.popularity)),
    ]
}

/// The titles of the table of properties.
pub open spec fn property_titles() -> Seq<Seq<char>> {
    seq!["Property"@, "Value"@]
}

/// When the next episode is taken to air: at the Unix epoch where the service did not say.
pub open spec fn next_instant(next: NextAiring) -> int {
    match next.airing_at {
        Some(instant) => instant as int,
        None => 0,
    }
}

/// The line of an episode that airs at a time that reads `when`.
pub open spec fn episode_line(episode: Option<i64>, when: Seq<char>) -> Seq<char> {
    "Episode "@ + count_text(episode) + " airs on "@ + when
}

/// The line of the next episode, as in `Episode 12 airs on 2024-04-05 12:30`, in UTC.
pub open spec fn next_episode_text(next: NextAiring) -> Seq<char> {
    episode_line(next.episode, instant_text(next_instant(next), 0, "%Y-%m-%d %H:%M"@))
}

/// The line of someone with a part in a work, as in `MAIN: Frieren`.
pub open spec fn credit_text(credit: Credit) -> Seq<char> {
    text_or(credit.role, "Unknown"@) + ": "@ + text_or(credit.name, "Unknown"@)
}

/// The lines of the first of `credits`, as many as a report names.
pub open spec fn credit_lines(credits: Seq<Credit>) -> Seq<Seq<char>> {
    let shown = if credits.len() > 5 {
        credits.take(5)
    } else {
        credits
    };
    shown.map_values(|credit: Credit| credit_text(credit))
}

/// The lines of a list that may not be shown: nothing where it was not
/// asked for or the service gave none.
pub open spec fn shown_credits(asked: bool, credits: Option<Vec<Credit>>) -> Option<Seq<Seq<char>>> {
    match credits {
        Some(list) => if asked {
            Some(credit_lines(list@))
        } else {
            None
        },
        None => None,
    }
}

/// The texts of lines that may be missing.
pub open spec fn lines_view(lines: Option<Vec<String>>) -> Option<Seq<Seq<char>>> {
    match lines {
        Some(lines) => Some(texts_view(lines@)),
        None => None,
    }
}

/// A heading with the rule under it.
pub fn heading(text: &str) -> (heading: Heading)
    ensures
        heading.text@ == text@,
        heading.rule@ == rule_text(text@),
{
    let width = text.as_bytes().len();
    let mut rule = String::new();
    let mut i: usize = 0;
    while i < width
        invariant
            i <= width,
            rule@ == Seq::new(i as nat, |k: int| '='),
        decreases width - i,
    {
        proof {
            reveal_strlit("=");
        }
        rule.append("=");
        i = i + 1;
        assert(rule@ =~= Seq::new(i as nat, |k: int| '='));
    }
    Heading { text: String::from_str(text), rule }
}

/// The line of someone with a part in a work.
pub fn credit_line(credit: &Credit) -> (line: String)
    ensures
        line@ == credit_text(*credit),
{
    let mut line = text_or_default(&credit.role, "Unknown");
    line.append(": ");
    let name = text_or_default(&credit.name, "Unknown");
    line.append(name.as_str());
    line
}

/// The lines of a list that may not be shown.
pub fn credits(asked: bool, named: &Option<Vec<Credit>>) -> (lines: Option<Vec<String>>)
    ensures
        lines_view(lines) == shown_credits(asked, *named),
{
    let list = match named {
        Some(list) => list,
        None => {
            return None;
        },
    };
    if !asked {
        return None;
    }
    let count = if list.len() > MAX_CREDITS {
        MAX_CREDITS
    } else {
        list.len()
    };
    let mut lines: Vec<String> = Vec::new();
    let mut i: usize = 0;
    while i < count
        invariant
            i <= count <= list.len(),
            lines@.len() == i,
            forall|j: int| 0 <= j < i ==> (#[trigger] lines@[j])@ == credit_text(list@[j]),
        decreases count - i,
    {
        lines.push(credit_line(&list[i]));
        i = i + 1;
    }
    assert(texts_view(lines@) =~= credit_lines(list@));
    Some(lines)
}

impl InfoCommand {
    /// A command to show the work with the number `id`.
    pub fn new(id: i32, media_type: String, show_characters: bool, show_staff: bool) -> (command: Self)
        ensures
            command.id == id,
            command.media_type == media_type,
            command.show_characters == show_characters,
            command.show_staff == show_staff,
    {
        InfoCommand { id, media_type, show_characters, show_staff }
    }

    /// The variables of the query: what the command was made with.
    pub fn variables(&self) -> (variables: InfoVariables)
        ensures
            variables.id == self.id,
            variables.media_type == self.media_type,
    {
        InfoVariables { id: self.id, media_type: self.media_type.clone() }
    }

    /// The table of properties of a work.
    pub fn properties(media: &Media) -> (rows: Vec<Vec<StyledCell>>)
        ensures
            rows_view(rows@) == property_rows(*media),
    {
        let mut duration = String::new();
        match media.duration {
            Some(minutes) => {
                push_decimal(&mut duration, minutes);
                duration.append(" min");
            },
            None => {
                duration.append("?");
            },
        }
        assert(duration@ =~= duration_minutes_text(media.duration));
        let mut rows: Vec<Vec<StyledCell>> = Vec::new();
        rows.push(property("Type", text_or_default(&media.media_type, "Unknown")));
        rows.push(property("Format", text_or_default(&media.format, "Unknown")));
        rows.push(property("Status", text_or_default(&media.status, "Unknown")));
        rows.push(property("Episodes", format_count(media.episodes)));
        rows.push(property("Chapters", format_count(media.chapters)));
        rows.push(property("Volumes", format_count(media.volumes)));
        rows.push(property("Duration", duration));
        rows.push(property("Score", text_or_default(&media.score, "?")));
        rows.push(property("Popularity", format_count(media.popularity)));
        assert(rows_view(rows@) =~= property_rows(*media));
        rows
    }

    /// The table of properties of a work, under its two titles.
    pub fn properties_table(media: &Media) -> (table: prettytable::Table)
        ensures
            listing_titles(table) == lines_of_texts(property_titles()),
            listing_rows(table) == lines_of_rows(property_rows(*media)),
    {
        let mut titles: Vec<String> = Vec::new();
        titles.push(String::from_str("Property"));
        titles.push(String::from_str("Value"));
        assert(texts_view(titles@) =~= property_titles());
        listing(&titles, &InfoCommand::properties(media))
    }

    /// The line of the next episode, or an error where it airs at an
    /// instant that the calendar cannot represent.
    pub fn next_episode(next: &NextAiring) -> (line: Result<String, RenderError>)
        ensures
            line is Ok <==> timestamp_in_range(next_instant(*next)),
            line matches Ok(text) ==> text@ == next_episode_text(*next),
            line matches Err(e) ==> e == RenderError::InstantOutOfRange,
    {
        let instant: i64 = match next.airing_at {
            Some(instant) => instant,
            None => 0,
        };
        if instant < TIMESTAMP_MIN || instant > TIMESTAMP_MAX {
            return Err(RenderError::InstantOutOfRange);
        }
        let when = format_instant(instant, 0, "%Y-%m-%d %H:%M");
        Ok(InfoCommand::next_episode_line(next.episode, when.as_str()))
    }

    /// The line of an episode that airs at a time that reads `when`.
    pub fn next_episode_line(episode: Option<i64>, when: &str) -> (line: String)
        ensures
            line@ == episode_line(episode, when@),
    {
        let mut line = String::from_str("Episode ");
        let number = format_count(episode);
        line.append(number.as_str());
        line.append(" airs on ");
        line.append(when);
        assert(line@ =~= episode_line(episode, when@));
        line
    }

    /// All that is shown of a work, or an error where its next episode
    /// airs at an instant that the calendar cannot represent.
    pub fn report(&self, media: &Media) -> (report: Result<InfoReport, RenderError>)
        ensures
            report is Ok <==> (media.next_airing matches Some(next) ==> timestamp_in_range(
                next_instant(next),
            )),
            report matches Ok(r) ==> {
                &&& r.title.text@ == title_text(media.title)
                &&& r.title.rule@ == rule_text(title_text(media.title))
                &&& listing_titles(r.properties) == lines_of_texts(property_titles())
                &&& listing_rows(r.properties) == lines_of_rows(property_rows(*media))
                &&& r.description == media.description
                &&& r.start@ == "Start: "@ + date_text(media.start_date)
                &&& r.end@ == "End: "@ + date_text(media.end_date)
                &&& match media.next_airing {
                    Some(next) => r.next_episode matches Some(line) && line@ == next_episode_text(next),
                    None => r.next_episode is None,
                }
                &&& lines_view(r.characters) == shown_credits(self.show_characters, media.characters)
                &&& lines_view(r.staff) == shown_credits(self.show_staff, media.staff)
            },
            report matches Err(e) ==> e == RenderError::InstantOutOfRange,
    {
        let next_episode = match &media.next_airing {
            Some(next) => match InfoCommand::next_episode(next) {
                Ok(line) => Some(line),
                Err(e) => {
                    return Err(e);
                },
            },
            None => None,
        };
        let title = media.title.display();
        let mut start = String::from_str("Start: ");
        let first = format_date(&media.start_date);
        start.append(first.as_str());
        let mut end = String::from_str("End: ");
        let last = format_date(&media.end_date);
        end.append(last.as_str());
        Ok(
            InfoReport {
                title: heading(title.as_str()),
                properties: InfoCommand::properties_table(media),
                description: media.description.clone(),
                start,
                end,
                next_episode,
                characters: credits(self.show_characters, &media.characters),
                staff: credits(self.show_staff, &media.staff),
            },
        )
    }
}

/// One row of the table of properties.
pub fn property(name: &str, value: String) -> (cells: Vec<StyledCell>)
    ensures
        cells_view(cells@) == property_row(name@, value@),
{
    let mut cells: Vec<StyledCell> = Vec::new();
    cells.push(styled_cell(String::from_str(name), Tint::Cyan));
    cells.push(styled_cell(value, Tint::White));
    assert(cells_view(cells@) =~= property_row(name@, value@));
    cells
}

impl Command for InfoCommand {
    fn query(&self) -> (document: &'static str)
        ensures
            document@ == INFO_QUERY@,
    {
        INFO_QUERY
    }
}

} // verus!
