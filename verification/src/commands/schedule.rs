//! The airing schedule: a window of time, and one row for each airing in it.

use crate::api::{AiringSchedule, ScheduleVariables};
use crate::commands::Command;
use crate::display::{
    count_text, datetime_text, format_count, title_text, try_format_datetime, RenderError,
};
use crate::offset::{offset_text, Offset};
use crate::relative::{format_relative, relative_text};
use crate::table::{
    cells_view, framed_table, rows_view, table_header, table_rows, texts_view, StyledCell, Tint,
};
use crate::text::{to_uppercase, uppercase_text};
use crate::utils::{
    as_text, resolution_rejected, resolution_secs, resolve, string_text, text_of, Resolution,
};
use crate::window::{
    day_of_name, day_window, day_window_bounds, interval_window, interval_window_bounds, parse_day,
};
use crate::zones::{timestamp_in_range, utc_now};
use vstd::prelude::*;
use vstd::string::*;

verus! {

/// The GraphQL document that asks for the airings in a window of time.
pub const SCHEDULE_QUERY: &'static str = "
            query ($start: Int, $end: Int) {
                Page(perPage: 50) {
                    airingSchedules(airingAt_greater: $start, airingAt_lesser: $end) {
                        airingAt
                        episode
                        media {
                            title {
                                romaji
                                english
                            }
                        }
                    }
                }
            }
        ";

/// Command to show the airing schedule.
pub struct ScheduleCommand {
    /// The day of the week to show, by its English name in small letters.
    pub day: Option<String>,
    /// The number of days to show.
    pub interval: u32,
    /// The timezone to show times in.
    pub timezone: Option<String>,
    /// Whether to show what has aired in place of what is to come.
    pub past: bool,
}

/// When an airing is taken to air: at the Unix epoch where the service did not say.
pub open spec fn airing_instant(entry: AiringSchedule) -> int {
    match entry.airing_at {
        Some(instant) => instant as int,
        None => 0,
    }
}

/// The row of an airing whose time reads `time`: the title of the show,
/// the number of the episode, the time and how far off the airing is
/// from `now`, in red where it has aired and in blue where it has not.
pub open spec fn schedule_cells(entry: AiringSchedule, time: Seq<char>, now: int) -> Seq<
    (Seq<char>, Tint),
> {
    let instant = airing_instant(entry);
    seq![
        (title_text(entry.title), Tint::Cyan),
        (count_text(entry.episode), Tint::Yellow),
        (time, Tint::Green),
        (
            relative_text(instant, now),
            if instant < now {
                Tint::Red
            } else {
                Tint::Blue
            },
        ),
    ]
}

/// The row of one airing, with its time as it reads at `timezone`.
pub open spec fn schedule_row(entry: AiringSchedule, timezone: int, now: int) -> Seq<(Seq<char>, Tint)> {
    schedule_cells(entry, datetime_text(airing_instant(entry), timezone), now)
}

/// The header of a schedule: its four titles, the first with the name of the timezone.
pub open spec fn header_for(name: Seq<char>) -> Seq<Seq<char>> {
    seq!["Schedule ("@ + name + ")"@, "Episode"@, "Time"@, "Status"@]
}

/// The rows of a schedule: one for each airing, in order.
pub open spec fn schedule_rows(entries: Seq<AiringSchedule>, timezone: int, now: int) -> Seq<
    Seq<(Seq<char>, Tint)>,
> {
    entries.map_values(|entry: AiringSchedule| schedule_row(entry, timezone, now))
}

/// Whether every airing of `entries` airs at an instant that the calendar can represent.
pub open spec fn all_instants_in_range(entries: Seq<AiringSchedule>) -> bool {
    forall|i: int| 0 <= i < entries.len() ==> timestamp_in_range(airing_instant(#[trigger] entries[i]))
}

impl ScheduleCommand {
    /// A command to show `interval` days of the schedule from now on, or
    /// up to now where `past` is set, in the timezone `timezone`.
    pub fn new(interval: u32, timezone: Option<String>, past: bool) -> (command: Self)
        ensures
            command.day is None,
            command.interval == interval,
            command.timezone == timezone,
            command.past == past,
    {
        ScheduleCommand { day: None, interval, timezone, past }
    }

    /// The same command for one day of the week, where `day` names one.
    pub fn with_day(self, day: Option<String>) -> (command: Self)
        ensures
            command.day == day,
            command.interval == self.interval,
            command.timezone == self.timezone,
            command.past == self.past,
    {
        ScheduleCommand { day, interval: self.interval, timezone: self.timezone, past: self.past }
    }

    /// Resolves the timezone of the command, given the override from the
    /// environment: the offset to display in, and whether the timezone
    /// asked for was rejected and the user's default took its place.
    pub fn resolve_timezone(&self, env_tz: Option<&str>) -> (resolution: Resolution)
        ensures
            self.timezone is None ==> !resolution.rejected,
            exists|now: int, local: int|
                {
                    &&& timestamp_in_range(now)
                    &&& -86_400 < local < 86_400
                    &&& resolution.offset@ == #[trigger] resolution_secs(
                        string_text(self.timezone),
                        text_of(env_tz),
                        now,
                        local,
                    )
                    &&& resolution.rejected == resolution_rejected(string_text(self.timezone), now)
                },
    {
        resolve(as_text(&self.timezone), env_tz)
    }

    /// The timezone to display in, given the override from the environment.
    pub fn get_timezone(&self, env_tz: Option<&str>) -> (timezone: Offset)
        ensures
            exists|now: int, local: int|
                {
                    &&& timestamp_in_range(now)
                    &&& -86_400 < local < 86_400
                    &&& timezone@ == #[trigger] resolution_secs(
                        string_text(self.timezone),
                        text_of(env_tz),
                        now,
                        local,
                    )
                },
    {
        self.resolve_timezone(env_tz).offset
    }

    /// Whether the command names a day that is no day of the week, so
    /// that it shows its run of days instead.
    pub fn day_rejected(&self) -> (rejected: bool)
        ensures
            rejected == (self.day matches Some(name) && day_of_name(name@) is None),
    {
        match &self.day {
            Some(name) => parse_day(name.as_str()).is_none(),
            None => false,
        }
    }

    /// The window that the command asks for at the instant `now`: the
    /// calendar day at `timezone` of the day of the week that it names,
    /// else its run of days from `now` on or up to `now`.
    pub open spec fn window_bounds(&self, now: int, timezone: int) -> (int, int) {
        match self.day {
            Some(name) => match day_of_name(name@) {
                Some(day) => day_window_bounds(day, now, timezone),
                None => interval_window_bounds(now, self.interval as int, self.past),
            },
            None => interval_window_bounds(now, self.interval as int, self.past),
        }
    }

    /// The window that the command asks for at the instant `now`, in
    /// seconds since the Unix epoch.
    pub fn time_range_at(&self, now: i64, timezone: Offset) -> (range: (i64, i64))
        requires
            i64::MIN <= self.window_bounds(now as int, timezone@).0,
            self.window_bounds(now as int, timezone@).1 <= i64::MAX,
        ensures
            (range.0 as int, range.1 as int) == self.window_bounds(now as int, timezone@),
            range.0 <= range.1,
            self.interval > 0 ==> range.0 < range.1,
    {
        let day = match &self.day {
            Some(name) => parse_day(name.as_str()),
            None => None,
        };
        match day {
            Some(day) => day_window(day, now, timezone),
            None => interval_window(now, self.interval, self.past),
        }
    }

    /// The run of days that the command asks for, from the current
    /// instant on or up to it.
    pub fn get_time_range(&self) -> (range: (i64, i64))
        ensures
            range.1 - range.0 == self.interval * 86_400,
            exists|now: int|
                timestamp_in_range(now) && (range.0 as int, range.1 as int)
                    == #[trigger] interval_window_bounds(now, self.interval as int, self.past),
    {
        let now = utc_now();
        let range = interval_window(now, self.interval, self.past);
        assert((range.0 as int, range.1 as int) == interval_window_bounds(
            now as int,
            self.interval as int,
            self.past,
        ));
        range
    }

    /// The variables of the query for the window at the instant `now`.
    pub fn variables_at(&self, now: i64, timezone: Offset) -> (variables: ScheduleVariables)
        requires
            i64::MIN <= self.window_bounds(now as int, timezone@).0,
            self.window_bounds(now as int, timezone@).1 <= i64::MAX,
        ensures
            (variables.start as int, variables.end as int) == self.window_bounds(now as int, timezone@),
    {
        let (start, end) = self.time_range_at(now, timezone);
        ScheduleVariables { start, end }
    }

    /// The variables of the query for the window at the current instant.
    pub fn variables(&self, timezone: Offset) -> (variables: ScheduleVariables)
        ensures
            variables.start <= variables.end,
            exists|now: int|
                timestamp_in_range(now) && (variables.start as int, variables.end as int)
                    == #[trigger] self.window_bounds(now, timezone@),
    {
        let now = utc_now();
        let (start, end) = self.time_range_at(now, timezone);
        assert((start as int, end as int) == self.window_bounds(now as int, timezone@));
        ScheduleVariables { start, end }
    }

    /// Says in words how far the instant `airing_at` is from the current one.
    pub fn format_relative_time(&self, airing_at: i64) -> (text: String)
        ensures
            exists|now: int|
                timestamp_in_range(now) && text@ == #[trigger] relative_text(airing_at as int, now),
    {
        let now = utc_now();
        let text = format_relative(airing_at, now);
        assert(text@ == relative_text(airing_at as int, now as int));
        text
    }

    /// The name of the timezone for the header: what was asked for, in
    /// capitals, else `UTC` and the offset as in `UTC+05:30`.
    pub open spec fn timezone_label(&self, timezone: int) -> Seq<char> {
        match self.timezone {
            Some(tz) => uppercase_text(tz@),
            None => "UTC"@ + offset_text(timezone),
        }
    }

    /// The name of the timezone for the header.
    pub fn timezone_name(&self, timezone: Offset) -> (name: String)
        ensures
            name@ == self.timezone_label(timezone@),
    {
        match &self.timezone {
            Some(tz) => to_uppercase(tz.as_str()),
            None => {
                let mut name = String::from_str("UTC");
                let label = timezone.label();
                name.append(label.as_str());
                name
            },
        }
    }

    /// The header of the schedule.
    pub open spec fn header_texts(&self, timezone: int) -> Seq<Seq<char>> {
        header_for(self.timezone_label(timezone))
    }

    /// The header of the schedule with `name` for the name of the timezone.
    pub fn header_with(name: &str) -> (titles: Vec<String>)
        ensures
            texts_view(titles@) == header_for(name@),
    {
        let mut first = String::from_str("Schedule (");
        first.append(name);
        first.append(")");
        let mut titles: Vec<String> = Vec::new();
        titles.push(first);
        titles.push(String::from_str("Episode"));
        titles.push(String::from_str("Time"));
        titles.push(String::from_str("Status"));
        assert(texts_view(titles@) =~= header_for(name@));
        titles
    }

    /// The header of the schedule: its four titles, the first with the
    /// name of the timezone.
    pub fn header(&self, timezone: Offset) -> (titles: Vec<String>)
        ensures
            texts_view(titles@) == self.header_texts(timezone@),
    {
        let name = self.timezone_name(timezone);
        ScheduleCommand::header_with(name.as_str())
    }

    /// The row of an airing whose time reads `time`.
    pub fn cells(entry: &AiringSchedule, time: String, now: i64) -> (cells: Vec<StyledCell>)
        ensures
            cells_view(cells@) == schedule_cells(*entry, time@, now as int),
    {
        let instant: i64 = match entry.airing_at {
            Some(instant) => instant,
            None => 0,
        };
        let status = if instant < now {
            Tint::Red
        } else {
            Tint::Blue
        };
        let mut cells: Vec<StyledCell> = Vec::new();
        cells.push(StyledCell { text: entry.title.display(), tint: Tint::Cyan });
        cells.push(StyledCell { text: format_count(entry.episode), tint: Tint::Yellow });
        cells.push(StyledCell { text: time, tint: Tint::Green });
        cells.push(StyledCell { text: format_relative(instant, now), tint: status });
        assert(cells_view(cells@) =~= schedule_cells(*entry, time@, now as int));
        cells
    }

    /// The row of one airing, or an error where it airs at an instant
    /// that the calendar cannot represent.
    pub fn row(entry: &AiringSchedule, timezone: Offset, now: i64) -> (cells: Result<
        Vec<StyledCell>,
        RenderError,
    >)
        ensures
            cells is Ok <==> timestamp_in_range(airing_instant(*entry)),
            cells matches Ok(cells) ==> cells_view(cells@) == schedule_row(
                *entry,
                timezone@,
                now as int,
            ),
            cells matches Err(e) ==> e == RenderError::InstantOutOfRange,
    {
        let instant: i64 = match entry.airing_at {
            Some(instant) => instant,
            None => 0,
        };
        match try_format_datetime(instant, timezone) {
            Some(time) => Ok(ScheduleCommand::cells(entry, time, now)),
            None => Err(RenderError::InstantOutOfRange),
        }
    }

    /// The rows of the schedule, one for each airing and in their order,
    /// or an error where one of them airs at an instant that the calendar
    /// cannot represent.
    pub fn rows(entries: &Vec<AiringSchedule>, timezone: Offset, now: i64) -> (rows: Result<
        Vec<Vec<StyledCell>>,
        RenderError,
    >)
        ensures
            rows is Ok <==> all_instants_in_range(entries@),
            rows matches Ok(rows) ==> rows_view(rows@) == schedule_rows(
                entries@,
                timezone@,
                now as int,
            ),
            rows matches Err(e) ==> e == RenderError::InstantOutOfRange,
    {
        let mut rows: Vec<Vec<StyledCell>> = Vec::new();
        let mut i: usize = 0;
        while i < entries.len()
            invariant
                i <= entries.len(),
                rows@.len() == i,
                all_instants_in_range(entries@.take(i as int)),
                rows_view(rows@) == schedule_rows(entries@.take(i as int), timezone@, now as int),
            decreases entries.len() - i,
        {
            let ghost before = rows@;
            match ScheduleCommand::row(&entries[i], timezone, now) {
                Ok(cells) => {
                    rows.push(cells);
                },
                Err(e) => {
                    assert(!timestamp_in_range(airing_instant(entries@[i as int])));
                    return Err(e);
                },
            }
            proof {
                let upto = entries@.take(i + 1);
                assert(upto.drop_last() =~= entries@.take(i as int));
                assert forall|j: int| 0 <= j < upto.len() implies timestamp_in_range(
                    airing_instant(#[trigger] upto[j]),
                ) by {
                    if j < i {
                        assert(upto[j] == entries@.take(i as int)[j]);
                    }
                }
                assert(rows@.drop_last() =~= before);
                assert(rows@.len() == i + 1);
                assert forall|j: int| 0 <= j < rows@.len() implies rows_view(rows@)[j] == schedule_rows(
                    upto,
                    timezone@,
                    now as int,
                )[j] by {
                    if j < i {
                        assert(rows@[j] == before[j]);
                        assert(rows_view(before)[j] == schedule_rows(
                            entries@.take(i as int),
                            timezone@,
                            now as int,
                        )[j]);
                    }
                }
                assert(rows_view(rows@) =~= schedule_rows(upto, timezone@, now as int));
            }
            i = i + 1;
        }
        assert(entries@.take(entries.len() as int) =~= entries@);
        Ok(rows)
    }

    /// The table of the schedule as it stands at the instant `now`: the
    /// header of the command and one row for each airing, or an error
    /// where one of them airs at an instant that the calendar cannot represent.
    pub fn table_at(&self, entries: &Vec<AiringSchedule>, timezone: Offset, now: i64) -> (table:
        Result<comfy_table::Table, RenderError>)
        ensures
            table is Ok <==> all_instants_in_range(entries@),
            table matches Ok(table) ==> {
                &&& table_header(table) == self.header_texts(timezone@)
                &&& table_rows(table) == schedule_rows(entries@, timezone@, now as int)
            },
            table matches Err(e) ==> e == RenderError::InstantOutOfRange,
    {
        let rows = match ScheduleCommand::rows(entries, timezone, now) {
            Ok(rows) => rows,
            Err(e) => {
                return Err(e);
            },
        };
        let titles = self.header(timezone);
        Ok(framed_table(&titles, &rows))
    }

    /// The table of the schedule as it stands at the current instant.
    pub fn table(&self, entries: &Vec<AiringSchedule>, timezone: Offset) -> (table: Result<
        comfy_table::Table,
        RenderError,
    >)
        ensures
            table is Ok <==> all_instants_in_range(entries@),
            table matches Ok(table) ==> {
                &&& table_header(table) == self.header_texts(timezone@)
                &&& exists|now: int|
                    timestamp_in_range(now) && table_rows(table) == #[trigger] schedule_rows(
                        entries@,
                        timezone@,
                        now,
                    )
            },
            table matches Err(e) ==> e == RenderError::InstantOutOfRange,
    {
        let now = utc_now();
        let table = self.table_at(entries, timezone, now);
        proof {
            if table is Ok {
                assert(table_rows(table->Ok_0) == schedule_rows(entries@, timezone@, now as int));
            }
        }
        table
    }
}

impl Command for ScheduleCommand {
    fn query(&self) -> (document: &'static str)
        ensures
            document@ == SCHEDULE_QUERY@,
    {
        SCHEDULE_QUERY
    }
}

} // verus!
