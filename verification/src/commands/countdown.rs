//! The countdown to the next airing: which episode comes next, what a
//! frame of the display says, and when the display is drawn again or left.

use crate::api::{AiringSchedule, CountdownVariables};
use crate::commands::schedule::airing_instant;
use crate::commands::Command;
use crate::display::{count_text, format_count, format_instant, instant_text, title_text, RenderError};
use crate::offset::Offset;
use crate::relative::{duration_text, format_duration};
use crate::utils::{
    as_text, resolution_rejected, resolution_secs, resolve, string_text, text_of, Resolution,
};
use crate::zones::{
    seconds_until, timestamp_in_range, utc_now, TIMESTAMP_MAX, TIMESTAMP_MIN,
};
use vstd::prelude::*;
use vstd::string::*;

verus! {

/// The GraphQL document that asks for the next airing after an instant.
pub const COUNTDOWN_QUERY: &'static str = "
            query ($now: Int) {
                Page(perPage: 1) {
                    airingSchedules(airingAt_greater: $now, sort: AIRING_AT) {
                        airingAt
                        episode
                        media {
                            title {
                                romaji
                                english
                            }
                        }
                    }
                }
            }
        ";

/// The milliseconds that pass between two frames of the display.
pub const FRAME_MILLIS: u64 = 100;

/// The key that leaves the display.
pub const QUIT_KEY: char = 'q';

/// Command to show a countdown to the next airing.
pub struct CountdownCommand {
    /// The timezone to show the time of the airing in.
    pub timezone: Option<String>,
}

/// A countdown under way: what is awaited and when it comes.
///
/// The instant awaited is always one that the calendar can represent.
pub struct Countdown {
    label: String,
    target: i64,
    timezone: Offset,
    last_draw: u64,
}

/// One frame of the display, line by line.
pub struct Frame {
    /// The show and the episode.
    pub label: String,
    /// The time left.
    pub countdown: String,
    /// When the episode airs.
    pub airing: String,
    /// How to leave.
    pub hint: String,
}

/// What the display does at one turn of its loop.
#[derive(Clone, Copy, Debug, PartialEq, Eq, Structural)]
pub enum Turn {
    /// Leave the display.
    Quit,
    /// Draw a new frame, and say when it was drawn.
    Draw,
    /// Do nothing.
    Wait,
}

/// The milliseconds from the last frame to the reading `clock` of a
/// clock that counts milliseconds: none where the clock reads less than
/// it did at the last frame.
pub open spec fn millis_since(last_draw: int, clock: int) -> int {
    if clock >= last_draw {
        clock - last_draw
    } else {
        0
    }
}

/// What the display does at one turn: it is left where the quit key was
/// pressed, drawn again where the time between frames has passed since
/// the last frame, and left alone otherwise.
pub open spec fn turn_for(key: Option<char>, since_draw_millis: int) -> Turn {
    if key == Some('q') {
        Turn::Quit
    } else if since_draw_millis >= 100 {
        Turn::Draw
    } else {
        Turn::Wait
    }
}

/// The label of a countdown: the title of the show, then the number of the episode.
pub open spec fn countdown_label(entry: AiringSchedule) -> Seq<char> {
    title_text(entry.title) + " Episode "@ + count_text(entry.episode)
}

/// The line that says when the episode airs, as in
/// `Airing at: 2024-04-05 21:30:00 +09:00`.
pub open spec fn airing_line(target: int, timezone: int) -> Seq<char> {
    "Airing at: "@ + instant_text(target, timezone, "%Y-%m-%d %H:%M:%S %Z"@)
}

/// A frame of the display.
pub open spec fn frame_texts(frame: Frame) -> (Seq<char>, Seq<char>, Seq<char>, Seq<char>) {
    (frame.label@, frame.countdown@, frame.airing@, frame.hint@)
}

impl CountdownCommand {
    /// A command to count down to the next airing, in the timezone `timezone`.
    pub fn new(timezone: Option<String>) -> (command: Self)
        ensures
            command.timezone == timezone,
    {
        CountdownCommand { timezone }
    }

    /// Resolves the timezone of the command, given the override from the
    /// environment: the offset to display in, and whether the timezone
    /// asked for was rejected and the user's default took its place.
    pub fn resolve_timezone(&self, env_tz: Option<&str>) -> (resolution: Resolution)
        ensures
            self.timezone is None ==> !resolution.rejected,
            exists|now: int, local: int|
                {
                    &&& timestamp_in_range(now)
                    &&& -86_400 < local < 86_400
                    &&& resolution.offset@ == #[trigger] resolution_secs(
                        string_text(self.timezone),
                        text_of(env_tz),
                        now,
                        local,
                    )
                    &&& resolution.rejected == resolution_rejected(string_text(self.timezone), now)
                },
    {
        resolve(as_text(&self.timezone), env_tz)
    }

    /// The timezone to display in, given the override from the environment.
    pub fn get_timezone(&self, env_tz: Option<&str>) -> (timezone: Offset)
        ensures
            exists|now: int, local: int|
                {
                    &&& timestamp_in_range(now)
                    &&& -86_400 < local < 86_400
                    &&& timezone@ == #[trigger] resolution_secs(
                        string_text(self.timezone),
                        text_of(env_tz),
                        now,
                        local,
                    )
                },
    {
        self.resolve_timezone(env_tz).offset
    }

    /// Writes a span of `secs` seconds as a countdown, as in `2d 3h 45m 30s`.
    pub fn format_countdown(secs: i64) -> (text: String)
        ensures
            text@ == duration_text(secs as int),
    {
        format_duration(secs)
    }

    /// The variables of the query for the next airing after `now`.
    pub fn variables_at(now: i64) -> (variables: CountdownVariables)
        ensures
            variables.now == now,
    {
        CountdownVariables { now }
    }

    /// The variables of the query for the next airing after the current instant.
    pub fn variables() -> (variables: CountdownVariables)
        ensures
            timestamp_in_range(variables.now as int),
    {
        CountdownVariables { now: utc_now() }
    }

    /// The countdown to the first of `entries`: nothing where there is
    /// none, and an error where it airs at an instant that the calendar
    /// cannot represent.
    pub fn next_episode(entries: &Vec<AiringSchedule>, timezone: Offset) -> (next: Result<
        Option<Countdown>,
        RenderError,
    >)
        ensures
            entries.len() == 0 ==> next == Ok::<Option<Countdown>, RenderError>(None),
            entries.len() > 0 ==> {
                &&& next is Ok <==> timestamp_in_range(airing_instant(entries[0]))
                &&& next matches Ok(found) ==> {
                    &&& found matches Some(countdown)
                    &&& countdown.label_text() == countdown_label(entries[0])
                    &&& countdown.target_instant() == airing_instant(entries[0])
                    &&& countdown.timezone_secs() == timezone@
                    &&& countdown.last_draw_millis() == 0
                }
                &&& next matches Err(e) ==> e == RenderError::InstantOutOfRange
            },
    {
        if entries.len() == 0 {
            return Ok(None);
        }
        let entry = &entries[0];
        let target: i64 = match entry.airing_at {
            Some(instant) => instant,
            None => 0,
        };
        if target < TIMESTAMP_MIN || target > TIMESTAMP_MAX {
            return Err(RenderError::InstantOutOfRange);
        }
        let mut label = entry.title.display();
        label.append(" Episode ");
        let episode = format_count(entry.episode);
        label.append(episode.as_str());
        Ok(Some(Countdown { label, target, timezone, last_draw: 0 }))
    }
}

impl Countdown {
    #[verifier::type_invariant]
    spec fn target_in_range(self) -> bool {
        timestamp_in_range(self.target as int)
    }

    /// The show and the episode, as in `Frieren Episode 12`.
    pub closed spec fn label_text(&self) -> Seq<char> {
        self.label@
    }

    /// When the episode airs, in seconds since the Unix epoch.
    pub closed spec fn target_instant(&self) -> int {
        self.target as int
    }

    /// The timezone to show the time of the airing in, in seconds east of UTC.
    pub closed spec fn timezone_secs(&self) -> int {
        self.timezone@
    }

    /// What the clock read when the last frame was drawn, in milliseconds:
    /// zero before the first frame.
    pub closed spec fn last_draw_millis(&self) -> int {
        self.last_draw as int
    }

    /// The show and the episode, as in `Frieren Episode 12`.
    pub fn label(&self) -> (label: &String)
        ensures
            label@ == self.label_text(),
    {
        &self.label
    }

    /// When the episode airs, in seconds since the Unix epoch.
    pub fn target(&self) -> (target: i64)
        ensures
            target == self.target_instant(),
            timestamp_in_range(target as int),
    {
        proof {
            use_type_invariant(self);
        }
        self.target
    }

    /// The timezone to show the time of the airing in.
    pub fn timezone(&self) -> (timezone: Offset)
        ensures
            timezone@ == self.timezone_secs(),
    {
        self.timezone
    }

    /// What the display does at one turn of its loop, given the key that
    /// was pressed, if any, and the reading of a clock that counts
    /// milliseconds from the start of the display.
    pub fn turn(&self, key: Option<char>, clock_millis: u64) -> (turn: Turn)
        ensures
            turn == turn_for(key, millis_since(self.last_draw_millis(), clock_millis as int)),
    {
        match key {
            Some(c) => {
                if c == QUIT_KEY {
                    return Turn::Quit;
                }
            },
            None => {},
        }
        if clock_millis >= self.last_draw && clock_millis - self.last_draw >= FRAME_MILLIS {
            Turn::Draw
        } else {
            Turn::Wait
        }
    }

    /// Takes note that a frame was drawn when the clock read `clock_millis`.
    pub fn drawn(&mut self, clock_millis: u64)
        ensures
            final(self).last_draw_millis() == clock_millis,
            final(self).label_text() == old(self).label_text(),
            final(self).target_instant() == old(self).target_instant(),
            final(self).timezone_secs() == old(self).timezone_secs(),
    {
        proof {
            use_type_invariant(&*self);
        }
        self.last_draw = clock_millis;
    }

    /// The frame of a countdown to `label` with `remaining` seconds left,
    /// whose airing reads `when`.
    pub fn frame_with(label: &str, remaining: i64, when: &str) -> (frame: Frame)
        ensures
            frame_texts(frame) == (
                label@,
                duration_text(remaining as int),
                "Airing at: "@ + when@,
                "Press 'q' to quit"@,
            ),
    {
        let mut airing = String::from_str("Airing at: ");
        airing.append(when);
        Frame {
            label: String::from_str(label),
            countdown: format_duration(remaining),
            airing,
            hint: String::from_str("Press 'q' to quit"),
        }
    }

    /// The frame to draw when `remaining` seconds are left.
    pub fn frame(&self, remaining: i64) -> (frame: Frame)
        ensures
            frame.label@ == self.label_text(),
            frame.countdown@ == duration_text(remaining as int),
            frame.airing@ == airing_line(self.target_instant(), self.timezone_secs()),
            frame.hint@ == "Press 'q' to quit"@,
    {
        proof {
            use_type_invariant(self);
        }
        let when = format_instant(self.target, self.timezone.local_minus_utc(), "%Y-%m-%d %H:%M:%S %Z");
        Countdown::frame_with(self.label.as_str(), remaining, when.as_str())
    }

    /// The frame to draw now: the time left is read off the clock.
    pub fn current_frame(&self) -> (frame: Frame)
        ensures
            frame.label@ == self.label_text(),
            exists|remaining: int| frame.countdown@ == #[trigger] duration_text(remaining),
            frame.airing@ == airing_line(self.target_instant(), self.timezone_secs()),
            frame.hint@ == "Press 'q' to quit"@,
    {
        proof {
            use_type_invariant(self);
        }
        let remaining = seconds_until(self.target);
        let frame = self.frame(remaining);
        assert(frame.countdown@ == duration_text(remaining as int));
        frame
    }
}

impl Command for CountdownCommand {
    fn query(&self) -> (document: &'static str)
        ensures
            document@ == COUNTDOWN_QUERY@,
    {
        COUNTDOWN_QUERY
    }
}

} // verus!
