//! What is sent to the AniList service and what comes back, as plain values.

use vstd::prelude::*;

verus! {

/// The address of the AniList GraphQL service.
pub const ANILIST_API_URL: &'static str = "https://graphql.anilist.co";

/// The most entries that one page of results is asked to hold.
pub const MAX_PER_PAGE: usize = 50;

/// The titles of a work. Either may be missing from a response.
pub struct Title {
    /// The English title.
    pub english: Option<String>,
    /// The Japanese title in Latin letters.
    pub romaji: Option<String>,
}

/// A date as the service gives it: any part may be missing.
pub struct FuzzyDate {
    pub year: Option<i64>,
    pub month: Option<i64>,
    pub day: Option<i64>,
}

/// One airing of an episode.
pub struct AiringSchedule {
    /// The titles of the show.
    pub title: Title,
    /// The number of the episode.
    pub episode: Option<i64>,
    /// When the episode airs, in seconds since the Unix epoch.
    pub airing_at: Option<i64>,
}

/// Someone who has a part in a work: a character or a member of the staff.
pub struct Credit {
    /// The part, as in `MAIN` or `Director`.
    pub role: Option<String>,
    /// The full name.
    pub name: Option<String>,
}

/// The next episode of a show to air.
pub struct NextAiring {
    /// The number of the episode.
    pub episode: Option<i64>,
    /// When the episode airs, in seconds since the Unix epoch.
    pub airing_at: Option<i64>,
}

/// An anime or a manga, with as much as a response told of it.
pub struct Media {
    pub title: Title,
    /// `ANIME` or `MANGA`.
    pub media_type: Option<String>,
    pub format: Option<String>,
    pub status: Option<String>,
    pub description: Option<String>,
    pub episodes: Option<i64>,
    pub chapters: Option<i64>,
    pub volumes: Option<i64>,
    /// The length of an episode in minutes.
    pub duration: Option<i64>,
    /// The average score, written with one decimal.
    pub score: Option<String>,
    pub popularity: Option<i64>,
    /// The genres; the list or any name in it may be missing.
    pub genres: Option<Vec<Option<String>>>,
    pub start_date: FuzzyDate,
    pub end_date: FuzzyDate,
    pub next_airing: Option<NextAiring>,
    pub characters: Option<Vec<Credit>>,
    pub staff: Option<Vec<Credit>>,
}

/// The variables of the query for a window of the airing schedule.
pub struct ScheduleVariables {
    /// Airings after this instant are asked for.
    pub start: i64,
    /// Airings before this instant are asked for.
    pub end: i64,
}

/// The variables of the query for the next airing.
pub struct CountdownVariables {
    /// Airings after this instant are asked for.
    pub now: i64,
}

/// The variables of the query for one work.
pub struct InfoVariables {
    pub id: i32,
    pub media_type: String,
}

/// The variables of a search.
pub struct SearchVariables {
    pub search: String,
    pub media_type: Option<String>,
    pub year: Option<i32>,
    pub season: Option<String>,
}

/// The variables of the query for the best-rated works.
pub struct TopVariables {
    pub media_type: Option<String>,
    pub genre: Option<String>,
    /// The number of works asked for.
    pub per_page: usize,
}

} // verus!
