//! Searching for anime and manga: what is asked for, and one row for each work found.

use crate::api::{Media, SearchVariables};
use crate::commands::Command;
use crate::display::{media_row, media_row_view, media_rows, media_rows_view};
use crate::table::{
    cells_view, lines_of_rows, lines_of_texts, listing, listing_rows, listing_titles, rows_view,
    texts_view, StyledCell,
};
use vstd::prelude::*;
use vstd::string::*;

verus! {

/// The GraphQL document of a search.
pub const SEARCH_QUERY: &'static str = "
            query ($search: String, $type: MediaType, $year: Int, $season: MediaSeason) {
                Page(perPage: 20) {
                    media(
                        search: $search,
                        type: $type,
                        seasonYear: $year,
                        season: $season
                    ) {
                        id
                        title {
                            romaji
                            english
                        }
                        type
                        format
                        status
                        episodes
                        chapters
                        volumes
                        averageScore
                        popularity
                        startDate {
                            year
                            month
                            day
                        }
                    }
                }
            }
        ";

/// Command to search for anime or manga.
pub struct SearchCommand {
    /// What to search for.
    pub query: String,
    /// `ANIME` or `MANGA`, to search among these only.
    pub media_type: Option<String>,
    /// The year of the season to search in.
    pub year: Option<i32>,
    /// The season to search in, as in `WINTER`.
    pub season: Option<String>,
}

/// The titles of the columns of a search result.
pub open spec fn search_titles() -> Seq<Seq<char>> {
    seq![
        "Title"@,
        "Type"@,
        "Format"@,
        "Status"@,
        "Episodes/Chapters"@,
        "Score"@,
        "Start Date"@,
    ]
}

impl SearchCommand {
    /// A command to search for `query`.
    pub fn new(query: String, media_type: Option<String>, year: Option<i32>, season: Option<String>) -> (command:
        Self)
        ensures
            command.query == query,
            command.media_type == media_type,
            command.year == year,
            command.season == season,
    {
        SearchCommand { query, media_type, year, season }
    }

    /// The variables of the search: what the command was made with.
    pub fn variables(&self) -> (variables: SearchVariables)
        ensures
            variables.search == self.query,
            variables.media_type == self.media_type,
            variables.year == self.year,
            variables.season == self.season,
    {
        SearchVariables {
            search: self.query.clone(),
            media_type: self.media_type.clone(),
            year: self.year,
            season: self.season.clone(),
        }
    }

    /// The titles of the columns.
    pub fn titles() -> (titles: Vec<String>)
        ensures
            texts_view(titles@) == search_titles(),
    {
        let mut titles: Vec<String> = Vec::new();
        titles.push(String::from_str("Title"));
        titles.push(String::from_str("Type"));
        titles.push(String::from_str("Format"));
        titles.push(String::from_str("Status"));
        titles.push(String::from_str("Episodes/Chapters"));
        titles.push(String::from_str("Score"));
        titles.push(String::from_str("Start Date"));
        assert(texts_view(titles@) =~= search_titles());
        titles
    }

    /// The row of one work found.
    pub fn row(item: &Media) -> (cells: Vec<StyledCell>)
        ensures
            cells_view(cells@) == media_row_view(*item, false),
    {
        media_row(item, false)
    }

    /// The rows of a search result: one for each work found, in order.
    pub fn rows(items: &Vec<Media>) -> (rows: Vec<Vec<StyledCell>>)
        ensures
            rows_view(rows@) == media_rows_view(items@, false),
    {
        media_rows(items, false)
    }

    /// The table of a search result: the titles of the columns and one
    /// row for each work found, in order.
    pub fn table(items: &Vec<Media>) -> (table: prettytable::Table)
        ensures
            listing_titles(table) == lines_of_texts(search_titles()),
            listing_rows(table) == lines_of_rows(media_rows_view(items@, false)),
    {
        listing(&SearchCommand::titles(), &SearchCommand::rows(items))
    }
}

impl Command for SearchCommand {
    fn query(&self) -> (document: &'static str)
        ensures
            document@ == SEARCH_QUERY@,
    {
        SEARCH_QUERY
    }
}

} // verus!
