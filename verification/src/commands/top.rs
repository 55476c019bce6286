//! The best-rated anime and manga: what is asked for, and one row for each work.

use crate::api::{Media, TopVariables, MAX_PER_PAGE};
use crate::commands::Command;
use crate::display::{media_row, media_row_view, media_rows, media_rows_view};
use crate::table::{
    cells_view, lines_of_rows, lines_of_texts, listing, listing_rows, listing_titles, rows_view,
    texts_view, StyledCell,
};
use vstd::prelude::*;
use vstd::string::*;

verus! {

/// The GraphQL document that asks for the best-rated works.
pub const TOP_QUERY: &'static str = "
            query ($type: MediaType, $genre: String, $perPage: Int) {
                Page(perPage: $perPage) {
                    media(
                        type: $type,
                        genre: $genre,
                        sort: SCORE_DESC
                    ) {
                        id
                        title {
                            romaji
                            english
                        }
                        type
                        format
                        status
                        episodes
                        chapters
                        volumes
                        averageScore
                        popularity
                        genres
                        startDate {
                            year
                            month
                            day
                        }
                    }
                }
            }
        ";

/// Command to show the best-rated anime or manga.
pub struct TopCommand {
    /// `ANIME` or `MANGA`, to rank these only.
    pub media_type: Option<String>,
    /// The genre to rank within.
    pub genre: Option<String>,
    /// The number of works to show.
    pub limit: usize,
}

/// The titles of the columns of a ranking.
pub open spec fn top_titles() -> Seq<Seq<char>> {
    seq![
        "Title"@,
        "Type"@,
        "Format"@,
        "Status"@,
        "Episodes/Chapters"@,
        "Score"@,
        "Popularity"@,
        "Genres"@,
        "Start Date"@,
    ]
}

/// The number of works that one page is asked to hold: `limit`, and
/// no more than a page may hold.
pub open spec fn page_size(limit: int) -> int {
    if limit > 50 {
        50
    } else {
        limit
    }
}

impl TopCommand {
    /// A command to show the `limit` best-rated works.
    pub fn new(media_type: Option<String>, genre: Option<String>, limit: usize) -> (command: Self)
        ensures
            command.media_type == media_type,
            command.genre == genre,
            command.limit == limit,
    {
        TopCommand { media_type, genre, limit }
    }

    /// The variables of the query: what the command was made with, the
    /// number of works held to what one page may hold.
    pub fn variables(&self) -> (variables: TopVariables)
        ensures
            variables.media_type == self.media_type,
            variables.genre == self.genre,
            variables.per_page == page_size(self.limit as int),
    {
        let per_page = if self.limit > MAX_PER_PAGE {
            MAX_PER_PAGE
        } else {
            self.limit
        };
        TopVariables { media_type: self.media_type.clone(), genre: self.genre.clone(), per_page }
    }

    /// The titles of the columns.
    pub fn titles() -> (titles: Vec<String>)
        ensures
            texts_view(titles@) == top_titles(),
    {
        let mut titles: Vec<String> = Vec::new();
        titles.push(String::from_str("Title"));
        titles.push(String::from_str("Type"));
        titles.push(String::from_str("Format"));
        titles.push(String::from_str("Status"));
        titles.push(String::from_str("Episodes/Chapters"));
        titles.push(String::from_str("Score"));
        titles.push(String::from_str("Popularity"));
        titles.push(String::from_str("Genres"));
        titles.push(String::from_str("Start Date"));
        assert(texts_view(titles@) =~= top_titles());
        titles
    }

    /// The row of one work.
    pub fn row(item: &Media) -> (cells: Vec<StyledCell>)
        ensures
            cells_view(cells@) == media_row_view(*item, true),
    {
        media_row(item, true)
    }

    /// The rows of a ranking: one for each work, in order.
    pub fn rows(items: &Vec<Media>) -> (rows: Vec<Vec<StyledCell>>)
        ensures
            rows_view(rows@) == media_rows_view(items@, true),
    {
        media_rows(items, true)
    }

    /// The table of a ranking: the titles of the columns and one row for
    /// each work, in order.
    pub fn table(items: &Vec<Media>) -> (table: prettytable::Table)
        ensures
            listing_titles(table) == lines_of_texts(top_titles()),
            listing_rows(table) == lines_of_rows(media_rows_view(items@, true)),
    {
        listing(&TopCommand::titles(), &TopCommand::rows(items))
    }
}

impl Command for TopCommand {
    fn query(&self) -> (document: &'static str)
        ensures
            document@ == TOP_QUERY@,
    {
        TOP_QUERY
    }
}

} // verus!
