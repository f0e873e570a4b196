//! Search parameters and plain records of the metadata service.

use vstd::prelude::*;
use vstd::string::*;

verus! {

/// A genre of a series.
#[derive(Debug)]
pub struct TmdbGenre {
    /// Genre key.
    pub id: u32,
    /// Genre name.
    pub name: String,
}

/// The envelope in which the service reports an error.
#[derive(Debug)]
pub struct TmdbErrorResponse {
    /// Error code of the service.
    pub status_code: u32,
    /// Error message.
    pub status_message: String,
    /// Success flag; false in every error.
    pub success: bool,
}

/// Parameters of a series search.
#[derive(Debug)]
pub struct SearchTvParams {
    /// Search text.
    pub query: String,
    /// Language of the answer.
    pub language: String,
    /// Page of the result, from 1.
    pub page: u32,
    /// Year of the first air date to filter by.
    pub first_air_date_year: Option<u32>,
    /// Year to filter by.
    pub year: Option<u32>,
    /// Whether adult content is included.
    pub include_adult: bool,
}

/// Parameters of a movie search.
#[derive(Debug)]
pub struct SearchMovieParams {
    /// Search text.
    pub query: String,
    /// Language of the answer.
    pub language: String,
    /// Page of the result, from 1.
    pub page: u32,
    /// Year of the primary release to filter by.
    pub primary_release_year: Option<u32>,
    /// Year to filter by.
    pub year: Option<u32>,
    /// Region to filter by.
    pub region: Option<String>,
    /// Whether adult content is included.
    pub include_adult: bool,
}

impl SearchTvParams {
    /// Search parameters for `query`: answers in `en-US`, first page, no
    /// year filter, no adult content.
    pub fn new(query: &str) -> (params: Self)
        ensures
            params.query@ == query@,
            params.language@ == "en-US"@,
            params.page == 1,
            params.first_air_date_year is None,
            params.year is None,
            !params.include_adult,
    {
        SearchTvParams {
            query: String::from_str(query),
            language: String::from_str("en-US"),
            page: 1,
            first_air_date_year: None,
            year: None,
            include_adult: false,
        }
    }

    /// Sets the language of the answer.
    pub fn language(self, language: &str) -> (params: Self)
        ensures
            params.language@ == language@,
            params.query == self.query,
            params.page == self.page,
            params.first_air_date_year == self.first_air_date_year,
            params.year == self.year,
            params.include_adult == self.include_adult,
    {
        let mut params = self;
        params.language = String::from_str(language);
        params
    }

    /// Sets the filter on the year of the first air date.
    pub fn first_air_date_year(self, year: u32) -> (params: Self)
        ensures
            params == (SearchTvParams { first_air_date_year: Some(year), ..self }),
    {
        let mut params = self;
        params.first_air_date_year = Some(year);
        params
    }

    /// Sets the filter on the year.
    pub fn year(self, year: u32) -> (params: Self)
        ensures
            params == (SearchTvParams { year: Some(year), ..self }),
    {
        let mut params = self;
        params.year = Some(year);
        params
    }
}

impl SearchMovieParams {
    /// Search parameters for `query`: answers in `en-US`, first page, no
    /// filter, no adult content.
    pub fn new(query: &str) -> (params: Self)
        ensures
            params.query@ == query@,
            params.language@ == "en-US"@,
            params.page == 1,
            params.primary_release_year is None,
            params.year is None,
            params.region is None,
            !params.include_adult,
    {
        SearchMovieParams {
            query: String::from_str(query),
            language: String::from_str("en-US"),
            page: 1,
            primary_release_year: None,
            year: None,
            region: None,
            include_adult: false,
        }
    }

    /// Sets the language of the answer.
    pub fn language(self, language: &str) -> (params: Self)
        ensures
            params.language@ == language@,
            params.query == self.query,
            params.page == self.page,
            params.primary_release_year == self.primary_release_year,
            params.year == self.year,
            params.region == self.region,
            params.include_adult == self.include_adult,
    {
        let mut params = self;
        params.language = String::from_str(language);
        params
    }

    /// Sets the filter on the year.
    pub fn year(self, year: u32) -> (params: Self)
        ensures
            params == (SearchMovieParams { year: Some(year), ..self }),
    {
        let mut params = self;
        params.year = Some(year);
        params
    }
}

} // verus!
