//! The store as a metadata source: where to ask, and how an answer becomes
//! metadata.
use crate::fetch::{spec_single_result, FetchError, FetchOutcome, OutcomeView};
use crate::models::{
    spec_empty_metadata, spec_normalized_metadata, GameDataView, GameLibraryRef, GameMetadata,
    GameMetadataView, GenreData, GenreView,
};
use crate::plan::{spec_ingest, spec_planned_game, spec_ref_of};
use crate::steam::models::{
    AppDetails, AppDetailsData, AppDetailsDataView, AppDetailsView, AppGenreView,
};
use crate::steam::transfer::ResponseJsonError;
use crate::text::{parse_decimal, spec_parse_decimal, str_eq};
use crate::time::{utc_midnight, utc_midnight_of};
use vstd::prelude::*;

verus! {

/// `regex::Error`: why a pattern did not compile. It is carried from the
/// call to the place that gives up on the date.
#[verifier::external_type_specification]
#[verifier::external_body]
pub struct ExRegexError(regex::Error);

/// `url::ParseError`: why a text is no URL. It is carried from the call to
/// the place that answers `None`.
#[verifier::external_type_specification]
#[verifier::external_body]
pub struct ExUrlParseError(url::ParseError);

/// The two forms in which the store writes a release date: `14 Mar, 2015`
/// and `Mar 14, 2015`.
pub const RELEASE_DATE_RAW: &'static str =
    r"^([0-9]{1,2}) ([A-Z][a-z]+), ([0-9]+)|([A-Z][a-z]+) ([0-9]+), ([0-9]+)$";

/// Where the store answers questions about an app.
pub const APP_DETAILS_URL: &'static str = "https://store.steampowered.com/api/appdetails";

/// The number of the month that a three-letter English abbreviation names.
pub open spec fn spec_month(month: Seq<char>) -> Option<u8> {
    if month == "Jan"@ {
        Some(1u8)
    } else if month == "Feb"@ {
        Some(2u8)
    } else if month == "Mar"@ {
        Some(3u8)
    } else if month == "Apr"@ {
        Some(4u8)
    } else if month == "May"@ {
        Some(5u8)
    } else if month == "Jun"@ {
        Some(6u8)
    } else if month == "Jul"@ {
        Some(7u8)
    } else if month == "Aug"@ {
        Some(8u8)
    } else if month == "Sep"@ {
        Some(9u8)
    } else if month == "Oct"@ {
        Some(10u8)
    } else if month == "Nov"@ {
        Some(11u8)
    } else if month == "Dec"@ {
        Some(12u8)
    } else {
        None
    }
}

/// Looks a text up among the twelve abbreviations.
fn month_number(month: &str) -> (number: Option<u8>)
    ensures
        number == spec_month(month@),
{
    if str_eq(month, "Jan") {
        Some(1)
    } else if str_eq(month, "Feb") {
        Some(2)
    } else if str_eq(month, "Mar") {
        Some(3)
    } else if str_eq(month, "Apr") {
        Some(4)
    } else if str_eq(month, "May") {
        Some(5)
    } else if str_eq(month, "Jun") {
        Some(6)
    } else if str_eq(month, "Jul") {
        Some(7)
    } else if str_eq(month, "Aug") {
        Some(8)
    } else if str_eq(month, "Sep") {
        Some(9)
    } else if str_eq(month, "Oct") {
        Some(10)
    } else if str_eq(month, "Nov") {
        Some(11)
    } else if str_eq(month, "Dec") {
        Some(12)
    } else {
        None
    }
}

/// Whether a text is one of the twelve abbreviations of a month.
pub fn is_month(month: &str) -> (known: bool)
    ensures
        known == spec_month(month@).is_some(),
{
    month_number(month).is_some()
}

/// The number of the month that a three-letter English abbreviation names.
/// Any other text names no month and is not to be asked about: `is_month`
/// tells.
pub fn to_month(month: &str) -> (number: u8)
    requires
        spec_month(month@).is_some(),
    ensures
        spec_month(month@) == Some(number),
{
    match month_number(month) {
        Some(number) => number,
        None => vstd::pervasive::unreached(),
    }
}

/// What the regex crate finds when it searches `text` for the first match of
/// `pattern`: `None` where the pattern does not compile; `Some(None)` where
/// nothing matches; else the capture groups after the whole match, in the
/// order of their opening brackets, each with the text it took part in or
/// `None`.
pub uninterp spec fn regex_captures_of(pattern: Seq<char>, text: Seq<char>) -> Option<
    Option<Seq<Option<Seq<char>>>>,
>;

/// Compiles `pattern` with `regex::Regex::new` and searches `text` with
/// `Regex::captures`. The groups of the match are copied out from the first
/// group on, the whole match left aside. The outcome depends on the two
/// strings alone.
#[verifier::external_body]
pub(crate) fn regex_captures(pattern: &str, text: &str) -> (found: Result<
    Option<Vec<Option<String>>>,
    regex::Error,
>)
    ensures
        match found {
            Ok(groups) => regex_captures_of(pattern@, text@) == Some(groups.deep_view()),
            Err(_) => regex_captures_of(pattern@, text@).is_none(),
        },
{
    match regex::Regex::new(pattern) {
        Ok(compiled) => Ok(
            compiled.captures(text).map(
                |found| found.iter().skip(1).map(|group| group.map(|m| m.as_str().to_owned())).collect(),
            ),
        ),
        Err(error) => Err(error),
    }
}

/// The timestamp of midnight UTC on the day that three pieces of text name:
/// the day and the year in decimal digits, the month by its abbreviation.
pub open spec fn spec_date_of_parts(
    day: Option<Seq<char>>,
    month: Option<Seq<char>>,
    year: Option<Seq<char>>,
) -> Option<i64> {
    match (day, month, year) {
        (Some(d), Some(m), Some(y)) => match (spec_parse_decimal(d), spec_month(m), spec_parse_decimal(y)) {
            (Some(day), Some(month), Some(year)) => if day <= u32::MAX && year <= i32::MAX {
                utc_midnight_of(year as int, month as int, day as int)
            } else {
                None
            },
            _ => None,
        },
        _ => None,
    }
}

/// The timestamp that the groups of a match of the release date pattern
/// name. The first three groups belong to the form that starts with the day,
/// the other three to the form that starts with the month.
pub open spec fn spec_date_from_captures(groups: Seq<Option<Seq<char>>>) -> Option<i64> {
    if groups.len() != 6 {
        None
    } else if groups[2] is Some {
        spec_date_of_parts(groups[0], groups[1], groups[2])
    } else {
        spec_date_of_parts(groups[4], groups[3], groups[5])
    }
}

fn date_of_parts(day: &Option<String>, month: &Option<String>, year: &Option<String>) -> (secs: Option<
    i64,
>)
    ensures
        secs == spec_date_of_parts(day.deep_view(), month.deep_view(), year.deep_view()),
{
    match (day, month, year) {
        (Some(d), Some(m), Some(y)) => {
            if !is_month(m.as_str()) {
                return None;
            }
            let month = to_month(m.as_str());
            match (parse_decimal(d.as_str()), parse_decimal(y.as_str())) {
                (Some(day), Some(year)) => {
                    if day <= 0xffff_ffff && year <= 0x7fff_ffff {
                        utc_midnight(year as i32, month as u32, day as u32)
                    } else {
                        None
                    }
                },
                _ => None,
            }
        },
        _ => None,
    }
}

/// The timestamp of midnight UTC on the day that the groups of a match of
/// the release date pattern name; `None` where they name no day: a month
/// that is no abbreviation, a number too large, a day that the calendar
/// lacks.
pub fn release_date_from_captures(groups: &Vec<Option<String>>) -> (secs: Option<i64>)
    ensures
        secs == spec_date_from_captures(groups.deep_view()),
{
    if groups.len() != 6 {
        return None;
    }
    proof {
        assert(groups.deep_view()[0] == groups[0].deep_view());
        assert(groups.deep_view()[1] == groups[1].deep_view());
        assert(groups.deep_view()[2] == groups[2].deep_view());
        assert(groups.deep_view()[3] == groups[3].deep_view());
        assert(groups.deep_view()[4] == groups[4].deep_view());
        assert(groups.deep_view()[5] == groups[5].deep_view());
    }
    if groups[2].is_some() {
        date_of_parts(&groups[0], &groups[1], &groups[2])
    } else {
        date_of_parts(&groups[4], &groups[3], &groups[5])
    }
}

/// The timestamp of the release date that a text of the store names.
pub open spec fn spec_release_date(text: Seq<char>) -> Option<i64> {
    match regex_captures_of(RELEASE_DATE_RAW@, text) {
        Some(Some(groups)) => spec_date_from_captures(groups),
        _ => None,
    }
}

/// Reads a release date as the store writes it and gives the timestamp of
/// midnight UTC on that day; `None` where the text is of neither form or
/// names no day.
pub fn parse_release_date(date: &str) -> (secs: Option<i64>)
    ensures
        secs == spec_release_date(date@),
{
    match regex_captures(RELEASE_DATE_RAW, date) {
        Ok(Some(groups)) => release_date_from_captures(&groups),
        _ => None,
    }
}

/// What the url crate makes of `base` with one more query pair: `None` where
/// `base` is no URL, else the text of the URL with the pair appended to its
/// query, both parts percent-encoded as forms are.
pub uninterp spec fn url_with_pair(base: Seq<char>, key: Seq<char>, value: Seq<char>) -> Option<
    Seq<char>,
>;

/// Parses `base` with `url::Url::parse`, appends the pair with
/// `query_pairs_mut().append_pair` and gives the text of the result. The
/// outcome depends on the three strings alone.
#[verifier::external_body]
pub(crate) fn append_query_pair(base: &str, key: &str, value: &str) -> (text: Result<
    String,
    url::ParseError,
>)
    ensures
        match text {
            Ok(url) => url_with_pair(base@, key@, value@) == Some(url@),
            Err(_) => url_with_pair(base@, key@, value@).is_none(),
        },
{
    match url::Url::parse(base) {
        Ok(mut url) => {
            url.query_pairs_mut().append_pair(key, value);
            Ok(String::from(url))
        },
        Err(error) => Err(error),
    }
}

/// `base` with one more query pair, where `base` is a URL.
pub fn with_query_pair(base: &str, key: &str, value: &str) -> (text: Option<String>)
    ensures
        text.deep_view() == url_with_pair(base@, key@, value@),
{
    match append_query_pair(base, key, value) {
        Ok(url) => Some(url),
        Err(_) => None,
    }
}

/// The genre that a store genre stands for: the store's id and its words.
pub open spec fn spec_genre(genre: AppGenreView) -> GenreView {
    GenreView { name: genre.description, library_id: genre.id }
}

/// The release date of the details as a timestamp of 32 bits, where the
/// store gives a date that can be read and that 32 bits can hold: a day
/// before the epoch or after the year 2106 is no release date.
pub open spec fn spec_release_timestamp(data: AppDetailsDataView) -> Option<u32> {
    match data.release_date {
        Some(release) => match release.date {
            Some(text) => if text.len() == 0 {
                None
            } else {
                match spec_release_date(text) {
                    Some(secs) => if 0 <= secs <= u32::MAX {
                        Some(secs as u32)
                    } else {
                        None
                    },
                    None => None,
                }
            },
            None => None,
        },
        None => None,
    }
}

/// The metadata that the store's details amount to. A description that is
/// empty counts as absent.
pub open spec fn spec_metadata_of(data: AppDetailsDataView) -> GameMetadataView {
    GameMetadataView {
        description: if data.detailed_description.len() == 0 {
            None
        } else {
            Some(data.detailed_description)
        },
        genres: match data.genres {
            Some(genres) => genres.map_values(|genre: AppGenreView| spec_genre(genre)),
            None => Seq::empty(),
        },
        header_url: data.header_image,
        cover_url: data.capsule_image,
        release_date_timestamp: spec_release_timestamp(data),
        ..spec_empty_metadata()
    }
}

/// The metadata that an answer of the store amounts to. An answer without
/// details is valid and means that there is nothing to enrich the game with.
pub open spec fn spec_map_metadata(answer: Option<AppDetailsView>) -> GameMetadataView {
    match answer {
        Some(details) => match details.data {
            Some(data) => spec_metadata_of(data),
            None => spec_empty_metadata(),
        },
        None => spec_empty_metadata(),
    }
}

/// An answer without details enriches nothing. Where the store answers
/// with no details for a game, the fetch has worked all the same; the
/// metadata it brings holds no field; and the game, planned with it, goes
/// into the catalog as it was scanned.
pub proof fn lemma_answer_without_details(answer: Option<AppDetailsView>, game: GameDataView)
    requires
        answer matches Some(details) ==> details.data is None,
    ensures
        spec_map_metadata(answer) == spec_empty_metadata(),
        spec_single_result(OutcomeView::Fetched(spec_map_metadata(answer))) == Some(
            spec_empty_metadata(),
        ),
        spec_planned_game(
            game,
            spec_ingest(seq![(spec_ref_of(game), spec_map_metadata(answer))]),
        ).game == game,
{
    let nothing = spec_empty_metadata();
    let results = seq![(spec_ref_of(game), nothing)];
    assert(spec_normalized_metadata(nothing).genres =~= nothing.genres);
    assert(spec_ingest(results) =~= results);
    assert(results.first() == (spec_ref_of(game), nothing));
}

/// The store as a metadata source.
#[derive(Debug, Clone, Copy)]
pub struct StoreMetadataScanner;

impl StoreMetadataScanner {
    /// The URL that answers for a game: the address of the details with the
    /// game's library id as the app to look up.
    pub fn request_url(game: &GameLibraryRef<'_>) -> (url: Option<String>)
        ensures
            url.deep_view() == url_with_pair(APP_DETAILS_URL@, "appids"@, game@.library_id),
    {
        with_query_pair(APP_DETAILS_URL, "appids", game.library_id)
    }

    /// The metadata that the store's details of a game amount to.
    pub fn metadata_of(data: AppDetailsData) -> (metadata: GameMetadata)
        ensures
            metadata@ == spec_metadata_of(data@),
    {
        let ghost details = data@;
        let release_date_timestamp: Option<u32> = match &data.release_date {
            Some(release) => match &release.date {
                Some(text) => {
                    if text.as_str().unicode_len() == 0 {
                        None
                    } else {
                        match parse_release_date(text.as_str()) {
                            Some(secs) => if 0 <= secs && secs <= 0xffff_ffff {
                                Some(secs as u32)
                            } else {
                                None
                            },
                            None => None,
                        }
                    }
                },
                None => None,
            },
            None => None,
        };
        let mut genres: Vec<GenreData> = Vec::new();
        match &data.genres {
            Some(listed) => {
                let mut i: usize = 0;
                while i < listed.len()
                    invariant
                        i <= listed.len(),
                        genres.len() == i,
                        forall|j: int| 0 <= j < i ==> genres[j]@ == spec_genre(listed[j]@),
                    decreases listed.len() - i,
                {
                    genres.push(
                        GenreData {
                            name: listed[i].description.clone(),
                            library_id: listed[i].id.clone(),
                        },
                    );
                    i += 1;
                }
                assert(genres.deep_view() =~= listed.deep_view().map_values(
                    |genre: AppGenreView| spec_genre(genre),
                ));
            },
            None => {
                assert(genres.deep_view() =~= Seq::empty());
            },
        }
        let description = if data.detailed_description.as_str().unicode_len() == 0 {
            None
        } else {
            Some(data.detailed_description)
        };
        let mut metadata = GameMetadata::default();
        metadata.description = description;
        metadata.genres = genres;
        metadata.header_url = data.header_image;
        metadata.cover_url = data.capsule_image;
        metadata.release_date_timestamp = release_date_timestamp;
        metadata
    }

    /// The metadata that an answer of the store amounts to.
    pub fn map_metadata(answer: Option<AppDetails>) -> (metadata: GameMetadata)
        ensures
            metadata@ == spec_map_metadata(answer.deep_view()),
    {
        match answer {
            Some(details) => match details.data {
                Some(data) => Self::metadata_of(data),
                None => GameMetadata::default(),
            },
            None => GameMetadata::default(),
        }
    }

    /// How a fetch ended, given what the decoding of its body gave: a body
    /// that could not be decoded is a failed fetch, any answer that could is
    /// a fetch that worked.
    pub fn outcome_of(decoded: Result<Option<AppDetails>, ResponseJsonError>) -> (outcome: FetchOutcome)
        ensures
            outcome@ == match decoded {
                Ok(answer) => OutcomeView::Fetched(spec_map_metadata(answer.deep_view())),
                Err(_) => OutcomeView::Failed(FetchError::Decode),
            },
    {
        match decoded {
            Ok(answer) => FetchOutcome::Fetched(Self::map_metadata(answer)),
            Err(_) => FetchOutcome::Failed(FetchError::Decode),
        }
    }
}

} // verus!
