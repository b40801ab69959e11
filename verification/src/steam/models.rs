//! The shapes of what the Steam services answer, and the addon's settings.
use vstd::prelude::*;

verus! {

/// The mathematical value of the addon's settings.
pub struct ConfigView {
    pub api_key: Seq<char>,
    pub steam_id: Seq<char>,
}

/// The settings of the addon: the key for the web API and the user's id.
#[derive(Debug)]
pub struct Config {
    pub api_key: String,
    pub steam_id: String,
}

impl View for Config {
    type V = ConfigView;

    open spec fn view(&self) -> ConfigView {
        ConfigView { api_key: self.api_key@, steam_id: self.steam_id@ }
    }
}

impl Default for Config {
    fn default() -> (config: Self)
        ensures
            config@ == (ConfigView { api_key: Seq::empty(), steam_id: Seq::empty() }),
    {
        Config { api_key: String::new(), steam_id: String::new() }
    }
}

/// The mathematical value of an owned game.
pub struct OwnedGameView {
    pub appid: u64,
    pub name: Seq<char>,
    pub playtime_forever: u64,
    pub img_icon_url: Seq<char>,
    pub rtime_last_played: u64,
    pub playtime_disconnected: u8,
}

/// One game of the user's account, as the web API lists it.
#[derive(Debug)]
pub struct OwnedGame {
    pub appid: u64,
    pub name: String,
    pub playtime_forever: u64,
    pub img_icon_url: String,
    pub rtime_last_played: u64,
    pub playtime_disconnected: u8,
}

impl View for OwnedGame {
    type V = OwnedGameView;

    open spec fn view(&self) -> OwnedGameView {
        OwnedGameView {
            appid: self.appid,
            name: self.name@,
            playtime_forever: self.playtime_forever,
            img_icon_url: self.img_icon_url@,
            rtime_last_played: self.rtime_last_played,
            playtime_disconnected: self.playtime_disconnected,
        }
    }
}

impl DeepView for OwnedGame {
    type V = OwnedGameView;

    open spec fn deep_view(&self) -> OwnedGameView {
        self@
    }
}

/// The games of the user's account.
#[derive(Debug)]
pub struct OwnedGames {
    pub games: Vec<OwnedGame>,
}

impl View for OwnedGames {
    type V = Seq<OwnedGameView>;

    open spec fn view(&self) -> Seq<OwnedGameView> {
        self.games.deep_view()
    }
}

/// The envelope around an answer of the web API.
#[derive(Debug)]
pub struct Response<T> {
    pub response: T,
}

/// The answer to the question which games the user owns.
pub type OwnedGamesResponse = Response<OwnedGames>;

/// The mathematical value of a store genre.
pub struct AppGenreView {
    pub id: Seq<char>,
    pub description: Seq<char>,
}

/// A genre as the store names it: its id and the words for it.
#[derive(Debug)]
pub struct AppGenre {
    pub id: String,
    pub description: String,
}

impl View for AppGenre {
    type V = AppGenreView;

    open spec fn view(&self) -> AppGenreView {
        AppGenreView { id: self.id@, description: self.description@ }
    }
}

impl DeepView for AppGenre {
    type V = AppGenreView;

    open spec fn deep_view(&self) -> AppGenreView {
        self@
    }
}

/// The mathematical value of a store release date.
pub struct AppReleaseDateView {
    pub coming_soon: bool,
    pub date: Option<Seq<char>>,
}

/// When the store says a game was or will be released.
#[derive(Debug)]
pub struct AppReleaseDate {
    pub coming_soon: bool,
    pub date: Option<String>,
}

impl View for AppReleaseDate {
    type V = AppReleaseDateView;

    open spec fn view(&self) -> AppReleaseDateView {
        AppReleaseDateView { coming_soon: self.coming_soon, date: self.date.deep_view() }
    }
}

impl DeepView for AppReleaseDate {
    type V = AppReleaseDateView;

    open spec fn deep_view(&self) -> AppReleaseDateView {
        self@
    }
}

/// The mathematical value of the store's details of a game.
pub struct AppDetailsDataView {
    pub name: Seq<char>,
    pub detailed_description: Seq<char>,
    pub short_description: Seq<char>,
    pub about_the_game: Seq<char>,
    pub website: Option<Seq<char>>,
    pub developers: Option<Seq<Seq<char>>>,
    pub publishers: Option<Seq<Seq<char>>>,
    pub genres: Option<Seq<AppGenreView>>,
    pub release_date: Option<AppReleaseDateView>,
    pub header_image: Option<Seq<char>>,
    pub capsule_image: Option<Seq<char>>,
    pub capsule_imagev5: Option<Seq<char>>,
}

/// What the store says of a game.
#[derive(Debug)]
pub struct AppDetailsData {
    pub name: String,
    pub detailed_description: String,
    pub short_description: String,
    pub about_the_game: String,
    pub website: Option<String>,
    pub developers: Option<Vec<String>>,
    pub publishers: Option<Vec<String>>,
    pub genres: Option<Vec<AppGenre>>,
    pub release_date: Option<AppReleaseDate>,
    pub header_image: Option<String>,
    pub capsule_image: Option<String>,
    pub capsule_imagev5: Option<String>,
}

impl View for AppDetailsData {
    type V = AppDetailsDataView;

    open spec fn view(&self) -> AppDetailsDataView {
        AppDetailsDataView {
            name: self.name@,
            detailed_description: self.detailed_description@,
            short_description: self.short_description@,
            about_the_game: self.about_the_game@,
            website: self.website.deep_view(),
            developers: self.developers.deep_view(),
            publishers: self.publishers.deep_view(),
            genres: self.genres.deep_view(),
            release_date: self.release_date.deep_view(),
            header_image: self.header_image.deep_view(),
            capsule_image: self.capsule_image.deep_view(),
            capsule_imagev5: self.capsule_imagev5.deep_view(),
        }
    }
}

impl DeepView for AppDetailsData {
    type V = AppDetailsDataView;

    open spec fn deep_view(&self) -> AppDetailsDataView {
        self@
    }
}

/// The mathematical value of the store's answer for one game.
pub struct AppDetailsView {
    pub success: bool,
    pub data: Option<AppDetailsDataView>,
}

/// The store's answer for one game: whether it knows the game and, if it
/// has anything to say, what.
#[derive(Debug)]
pub struct AppDetails {
    pub success: bool,
    pub data: Option<AppDetailsData>,
}

impl View for AppDetails {
    type V = AppDetailsView;

    open spec fn view(&self) -> AppDetailsView {
        AppDetailsView { success: self.success, data: self.data.deep_view() }
    }
}

impl DeepView for AppDetails {
    type V = AppDetailsView;

    open spec fn deep_view(&self) -> AppDetailsView {
        self@
    }
}

} // verus!
