//! The Steam game library: which games the user has, from the web API and
//! from the manifests of the local installation, and the addresses by which
//! the Steam client is told to act on a game.
use crate::models::{
    clone_text, GameInstallStatus, ScannedGameLibraryMetadata, ScannedGameView,
};
use crate::models::{ConfigSchemaKind, ConfigSchemaMetadata, ConfigSchemaView};
use crate::plugin::{ConfigsSchema, PluginRegistrar};
use crate::steam::models::{Config, OwnedGame, OwnedGameView};
use crate::table::StringTable;
use std::sync::Arc;
use crate::steam::store::{url_with_pair, with_query_pair};
use crate::text::{concat3, decimal_text, parse_decimal, spec_decimal_text, spec_parse_decimal, str_eq};
use vstd::prelude::*;
use vstd::string::StringExecFns;

verus! {

/// The id of the addon, and the library type of every game it reports.
pub const ID: &'static str = "steam";

/// Where the web API lists the games that a user owns.
pub const OWNED_GAMES_URL: &'static str =
    "https://api.steampowered.com/IPlayerService/GetOwnedGames/v0001";

/// The address that tells the Steam client to do `cmd` with the app `id`.
pub fn steam_url(cmd: &str, id: &str) -> (url: String)
    ensures
        url@ == "steam://"@ + cmd@ + "/"@ + id@,
{
    let mut url = concat3("steam://", cmd, "/");
    url.append(id);
    url
}

/// `path` between double quotes, as a command line takes it.
pub fn wrap_in_quotes(path: &str) -> (quoted: String)
    ensures
        quoted@ == "\""@ + path@ + "\""@,
{
    concat3("\"", path, "\"")
}

/// Whether a scan has to make do with the local installation: without an
/// API key or without a user id the web API cannot be asked.
pub fn local_scan_only(config: &Config, steam_id: &str) -> (local_only: bool)
    ensures
        local_only == (config@.api_key.len() == 0 || steam_id@.len() == 0),
{
    config.api_key.as_str().unicode_len() == 0 || steam_id.unicode_len() == 0
}

/// The URL that lists the games of the user `steam_id`, asked with the key of
/// the settings: the address of the list with the four query pairs `key`,
/// `steamid`, `include_appinfo` and `format`, in that order.
pub open spec fn spec_owned_games_url(api_key: Seq<char>, steam_id: Seq<char>) -> Option<Seq<char>> {
    match url_with_pair(OWNED_GAMES_URL@, "key"@, api_key) {
        Some(first) => match url_with_pair(first, "steamid"@, steam_id) {
            Some(second) => match url_with_pair(second, "include_appinfo"@, "1"@) {
                Some(third) => url_with_pair(third, "format"@, "json"@),
                None => None,
            },
            None => None,
        },
        None => None,
    }
}

/// The URL that lists the games of the user `steam_id`.
pub fn owned_games_url(api_key: &str, steam_id: &str) -> (url: Option<String>)
    ensures
        url.deep_view() == spec_owned_games_url(api_key@, steam_id@),
{
    match with_query_pair(OWNED_GAMES_URL, "key", api_key) {
        Some(first) => match with_query_pair(first.as_str(), "steamid", steam_id) {
            Some(second) => match with_query_pair(second.as_str(), "include_appinfo", "1") {
                Some(third) => with_query_pair(third.as_str(), "format", "json"),
                None => None,
            },
            None => None,
        },
        None => None,
    }
}

/// Where a game of the local installation stands, by the two byte counts of
/// its manifest: queued while nothing has been downloaded, installed once
/// all has, installing in between.
pub open spec fn spec_local_install_status(
    bytes_downloaded: Option<Seq<char>>,
    bytes_to_download: Option<Seq<char>>,
) -> GameInstallStatus {
    if bytes_downloaded is None {
        GameInstallStatus::Queued
    } else if bytes_downloaded == bytes_to_download {
        GameInstallStatus::Installed
    } else {
        GameInstallStatus::Installing
    }
}

/// Where a game of the local installation stands, by the two byte counts of
/// its manifest.
pub fn local_install_status(bytes_downloaded: Option<&str>, bytes_to_download: Option<&str>) -> (status:
    GameInstallStatus)
    ensures
        status == spec_local_install_status(
            bytes_downloaded.deep_view(),
            bytes_to_download.deep_view(),
        ),
{
    match bytes_downloaded {
        None => GameInstallStatus::Queued,
        Some(done) => match bytes_to_download {
            Some(all) => if str_eq(done, all) {
                GameInstallStatus::Installed
            } else {
                GameInstallStatus::Installing
            },
            None => GameInstallStatus::Installing,
        },
    }
}

/// The mathematical value of what a manifest says of a game.
pub struct ManifestView {
    pub app_id: Seq<char>,
    pub name: Seq<char>,
    pub last_played: Option<Seq<char>>,
    pub bytes_downloaded: Option<Seq<char>>,
    pub bytes_to_download: Option<Seq<char>>,
}

/// What the manifest of a locally installed game says of it, as text.
#[derive(Debug)]
pub struct Manifest {
    pub app_id: String,
    pub name: String,
    pub last_played: Option<String>,
    pub bytes_downloaded: Option<String>,
    pub bytes_to_download: Option<String>,
}

impl DeepView for Manifest {
    type V = ManifestView;

    open spec fn deep_view(&self) -> ManifestView {
        self@
    }
}

impl View for Manifest {
    type V = ManifestView;

    open spec fn view(&self) -> ManifestView {
        ManifestView {
            app_id: self.app_id@,
            name: self.name@,
            last_played: self.last_played.deep_view(),
            bytes_downloaded: self.bytes_downloaded.deep_view(),
            bytes_to_download: self.bytes_to_download.deep_view(),
        }
    }
}

/// The scanned game that a manifest describes. `icon_url` is the address of
/// the cached icon, where there is one. A time of last play that is no
/// number counts as unknown.
pub open spec fn spec_local_record(manifest: ManifestView, icon_url: Option<Seq<char>>) -> ScannedGameView {
    ScannedGameView {
        name: manifest.name,
        library_type: ID@,
        library_id: manifest.app_id,
        last_played_epoch: match manifest.last_played {
            Some(text) => spec_parse_decimal(text),
            None => None,
        },
        install_status: spec_local_install_status(
            manifest.bytes_downloaded,
            manifest.bytes_to_download,
        ),
        playtime_secs: 0,
        icon_url,
    }
}

/// The scanned game that a manifest describes.
pub fn local_record(manifest: &Manifest, icon_url: Option<String>) -> (record: ScannedGameLibraryMetadata)
    ensures
        record@ == spec_local_record(manifest@, icon_url.deep_view()),
{
    let last_played_epoch = match &manifest.last_played {
        Some(text) => parse_decimal(text.as_str()),
        None => None,
    };
    let done: Option<&str> = match &manifest.bytes_downloaded {
        Some(text) => Some(text.as_str()),
        None => None,
    };
    let all: Option<&str> = match &manifest.bytes_to_download {
        Some(text) => Some(text.as_str()),
        None => None,
    };
    ScannedGameLibraryMetadata {
        name: manifest.name.clone(),
        library_type: ID.to_owned(),
        library_id: manifest.app_id.clone(),
        last_played_epoch,
        install_status: local_install_status(done, all),
        playtime_secs: 0,
        icon_url,
    }
}

/// The install status that the local scan knows for a library id: that of
/// the last record with the id; a game that is not installed locally is in
/// the library.
pub open spec fn spec_status_of(local: Seq<ScannedGameView>, id: Seq<char>) -> GameInstallStatus
    decreases local.len(),
{
    if local.len() == 0 {
        GameInstallStatus::InLibrary
    } else if local.last().library_id == id {
        local.last().install_status
    } else {
        spec_status_of(local.drop_last(), id)
    }
}

/// The install status that the local scan knows for a library id.
pub fn status_of(local: &Vec<ScannedGameLibraryMetadata>, id: &str) -> (status: GameInstallStatus)
    ensures
        status == spec_status_of(local.deep_view(), id@),
{
    let ghost records = local.deep_view();
    let mut i: usize = local.len();
    assert(records.take(i as int) =~= records);
    while i > 0
        invariant
            i <= local.len(),
            records == local.deep_view(),
            spec_status_of(records, id@) == spec_status_of(records.take(i as int), id@),
        decreases i,
    {
        proof {
            assert(records.take(i as int).last() == local[i - 1]@);
            assert(records.take(i as int).drop_last() =~= records.take(i - 1));
        }
        if str_eq(local[i - 1].library_id.as_str(), id) {
            return local[i - 1].install_status;
        }
        i -= 1;
    }
    GameInstallStatus::InLibrary
}

/// The scanned game that an owned game of the account describes, given what
/// the local scan found and the address of the cached icon.
pub open spec fn spec_owned_record(
    game: OwnedGameView,
    local: Seq<ScannedGameView>,
    icon_url: Option<Seq<char>>,
) -> ScannedGameView {
    ScannedGameView {
        name: game.name,
        library_type: ID@,
        library_id: spec_decimal_text(game.appid as nat),
        last_played_epoch: Some(game.rtime_last_played),
        install_status: spec_status_of(local, spec_decimal_text(game.appid as nat)),
        playtime_secs: game.playtime_forever,
        icon_url,
    }
}

/// The scanned game that an owned game of the account describes.
pub fn owned_record(
    game: &OwnedGame,
    local: &Vec<ScannedGameLibraryMetadata>,
    icon_url: Option<String>,
) -> (record: ScannedGameLibraryMetadata)
    ensures
        record@ == spec_owned_record(game@, local.deep_view(), icon_url.deep_view()),
{
    let library_id = decimal_text(game.appid);
    let install_status = status_of(local, library_id.as_str());
    ScannedGameLibraryMetadata {
        name: game.name.clone(),
        library_type: ID.to_owned(),
        library_id,
        last_played_epoch: Some(game.rtime_last_played),
        install_status,
        playtime_secs: game.playtime_forever,
        icon_url,
    }
}

/// The icon at position `i` of a list of icons; none where the list is too
/// short.
pub open spec fn spec_icon_at(icons: Seq<Option<Seq<char>>>, i: int) -> Option<Seq<char>> {
    if 0 <= i < icons.len() {
        icons[i]
    } else {
        None
    }
}

/// The result of a scan that could ask the web API: one record for each
/// owned game, in the order of the account, with the install status that the
/// local scan found. `icons` holds the address of the cached icon of each
/// owned game, in the same order.
pub open spec fn spec_scan_owned(
    owned: Seq<OwnedGameView>,
    local: Seq<ScannedGameView>,
    icons: Seq<Option<Seq<char>>>,
) -> Seq<ScannedGameView> {
    Seq::new(owned.len(), |i: int| spec_owned_record(owned[i], local, spec_icon_at(icons, i)))
}

/// The result of a scan that could ask the web API.
pub fn scan_owned(
    owned: &Vec<OwnedGame>,
    local: &Vec<ScannedGameLibraryMetadata>,
    icons: &Vec<Option<String>>,
) -> (records: Vec<ScannedGameLibraryMetadata>)
    ensures
        records.deep_view() == spec_scan_owned(
            owned.deep_view(),
            local.deep_view(),
            icons.deep_view(),
        ),
{
    let mut records: Vec<ScannedGameLibraryMetadata> = Vec::new();
    let mut i: usize = 0;
    while i < owned.len()
        invariant
            i <= owned.len(),
            records.len() == i,
            forall|j: int|
                0 <= j < i ==> records[j]@ == spec_owned_record(
                    owned[j]@,
                    local.deep_view(),
                    spec_icon_at(icons.deep_view(), j),
                ),
        decreases owned.len() - i,
    {
        let icon_url = if i < icons.len() {
            assert(icons.deep_view()[i as int] == icons[i as int].deep_view());
            clone_text(&icons[i])
        } else {
            None
        };
        records.push(owned_record(&owned[i], local, icon_url));
        i += 1;
    }
    assert(records.deep_view() =~= spec_scan_owned(
        owned.deep_view(),
        local.deep_view(),
        icons.deep_view(),
    ));
    records
}

/// Every owned game is reported, under the addon's library type.
pub proof fn lemma_scan_owned_reports_all(
    owned: Seq<OwnedGameView>,
    local: Seq<ScannedGameView>,
    icons: Seq<Option<Seq<char>>>,
    i: int,
)
    requires
        0 <= i < owned.len(),
    ensures
        spec_scan_owned(owned, local, icons).len() == owned.len(),
        spec_scan_owned(owned, local, icons)[i].library_type == ID@,
        spec_scan_owned(owned, local, icons)[i].name == owned[i].name,
        spec_parse_decimal(spec_scan_owned(owned, local, icons)[i].library_id) == Some(owned[i].appid),
{
    crate::text::lemma_decimal_round_trip(owned[i].appid as nat);
}

/// What the configuration fields of the addon are: the user's id and the key
/// of the web API, in this order, each a number with its own label and hint.
pub open spec fn spec_is_config_schema(schema: ConfigsSchema) -> bool {
    &&& schema.well_formed()
    &&& schema.spec_keys() == seq!["steamId"@, "apiKey"@]
    &&& schema@.dom() =~= set!["steamId"@, "apiKey"@]
    &&& schema@["steamId"@]@ == (ConfigSchemaView {
        name: "Steam ID"@,
        hint: "The 64-bit id of the Steam account"@,
        kind: ConfigSchemaKind::Int,
    })
    &&& schema@["apiKey"@]@ == (ConfigSchemaView {
        name: "API Key"@,
        hint: "The key of the Steam web API"@,
        kind: ConfigSchemaKind::Int,
    })
}

/// The configuration fields of the addon: the user's id and the key of the
/// web API.
pub fn config_schema() -> (schema: ConfigsSchema)
    ensures
        spec_is_config_schema(schema),
{
    let mut schema: ConfigsSchema = StringTable::new();
    schema.insert(
        "steamId".to_owned(),
        ConfigSchemaMetadata {
            name: "Steam ID".to_owned(),
            hint: "The 64-bit id of the Steam account".to_owned(),
            kind: ConfigSchemaKind::Int,
        },
    );
    schema.insert(
        "apiKey".to_owned(),
        ConfigSchemaMetadata {
            name: "API Key".to_owned(),
            hint: "The key of the Steam web API".to_owned(),
            kind: ConfigSchemaKind::Int,
        },
    );
    proof {
        reveal_strlit("steamId");
        reveal_strlit("apiKey");
        assert("steamId"@ != "apiKey"@) by {
            assert("steamId"@.len() == 7);
            assert("apiKey"@.len() == 6);
        }
        assert(schema.spec_keys() =~= seq!["steamId"@, "apiKey"@]);
    }
    schema
}

/// The registration entry point of the addon. It makes three registrations
/// and no other, each under the addon's id: the game library, the metadata
/// source and the configuration fields.
pub fn register<L, M, R: PluginRegistrar<L, M>>(registrar: &mut R, library: Arc<L>, scanner: Arc<M>)
    requires
        old(registrar).ready(),
    ensures
        final(registrar).ready(),
        final(registrar).libraries() == old(registrar).libraries().insert(ID@, library),
        final(registrar).scanners() == old(registrar).scanners().insert(ID@, scanner),
        final(registrar).config_schemas().dom().contains(ID@),
        spec_is_config_schema(final(registrar).config_schemas()[ID@]),
        final(registrar).config_schemas() == old(registrar).config_schemas().insert(
            ID@,
            final(registrar).config_schemas()[ID@],
        ),
{
    registrar.register_library(ID, library);
    registrar.register_metadata_scanner(ID, scanner);
    registrar.register_config(ID, config_schema());
}

} // verus!
