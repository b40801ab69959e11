use gami::fetch::FetchProgress;
use gami::host::{is_addon_binary, AddonCandidate, AddonLoadError, ExternalAddons, Registrar};
use gami::models::{
    ConfigSchemaKind, ConfigSchemaMetadata, GameInstallStatus, GameLibraryRef, GameLibraryRefOwned,
    GameMetadata, PluginMetadata, ScannedGameLibraryMetadata,
};
use gami::plugin::{ConfigsSchema, GameLibrary, GameMetadataScanner, PluginDeclaration, PluginRegistrar};
use gami::table::StringTable;
use std::sync::Arc;

struct FakeLibrary {
    ids: Vec<&'static str>,
}

impl GameLibrary for FakeLibrary {
    fn scan(&self) -> Vec<ScannedGameLibraryMetadata> {
        self.ids
            .iter()
            .map(|id| ScannedGameLibraryMetadata {
                name: format!("Game {}", id),
                library_type: "steam".to_string(),
                library_id: id.to_string(),
                ..ScannedGameLibraryMetadata::default()
            })
            .collect()
    }

    fn launch(&self, _game: GameLibraryRef<'_>) {}

    fn install(&self, _game: GameLibraryRef<'_>) {}

    fn uninstall(&self, _game: GameLibraryRef<'_>) {}

    fn check_install_status(&self, _game: GameLibraryRef<'_>) -> GameInstallStatus {
        GameInstallStatus::Queued
    }
}

struct FakeScanner;

impl GameMetadataScanner for FakeScanner {
    fn get_metadata(&self, game: GameLibraryRef<'_>) -> Option<GameMetadata> {
        let mut metadata = GameMetadata::default();
        metadata.description = Some(format!("about {}", game.library_id));
        Some(metadata)
    }

    fn get_metadatas<F: Fn(FetchProgress)>(
        &self,
        games: &Vec<GameLibraryRefOwned>,
        on_progress: F,
    ) -> Vec<(GameLibraryRefOwned, GameMetadata)> {
        let mut found = Vec::new();
        for (index, game) in games.iter().enumerate() {
            found.push((game.clone(), GameMetadata::default()));
            on_progress(FetchProgress { current: index + 1, total: games.len() });
        }
        found
    }
}

type Host = ExternalAddons<FakeLibrary, FakeScanner>;

fn tags(rustc: &str, core: &str) -> PluginDeclaration {
    PluginDeclaration { rustc_version: rustc.to_string(), core_version: core.to_string() }
}

fn this_binary() -> Arc<libloading::Library> {
    Arc::new(libloading::os::unix::Library::this().into())
}

fn steam() -> PluginMetadata {
    PluginMetadata { id: "steam".to_string(), name: "Steam".to_string() }
}

fn register_steam(mut registrar: Registrar<FakeLibrary, FakeScanner>) -> Registrar<FakeLibrary, FakeScanner> {
    registrar.register_library("steam", Arc::new(FakeLibrary { ids: vec!["10", "20"] }));
    registrar.register_metadata_scanner("steam", Arc::new(FakeScanner));
    let mut schema: ConfigsSchema = StringTable::new();
    schema.insert(
        "apiKey".to_string(),
        ConfigSchemaMetadata {
            hint: "The key of the web API".to_string(),
            name: "API Key".to_string(),
            kind: ConfigSchemaKind::String,
        },
    );
    registrar.register_config("steam", schema);
    registrar
}

#[test]
fn a_fresh_host_knows_no_addon() {
    let host = Host::new(tags("1.80.0", "0.1.0"));
    assert!(host.get_keys().is_empty());
    assert!(host.get_addon_metadatas().is_empty());
    assert!(host.get_game_library("steam").is_none());
    assert!(host.get_game_metadata("steam").is_none());
    assert!(host.get_config_schema("steam").is_none());
}

#[test]
fn load_registers_what_the_addon_declares() {
    let mut host = Host::new(tags("1.80.0", "0.1.0"));
    let outcome = host.load(this_binary(), steam(), &tags("1.80.0", "0.1.0"), register_steam);
    assert_eq!(outcome, Ok(()));
    assert_eq!(host.get_keys(), vec!["steam"]);
    assert_eq!(host.get_addon_metadatas().len(), 1);
    assert_eq!(host.get_addon_metadatas()[0].id, "steam");
    assert_eq!(host.get_addon_metadatas()[0].name, "Steam");
    let library = host.get_game_library("steam").expect("the library is registered");
    assert_eq!(library.scan().len(), 2);
    assert_eq!(
        library.check_install_status(GameLibraryRef { name: "", library_type: "steam", library_id: "10" }),
        GameInstallStatus::Queued
    );
    let scanner = host.get_game_metadata("steam").expect("the scanner is registered");
    let found = scanner.get_metadata(GameLibraryRef { name: "", library_type: "steam", library_id: "10" });
    assert_eq!(found.unwrap().description.as_deref(), Some("about 10"));
    let schema = host.get_config_schema("steam").expect("the schema is registered");
    assert_eq!(schema.keys(), vec!["apiKey"]);
    assert_eq!(schema.get("apiKey").unwrap().kind, ConfigSchemaKind::String);
    assert!(host.get_game_library("gog").is_none());
}

#[test]
fn load_refuses_other_version_tags_and_registers_nothing() {
    let mut host = Host::new(tags("1.80.0", "0.1.0"));
    let mut called = false;
    let outcome = host.load(this_binary(), steam(), &tags("1.79.0", "0.1.0"), |registrar| {
        called = true;
        register_steam(registrar)
    });
    assert_eq!(outcome, Err(AddonLoadError::VersionMismatch));
    assert!(!called);
    assert!(host.get_keys().is_empty());
    assert!(host.get_addon_metadatas().is_empty());
    assert!(host.get_game_library("steam").is_none());
    assert!(host.get_game_metadata("steam").is_none());
    assert!(host.get_config_schema("steam").is_none());

    let outcome = host.load(this_binary(), steam(), &tags("1.80.0", "0.2.0"), register_steam);
    assert_eq!(outcome, Err(AddonLoadError::VersionMismatch));
    assert!(host.get_keys().is_empty());
}

#[test]
fn a_refused_addon_does_not_disturb_the_others() {
    let mut host = Host::new(tags("1.80.0", "0.1.0"));
    assert_eq!(host.load(this_binary(), steam(), &tags("1.80.0", "0.1.0"), register_steam), Ok(()));
    let gog = PluginMetadata { id: "gog".to_string(), name: "GOG".to_string() };
    let outcome = host.load(this_binary(), gog, &tags("1.0.0", "0.1.0"), |mut registrar| {
        registrar.register_library("gog", Arc::new(FakeLibrary { ids: vec![] }));
        registrar
    });
    assert_eq!(outcome, Err(AddonLoadError::VersionMismatch));
    assert_eq!(host.get_keys(), vec!["steam"]);
    assert_eq!(host.get_addon_metadatas().len(), 1);
    assert!(host.get_game_library("gog").is_none());
}

#[test]
fn a_later_registration_replaces_an_earlier_one_of_the_same_name() {
    let mut host = Host::new(tags("t", "c"));
    assert_eq!(host.load(this_binary(), steam(), &tags("t", "c"), register_steam), Ok(()));
    let again = host.load(this_binary(), steam(), &tags("t", "c"), |mut registrar| {
        registrar.register_library("steam", Arc::new(FakeLibrary { ids: vec!["1", "2", "3"] }));
        registrar
    });
    assert_eq!(again, Ok(()));
    assert_eq!(host.get_keys(), vec!["steam"]);
    assert_eq!(host.get_game_library("steam").unwrap().scan().len(), 3);
    assert_eq!(host.get_addon_metadatas().len(), 2);
}

#[test]
fn a_proxy_outlives_the_host_tables() {
    let mut host = Host::new(tags("t", "c"));
    assert_eq!(host.load(this_binary(), steam(), &tags("t", "c"), register_steam), Ok(()));
    let proxy = host.get_game_library("steam").unwrap().clone();
    let scanner = host.get_game_metadata("steam").unwrap().clone();
    host.clear();
    assert!(host.get_keys().is_empty());
    assert!(host.get_game_library("steam").is_none());
    assert!(host.get_addon_metadatas().is_empty());
    assert_eq!(proxy.scan().len(), 2);
    assert_eq!(proxy.scan()[1].library_id, "20");
    assert_eq!(scanner.get_metadatas(&vec![], |_| {}).len(), 0);
    let asked = vec![
        GameLibraryRefOwned { name: "a".to_string(), library_type: "steam".to_string(), library_id: "1".to_string() },
        GameLibraryRefOwned { name: "b".to_string(), library_type: "steam".to_string(), library_id: "2".to_string() },
    ];
    let heard = std::cell::RefCell::new(Vec::new());
    assert_eq!(scanner.get_metadatas(&asked, |tick| heard.borrow_mut().push(tick)).len(), 2);
    assert_eq!(
        heard.into_inner(),
        vec![FetchProgress { current: 1, total: 2 }, FetchProgress { current: 2, total: 2 }]
    );
    assert!(Arc::strong_count(&proxy._lib) >= 1);
    drop(host);
    assert_eq!(proxy.scan().len(), 2);
}

#[test]
fn check_declaration_compares_both_tags() {
    let host = Host::new(tags("1.80.0", "0.1.0"));
    assert_eq!(host.check_declaration(&tags("1.80.0", "0.1.0")), Ok(()));
    assert_eq!(host.check_declaration(&tags("1.80.0", "0.1.1")), Err(AddonLoadError::VersionMismatch));
    assert_eq!(host.check_declaration(&tags("1.80.1", "0.1.0")), Err(AddonLoadError::VersionMismatch));
    assert_eq!(host.check_declaration(&tags("", "")), Err(AddonLoadError::VersionMismatch));
}

#[test]
fn only_files_with_the_library_extension_are_addon_binaries() {
    assert!(is_addon_binary(Some("so"), "so"));
    assert!(!is_addon_binary(Some("json"), "so"));
    assert!(!is_addon_binary(Some("dll"), "so"));
    assert!(!is_addon_binary(None, "so"));
    assert!(is_addon_binary(Some("dll"), "dll"));
}

type Register = Box<dyn FnOnce(Registrar<FakeLibrary, FakeScanner>) -> Registrar<FakeLibrary, FakeScanner>>;

fn candidate(id: &'static str, rustc: &str) -> Result<AddonCandidate<Register>, AddonLoadError> {
    Ok(AddonCandidate {
        library: this_binary(),
        metadata: PluginMetadata { id: id.to_string(), name: id.to_uppercase() },
        declared: tags(rustc, "c"),
        register: Box::new(move |mut registrar: Registrar<FakeLibrary, FakeScanner>| {
            registrar.register_library(id, Arc::new(FakeLibrary { ids: vec!["1"] }));
            registrar
        }),
    })
}

#[test]
fn load_all_passes_over_the_addons_that_fail() {
    let mut host = Host::new(tags("t", "c"));
    let outcomes = host.load_all(vec![
        candidate("steam", "t"),
        Err(AddonLoadError::LoaderFailure),
        candidate("old", "s"),
        Err(AddonLoadError::MissingSymbol),
        candidate("gog", "t"),
    ]);
    assert_eq!(
        outcomes,
        vec![
            Ok(()),
            Err(AddonLoadError::LoaderFailure),
            Err(AddonLoadError::VersionMismatch),
            Err(AddonLoadError::MissingSymbol),
            Ok(())
        ]
    );
    assert_eq!(host.get_keys(), vec!["steam", "gog"]);
    let ids: Vec<&str> = host.get_addon_metadatas().iter().map(|m| m.id.as_str()).collect();
    assert_eq!(ids, vec!["steam", "gog"]);
    assert!(host.get_game_library("old").is_none());
    assert!(host.load_all(Vec::<Result<AddonCandidate<Register>, AddonLoadError>>::new()).is_empty());
    assert_eq!(host.get_keys(), vec!["steam", "gog"]);
}

#[test]
fn the_steam_addon_registers_under_its_id() {
    let mut host = Host::new(tags("t", "c"));
    let outcome = host.load(this_binary(), steam(), &tags("t", "c"), |mut registrar| {
        gami::steam::library::register(
            &mut registrar,
            Arc::new(FakeLibrary { ids: vec!["10"] }),
            Arc::new(FakeScanner),
        );
        registrar
    });
    assert_eq!(outcome, Ok(()));
    assert_eq!(host.get_keys(), vec!["steam"]);
    assert!(host.get_game_metadata("steam").is_some());
    assert_eq!(host.get_config_schema("steam").unwrap().keys(), vec!["steamId", "apiKey"]);
}
