//! The addon host: it admits addons by their version tags, collects what they
//! register and answers lookups by addon id.
use crate::fetch::FetchProgress;
use crate::models::{
    GameInstallStatus, GameLibraryRef, GameLibraryRefOwned, GameMetadata, GameMetadataView,
    GameRefView, PluginMetadata, PluginMetadataView, ScannedGameLibraryMetadata,
};
use crate::plugin::{ConfigsSchema, GameLibrary, GameMetadataScanner, PluginDeclaration, PluginRegistrar};
use crate::table::StringTable;
use libloading::Library;
use std::sync::Arc;
use vstd::prelude::*;

verus! {

/// `libloading::Library`: a dynamic library that is mapped into the
/// process. The host never looks inside; it only keeps shares in it.
#[verifier::external_type_specification]
#[verifier::external_body]
pub struct ExLibrary(libloading::Library);

/// Why an addon was not loaded. Each of them concerns that addon alone.
#[derive(Debug, Clone, Copy, PartialEq, Eq, Structural)]
pub enum AddonLoadError {
    /// The binary lacks one of the two symbols that every addon exports.
    MissingSymbol,
    /// The addon was built with other version tags than the host.
    VersionMismatch,
    /// The operating system could not map the binary.
    LoaderFailure,
}

/// A game library of an addon together with a share in the addon's mapped
/// binary: the binary stays mapped for as long as any copy of the proxy lives.
pub struct GameLibraryProxy<L> {
    pub inner: Arc<L>,
    pub _lib: Arc<Library>,
}

/// A metadata source of an addon together with a share in the addon's mapped
/// binary.
pub struct GameMetadataScannerProxy<M> {
    pub inner: Arc<M>,
    pub _lib: Arc<Library>,
}

impl<L> Clone for GameLibraryProxy<L> {
    /// The copy shares the capability and holds its own share in the binary.
    fn clone(&self) -> (copy: Self)
        ensures
            copy == *self,
    {
        GameLibraryProxy { inner: Arc::clone(&self.inner), _lib: Arc::clone(&self._lib) }
    }
}

impl<M> Clone for GameMetadataScannerProxy<M> {
    /// The copy shares the capability and holds its own share in the binary.
    fn clone(&self) -> (copy: Self)
        ensures
            copy == *self,
    {
        GameMetadataScannerProxy { inner: Arc::clone(&self.inner), _lib: Arc::clone(&self._lib) }
    }
}

impl<L: GameLibrary> GameLibrary for GameLibraryProxy<L> {
    /// Forwards to the addon: the proxy answers what the addon answers.
    fn scan(&self) -> (games: Vec<ScannedGameLibraryMetadata>)
        ensures
            call_ensures(L::scan, (&*self.inner,), games),
    {
        self.inner.scan()
    }

    /// Forwards to the addon.
    fn launch(&self, game: GameLibraryRef<'_>)
        ensures
            call_ensures(L::launch, (&*self.inner, game), ()),
    {
        self.inner.launch(game)
    }

    /// Forwards to the addon.
    fn install(&self, game: GameLibraryRef<'_>)
        ensures
            call_ensures(L::install, (&*self.inner, game), ()),
    {
        self.inner.install(game)
    }

    /// Forwards to the addon.
    fn uninstall(&self, game: GameLibraryRef<'_>)
        ensures
            call_ensures(L::uninstall, (&*self.inner, game), ()),
    {
        self.inner.uninstall(game)
    }

    /// Forwards to the addon: the proxy answers what the addon answers.
    fn check_install_status(&self, game: GameLibraryRef<'_>) -> (status: GameInstallStatus)
        ensures
            call_ensures(L::check_install_status, (&*self.inner, game), status),
    {
        self.inner.check_install_status(game)
    }
}

impl<M: GameMetadataScanner> GameMetadataScanner for GameMetadataScannerProxy<M> {
    /// The proxy may answer what the addon's source may answer, and nothing
    /// else.
    open spec fn may_answer(
        &self,
        games: Seq<GameRefView>,
        found: Seq<(GameRefView, GameMetadataView)>,
    ) -> bool {
        self.inner.may_answer(games, found)
    }

    /// Forwards to the addon: the proxy answers what the addon answers.
    fn get_metadata(&self, game: GameLibraryRef<'_>) -> (metadata: Option<GameMetadata>)
        ensures
            call_ensures(M::get_metadata, (&*self.inner, game), metadata),
    {
        self.inner.get_metadata(game)
    }

    /// Forwards to the addon, with the same games and the same listener:
    /// what the proxy answers is an answer of the addon's source for these
    /// games.
    fn get_metadatas<F: Fn(FetchProgress)>(
        &self,
        games: &Vec<GameLibraryRefOwned>,
        on_progress: F,
    ) -> (found: Vec<(GameLibraryRefOwned, GameMetadata)>)
        ensures
            self.inner.may_answer(games.deep_view(), found.deep_view()),
    {
        self.inner.get_metadatas(games, on_progress)
    }
}

/// The mathematical value of a registrar: what has been registered so far,
/// by name, and the binary that every registration is tied to.
pub struct RegistrarView<L, M> {
    pub game_libs: Map<Seq<char>, GameLibraryProxy<L>>,
    pub game_meta_scanners: Map<Seq<char>, GameMetadataScannerProxy<M>>,
    pub configs: Map<Seq<char>, ConfigsSchema>,
    pub lib: Arc<Library>,
}

/// Collects what one addon registers during its registration call.
pub struct Registrar<L, M> {
    game_libs: StringTable<GameLibraryProxy<L>>,
    game_meta_scanners: StringTable<GameMetadataScannerProxy<M>>,
    configs: StringTable<ConfigsSchema>,
    lib: Arc<Library>,
}

impl<L, M> View for Registrar<L, M> {
    type V = RegistrarView<L, M>;

    closed spec fn view(&self) -> RegistrarView<L, M> {
        RegistrarView {
            game_libs: self.game_libs@,
            game_meta_scanners: self.game_meta_scanners@,
            configs: self.configs@,
            lib: self.lib,
        }
    }
}

/// A registrar in which nothing has been registered yet.
pub open spec fn spec_fresh_registrar<L, M>(lib: Arc<Library>) -> RegistrarView<L, M> {
    RegistrarView {
        game_libs: Map::empty(),
        game_meta_scanners: Map::empty(),
        configs: Map::empty(),
        lib,
    }
}

impl<L, M> Registrar<L, M> {
    /// The tables of the registrar hold each name once.
    pub closed spec fn well_formed(&self) -> bool {
        &&& self.game_libs.well_formed()
        &&& self.game_meta_scanners.well_formed()
        &&& self.configs.well_formed()
    }

    /// A registrar for the addon whose binary is `lib`, with nothing
    /// registered.
    pub fn new(lib: Arc<Library>) -> (registrar: Self)
        ensures
            registrar.well_formed(),
            registrar@ == spec_fresh_registrar::<L, M>(lib),
    {
        Registrar {
            lib,
            configs: StringTable::new(),
            game_libs: StringTable::new(),
            game_meta_scanners: StringTable::new(),
        }
    }
}

impl<L, M> PluginRegistrar<L, M> for Registrar<L, M> {
    open spec fn ready(&self) -> bool {
        self.well_formed()
    }

    open spec fn libraries(&self) -> Map<Seq<char>, Arc<L>> {
        self@.game_libs.map_values(|proxy: GameLibraryProxy<L>| proxy.inner)
    }

    open spec fn scanners(&self) -> Map<Seq<char>, Arc<M>> {
        self@.game_meta_scanners.map_values(|proxy: GameMetadataScannerProxy<M>| proxy.inner)
    }

    open spec fn config_schemas(&self) -> Map<Seq<char>, ConfigsSchema> {
        self@.configs
    }

    /// Records the configuration fields under `file_name`.
    fn register_config(&mut self, file_name: &str, schema: ConfigsSchema)
        ensures
            final(self)@ == (RegistrarView {
                configs: old(self)@.configs.insert(file_name@, schema),
                ..old(self)@
            }),
    {
        self.configs.insert(file_name.to_owned(), schema);
    }

    /// Records a game library under `name`, wrapped in a proxy that holds a
    /// share in the addon's binary.
    fn register_library(&mut self, name: &str, function: Arc<L>)
        ensures
            final(self)@ == (RegistrarView {
                game_libs: old(self)@.game_libs.insert(
                    name@,
                    GameLibraryProxy { inner: function, _lib: old(self)@.lib },
                ),
                ..old(self)@
            }),
    {
        let proxy = GameLibraryProxy { inner: function, _lib: Arc::clone(&self.lib) };
        self.game_libs.insert(name.to_owned(), proxy);
        assert(self.libraries() =~= old(self).libraries().insert(name@, function));
    }

    /// Records a metadata source under `name`, wrapped in a proxy that holds a
    /// share in the addon's binary.
    fn register_metadata_scanner(&mut self, name: &str, function: Arc<M>)
        ensures
            final(self)@ == (RegistrarView {
                game_meta_scanners: old(self)@.game_meta_scanners.insert(
                    name@,
                    GameMetadataScannerProxy { inner: function, _lib: old(self)@.lib },
                ),
                ..old(self)@
            }),
    {
        let proxy = GameMetadataScannerProxy { inner: function, _lib: Arc::clone(&self.lib) };
        self.game_meta_scanners.insert(name.to_owned(), proxy);
        assert(self.scanners() =~= old(self).scanners().insert(name@, function));
    }
}

/// The mathematical value of the host: its own version tags, the capabilities
/// by name, and the addons that were loaded, in the order of loading.
pub struct HostView<L, M> {
    pub host: crate::plugin::VersionTagsView,
    pub game_libs: Map<Seq<char>, GameLibraryProxy<L>>,
    pub meta_scanners: Map<Seq<char>, GameMetadataScannerProxy<M>>,
    pub configs: Map<Seq<char>, ConfigsSchema>,
    pub metas: Seq<PluginMetadataView>,
    pub libraries: Seq<Arc<Library>>,
}

/// The addons that the host has loaded and what they offer.
pub struct ExternalAddons<L, M> {
    host: PluginDeclaration,
    game_libs: StringTable<GameLibraryProxy<L>>,
    meta_scanners: StringTable<GameMetadataScannerProxy<M>>,
    configs: StringTable<ConfigsSchema>,
    metas: Vec<PluginMetadata>,
    libraries: Vec<Arc<Library>>,
}

impl<L, M> View for ExternalAddons<L, M> {
    type V = HostView<L, M>;

    closed spec fn view(&self) -> HostView<L, M> {
        HostView {
            host: self.host@,
            game_libs: self.game_libs@,
            meta_scanners: self.meta_scanners@,
            configs: self.configs@,
            metas: self.metas.deep_view(),
            libraries: self.libraries@,
        }
    }
}

/// A host with version tags `host` that has loaded nothing.
pub open spec fn spec_empty_host<L, M>(host: crate::plugin::VersionTagsView) -> HostView<L, M> {
    HostView {
        host,
        game_libs: Map::empty(),
        meta_scanners: Map::empty(),
        configs: Map::empty(),
        metas: Seq::empty(),
        libraries: Seq::empty(),
    }
}

/// The host after it has taken over what an addon registered: every
/// registration stands under its name, in place of an earlier one of that
/// name, and the addon and its binary are on record.
pub open spec fn spec_install<L, M>(
    host: HostView<L, M>,
    metadata: PluginMetadataView,
    registered: RegistrarView<L, M>,
) -> HostView<L, M> {
    HostView {
        host: host.host,
        game_libs: host.game_libs.union_prefer_right(registered.game_libs),
        meta_scanners: host.meta_scanners.union_prefer_right(registered.game_meta_scanners),
        configs: host.configs.union_prefer_right(registered.configs),
        metas: host.metas.push(metadata),
        libraries: host.libraries.push(registered.lib),
    }
}

/// An addon whose binary is mapped and whose two symbols have been read:
/// what it says of itself, its version tags and its registration entry
/// point.
pub struct AddonCandidate<F> {
    pub library: Arc<Library>,
    pub metadata: PluginMetadata,
    pub declared: PluginDeclaration,
    pub register: F,
}

/// What comes of the attempt to load one addon: an addon that could not even
/// be read keeps its error; one that could is admitted by its version tags.
pub open spec fn spec_load_outcome<F>(
    host: crate::plugin::VersionTagsView,
    candidate: Result<AddonCandidate<F>, AddonLoadError>,
) -> Result<(), AddonLoadError> {
    match candidate {
        Ok(read) => spec_admission(host, read.declared@),
        Err(error) => Err(error),
    }
}

/// The addons among the candidates that are loaded, in order: those that
/// could be read and carry the host's version tags.
pub open spec fn spec_admitted<F>(
    host: crate::plugin::VersionTagsView,
    candidates: Seq<Result<AddonCandidate<F>, AddonLoadError>>,
) -> Seq<PluginMetadataView>
    decreases candidates.len(),
{
    if candidates.len() == 0 {
        Seq::empty()
    } else {
        let front = spec_admitted(host, candidates.drop_last());
        match candidates.last() {
            Ok(read) => if read.declared@ == host {
                front.push(read.metadata@)
            } else {
                front
            },
            Err(_) => front,
        }
    }
}

/// Whether the host loads a candidate: it could be read and carries the
/// host's version tags.
pub open spec fn spec_admits<F>(
    host: crate::plugin::VersionTagsView,
    candidate: Result<AddonCandidate<F>, AddonLoadError>,
) -> bool {
    candidate matches Ok(read) && read.declared@ == host
}

/// `registered` is what the registration entry point of a candidate left in
/// a registrar that was fresh, and tied to the candidate's binary, when the
/// entry point got it.
pub open spec fn spec_registered_by<L, M, F: FnOnce(Registrar<L, M>) -> Registrar<L, M>>(
    candidate: AddonCandidate<F>,
    registered: RegistrarView<L, M>,
) -> bool {
    exists|fresh: Registrar<L, M>, filled: Registrar<L, M>|
        fresh@ == spec_fresh_registrar::<L, M>(candidate.library) && #[trigger] call_ensures(
            candidate.register,
            (fresh,),
            filled,
        ) && filled@ == registered
}

/// The host after a directory scan: every candidate that the host with the
/// tags `tags` admits is installed, in order, with what it registered; the
/// others leave no trace. `registered` holds, at the place of each admitted
/// candidate, what that candidate registered.
pub open spec fn spec_load_all<L, M, F>(
    host: HostView<L, M>,
    tags: crate::plugin::VersionTagsView,
    candidates: Seq<Result<AddonCandidate<F>, AddonLoadError>>,
    registered: Seq<RegistrarView<L, M>>,
) -> HostView<L, M>
    decreases candidates.len(),
{
    if candidates.len() == 0 || registered.len() != candidates.len() {
        host
    } else {
        let before = spec_load_all(host, tags, candidates.drop_last(), registered.drop_last());
        if spec_admits(tags, candidates.last()) {
            spec_install(before, candidates.last()->Ok_0.metadata@, registered.last())
        } else {
            before
        }
    }
}

/// Which capabilities stand in the host after a directory scan. A name
/// stands in a table of the host exactly when it stood there before or an
/// admitted addon registered it: a refused addon registers nothing, whether
/// it comes before or after one that is admitted, and nothing that an
/// admitted addon registered is lost.
pub proof fn lemma_load_all_names<L, M, F>(
    host: HostView<L, M>,
    tags: crate::plugin::VersionTagsView,
    candidates: Seq<Result<AddonCandidate<F>, AddonLoadError>>,
    registered: Seq<RegistrarView<L, M>>,
    name: Seq<char>,
)
    requires
        registered.len() == candidates.len(),
    ensures
        spec_load_all(host, tags, candidates, registered).game_libs.dom().contains(name) <==> (
        host.game_libs.dom().contains(name) || exists|i: int|
            0 <= i < candidates.len() && spec_admits(tags, candidates[i])
                && (#[trigger] registered[i]).game_libs.dom().contains(name)),
        spec_load_all(host, tags, candidates, registered).meta_scanners.dom().contains(name) <==> (
        host.meta_scanners.dom().contains(name) || exists|i: int|
            0 <= i < candidates.len() && spec_admits(tags, candidates[i])
                && (#[trigger] registered[i]).game_meta_scanners.dom().contains(name)),
        spec_load_all(host, tags, candidates, registered).configs.dom().contains(name) <==> (
        host.configs.dom().contains(name) || exists|i: int|
            0 <= i < candidates.len() && spec_admits(tags, candidates[i])
                && (#[trigger] registered[i]).configs.dom().contains(name)),
    decreases candidates.len(),
{
    if candidates.len() > 0 {
        let front = candidates.drop_last();
        let front_registered = registered.drop_last();
        let last = candidates.len() - 1;
        lemma_load_all_names(host, tags, front, front_registered, name);
        let before = spec_load_all(host, tags, front, front_registered);
        let after = spec_load_all(host, tags, candidates, registered);
        let admitted = spec_admits(tags, candidates[last]);
        assert(candidates.last() == candidates[last] && registered.last() == registered[last]);

        // Game libraries.
        if after.game_libs.dom().contains(name) && !host.game_libs.dom().contains(name) {
            if before.game_libs.dom().contains(name) {
                let i = choose|i: int|
                    0 <= i < front.len() && spec_admits(tags, front[i])
                        && (#[trigger] front_registered[i]).game_libs.dom().contains(name);
                assert(front[i] == candidates[i] && front_registered[i] == registered[i]);
                assert(registered[i].game_libs.dom().contains(name));
            } else {
                assert(admitted && registered[last].game_libs.dom().contains(name));
            }
        }
        if exists|i: int|
            0 <= i < candidates.len() && spec_admits(tags, candidates[i])
                && (#[trigger] registered[i]).game_libs.dom().contains(name) {
            let i = choose|i: int|
                0 <= i < candidates.len() && spec_admits(tags, candidates[i])
                    && (#[trigger] registered[i]).game_libs.dom().contains(name);
            if i < last {
                assert(front[i] == candidates[i] && front_registered[i] == registered[i]);
                assert(front_registered[i].game_libs.dom().contains(name));
            }
        }

        // Metadata sources.
        if after.meta_scanners.dom().contains(name) && !host.meta_scanners.dom().contains(name) {
            if before.meta_scanners.dom().contains(name) {
                let i = choose|i: int|
                    0 <= i < front.len() && spec_admits(tags, front[i])
                        && (#[trigger] front_registered[i]).game_meta_scanners.dom().contains(name);
                assert(front[i] == candidates[i] && front_registered[i] == registered[i]);
                assert(registered[i].game_meta_scanners.dom().contains(name));
            } else {
                assert(admitted && registered[last].game_meta_scanners.dom().contains(name));
            }
        }
        if exists|i: int|
            0 <= i < candidates.len() && spec_admits(tags, candidates[i])
                && (#[trigger] registered[i]).game_meta_scanners.dom().contains(name) {
            let i = choose|i: int|
                0 <= i < candidates.len() && spec_admits(tags, candidates[i])
                    && (#[trigger] registered[i]).game_meta_scanners.dom().contains(name);
            if i < last {
                assert(front[i] == candidates[i] && front_registered[i] == registered[i]);
                assert(front_registered[i].game_meta_scanners.dom().contains(name));
            }
        }

        // Configuration fields.
        if after.configs.dom().contains(name) && !host.configs.dom().contains(name) {
            if before.configs.dom().contains(name) {
                let i = choose|i: int|
                    0 <= i < front.len() && spec_admits(tags, front[i])
                        && (#[trigger] front_registered[i]).configs.dom().contains(name);
                assert(front[i] == candidates[i] && front_registered[i] == registered[i]);
                assert(registered[i].configs.dom().contains(name));
            } else {
                assert(admitted && registered[last].configs.dom().contains(name));
            }
        }
        if exists|i: int|
            0 <= i < candidates.len() && spec_admits(tags, candidates[i])
                && (#[trigger] registered[i]).configs.dom().contains(name) {
            let i = choose|i: int|
                0 <= i < candidates.len() && spec_admits(tags, candidates[i])
                    && (#[trigger] registered[i]).configs.dom().contains(name);
            if i < last {
                assert(front[i] == candidates[i] && front_registered[i] == registered[i]);
                assert(front_registered[i].configs.dom().contains(name));
            }
        }
    }
}

impl<L, M> ExternalAddons<L, M> {
    /// The tables of the host hold each name once.
    pub closed spec fn well_formed(&self) -> bool {
        &&& self.game_libs.well_formed()
        &&& self.meta_scanners.well_formed()
        &&& self.configs.well_formed()
    }

    /// The ids under which game libraries stand, in the order of loading.
    pub closed spec fn spec_keys(&self) -> Seq<Seq<char>> {
        self.game_libs.spec_keys()
    }

    /// A host built with the version tags `host`, with no addon loaded.
    pub fn new(host: PluginDeclaration) -> (addons: Self)
        ensures
            addons.well_formed(),
            addons@ == spec_empty_host::<L, M>(host@),
            addons.spec_keys() == Seq::<Seq<char>>::empty(),
    {
        let addons = ExternalAddons {
            host,
            game_libs: StringTable::new(),
            meta_scanners: StringTable::new(),
            configs: StringTable::new(),
            metas: Vec::new(),
            libraries: Vec::new(),
        };
        assert(addons@.metas =~= Seq::empty());
        assert(addons@.libraries =~= Seq::empty());
        addons
    }

    /// What each loaded addon says of itself, in the order of loading.
    pub fn get_addon_metadatas(&self) -> (metas: &Vec<PluginMetadata>)
        ensures
            metas.deep_view() == self@.metas,
    {
        &self.metas
    }

    /// The ids under which game libraries stand: each once, and exactly the
    /// ids that `get_game_library` answers for.
    pub fn get_keys(&self) -> (keys: Vec<String>)
        requires
            self.well_formed(),
        ensures
            keys.deep_view() == self.spec_keys(),
            keys.deep_view().no_duplicates(),
            forall|id: Seq<char>| keys.deep_view().contains(id) <==> self@.game_libs.dom().contains(id),
    {
        self.game_libs.keys()
    }

    /// The game library registered under `name`.
    pub fn get_game_library(&self, name: &str) -> (proxy: Option<&GameLibraryProxy<L>>)
        requires
            self.well_formed(),
        ensures
            match proxy {
                Some(p) => self@.game_libs.dom().contains(name@) && *p == self@.game_libs[name@],
                None => !self@.game_libs.dom().contains(name@),
            },
    {
        self.game_libs.get(name)
    }

    /// The metadata source registered under `name`.
    pub fn get_game_metadata(&self, name: &str) -> (proxy: Option<&GameMetadataScannerProxy<M>>)
        requires
            self.well_formed(),
        ensures
            match proxy {
                Some(p) => self@.meta_scanners.dom().contains(name@) && *p
                    == self@.meta_scanners[name@],
                None => !self@.meta_scanners.dom().contains(name@),
            },
    {
        self.meta_scanners.get(name)
    }

    /// The configuration fields registered under `name`.
    pub fn get_config_schema(&self, name: &str) -> (schema: Option<&ConfigsSchema>)
        requires
            self.well_formed(),
        ensures
            match schema {
                Some(s) => self@.configs.dom().contains(name@) && *s == self@.configs[name@],
                None => !self@.configs.dom().contains(name@),
            },
    {
        self.configs.get(name)
    }

    /// Whether an addon is admitted. This is decided before anything of the
    /// addon is called: its declared version tags must be the host's own.
    pub fn check_declaration(&self, declared: &PluginDeclaration) -> (admission: Result<
        (),
        AddonLoadError,
    >)
        ensures
            admission == spec_admission(self@.host, declared@),
    {
        if self.host.matches(declared) {
            Ok(())
        } else {
            Err(AddonLoadError::VersionMismatch)
        }
    }

    /// Takes over what an addon registered and puts the addon on record.
    pub fn install(&mut self, metadata: PluginMetadata, registered: Registrar<L, M>)
        requires
            old(self).well_formed(),
            registered.well_formed(),
        ensures
            final(self).well_formed(),
            final(self)@ == spec_install(old(self)@, metadata@, registered@),
    {
        let ghost before = self@;
        self.game_libs.extend(registered.game_libs);
        self.meta_scanners.extend(registered.game_meta_scanners);
        self.configs.extend(registered.configs);
        self.libraries.push(registered.lib);
        self.metas.push(metadata);
        assert(self@.metas =~= before.metas.push(metadata@));
    }

    /// Loads one addon whose binary `library` is mapped and whose two symbols
    /// have been read: `metadata` is what the addon says of itself, `declared`
    /// are its version tags and `register` is its registration entry point.
    ///
    /// Where the tags differ from the host's, the addon is refused before
    /// `register` is ever called, and the host is as it was. Else `register`
    /// runs once on a fresh registrar, and the host takes over what it holds
    /// afterwards.
    pub fn load<F: FnOnce(Registrar<L, M>) -> Registrar<L, M>>(
        &mut self,
        library: Arc<Library>,
        metadata: PluginMetadata,
        declared: &PluginDeclaration,
        register: F,
    ) -> (outcome: Result<(), AddonLoadError>)
        requires
            old(self).well_formed(),
            forall|fresh: Registrar<L, M>| fresh.well_formed() ==> call_requires(register, (fresh,)),
            forall|fresh: Registrar<L, M>, filled: Registrar<L, M>|
                call_ensures(register, (fresh,), filled) ==> filled.well_formed(),
        ensures
            final(self).well_formed(),
            outcome == spec_admission(old(self)@.host, declared@),
            outcome.is_err() ==> final(self)@ == old(self)@ && final(self).spec_keys() == old(
                self,
            ).spec_keys(),
            outcome.is_ok() ==> exists|fresh: Registrar<L, M>, filled: Registrar<L, M>|
                fresh@ == spec_fresh_registrar::<L, M>(library) && call_ensures(
                    register,
                    (fresh,),
                    filled,
                ) && final(self)@ == spec_install(old(self)@, metadata@, filled@),
    {
        match self.check_declaration(declared) {
            Err(refusal) => Err(refusal),
            Ok(()) => {
                let fresh = Registrar::new(library);
                let filled = register(fresh);
                self.install(metadata, filled);
                Ok(())
            },
        }
    }

    /// Loads every addon of a directory scan, one after the other. No
    /// failure stops the scan: an addon that could not be read or that
    /// carries other version tags is passed over, with its error among the
    /// outcomes, and the addons after it are loaded all the same.
    pub fn load_all<F: FnOnce(Registrar<L, M>) -> Registrar<L, M>>(
        &mut self,
        candidates: Vec<Result<AddonCandidate<F>, AddonLoadError>>,
    ) -> (outcomes: Vec<Result<(), AddonLoadError>>)
        requires
            old(self).well_formed(),
            forall|i: int, fresh: Registrar<L, M>|
                0 <= i < candidates.len() && candidates[i] is Ok && fresh.well_formed()
                    ==> #[trigger] call_requires(candidates[i]->Ok_0.register, (fresh,)),
            forall|i: int, fresh: Registrar<L, M>, filled: Registrar<L, M>|
                0 <= i < candidates.len() && candidates[i] is Ok && #[trigger] call_ensures(
                    candidates[i]->Ok_0.register,
                    (fresh,),
                    filled,
                ) ==> filled.well_formed(),
        ensures
            final(self).well_formed(),
            outcomes.len() == candidates.len(),
            forall|i: int|
                0 <= i < candidates.len() ==> #[trigger] outcomes[i] == spec_load_outcome(
                    old(self)@.host,
                    candidates[i],
                ),
            final(self)@.host == old(self)@.host,
            final(self)@.metas == old(self)@.metas + spec_admitted(old(self)@.host, candidates@),
            final(self)@.libraries.len() - old(self)@.libraries.len() == final(self)@.metas.len()
                - old(self)@.metas.len(),
            forall|name: Seq<char>|
                old(self)@.game_libs.dom().contains(name) ==> final(self)@.game_libs.dom().contains(
                    name,
                ),
            forall|name: Seq<char>|
                old(self)@.meta_scanners.dom().contains(name)
                    ==> final(self)@.meta_scanners.dom().contains(name),
            exists|registered: Seq<RegistrarView<L, M>>|
                {
                    &&& registered.len() == candidates.len()
                    &&& forall|i: int|
                        0 <= i < candidates.len() && spec_admits(old(self)@.host, candidates[i])
                            ==> spec_registered_by(candidates[i]->Ok_0, #[trigger] registered[i])
                    &&& final(self)@ == spec_load_all(
                        old(self)@,
                        old(self)@.host,
                        candidates@,
                        registered,
                    )
                },
    {
        let ghost all = candidates@;
        let ghost tags = self@.host;
        let ghost start = self@.metas;
        let ghost first = self@;
        let mut rest = candidates;
        let mut outcomes: Vec<Result<(), AddonLoadError>> = Vec::new();
        let ghost mut taken: Seq<Result<AddonCandidate<F>, AddonLoadError>> = Seq::empty();
        let ghost mut registered: Seq<RegistrarView<L, M>> = Seq::empty();
        proof {
            assert(start + spec_admitted(tags, taken) =~= start);
        }
        while rest.len() > 0
            invariant
                self.well_formed(),
                self@.host == tags,
                taken + rest@ == all,
                outcomes.len() == taken.len(),
                registered.len() == taken.len(),
                forall|i: int|
                    0 <= i < taken.len() && spec_admits(tags, all[i]) ==> spec_registered_by(
                        all[i]->Ok_0,
                        #[trigger] registered[i],
                    ),
                self@ == spec_load_all(first, tags, taken, registered),
                forall|i: int|
                    0 <= i < taken.len() ==> #[trigger] outcomes[i] == spec_load_outcome(tags, all[i]),
                self@.metas == start + spec_admitted(tags, taken),
                self@.libraries.len() == self@.metas.len() - start.len() + first.libraries.len(),
                forall|name: Seq<char>|
                    first.game_libs.dom().contains(name) ==> self@.game_libs.dom().contains(name),
                forall|name: Seq<char>|
                    first.meta_scanners.dom().contains(name) ==> self@.meta_scanners.dom().contains(
                        name,
                    ),
                forall|i: int, fresh: Registrar<L, M>|
                    0 <= i < all.len() && all[i] is Ok && fresh.well_formed()
                        ==> #[trigger] call_requires(all[i]->Ok_0.register, (fresh,)),
                forall|i: int, fresh: Registrar<L, M>, filled: Registrar<L, M>|
                    0 <= i < all.len() && all[i] is Ok && #[trigger] call_ensures(
                        all[i]->Ok_0.register,
                        (fresh,),
                        filled,
                    ) ==> filled.well_formed(),
            decreases rest.len(),
        {
            let ghost before = taken;
            let ghost registered_before = registered;
            let ghost held = self@.metas;
            let ghost host_before = self@;
            let candidate = rest.remove(0);
            proof {
                taken = taken.push(candidate);
                assert(taken.drop_last() =~= before);
                assert(taken + rest@ =~= all);
                assert(all[before.len() as int] == candidate);
            }
            let outcome = match candidate {
                Ok(read) => {
                    let ghost library = read.library;
                    let ghost register = read.register;
                    let outcome = self.load(read.library, read.metadata, &read.declared, read.register);
                    proof {
                        if outcome.is_ok() {
                            assert(self@.metas =~= held.push(read.metadata@));
                            let (fresh, filled) = choose|fresh: Registrar<L, M>, filled: Registrar<L, M>|
                                fresh@ == spec_fresh_registrar::<L, M>(library) && call_ensures(
                                    register,
                                    (fresh,),
                                    filled,
                                ) && self@ == spec_install(host_before, read.metadata@, filled@);
                            registered = registered.push(filled@);
                            assert(spec_registered_by(read, filled@));
                        } else {
                            registered = registered.push(spec_fresh_registrar::<L, M>(library));
                        }
                    }
                    outcome
                },
                Err(error) => {
                    proof {
                        registered = registered.push(arbitrary());
                    }
                    Err(error)
                },
            };
            proof {
                assert(registered.drop_last() =~= registered_before);
                assert(self@.metas =~= start + spec_admitted(tags, taken));
            }
            outcomes.push(outcome);
        }
        proof {
            assert(taken =~= all);
        }
        outcomes
    }

    /// Forgets every addon. Proxies handed out before stay usable: each holds
    /// its own share in its addon's binary.
    pub fn clear(&mut self)
        ensures
            final(self).well_formed(),
            final(self)@ == spec_empty_host::<L, M>(old(self)@.host),
            final(self).spec_keys() == Seq::<Seq<char>>::empty(),
    {
        self.game_libs = StringTable::new();
        self.meta_scanners = StringTable::new();
        self.configs = StringTable::new();
        self.metas = Vec::new();
        self.libraries = Vec::new();
        assert(self@.metas =~= Seq::empty());
        assert(self@.libraries =~= Seq::empty());
    }
}

/// Whether an addon is admitted: exactly when its version tags are the
/// host's.
pub open spec fn spec_admission(
    host: crate::plugin::VersionTagsView,
    declared: crate::plugin::VersionTagsView,
) -> Result<(), AddonLoadError> {
    if host == declared {
        Ok(())
    } else {
        Err(AddonLoadError::VersionMismatch)
    }
}

/// Whether a file found in an addon's directory is the addon's binary: its
/// extension must be the one that the platform gives to dynamic libraries.
pub fn is_addon_binary(extension: Option<&str>, library_extension: &str) -> (is_binary: bool)
    ensures
        is_binary == (extension matches Some(e) && e@ == library_extension@),
{
    match extension {
        Some(e) => crate::text::str_eq(e, library_extension),
        None => false,
    }
}

} // verus!
