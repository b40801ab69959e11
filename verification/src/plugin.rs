//! What an addon implements and what it declares to the host.
use crate::fetch::FetchProgress;
use crate::models::{
    ConfigSchemaMetadata, GameInstallStatus, GameLibraryRef, GameLibraryRefOwned, GameMetadata,
    GameMetadataView, GameRefView, ScannedGameLibraryMetadata,
};
use crate::table::StringTable;
use std::sync::Arc;
use vstd::prelude::*;

verus! {

/// The configuration fields of one addon, by field key.
pub type ConfigsSchema = StringTable<ConfigSchemaMetadata>;

/// The mathematical value of a pair of version tags.
pub struct VersionTagsView {
    pub rustc_version: Seq<char>,
    pub core_version: Seq<char>,
}

/// The version tags that a binary was built with: the toolchain's and the
/// addon contract's. The host has one pair of its own and every addon declares
/// one.
#[derive(Debug)]
pub struct PluginDeclaration {
    pub rustc_version: String,
    pub core_version: String,
}

impl View for PluginDeclaration {
    type V = VersionTagsView;

    open spec fn view(&self) -> VersionTagsView {
        VersionTagsView { rustc_version: self.rustc_version@, core_version: self.core_version@ }
    }
}

impl Clone for PluginDeclaration {
    fn clone(&self) -> (copy: Self)
        ensures
            copy@ == self@,
    {
        PluginDeclaration {
            rustc_version: self.rustc_version.clone(),
            core_version: self.core_version.clone(),
        }
    }
}

impl PluginDeclaration {
    /// Whether an addon built with tags `other` may be loaded by a host built
    /// with these: both tags must be the same, character for character.
    pub fn matches(&self, other: &PluginDeclaration) -> (same: bool)
        ensures
            same == (self@ == other@),
    {
        self.rustc_version == other.rustc_version && self.core_version == other.core_version
    }
}

/// A game library of an addon: it lists the games it knows and acts on them.
/// What the calls do is the addon's own business.
pub trait GameLibrary {
    fn scan(&self) -> Vec<ScannedGameLibraryMetadata>;

    fn launch(&self, game: GameLibraryRef<'_>);

    fn install(&self, game: GameLibraryRef<'_>);

    fn uninstall(&self, game: GameLibraryRef<'_>);

    fn check_install_status(&self, game: GameLibraryRef<'_>) -> GameInstallStatus;
}

/// A metadata source of an addon. The batch form answers for as many of the
/// games asked about as it can; a game it has nothing for is left out. It
/// tells `on_progress` of every fetch that ends, well or badly.
pub trait GameMetadataScanner {
    /// Whether `found` is an answer that the batch form of this source may
    /// give when it is asked about `games`. Which answers those are is the
    /// addon's own business: a source that says nothing of its answers may
    /// give any. The relation is there so that whoever passes an answer on
    /// can say whose answer it is.
    open spec fn may_answer(
        &self,
        games: Seq<GameRefView>,
        found: Seq<(GameRefView, GameMetadataView)>,
    ) -> bool {
        true
    }

    fn get_metadata(&self, game: GameLibraryRef<'_>) -> Option<GameMetadata>;

    fn get_metadatas<F: Fn(FetchProgress)>(
        &self,
        games: &Vec<GameLibraryRefOwned>,
        on_progress: F,
    ) -> (found: Vec<(GameLibraryRefOwned, GameMetadata)>)
        requires
            forall|tick: FetchProgress| call_requires(on_progress, (tick,)),
        ensures
            self.may_answer(games.deep_view(), found.deep_view()),
    ;
}

/// What the host hands to an addon while the addon registers: the three calls
/// by which the addon declares its capabilities and its configuration fields.
/// A registration under a name takes the place of an earlier one under that
/// name.
pub trait PluginRegistrar<L, M> {
    /// The registrar is in a state in which it takes registrations.
    spec fn ready(&self) -> bool;

    /// The game libraries registered so far, by name.
    spec fn libraries(&self) -> Map<Seq<char>, Arc<L>>;

    /// The metadata sources registered so far, by name.
    spec fn scanners(&self) -> Map<Seq<char>, Arc<M>>;

    /// The configuration fields registered so far, by name.
    spec fn config_schemas(&self) -> Map<Seq<char>, ConfigsSchema>;

    fn register_config(&mut self, file_name: &str, schema: ConfigsSchema)
        requires
            old(self).ready(),
            schema.well_formed(),
        ensures
            final(self).ready(),
            final(self).config_schemas() == old(self).config_schemas().insert(file_name@, schema),
            final(self).libraries() == old(self).libraries(),
            final(self).scanners() == old(self).scanners(),
    ;

    fn register_library(&mut self, name: &str, function: Arc<L>)
        requires
            old(self).ready(),
        ensures
            final(self).ready(),
            final(self).libraries() == old(self).libraries().insert(name@, function),
            final(self).scanners() == old(self).scanners(),
            final(self).config_schemas() == old(self).config_schemas(),
    ;

    fn register_metadata_scanner(&mut self, name: &str, function: Arc<M>)
        requires
            old(self).ready(),
        ensures
            final(self).ready(),
            final(self).scanners() == old(self).scanners().insert(name@, function),
            final(self).libraries() == old(self).libraries(),
            final(self).config_schemas() == old(self).config_schemas(),
    ;
}

} // verus!
