//! The add-ons page: the list of loaded addons and the configuration of the
//! one that is selected.
use crate::models::{PluginMetadata, PluginMetadataView};
use crate::plugin::ConfigsSchema;
use crate::table::StringTable;
use vstd::prelude::*;

verus! {

/// The mathematical value of a message to the add-ons page.
pub enum AddOnMessageView {
    Selected(usize),
    InputChanged(Seq<char>, Seq<char>),
}

/// What the add-ons page takes: the selection of an addon, and the change of
/// the value of a configuration field.
#[derive(Debug)]
pub enum AddOnMessage {
    Selected(usize),
    InputChanged(String, String),
}

impl View for AddOnMessage {
    type V = AddOnMessageView;

    open spec fn view(&self) -> AddOnMessageView {
        match self {
            AddOnMessage::Selected(index) => AddOnMessageView::Selected(*index),
            AddOnMessage::InputChanged(key, value) => AddOnMessageView::InputChanged(key@, value@),
        }
    }
}

/// The mathematical value of an effect.
pub enum AddOnEffectView {
    Nothing,
    LoadConfig { id: Seq<char> },
    SaveConfig { id: Seq<char> },
}

/// What the add-ons page asks to be done outside of it.
#[derive(Debug)]
pub enum AddOnEffect {
    /// Nothing is to be done.
    Nothing,
    /// Read the configuration fields and the stored values of the addon with
    /// this id and hand them to `loaded`.
    LoadConfig { id: String },
    /// Store the values of the page for the addon with this id, then send
    /// `Selected` with the index of the selection.
    SaveConfig { id: String },
}

impl View for AddOnEffect {
    type V = AddOnEffectView;

    open spec fn view(&self) -> AddOnEffectView {
        match self {
            AddOnEffect::Nothing => AddOnEffectView::Nothing,
            AddOnEffect::LoadConfig { id } => AddOnEffectView::LoadConfig { id: id@ },
            AddOnEffect::SaveConfig { id } => AddOnEffectView::SaveConfig { id: id@ },
        }
    }
}

/// The mathematical value of the add-ons page.
pub struct AddOnsView {
    pub metadatas: Seq<PluginMetadataView>,
    pub selected: usize,
    pub curr: Map<Seq<char>, crate::models::ConfigSchemaMetadata>,
    pub curr_config: Map<Seq<char>, Seq<char>>,
}

/// The add-ons page.
#[derive(Debug)]
pub struct AddOns {
    metadatas: Vec<PluginMetadata>,
    selected: usize,
    curr: ConfigsSchema,
    curr_config: StringTable<String>,
}

impl View for AddOns {
    type V = AddOnsView;

    closed spec fn view(&self) -> AddOnsView {
        AddOnsView {
            metadatas: self.metadatas.deep_view(),
            selected: self.selected,
            curr: self.curr@,
            curr_config: self.curr_config@.map_values(|value: String| value@),
        }
    }
}

/// The add-ons page after a message, and what is to be done. A selection
/// that names no addon changes nothing; a change of a value while no addon
/// is selected is kept and stored nowhere.
pub open spec fn spec_update(page: AddOnsView, message: AddOnMessageView) -> (AddOnsView, AddOnEffectView) {
    match message {
        AddOnMessageView::Selected(index) => if index < page.metadatas.len() {
            (
                AddOnsView { selected: index, ..page },
                AddOnEffectView::LoadConfig { id: page.metadatas[index as int].id },
            )
        } else {
            (page, AddOnEffectView::Nothing)
        },
        AddOnMessageView::InputChanged(key, value) => (
            AddOnsView { curr_config: page.curr_config.insert(key, value), ..page },
            if page.selected < page.metadatas.len() {
                AddOnEffectView::SaveConfig { id: page.metadatas[page.selected as int].id }
            } else {
                AddOnEffectView::Nothing
            },
        ),
    }
}

impl AddOns {
    /// The two tables of the page hold each name once.
    pub closed spec fn well_formed(&self) -> bool {
        self.curr.well_formed() && self.curr_config.well_formed()
    }

    /// The page for these addons, with the first one selected and nothing
    /// read yet, and the effect that reads the first addon's configuration.
    pub fn new(metadatas: Vec<PluginMetadata>) -> (made: (AddOns, AddOnEffect))
        ensures
            made.0.well_formed(),
            made.0@ == (AddOnsView {
                metadatas: metadatas.deep_view(),
                selected: 0,
                curr: Map::empty(),
                curr_config: Map::empty(),
            }),
            made.1@ == (if metadatas.len() > 0 {
                AddOnEffectView::LoadConfig { id: metadatas[0]@.id }
            } else {
                AddOnEffectView::Nothing
            }),
    {
        let effect = if metadatas.len() > 0 {
            AddOnEffect::LoadConfig { id: metadatas[0].id.clone() }
        } else {
            AddOnEffect::Nothing
        };
        let page = AddOns {
            metadatas,
            selected: 0,
            curr: StringTable::new(),
            curr_config: StringTable::new(),
        };
        proof {
            assert(page@.curr_config =~= Map::empty());
        }
        (page, effect)
    }

    /// The addons on the page.
    pub fn metadatas(&self) -> (metadatas: &Vec<PluginMetadata>)
        ensures
            metadatas.deep_view() == self@.metadatas,
    {
        &self.metadatas
    }

    /// The index of the selected addon.
    pub fn selected(&self) -> (index: usize)
        ensures
            index == self@.selected,
    {
        self.selected
    }

    /// The configuration fields of the selected addon.
    pub fn schema(&self) -> (schema: &ConfigsSchema)
        requires
            self.well_formed(),
        ensures
            schema.well_formed(),
            schema@ == self@.curr,
    {
        &self.curr
    }

    /// The values of the configuration fields as the page shows them.
    pub fn config(&self) -> (config: &StringTable<String>)
        requires
            self.well_formed(),
        ensures
            config.well_formed(),
            config@.map_values(|value: String| value@) == self@.curr_config,
    {
        &self.curr_config
    }

    /// Takes the configuration fields and the stored values that were read
    /// for the selected addon.
    pub fn loaded(&mut self, schema: ConfigsSchema, config: StringTable<String>)
        requires
            old(self).well_formed(),
            schema.well_formed(),
            config.well_formed(),
        ensures
            final(self).well_formed(),
            final(self)@ == (AddOnsView {
                curr: schema@,
                curr_config: config@.map_values(|value: String| value@),
                ..old(self)@
            }),
    {
        self.curr = schema;
        self.curr_config = config;
    }

    /// Takes a message and says what is to be done.
    pub fn update(&mut self, message: AddOnMessage) -> (effect: AddOnEffect)
        requires
            old(self).well_formed(),
        ensures
            final(self).well_formed(),
            (final(self)@, effect@) == spec_update(old(self)@, message@),
    {
        let ghost before = self@;
        match message {
            AddOnMessage::Selected(index) => {
                if index < self.metadatas.len() {
                    self.selected = index;
                    assert(before.metadatas[index as int] == self.metadatas[index as int]@);
                    AddOnEffect::LoadConfig { id: self.metadatas[index].id.clone() }
                } else {
                    AddOnEffect::Nothing
                }
            },
            AddOnMessage::InputChanged(key, value) => {
                let ghost held = self.curr_config@;
                self.curr_config.insert(key, value);
                proof {
                    assert(self.curr_config@.map_values(|value: String| value@) =~= held.map_values(
                        |value: String| value@,
                    ).insert(key@, value@));
                }
                if self.selected < self.metadatas.len() {
                    assert(before.metadatas[self.selected as int] == self.metadatas[self.selected as int]@);
                    AddOnEffect::SaveConfig { id: self.metadatas[self.selected].id.clone() }
                } else {
                    AddOnEffect::Nothing
                }
            },
        }
    }
}

} // verus!
