//! The tools page.
use vstd::prelude::*;

verus! {

/// What the tools page takes.
#[derive(Debug, Clone, Copy, PartialEq, Eq, Structural)]
pub enum Message {
    ClearDatabase,
    NoOp,
}

/// What the tools page asks to be done outside of it.
#[derive(Debug, Clone, Copy, PartialEq, Eq, Structural)]
pub enum ToolsEffect {
    /// Nothing is to be done.
    Nothing,
    /// Delete every game, genre and link of the catalog, then send `NoOp`.
    ClearCatalog,
}

/// The tools page. It holds no state.
#[derive(Debug, Clone, Copy)]
pub struct ToolsPage;

impl Default for ToolsPage {
    fn default() -> Self {
        ToolsPage
    }
}

impl ToolsPage {
    /// Takes a message and says what is to be done.
    pub fn update(&mut self, message: Message) -> (effect: ToolsEffect)
        ensures
            effect == (match message {
                Message::NoOp => ToolsEffect::Nothing,
                Message::ClearDatabase => ToolsEffect::ClearCatalog,
            }),
    {
        match message {
            Message::NoOp => ToolsEffect::Nothing,
            Message::ClearDatabase => ToolsEffect::ClearCatalog,
        }
    }
}

} // verus!
