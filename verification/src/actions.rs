//! What the user can do with a game, by its install status.
use crate::models::GameInstallStatus;
use vstd::prelude::*;

verus! {

/// The four looks of a button.
#[derive(Debug, Clone, Copy, PartialEq, Eq, Structural)]
pub enum StyleVariant {
    Primary,
    Secondary,
    Success,
    Danger,
}

/// One thing the user can do with a game.
#[derive(Debug, Clone, Copy, PartialEq, Eq, Structural)]
pub enum GameAction {
    Play,
    Install,
    Uninstall,
    Delete,
    Edit,
}

/// An action together with the words and the look of its button.
#[derive(Debug, Clone, Copy)]
pub struct GameActionData {
    pub name: &'static str,
    pub kind: GameAction,
    pub color: StyleVariant,
}

impl GameAction {
    /// The words on the button of the action.
    pub open spec fn spec_name(self) -> Seq<char> {
        match self {
            GameAction::Play => "Play"@,
            GameAction::Install => "Install"@,
            GameAction::Uninstall => "Uninstall"@,
            GameAction::Delete => "Delete"@,
            GameAction::Edit => "Edit"@,
        }
    }

    /// The look of the button of the action.
    pub open spec fn spec_color(self) -> StyleVariant {
        match self {
            GameAction::Play => StyleVariant::Success,
            GameAction::Install => StyleVariant::Primary,
            GameAction::Uninstall => StyleVariant::Secondary,
            GameAction::Delete => StyleVariant::Danger,
            GameAction::Edit => StyleVariant::Primary,
        }
    }

    /// The action with the words and the look of its button.
    pub fn data(self) -> (data: GameActionData)
        ensures
            data.kind == self,
            data.name@ == self.spec_name(),
            data.color == self.spec_color(),
    {
        match self {
            GameAction::Play => GameActionData {
                name: "Play",
                kind: GameAction::Play,
                color: StyleVariant::Success,
            },
            GameAction::Install => GameActionData {
                name: "Install",
                kind: GameAction::Install,
                color: StyleVariant::Primary,
            },
            GameAction::Uninstall => GameActionData {
                name: "Uninstall",
                kind: GameAction::Uninstall,
                color: StyleVariant::Secondary,
            },
            GameAction::Delete => GameActionData {
                name: "Delete",
                kind: GameAction::Delete,
                color: StyleVariant::Danger,
            },
            GameAction::Edit => GameActionData {
                name: "Edit",
                kind: GameAction::Edit,
                color: StyleVariant::Primary,
            },
        }
    }
}

/// The actions that a game offers, in the order of their buttons: an
/// installed game can be played and uninstalled, any other can be installed;
/// every game can be edited and deleted.
pub open spec fn spec_actions(status: GameInstallStatus) -> Seq<GameAction> {
    match status {
        GameInstallStatus::Installed => seq![
            GameAction::Play,
            GameAction::Uninstall,
            GameAction::Edit,
            GameAction::Delete,
        ],
        _ => seq![GameAction::Install, GameAction::Edit, GameAction::Delete],
    }
}

/// The actions that a game with this install status offers.
pub fn get_actions(status: GameInstallStatus) -> (actions: Vec<GameActionData>)
    ensures
        actions.len() == spec_actions(status).len(),
        forall|i: int|
            0 <= i < actions.len() ==> {
                &&& (#[trigger] actions[i]).kind == spec_actions(status)[i]
                &&& actions[i].name@ == actions[i].kind.spec_name()
                &&& actions[i].color == actions[i].kind.spec_color()
            },
{
    match status {
        GameInstallStatus::Installed => vec![
            GameAction::Play.data(),
            GameAction::Uninstall.data(),
            GameAction::Edit.data(),
            GameAction::Delete.data(),
        ],
        _ => vec![GameAction::Install.data(), GameAction::Edit.data(), GameAction::Delete.data()],
    }
}

/// Whether a game with this install status offers the action.
pub fn offers(status: GameInstallStatus, action: GameAction) -> (offered: bool)
    ensures
        offered == spec_actions(status).contains(action),
{
    proof {
        let actions = spec_actions(status);
        if status == GameInstallStatus::Installed {
            assert(actions[0] == GameAction::Play);
            assert(actions[1] == GameAction::Uninstall);
            assert(actions[2] == GameAction::Edit);
            assert(actions[3] == GameAction::Delete);
        } else {
            assert(actions[0] == GameAction::Install);
            assert(actions[1] == GameAction::Edit);
            assert(actions[2] == GameAction::Delete);
        }
    }
    match action {
        GameAction::Play => match status {
            GameInstallStatus::Installed => true,
            _ => false,
        },
        GameAction::Uninstall => match status {
            GameInstallStatus::Installed => true,
            _ => false,
        },
        GameAction::Install => match status {
            GameInstallStatus::Installed => false,
            _ => true,
        },
        GameAction::Edit => true,
        GameAction::Delete => true,
    }
}

/// Whatever the status, a game can be edited and deleted, and exactly one of
/// playing and installing is on offer.
pub proof fn lemma_actions(status: GameInstallStatus)
    ensures
        spec_actions(status).contains(GameAction::Edit),
        spec_actions(status).contains(GameAction::Delete),
        spec_actions(status).contains(GameAction::Play) != spec_actions(status).contains(
            GameAction::Install,
        ),
        spec_actions(status).contains(GameAction::Play) <==> status == GameInstallStatus::Installed,
{
    let actions = spec_actions(status);
    if status == GameInstallStatus::Installed {
        assert(actions[0] == GameAction::Play);
        assert(actions[2] == GameAction::Edit);
        assert(actions[3] == GameAction::Delete);
    } else {
        assert(actions[0] == GameAction::Install);
        assert(actions[1] == GameAction::Edit);
        assert(actions[2] == GameAction::Delete);
    }
}

} // verus!
