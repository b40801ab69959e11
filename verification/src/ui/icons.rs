//! The icons of the desktop: which glyph of the icon font stands for what,
//! and where the icon of a game lies on disk.
use crate::actions::GameAction;
use crate::models::GameInstallStatus;
use vstd::prelude::*;

verus! {

/// `std::string::FromUtf8Error`: why decoded bytes are no text. It is
/// carried from the call to the place that answers with an empty path.
#[verifier::external_type_specification]
#[verifier::external_body]
pub struct ExFromUtf8Error(std::string::FromUtf8Error);

/// What an icon stands for.
#[derive(Debug, Clone, Copy, PartialEq, Eq, Structural)]
pub enum IconKind {
    Action(GameAction),
    Library,
    Settings,
    Achievements,
    Addons,
    Appearance,
}

/// The glyph of the icon font that stands for a kind.
pub open spec fn spec_icon_code(kind: IconKind) -> char {
    match kind {
        IconKind::Action(GameAction::Play) => '\u{e037}',
        IconKind::Action(GameAction::Install) => '\u{e145}',
        IconKind::Action(GameAction::Uninstall) => '\u{e15b}',
        IconKind::Action(GameAction::Delete) => '\u{e037}',
        IconKind::Action(GameAction::Edit) => '\u{f88d}',
        IconKind::Library => '\u{e02f}',
        IconKind::Achievements => '\u{e71a}',
        IconKind::Settings => '\u{e8b8}',
        IconKind::Addons => '\u{e87b}',
        IconKind::Appearance => '\u{e8f4}',
    }
}

/// The glyph of the icon font that stands for a kind.
pub fn get_icon(kind: IconKind) -> (code: char)
    ensures
        code == spec_icon_code(kind),
{
    match kind {
        IconKind::Action(GameAction::Play) => '\u{e037}',
        IconKind::Action(GameAction::Install) => '\u{e145}',
        IconKind::Action(GameAction::Uninstall) => '\u{e15b}',
        IconKind::Action(GameAction::Delete) => '\u{e037}',
        IconKind::Action(GameAction::Edit) => '\u{f88d}',
        IconKind::Library => '\u{e02f}',
        IconKind::Achievements => '\u{e71a}',
        IconKind::Settings => '\u{e8b8}',
        IconKind::Addons => '\u{e87b}',
        IconKind::Appearance => '\u{e8f4}',
    }
}

/// The marks that the list shows beside a game for its install status.
#[derive(Debug, Clone, Copy, PartialEq, Eq, Structural)]
pub enum StatusIcon {
    CircleCheck,
    Loader,
    PlayerPause,
    CircleX,
}

/// The mark that the list shows beside a game with this install status.
pub fn auto_installer_icon(status: GameInstallStatus) -> (icon: StatusIcon)
    ensures
        icon == (match status {
            GameInstallStatus::Installed => StatusIcon::CircleCheck,
            GameInstallStatus::Installing => StatusIcon::Loader,
            GameInstallStatus::Queued => StatusIcon::PlayerPause,
            _ => StatusIcon::CircleX,
        }),
{
    match status {
        GameInstallStatus::Installed => StatusIcon::CircleCheck,
        GameInstallStatus::Installing => StatusIcon::Loader,
        GameInstallStatus::Queued => StatusIcon::PlayerPause,
        _ => StatusIcon::CircleX,
    }
}

/// The path of a URL as the url crate reads it, percent-encoded; `None`
/// where the text is no URL.
pub uninterp spec fn url_path_of(url: Seq<char>) -> Option<Seq<char>>;

/// A percent-encoded text decoded as the urlencoding crate decodes it;
/// `None` where the decoded bytes are not UTF-8.
pub uninterp spec fn percent_decoded(text: Seq<char>) -> Option<Seq<char>>;

/// Parses the text with `url::Url::parse` and copies out what `Url::path`
/// gives. The outcome depends on the text alone.
#[verifier::external_body]
pub(crate) fn url_path(url: &str) -> (path: Result<String, url::ParseError>)
    ensures
        match path {
            Ok(found) => url_path_of(url@) == Some(found@),
            Err(_) => url_path_of(url@).is_none(),
        },
{
    match url::Url::parse(url) {
        Ok(parsed) => Ok(parsed.path().to_owned()),
        Err(error) => Err(error),
    }
}

/// Calls `urlencoding::decode` and copies the result out. The outcome
/// depends on the text alone.
#[verifier::external_body]
pub(crate) fn percent_decode(text: &str) -> (decoded: Result<String, std::string::FromUtf8Error>)
    ensures
        match decoded {
            Ok(plain) => percent_decoded(text@) == Some(plain@),
            Err(_) => percent_decoded(text@).is_none(),
        },
{
    match urlencoding::decode(text) {
        Ok(plain) => Ok(plain.into_owned()),
        Err(error) => Err(error),
    }
}

/// Where the icon that a URL names lies on disk: the decoded path of the
/// URL, without its leading slash where drive letters open a path. A text
/// that is empty, no URL or not decodable names no icon: the path is empty.
pub open spec fn spec_icon_path(icon_url: Seq<char>, drive_letters: bool) -> Seq<char> {
    if icon_url.len() == 0 {
        Seq::empty()
    } else {
        match url_path_of(icon_url) {
            Some(path) => match percent_decoded(path) {
                Some(plain) => if drive_letters && plain.len() > 0 {
                    plain.skip(1)
                } else {
                    plain
                },
                None => Seq::empty(),
            },
            None => Seq::empty(),
        }
    }
}

/// Where the icon that a URL names lies on disk.
pub fn icon_path(icon_url: &str, drive_letters: bool) -> (path: String)
    ensures
        path@ == spec_icon_path(icon_url@, drive_letters),
{
    if icon_url.unicode_len() == 0 {
        return String::new();
    }
    match url_path(icon_url) {
        Ok(path) => match percent_decode(path.as_str()) {
            Ok(plain) => {
                let n = plain.as_str().unicode_len();
                if drive_letters && n > 0 {
                    let rest = plain.as_str().substring_char(1, n);
                    assert(rest@ =~= plain@.skip(1));
                    rest.to_owned()
                } else {
                    plain
                }
            },
            Err(_) => String::new(),
        },
        Err(_) => String::new(),
    }
}

} // verus!
