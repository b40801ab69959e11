//! The page that the desktop shows, and the routing of messages to it.
use crate::ui::achievements::Achievements;
use crate::ui::add_ons::{AddOnEffect, AddOnEffectView, AddOnMessage, AddOnMessageView, AddOns, AddOnsView};
use crate::ui::library::{EffectView, LibraryEffect, LibraryPage, LibraryPageView, MessageView};
use crate::ui::settings::{SettingsEffect, SettingsPage, SettingsPageView};
use crate::ui::tools::{ToolsEffect, ToolsPage};
use vstd::prelude::*;

verus! {

/// The mathematical value of a message to a page.
pub enum PageMessageView {
    AddOns(AddOnMessageView),
    Library(MessageView),
    Achievements(crate::ui::achievements::Message),
    Settings(crate::ui::settings::Message),
    Tools(crate::ui::tools::Message),
}

/// A message to one of the pages.
#[derive(Debug)]
pub enum PageMessage {
    AddOns(AddOnMessage),
    Library(crate::ui::library::Message),
    Achievements(crate::ui::achievements::Message),
    Settings(crate::ui::settings::Message),
    Tools(crate::ui::tools::Message),
}

impl View for PageMessage {
    type V = PageMessageView;

    open spec fn view(&self) -> PageMessageView {
        match self {
            PageMessage::AddOns(message) => PageMessageView::AddOns(message@),
            PageMessage::Library(message) => PageMessageView::Library(message@),
            PageMessage::Achievements(message) => PageMessageView::Achievements(*message),
            PageMessage::Settings(message) => PageMessageView::Settings(*message),
            PageMessage::Tools(message) => PageMessageView::Tools(*message),
        }
    }
}

/// The mathematical value of what a page asks to be done.
pub enum PageEffectView {
    Nothing,
    AddOns(AddOnEffectView),
    Library(EffectView),
    Settings(SettingsEffect),
    Tools(ToolsEffect),
}

/// What a page asks to be done outside of it. Whatever comes of the work is
/// sent back to the same page.
#[derive(Debug)]
pub enum PageEffect {
    /// Nothing is to be done.
    Nothing,
    AddOns(AddOnEffect),
    Library(LibraryEffect),
    Settings(SettingsEffect),
    Tools(ToolsEffect),
}

impl View for PageEffect {
    type V = PageEffectView;

    open spec fn view(&self) -> PageEffectView {
        match self {
            PageEffect::Nothing => PageEffectView::Nothing,
            PageEffect::AddOns(effect) => PageEffectView::AddOns(effect@),
            PageEffect::Library(effect) => PageEffectView::Library(effect@),
            PageEffect::Settings(effect) => PageEffectView::Settings(*effect),
            PageEffect::Tools(effect) => PageEffectView::Tools(*effect),
        }
    }
}

/// The mathematical value of the page that shows.
pub enum AppPageView {
    AddOns(AddOnsView),
    Library(LibraryPageView),
    Achievements,
    Settings(SettingsPageView),
    Tools,
}

/// The page that shows.
#[derive(Debug)]
pub enum AppPage {
    AddOns(AddOns),
    Library(LibraryPage),
    Achievements(Achievements),
    Settings(SettingsPage),
    Tools(ToolsPage),
}

impl View for AppPage {
    type V = AppPageView;

    open spec fn view(&self) -> AppPageView {
        match self {
            AppPage::AddOns(page) => AppPageView::AddOns(page@),
            AppPage::Library(page) => AppPageView::Library(page@),
            AppPage::Achievements(_) => AppPageView::Achievements,
            AppPage::Settings(page) => AppPageView::Settings(page@),
            AppPage::Tools(_) => AppPageView::Tools,
        }
    }
}

/// Whether a message is made out to the page that shows: a message of a
/// page's kind is for that page and for no other.
pub open spec fn spec_addressed(page: AppPageView, message: PageMessageView) -> bool {
    match (page, message) {
        (AppPageView::AddOns(_), PageMessageView::AddOns(_)) => true,
        (AppPageView::Library(_), PageMessageView::Library(_)) => true,
        (AppPageView::Achievements, PageMessageView::Achievements(_)) => true,
        (AppPageView::Settings(_), PageMessageView::Settings(_)) => true,
        (AppPageView::Tools, PageMessageView::Tools(_)) => true,
        _ => false,
    }
}

/// The page after a message that is made out to it, and what is to be done.
/// Of a message made out to another page the function says that it changes
/// nothing; `update` is never handed one.
pub open spec fn spec_update(page: AppPageView, message: PageMessageView) -> (AppPageView, PageEffectView) {
    match (page, message) {
        (AppPageView::AddOns(shown), PageMessageView::AddOns(m)) => {
            let (after, effect) = crate::ui::add_ons::spec_update(shown, m);
            (AppPageView::AddOns(after), PageEffectView::AddOns(effect))
        },
        (AppPageView::Library(shown), PageMessageView::Library(m)) => {
            let (after, effect) = crate::ui::library::spec_update(shown, m);
            (AppPageView::Library(after), PageEffectView::Library(effect))
        },
        (AppPageView::Settings(shown), PageMessageView::Settings(m)) => {
            let (after, effect) = crate::ui::settings::spec_update(shown, m);
            (AppPageView::Settings(after), PageEffectView::Settings(effect))
        },
        (AppPageView::Tools, PageMessageView::Tools(m)) => (
            page,
            PageEffectView::Tools(
                match m {
                    crate::ui::tools::Message::NoOp => ToolsEffect::Nothing,
                    crate::ui::tools::Message::ClearDatabase => ToolsEffect::ClearCatalog,
                },
            ),
        ),
        _ => (page, PageEffectView::Nothing),
    }
}

impl Default for AppPage {
    fn default() -> (page: Self)
        ensures
            page.well_formed(),
            page@ == AppPageView::Library(crate::ui::library::spec_new_page()),
    {
        AppPage::Library(LibraryPage::new())
    }
}

impl AppPage {
    /// The page that shows is well formed.
    pub open spec fn well_formed(&self) -> bool {
        match self {
            AppPage::AddOns(page) => page.well_formed(),
            AppPage::Library(page) => page.well_formed(),
            _ => true,
        }
    }

    /// Whether a message is made out to the page that shows.
    pub fn takes(&self, message: &PageMessage) -> (addressed: bool)
        ensures
            addressed == spec_addressed(self@, message@),
    {
        match (self, message) {
            (AppPage::AddOns(_), PageMessage::AddOns(_)) => true,
            (AppPage::Library(_), PageMessage::Library(_)) => true,
            (AppPage::Achievements(_), PageMessage::Achievements(_)) => true,
            (AppPage::Settings(_), PageMessage::Settings(_)) => true,
            (AppPage::Tools(_), PageMessage::Tools(_)) => true,
            _ => false,
        }
    }

    /// Hands a message to the page that shows and says what is to be done.
    /// The message must be made out to that page: `takes` tells.
    pub fn update(&mut self, message: PageMessage) -> (effect: PageEffect)
        requires
            old(self).well_formed(),
            spec_addressed(old(self)@, message@),
        ensures
            final(self).well_formed(),
            (final(self)@, effect@) == spec_update(old(self)@, message@),
    {
        match self {
            AppPage::AddOns(page) => match message {
                PageMessage::AddOns(m) => PageEffect::AddOns(page.update(m)),
                _ => vstd::pervasive::unreached(),
            },
            AppPage::Library(page) => match message {
                PageMessage::Library(m) => PageEffect::Library(page.update(m)),
                _ => vstd::pervasive::unreached(),
            },
            AppPage::Achievements(page) => match message {
                PageMessage::Achievements(m) => {
                    page.update(m);
                    PageEffect::Nothing
                },
                _ => vstd::pervasive::unreached(),
            },
            AppPage::Settings(page) => match message {
                PageMessage::Settings(m) => PageEffect::Settings(page.update(m)),
                _ => vstd::pervasive::unreached(),
            },
            AppPage::Tools(page) => match message {
                PageMessage::Tools(m) => PageEffect::Tools(page.update(m)),
                _ => vstd::pervasive::unreached(),
            },
        }
    }
}

} // verus!
