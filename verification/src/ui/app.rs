//! The desktop as a whole: the navigation bar, the page that shows and the
//! window state.
use crate::catalog::Direction;
use crate::models::{PluginMetadata, PluginMetadataView};
use crate::text::concat3;
use crate::ui::achievements::Achievements;
use crate::ui::add_ons::{AddOnEffectView, AddOns, AddOnsView};
use crate::ui::app_page::{
    spec_addressed, AppPage, AppPageView, PageEffect, PageEffectView, PageMessage, PageMessageView,
};
use crate::ui::library::{LibraryPage, MessageView};
use crate::ui::nav_view::{spec_page_name, NavView, PAGE_COUNT};
use crate::ui::settings::{
    AppearanceSettings, MyTheme, Settings, SettingsEffect, SettingsPage, SettingsPageView, TabId,
};
use crate::ui::tools::ToolsPage;
use vstd::prelude::*;

verus! {

/// Whether the desktop fills the screen.
#[derive(Debug, Clone, Copy, PartialEq, Eq, Structural)]
pub enum AppState {
    Fullscreen,
    Desktop,
}

impl Default for AppState {
    fn default() -> (state: Self)
        ensures
            state == AppState::Desktop,
    {
        AppState::Desktop
    }
}

/// The keys that the desktop reacts to.
#[derive(Debug, Clone, Copy, PartialEq, Eq, Structural)]
pub enum Key {
    F11,
    ArrowUp,
    ArrowDown,
    Other,
}

/// The mathematical value of a message to the desktop.
pub enum AppMessageView {
    Startup1,
    Page(PageMessageView),
    NavView(crate::ui::nav_view::Message),
    KeyDown(Key),
    SwitchState(AppState),
    Startup2,
}

/// What the desktop takes.
#[derive(Debug)]
pub enum Message {
    Startup1,
    Page(PageMessage),
    NavView(crate::ui::nav_view::Message),
    KeyDown(Key),
    SwitchState(AppState),
    Startup2,
}

impl View for Message {
    type V = AppMessageView;

    open spec fn view(&self) -> AppMessageView {
        match self {
            Message::Startup1 => AppMessageView::Startup1,
            Message::Page(message) => AppMessageView::Page(message@),
            Message::NavView(message) => AppMessageView::NavView(*message),
            Message::KeyDown(key) => AppMessageView::KeyDown(*key),
            Message::SwitchState(state) => AppMessageView::SwitchState(*state),
            Message::Startup2 => AppMessageView::Startup2,
        }
    }
}

/// The mathematical value of what the desktop asks to be done.
pub enum AppEffectView {
    Nothing,
    Page(PageEffectView),
    SetWindowIcon,
}

/// What the desktop asks to be done outside of it.
#[derive(Debug)]
pub enum AppEffect {
    /// Nothing is to be done.
    Nothing,
    /// Do what the page asks and send what comes of it back as a message to
    /// the page.
    Page(PageEffect),
    /// Give the oldest window its icon, then send `NoOp` to the library
    /// page.
    SetWindowIcon,
}

impl View for AppEffect {
    type V = AppEffectView;

    open spec fn view(&self) -> AppEffectView {
        match self {
            AppEffect::Nothing => AppEffectView::Nothing,
            AppEffect::Page(effect) => AppEffectView::Page(effect@),
            AppEffect::SetWindowIcon => AppEffectView::SetWindowIcon,
        }
    }
}

/// The mathematical value of the desktop.
pub struct AppView {
    pub state: AppState,
    pub nav: usize,
    pub page: AppPageView,
    pub addons: Seq<PluginMetadataView>,
}

/// The desktop.
#[derive(Debug)]
pub struct App {
    pub state: AppState,
    pub nav: NavView,
    pub page: AppPage,
    pub addons: Vec<PluginMetadata>,
}

impl View for App {
    type V = AppView;

    open spec fn view(&self) -> AppView {
        AppView {
            state: self.state,
            nav: self.nav@,
            page: self.page@,
            addons: self.addons.deep_view(),
        }
    }
}

/// The page that a button of the navigation bar opens, fresh, and what the
/// page needs done first: the library lists the catalog, the add-ons page
/// reads the configuration of the first addon, the settings page reads the
/// settings.
pub open spec fn spec_open_page(index: usize, addons: Seq<PluginMetadataView>) -> (
    AppPageView,
    PageEffectView,
) {
    if index == 0 {
        let (page, effect) = crate::ui::library::spec_update(
            crate::ui::library::spec_new_page(),
            MessageView::ReloadCache,
        );
        (AppPageView::Library(page), PageEffectView::Library(effect))
    } else if index == 1 {
        (AppPageView::Achievements, PageEffectView::Nothing)
    } else if index == 2 {
        (
            AppPageView::AddOns(
                AddOnsView {
                    metadatas: addons,
                    selected: 0,
                    curr: Map::empty(),
                    curr_config: Map::empty(),
                },
            ),
            if addons.len() > 0 {
                PageEffectView::AddOns(AddOnEffectView::LoadConfig { id: addons[0].id })
            } else {
                PageEffectView::Nothing
            },
        )
    } else if index == 3 {
        (AppPageView::Tools, PageEffectView::Nothing)
    } else {
        (
            AppPageView::Settings(
                SettingsPageView {
                    active_tab: TabId::General,
                    settings: Settings { appearance: AppearanceSettings { theme: MyTheme::Dark } },
                },
            ),
            PageEffectView::Settings(SettingsEffect::Load),
        )
    }
}

/// The effect of the desktop that stands for an effect of a page.
pub open spec fn spec_lift(effect: PageEffectView) -> AppEffectView {
    match effect {
        PageEffectView::Nothing => AppEffectView::Nothing,
        _ => AppEffectView::Page(effect),
    }
}

/// The desktop after a message to its page.
pub open spec fn spec_to_page(app: AppView, message: PageMessageView) -> (AppView, AppEffectView) {
    let (page, effect) = crate::ui::app_page::spec_update(app.page, message);
    (AppView { page, ..app }, spec_lift(effect))
}

/// The desktop after the selection was asked to move: only the library page
/// has a selection.
pub open spec fn spec_move_dir(app: AppView, direction: Direction) -> (AppView, AppEffectView) {
    match app.page {
        AppPageView::Library(_) => spec_to_page(
            app,
            PageMessageView::Library(MessageView::MoveInDir(direction)),
        ),
        _ => (app, AppEffectView::Nothing),
    }
}

/// Whether the desktop takes a message: a message to a page must be made
/// out to the page that shows.
pub open spec fn spec_takes(app: AppView, message: AppMessageView) -> bool {
    match message {
        AppMessageView::Page(to_page) => spec_addressed(app.page, to_page),
        _ => true,
    }
}

/// The desktop after a message that it takes, and what is to be done.
pub open spec fn spec_update(app: AppView, message: AppMessageView) -> (AppView, AppEffectView) {
    match message {
        AppMessageView::Startup1 => match app.page {
            AppPageView::Library(_) => spec_to_page(
                app,
                PageMessageView::Library(MessageView::ReloadCache),
            ),
            _ => (app, AppEffectView::Nothing),
        },
        AppMessageView::Startup2 => (app, AppEffectView::SetWindowIcon),
        AppMessageView::NavView(selection) => match selection {
            crate::ui::nav_view::Message::NavSelected(index) => if index < PAGE_COUNT {
                let (page, effect) = spec_open_page(index, app.addons);
                (AppView { nav: index, page, ..app }, spec_lift(effect))
            } else {
                (app, AppEffectView::Nothing)
            },
        },
        AppMessageView::Page(to_page) => spec_to_page(app, to_page),
        AppMessageView::KeyDown(key) => match key {
            Key::F11 => (
                AppView {
                    state: if app.state == AppState::Desktop {
                        AppState::Fullscreen
                    } else {
                        AppState::Desktop
                    },
                    ..app
                },
                AppEffectView::Nothing,
            ),
            Key::ArrowUp => spec_move_dir(app, Direction::Up),
            Key::ArrowDown => spec_move_dir(app, Direction::Down),
            Key::Other => (app, AppEffectView::Nothing),
        },
        AppMessageView::SwitchState(state) => (AppView { state, ..app }, AppEffectView::Nothing),
    }
}

fn lift(effect: PageEffect) -> (lifted: AppEffect)
    ensures
        lifted@ == spec_lift(effect@),
{
    match effect {
        PageEffect::Nothing => AppEffect::Nothing,
        other => AppEffect::Page(other),
    }
}

impl App {
    /// The page of the desktop is well formed.
    pub open spec fn well_formed(&self) -> bool {
        self.page.well_formed()
    }

    /// The desktop at its start, for these loaded addons: the library page
    /// shows, in a window.
    pub fn new(addons: Vec<PluginMetadata>) -> (app: Self)
        ensures
            app.well_formed(),
            app@ == (AppView {
                state: AppState::Desktop,
                nav: 0,
                page: AppPageView::Library(crate::ui::library::spec_new_page()),
                addons: addons.deep_view(),
            }),
    {
        App {
            state: AppState::Desktop,
            nav: NavView::default(),
            page: AppPage::default(),
            addons,
        }
    }

    /// Whether the navigation bar is on display: it is unless the desktop
    /// fills the screen.
    pub fn shows_nav(&self) -> (shown: bool)
        ensures
            shown == (self@.state == AppState::Desktop),
    {
        match self.state {
            AppState::Desktop => true,
            AppState::Fullscreen => false,
        }
    }

    fn open_page(&mut self, index: usize) -> (effect: PageEffect)
        requires
            index < PAGE_COUNT,
        ensures
            final(self).well_formed(),
            final(self).state == old(self).state,
            final(self).nav == old(self).nav,
            final(self).addons == old(self).addons,
            (final(self).page@, effect@) == spec_open_page(index, old(self).addons.deep_view()),
    {
        if index == 0 {
            let mut page = LibraryPage::new();
            let effect = page.update(crate::ui::library::Message::ReloadCache);
            self.page = AppPage::Library(page);
            PageEffect::Library(effect)
        } else if index == 1 {
            self.page = AppPage::Achievements(Achievements::default());
            PageEffect::Nothing
        } else if index == 2 {
            let mut addons: Vec<PluginMetadata> = Vec::new();
            let mut i: usize = 0;
            while i < self.addons.len()
                invariant
                    i <= self.addons.len(),
                    addons.len() == i,
                    forall|j: int| 0 <= j < i ==> addons[j]@ == self.addons[j]@,
                decreases self.addons.len() - i,
            {
                addons.push(self.addons[i].clone());
                i += 1;
            }
            assert(addons.deep_view() =~= self.addons.deep_view());
            let ghost listed = self.addons.deep_view();
            let (page, effect) = AddOns::new(addons);
            self.page = AppPage::AddOns(page);
            proof {
                if listed.len() > 0 {
                    assert(listed[0] == addons[0]@);
                }
            }
            match effect {
                crate::ui::add_ons::AddOnEffect::Nothing => PageEffect::Nothing,
                other => PageEffect::AddOns(other),
            }
        } else if index == 3 {
            self.page = AppPage::Tools(ToolsPage::default());
            PageEffect::Nothing
        } else {
            let mut page = SettingsPage::default();
            let effect = page.update(crate::ui::settings::Message::LoadSettings);
            self.page = AppPage::Settings(page);
            PageEffect::Settings(effect)
        }
    }

    fn to_page(&mut self, message: PageMessage) -> (effect: AppEffect)
        requires
            old(self).well_formed(),
            spec_addressed(old(self)@.page, message@),
        ensures
            final(self).well_formed(),
            (final(self)@, effect@) == spec_to_page(old(self)@, message@),
    {
        let effect = self.page.update(message);
        lift(effect)
    }

    /// Moves the selection of the library page, if that page shows.
    pub fn move_dir_auto(&mut self, direction: Direction) -> (effect: AppEffect)
        requires
            old(self).well_formed(),
        ensures
            final(self).well_formed(),
            (final(self)@, effect@) == spec_move_dir(old(self)@, direction),
    {
        let on_library = match &self.page {
            AppPage::Library(_) => true,
            _ => false,
        };
        if on_library {
            self.to_page(PageMessage::Library(crate::ui::library::Message::MoveInDir(direction)))
        } else {
            AppEffect::Nothing
        }
    }

    /// Whether the desktop takes a message: a message to a page must be
    /// made out to the page that shows; every other message is taken.
    pub fn takes(&self, message: &Message) -> (taken: bool)
        ensures
            taken == spec_takes(self@, message@),
    {
        match message {
            Message::Page(to_page) => self.page.takes(to_page),
            _ => true,
        }
    }

    /// Takes a message and says what is to be done. A message to a page
    /// must be made out to the page that shows: `takes` tells.
    pub fn update(&mut self, message: Message) -> (effect: AppEffect)
        requires
            old(self).well_formed(),
            spec_takes(old(self)@, message@),
        ensures
            final(self).well_formed(),
            (final(self)@, effect@) == spec_update(old(self)@, message@),
    {
        match message {
            Message::Startup1 => {
                let on_library = match &self.page {
                    AppPage::Library(_) => true,
                    _ => false,
                };
                if on_library {
                    self.to_page(PageMessage::Library(crate::ui::library::Message::ReloadCache))
                } else {
                    AppEffect::Nothing
                }
            },
            Message::Startup2 => AppEffect::SetWindowIcon,
            Message::NavView(selection) => {
                let index = match selection {
                    crate::ui::nav_view::Message::NavSelected(index) => index,
                };
                if index < PAGE_COUNT {
                    self.nav.update(selection);
                    let effect = self.open_page(index);
                    lift(effect)
                } else {
                    AppEffect::Nothing
                }
            },
            Message::Page(to_page) => self.to_page(to_page),
            Message::KeyDown(key) => match key {
                Key::F11 => {
                    self.state = match self.state {
                        AppState::Desktop => AppState::Fullscreen,
                        AppState::Fullscreen => AppState::Desktop,
                    };
                    AppEffect::Nothing
                },
                Key::ArrowUp => self.move_dir_auto(Direction::Up),
                Key::ArrowDown => self.move_dir_auto(Direction::Down),
                Key::Other => AppEffect::Nothing,
            },
            Message::SwitchState(state) => {
                self.state = state;
                AppEffect::Nothing
            },
        }
    }
}

/// The title of the window.
#[derive(Debug, Clone, Copy)]
pub struct AppTitle;

impl AppTitle {
    /// The title of the window: the name of the page that shows, then the
    /// name of the program.
    pub fn title(&self, state: &App) -> (title: String)
        ensures
            title@ == spec_page_name(state@.nav) + " - Gami"@,
    {
        let name = state.nav.get_name();
        let title = concat3(name.as_str(), " - Gami", "");
        proof {
            reveal_strlit("");
            assert(title@ =~= spec_page_name(state@.nav) + " - Gami"@);
        }
        title
    }
}

} // verus!
