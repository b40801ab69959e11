//! The settings of the desktop and the page that changes them.
use vstd::prelude::*;

verus! {

/// The colour themes that the desktop offers.
#[derive(Debug, Clone, Copy, PartialEq, Eq, Structural)]
pub enum MyTheme {
    Light,
    Dark,
    Dracula,
    Nord,
    SolarizedLight,
    SolarizedDark,
    GruvboxLight,
    GruvboxDark,
    CatppuccinLatte,
    CatppuccinFrappe,
    CatppuccinMacchiato,
    CatppuccinMocha,
    TokyoNight,
    TokyoNightStorm,
    TokyoNightLight,
    KanagawaWave,
    KanagawaDragon,
    KanagawaLotus,
    Moonfly,
    Nightfly,
    Oxocarbon,
    Ferra,
}

impl Default for MyTheme {
    fn default() -> (theme: Self)
        ensures
            theme == MyTheme::Dark,
    {
        MyTheme::Dark
    }
}

impl MyTheme {
    /// The position of the theme in the list of themes.
    pub open spec fn spec_index(self) -> nat {
        match self {
            MyTheme::Light => 0,
            MyTheme::Dark => 1,
            MyTheme::Dracula => 2,
            MyTheme::Nord => 3,
            MyTheme::SolarizedLight => 4,
            MyTheme::SolarizedDark => 5,
            MyTheme::GruvboxLight => 6,
            MyTheme::GruvboxDark => 7,
            MyTheme::CatppuccinLatte => 8,
            MyTheme::CatppuccinFrappe => 9,
            MyTheme::CatppuccinMacchiato => 10,
            MyTheme::CatppuccinMocha => 11,
            MyTheme::TokyoNight => 12,
            MyTheme::TokyoNightStorm => 13,
            MyTheme::TokyoNightLight => 14,
            MyTheme::KanagawaWave => 15,
            MyTheme::KanagawaDragon => 16,
            MyTheme::KanagawaLotus => 17,
            MyTheme::Moonfly => 18,
            MyTheme::Nightfly => 19,
            MyTheme::Oxocarbon => 20,
            MyTheme::Ferra => 21,
        }
    }

    /// The words shown for the theme.
    pub open spec fn spec_label(self) -> Seq<char> {
        match self {
            MyTheme::Light => "Light"@,
            MyTheme::Dark => "Dark"@,
            MyTheme::Dracula => "Dracula"@,
            MyTheme::Nord => "Nord"@,
            MyTheme::SolarizedLight => "Solarized Light"@,
            MyTheme::SolarizedDark => "Solarized Dark"@,
            MyTheme::GruvboxLight => "Gruvbox Light"@,
            MyTheme::GruvboxDark => "Gruvbox Dark"@,
            MyTheme::CatppuccinLatte => "Catppuccin Latte"@,
            MyTheme::CatppuccinFrappe => "Catppuccin Frappé"@,
            MyTheme::CatppuccinMacchiato => "Catppuccin Macchiato"@,
            MyTheme::CatppuccinMocha => "Catppuccin Mocha"@,
            MyTheme::TokyoNight => "Tokyo Night"@,
            MyTheme::TokyoNightStorm => "Tokyo Night Storm"@,
            MyTheme::TokyoNightLight => "Tokyo Night Light"@,
            MyTheme::KanagawaWave => "Kanagawa Wave"@,
            MyTheme::KanagawaDragon => "Kanagawa Dragon"@,
            MyTheme::KanagawaLotus => "Kanagawa Lotus"@,
            MyTheme::Moonfly => "Moonfly"@,
            MyTheme::Nightfly => "Nightfly"@,
            MyTheme::Oxocarbon => "Oxocarbon"@,
            MyTheme::Ferra => "Ferra"@,
        }
    }

    /// The words shown for the theme.
    pub fn label(&self) -> (words: &'static str)
        ensures
            words@ == self.spec_label(),
    {
        match self {
            MyTheme::Light => "Light",
            MyTheme::Dark => "Dark",
            MyTheme::Dracula => "Dracula",
            MyTheme::Nord => "Nord",
            MyTheme::SolarizedLight => "Solarized Light",
            MyTheme::SolarizedDark => "Solarized Dark",
            MyTheme::GruvboxLight => "Gruvbox Light",
            MyTheme::GruvboxDark => "Gruvbox Dark",
            MyTheme::CatppuccinLatte => "Catppuccin Latte",
            MyTheme::CatppuccinFrappe => "Catppuccin Frappé",
            MyTheme::CatppuccinMacchiato => "Catppuccin Macchiato",
            MyTheme::CatppuccinMocha => "Catppuccin Mocha",
            MyTheme::TokyoNight => "Tokyo Night",
            MyTheme::TokyoNightStorm => "Tokyo Night Storm",
            MyTheme::TokyoNightLight => "Tokyo Night Light",
            MyTheme::KanagawaWave => "Kanagawa Wave",
            MyTheme::KanagawaDragon => "Kanagawa Dragon",
            MyTheme::KanagawaLotus => "Kanagawa Lotus",
            MyTheme::Moonfly => "Moonfly",
            MyTheme::Nightfly => "Nightfly",
            MyTheme::Oxocarbon => "Oxocarbon",
            MyTheme::Ferra => "Ferra",
        }
    }

    /// Every theme, in the order in which the list shows them: each theme
    /// stands at its own position.
    pub fn all() -> (themes: Vec<MyTheme>)
        ensures
            themes.len() == 22,
            forall|i: int| 0 <= i < 22 ==> (#[trigger] themes[i]).spec_index() == i,
    {
        vec![
            MyTheme::Light,
            MyTheme::Dark,
            MyTheme::Dracula,
            MyTheme::Nord,
            MyTheme::SolarizedLight,
            MyTheme::SolarizedDark,
            MyTheme::GruvboxLight,
            MyTheme::GruvboxDark,
            MyTheme::CatppuccinLatte,
            MyTheme::CatppuccinFrappe,
            MyTheme::CatppuccinMacchiato,
            MyTheme::CatppuccinMocha,
            MyTheme::TokyoNight,
            MyTheme::TokyoNightStorm,
            MyTheme::TokyoNightLight,
            MyTheme::KanagawaWave,
            MyTheme::KanagawaDragon,
            MyTheme::KanagawaLotus,
            MyTheme::Moonfly,
            MyTheme::Nightfly,
            MyTheme::Oxocarbon,
            MyTheme::Ferra,
        ]
    }
}

/// How the desktop looks.
#[derive(Debug, Clone, Copy, PartialEq, Eq, Structural)]
pub struct AppearanceSettings {
    pub theme: MyTheme,
}

impl Default for AppearanceSettings {
    fn default() -> (appearance: Self)
        ensures
            appearance == (AppearanceSettings { theme: MyTheme::Dark }),
    {
        AppearanceSettings { theme: MyTheme::Dark }
    }
}

/// The settings of the desktop.
#[derive(Debug, Clone, Copy, PartialEq, Eq, Structural)]
pub struct Settings {
    pub appearance: AppearanceSettings,
}

impl Default for Settings {
    fn default() -> (settings: Self)
        ensures
            settings == (Settings { appearance: AppearanceSettings { theme: MyTheme::Dark } }),
    {
        Settings { appearance: AppearanceSettings { theme: MyTheme::Dark } }
    }
}

/// The tabs of the settings page.
#[derive(Debug, Clone, Copy, PartialEq, Eq, Structural)]
pub enum TabId {
    General,
    Appearance,
    Metadata,
}

impl Default for TabId {
    fn default() -> (tab: Self)
        ensures
            tab == TabId::General,
    {
        TabId::General
    }
}

/// What the settings page takes.
#[derive(Debug, Clone, Copy, PartialEq, Eq, Structural)]
pub enum Message {
    LoadSettings,
    TabSelected(TabId),
    Changed(Settings),
    Loaded(Settings),
}

/// What the settings page asks to be done outside of it.
#[derive(Debug, Clone, Copy, PartialEq, Eq, Structural)]
pub enum SettingsEffect {
    /// Nothing is to be done.
    Nothing,
    /// Read the stored settings and send them as `Loaded`.
    Load,
    /// Store these settings.
    Save(Settings),
}

/// The mathematical value of the settings page.
pub struct SettingsPageView {
    pub active_tab: TabId,
    pub settings: Settings,
}

/// The settings page: the tab that is open and the settings as shown.
#[derive(Debug, Clone, Copy)]
pub struct SettingsPage {
    active_tab: TabId,
    settings: Settings,
}

impl View for SettingsPage {
    type V = SettingsPageView;

    closed spec fn view(&self) -> SettingsPageView {
        SettingsPageView { active_tab: self.active_tab, settings: self.settings }
    }
}

/// The settings page after a message, and what is to be done.
pub open spec fn spec_update(page: SettingsPageView, message: Message) -> (
    SettingsPageView,
    SettingsEffect,
) {
    match message {
        Message::LoadSettings => (page, SettingsEffect::Load),
        Message::TabSelected(tab) => (
            SettingsPageView { active_tab: tab, ..page },
            SettingsEffect::Nothing,
        ),
        Message::Changed(settings) => (
            SettingsPageView { settings, ..page },
            SettingsEffect::Save(settings),
        ),
        Message::Loaded(settings) => (SettingsPageView { settings, ..page }, SettingsEffect::Nothing),
    }
}

impl Default for SettingsPage {
    fn default() -> (page: Self)
        ensures
            page@ == (SettingsPageView {
                active_tab: TabId::General,
                settings: Settings { appearance: AppearanceSettings { theme: MyTheme::Dark } },
            }),
    {
        SettingsPage { active_tab: TabId::General, settings: Settings::default() }
    }
}

impl SettingsPage {
    /// The tab that is open.
    pub fn active_tab(&self) -> (tab: TabId)
        ensures
            tab == self@.active_tab,
    {
        self.active_tab
    }

    /// The settings as the page shows them.
    pub fn settings(&self) -> (settings: Settings)
        ensures
            settings == self@.settings,
    {
        self.settings
    }

    /// Takes a message and says what is to be done.
    pub fn update(&mut self, message: Message) -> (effect: SettingsEffect)
        ensures
            (final(self)@, effect) == spec_update(old(self)@, message),
    {
        match message {
            Message::LoadSettings => SettingsEffect::Load,
            Message::TabSelected(tab) => {
                self.active_tab = tab;
                SettingsEffect::Nothing
            },
            Message::Changed(settings) => {
                self.settings = settings;
                SettingsEffect::Save(settings)
            },
            Message::Loaded(settings) => {
                self.settings = settings;
                SettingsEffect::Nothing
            },
        }
    }
}

} // verus!
