//! The navigation bar: which page is showing.
use vstd::prelude::*;

verus! {

/// What the navigation bar sends: the index of the page to show.
#[derive(Debug, Clone, Copy, PartialEq, Eq, Structural)]
pub enum Message {
    NavSelected(usize),
}

/// The end of the bar at which the button of a page stands.
#[derive(Debug, Clone, Copy, PartialEq, Eq, Structural, Hash)]
pub enum NavLocation {
    Top,
    Bottom,
}

/// The number of pages.
pub const PAGE_COUNT: usize = 5;

/// The name of the page with this index.
pub open spec fn spec_page_name(index: usize) -> Seq<char> {
    if index == 0 {
        "Library"@
    } else if index == 1 {
        "Achievements"@
    } else if index == 2 {
        "Add-ons"@
    } else if index == 3 {
        "Tools"@
    } else {
        "Settings"@
    }
}

/// The end of the bar at which the button of the page with this index
/// stands: the library and the achievements at the top, the rest at the
/// bottom.
pub open spec fn spec_page_location(index: usize) -> NavLocation {
    if index < 2 {
        NavLocation::Top
    } else {
        NavLocation::Bottom
    }
}

/// The name of the page with this index; `None` where no page has it.
pub fn page_name(index: usize) -> (name: Option<&'static str>)
    ensures
        match name {
            Some(words) => index < PAGE_COUNT && words@ == spec_page_name(index),
            None => index >= PAGE_COUNT,
        },
{
    if index == 0 {
        Some("Library")
    } else if index == 1 {
        Some("Achievements")
    } else if index == 2 {
        Some("Add-ons")
    } else if index == 3 {
        Some("Tools")
    } else if index == 4 {
        Some("Settings")
    } else {
        None
    }
}

/// The end of the bar at which the button of the page with this index
/// stands; `None` where no page has it.
pub fn page_location(index: usize) -> (location: Option<NavLocation>)
    ensures
        match location {
            Some(end) => index < PAGE_COUNT && end == spec_page_location(index),
            None => index >= PAGE_COUNT,
        },
{
    if index < 2 {
        Some(NavLocation::Top)
    } else if index < PAGE_COUNT {
        Some(NavLocation::Bottom)
    } else {
        None
    }
}

/// The navigation bar. The page it shows is always one of the pages.
#[derive(Debug, Clone, Copy)]
pub struct NavView {
    active_item: usize,
}

impl View for NavView {
    type V = usize;

    closed spec fn view(&self) -> usize {
        self.active_item
    }
}

impl Default for NavView {
    fn default() -> (nav: Self)
        ensures
            nav@ == 0,
    {
        NavView { active_item: 0 }
    }
}

impl NavView {
    #[verifier::type_invariant]
    spec fn shows_a_page(self) -> bool {
        self.active_item < PAGE_COUNT
    }

    /// The index of the page that is showing.
    pub fn active_item(&self) -> (index: usize)
        ensures
            index == self@,
            index < PAGE_COUNT,
    {
        proof {
            use_type_invariant(self);
        }
        self.active_item
    }

    /// The name of the page that is showing.
    pub fn get_name(&self) -> (name: String)
        ensures
            name@ == spec_page_name(self@),
    {
        proof {
            use_type_invariant(self);
        }
        match page_name(self.active_item) {
            Some(words) => words.to_owned(),
            None => String::new(),
        }
    }

    /// Whether the button of the page with this index can be pressed: every
    /// button but that of the page that is showing.
    pub fn can_select(&self, index: usize) -> (pressable: bool)
        ensures
            pressable == (index < PAGE_COUNT && index != self@),
    {
        index < PAGE_COUNT && index != self.active_item
    }

    /// Shows the page that was selected. A selection that names no page
    /// changes nothing.
    pub fn update(&mut self, message: Message)
        ensures
            final(self)@ == spec_select(old(self)@, message),
    {
        match message {
            Message::NavSelected(index) => {
                if index < PAGE_COUNT {
                    self.active_item = index;
                }
            },
        }
    }
}

/// The page that shows after a selection.
pub open spec fn spec_select(active: usize, message: Message) -> usize {
    match message {
        Message::NavSelected(index) => if index < PAGE_COUNT {
            index
        } else {
            active
        },
    }
}

} // verus!
