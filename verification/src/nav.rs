//! Top-level pages and the navigation model that tracks the active one.

use vstd::prelude::*;

verus! {

/// A top-level page of the window.
#[derive(Clone, Copy, Debug, PartialEq, Eq, Structural)]
pub enum NavPage {
    HourlyView,
    DailyView,
    Details,
}

/// A named icon at a pixel size, to be looked up in the icon cache.
#[derive(Debug)]
pub struct Icon {
    pub name: String,
    pub size: u16,
}

/// Mathematical model of [`Icon`].
pub struct IconView {
    pub name: Seq<char>,
    pub size: u16,
}

impl View for Icon {
    type V = IconView;

    open spec fn view(&self) -> IconView {
        IconView { name: self.name@, size: self.size }
    }
}

impl Clone for Icon {
    fn clone(&self) -> (r: Self)
        ensures
            r@ == self@,
    {
        Icon { name: self.name.clone(), size: self.size }
    }
}

impl NavPage {
    /// Every page, in the order in which the navigation bar lists them.
    pub open spec fn spec_all() -> Seq<NavPage> {
        seq![NavPage::HourlyView, NavPage::DailyView, NavPage::Details]
    }

    /// String-table key of the page's title.
    pub open spec fn spec_title(self) -> Seq<char> {
        match self {
            NavPage::HourlyView => "hourly-forecast"@,
            NavPage::DailyView => "daily-forecast"@,
            NavPage::Details => "details"@,
        }
    }

    /// The page's icon.
    pub open spec fn spec_icon(self) -> IconView {
        match self {
            NavPage::HourlyView => IconView { name: "view-hourly"@, size: 16 },
            NavPage::DailyView => IconView { name: "view-daily"@, size: 16 },
            NavPage::Details => IconView { name: "view-detail"@, size: 16 },
        }
    }

    /// The entry that stands for the page in the navigation bar.
    pub open spec fn spec_item(self) -> NavItemView {
        NavItemView { page: self, text: self.spec_title(), icon: self.spec_icon() }
    }

    /// Every page, in the order in which the navigation bar lists them.
    pub fn all() -> (pages: &'static [Self])
        ensures
            pages@ == Self::spec_all(),
    {
        &[Self::HourlyView, Self::DailyView, Self::Details]
    }

    /// String-table key of the page's title.
    pub fn title(&self) -> (key: String)
        ensures
            key@ == self.spec_title(),
    {
        match self {
            Self::HourlyView => "hourly-forecast".to_string(),
            Self::DailyView => "daily-forecast".to_string(),
            Self::Details => "details".to_string(),
        }
    }

    /// The page's icon.
    pub fn icon(&self) -> (icon: Icon)
        ensures
            icon@ == self.spec_icon(),
    {
        match self {
            Self::HourlyView => Icon { name: "view-hourly".to_string(), size: 16 },
            Self::DailyView => Icon { name: "view-daily".to_string(), size: 16 },
            Self::Details => Icon { name: "view-detail".to_string(), size: 16 },
        }
    }

    /// The entry that stands for the page in the navigation bar.
    pub fn item(&self) -> (item: NavItem)
        ensures
            item@ == self.spec_item(),
    {
        NavItem { page: *self, text: self.title(), icon: self.icon() }
    }
}

/// An entry of the navigation bar: the page it opens, its label and icon.
#[derive(Debug)]
pub struct NavItem {
    pub page: NavPage,
    pub text: String,
    pub icon: Icon,
}

/// Mathematical model of [`NavItem`].
pub struct NavItemView {
    pub page: NavPage,
    pub text: Seq<char>,
    pub icon: IconView,
}

impl View for NavItem {
    type V = NavItemView;

    open spec fn view(&self) -> NavItemView {
        NavItemView { page: self.page, text: self.text@, icon: self.icon@ }
    }
}

impl DeepView for NavItem {
    type V = NavItemView;

    open spec fn deep_view(&self) -> NavItemView {
        self@
    }
}

impl Clone for NavItem {
    fn clone(&self) -> (r: Self)
        ensures
            r@ == self@,
    {
        NavItem { page: self.page, text: self.text.clone(), icon: self.icon.clone() }
    }
}

/// Mathematical model of [`NavModel`]: the entries in order, each known by
/// its position, and the position of the active one, if any.
pub struct NavModelView {
    pub items: Seq<NavItemView>,
    pub active: Option<nat>,
}

impl NavModelView {
    /// The model without entries.
    pub open spec fn empty() -> NavModelView {
        NavModelView { items: Seq::empty(), active: None }
    }

    /// Whether `id` names an entry and that entry is the active one.
    pub open spec fn is_active(self, id: nat) -> bool {
        id < self.items.len() && self.active == Some(id)
    }

    /// Exactly one entry is active.
    pub open spec fn one_active(self) -> bool {
        exists|id: nat|
            #![auto]
            self.is_active(id) && forall|other: nat| self.is_active(other) ==> other == id
    }

    /// The model with one more entry at the end.
    pub open spec fn insert(self, item: NavItemView) -> NavModelView {
        NavModelView { items: self.items.push(item), active: self.active }
    }

    /// The model after a request to activate `id`: an `id` that names no
    /// entry changes nothing.
    pub open spec fn activate(self, id: nat) -> NavModelView {
        if id < self.items.len() {
            NavModelView { items: self.items, active: Some(id) }
        } else {
            self
        }
    }

    /// The page of the active entry, if an entry is active.
    pub open spec fn active_page(self) -> Option<NavPage> {
        match self.active {
            Some(id) => if id < self.items.len() {
                Some(self.items[id as int].page)
            } else {
                None
            },
            None => None,
        }
    }
}

/// The navigation bar's model: an ordered list of entries, of which at most
/// one is active.
#[derive(Debug)]
pub struct NavModel {
    items: Vec<NavItem>,
    active: Option<usize>,
}

impl View for NavModel {
    type V = NavModelView;

    closed spec fn view(&self) -> NavModelView {
        NavModelView {
            items: self.items.deep_view(),
            active: match self.active {
                Some(id) => Some(id as nat),
                None => None,
            },
        }
    }
}

impl NavModel {
    /// The model without entries and with nothing active.
    pub fn new() -> (model: NavModel)
        ensures
            model@ == NavModelView::empty(),
    {
        let model = NavModel { items: Vec::new(), active: None };
        assert(model.items.deep_view() =~= Seq::<NavItemView>::empty());
        model
    }

    /// Appends an entry and returns the position that names it from now on.
    pub fn insert(&mut self, item: NavItem) -> (id: usize)
        ensures
            final(self)@ == old(self)@.insert(item@),
            id == old(self)@.items.len(),
    {
        let id = self.items.len();
        self.items.push(item);
        assert(self.items.deep_view() =~= old(self).items.deep_view().push(item@));
        id
    }

    /// Makes the entry at `id` the active one; an `id` that names no entry
    /// changes nothing.
    pub fn activate(&mut self, id: usize)
        ensures
            final(self)@ == old(self)@.activate(id as nat),
    {
        if id < self.items.len() {
            self.active = Some(id);
        }
    }

    /// Whether `id` names an entry and that entry is the active one.
    pub fn is_active(&self, id: usize) -> (r: bool)
        ensures
            r == self@.is_active(id as nat),
    {
        id < self.items.len() && match self.active {
            Some(active) => active == id,
            None => false,
        }
    }

    /// The page of the active entry, if an entry is active.
    pub fn active_data(&self) -> (page: Option<NavPage>)
        ensures
            page == self@.active_page(),
    {
        match self.active {
            Some(id) => if id < self.items.len() {
                Some(self.items[id].page)
            } else {
                None
            },
            None => None,
        }
    }

    /// Number of entries.
    pub fn len(&self) -> (n: usize)
        ensures
            n == self@.items.len(),
    {
        self.items.len()
    }

    /// The entry at `id`, if `id` names one.
    pub fn get(&self, id: usize) -> (item: Option<&NavItem>)
        ensures
            match item {
                Some(found) => id < self@.items.len() && found@ == self@.items[id as int],
                None => id >= self@.items.len(),
            },
    {
        if id < self.items.len() {
            Some(&self.items[id])
        } else {
            None
        }
    }
}

} // verus!
