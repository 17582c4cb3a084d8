//! What the window shows, as a function of the application state.

use vstd::prelude::*;
use vstd::string::*;
use crate::config::{AppTheme, TimeFmt, Units, WeatherConfig, WeatherConfigView};
use crate::context::ContextPage;
use crate::controller::{App, AppView};
use crate::dialog::{DialogPage, DialogPageView};
use crate::message::{Message, MessageView};
use crate::nav::NavPage;

verus! {

/// The body of the window.
#[derive(Debug)]
pub enum PageContent<'a, W> {
    /// A forecast page, drawn from the weather snapshot under the settings.
    Forecast { page: NavPage, weather: &'a W, config: &'a WeatherConfig },
    /// The notice shown when no page is active.
    Unknown(String),
}

/// Mathematical model of [`PageContent`].
pub enum PageContentView<W> {
    Forecast { page: NavPage, weather: W, config: WeatherConfigView },
    Unknown(Seq<char>),
}

impl<'a, W> View for PageContent<'a, W> {
    type V = PageContentView<W>;

    open spec fn view(&self) -> PageContentView<W> {
        match self {
            PageContent::Forecast { page, weather, config } => PageContentView::Forecast {
                page: *page,
                weather: **weather,
                config: config@,
            },
            PageContent::Unknown(notice) => PageContentView::Unknown(notice@),
        }
    }
}

/// The dialog on screen: its title, its two buttons with the messages they
/// send, and its text field.
#[derive(Debug)]
pub struct DialogContent<W> {
    /// String-table key of the title.
    pub title: String,
    /// String-table key of the confirming button's label.
    pub primary_label: String,
    /// The message that the confirming button sends.
    pub primary_action: Message<W>,
    /// String-table key of the dismissing button's label.
    pub secondary_label: String,
    /// The message that the dismissing button sends.
    pub secondary_action: Message<W>,
    /// String-table key of the text field's placeholder.
    pub placeholder: String,
    /// The text in the text field.
    pub text: String,
}

/// Mathematical model of [`DialogContent`].
pub struct DialogContentView<W> {
    pub title: Seq<char>,
    pub primary_label: Seq<char>,
    pub primary_action: MessageView<W>,
    pub secondary_label: Seq<char>,
    pub secondary_action: MessageView<W>,
    pub placeholder: Seq<char>,
    pub text: Seq<char>,
}

impl<W> View for DialogContent<W> {
    type V = DialogContentView<W>;

    open spec fn view(&self) -> DialogContentView<W> {
        DialogContentView {
            title: self.title@,
            primary_label: self.primary_label@,
            primary_action: self.primary_action@,
            secondary_label: self.secondary_label@,
            secondary_action: self.secondary_action@,
            placeholder: self.placeholder@,
            text: self.text@,
        }
    }
}

impl DialogPageView {
    /// The dialog that shows this request.
    pub open spec fn content<W>(self) -> DialogContentView<W> {
        match self {
            DialogPageView::Change(city) => DialogContentView {
                title: "change-city"@,
                primary_label: "save"@,
                primary_action: MessageView::DialogComplete(city),
                secondary_label: "cancel"@,
                secondary_action: MessageView::DialogCancel,
                placeholder: "search"@,
                text: city,
            },
        }
    }

    /// The message sent when the user edits the text field to read `text`.
    pub open spec fn on_input<W>(self, text: Seq<char>) -> MessageView<W> {
        match self {
            DialogPageView::Change(_) => MessageView::DialogUpdate(DialogPageView::Change(text)),
        }
    }
}

impl DialogPage {
    /// The dialog that shows this request.
    pub fn content<W>(&self) -> (content: DialogContent<W>)
        ensures
            content@ == self@.content::<W>(),
    {
        match self {
            DialogPage::Change(city) => DialogContent {
                title: "change-city".to_string(),
                primary_label: "save".to_string(),
                primary_action: Message::DialogComplete(city.clone()),
                secondary_label: "cancel".to_string(),
                secondary_action: Message::DialogCancel,
                placeholder: "search".to_string(),
                text: city.clone(),
            },
        }
    }

    /// The message sent when the user edits the text field to read `text`.
    pub fn on_input<W>(&self, text: String) -> (m: Message<W>)
        ensures
            m@ == self@.on_input::<W>(text@),
    {
        match self {
            DialogPage::Change(_) => Message::DialogUpdate(DialogPage::Change(text)),
        }
    }
}

/// The build that the about panel describes.
#[derive(Debug)]
pub struct BuildInfo {
    /// The full hash of the commit that was built.
    pub hash: String,
    /// The date of that commit.
    pub date: String,
}

/// The about panel.
#[derive(Debug)]
pub struct AboutContent<W> {
    /// String-table key of the application's name.
    pub title: String,
    /// Address of the source repository, shown as a link.
    pub repository: String,
    /// The message that the repository link sends.
    pub repository_action: Message<W>,
    /// String-table key of the line that describes the build.
    pub description: String,
    /// The commit hash as that line shows it.
    pub short_hash: String,
    /// The commit date as that line shows it.
    pub date: String,
    /// The message that the build line, also a link, sends.
    pub commits_action: Message<W>,
}

/// Mathematical model of [`AboutContent`].
pub struct AboutContentView<W> {
    pub title: Seq<char>,
    pub repository: Seq<char>,
    pub repository_action: MessageView<W>,
    pub description: Seq<char>,
    pub short_hash: Seq<char>,
    pub date: Seq<char>,
    pub commits_action: MessageView<W>,
}

impl<W> View for AboutContent<W> {
    type V = AboutContentView<W>;

    open spec fn view(&self) -> AboutContentView<W> {
        AboutContentView {
            title: self.title@,
            repository: self.repository@,
            repository_action: self.repository_action@,
            description: self.description@,
            short_hash: self.short_hash@,
            date: self.date@,
            commits_action: self.commits_action@,
        }
    }
}

/// Address of the source repository.
pub open spec fn repository() -> Seq<char> {
    "https://github.com/jwestall/cosmic-weather"@
}

/// The first seven characters of a hash, or all of it when it is shorter.
pub open spec fn short_hash(hash: Seq<char>) -> Seq<char> {
    if hash.len() > 7 {
        hash.take(7)
    } else {
        hash
    }
}

/// The about panel for a build.
pub open spec fn about_content<W>(hash: Seq<char>, date: Seq<char>) -> AboutContentView<W> {
    AboutContentView {
        title: "cosmic-ext-weather"@,
        repository: repository(),
        repository_action: MessageView::LaunchUrl(repository()),
        description: "git-description"@,
        short_hash: short_hash(hash),
        date,
        commits_action: MessageView::LaunchUrl(repository() + "/commits/"@ + hash),
    }
}

/// A setting that the settings panel lets the user choose.
#[derive(Clone, Copy, Debug, PartialEq, Eq, Structural)]
pub enum Setting {
    Units,
    TimeFmt,
    AppTheme,
}

impl Setting {
    /// The message sent when the user picks the choice at `index`.
    pub open spec fn spec_message<W>(self, index: nat) -> MessageView<W> {
        match self {
            Setting::Units => MessageView::Units(Units::spec_from_index(index)),
            Setting::TimeFmt => MessageView::TimeFmt(TimeFmt::spec_from_index(index)),
            Setting::AppTheme => MessageView::AppTheme(AppTheme::spec_from_index(index)),
        }
    }

    /// The message sent when the user picks the choice at `index`.
    pub fn message<W>(self, index: usize) -> (m: Message<W>)
        ensures
            m@ == self.spec_message::<W>(index as nat),
    {
        match self {
            Setting::Units => Message::Units(Units::from_index(index)),
            Setting::TimeFmt => Message::TimeFmt(TimeFmt::from_index(index)),
            Setting::AppTheme => Message::AppTheme(AppTheme::from_index(index)),
        }
    }
}

/// A list of choices of which one is selected.
#[derive(Debug)]
pub struct Dropdown {
    /// The setting that the list edits.
    pub setting: Setting,
    /// String-table key of the setting's name.
    pub title: String,
    /// String-table keys of the choices, in order.
    pub options: Vec<String>,
    /// Position of the selected choice.
    pub selected: Option<usize>,
}

/// Mathematical model of [`Dropdown`].
pub struct DropdownView {
    pub setting: Setting,
    pub title: Seq<char>,
    pub options: Seq<Seq<char>>,
    pub selected: Option<nat>,
}

impl View for Dropdown {
    type V = DropdownView;

    open spec fn view(&self) -> DropdownView {
        DropdownView {
            setting: self.setting,
            title: self.title@,
            options: self.options.deep_view(),
            selected: match self.selected {
                Some(index) => Some(index as nat),
                None => None,
            },
        }
    }
}

impl DeepView for Dropdown {
    type V = DropdownView;

    open spec fn deep_view(&self) -> DropdownView {
        self@
    }
}

/// A titled group of settings.
#[derive(Debug)]
pub struct Section {
    /// String-table key of the group's title.
    pub title: String,
    /// The settings of the group, in order.
    pub items: Vec<Dropdown>,
}

/// Mathematical model of [`Section`].
pub struct SectionView {
    pub title: Seq<char>,
    pub items: Seq<DropdownView>,
}

impl View for Section {
    type V = SectionView;

    open spec fn view(&self) -> SectionView {
        SectionView { title: self.title@, items: self.items.deep_view() }
    }
}

impl DeepView for Section {
    type V = SectionView;

    open spec fn deep_view(&self) -> SectionView {
        self@
    }
}

/// The settings panel: its groups, in order.
#[derive(Debug)]
pub struct SettingsContent {
    pub sections: Vec<Section>,
}

impl View for SettingsContent {
    type V = Seq<SectionView>;

    open spec fn view(&self) -> Seq<SectionView> {
        self.sections.deep_view()
    }
}

impl WeatherConfigView {
    /// The list from which the units are chosen.
    pub open spec fn units_dropdown(self) -> DropdownView {
        DropdownView {
            setting: Setting::Units,
            title: "units"@,
            options: seq!["fahrenheit"@, "celsius"@],
            selected: Some(self.units.spec_index()),
        }
    }

    /// The list from which the clock format is chosen.
    pub open spec fn timefmt_dropdown(self) -> DropdownView {
        DropdownView {
            setting: Setting::TimeFmt,
            title: "time-format"@,
            options: seq!["twelve-hr"@, "twenty-four-hr"@],
            selected: Some(self.timefmt.spec_index()),
        }
    }

    /// The list from which the theme is chosen.
    pub open spec fn theme_dropdown(self) -> DropdownView {
        DropdownView {
            setting: Setting::AppTheme,
            title: "theme"@,
            options: seq!["light"@, "dark"@, "system"@],
            selected: Some(self.app_theme.spec_index()),
        }
    }

    /// The settings panel for these settings: a general group with units
    /// and clock format, and an appearance group with the theme.
    pub open spec fn settings_content(self) -> Seq<SectionView> {
        seq![
            SectionView {
                title: "general"@,
                items: seq![self.units_dropdown(), self.timefmt_dropdown()],
            },
            SectionView { title: "appearance"@, items: seq![self.theme_dropdown()] },
        ]
    }
}

/// What the side panel shows.
#[derive(Debug)]
pub enum DrawerContent<W> {
    About(AboutContent<W>),
    Settings(SettingsContent),
}

/// Mathematical model of [`DrawerContent`].
pub enum DrawerContentView<W> {
    About(AboutContentView<W>),
    Settings(Seq<SectionView>),
}

impl<W> View for DrawerContent<W> {
    type V = DrawerContentView<W>;

    open spec fn view(&self) -> DrawerContentView<W> {
        match self {
            DrawerContent::About(about) => DrawerContentView::About(about@),
            DrawerContent::Settings(settings) => DrawerContentView::Settings(settings@),
        }
    }
}

/// The notice shown in place of a page when no page is active.
pub open spec fn unknown_page_notice() -> Seq<char> {
    "Unkown page selected."@
}

impl<W> AppView<W> {
    /// The body of the window: the forecast page that is active, or a
    /// notice when none is.
    pub open spec fn page_content(self) -> PageContentView<W> {
        match self.nav_model.active_page() {
            Some(page) => PageContentView::Forecast {
                page,
                weather: self.weather_data,
                config: self.config,
            },
            None => PageContentView::Unknown(unknown_page_notice()),
        }
    }

    /// The dialog on screen: the one for the first pending request, if any.
    pub open spec fn dialog_content(self) -> Option<DialogContentView<W>> {
        if self.dialog_pages.len() > 0 {
            Some(self.dialog_pages[0].content())
        } else {
            None
        }
    }

    /// The side panel: nothing while it is hidden, else the selected panel.
    pub open spec fn drawer_content(
        self,
        hash: Seq<char>,
        date: Seq<char>,
    ) -> Option<DrawerContentView<W>> {
        if !self.show_context {
            None
        } else {
            Some(
                match self.context_page {
                    ContextPage::About => DrawerContentView::About(about_content(hash, date)),
                    ContextPage::Settings => DrawerContentView::Settings(
                        self.config.settings_content(),
                    ),
                },
            )
        }
    }
}

/// The view of an optional dialog.
pub open spec fn opt_dialog_view<W>(d: Option<DialogContent<W>>) -> Option<DialogContentView<W>> {
    match d {
        Some(content) => Some(content@),
        None => None,
    }
}

/// The view of an optional side panel.
pub open spec fn opt_drawer_view<W>(d: Option<DrawerContent<W>>) -> Option<DrawerContentView<W>> {
    match d {
        Some(content) => Some(content@),
        None => None,
    }
}

impl<W> App<W> {
    /// The body of the window.
    pub fn page(&self) -> (content: PageContent<'_, W>)
        ensures
            content@ == self@.page_content(),
    {
        match self.nav_model().active_data() {
            Some(page) => PageContent::Forecast {
                page,
                weather: self.weather_data(),
                config: self.config(),
            },
            None => PageContent::Unknown("Unkown page selected.".to_string()),
        }
    }

    /// The dialog on screen, if there is one.
    pub fn dialog(&self) -> (content: Option<DialogContent<W>>)
        ensures
            opt_dialog_view(content) == self@.dialog_content(),
    {
        let queue = self.dialog_pages();
        if queue.len() > 0 {
            Some(queue[0].content())
        } else {
            None
        }
    }

    /// The about panel for a build.
    pub fn about(&self, build: &BuildInfo) -> (content: AboutContent<W>)
        ensures
            content@ == about_content::<W>(build.hash@, build.date@),
    {
        let repository = "https://github.com/jwestall/cosmic-weather";
        let hash = build.hash.as_str();
        let shown: usize = if hash.unicode_len() > 7 {
            7
        } else {
            hash.unicode_len()
        };
        let short_hash = hash.substring_char(0, shown).to_string();
        assert(short_hash@ =~= self::short_hash(build.hash@));
        AboutContent {
            title: "cosmic-ext-weather".to_string(),
            repository: repository.to_string(),
            repository_action: Message::LaunchUrl(repository.to_string()),
            description: "git-description".to_string(),
            short_hash,
            date: build.date.clone(),
            commits_action: Message::LaunchUrl(
                repository.to_string().concat("/commits/").concat(hash),
            ),
        }
    }

    /// The settings panel.
    pub fn settings(&self) -> (content: SettingsContent)
        ensures
            content@ == self@.config.settings_content(),
    {
        let config = self.config();
        let mut unit_names: Vec<String> = Vec::new();
        unit_names.push("fahrenheit".to_string());
        unit_names.push("celsius".to_string());
        let mut timefmt_names: Vec<String> = Vec::new();
        timefmt_names.push("twelve-hr".to_string());
        timefmt_names.push("twenty-four-hr".to_string());
        let mut theme_names: Vec<String> = Vec::new();
        theme_names.push("light".to_string());
        theme_names.push("dark".to_string());
        theme_names.push("system".to_string());
        let units = Dropdown {
            setting: Setting::Units,
            title: "units".to_string(),
            options: unit_names,
            selected: Some(config.units.index()),
        };
        let timefmt = Dropdown {
            setting: Setting::TimeFmt,
            title: "time-format".to_string(),
            options: timefmt_names,
            selected: Some(config.timefmt.index()),
        };
        let theme = Dropdown {
            setting: Setting::AppTheme,
            title: "theme".to_string(),
            options: theme_names,
            selected: Some(config.app_theme.index()),
        };
        proof {
            assert(units.options.deep_view() =~= seq!["fahrenheit"@, "celsius"@]);
            assert(timefmt.options.deep_view() =~= seq!["twelve-hr"@, "twenty-four-hr"@]);
            assert(theme.options.deep_view() =~= seq!["light"@, "dark"@, "system"@]);
        }
        let mut general_items: Vec<Dropdown> = Vec::new();
        general_items.push(units);
        general_items.push(timefmt);
        let mut appearance_items: Vec<Dropdown> = Vec::new();
        appearance_items.push(theme);
        let general = Section { title: "general".to_string(), items: general_items };
        let appearance = Section { title: "appearance".to_string(), items: appearance_items };
        proof {
            assert(general.items.deep_view() =~= seq![
                config@.units_dropdown(),
                config@.timefmt_dropdown(),
            ]);
            assert(appearance.items.deep_view() =~= seq![config@.theme_dropdown()]);
        }
        let mut sections: Vec<Section> = Vec::new();
        sections.push(general);
        sections.push(appearance);
        let content = SettingsContent { sections };
        assert(content@ =~= config@.settings_content());
        content
    }

    /// The side panel: nothing while it is hidden, else the selected panel.
    pub fn context_drawer(&self, build: &BuildInfo) -> (content: Option<DrawerContent<W>>)
        ensures
            opt_drawer_view(content) == self@.drawer_content(build.hash@, build.date@),
    {
        if !self.show_context() {
            return None;
        }
        Some(
            match self.context_page() {
                ContextPage::About => DrawerContent::About(self.about(build)),
                ContextPage::Settings => DrawerContent::Settings(self.settings()),
            },
        )
    }
}

} // verus!
