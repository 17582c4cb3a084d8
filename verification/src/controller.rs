//! The application state and its transition function.

use std::collections::VecDeque;
use vstd::prelude::*;
use crate::config::{WeatherConfig, WeatherConfigView};
use crate::context::ContextPage;
use crate::dialog::{DialogPage, DialogPageView};
use crate::key_bind::{Action, KeyBindView, KeyBinds, Modifiers};
use crate::message::{
    opt_message_view, spec_subscription, Effect, EffectView, Event, Message, MessageView,
};
use crate::nav::{NavModel, NavModelView, NavPage};

verus! {

/// What the application is started with.
#[derive(Debug)]
pub struct Flags {
    /// The settings as loaded from the configuration store.
    pub config: WeatherConfig,
    /// The key-binding table, fixed for the lifetime of the application.
    pub key_binds: KeyBinds,
}

/// The whole mutable state of the application. `W` is the weather snapshot.
#[derive(Debug)]
pub struct App<W> {
    nav_model: NavModel,
    key_binds: KeyBinds,
    modifiers: Modifiers,
    context_page: ContextPage,
    show_context: bool,
    config: WeatherConfig,
    weather_data: W,
    dialog_pages: VecDeque<DialogPage>,
}

/// Mathematical model of [`App`].
pub struct AppView<W> {
    /// The pages and which of them is shown.
    pub nav_model: NavModelView,
    /// The key-binding table.
    pub key_binds: Map<KeyBindView, Action>,
    /// The modifiers currently held.
    pub modifiers: Modifiers,
    /// The side panel that is selected.
    pub context_page: ContextPage,
    /// Whether the selected side panel is visible.
    pub show_context: bool,
    /// The settings.
    pub config: WeatherConfigView,
    /// The weather snapshot last received.
    pub weather_data: W,
    /// The pending dialogs; the first one is the one on screen.
    pub dialog_pages: Seq<DialogPageView>,
}

/// The outcome of one transition: the next state and the effects it asks for.
pub struct Step<W> {
    pub state: AppView<W>,
    pub effects: Seq<EffectView>,
}

/// The name that is looked up when the settings name no place.
pub open spec fn fallback_place() -> Seq<char> {
    "Denver"@
}

/// The navigation model at startup: one entry per page, in order, with the
/// hourly forecast active.
pub open spec fn initial_nav_model() -> NavModelView {
    NavModelView {
        items: seq![
            NavPage::HourlyView.spec_item(),
            NavPage::DailyView.spec_item(),
            NavPage::Details.spec_item(),
        ],
        active: Some(0),
    }
}

impl WeatherConfigView {
    /// The weather request for the stored coordinates, if both are stored.
    pub open spec fn fetch_request(self) -> Option<EffectView> {
        match (self.latitude, self.longitude) {
            (Some(latitude), Some(longitude)) => Some(
                EffectView::FetchWeather { latitude, longitude },
            ),
            _ => None,
        }
    }

    /// The effects that startup asks for: a lookup of the fallback place
    /// when no place is stored, then the weather request for the stored
    /// coordinates, if both are stored.
    pub open spec fn startup_effects(self) -> Seq<EffectView> {
        let lookup = if self.location is None {
            seq![EffectView::ResolveLocation(fallback_place())]
        } else {
            Seq::empty()
        };
        match self.fetch_request() {
            Some(request) => lookup.push(request),
            None => lookup,
        }
    }
}

/// A queue without its first element; the empty queue stays empty.
pub open spec fn without_front<T>(queue: Seq<T>) -> Seq<T> {
    if queue.len() > 0 {
        queue.drop_first()
    } else {
        queue
    }
}

/// A queue with its first element replaced; the empty queue stays empty.
pub open spec fn with_front<T>(queue: Seq<T>, front: T) -> Seq<T> {
    if queue.len() > 0 {
        queue.update(0, front)
    } else {
        queue
    }
}

impl<W> AppView<W> {
    /// The state at startup.
    pub open spec fn initial(
        config: WeatherConfigView,
        key_binds: Map<KeyBindView, Action>,
        weather_data: W,
    ) -> AppView<W> {
        AppView {
            nav_model: initial_nav_model(),
            key_binds,
            modifiers: Modifiers { shift: false, control: false, alt: false, logo: false },
            context_page: ContextPage::Settings,
            show_context: false,
            config,
            weather_data,
            dialog_pages: Seq::empty(),
        }
    }

    /// What startup establishes and every transition keeps: exactly one
    /// page is active.
    pub open spec fn wf(self) -> bool {
        self.nav_model.one_active()
    }

    /// The message that a message stands for: a key press stands for the
    /// message of the action bound to it, or for nothing when it is not
    /// bound; every other message stands for itself.
    pub open spec fn resolve(self, message: MessageView<W>) -> Option<MessageView<W>> {
        match message {
            MessageView::Key(modifiers, key) => match self.key_binds.get(
                KeyBindView { modifiers, key },
            ) {
                Some(action) => Some(action.spec_message()),
                None => None,
            },
            _ => Some(message),
        }
    }

    /// The state after a request to show the side panel `page`: asking for
    /// the selected panel flips its visibility, asking for the other one
    /// selects it and makes it visible.
    pub open spec fn toggle_context_page(self, page: ContextPage) -> AppView<W> {
        if self.context_page == page {
            AppView { show_context: !self.show_context, ..self }
        } else {
            AppView { context_page: page, show_context: true, ..self }
        }
    }

    /// The state with other settings.
    pub open spec fn with_config(self, config: WeatherConfigView) -> AppView<W> {
        AppView { config, ..self }
    }

    /// The state with other pending dialogs.
    pub open spec fn with_dialog_pages(self, dialog_pages: Seq<DialogPageView>) -> AppView<W> {
        AppView { dialog_pages, ..self }
    }

    /// The transition for a message that is no key press; a key press, which
    /// has to be resolved first, changes nothing here.
    pub open spec fn apply(self, message: MessageView<W>) -> Step<W> {
        match message {
            MessageView::ChangeCity => Step {
                state: self.with_dialog_pages(
                    self.dialog_pages.push(DialogPageView::Change(Seq::empty())),
                ),
                effects: Seq::empty(),
            },
            MessageView::Quit => Step { state: self, effects: seq![EffectView::Quit] },
            MessageView::SystemThemeModeChange => Step {
                state: self,
                effects: seq![
                    EffectView::PersistTheme(self.config.app_theme),
                    EffectView::PersistConfig(self.config),
                ],
            },
            MessageView::ToggleContextPage(page) => Step {
                state: self.toggle_context_page(page),
                effects: Seq::empty(),
            },
            MessageView::LaunchUrl(url) => Step {
                state: self,
                effects: seq![EffectView::OpenUrl(url)],
            },
            MessageView::Key(_, _) => Step { state: self, effects: Seq::empty() },
            MessageView::Modifiers(modifiers) => Step {
                state: AppView { modifiers, ..self },
                effects: Seq::empty(),
            },
            MessageView::Config(config) => Step {
                state: self.with_config(config),
                effects: Seq::empty(),
            },
            MessageView::Units(units) => {
                let config = WeatherConfigView { units, ..self.config };
                Step {
                    state: self.with_config(config),
                    effects: seq![EffectView::PersistConfig(config)],
                }
            },
            MessageView::TimeFmt(timefmt) => {
                let config = WeatherConfigView { timefmt, ..self.config };
                Step {
                    state: self.with_config(config),
                    effects: seq![EffectView::PersistConfig(config)],
                }
            },
            MessageView::AppTheme(app_theme) => {
                let config = WeatherConfigView { app_theme, ..self.config };
                Step {
                    state: self.with_config(config),
                    effects: seq![
                        EffectView::PersistConfig(config),
                        EffectView::PersistTheme(app_theme),
                    ],
                }
            },
            MessageView::DialogComplete(city) => Step {
                state: self.with_dialog_pages(without_front(self.dialog_pages)),
                effects: seq![
                    EffectView::ResolveLocation(city),
                    EffectView::PersistConfig(self.config),
                ],
            },
            MessageView::DialogCancel => Step {
                state: self.with_dialog_pages(without_front(self.dialog_pages)),
                effects: Seq::empty(),
            },
            MessageView::DialogUpdate(page) => Step {
                state: self.with_dialog_pages(with_front(self.dialog_pages, page)),
                effects: Seq::empty(),
            },
            MessageView::SetLocation(location) => {
                let config = WeatherConfigView {
                    location: Some(location.display_name),
                    latitude: Some(location.lat),
                    longitude: Some(location.lon),
                    ..self.config
                };
                Step {
                    state: self.with_config(config),
                    effects: seq![
                        EffectView::PersistConfig(config),
                        EffectView::FetchWeather {
                            latitude: location.lat,
                            longitude: location.lon,
                        },
                    ],
                }
            },
            MessageView::SetWeatherData(weather_data) => Step {
                state: AppView { weather_data, ..self },
                effects: Seq::empty(),
            },
            MessageView::Error(_) => Step { state: self, effects: Seq::empty() },
        }
    }

    /// The transition: the message is resolved, and what it stands for is
    /// applied once; an unbound key press changes nothing.
    pub open spec fn step(self, message: MessageView<W>) -> Step<W> {
        match self.resolve(message) {
            Some(resolved) => self.apply(resolved),
            None => Step { state: self, effects: Seq::empty() },
        }
    }

    /// The state after a request to show the page at `id`.
    pub open spec fn nav_select(self, id: nat) -> AppView<W> {
        AppView { nav_model: self.nav_model.activate(id), ..self }
    }
}

impl<W> View for App<W> {
    type V = AppView<W>;

    closed spec fn view(&self) -> AppView<W> {
        AppView {
            nav_model: self.nav_model@,
            key_binds: self.key_binds@,
            modifiers: self.modifiers,
            context_page: self.context_page,
            show_context: self.show_context,
            config: self.config@,
            weather_data: self.weather_data,
            dialog_pages: self.dialog_pages.deep_view(),
        }
    }
}

impl<W> App<W> {
    /// Starts the application: builds the initial state and says which
    /// effects to run first.
    pub fn init(flags: Flags) -> (started: (App<W>, Vec<Effect>)) where W: Default
        ensures
            started.0@ == AppView::initial(
                flags.config@,
                flags.key_binds@,
                started.0@.weather_data,
            ),
            call_ensures(W::default, (), started.0@.weather_data),
            started.1.deep_view() == flags.config@.startup_effects(),
            started.0@.wf(),
    {
        let mut nav_model = NavModel::new();
        let pages = NavPage::all();
        let mut i: usize = 0;
        while i < pages.len()
            invariant
                i <= 3,
                pages@ == NavPage::spec_all(),
                nav_model@.items == Seq::new(i as nat, |j: int| NavPage::spec_all()[j].spec_item()),
                nav_model@.active == if i > 0 {
                    Some(0nat)
                } else {
                    None
                },
            decreases pages.len() - i,
        {
            let nav_page = pages[i];
            let id = nav_model.insert(nav_page.item());
            if nav_page == NavPage::HourlyView {
                nav_model.activate(id);
            }
            i = i + 1;
            assert(nav_model@.items =~= Seq::new(
                i as nat,
                |j: int| NavPage::spec_all()[j].spec_item(),
            ));
        }
        assert(nav_model@.items =~= initial_nav_model().items);

        let mut effects: Vec<Effect> = Vec::new();
        let app = App {
            nav_model,
            key_binds: flags.key_binds,
            modifiers: Modifiers::empty(),
            context_page: ContextPage::Settings,
            show_context: false,
            config: flags.config,
            weather_data: W::default(),
            dialog_pages: VecDeque::new(),
        };
        if app.config.location.is_none() {
            effects.push(Effect::ResolveLocation("Denver".to_string()));
        }
        match app.update_weather_data() {
            Some(request) => {
                effects.push(request);
            },
            None => {},
        }
        proof {
            assert(app.dialog_pages.deep_view() =~= Seq::<DialogPageView>::empty());
            assert(effects.deep_view() =~= flags.config@.startup_effects());
            assert(app@.nav_model.is_active(0));
        }
        (app, effects)
    }

    /// The effect that writes the current settings to the configuration store.
    pub fn save_config(&self) -> (effect: Effect)
        ensures
            effect@ == EffectView::PersistConfig(self@.config),
    {
        Effect::PersistConfig(self.config.clone())
    }

    /// The effect that makes the theme of the settings the application's theme.
    pub fn save_theme(&self) -> (effect: Effect)
        ensures
            effect@ == EffectView::PersistTheme(self@.config.app_theme),
    {
        Effect::PersistTheme(self.config.app_theme)
    }

    /// The weather request for the stored coordinates, if both are stored.
    pub fn update_weather_data(&self) -> (request: Option<Effect>)
        ensures
            request.deep_view() == self@.config.fetch_request(),
    {
        match (&self.config.latitude, &self.config.longitude) {
            (Some(latitude), Some(longitude)) => Some(
                Effect::FetchWeather { latitude: latitude.clone(), longitude: longitude.clone() },
            ),
            _ => None,
        }
    }

    /// Shows the page at `id`; an `id` that names no page changes nothing.
    /// No effect follows.
    pub fn on_nav_select(&mut self, id: usize) -> (effects: Vec<Effect>)
        ensures
            final(self)@ == old(self)@.nav_select(id as nat),
            old(self)@.wf() ==> final(self)@.wf(),
            effects.deep_view() == Seq::<EffectView>::empty(),
    {
        self.nav_model.activate(id);
        assert(id < old(self).nav_model@.items.len() ==> self.nav_model@.is_active(id as nat));
        let effects: Vec<Effect> = Vec::new();
        assert(effects.deep_view() =~= Seq::<EffectView>::empty());
        effects
    }
}

impl<W> App<W> {
    /// The message that a message stands for: a key press stands for the
    /// message of the action bound to it, or for nothing when it is not
    /// bound; every other message stands for itself.
    pub fn resolve(&self, message: Message<W>) -> (resolved: Option<Message<W>>)
        ensures
            opt_message_view(resolved) == self@.resolve(message@),
    {
        match message {
            Message::Key(modifiers, key) => match self.key_binds.lookup(modifiers, &key) {
                Some(action) => Some(action.message()),
                None => None,
            },
            other => Some(other),
        }
    }

    /// Removes the dialog on screen, if there is one, and so reveals the next.
    fn close_dialog(&mut self)
        ensures
            final(self)@ == old(self)@.with_dialog_pages(without_front(old(self)@.dialog_pages)),
    {
        let _ = self.dialog_pages.pop_front();
        assert(self.dialog_pages.deep_view() =~= without_front(old(self).dialog_pages.deep_view()));
    }

    /// The transition for a message that is no key press.
    fn apply(&mut self, message: Message<W>) -> (effects: Vec<Effect>)
        ensures
            final(self)@ == old(self)@.apply(message@).state,
            effects.deep_view() == old(self)@.apply(message@).effects,
    {
        let mut effects: Vec<Effect> = Vec::new();
        match message {
            Message::ChangeCity => {
                self.dialog_pages.push_back(DialogPage::Change(String::new()));
                assert(self.dialog_pages.deep_view() =~= old(self).dialog_pages.deep_view().push(
                    DialogPageView::Change(Seq::empty()),
                ));
            },
            Message::Quit => {
                effects.push(Effect::Quit);
            },
            Message::ToggleContextPage(context_page) => {
                if self.context_page == context_page {
                    self.show_context = !self.show_context;
                } else {
                    self.context_page = context_page;
                    self.show_context = true;
                }
            },
            Message::LaunchUrl(url) => {
                effects.push(Effect::OpenUrl(url));
            },
            Message::Key(_, _) => {},
            Message::Modifiers(modifiers) => {
                self.modifiers = modifiers;
            },
            Message::Config(config) => {
                if config != self.config {
                    self.config = config;
                }
            },
            Message::Units(units) => {
                self.config.units = units;
                effects.push(self.save_config());
            },
            Message::TimeFmt(timefmt) => {
                self.config.timefmt = timefmt;
                effects.push(self.save_config());
            },
            Message::AppTheme(theme) => {
                self.config.app_theme = theme;
                effects.push(self.save_config());
                effects.push(self.save_theme());
            },
            Message::DialogComplete(city) => {
                effects.push(Effect::ResolveLocation(city));
                effects.push(self.save_config());
                self.close_dialog();
            },
            Message::DialogCancel => {
                self.close_dialog();
            },
            Message::DialogUpdate(dialog_page) => {
                if self.dialog_pages.len() > 0 {
                    let _ = self.dialog_pages.pop_front();
                    self.dialog_pages.push_front(dialog_page);
                    assert(self.dialog_pages.deep_view() =~= with_front(
                        old(self).dialog_pages.deep_view(),
                        dialog_page@,
                    ));
                }
            },
            Message::SetLocation(location) => {
                self.config.location = Some(location.display_name);
                self.config.latitude = Some(location.lat);
                self.config.longitude = Some(location.lon);
                effects.push(self.save_config());
                match self.update_weather_data() {
                    Some(request) => {
                        effects.push(request);
                    },
                    None => {},
                }
            },
            Message::SetWeatherData(data) => {
                self.weather_data = data;
            },
            Message::Error(_) => {},
            Message::SystemThemeModeChange => {
                effects.push(self.save_theme());
                effects.push(self.save_config());
            },
        }
        assert(effects.deep_view() =~= old(self)@.apply(message@).effects);
        effects
    }

    /// The transition function: takes the state from before a message to
    /// after it and returns the effects that the message asks for, in the
    /// order in which they were queued.
    pub fn update(&mut self, message: Message<W>) -> (effects: Vec<Effect>)
        ensures
            final(self)@ == old(self)@.step(message@).state,
            effects.deep_view() == old(self)@.step(message@).effects,
            old(self)@.wf() ==> final(self)@.wf(),
    {
        match self.resolve(message) {
            Some(resolved) => self.apply(resolved),
            None => {
                let effects: Vec<Effect> = Vec::new();
                assert(effects.deep_view() =~= Seq::<EffectView>::empty());
                effects
            },
        }
    }
}

impl<W> App<W> {
    /// The message that an event of the window system or of the
    /// configuration store gives rise to, if any.
    pub fn subscription(event: Event) -> (m: Option<Message<W>>)
        ensures
            opt_message_view(m) == spec_subscription::<W>(event@),
    {
        match event {
            Event::KeyPressed { key, modifiers, captured } => {
                if captured {
                    None
                } else {
                    Some(Message::Key(modifiers, key))
                }
            },
            Event::ModifiersChanged(modifiers) => Some(Message::Modifiers(modifiers)),
            Event::ConfigUpdated => Some(Message::SystemThemeModeChange),
            Event::ThemeModeUpdated => Some(Message::SystemThemeModeChange),
            Event::Other => None,
        }
    }
}

impl<W> App<W> {
    /// The pages and which of them is shown.
    pub fn nav_model(&self) -> (model: &NavModel)
        ensures
            model@ == self@.nav_model,
    {
        &self.nav_model
    }

    /// The key-binding table.
    pub fn key_binds(&self) -> (table: &KeyBinds)
        ensures
            table@ == self@.key_binds,
    {
        &self.key_binds
    }

    /// The modifiers currently held.
    pub fn modifiers(&self) -> (modifiers: Modifiers)
        ensures
            modifiers == self@.modifiers,
    {
        self.modifiers
    }

    /// The side panel that is selected.
    pub fn context_page(&self) -> (page: ContextPage)
        ensures
            page == self@.context_page,
    {
        self.context_page
    }

    /// Whether the selected side panel is visible.
    pub fn show_context(&self) -> (visible: bool)
        ensures
            visible == self@.show_context,
    {
        self.show_context
    }

    /// Records that the host showed or hid the side panel on its own.
    pub fn set_show_context(&mut self, visible: bool)
        ensures
            final(self)@ == (AppView { show_context: visible, ..old(self)@ }),
    {
        self.show_context = visible;
    }

    /// The settings.
    pub fn config(&self) -> (config: &WeatherConfig)
        ensures
            config@ == self@.config,
    {
        &self.config
    }

    /// The weather snapshot last received.
    pub fn weather_data(&self) -> (data: &W)
        ensures
            *data == self@.weather_data,
    {
        &self.weather_data
    }

    /// The pending dialogs; the first one is the one on screen.
    pub fn dialog_pages(&self) -> (queue: &VecDeque<DialogPage>)
        ensures
            queue.deep_view() == self@.dialog_pages,
    {
        &self.dialog_pages
    }
}

} // verus!
