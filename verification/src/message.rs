//! Messages that drive the controller, the effects it asks for, and the
//! mapping from the outcome of an effect to the message that follows it.

use vstd::prelude::*;
use vstd::string::*;
use crate::config::{AppTheme, TimeFmt, Units, WeatherConfig, WeatherConfigView};
use crate::context::ContextPage;
use crate::dialog::{DialogPage, DialogPageView};
use crate::key_bind::{Action, Key, KeyView, Modifiers};
use crate::location::{Location, LocationView};

verus! {

/// Something that happened: a user action, the result of an effect, or a
/// notification from the system. `W` is the weather snapshot, which the
/// controller stores and hands out but never looks into.
#[derive(Debug)]
pub enum Message<W> {
    ChangeCity,
    Quit,
    SystemThemeModeChange,
    ToggleContextPage(ContextPage),
    LaunchUrl(String),
    Key(Modifiers, Key),
    Modifiers(Modifiers),
    Config(WeatherConfig),
    Units(Units),
    TimeFmt(TimeFmt),
    AppTheme(AppTheme),
    DialogComplete(String),
    DialogCancel,
    DialogUpdate(DialogPage),
    SetLocation(Location),
    SetWeatherData(W),
    Error(String),
}

/// Mathematical model of [`Message`].
pub enum MessageView<W> {
    ChangeCity,
    Quit,
    SystemThemeModeChange,
    ToggleContextPage(ContextPage),
    LaunchUrl(Seq<char>),
    Key(Modifiers, KeyView),
    Modifiers(Modifiers),
    Config(WeatherConfigView),
    Units(Units),
    TimeFmt(TimeFmt),
    AppTheme(AppTheme),
    DialogComplete(Seq<char>),
    DialogCancel,
    DialogUpdate(DialogPageView),
    SetLocation(LocationView),
    SetWeatherData(W),
    Error(Seq<char>),
}

impl<W> View for Message<W> {
    type V = MessageView<W>;

    open spec fn view(&self) -> MessageView<W> {
        match self {
            Message::ChangeCity => MessageView::ChangeCity,
            Message::Quit => MessageView::Quit,
            Message::SystemThemeModeChange => MessageView::SystemThemeModeChange,
            Message::ToggleContextPage(page) => MessageView::ToggleContextPage(*page),
            Message::LaunchUrl(url) => MessageView::LaunchUrl(url@),
            Message::Key(modifiers, key) => MessageView::Key(*modifiers, key@),
            Message::Modifiers(modifiers) => MessageView::Modifiers(*modifiers),
            Message::Config(config) => MessageView::Config(config@),
            Message::Units(units) => MessageView::Units(*units),
            Message::TimeFmt(timefmt) => MessageView::TimeFmt(*timefmt),
            Message::AppTheme(theme) => MessageView::AppTheme(*theme),
            Message::DialogComplete(city) => MessageView::DialogComplete(city@),
            Message::DialogCancel => MessageView::DialogCancel,
            Message::DialogUpdate(page) => MessageView::DialogUpdate(page@),
            Message::SetLocation(location) => MessageView::SetLocation(location@),
            Message::SetWeatherData(data) => MessageView::SetWeatherData(*data),
            Message::Error(reason) => MessageView::Error(reason@),
        }
    }
}

impl<W: Clone> Clone for Message<W> {
    /// A copy that reads the same; the snapshot inside is copied as `W`
    /// copies itself.
    fn clone(&self) -> (r: Self)
        ensures
            match (*self, r) {
                (Message::SetWeatherData(data), Message::SetWeatherData(copy)) => cloned::<W>(
                    data,
                    copy,
                ),
                _ => r@ == self@,
            },
    {
        match self {
            Message::ChangeCity => Message::ChangeCity,
            Message::Quit => Message::Quit,
            Message::SystemThemeModeChange => Message::SystemThemeModeChange,
            Message::ToggleContextPage(page) => Message::ToggleContextPage(*page),
            Message::LaunchUrl(url) => Message::LaunchUrl(url.clone()),
            Message::Key(modifiers, key) => Message::Key(*modifiers, key.clone()),
            Message::Modifiers(modifiers) => Message::Modifiers(*modifiers),
            Message::Config(config) => Message::Config(config.clone()),
            Message::Units(units) => Message::Units(*units),
            Message::TimeFmt(timefmt) => Message::TimeFmt(*timefmt),
            Message::AppTheme(theme) => Message::AppTheme(*theme),
            Message::DialogComplete(city) => Message::DialogComplete(city.clone()),
            Message::DialogCancel => Message::DialogCancel,
            Message::DialogUpdate(page) => Message::DialogUpdate(page.clone()),
            Message::SetLocation(location) => Message::SetLocation(location.clone()),
            Message::SetWeatherData(data) => Message::SetWeatherData(data.clone()),
            Message::Error(reason) => Message::Error(reason.clone()),
        }
    }
}

/// An operation that the controller asks its host to carry out.
#[derive(Debug)]
pub enum Effect {
    /// Ask the location resolver for the places that a name may mean.
    ResolveLocation(String),
    /// Ask the weather provider for the weather at these coordinates.
    FetchWeather { latitude: String, longitude: String },
    /// Write this settings record to the configuration store.
    PersistConfig(WeatherConfig),
    /// Make this theme the application's theme.
    PersistTheme(AppTheme),
    /// Open an address with the system's default program.
    OpenUrl(String),
    /// Close the main window, which ends the application.
    Quit,
}

/// Mathematical model of [`Effect`].
pub enum EffectView {
    ResolveLocation(Seq<char>),
    FetchWeather { latitude: Seq<char>, longitude: Seq<char> },
    PersistConfig(WeatherConfigView),
    PersistTheme(AppTheme),
    OpenUrl(Seq<char>),
    Quit,
}

impl View for Effect {
    type V = EffectView;

    open spec fn view(&self) -> EffectView {
        match self {
            Effect::ResolveLocation(name) => EffectView::ResolveLocation(name@),
            Effect::FetchWeather { latitude, longitude } => EffectView::FetchWeather {
                latitude: latitude@,
                longitude: longitude@,
            },
            Effect::PersistConfig(config) => EffectView::PersistConfig(config@),
            Effect::PersistTheme(theme) => EffectView::PersistTheme(*theme),
            Effect::OpenUrl(url) => EffectView::OpenUrl(url@),
            Effect::Quit => EffectView::Quit,
        }
    }
}

impl DeepView for Effect {
    type V = EffectView;

    open spec fn deep_view(&self) -> EffectView {
        self@
    }
}

impl Clone for Effect {
    fn clone(&self) -> (r: Self)
        ensures
            r@ == self@,
    {
        match self {
            Effect::ResolveLocation(name) => Effect::ResolveLocation(name.clone()),
            Effect::FetchWeather { latitude, longitude } => Effect::FetchWeather {
                latitude: latitude.clone(),
                longitude: longitude.clone(),
            },
            Effect::PersistConfig(config) => Effect::PersistConfig(config.clone()),
            Effect::PersistTheme(theme) => Effect::PersistTheme(*theme),
            Effect::OpenUrl(url) => Effect::OpenUrl(url.clone()),
            Effect::Quit => Effect::Quit,
        }
    }
}

impl PartialEq for Effect {
    fn eq(&self, other: &Self) -> (r: bool) {
        match (self, other) {
            (Effect::ResolveLocation(a), Effect::ResolveLocation(b)) => *a == *b,
            (
                Effect::FetchWeather { latitude: a, longitude: b },
                Effect::FetchWeather { latitude: c, longitude: d },
            ) => *a == *c && *b == *d,
            (Effect::PersistConfig(a), Effect::PersistConfig(b)) => *a == *b,
            (Effect::PersistTheme(a), Effect::PersistTheme(b)) => *a == *b,
            (Effect::OpenUrl(a), Effect::OpenUrl(b)) => *a == *b,
            (Effect::Quit, Effect::Quit) => true,
            _ => false,
        }
    }
}

impl vstd::std_specs::cmp::PartialEqSpecImpl for Effect {
    open spec fn obeys_eq_spec() -> bool {
        true
    }

    open spec fn eq_spec(&self, other: &Self) -> bool {
        self@ == other@
    }
}

impl Eq for Effect {}

/// An event of the window system or of the configuration store.
#[derive(Debug)]
pub enum Event {
    /// A key went down; `captured` tells whether a widget already used it.
    KeyPressed { key: Key, modifiers: Modifiers, captured: bool },
    /// The set of held modifiers changed.
    ModifiersChanged(Modifiers),
    /// The stored settings record changed.
    ConfigUpdated,
    /// The system switched between its light and dark mode.
    ThemeModeUpdated,
    /// Anything else.
    Other,
}

/// Mathematical model of [`Event`].
pub enum EventView {
    KeyPressed { key: KeyView, modifiers: Modifiers, captured: bool },
    ModifiersChanged(Modifiers),
    ConfigUpdated,
    ThemeModeUpdated,
    Other,
}

impl View for Event {
    type V = EventView;

    open spec fn view(&self) -> EventView {
        match self {
            Event::KeyPressed { key, modifiers, captured } => EventView::KeyPressed {
                key: key@,
                modifiers: *modifiers,
                captured: *captured,
            },
            Event::ModifiersChanged(modifiers) => EventView::ModifiersChanged(*modifiers),
            Event::ConfigUpdated => EventView::ConfigUpdated,
            Event::ThemeModeUpdated => EventView::ThemeModeUpdated,
            Event::Other => EventView::Other,
        }
    }
}

impl Clone for Event {
    fn clone(&self) -> (r: Self)
        ensures
            r@ == self@,
    {
        match self {
            Event::KeyPressed { key, modifiers, captured } => Event::KeyPressed {
                key: key.clone(),
                modifiers: *modifiers,
                captured: *captured,
            },
            Event::ModifiersChanged(modifiers) => Event::ModifiersChanged(*modifiers),
            Event::ConfigUpdated => Event::ConfigUpdated,
            Event::ThemeModeUpdated => Event::ThemeModeUpdated,
            Event::Other => Event::Other,
        }
    }
}

impl Action {
    /// The message that carries out the action.
    pub open spec fn spec_message<W>(self) -> MessageView<W> {
        match self {
            Action::About => MessageView::ToggleContextPage(ContextPage::About),
            Action::Settings => MessageView::ToggleContextPage(ContextPage::Settings),
            Action::ChangeCity => MessageView::ChangeCity,
            Action::Quit => MessageView::Quit,
        }
    }

    /// The message that carries out the action.
    pub fn message<W>(&self) -> (m: Message<W>)
        ensures
            m@ == self.spec_message::<W>(),
    {
        match self {
            Action::About => Message::ToggleContextPage(ContextPage::About),
            Action::Settings => Message::ToggleContextPage(ContextPage::Settings),
            Action::ChangeCity => Message::ChangeCity,
            Action::Quit => Message::Quit,
        }
    }
}

/// The message that follows a location lookup: the first candidate on
/// success, a fixed complaint when there is no candidate, and the reason
/// when the lookup failed.
pub open spec fn location_follow_up<W>(
    outcome: Result<Seq<LocationView>, Seq<char>>,
) -> MessageView<W> {
    match outcome {
        Ok(candidates) => if candidates.len() > 0 {
            MessageView::SetLocation(candidates[0])
        } else {
            MessageView::Error("Could not get location data."@)
        },
        Err(reason) => MessageView::Error(reason),
    }
}

/// The message that follows a weather request: the snapshot on success, a
/// fixed complaint when the provider has none, and the reason when the
/// request failed.
pub open spec fn weather_follow_up<W>(outcome: Result<Option<W>, Seq<char>>) -> MessageView<W> {
    match outcome {
        Ok(Some(data)) => MessageView::SetWeatherData(data),
        Ok(None) => MessageView::Error("Could not get weather data."@),
        Err(reason) => MessageView::Error(reason),
    }
}

/// The line that a message puts on the error stream, if it puts one there.
pub open spec fn spec_notice<W>(m: MessageView<W>) -> Option<Seq<char>> {
    match m {
        MessageView::Error(reason) => Some("Error: "@ + reason),
        _ => None,
    }
}

/// The message that an event gives rise to, if any: key presses that no
/// widget captured, modifier changes, and changes of the stored settings or
/// of the system's theme mode.
pub open spec fn spec_subscription<W>(event: EventView) -> Option<MessageView<W>> {
    match event {
        EventView::KeyPressed { key, modifiers, captured } => if captured {
            None
        } else {
            Some(MessageView::Key(modifiers, key))
        },
        EventView::ModifiersChanged(modifiers) => Some(MessageView::Modifiers(modifiers)),
        EventView::ConfigUpdated => Some(MessageView::SystemThemeModeChange),
        EventView::ThemeModeUpdated => Some(MessageView::SystemThemeModeChange),
        EventView::Other => None,
    }
}

/// The view of an optional message.
pub open spec fn opt_message_view<W>(m: Option<Message<W>>) -> Option<MessageView<W>> {
    match m {
        Some(message) => Some(message@),
        None => None,
    }
}

impl<W> Message<W> {
    /// The message that follows a location lookup.
    pub fn from_location_data(outcome: Result<Vec<Location>, String>) -> (m: Message<W>)
        ensures
            m@ == location_follow_up::<W>(
                match outcome {
                    Ok(candidates) => Ok(candidates.deep_view()),
                    Err(reason) => Err(reason@),
                },
            ),
    {
        match outcome {
            Ok(candidates) => {
                if candidates.len() > 0 {
                    Message::SetLocation(candidates[0].clone())
                } else {
                    Message::Error("Could not get location data.".to_string())
                }
            },
            Err(reason) => Message::Error(reason),
        }
    }

    /// The message that follows a weather request.
    pub fn from_weather_data(outcome: Result<Option<W>, String>) -> (m: Message<W>)
        ensures
            m@ == weather_follow_up::<W>(
                match outcome {
                    Ok(data) => Ok(data),
                    Err(reason) => Err(reason@),
                },
            ),
    {
        match outcome {
            Ok(Some(data)) => Message::SetWeatherData(data),
            Ok(None) => Message::Error("Could not get weather data.".to_string()),
            Err(reason) => Message::Error(reason),
        }
    }

    /// The line that handling this message puts on the error stream, if it
    /// puts one there.
    pub fn notice(&self) -> (line: Option<String>)
        ensures
            crate::text::opt_text(line) == spec_notice(self@),
    {
        match self {
            Message::Error(reason) => Some("Error: ".to_string().concat(reason.as_str())),
            _ => None,
        }
    }
}

} // verus!
