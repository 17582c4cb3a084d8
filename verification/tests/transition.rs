use cosmic_ext_weather::config::{AppTheme, TimeFmt, Units, WeatherConfig};
use cosmic_ext_weather::context::ContextPage;
use cosmic_ext_weather::controller::{App, Flags};
use cosmic_ext_weather::dialog::DialogPage;
use cosmic_ext_weather::key_bind::{Action, Key, KeyBind, KeyBinds, Modifiers};
use cosmic_ext_weather::location::Location;
use cosmic_ext_weather::message::{Effect, Event, Message};
use cosmic_ext_weather::nav::NavPage;

#[derive(Clone, Debug, Default, PartialEq)]
struct Snapshot {
    temperature: f64,
    hourly: Vec<f64>,
    daily: Vec<f64>,
}

fn ctrl() -> Modifiers {
    Modifiers { shift: false, control: true, alt: false, logo: false }
}

fn character(text: &str) -> Key {
    Key::Character(text.to_string())
}

fn table() -> KeyBinds {
    let mut table = KeyBinds::new();
    table.insert(KeyBind { modifiers: ctrl(), key: character("i") }, Action::About);
    table.insert(KeyBind { modifiers: ctrl(), key: character(",") }, Action::Settings);
    table.insert(KeyBind { modifiers: ctrl(), key: character("l") }, Action::ChangeCity);
    table.insert(KeyBind { modifiers: ctrl(), key: character("q") }, Action::Quit);
    table
}

fn empty_config() -> WeatherConfig {
    WeatherConfig {
        location: None,
        latitude: None,
        longitude: None,
        units: Units::Fahrenheit,
        timefmt: TimeFmt::TwelveHr,
        app_theme: AppTheme::System,
    }
}

fn paris_config() -> WeatherConfig {
    WeatherConfig {
        location: Some("Paris, France".to_string()),
        latitude: Some("48.85".to_string()),
        longitude: Some("2.35".to_string()),
        units: Units::Celsius,
        timefmt: TimeFmt::TwentyFourHr,
        app_theme: AppTheme::Dark,
    }
}

fn start(config: WeatherConfig) -> (App<Snapshot>, Vec<Effect>) {
    App::init(Flags { config, key_binds: table() })
}

fn started(config: WeatherConfig) -> App<Snapshot> {
    start(config).0
}

fn denver() -> Location {
    Location {
        display_name: "Denver, CO".to_string(),
        lat: "39.74".to_string(),
        lon: "-104.99".to_string(),
    }
}

fn queue(app: &App<Snapshot>) -> Vec<DialogPage> {
    app.dialog_pages().iter().cloned().collect()
}

fn change(city: &str) -> DialogPage {
    DialogPage::Change(city.to_string())
}

#[test]
fn init_builds_the_initial_state() {
    let (app, _) = start(paris_config());
    assert_eq!(app.nav_model().len(), 3);
    assert_eq!(app.nav_model().active_data(), Some(NavPage::HourlyView));
    assert!(app.nav_model().is_active(0));
    assert!(!app.nav_model().is_active(1));
    assert!(!app.nav_model().is_active(2));
    assert_eq!(app.nav_model().get(0).unwrap().page, NavPage::HourlyView);
    assert_eq!(app.nav_model().get(1).unwrap().page, NavPage::DailyView);
    assert_eq!(app.nav_model().get(2).unwrap().page, NavPage::Details);
    assert_eq!(app.nav_model().get(1).unwrap().text, "daily-forecast");
    assert_eq!(app.nav_model().get(2).unwrap().icon.name, "view-detail");
    assert_eq!(app.modifiers(), Modifiers::empty());
    assert_eq!(app.context_page(), ContextPage::Settings);
    assert!(!app.show_context());
    assert_eq!(*app.config(), paris_config());
    assert_eq!(*app.weather_data(), Snapshot::default());
    assert!(app.dialog_pages().is_empty());
    assert_eq!(app.key_binds().lookup(ctrl(), &character("q")), Some(Action::Quit));
}

#[test]
fn init_without_location_looks_up_denver() {
    let (_, effects) = start(empty_config());
    assert_eq!(effects, vec![Effect::ResolveLocation("Denver".to_string())]);
}

#[test]
fn init_with_location_and_coordinates_fetches_weather() {
    let (_, effects) = start(paris_config());
    assert_eq!(
        effects,
        vec![Effect::FetchWeather { latitude: "48.85".to_string(), longitude: "2.35".to_string() }]
    );
}

#[test]
fn init_with_coordinates_but_no_location_does_both() {
    let mut config = paris_config();
    config.location = None;
    let (_, effects) = start(config);
    assert_eq!(
        effects,
        vec![
            Effect::ResolveLocation("Denver".to_string()),
            Effect::FetchWeather { latitude: "48.85".to_string(), longitude: "2.35".to_string() },
        ]
    );
}

#[test]
fn init_with_one_coordinate_missing_fetches_nothing() {
    let mut config = paris_config();
    config.longitude = None;
    let (_, effects) = start(config);
    assert!(effects.is_empty());
}

#[test]
fn scenario_startup_resolves_denver_then_fetches_weather() {
    let (mut app, effects) = start(empty_config());
    assert_eq!(effects, vec![Effect::ResolveLocation("Denver".to_string())]);

    let resolved: Message<Snapshot> = Message::from_location_data(Ok(vec![denver()]));
    assert!(matches!(&resolved, Message::SetLocation(location) if *location == denver()));

    let effects = app.update(resolved);
    let mut expected = empty_config();
    expected.location = Some("Denver, CO".to_string());
    expected.latitude = Some("39.74".to_string());
    expected.longitude = Some("-104.99".to_string());
    assert_eq!(*app.config(), expected);
    assert_eq!(
        effects,
        vec![
            Effect::PersistConfig(expected),
            Effect::FetchWeather {
                latitude: "39.74".to_string(),
                longitude: "-104.99".to_string(),
            },
        ]
    );

    let snapshot = Snapshot { temperature: 21.5, hourly: vec![20.0, 22.0], daily: vec![18.0] };
    let fetched = Message::from_weather_data(Ok(Some(snapshot.clone())));
    let effects = app.update(fetched);
    assert!(effects.is_empty());
    assert_eq!(*app.weather_data(), snapshot);
}

#[test]
fn scenario_confirming_paris_empties_the_queue() {
    let mut app = started(paris_config());
    app.update(Message::ChangeCity);
    app.update(Message::DialogUpdate(change("Paris")));
    assert_eq!(queue(&app), vec![change("Paris")]);

    let effects = app.update(Message::DialogComplete("Paris".to_string()));
    assert!(app.dialog_pages().is_empty());
    assert_eq!(
        effects,
        vec![Effect::ResolveLocation("Paris".to_string()), Effect::PersistConfig(paris_config())]
    );
    assert_eq!(*app.config(), paris_config());
}

#[test]
fn scenario_no_candidate_reports_failure_and_keeps_settings() {
    let mut app = started(paris_config());
    let follow_up: Message<Snapshot> = Message::from_location_data(Ok(Vec::new()));
    assert!(matches!(&follow_up, Message::Error(reason) if reason == "Could not get location data."));
    let effects = app.update(follow_up);
    assert!(effects.is_empty());
    assert_eq!(*app.config(), paris_config());
}

#[test]
fn scenario_two_toggles_of_settings() {
    let mut app = started(paris_config());
    assert_eq!(app.context_page(), ContextPage::Settings);
    assert!(!app.show_context());

    let effects = app.update(Message::ToggleContextPage(ContextPage::Settings));
    assert!(effects.is_empty());
    assert!(app.show_context());
    assert_eq!(app.context_page(), ContextPage::Settings);

    let effects = app.update(Message::ToggleContextPage(ContextPage::Settings));
    assert!(effects.is_empty());
    assert!(!app.show_context());
    assert_eq!(app.context_page(), ContextPage::Settings);
}

#[test]
fn toggling_the_other_panel_selects_and_shows_it() {
    let mut app = started(paris_config());
    app.update(Message::ToggleContextPage(ContextPage::Settings));
    app.update(Message::ToggleContextPage(ContextPage::About));
    assert!(app.show_context());
    assert_eq!(app.context_page(), ContextPage::About);
}

#[test]
fn toggling_the_other_panel_twice_from_visible_ends_hidden() {
    let mut app = started(paris_config());
    app.update(Message::ToggleContextPage(ContextPage::Settings));
    assert!(app.show_context());
    app.update(Message::ToggleContextPage(ContextPage::About));
    app.update(Message::ToggleContextPage(ContextPage::About));
    assert!(!app.show_context());
    assert_eq!(app.context_page(), ContextPage::About);
}

#[test]
fn toggling_twice_from_hidden_other_panel_restores_hidden() {
    let mut app = started(paris_config());
    app.update(Message::ToggleContextPage(ContextPage::About));
    assert!(app.show_context());
    app.update(Message::ToggleContextPage(ContextPage::About));
    assert!(!app.show_context());
    assert_eq!(app.context_page(), ContextPage::About);
}

#[test]
fn set_show_context_records_what_the_host_did() {
    let mut app = started(paris_config());
    app.set_show_context(true);
    assert!(app.show_context());
    assert_eq!(app.context_page(), ContextPage::Settings);
    app.update(Message::ToggleContextPage(ContextPage::Settings));
    assert!(!app.show_context());
}

#[test]
fn change_city_pushes_an_empty_dialog() {
    let mut app = started(paris_config());
    let effects = app.update(Message::ChangeCity);
    assert!(effects.is_empty());
    assert_eq!(queue(&app), vec![change("")]);
    app.update(Message::DialogUpdate(change("Oslo")));
    app.update(Message::ChangeCity);
    assert_eq!(queue(&app), vec![change("Oslo"), change("")]);
}

#[test]
fn quit_asks_to_close_the_window() {
    let mut app = started(paris_config());
    let effects = app.update(Message::Quit);
    assert_eq!(effects, vec![Effect::Quit]);
    assert_eq!(*app.config(), paris_config());
}

#[test]
fn launch_url_asks_to_open_it() {
    let mut app = started(paris_config());
    let effects = app.update(Message::LaunchUrl("https://example.org/a".to_string()));
    assert_eq!(effects, vec![Effect::OpenUrl("https://example.org/a".to_string())]);
}

#[test]
fn bound_key_acts_as_its_action() {
    let mut app = started(paris_config());
    let effects = app.update(Message::Key(ctrl(), character("q")));
    assert_eq!(effects, vec![Effect::Quit]);

    let effects = app.update(Message::Key(ctrl(), character("l")));
    assert!(effects.is_empty());
    assert_eq!(queue(&app), vec![change("")]);

    app.update(Message::Key(ctrl(), character("i")));
    assert!(app.show_context());
    assert_eq!(app.context_page(), ContextPage::About);

    app.update(Message::Key(ctrl(), character(",")));
    assert!(app.show_context());
    assert_eq!(app.context_page(), ContextPage::Settings);
}

#[test]
fn unbound_key_changes_nothing() {
    let mut app = started(paris_config());
    let effects = app.update(Message::Key(Modifiers::empty(), character("q")));
    assert!(effects.is_empty());
    let effects = app.update(Message::Key(ctrl(), character("Q")));
    assert!(effects.is_empty());
    let effects = app.update(Message::Key(ctrl(), Key::Named("q".to_string())));
    assert!(effects.is_empty());
    let effects = app.update(Message::Key(ctrl(), Key::Unidentified));
    assert!(effects.is_empty());
    assert!(app.dialog_pages().is_empty());
    assert!(!app.show_context());
    assert_eq!(*app.config(), paris_config());
}

#[test]
fn resolve_maps_keys_and_keeps_other_messages() {
    let app = started(paris_config());
    assert!(matches!(app.resolve(Message::Key(ctrl(), character("q"))), Some(Message::Quit)));
    assert!(matches!(
        app.resolve(Message::Key(ctrl(), character("i"))),
        Some(Message::ToggleContextPage(ContextPage::About))
    ));
    assert!(matches!(
        app.resolve(Message::Key(ctrl(), character(","))),
        Some(Message::ToggleContextPage(ContextPage::Settings))
    ));
    assert!(matches!(app.resolve(Message::Key(ctrl(), character("l"))), Some(Message::ChangeCity)));
    assert!(app.resolve(Message::Key(ctrl(), character("x"))).is_none());
    assert!(matches!(app.resolve(Message::DialogCancel), Some(Message::DialogCancel)));
}

#[test]
fn modifiers_message_stores_the_modifiers() {
    let mut app = started(paris_config());
    let held = Modifiers { shift: true, control: false, alt: true, logo: false };
    let effects = app.update(Message::Modifiers(held));
    assert!(effects.is_empty());
    assert_eq!(app.modifiers(), held);
}

#[test]
fn config_message_replaces_the_settings_without_persisting() {
    let mut app = started(paris_config());
    let effects = app.update(Message::Config(empty_config()));
    assert!(effects.is_empty());
    assert_eq!(*app.config(), empty_config());
    let effects = app.update(Message::Config(empty_config()));
    assert!(effects.is_empty());
    assert_eq!(*app.config(), empty_config());
}

#[test]
fn units_message_updates_and_persists_once() {
    let mut app = started(paris_config());
    let effects = app.update(Message::Units(Units::Fahrenheit));
    let mut expected = paris_config();
    expected.units = Units::Fahrenheit;
    assert_eq!(*app.config(), expected);
    assert_eq!(effects, vec![Effect::PersistConfig(expected)]);
}

#[test]
fn timefmt_message_updates_and_persists_once() {
    let mut app = started(paris_config());
    let effects = app.update(Message::TimeFmt(TimeFmt::TwelveHr));
    let mut expected = paris_config();
    expected.timefmt = TimeFmt::TwelveHr;
    assert_eq!(*app.config(), expected);
    assert_eq!(effects, vec![Effect::PersistConfig(expected)]);
}

#[test]
fn theme_message_persists_config_then_theme() {
    let mut app = started(paris_config());
    let effects = app.update(Message::AppTheme(AppTheme::Light));
    let mut expected = paris_config();
    expected.app_theme = AppTheme::Light;
    assert_eq!(*app.config(), expected);
    assert_eq!(
        effects,
        vec![Effect::PersistConfig(expected), Effect::PersistTheme(AppTheme::Light)]
    );
}

#[test]
fn system_theme_change_persists_theme_then_config() {
    let mut app = started(paris_config());
    let effects = app.update(Message::SystemThemeModeChange);
    assert_eq!(
        effects,
        vec![Effect::PersistTheme(AppTheme::Dark), Effect::PersistConfig(paris_config())]
    );
    assert_eq!(*app.config(), paris_config());
}

#[test]
fn dialog_update_replaces_only_the_front() {
    let mut app = started(paris_config());
    app.update(Message::ChangeCity);
    app.update(Message::ChangeCity);
    app.update(Message::ChangeCity);
    let effects = app.update(Message::DialogUpdate(change("Rome")));
    assert!(effects.is_empty());
    assert_eq!(queue(&app), vec![change("Rome"), change(""), change("")]);
}

#[test]
fn dialog_update_on_empty_queue_is_a_no_op() {
    let mut app = started(paris_config());
    let effects = app.update(Message::DialogUpdate(change("Rome")));
    assert!(effects.is_empty());
    assert!(app.dialog_pages().is_empty());
}

#[test]
fn dialog_cancel_reveals_the_next_dialog() {
    let mut app = started(paris_config());
    app.update(Message::ChangeCity);
    app.update(Message::DialogUpdate(change("first")));
    app.update(Message::ChangeCity);
    let effects = app.update(Message::DialogCancel);
    assert!(effects.is_empty());
    assert_eq!(queue(&app), vec![change("")]);
}

#[test]
fn closing_an_empty_queue_is_a_no_op() {
    let mut app = started(paris_config());
    let effects = app.update(Message::DialogCancel);
    assert!(effects.is_empty());
    assert!(app.dialog_pages().is_empty());

    let effects = app.update(Message::DialogComplete("Lima".to_string()));
    assert_eq!(
        effects,
        vec![Effect::ResolveLocation("Lima".to_string()), Effect::PersistConfig(paris_config())]
    );
    assert!(app.dialog_pages().is_empty());
}

#[test]
fn queue_length_follows_pushes_and_closings() {
    let mut app = started(paris_config());
    let mut pushes = 0usize;
    let script: Vec<Message<Snapshot>> = vec![
        Message::DialogCancel,
        Message::ChangeCity,
        Message::Key(ctrl(), character("l")),
        Message::DialogUpdate(change("a")),
        Message::DialogComplete("a".to_string()),
        Message::ChangeCity,
        Message::DialogCancel,
        Message::DialogCancel,
        Message::DialogCancel,
        Message::DialogComplete("b".to_string()),
    ];
    let expected = [0usize, 1, 2, 2, 1, 2, 1, 0, 0, 0];
    for (message, length) in script.into_iter().zip(expected) {
        if matches!(app.resolve(message.clone()), Some(Message::ChangeCity)) {
            pushes += 1;
        }
        app.update(message);
        assert_eq!(app.dialog_pages().len(), length);
        assert!(app.dialog_pages().len() <= pushes);
    }
    assert_eq!(pushes, 3);
}

#[test]
fn set_location_stores_all_three_fields_and_fetches_once() {
    let mut app = started(paris_config());
    let effects = app.update(Message::SetLocation(denver()));
    let mut expected = paris_config();
    expected.location = Some("Denver, CO".to_string());
    expected.latitude = Some("39.74".to_string());
    expected.longitude = Some("-104.99".to_string());
    assert_eq!(*app.config(), expected);
    let fetches = effects.iter().filter(|e| matches!(e, Effect::FetchWeather { .. })).count();
    assert_eq!(fetches, 1);
    assert_eq!(
        effects[1],
        Effect::FetchWeather { latitude: "39.74".to_string(), longitude: "-104.99".to_string() }
    );
    assert_eq!(effects[0], Effect::PersistConfig(expected));
    assert_eq!(effects.len(), 2);
}

#[test]
fn set_weather_data_replaces_the_snapshot() {
    let mut app = started(paris_config());
    let first = Snapshot { temperature: 1.0, hourly: vec![1.0], daily: vec![] };
    let second = Snapshot { temperature: -3.5, hourly: vec![], daily: vec![2.0, 3.0] };
    app.update(Message::SetWeatherData(first.clone()));
    assert_eq!(*app.weather_data(), first);
    let effects = app.update(Message::SetWeatherData(second.clone()));
    assert!(effects.is_empty());
    assert_eq!(*app.weather_data(), second);
    assert_eq!(*app.config(), paris_config());
}

#[test]
fn error_message_changes_nothing_and_yields_a_notice() {
    let mut app = started(paris_config());
    let message: Message<Snapshot> = Message::Error("boom".to_string());
    assert_eq!(message.notice(), Some("Error: boom".to_string()));
    let effects = app.update(message);
    assert!(effects.is_empty());
    assert_eq!(*app.config(), paris_config());
    assert_eq!(*app.weather_data(), Snapshot::default());
}

#[test]
fn other_messages_yield_no_notice() {
    let quit: Message<Snapshot> = Message::Quit;
    assert_eq!(quit.notice(), None);
    let url: Message<Snapshot> = Message::LaunchUrl("Error: x".to_string());
    assert_eq!(url.notice(), None);
    let empty: Message<Snapshot> = Message::Error(String::new());
    assert_eq!(empty.notice(), Some("Error: ".to_string()));
}

#[test]
fn messages_leave_the_active_page_alone() {
    let mut app = started(paris_config());
    app.on_nav_select(1);
    app.update(Message::ToggleContextPage(ContextPage::About));
    app.update(Message::ChangeCity);
    app.update(Message::SetLocation(denver()));
    assert_eq!(app.nav_model().active_data(), Some(NavPage::DailyView));
    assert!(app.nav_model().is_active(1));
    assert!(!app.nav_model().is_active(0));
    assert!(!app.nav_model().is_active(2));
}

#[test]
fn nav_select_activates_exactly_the_chosen_page() {
    let mut app = started(paris_config());
    let effects = app.on_nav_select(2);
    assert!(effects.is_empty());
    assert_eq!(app.nav_model().active_data(), Some(NavPage::Details));
    let active: Vec<usize> = (0..app.nav_model().len()).filter(|&id| app.nav_model().is_active(id)).collect();
    assert_eq!(active, vec![2]);

    app.on_nav_select(2);
    assert_eq!(app.nav_model().active_data(), Some(NavPage::Details));

    app.on_nav_select(3);
    assert_eq!(app.nav_model().active_data(), Some(NavPage::Details));
    app.on_nav_select(usize::MAX);
    assert_eq!(app.nav_model().active_data(), Some(NavPage::Details));
}

#[test]
fn subscription_maps_events_to_messages() {
    let pressed = Event::KeyPressed { key: character("q"), modifiers: ctrl(), captured: false };
    assert!(matches!(
        App::<Snapshot>::subscription(pressed),
        Some(Message::Key(modifiers, Key::Character(text))) if modifiers == ctrl() && text == "q"
    ));
    let captured = Event::KeyPressed { key: character("q"), modifiers: ctrl(), captured: true };
    assert!(App::<Snapshot>::subscription(captured).is_none());
    let held = Modifiers { shift: true, control: false, alt: false, logo: true };
    assert!(matches!(
        App::<Snapshot>::subscription(Event::ModifiersChanged(held)),
        Some(Message::Modifiers(modifiers)) if modifiers == held
    ));
    assert!(matches!(
        App::<Snapshot>::subscription(Event::ConfigUpdated),
        Some(Message::SystemThemeModeChange)
    ));
    assert!(matches!(
        App::<Snapshot>::subscription(Event::ThemeModeUpdated),
        Some(Message::SystemThemeModeChange)
    ));
    assert!(App::<Snapshot>::subscription(Event::Other).is_none());
}

#[test]
fn key_press_event_reaches_its_action() {
    let mut app = started(paris_config());
    let pressed = Event::KeyPressed { key: character("l"), modifiers: ctrl(), captured: false };
    let message = App::<Snapshot>::subscription(pressed).unwrap();
    app.update(message);
    assert_eq!(queue(&app), vec![change("")]);
}

#[test]
fn effect_builders_describe_the_current_settings() {
    let app = started(paris_config());
    assert_eq!(app.save_config(), Effect::PersistConfig(paris_config()));
    assert_eq!(app.save_theme(), Effect::PersistTheme(AppTheme::Dark));
    assert_eq!(
        app.update_weather_data(),
        Some(Effect::FetchWeather { latitude: "48.85".to_string(), longitude: "2.35".to_string() })
    );
    let bare = started(empty_config());
    assert_eq!(bare.update_weather_data(), None);
}

#[test]
fn action_messages() {
    assert!(matches!(
        Action::About.message::<Snapshot>(),
        Message::ToggleContextPage(ContextPage::About)
    ));
    assert!(matches!(
        Action::Settings.message::<Snapshot>(),
        Message::ToggleContextPage(ContextPage::Settings)
    ));
    assert!(matches!(Action::ChangeCity.message::<Snapshot>(), Message::ChangeCity));
    assert!(matches!(Action::Quit.message::<Snapshot>(), Message::Quit));
}

#[test]
fn follow_up_of_a_location_lookup() {
    let second = Location {
        display_name: "Denver, NC".to_string(),
        lat: "35.53".to_string(),
        lon: "-81.03".to_string(),
    };
    let first_wins: Message<Snapshot> = Message::from_location_data(Ok(vec![denver(), second]));
    assert!(matches!(first_wins, Message::SetLocation(location) if location == denver()));
    let failed: Message<Snapshot> = Message::from_location_data(Err("timed out".to_string()));
    assert!(matches!(failed, Message::Error(reason) if reason == "timed out"));
}

#[test]
fn follow_up_of_a_weather_request() {
    let snapshot = Snapshot { temperature: 3.0, hourly: vec![], daily: vec![] };
    let fetched = Message::from_weather_data(Ok(Some(snapshot.clone())));
    assert!(matches!(fetched, Message::SetWeatherData(data) if data == snapshot));
    let absent: Message<Snapshot> = Message::from_weather_data(Ok(None));
    assert!(matches!(absent, Message::Error(reason) if reason == "Could not get weather data."));
    let failed: Message<Snapshot> = Message::from_weather_data(Err("no route".to_string()));
    assert!(matches!(failed, Message::Error(reason) if reason == "no route"));
}

#[test]
fn message_clone_reads_the_same() {
    let message: Message<Snapshot> = Message::SetLocation(denver());
    assert!(matches!(message.clone(), Message::SetLocation(location) if location == denver()));
    let snapshot = Snapshot { temperature: 9.0, hourly: vec![1.0], daily: vec![2.0] };
    let message = Message::SetWeatherData(snapshot.clone());
    assert!(matches!(message.clone(), Message::SetWeatherData(data) if data == snapshot));
    let effect = Effect::PersistConfig(paris_config());
    assert_eq!(effect.clone(), effect);
}
