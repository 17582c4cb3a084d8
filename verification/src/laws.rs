//! Properties of the transition function, proved over its model.

use vstd::prelude::*;
use crate::context::ContextPage;
use crate::controller::AppView;
use crate::message::{EffectView, MessageView};
use crate::nav::NavModelView;

verus! {

/// The state after a sequence of messages, handled in order.
pub open spec fn run<W>(state: AppView<W>, messages: Seq<MessageView<W>>) -> AppView<W>
    decreases messages.len(),
{
    if messages.len() == 0 {
        state
    } else {
        run(state, messages.drop_last()).step(messages.last()).state
    }
}

/// Whether a message asks for a new dialog: the request to change the
/// city, or a key press bound to it.
pub open spec fn opens_dialog<W>(state: AppView<W>, message: MessageView<W>) -> bool {
    state.resolve(message) == Some(MessageView::<W>::ChangeCity)
}

/// Whether a message closes the dialog on screen.
pub open spec fn closes_dialog<W>(message: MessageView<W>) -> bool {
    message is DialogComplete || message is DialogCancel
}

/// How many messages of a sequence ask for a new dialog.
pub open spec fn dialogs_opened<W>(state: AppView<W>, messages: Seq<MessageView<W>>) -> nat
    decreases messages.len(),
{
    if messages.len() == 0 {
        0
    } else {
        dialogs_opened(state, messages.drop_last()) + if opens_dialog(state, messages.last()) {
            1nat
        } else {
            0nat
        }
    }
}

/// Exactly one of the effects writes the settings to the configuration store.
pub open spec fn persists_config_once(effects: Seq<EffectView>) -> bool {
    exists|i: int|
        #![auto]
        0 <= i < effects.len() && effects[i] is PersistConfig && forall|j: int|
            0 <= j < effects.len() && effects[j] is PersistConfig ==> j == i
}

/// Exactly one of the effects sets the application's theme.
pub open spec fn persists_theme_once(effects: Seq<EffectView>) -> bool {
    exists|i: int|
        #![auto]
        0 <= i < effects.len() && effects[i] is PersistTheme && forall|j: int|
            0 <= j < effects.len() && effects[j] is PersistTheme ==> j == i
}

/// Exactly one of the effects asks for the weather, and it asks for it at
/// these coordinates.
pub open spec fn fetches_weather_once(
    effects: Seq<EffectView>,
    latitude: Seq<char>,
    longitude: Seq<char>,
) -> bool {
    exists|i: int|
        #![auto]
        0 <= i < effects.len() && effects[i] == (EffectView::FetchWeather { latitude, longitude })
            && forall|j: int| 0 <= j < effects.len() && effects[j] is FetchWeather ==> j == i
}

/// No message changes the key-binding table or the navigation model.
pub proof fn lemma_step_keeps_table_and_pages<W>(state: AppView<W>, message: MessageView<W>)
    ensures
        state.step(message).state.key_binds == state.key_binds,
        state.step(message).state.nav_model == state.nav_model,
{
}

/// A sequence of messages leaves the key-binding table and the navigation
/// model as they were.
pub proof fn lemma_run_keeps_table_and_pages<W>(
    state: AppView<W>,
    messages: Seq<MessageView<W>>,
)
    ensures
        run(state, messages).key_binds == state.key_binds,
        run(state, messages).nav_model == state.nav_model,
    decreases messages.len(),
{
    if messages.len() > 0 {
        lemma_run_keeps_table_and_pages(state, messages.drop_last());
        lemma_step_keeps_table_and_pages(run(state, messages.drop_last()), messages.last());
    }
}

/// After any sequence of messages the dialog queue is at most as long as
/// it was before plus the number of messages that asked for a new dialog.
pub proof fn lemma_queue_bounded_by_requests<W>(
    state: AppView<W>,
    messages: Seq<MessageView<W>>,
)
    ensures
        run(state, messages).dialog_pages.len() <= state.dialog_pages.len() + dialogs_opened(
            state,
            messages,
        ),
    decreases messages.len(),
{
    if messages.len() > 0 {
        let before = run(state, messages.drop_last());
        lemma_queue_bounded_by_requests(state, messages.drop_last());
        lemma_run_keeps_table_and_pages(state, messages.drop_last());
        assert(before.resolve(messages.last()) == state.resolve(messages.last()));
    }
}

/// A sequence of confirmations and cancellations removes one dialog per
/// message from the front of the queue until the queue is empty, and then
/// changes it no more.
pub proof fn lemma_closing_drains_queue<W>(state: AppView<W>, messages: Seq<MessageView<W>>)
    requires
        forall|i: int| 0 <= i < messages.len() ==> closes_dialog(#[trigger] messages[i]),
    ensures
        run(state, messages).dialog_pages == if messages.len() <= state.dialog_pages.len() {
            state.dialog_pages.skip(messages.len() as int)
        } else {
            Seq::empty()
        },
        run(state, messages).dialog_pages.len() <= state.dialog_pages.len(),
    decreases messages.len(),
{
    if messages.len() > 0 {
        let earlier = messages.drop_last();
        assert forall|i: int| 0 <= i < earlier.len() implies closes_dialog(
            #[trigger] earlier[i],
        ) by {
            assert(earlier[i] == messages[i]);
        }
        lemma_closing_drains_queue(state, earlier);
        assert(closes_dialog(messages[messages.len() - 1]));
    }
}

/// Activating a position that names a page makes that page the only
/// active one.
pub proof fn lemma_activate_makes_unique(model: NavModelView, id: nat)
    requires
        id < model.items.len(),
    ensures
        model.activate(id).is_active(id),
        forall|other: nat| model.activate(id).is_active(other) ==> other == id,
        model.activate(id).one_active(),
{
    assert(model.activate(id).is_active(id));
}

/// Activating the page that is already active changes nothing.
pub proof fn lemma_activate_is_idempotent(model: NavModelView, id: nat)
    ensures
        model.is_active(id) ==> model.activate(id) == model,
        model.activate(id).activate(id) == model.activate(id),
{
}

/// Editing a dialog replaces the first pending request and leaves the
/// others, and the length of the queue, as they were; on an empty queue it
/// does nothing.
pub proof fn lemma_edit_touches_front_only<W>(state: AppView<W>, message: MessageView<W>)
    requires
        message is DialogUpdate,
    ensures
        ({
            let before = state.dialog_pages;
            let after = state.step(message).state.dialog_pages;
            &&& after.len() == before.len()
            &&& before.len() > 0 ==> after[0] == message->DialogUpdate_0
            &&& forall|i: int| 1 <= i < before.len() ==> after[i] == before[i]
        }),
        state.step(message).state == state.with_dialog_pages(
            state.step(message).state.dialog_pages,
        ),
        state.step(message).effects.len() == 0,
{
}

/// When exactly one page is active, exactly one page is active after any
/// message and after any request to show a page.
pub proof fn lemma_one_page_stays_active<W>(state: AppView<W>, message: MessageView<W>, id: nat)
    requires
        state.wf(),
    ensures
        state.step(message).state.wf(),
        state.nav_select(id).wf(),
{
    lemma_step_keeps_table_and_pages(state, message);
    if id < state.nav_model.items.len() {
        lemma_activate_makes_unique(state.nav_model, id);
    }
}

/// Asking twice for the same side panel leaves its visibility as it was,
/// provided that the panel was the selected one or that no panel was
/// visible; the panel asked for is then the selected one.
pub proof fn lemma_toggle_twice_restores<W>(state: AppView<W>, page: ContextPage)
    requires
        state.context_page == page || !state.show_context,
    ensures
        ({
            let toggle = MessageView::<W>::ToggleContextPage(page);
            let after = state.step(toggle).state.step(toggle).state;
            &&& after.show_context == state.show_context
            &&& after.context_page == page
        }),
{
}

/// Asking for one side panel and then for the other leaves the other
/// selected and visible.
pub proof fn lemma_toggle_other_shows_it<W>(
    state: AppView<W>,
    first: ContextPage,
    second: ContextPage,
)
    requires
        first != second,
    ensures
        ({
            let after = state.step(MessageView::<W>::ToggleContextPage(first)).state.step(
                MessageView::<W>::ToggleContextPage(second),
            ).state;
            &&& after.show_context
            &&& after.context_page == second
        }),
{
}

/// The result of an effect overwrites only what it is about: a weather
/// snapshot replaces the snapshot and nothing else, and a resolved location
/// replaces the place and its coordinates and nothing else.
pub proof fn lemma_results_touch_their_field_only<W>(state: AppView<W>, message: MessageView<W>)
    requires
        message is SetWeatherData || message is SetLocation,
    ensures
        message matches MessageView::SetWeatherData(data) ==> {
            &&& state.step(message).state == (AppView { weather_data: data, ..state })
            &&& state.step(message).effects.len() == 0
        },
        message matches MessageView::SetLocation(location) ==> {
            let after = state.step(message).state;
            &&& after == state.with_config(after.config)
            &&& after.config.location == Some(location.display_name)
            &&& after.config.units == state.config.units
            &&& after.config.timefmt == state.config.timefmt
            &&& after.config.app_theme == state.config.app_theme
        },
{
}

/// Settings that arrive from outside replace the settings and are not
/// written back.
pub proof fn lemma_outside_config_is_not_persisted<W>(state: AppView<W>, message: MessageView<W>)
    requires
        message is Config,
    ensures
        state.step(message).state == state.with_config(message->Config_0),
        state.step(message).effects.len() == 0,
{
}

/// Choosing units or a clock format queues one write of the settings and
/// nothing else; choosing a theme queues one write of the settings and one
/// change of the theme.
pub proof fn lemma_choices_persist_once<W>(state: AppView<W>, message: MessageView<W>)
    requires
        message is Units || message is TimeFmt || message is AppTheme,
    ensures
        persists_config_once(state.step(message).effects),
        message is AppTheme ==> persists_theme_once(state.step(message).effects),
        state.step(message).effects.len() == if message is AppTheme {
            2nat
        } else {
            1nat
        },
        forall|i: int|
            0 <= i < state.step(message).effects.len() && #[trigger] state.step(
                message,
            ).effects[i] is PersistConfig ==> state.step(message).effects[i]
                == EffectView::PersistConfig(state.step(message).state.config),
{
    let effects = state.step(message).effects;
    assert(effects[0] is PersistConfig);
    if message is AppTheme {
        assert(effects[1] is PersistTheme);
    }
}

/// A resolved location queues exactly one weather request, and that
/// request names the coordinates that the message has just stored.
pub proof fn lemma_location_fetches_once<W>(state: AppView<W>, message: MessageView<W>)
    requires
        message is SetLocation,
    ensures
        ({
            let step = state.step(message);
            &&& step.state.config.latitude == Some(message->SetLocation_0.lat)
            &&& step.state.config.longitude == Some(message->SetLocation_0.lon)
            &&& fetches_weather_once(
                step.effects,
                message->SetLocation_0.lat,
                message->SetLocation_0.lon,
            )
            &&& persists_config_once(step.effects)
        }),
{
    let effects = state.step(message).effects;
    assert(effects[0] is PersistConfig);
    assert(effects[1] == (EffectView::FetchWeather {
        latitude: message->SetLocation_0.lat,
        longitude: message->SetLocation_0.lon,
    }));
}

} // verus!
