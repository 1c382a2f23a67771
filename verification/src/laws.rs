//! What holds of a load whatever is on disk, and of the window over whole
//! runs of messages.

use vstd::prelude::*;
use crate::config::{
    Config, ConfigFileView, LoadWarning, LoadedView, SaveError, decoded, default_config, encoded,
    loaded,
};
use crate::views::settings::{SettingsMessage, SettingsState};
use crate::window::{ApplicationMessage, ApplicationWindow, Effect, InvalidTransition, MainWindowPage};

verus! {

/// A load that finds no file puts the default configuration, with its
/// interval of 1000 milliseconds, in force, and has the file created with
/// the text of that configuration, whenever it has one.
pub proof fn law_load_without_a_file_creates_the_default()
    ensures
        loaded(ConfigFileView::Missing).config.update_interval == 1000,
        encoded(default_config()) matches Ok(text) ==> loaded(ConfigFileView::Missing) == (
        LoadedView { config: default_config(), create: Some(text), warning: None }),
        encoded(default_config()) is Err ==> loaded(ConfigFileView::Missing).create is None,
{
}

/// A load that finds a file never has it written: text that holds no usable
/// interval gives the default configuration in memory, with its interval of
/// 1000 milliseconds, and stays on disk as it is.
pub proof fn law_load_leaves_a_damaged_file_alone(text: Seq<char>)
    ensures
        loaded(ConfigFileView::Contents(text)).create is None,
        loaded(ConfigFileView::Unreadable).create is None,
        decoded(text) is None ==> loaded(ConfigFileView::Contents(text)) == (LoadedView {
            config: default_config(),
            create: None,
            warning: Some(LoadWarning::Unparseable),
        }),
        decoded(text) is None ==> loaded(ConfigFileView::Contents(text)).config.update_interval
            == 1000,
{
}

/// A load that finds text with a usable interval puts exactly that interval
/// in force, and reports nothing.
pub proof fn law_load_takes_the_file_s_interval(text: Seq<char>)
    ensures
        decoded(text) matches Some(config) ==> loaded(ConfigFileView::Contents(text)) == (
        LoadedView { config, create: None, warning: None }),
{
}

/// An interval that was read from a file fits a file: storing a
/// configuration that a load has decoded never fails for its size, and
/// neither does storing the default.
pub proof fn law_a_decoded_interval_can_be_stored(text: Seq<char>)
    ensures
        decoded(text) matches Some(config) ==> config.update_interval <= i64::MAX && encoded(config)
            != Err::<Seq<char>, SaveError>(SaveError::IntervalOutOfRange),
        encoded(default_config()) != Err::<Seq<char>, SaveError>(SaveError::IntervalOutOfRange),
{
}

/// Whether a message is a change of the interval on the settings page.
pub open spec fn is_interval_change(message: ApplicationMessage) -> bool {
    message matches ApplicationMessage::SettingsPageUpdated(
        SettingsMessage::UpdateIntervalChanged(_),
    )
}

/// Whether a run of messages holds nothing but changes of the interval.
pub open spec fn are_interval_changes(messages: Seq<ApplicationMessage>) -> bool {
    forall|i: int| 0 <= i < messages.len() ==> is_interval_change(#[trigger] messages[i])
}

/// Changes of the interval touch nothing but the draft: the settings page
/// stays open, and the configuration and the snapshot stay as they were.
pub proof fn law_edits_touch_the_draft_alone(
    window: ApplicationWindow,
    edits: Seq<ApplicationMessage>,
)
    requires
        window.page is Settings,
        are_interval_changes(edits),
    ensures
        window.after_all(edits).page is Settings,
        window.after_all(edits).config == window.config,
        window.after_all(edits).metrics == window.metrics,
        edits.len() > 0 ==> window.after_all(edits).page == MainWindowPage::Settings(
            SettingsState { update_interval: edits.last()->SettingsPageUpdated_0->UpdateIntervalChanged_0 },
        ),
    decreases edits.len(),
{
    if edits.len() > 0 {
        assert(is_interval_change(edits[edits.len() - 1]));
        assert forall|i: int| 0 <= i < edits.drop_last().len() implies is_interval_change(
            #[trigger] edits.drop_last()[i],
        ) by {
            assert(edits.drop_last()[i] == edits[i]);
        }
        law_edits_touch_the_draft_alone(window, edits.drop_last());
    }
}

/// Cancelling after any run of changes of the interval takes the draft back
/// to the configuration in force, which the changes have not touched.
pub proof fn law_cancel_restores_the_configuration(
    window: ApplicationWindow,
    edits: Seq<ApplicationMessage>,
)
    requires
        window.page is Settings,
        are_interval_changes(edits),
    ensures
        ({
            let edited = window.after_all(edits);
            let cancel = ApplicationMessage::SettingsPageUpdated(SettingsMessage::CancelSettings);
            &&& edited.outcome(cancel) == Ok::<Effect, InvalidTransition>(Effect::Nothing)
            &&& edited.after(cancel).config == window.config
            &&& edited.after(cancel).page == MainWindowPage::Settings(
                SettingsState { update_interval: window.config.update_interval },
            )
        }),
{
    law_edits_touch_the_draft_alone(window, edits);
}

/// Saving makes the draft the configuration in force, hands that
/// configuration out to be stored, and leaves the draft as it is.
pub proof fn law_save_commits_the_draft(window: ApplicationWindow, draft: SettingsState)
    requires
        window.page == MainWindowPage::Settings(draft),
    ensures
        ({
            let save = ApplicationMessage::SettingsPageUpdated(SettingsMessage::SaveSettings);
            let committed = Config { update_interval: draft.update_interval };
            &&& window.after(save).config == committed
            &&& window.after(save).page == window.page
            &&& window.outcome(save) == Ok::<Effect, InvalidTransition>(Effect::Persist(committed))
        }),
{
}

/// Resetting puts the default configuration, with its interval of 1000
/// milliseconds, in force whatever was there before, and hands it out to be
/// stored. The draft shows 1000 at once, and still does after a cancel or
/// after the settings page is opened anew.
pub proof fn law_reset_restores_the_default(window: ApplicationWindow)
    requires
        window.page is Settings,
    ensures
        ({
            let reset = ApplicationMessage::SettingsPageUpdated(SettingsMessage::ResetSettings);
            let cancel = ApplicationMessage::SettingsPageUpdated(SettingsMessage::CancelSettings);
            let shown = MainWindowPage::Settings(SettingsState { update_interval: 1000 });
            let after = window.after(reset);
            &&& after.config.update_interval == 1000
            &&& window.outcome(reset) == Ok::<Effect, InvalidTransition>(
                Effect::Persist(default_config()),
            )
            &&& after.page == shown
            &&& after.after(cancel).page == shown
            &&& after.after(ApplicationMessage::TabSelected(0)).after(
                ApplicationMessage::TabSelected(1),
            ).page == shown
        }),
{
}

/// A draft does not outlive its page: after any changes of the interval on
/// the settings page, going to the home page and back opens the settings
/// page with the configuration in force, which the changes have not
/// touched.
pub proof fn law_reentry_discards_the_draft(
    window: ApplicationWindow,
    edits: Seq<ApplicationMessage>,
)
    requires
        are_interval_changes(edits),
    ensures
        ({
            let home = ApplicationMessage::TabSelected(0);
            let settings = ApplicationMessage::TabSelected(1);
            let back = window.after(home).after(settings).after_all(edits).after(home).after(
                settings,
            );
            &&& back.config == window.config
            &&& back.page == MainWindowPage::Settings(
                SettingsState { update_interval: window.config.update_interval },
            )
        }),
{
    let opened = window.after(ApplicationMessage::TabSelected(0)).after(
        ApplicationMessage::TabSelected(1),
    );
    law_edits_touch_the_draft_alone(opened, edits);
}

/// A message that cannot be taken leaves the window as it was.
pub proof fn law_refused_messages_change_nothing(
    window: ApplicationWindow,
    message: ApplicationMessage,
)
    ensures
        window.outcome(message) is Err ==> window.after(message) == window,
        window.outcome(message) is Err <==> (message matches ApplicationMessage::TabSelected(index)
            && index > 1) || (message is SettingsPageUpdated && window.page is Home),
{
}

/// The configuration in force changes only by a save or a reset on the open
/// settings page, and whatever is handed out to be stored is the
/// configuration in force after the message: memory and disk do not part.
pub proof fn law_the_configuration_changes_only_to_be_stored(
    window: ApplicationWindow,
    message: ApplicationMessage,
)
    ensures
        window.outcome(message) matches Ok(Effect::Persist(stored)) ==> stored == window.after(
            message,
        ).config,
        window.outcome(message) matches Ok(Effect::Persist(_)) <==> window.page is Settings && (
        message == ApplicationMessage::SettingsPageUpdated(SettingsMessage::SaveSettings)
            || message == ApplicationMessage::SettingsPageUpdated(SettingsMessage::ResetSettings)),
        !(window.outcome(message) matches Ok(Effect::Persist(_))) ==> window.after(message).config
            == window.config,
{
}

/// A tick replaces the snapshot whole and touches nothing else.
pub proof fn law_tick_replaces_the_snapshot(
    window: ApplicationWindow,
    snapshot: crate::views::home::MetricsSnapshot,
)
    ensures
        window.after(ApplicationMessage::UpdateInfo(snapshot)).metrics == snapshot,
        window.after(ApplicationMessage::UpdateInfo(snapshot)).page == window.page,
        window.after(ApplicationMessage::UpdateInfo(snapshot)).config == window.config,
{
}

/// The tab bar and the pages agree: the tab of a page opens a page of the
/// same kind, and the page that a tab opens sits at that tab.
pub proof fn law_tabs_and_pages_agree(page: MainWindowPage, index: usize, config: Config)
    ensures
        MainWindowPage::at_index(page.index(), config) is Some,
        MainWindowPage::at_index(page.index(), config)->Some_0.index() == page.index(),
        MainWindowPage::at_index(index, config) is Some <==> index <= 1,
        MainWindowPage::at_index(index, config) matches Some(opened) ==> opened.index() == index,
{
}

} // verus!
