//! The settings page: a draft of the update interval, apart from the
//! configuration in force until it is saved.

use vstd::prelude::*;
use crate::config::{Config, default_config};
use crate::window::{ApplicationWindow, Effect, InvalidTransition, MainWindowPage};

verus! {

/// What the settings page's controls send.
#[derive(Debug, Clone, Copy, PartialEq, Eq, Structural)]
pub enum SettingsMessage {
    /// The interval control moved; the new interval, in milliseconds.
    UpdateIntervalChanged(u64),
    /// The save button: the draft becomes the configuration and is stored.
    SaveSettings,
    /// The cancel button: the draft goes back to the configuration.
    CancelSettings,
    /// The reset button: the configuration goes back to the default.
    ResetSettings,
}

/// The settings page's state.
#[derive(Debug, Clone, Copy, PartialEq, Eq, Structural)]
pub struct SettingsState {
    /// The draft of the update interval, in milliseconds.
    pub update_interval: u64,
}

impl SettingsState {
    /// The state of a settings page that was just opened: the draft is the
    /// configuration's interval.
    pub fn new(config: &Config) -> (state: Self)
        ensures
            state == SettingsState::opened(*config),
            state.update_interval == config.update_interval,
    {
        Self { update_interval: config.update_interval }
    }

    /// The state of a settings page that was just opened.
    pub open spec fn opened(config: Config) -> SettingsState {
        SettingsState { update_interval: config.update_interval }
    }
}

impl ApplicationWindow {
    /// The window after a settings message. Only an open settings page
    /// takes one.
    ///
    /// A change of the interval goes to the draft alone. Saving makes the
    /// draft the configuration. Cancelling takes the draft back to the
    /// configuration. Resetting makes the default the configuration, and
    /// the draft follows it.
    pub open spec fn after_settings(self, message: SettingsMessage) -> ApplicationWindow {
        match self.page {
            MainWindowPage::Home => self,
            MainWindowPage::Settings(state) => match message {
                SettingsMessage::UpdateIntervalChanged(millis) => ApplicationWindow {
                    page: MainWindowPage::Settings(SettingsState { update_interval: millis }),
                    ..self
                },
                SettingsMessage::SaveSettings => ApplicationWindow {
                    config: Config { update_interval: state.update_interval },
                    ..self
                },
                SettingsMessage::CancelSettings => ApplicationWindow {
                    page: MainWindowPage::Settings(SettingsState::opened(self.config)),
                    ..self
                },
                SettingsMessage::ResetSettings => ApplicationWindow {
                    page: MainWindowPage::Settings(SettingsState::opened(default_config())),
                    config: default_config(),
                    ..self
                },
            },
        }
    }

    /// What a settings message hands back to the caller: the configuration
    /// to store after a save or a reset, nothing after the others, an error
    /// where the settings page is not open.
    pub open spec fn settings_outcome(self, message: SettingsMessage) -> Result<
        Effect,
        InvalidTransition,
    > {
        match self.page {
            MainWindowPage::Home => Err(InvalidTransition::SettingsPageNotOpen),
            MainWindowPage::Settings(state) => match message {
                SettingsMessage::UpdateIntervalChanged(_) => Ok(Effect::Nothing),
                SettingsMessage::SaveSettings => Ok(
                    Effect::Persist(Config { update_interval: state.update_interval }),
                ),
                SettingsMessage::CancelSettings => Ok(Effect::Nothing),
                SettingsMessage::ResetSettings => Ok(Effect::Persist(default_config())),
            },
        }
    }

    /// Takes a settings message.
    pub fn settings_page_update(&mut self, message: &SettingsMessage) -> (outcome: Result<
        Effect,
        InvalidTransition,
    >)
        ensures
            *final(self) == old(self).after_settings(*message),
            outcome == old(self).settings_outcome(*message),
            outcome is Err <==> old(self).page is Home,
            outcome is Err ==> *final(self) == *old(self),
            final(self).metrics == old(self).metrics,
    {
        let state = match self.page {
            MainWindowPage::Settings(state) => state,
            MainWindowPage::Home => {
                return Err(InvalidTransition::SettingsPageNotOpen);
            },
        };
        match *message {
            SettingsMessage::UpdateIntervalChanged(millis) => {
                self.page = MainWindowPage::Settings(SettingsState { update_interval: millis });
                Ok(Effect::Nothing)
            },
            SettingsMessage::SaveSettings => {
                self.config.update_interval = state.update_interval;
                Ok(Effect::Persist(self.config))
            },
            SettingsMessage::CancelSettings => {
                self.page = MainWindowPage::Settings(SettingsState::new(&self.config));
                Ok(Effect::Nothing)
            },
            SettingsMessage::ResetSettings => {
                self.config = Config::default();
                self.page = MainWindowPage::Settings(SettingsState::new(&self.config));
                Ok(Effect::Persist(self.config))
            },
        }
    }
}

} // verus!
