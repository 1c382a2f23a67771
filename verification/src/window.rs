//! The controller: the window's state, the messages it takes, and the
//! transition that each message makes.
//!
//! The window does no work outside itself. A tick arrives with the snapshot
//! that the caller has just read; a transition that changes the stored
//! configuration hands back an `Effect` for the caller to carry out.

use vstd::prelude::*;
use vstd::string::StringExecFns;
use crate::config::Config;
use crate::views::home::{HomePageView, MetricsSnapshot, cpu_row, shows_memory};
use crate::views::settings::{SettingsMessage, SettingsState};

verus! {

/// The shortest period of the timer, in milliseconds.
pub const MIN_TICK_PERIOD: u64 = 1;

/// The pages of the main window. Exactly one is open at a time.
#[derive(Debug, Clone, Copy, PartialEq, Eq, Structural)]
pub enum MainWindowPage {
    /// The home page, which shows the metrics.
    Home,
    /// The settings page, with its draft.
    Settings(SettingsState),
}

/// The state of the application.
#[derive(Debug, Clone, PartialEq, Eq)]
pub struct ApplicationWindow {
    /// The readings of the last refresh.
    pub metrics: MetricsSnapshot,
    /// The page that is open.
    pub page: MainWindowPage,
    /// The configuration in force.
    pub config: Config,
}

/// What the window is told.
#[derive(Debug, Clone, PartialEq, Eq)]
pub enum ApplicationMessage {
    /// A tick of the timer, with the readings taken at it.
    UpdateInfo(MetricsSnapshot),
    /// A tab of the header was chosen.
    TabSelected(usize),
    /// A control of the settings page was used.
    SettingsPageUpdated(SettingsMessage),
}

/// What the caller has to do after a transition.
#[derive(Debug, Clone, Copy, PartialEq, Eq, Structural)]
pub enum Effect {
    /// Nothing.
    Nothing,
    /// Store this configuration, which is now in force.
    Persist(Config),
}

/// A message that the window cannot take in its state. The state is left
/// as it was.
#[derive(Debug, Clone, Copy, PartialEq, Eq, Structural)]
pub enum InvalidTransition {
    /// No page has this index.
    PageIndex(usize),
    /// A settings message came while the settings page was not open.
    SettingsPageNotOpen,
}

impl MainWindowPage {
    /// The page's place in the header's tab bar.
    pub open spec fn index(self) -> usize {
        match self {
            MainWindowPage::Home => 0,
            MainWindowPage::Settings(_) => 1,
        }
    }

    /// The page that opens when the tab at `index` is chosen while `config`
    /// is in force: a settings page opens with a fresh draft.
    pub open spec fn at_index(index: usize, config: Config) -> Option<MainWindowPage> {
        if index == 0 {
            Some(MainWindowPage::Home)
        } else if index == 1 {
            Some(MainWindowPage::Settings(SettingsState::opened(config)))
        } else {
            None
        }
    }

    /// The page's place in the header's tab bar.
    pub fn to_index(&self) -> (index: usize)
        ensures
            index == self.index(),
    {
        match self {
            MainWindowPage::Home => 0,
            MainWindowPage::Settings(_) => 1,
        }
    }

    /// The page that opens when the tab at `index` is chosen, or `None`
    /// where the tab bar has no such tab.
    pub fn from_index(index: usize, config: &Config) -> (page: Option<Self>)
        ensures
            page == MainWindowPage::at_index(index, *config),
    {
        match index {
            0 => Some(MainWindowPage::Home),
            1 => Some(MainWindowPage::Settings(SettingsState::new(config))),
            _ => None,
        }
    }
}

impl ApplicationWindow {
    /// The window after a message.
    pub open spec fn after(self, message: ApplicationMessage) -> ApplicationWindow {
        match message {
            ApplicationMessage::UpdateInfo(snapshot) => ApplicationWindow {
                metrics: snapshot,
                ..self
            },
            ApplicationMessage::TabSelected(index) => match MainWindowPage::at_index(
                index,
                self.config,
            ) {
                Some(page) => ApplicationWindow { page, ..self },
                None => self,
            },
            ApplicationMessage::SettingsPageUpdated(message) => self.after_settings(message),
        }
    }

    /// What a message hands back to the caller.
    pub open spec fn outcome(self, message: ApplicationMessage) -> Result<
        Effect,
        InvalidTransition,
    > {
        match message {
            ApplicationMessage::UpdateInfo(_) => Ok(Effect::Nothing),
            ApplicationMessage::TabSelected(index) => match MainWindowPage::at_index(
                index,
                self.config,
            ) {
                Some(_) => Ok(Effect::Nothing),
                None => Err(InvalidTransition::PageIndex(index)),
            },
            ApplicationMessage::SettingsPageUpdated(message) => self.settings_outcome(message),
        }
    }

    /// The window after a run of messages, taken in order.
    pub open spec fn after_all(self, messages: Seq<ApplicationMessage>) -> ApplicationWindow
        decreases messages.len(),
    {
        if messages.len() == 0 {
            self
        } else {
            self.after_all(messages.drop_last()).after(messages.last())
        }
    }

    /// The window at the start: the home page is open.
    pub fn new(config: Config, metrics: MetricsSnapshot) -> (window: Self)
        ensures
            window == (ApplicationWindow { metrics, page: MainWindowPage::Home, config }),
    {
        ApplicationWindow { metrics, page: MainWindowPage::Home, config }
    }

    /// The window's title.
    pub fn title(&self) -> (title: String)
        ensures
            title@ == "Icy System Monitor"@,
    {
        String::from_str("Icy System Monitor")
    }

    /// The time from one tick to the next, in milliseconds.
    pub open spec fn period(self) -> u64 {
        if self.config.update_interval < MIN_TICK_PERIOD {
            MIN_TICK_PERIOD
        } else {
            self.config.update_interval
        }
    }

    /// The time from one tick to the next, in milliseconds: the interval of
    /// the configuration in force when it is asked, so that a saved change
    /// shows at the next tick that is scheduled.
    ///
    /// No timer runs with a period of zero: an interval of zero gives
    /// `MIN_TICK_PERIOD`. The configuration itself is not changed.
    pub fn tick_period(&self) -> (millis: u64)
        ensures
            millis == self.period(),
            millis >= MIN_TICK_PERIOD,
            self.config.update_interval > 0 ==> millis == self.config.update_interval,
    {
        if self.config.update_interval < MIN_TICK_PERIOD {
            MIN_TICK_PERIOD
        } else {
            self.config.update_interval
        }
    }

    /// Takes a message.
    ///
    /// A tick replaces the snapshot whole. A tab opens its page, the
    /// settings page with a draft taken from the configuration in force. A
    /// settings message goes to the settings page. A message that cannot be
    /// taken changes nothing and comes back as an error.
    pub fn update(&mut self, message: ApplicationMessage) -> (outcome: Result<
        Effect,
        InvalidTransition,
    >)
        ensures
            *final(self) == old(self).after(message),
            outcome == old(self).outcome(message),
            outcome is Err ==> *final(self) == *old(self),
    {
        match message {
            ApplicationMessage::UpdateInfo(snapshot) => {
                self.metrics = snapshot;
                Ok(Effect::Nothing)
            },
            ApplicationMessage::TabSelected(index) => {
                match MainWindowPage::from_index(index, &self.config) {
                    Some(page) => {
                        self.page = page;
                        Ok(Effect::Nothing)
                    },
                    None => Err(InvalidTransition::PageIndex(index)),
                }
            },
            ApplicationMessage::SettingsPageUpdated(message) => self.settings_page_update(&message),
        }
    }

    /// What the home page shows for the last snapshot.
    pub fn home_page_view(&self) -> (view: HomePageView)
        ensures
            view.cpu_rows@.len() == self.metrics.cpu_usage@.len(),
            forall|i: int|
                0 <= i < view.cpu_rows@.len() ==> (#[trigger] view.cpu_rows@[i])@ == cpu_row(
                    i as nat,
                    self.metrics.cpu_usage@[i],
                ),
            shows_memory(view.memory@, self.metrics.used_memory, self.metrics.total_memory),
    {
        self.metrics.home_page_view()
    }
}

} // verus!
