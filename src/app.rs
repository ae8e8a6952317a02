use vstd::prelude::*;

use crate::pomodoro_timer::{PomodoroTimer, TimerEvent, TimerModel};
use crate::settings::{SettingMessage, SettingsModel};

verus! {

/// What the user interface can ask of the application.
#[derive(Clone, Debug)]
pub enum Message {
    LaunchUrl(String),
    ToggleContextPage(ContextPage),
    StartTimer,
    Refresh,
    ChangeSetting(SettingMessage),
}

/// A page of the context drawer.
#[derive(Clone, Copy, Debug, Default, PartialEq, Eq, Structural)]
pub enum ContextPage {
    #[default]
    About,
    Settings,
}

impl ContextPage {
    /// The localisation key of the page's title.
    pub fn title(&self) -> (r: &'static str)
        ensures
            r@ == (match self {
                ContextPage::About => "about"@,
                ContextPage::Settings => "settings"@,
            }),
    {
        match self {
            ContextPage::About => "about",
            ContextPage::Settings => "settings",
        }
    }
}

/// An entry of the application menu.
#[derive(Clone, Copy, Debug, PartialEq, Eq, Structural)]
pub enum MenuAction {
    About,
    Settings,
}

impl MenuAction {
    /// The message that the entry sends: it toggles the matching page.
    pub fn message(&self) -> (r: Message)
        ensures
            r == (match self {
                MenuAction::About => Message::ToggleContextPage(ContextPage::About),
                MenuAction::Settings => Message::ToggleContextPage(ContextPage::Settings),
            }),
    {
        match self {
            MenuAction::About => Message::ToggleContextPage(ContextPage::About),
            MenuAction::Settings => Message::ToggleContextPage(ContextPage::Settings),
        }
    }
}

/// The outside work that handling a message asks for.
#[derive(Clone, Debug)]
pub enum Effect {
    Nothing,
    /// Open this address in the desktop's browser.
    OpenUrl(String),
    /// Show this page's title on the context drawer.
    SetContextTitle(ContextPage),
    /// Show this desktop notification.
    Notify(TimerEvent),
}

/// Abstract state of the application.
pub struct AppModel {
    pub context_page: ContextPage,
    pub show_context: bool,
    pub timer: TimerModel,
    pub settings: SettingsModel,
}

impl AppModel {
    /// The state after `message`, and the outside work it asks for.
    pub open spec fn update(self, message: Message, is_focused: bool) -> (AppModel, Effect) {
        match message {
            Message::LaunchUrl(url) => (self, Effect::OpenUrl(url)),
            Message::ToggleContextPage(page) => (
                if self.context_page == page {
                    AppModel { show_context: !self.show_context, ..self }
                } else {
                    AppModel { context_page: page, show_context: true, ..self }
                },
                Effect::SetContextTitle(page),
            ),
            Message::StartTimer => (AppModel { timer: self.timer.toggle(), ..self }, Effect::Nothing),
            Message::Refresh => {
                let (timer, event) = self.timer.tick_check(is_focused);
                (
                    AppModel { timer, ..self },
                    match event {
                        Some(e) => Effect::Notify(e),
                        None => Effect::Nothing,
                    },
                )
            },
            Message::ChangeSetting(m) => (
                AppModel { settings: self.settings.update(m), ..self },
                Effect::Nothing,
            ),
        }
    }
}

/// The application: the timer and which context page is shown.
pub struct CosmicPomodoro {
    context_page: ContextPage,
    show_context: bool,
    pomodoro_timer: PomodoroTimer,
}

impl View for CosmicPomodoro {
    type V = AppModel;

    closed spec fn view(&self) -> AppModel {
        AppModel {
            context_page: self.context_page,
            show_context: self.show_context,
            timer: self.pomodoro_timer@,
            settings: self.pomodoro_timer.settings_view(),
        }
    }
}

impl CosmicPomodoro {
    pub closed spec fn wf(&self) -> bool {
        self.pomodoro_timer.wf()
    }

    /// The application around `pomodoro_timer`, with the context drawer closed
    /// on the about page.
    pub fn new(pomodoro_timer: PomodoroTimer) -> (r: CosmicPomodoro)
        requires
            pomodoro_timer.wf(),
        ensures
            r.wf(),
            r@ == (AppModel {
                context_page: ContextPage::About,
                show_context: false,
                timer: pomodoro_timer@,
                settings: pomodoro_timer.settings_view(),
            }),
    {
        CosmicPomodoro { context_page: ContextPage::About, show_context: false, pomodoro_timer }
    }

    pub fn pomodoro_timer(&self) -> (r: &PomodoroTimer)
        ensures
            r@ == self@.timer,
            r.settings_view() == self@.settings,
            self.wf() ==> r.wf(),
    {
        &self.pomodoro_timer
    }

    /// The page that the context drawer shows, if it is open.
    pub fn context_drawer(&self) -> (r: Option<ContextPage>)
        ensures
            r == (if self@.show_context {
                Some(self@.context_page)
            } else {
                None
            }),
    {
        if self.show_context {
            Some(self.context_page)
        } else {
            None
        }
    }

    /// One elapsed second of wall-clock time.
    pub fn tick(&mut self)
        requires
            old(self).wf(),
        ensures
            final(self).wf(),
            final(self)@ == (AppModel { timer: old(self)@.timer.tick(), ..old(self)@ }),
    {
        self.pomodoro_timer.tick();
    }

    /// Handles one message; `is_focused` tells whether the window has the
    /// focus. Returns the outside work that the message asks for.
    pub fn update(&mut self, message: Message, is_focused: bool) -> (r: Effect)
        requires
            old(self).wf(),
        ensures
            final(self).wf(),
            (final(self)@, r) == old(self)@.update(message, is_focused),
    {
        match message {
            Message::LaunchUrl(url) => Effect::OpenUrl(url),
            Message::ToggleContextPage(page) => {
                if self.context_page == page {
                    self.show_context = !self.show_context;
                } else {
                    self.context_page = page;
                    self.show_context = true;
                }
                Effect::SetContextTitle(page)
            },
            Message::StartTimer => {
                self.pomodoro_timer.on_user_toggle();
                Effect::Nothing
            },
            Message::Refresh => match self.pomodoro_timer.on_tick_check(is_focused) {
                Some(event) => Effect::Notify(event),
                None => Effect::Nothing,
            },
            Message::ChangeSetting(m) => {
                self.pomodoro_timer.update_settings(m);
                Effect::Nothing
            },
        }
    }
}

} // verus!
