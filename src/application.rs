use vstd::prelude::*;

use crate::config::Config;
use crate::session::{Intent, Notice, Pomodoro, PomodoroMessage, SessionModel};
use crate::settings::{Settings, SettingsMessage};

verus! {

/// Where the project's source code is published.
pub fn repository() -> (r: &'static str)
    ensures
        r@ == "https://github.com/cosmic-utils/Chronos"@,
{
    "https://github.com/cosmic-utils/Chronos"
}

/// The messages the application reacts to.
#[derive(Clone, Debug)]
pub enum Message {
    OpenRepositoryUrl,
    SubscriptionChannel,
    ToggleContextPage,
    Open(String),
    UpdateConfig(Config),
    Pomodoro(PomodoroMessage),
    Settings(SettingsMessage),
    PomodoroTick,
    StartPomodoroTimer,
    PausePomodoroTimer,
}

/// The page shown in the context drawer.
#[derive(Clone, Copy, Default, Debug, PartialEq, Eq, Structural)]
pub enum ContextPage {
    #[default]
    About,
}

impl ContextPage {
    /// The localization key of the page's title.
    pub fn title(&self) -> (r: String)
        ensures
            r@ == "about"@,
    {
        String::from_str("about")
    }
}

/// The entries of the application menu.
#[derive(Clone, Copy, Debug, PartialEq, Eq, Structural)]
pub enum MenuAction {
    About,
}

impl MenuAction {
    /// The message that choosing the entry sends.
    pub fn message(&self) -> (r: Message)
        ensures
            r is ToggleContextPage,
    {
        Message::ToggleContextPage
    }
}

/// Work that the application asks its surroundings to carry out.
#[derive(Clone, Debug)]
pub enum Effect {
    /// Open this address in the desktop's browser.
    OpenUrl(String),
    /// Show this desktop notification.
    Notify(Notice),
    /// Write these settings to the settings store.
    PersistConfig(Config),
    /// Hand this message back to the application, after the current one.
    Send(Message),
}

/// How a request of the session reaches the application: the requests about
/// ticks come back as the messages that switch ticks on and off.
pub open spec fn effect_of(i: Intent) -> Effect {
    match i {
        Intent::RequestExternalTicking => Effect::Send(Message::StartPomodoroTimer),
        Intent::RequestStopExternalTicking => Effect::Send(Message::PausePomodoroTimer),
        Intent::RequestNotification(n) => Effect::Notify(n),
    }
}

/// The effects for `intents`, one each, in order.
pub open spec fn effects_of(intents: Seq<Intent>) -> Seq<Effect> {
    intents.map_values(|i: Intent| effect_of(i))
}

/// What the application is, mathematically.
pub struct AppState {
    pub context_page: ContextPage,
    pub show_context: bool,
    pub config: Config,
    pub session: SessionModel,
    pub settings: Config,
    pub ticking: bool,
}

impl AppState {
    /// The application after `msg`. A message for the session or the
    /// settings page changes that alone; what follows from it comes back as
    /// effects.
    pub open spec fn step(self, msg: Message) -> AppState {
        match msg {
            Message::ToggleContextPage => AppState { show_context: !self.show_context, ..self },
            Message::UpdateConfig(c) => AppState { config: c, ..self },
            Message::Pomodoro(m) => AppState { session: self.session.step(m), ..self },
            Message::PomodoroTick => AppState { session: self.session.ticked(), ..self },
            Message::Settings(m) => AppState { settings: m.applied_to(self.settings), ..self },
            Message::StartPomodoroTimer => AppState { ticking: true, ..self },
            Message::PausePomodoroTimer => AppState { ticking: false, ..self },
            _ => self,
        }
    }

    /// The effects the application asks for on `msg`, but for the one that
    /// opens the repository, whose address is a string of the program's.
    /// A settings change is to be stored, and the session to restart with it.
    pub open spec fn step_effects(self, msg: Message) -> Seq<Effect> {
        match msg {
            Message::Open(url) => seq![Effect::OpenUrl(url)],
            Message::Pomodoro(m) => effects_of(self.session.step_intents(m)),
            Message::PomodoroTick => effects_of(self.session.tick_intents()),
            Message::Settings(m) => seq![
                Effect::PersistConfig(m.applied_to(self.settings)),
                Effect::Send(
                    Message::Pomodoro(PomodoroMessage::UpdateConfig(m.applied_to(self.settings))),
                ),
            ],
            _ => Seq::<Effect>::empty(),
        }
    }
}

/// The application: the context drawer, the stored settings, the session,
/// the settings page, and whether ticks are being delivered.
pub struct AppModel {
    context_page: ContextPage,
    show_context: bool,
    config: Config,
    pomodoro: Pomodoro,
    settings: Settings,
    ticking: bool,
}

impl View for AppModel {
    type V = AppState;

    closed spec fn view(&self) -> AppState {
        AppState {
            context_page: self.context_page,
            show_context: self.show_context,
            config: self.config,
            session: self.pomodoro@,
            settings: self.settings@,
            ticking: self.ticking,
        }
    }
}

fn effect_for(i: Intent) -> (r: Effect)
    ensures
        r == effect_of(i),
{
    match i {
        Intent::RequestExternalTicking => Effect::Send(Message::StartPomodoroTimer),
        Intent::RequestStopExternalTicking => Effect::Send(Message::PausePomodoroTimer),
        Intent::RequestNotification(n) => Effect::Notify(n),
    }
}

/// The effects for the session's requests `intents`, in order.
fn effects_for(intents: &Vec<Intent>) -> (r: Vec<Effect>)
    ensures
        r@ == effects_of(intents@),
{
    let mut effects: Vec<Effect> = Vec::new();
    let mut i: usize = 0;
    while i < intents.len()
        invariant
            i <= intents@.len(),
            effects@ == effects_of(intents@.take(i as int)),
        decreases intents@.len() - i,
    {
        effects.push(effect_for(intents[i]));
        assert(effects_of(intents@.take(i as int + 1)) =~= effects_of(intents@.take(i as int)).push(
            effect_of(intents@[i as int]),
        ));
        i = i + 1;
    }
    assert(intents@.take(i as int) =~= intents@);
    effects
}

impl AppModel {
    /// The application as it starts with the stored settings `config`: no
    /// context drawer, a fresh session, no ticks.
    pub fn new(config: Config) -> (r: AppModel)
        ensures
            r@ == (AppState {
                context_page: ContextPage::About,
                show_context: false,
                config,
                session: SessionModel::reloaded(config),
                settings: config,
                ticking: false,
            }),
    {
        AppModel {
            context_page: ContextPage::About,
            show_context: false,
            config,
            pomodoro: Pomodoro::new(config),
            settings: Settings::new(&config),
            ticking: false,
        }
    }

    pub fn pomodoro(&self) -> (r: &Pomodoro)
        ensures
            r@ == self@.session,
    {
        &self.pomodoro
    }

    pub fn settings(&self) -> (r: &Settings)
        ensures
            r@ == self@.settings,
    {
        &self.settings
    }

    pub fn config(&self) -> (r: Config)
        ensures
            r == self@.config,
    {
        self.config
    }

    pub fn context_page(&self) -> (r: ContextPage)
        ensures
            r == self@.context_page,
    {
        self.context_page
    }

    pub fn show_context(&self) -> (r: bool)
        ensures
            r == self@.show_context,
    {
        self.show_context
    }

    /// Whether ticks are to be delivered, once a second.
    pub fn is_ticking(&self) -> (r: bool)
        ensures
            r == self@.ticking,
    {
        self.ticking
    }

    /// Handles one message and returns the effects to carry out, in order.
    pub fn update(&mut self, message: Message) -> (r: Vec<Effect>)
        ensures
            final(self)@ == old(self)@.step(message),
            !(message is OpenRepositoryUrl) ==> r@ == old(self)@.step_effects(message),
            message is OpenRepositoryUrl ==> r@.len() == 1 && r@[0] is OpenUrl
                && r@[0]->OpenUrl_0@ == "https://github.com/cosmic-utils/Chronos"@,
    {
        let mut effects: Vec<Effect> = Vec::new();
        match message {
            Message::OpenRepositoryUrl => {
                effects.push(Effect::OpenUrl(String::from_str(repository())));
            },
            Message::SubscriptionChannel => {},
            Message::ToggleContextPage => {
                self.show_context = !self.show_context;
            },
            Message::Open(url) => {
                effects.push(Effect::OpenUrl(url));
            },
            Message::UpdateConfig(c) => {
                self.config = c;
            },
            Message::Pomodoro(m) => {
                let intents = self.pomodoro.update(m);
                effects = effects_for(&intents);
            },
            Message::Settings(m) => {
                let c = self.settings.update(m);
                effects.push(Effect::PersistConfig(c));
                effects.push(Effect::Send(Message::Pomodoro(PomodoroMessage::UpdateConfig(c))));
            },
            Message::PomodoroTick => {
                let intents = self.pomodoro.on_tick();
                effects = effects_for(&intents);
            },
            Message::StartPomodoroTimer => {
                self.ticking = true;
            },
            Message::PausePomodoroTimer => {
                self.ticking = false;
            },
        }
        proof {
            if message is Settings {
                assert(effects@ =~= old(self)@.step_effects(message));
            }
        }
        effects
    }
}

} // verus!
