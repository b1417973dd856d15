//! The polling loop as a state machine.
//!
//! The caller does the outside work and reports each result as an [`Event`];
//! [`Poller::step`] answers with the line to log and the next thing to do.
//! One tick runs like this: resolve the public address and report it; if the
//! answer is [`Action::Update`], send that request and report how it went;
//! when the answer is [`Action::Sleep`], sleep that long and resolve again.

use vstd::prelude::*;
use crate::config::{first_missing, Config, ConfigError, ConfigView};
use crate::notice::{answer_notice, notice_view, Notice, NoticeView};
use crate::request::{update_request, UpdateRequest, UpdateRequestView};
use crate::response::{ApiResponse, ApiResponseView, Failure, FailureView};

verus! {

/// The service that answers a `GET` with the caller's public address as
/// plain text; the whole body is the address.
pub const RESOLVER_URL: &'static str = "https://api.ipify.org";

/// Seconds between the end of one tick and the start of the next.
pub const POLL_INTERVAL_SECS: u64 = 60;

/// The result of a piece of outside work.
#[derive(Clone, Debug)]
pub enum Event {
    /// The resolver returned this text as the public address.
    Resolved(String),
    /// The resolver could not be reached or its answer could not be read.
    ResolveFailed(Failure),
    /// The provider answered the update, and the answer was decoded.
    UpdateAnswered(ApiResponse),
    /// The update did not reach the provider, or its answer could not be
    /// decoded.
    UpdateFailed(Failure),
}

/// An [`Event`] as plain values.
pub enum EventView {
    Resolved(Seq<char>),
    ResolveFailed(FailureView),
    UpdateAnswered(ApiResponseView),
    UpdateFailed(FailureView),
}

impl View for Event {
    type V = EventView;

    open spec fn view(&self) -> EventView {
        match self {
            Event::Resolved(address) => EventView::Resolved(address@),
            Event::ResolveFailed(failure) => EventView::ResolveFailed(failure@),
            Event::UpdateAnswered(response) => EventView::UpdateAnswered(response@),
            Event::UpdateFailed(failure) => EventView::UpdateFailed(failure@),
        }
    }
}

/// What the caller does next.
#[derive(Clone, Debug)]
pub enum Action {
    /// Send this request and report the outcome.
    Update(UpdateRequest),
    /// The tick is over: sleep this many seconds, then resolve again.
    Sleep(u64),
}

/// An [`Action`] as plain values.
pub enum ActionView {
    Update(UpdateRequestView),
    Sleep(u64),
}

impl View for Action {
    type V = ActionView;

    open spec fn view(&self) -> ActionView {
        match self {
            Action::Update(request) => ActionView::Update(request@),
            Action::Sleep(seconds) => ActionView::Sleep(*seconds),
        }
    }
}

/// The answer to an event: a line for the log, if any, and the next action.
#[derive(Clone, Debug)]
pub struct Step {
    /// The line to log.
    pub notice: Option<Notice>,
    /// What to do next.
    pub action: Action,
}

/// A [`Step`] as plain values.
pub struct StepView {
    pub notice: Option<NoticeView>,
    pub action: ActionView,
}

impl View for Step {
    type V = StepView;

    open spec fn view(&self) -> StepView {
        StepView { notice: notice_view(self.notice), action: self.action@ }
    }
}

/// The view of a step that may be absent.
pub open spec fn step_view(step: Option<Step>) -> Option<StepView> {
    match step {
        Some(step) => Some(step@),
        None => None,
    }
}

/// Where in a tick the poller stands.
#[derive(Clone, Debug)]
pub enum Phase {
    /// About to resolve: the next event is the resolver's result.
    Idle,
    /// The resolved address, held here, differs from the last known one and
    /// its update is under way: the next event is the outcome of the update.
    Comparing(String),
}

/// A [`Phase`] as plain values.
pub enum PhaseView {
    Idle,
    Comparing(Seq<char>),
}

impl View for Phase {
    type V = PhaseView;

    open spec fn view(&self) -> PhaseView {
        match self {
            Phase::Idle => PhaseView::Idle,
            Phase::Comparing(address) => PhaseView::Comparing(address@),
        }
    }
}

/// The state of the polling loop, as plain values.
pub struct PollerState {
    /// The settings the loop was started with.
    pub config: ConfigView,
    /// The address of the last update that the provider confirmed; empty
    /// until there is one.
    pub last_ip: Seq<char>,
    /// Where in a tick the loop stands.
    pub phase: PhaseView,
}

impl PollerState {
    /// The state a loop starts in: idle, with no address known.
    pub open spec fn initial(config: ConfigView) -> PollerState {
        PollerState { config: config, last_ip: Seq::empty(), phase: PhaseView::Idle }
    }

    /// Whether `event` is one the current phase waits for.
    pub open spec fn accepts(self, event: EventView) -> bool {
        match self.phase {
            PhaseView::Idle => event is Resolved || event is ResolveFailed,
            PhaseView::Comparing(_) => event is UpdateAnswered || event is UpdateFailed,
        }
    }

    /// Whether `event` makes the loop send an update: it does when an idle
    /// loop learns of an address other than the last known one.
    pub open spec fn issues_update(self, event: EventView) -> bool {
        &&& self.phase is Idle
        &&& event matches EventView::Resolved(address)
        &&& address != self.last_ip
    }

    /// The state after `event`.
    ///
    /// An idle loop that learns of a new address starts comparing and holds
    /// on to that address. The last known address moves only when the
    /// provider confirms the update of the held address; a refusal or a
    /// failed call leaves it as it was, so the next tick tries again.
    /// Whatever the outcome, the loop is idle afterwards. An event the phase
    /// does not wait for changes nothing.
    pub open spec fn after(self, event: EventView) -> PollerState {
        match self.phase {
            PhaseView::Idle => match event {
                EventView::Resolved(address) if address != self.last_ip => PollerState {
                    config: self.config,
                    last_ip: self.last_ip,
                    phase: PhaseView::Comparing(address),
                },
                _ => self,
            },
            PhaseView::Comparing(address) => match event {
                EventView::UpdateAnswered(response) => PollerState {
                    config: self.config,
                    last_ip: if response.success {
                        address
                    } else {
                        self.last_ip
                    },
                    phase: PhaseView::Idle,
                },
                EventView::UpdateFailed(_) => PollerState {
                    config: self.config,
                    last_ip: self.last_ip,
                    phase: PhaseView::Idle,
                },
                _ => self,
            },
        }
    }

    /// The answer to `event`: `None` where the phase does not wait for it,
    /// else the line to log and the next action. The action is an update
    /// exactly when [`PollerState::issues_update`] holds, and else the sleep
    /// that ends the tick.
    pub open spec fn answer(self, event: EventView) -> Option<StepView> {
        match self.phase {
            PhaseView::Idle => match event {
                EventView::Resolved(address) => Some(
                    if address == self.last_ip {
                        StepView {
                            notice: Some(NoticeView::AddressUnchanged { address: address }),
                            action: ActionView::Sleep(POLL_INTERVAL_SECS),
                        }
                    } else {
                        StepView {
                            notice: Some(
                                NoticeView::AddressChanged { from: self.last_ip, to: address },
                            ),
                            action: ActionView::Update(update_request(self.config, address)),
                        }
                    },
                ),
                EventView::ResolveFailed(failure) => Some(
                    StepView {
                        notice: Some(NoticeView::ResolveFailed(failure)),
                        action: ActionView::Sleep(POLL_INTERVAL_SECS),
                    },
                ),
                _ => None,
            },
            PhaseView::Comparing(_) => match event {
                EventView::UpdateAnswered(response) => Some(
                    StepView {
                        notice: answer_notice(response),
                        action: ActionView::Sleep(POLL_INTERVAL_SECS),
                    },
                ),
                EventView::UpdateFailed(failure) => Some(
                    StepView {
                        notice: Some(NoticeView::UpdateFailed(failure)),
                        action: ActionView::Sleep(POLL_INTERVAL_SECS),
                    },
                ),
                _ => None,
            },
        }
    }
}

/// The polling loop of one record: its settings, the last address the
/// provider confirmed, and where in a tick it stands.
#[derive(Debug)]
pub struct Poller {
    config: Config,
    last_ip: String,
    phase: Phase,
}

impl View for Poller {
    type V = PollerState;

    closed spec fn view(&self) -> PollerState {
        PollerState { config: self.config@, last_ip: self.last_ip@, phase: self.phase@ }
    }
}

impl Poller {
    /// A loop about to run its first tick: idle, with no address known.
    pub fn new(config: Config) -> (poller: Poller)
        ensures
            poller@ == PollerState::initial(config@),
    {
        Poller { config: config, last_ip: String::new(), phase: Phase::Idle }
    }

    /// Starts a loop from what a lookup of each setting gave.
    ///
    /// The loop starts only when all four settings are present: the result
    /// is a poller about to run its first tick exactly when every lookup
    /// found a value, and otherwise names the first setting that is absent,
    /// as [`Config::from_lookups`] does.
    pub fn start(
        api_token: Option<String>,
        zone_id: Option<String>,
        record_id: Option<String>,
        record_name: Option<String>,
    ) -> (started: Result<Poller, ConfigError>)
        ensures
            started is Ok <==> api_token is Some && zone_id is Some && record_id is Some
                && record_name is Some,
            started is Ok ==> started->Ok_0@ == PollerState::initial(
                ConfigView {
                    api_token: api_token->Some_0@,
                    zone_id: zone_id->Some_0@,
                    record_id: record_id->Some_0@,
                    record_name: record_name->Some_0@,
                },
            ),
            started is Err ==> Some(started->Err_0->Missing_0) == first_missing(
                api_token is Some,
                zone_id is Some,
                record_id is Some,
                record_name is Some,
            ),
    {
        match Config::from_lookups(api_token, zone_id, record_id, record_name) {
            Ok(config) => Ok(Poller::new(config)),
            Err(error) => Err(error),
        }
    }

    /// The settings the loop was started with.
    pub fn config(&self) -> (config: &Config)
        ensures
            config@ == self@.config,
    {
        &self.config
    }

    /// The address of the last update that the provider confirmed; empty
    /// until there is one.
    pub fn last_known_ip(&self) -> (address: &str)
        ensures
            address@ == self@.last_ip,
    {
        self.last_ip.as_str()
    }

    /// Where in a tick the loop stands.
    pub fn phase(&self) -> (phase: &Phase)
        ensures
            phase@ == self@.phase,
    {
        &self.phase
    }

    /// Takes the result of a piece of outside work and says what to do next.
    ///
    /// Returns `None`, and changes nothing, exactly when the event is not one
    /// the phase waits for. Otherwise the state moves as
    /// [`PollerState::after`] says and the step is the one
    /// [`PollerState::answer`] gives.
    pub fn step(&mut self, event: Event) -> (step: Option<Step>)
        ensures
            final(self)@ == old(self)@.after(event@),
            step_view(step) == old(self)@.answer(event@),
            step is Some <==> old(self)@.accepts(event@),
    {
        let held: Option<String> = match &self.phase {
            Phase::Idle => None,
            Phase::Comparing(address) => Some(address.clone()),
        };
        match held {
            None => match event {
                Event::Resolved(address) => {
                    if address == self.last_ip {
                        Some(
                            Step {
                                notice: Some(Notice::AddressUnchanged { address: address }),
                                action: Action::Sleep(POLL_INTERVAL_SECS),
                            },
                        )
                    } else {
                        let request = UpdateRequest::for_address(&self.config, address.as_str());
                        let notice = Notice::AddressChanged {
                            from: self.last_ip.clone(),
                            to: address.clone(),
                        };
                        self.phase = Phase::Comparing(address);
                        Some(Step { notice: Some(notice), action: Action::Update(request) })
                    }
                },
                Event::ResolveFailed(failure) => Some(
                    Step {
                        notice: Some(Notice::ResolveFailed(failure)),
                        action: Action::Sleep(POLL_INTERVAL_SECS),
                    },
                ),
                _ => None,
            },
            Some(address) => match event {
                Event::UpdateAnswered(response) => {
                    let notice = Notice::for_answer(&response);
                    if response.success {
                        self.last_ip = address;
                    }
                    self.phase = Phase::Idle;
                    Some(Step { notice: notice, action: Action::Sleep(POLL_INTERVAL_SECS) })
                },
                Event::UpdateFailed(failure) => {
                    self.phase = Phase::Idle;
                    Some(
                        Step {
                            notice: Some(Notice::UpdateFailed(failure)),
                            action: Action::Sleep(POLL_INTERVAL_SECS),
                        },
                    )
                },
                _ => None,
            },
        }
    }
}

} // verus!
