//! The provisioning state machine: how the device comes onto a network,
//! with credentials it has stored or with credentials it is handed over the
//! air.
//!
//! The machine owns the event flags. The radio's event context delivers
//! events to it and performs the action it answers with; the bring-up task
//! reports the stored configuration and the link status; the provisioning
//! task looks at the flags.

use vstd::prelude::*;
use crate::credentials::{
    decode_credentials, decoded, CredentialsView, DecodeError, NetworkCredentials,
};
use crate::flags::{after_wait, wait_satisfied, EventFlags, WaitStep, CONNECTED, PROVISIONING_DONE};

verus! {

/// Seconds between two looks at the link while the device waits for it.
pub const LINK_POLL_SECS: u64 = 1;

/// The flags that the provisioning task waits for.
pub const TASK_MASK: u32 = 3;

/// Where the device stands on its way onto the network.
#[derive(Clone, Copy, Debug, PartialEq, Eq, Structural)]
pub enum ProvisioningState {
    /// Nothing has been done yet.
    Idle,
    /// The radio driver is ready and the stored configuration is awaited.
    StartedRadio,
    /// The radio connects with the stored credentials.
    ConnectingStored,
    /// The radio listens for credentials handed over the air.
    AwaitingProvisioning,
    /// The link is up. The state is never left.
    Connected,
}

/// The sources of events that the machine registers for.
#[derive(Clone, Copy, Debug, PartialEq, Eq, Structural)]
pub enum EventCategory {
    /// Life cycle of the radio.
    Radio,
    /// Acquisition of an address.
    Address,
    /// Progress of the provisioning exchange.
    Provisioning,
}

/// The kinds of event, as they arrive with their raw payload.
#[derive(Clone, Copy, Debug, PartialEq, Eq, Structural)]
pub enum EventKind {
    RadioStarted,
    LinkLost,
    LinkAcquired,
    ScanDone,
    ChannelFound,
    CredentialsReceived,
    AckSent,
}

/// The numbers by which the platform tells the events of a category apart.
#[derive(Clone, Copy, Debug, PartialEq, Eq, Structural)]
pub struct EventIds {
    pub radio_started: i32,
    pub link_lost: i32,
    pub link_acquired: i32,
    pub scan_done: i32,
    pub channel_found: i32,
    pub credentials_received: i32,
    pub ack_sent: i32,
}

/// An event of the radio, decoded.
#[derive(Debug, PartialEq, Eq)]
pub enum ProvisioningEvent {
    RadioStarted,
    LinkLost,
    LinkAcquired,
    ScanDone,
    ChannelFound,
    CredentialsReceived(NetworkCredentials),
    AckSent,
}

/// An event as plain values.
pub enum EventView {
    RadioStarted,
    LinkLost,
    LinkAcquired,
    ScanDone,
    ChannelFound,
    CredentialsReceived(CredentialsView),
    AckSent,
}

impl View for ProvisioningEvent {
    type V = EventView;

    open spec fn view(&self) -> EventView {
        match self {
            ProvisioningEvent::RadioStarted => EventView::RadioStarted,
            ProvisioningEvent::LinkLost => EventView::LinkLost,
            ProvisioningEvent::LinkAcquired => EventView::LinkAcquired,
            ProvisioningEvent::ScanDone => EventView::ScanDone,
            ProvisioningEvent::ChannelFound => EventView::ChannelFound,
            ProvisioningEvent::CredentialsReceived(c) => EventView::CredentialsReceived(c@),
            ProvisioningEvent::AckSent => EventView::AckSent,
        }
    }
}

/// What the event context does for the machine after an event.
#[derive(Debug, PartialEq, Eq)]
pub enum HandlerAction {
    /// Nothing to do.
    Nothing,
    /// Start the task that runs the provisioning exchange.
    SpawnProvisioningTask,
    /// Ask the radio to connect again.
    Reconnect,
    /// Drop the link, configure the radio with these credentials, connect.
    Reconfigure(NetworkCredentials),
}

/// A handler action as plain values.
pub enum ActionView {
    Nothing,
    SpawnProvisioningTask,
    Reconnect,
    Reconfigure(CredentialsView),
}

impl View for HandlerAction {
    type V = ActionView;

    open spec fn view(&self) -> ActionView {
        match self {
            HandlerAction::Nothing => ActionView::Nothing,
            HandlerAction::SpawnProvisioningTask => ActionView::SpawnProvisioningTask,
            HandlerAction::Reconnect => ActionView::Reconnect,
            HandlerAction::Reconfigure(c) => ActionView::Reconfigure(c@),
        }
    }
}

/// The two ways onto the network.
#[derive(Clone, Copy, Debug, PartialEq, Eq, Structural)]
pub enum BringUpPlan {
    /// Connect with the stored credentials and wait for the link.
    ConnectStored,
    /// Listen for events, start the radio unconfigured and wait to be
    /// provisioned.
    Provision,
}

/// One step of a plan, carried out by the bring-up task.
#[derive(Clone, Copy, Debug, PartialEq, Eq, Structural)]
pub enum RadioAction {
    /// Have events of this category delivered to the machine.
    Register(EventCategory),
    /// Give the radio an empty client configuration.
    ClearConfiguration,
    /// Start the radio.
    Start,
    /// Connect to the configured network.
    Connect,
}

/// What the bring-up task does after a look at the link.
#[derive(Clone, Copy, Debug, PartialEq, Eq, Structural)]
pub enum LinkStep {
    /// The device is on the network: bring-up is over.
    Finished,
    /// Sleep for `LINK_POLL_SECS` seconds, then look again.
    PollAgain,
}

/// What the provisioning task does after a look at the flags.
#[derive(Clone, Copy, Debug, PartialEq, Eq, Structural)]
pub enum TaskStep {
    /// Nothing it waits for is set: suspend until a flag is raised.
    Suspend,
    /// A flag was seen, the exchange goes on: look again.
    Continue,
    /// The acknowledgment has gone out: stop the exchange and end the task.
    Finish,
}

/// The mark of a device that is on the network. It carries nothing: neither
/// the credentials nor anything else of the connection can be read from it.
#[derive(Debug)]
pub struct ActiveNetwork {
    mark: (),
}

/// The machine as plain values.
pub struct MachineView {
    pub state: ProvisioningState,
    /// Whether events are delivered to the machine.
    pub listening: bool,
    pub flags: u32,
}

/// What every machine keeps: it listens while it awaits provisioning, and
/// only then or once connected.
pub open spec fn valid_machine(m: MachineView) -> bool {
    &&& m.state == ProvisioningState::AwaitingProvisioning ==> m.listening
    &&& m.listening ==> m.state == ProvisioningState::AwaitingProvisioning || m.state
        == ProvisioningState::Connected
}

/// Whether stored credentials are there to connect with: some are stored and
/// they name a network.
pub open spec fn usable(stored: Option<CredentialsView>) -> bool {
    stored matches Some(c) && c.ssid.len() > 0
}

/// The plan for a stored configuration.
pub open spec fn plan_for(stored: Option<CredentialsView>) -> BringUpPlan {
    if usable(stored) {
        BringUpPlan::ConnectStored
    } else {
        BringUpPlan::Provision
    }
}

/// The steps of a plan, in the order in which they are carried out.
pub open spec fn plan_actions(plan: BringUpPlan) -> Seq<RadioAction> {
    match plan {
        BringUpPlan::ConnectStored => seq![RadioAction::Start, RadioAction::Connect],
        BringUpPlan::Provision => seq![
            RadioAction::Register(EventCategory::Radio),
            RadioAction::Register(EventCategory::Address),
            RadioAction::Register(EventCategory::Provisioning),
            RadioAction::ClearConfiguration,
            RadioAction::Start,
        ],
    }
}

/// The machine once the radio driver is ready.
pub open spec fn radio_readied(m: MachineView) -> MachineView {
    if m.state == ProvisioningState::Idle {
        MachineView {
            state: ProvisioningState::StartedRadio,
            listening: m.listening,
            flags: m.flags,
        }
    } else {
        m
    }
}

/// The machine once the stored configuration is known.
pub open spec fn path_chosen(m: MachineView, stored: Option<CredentialsView>) -> MachineView {
    if m.state != ProvisioningState::StartedRadio {
        m
    } else if usable(stored) {
        MachineView { state: ProvisioningState::ConnectingStored, listening: false, flags: m.flags }
    } else {
        MachineView {
            state: ProvisioningState::AwaitingProvisioning,
            listening: true,
            flags: m.flags,
        }
    }
}

/// The machine and the action after an event.
///
/// A machine that does not listen is not reached by events. Credentials
/// change no state: the state advances when the address arrives.
pub open spec fn handled(m: MachineView, e: EventView) -> (MachineView, ActionView) {
    if !m.listening {
        (m, ActionView::Nothing)
    } else {
        match e {
            EventView::RadioStarted => (m, ActionView::SpawnProvisioningTask),
            EventView::LinkLost => (
                MachineView { state: m.state, listening: true, flags: m.flags & !CONNECTED },
                ActionView::Reconnect,
            ),
            EventView::LinkAcquired => (
                MachineView {
                    state: ProvisioningState::Connected,
                    listening: true,
                    flags: m.flags | CONNECTED,
                },
                ActionView::Nothing,
            ),
            EventView::ScanDone => (m, ActionView::Nothing),
            EventView::ChannelFound => (m, ActionView::Nothing),
            EventView::CredentialsReceived(c) => (m, ActionView::Reconfigure(c)),
            EventView::AckSent => (
                MachineView {
                    state: m.state,
                    listening: true,
                    flags: m.flags | PROVISIONING_DONE,
                },
                ActionView::Nothing,
            ),
        }
    }
}

/// The category that delivers events of `kind`.
pub open spec fn category(kind: EventKind) -> EventCategory {
    match kind {
        EventKind::RadioStarted => EventCategory::Radio,
        EventKind::LinkLost => EventCategory::Radio,
        EventKind::LinkAcquired => EventCategory::Address,
        EventKind::ScanDone => EventCategory::Provisioning,
        EventKind::ChannelFound => EventCategory::Provisioning,
        EventKind::CredentialsReceived => EventCategory::Provisioning,
        EventKind::AckSent => EventCategory::Provisioning,
    }
}

/// The number that `ids` gives to the events of `kind`.
pub open spec fn id_of(ids: EventIds, kind: EventKind) -> i32 {
    match kind {
        EventKind::RadioStarted => ids.radio_started,
        EventKind::LinkLost => ids.link_lost,
        EventKind::LinkAcquired => ids.link_acquired,
        EventKind::ScanDone => ids.scan_done,
        EventKind::ChannelFound => ids.channel_found,
        EventKind::CredentialsReceived => ids.credentials_received,
        EventKind::AckSent => ids.ack_sent,
    }
}

/// The kind of the event that a category delivers under the number `id`,
/// where the machine knows it. Should two kinds of a category share a
/// number, the one named first in `EventKind` is meant.
pub open spec fn classified(ids: EventIds, from: EventCategory, id: i32) -> Option<EventKind> {
    match from {
        EventCategory::Radio => if id == ids.radio_started {
            Some(EventKind::RadioStarted)
        } else if id == ids.link_lost {
            Some(EventKind::LinkLost)
        } else {
            None
        },
        EventCategory::Address => if id == ids.link_acquired {
            Some(EventKind::LinkAcquired)
        } else {
            None
        },
        EventCategory::Provisioning => if id == ids.scan_done {
            Some(EventKind::ScanDone)
        } else if id == ids.channel_found {
            Some(EventKind::ChannelFound)
        } else if id == ids.credentials_received {
            Some(EventKind::CredentialsReceived)
        } else if id == ids.ack_sent {
            Some(EventKind::AckSent)
        } else {
            None
        },
    }
}

/// Whether no two kinds of one category share a number.
pub open spec fn distinct_within_categories(ids: EventIds) -> bool {
    &&& ids.radio_started != ids.link_lost
    &&& ids.scan_done != ids.channel_found
    &&& ids.scan_done != ids.credentials_received
    &&& ids.scan_done != ids.ack_sent
    &&& ids.channel_found != ids.credentials_received
    &&& ids.channel_found != ids.ack_sent
    &&& ids.credentials_received != ids.ack_sent
}

/// What an event of `kind` with `payload` decodes to.
pub open spec fn decoded_event(kind: EventKind, payload: Seq<u8>) -> Result<
    EventView,
    DecodeError,
> {
    match kind {
        EventKind::RadioStarted => Ok(EventView::RadioStarted),
        EventKind::LinkLost => Ok(EventView::LinkLost),
        EventKind::LinkAcquired => Ok(EventView::LinkAcquired),
        EventKind::ScanDone => Ok(EventView::ScanDone),
        EventKind::ChannelFound => Ok(EventView::ChannelFound),
        EventKind::CredentialsReceived => match decoded(payload) {
            Ok(c) => Ok(EventView::CredentialsReceived(c)),
            Err(e) => Err(e),
        },
        EventKind::AckSent => Ok(EventView::AckSent),
    }
}

/// The machine and the action after an event that arrives undecoded: an
/// event that cannot be decoded is dropped.
pub open spec fn delivered(m: MachineView, kind: EventKind, payload: Seq<u8>) -> (
    MachineView,
    ActionView,
) {
    match decoded_event(kind, payload) {
        Ok(e) => handled(m, e),
        Err(_) => (m, ActionView::Nothing),
    }
}

/// The machine after a look at the link: only a connection with stored
/// credentials is advanced by it.
pub open spec fn link_polled(m: MachineView, up: bool) -> MachineView {
    if m.state == ProvisioningState::ConnectingStored && up {
        MachineView { state: ProvisioningState::Connected, listening: m.listening, flags: m.flags }
    } else {
        m
    }
}

/// What the provisioning task does when it finds the flags `bits`.
pub open spec fn task_step(bits: u32) -> TaskStep {
    if bits & TASK_MASK == 0 {
        TaskStep::Suspend
    } else if bits & PROVISIONING_DONE != 0 {
        TaskStep::Finish
    } else {
        TaskStep::Continue
    }
}

/// The flags that the provisioning task leaves: what it has seen is lowered.
pub open spec fn task_polled(bits: u32) -> u32 {
    bits & !TASK_MASK
}

/// The category that delivers events of `kind`.
pub fn category_of(kind: EventKind) -> (from: EventCategory)
    ensures
        from == category(kind),
{
    match kind {
        EventKind::RadioStarted | EventKind::LinkLost => EventCategory::Radio,
        EventKind::LinkAcquired => EventCategory::Address,
        _ => EventCategory::Provisioning,
    }
}

/// Tells which kind of event a category has delivered under the number
/// `id`. An event that the machine does not know has no kind.
pub fn classify(ids: &EventIds, from: EventCategory, id: i32) -> (kind: Option<EventKind>)
    ensures
        kind == classified(*ids, from, id),
{
    match from {
        EventCategory::Radio => if id == ids.radio_started {
            Some(EventKind::RadioStarted)
        } else if id == ids.link_lost {
            Some(EventKind::LinkLost)
        } else {
            None
        },
        EventCategory::Address => if id == ids.link_acquired {
            Some(EventKind::LinkAcquired)
        } else {
            None
        },
        EventCategory::Provisioning => if id == ids.scan_done {
            Some(EventKind::ScanDone)
        } else if id == ids.channel_found {
            Some(EventKind::ChannelFound)
        } else if id == ids.credentials_received {
            Some(EventKind::CredentialsReceived)
        } else if id == ids.ack_sent {
            Some(EventKind::AckSent)
        } else {
            None
        },
    }
}

/// Decodes an event once, where it enters: only the event that carries
/// credentials has a payload to read.
pub fn decode_event(kind: EventKind, payload: &[u8]) -> (outcome: Result<
    ProvisioningEvent,
    DecodeError,
>)
    ensures
        match outcome {
            Ok(event) => decoded_event(kind, payload@) == Ok::<EventView, DecodeError>(event@),
            Err(e) => decoded_event(kind, payload@) == Err::<EventView, DecodeError>(e),
        },
{
    match kind {
        EventKind::RadioStarted => Ok(ProvisioningEvent::RadioStarted),
        EventKind::LinkLost => Ok(ProvisioningEvent::LinkLost),
        EventKind::LinkAcquired => Ok(ProvisioningEvent::LinkAcquired),
        EventKind::ScanDone => Ok(ProvisioningEvent::ScanDone),
        EventKind::ChannelFound => Ok(ProvisioningEvent::ChannelFound),
        EventKind::CredentialsReceived => match decode_credentials(payload) {
            Ok(c) => Ok(ProvisioningEvent::CredentialsReceived(c)),
            Err(e) => Err(e),
        },
        EventKind::AckSent => Ok(ProvisioningEvent::AckSent),
    }
}

/// The steps of `plan`, in the order in which they are carried out.
pub fn actions_of(plan: BringUpPlan) -> (steps: Vec<RadioAction>)
    ensures
        steps@ == plan_actions(plan),
{
    let mut steps: Vec<RadioAction> = Vec::new();
    match plan {
        BringUpPlan::ConnectStored => {
            steps.push(RadioAction::Start);
            steps.push(RadioAction::Connect);
        },
        BringUpPlan::Provision => {
            steps.push(RadioAction::Register(EventCategory::Radio));
            steps.push(RadioAction::Register(EventCategory::Address));
            steps.push(RadioAction::Register(EventCategory::Provisioning));
            steps.push(RadioAction::ClearConfiguration);
            steps.push(RadioAction::Start);
        },
    }
    steps
}

/// The provisioning state machine with the event flags it owns.
#[derive(Debug)]
pub struct Provisioning {
    state: ProvisioningState,
    listening: bool,
    flags: EventFlags,
}

impl View for Provisioning {
    type V = MachineView;

    closed spec fn view(&self) -> MachineView {
        MachineView { state: self.state, listening: self.listening, flags: self.flags@ }
    }
}

impl Provisioning {
    #[verifier::type_invariant]
    spec fn holds_validity(&self) -> bool {
        valid_machine(self@)
    }

    /// A machine that has done nothing yet.
    pub fn new() -> (machine: Provisioning)
        ensures
            machine@ == (MachineView {
                state: ProvisioningState::Idle,
                listening: false,
                flags: 0,
            }),
    {
        Provisioning { state: ProvisioningState::Idle, listening: false, flags: EventFlags::new() }
    }

    /// The state the machine is in.
    pub fn state(&self) -> (state: ProvisioningState)
        ensures
            state == self@.state,
            valid_machine(self@),
    {
        proof {
            use_type_invariant(self);
        }
        self.state
    }

    /// Whether the device is on the network.
    pub fn is_connected(&self) -> (connected: bool)
        ensures
            connected == (self@.state == ProvisioningState::Connected),
    {
        self.state == ProvisioningState::Connected
    }

    /// The mark of the active network, handed out once the machine is
    /// connected and not before.
    pub fn network(&self) -> (handle: Option<ActiveNetwork>)
        ensures
            handle is Some <==> self@.state == ProvisioningState::Connected,
    {
        if self.state == ProvisioningState::Connected {
            Some(ActiveNetwork { mark: () })
        } else {
            None
        }
    }

    /// Whether events are delivered to the machine.
    pub fn is_listening(&self) -> (listening: bool)
        ensures
            listening == self@.listening,
    {
        self.listening
    }

    /// The event flags as they stand.
    pub fn flags(&self) -> (flags: EventFlags)
        ensures
            flags@ == self@.flags,
    {
        self.flags
    }

    /// Notes that the radio driver is ready. Only an idle machine advances.
    pub fn radio_ready(&mut self)
        ensures
            final(self)@ == radio_readied(old(self)@),
    {
        proof {
            use_type_invariant(&*self);
        }
        if self.state == ProvisioningState::Idle {
            *self = Provisioning {
                state: ProvisioningState::StartedRadio,
                listening: self.listening,
                flags: self.flags,
            };
        }
    }

    /// Chooses the way onto the network from the stored configuration.
    ///
    /// Stored credentials that name a network are connected with, and the
    /// provisioning exchange is then left out altogether; otherwise the
    /// device waits to be provisioned. The answer is `None`, and nothing
    /// changes, unless the machine was waiting for this choice.
    pub fn choose_path(&mut self, stored: Option<&NetworkCredentials>) -> (plan: Option<
        BringUpPlan,
    >)
        ensures
            final(self)@ == path_chosen(
                old(self)@,
                match stored {
                    Some(c) => Some(c@),
                    None => None,
                },
            ),
            plan == if old(self)@.state == ProvisioningState::StartedRadio {
                Some(
                    plan_for(
                        match stored {
                            Some(c) => Some(c@),
                            None => None,
                        },
                    ),
                )
            } else {
                None
            },
    {
        proof {
            use_type_invariant(&*self);
        }
        if self.state != ProvisioningState::StartedRadio {
            return None;
        }
        let named = match stored {
            Some(c) => c.has_ssid(),
            None => false,
        };
        if named {
            *self = Provisioning {
                state: ProvisioningState::ConnectingStored,
                listening: false,
                flags: self.flags,
            };
            Some(BringUpPlan::ConnectStored)
        } else {
            *self = Provisioning {
                state: ProvisioningState::AwaitingProvisioning,
                listening: true,
                flags: self.flags,
            };
            Some(BringUpPlan::Provision)
        }
    }

    /// Takes one event and answers with what the event context is to do.
    pub fn handle_event(&mut self, event: ProvisioningEvent) -> (action: HandlerAction)
        ensures
            (final(self)@, action@) == handled(old(self)@, event@),
    {
        proof {
            use_type_invariant(&*self);
        }
        if !self.listening {
            return HandlerAction::Nothing;
        }
        match event {
            ProvisioningEvent::RadioStarted => HandlerAction::SpawnProvisioningTask,
            ProvisioningEvent::LinkLost => {
                let mut flags = self.flags;
                flags.clear(CONNECTED);
                *self = Provisioning { state: self.state, listening: true, flags };
                HandlerAction::Reconnect
            },
            ProvisioningEvent::LinkAcquired => {
                let mut flags = self.flags;
                flags.set(CONNECTED);
                *self = Provisioning {
                    state: ProvisioningState::Connected,
                    listening: true,
                    flags,
                };
                HandlerAction::Nothing
            },
            ProvisioningEvent::ScanDone => HandlerAction::Nothing,
            ProvisioningEvent::ChannelFound => HandlerAction::Nothing,
            ProvisioningEvent::CredentialsReceived(c) => HandlerAction::Reconfigure(c),
            ProvisioningEvent::AckSent => {
                let mut flags = self.flags;
                flags.set(PROVISIONING_DONE);
                *self = Provisioning { state: self.state, listening: true, flags };
                HandlerAction::Nothing
            },
        }
    }

    /// Takes one event as it arrives, decodes it and handles it. An event
    /// whose payload cannot be decoded is dropped.
    pub fn deliver(&mut self, kind: EventKind, payload: &[u8]) -> (action: HandlerAction)
        ensures
            (final(self)@, action@) == delivered(old(self)@, kind, payload@),
    {
        match decode_event(kind, payload) {
            Ok(event) => self.handle_event(event),
            Err(_) => HandlerAction::Nothing,
        }
    }

    /// Takes one look at the link by the bring-up task.
    ///
    /// A connection with stored credentials is over when the link is up. A
    /// device that awaits provisioning is connected by the arrival of its
    /// address, not by this look.
    pub fn link_status(&mut self, up: bool) -> (step: LinkStep)
        ensures
            final(self)@ == link_polled(old(self)@, up),
            step == if final(self)@.state == ProvisioningState::Connected {
                LinkStep::Finished
            } else {
                LinkStep::PollAgain
            },
    {
        proof {
            use_type_invariant(&*self);
        }
        if self.state == ProvisioningState::ConnectingStored && up {
            *self = Provisioning {
                state: ProvisioningState::Connected,
                listening: self.listening,
                flags: self.flags,
            };
        }
        if self.state == ProvisioningState::Connected {
            LinkStep::Finished
        } else {
            LinkStep::PollAgain
        }
    }

    /// Takes one look at the flags by the provisioning task, which waits
    /// without limit for either flag and lowers what it has seen.
    pub fn task_poll(&mut self) -> (step: TaskStep)
        ensures
            step == task_step(old(self)@.flags),
            final(self)@.state == old(self)@.state,
            final(self)@.listening == old(self)@.listening,
            final(self)@.flags == if step == TaskStep::Suspend {
                old(self)@.flags
            } else {
                task_polled(old(self)@.flags)
            },
    {
        proof {
            use_type_invariant(&*self);
        }
        let mut flags = self.flags;
        let seen = flags.wait(TASK_MASK, true, false, false);
        *self = Provisioning { state: self.state, listening: self.listening, flags };
        match seen {
            WaitStep::Ready(bits) => {
                assert(bits & PROVISIONING_DONE == old(self)@.flags & PROVISIONING_DONE) by {
                    let all = old(self)@.flags;
                    assert((all & 3u32) & 2u32 == all & 2u32) by (bit_vector);
                }
                if bits & PROVISIONING_DONE != 0 {
                    TaskStep::Finish
                } else {
                    TaskStep::Continue
                }
            },
            _ => TaskStep::Suspend,
        }
    }
}

/// Once connected, always connected: no event and no look at the link
/// takes the machine out of its last state.
pub proof fn lemma_connected_is_terminal(m: MachineView, e: EventView, up: bool)
    requires
        m.state == ProvisioningState::Connected,
    ensures
        handled(m, e).0.state == ProvisioningState::Connected,
        link_polled(m, up).state == ProvisioningState::Connected,
        radio_readied(m) == m,
{
}

/// Every step keeps the machine valid.
pub proof fn lemma_steps_keep_validity(
    m: MachineView,
    e: EventView,
    stored: Option<CredentialsView>,
    up: bool,
)
    requires
        valid_machine(m),
    ensures
        valid_machine(radio_readied(m)),
        valid_machine(path_chosen(m, stored)),
        valid_machine(handled(m, e).0),
        valid_machine(link_polled(m, up)),
{
}

/// Credentials that arrive change neither state nor flags: the machine
/// answers with the reconfiguration and waits for the address.
pub proof fn lemma_credentials_change_no_state(m: MachineView, c: CredentialsView)
    ensures
        handled(m, EventView::CredentialsReceived(c)).0 == m,
        m.listening ==> handled(m, EventView::CredentialsReceived(c)).1 == ActionView::Reconfigure(
            c,
        ),
{
}

/// With stored credentials that name a network the provisioning exchange
/// never starts: the plan registers for no event, the machine does not
/// listen, and whatever event reaches it is answered with nothing and
/// changes nothing. Only the link coming up ends the wait.
pub proof fn lemma_stored_path_skips_provisioning(
    m: MachineView,
    stored: CredentialsView,
    e: EventView,
)
    requires
        m.state == ProvisioningState::StartedRadio,
        stored.ssid.len() > 0,
    ensures
        plan_for(Some(stored)) == BringUpPlan::ConnectStored,
        plan_actions(plan_for(Some(stored))) == seq![RadioAction::Start, RadioAction::Connect],
        path_chosen(m, Some(stored)).state == ProvisioningState::ConnectingStored,
        handled(path_chosen(m, Some(stored)), e) == (
            path_chosen(m, Some(stored)),
            ActionView::Nothing,
        ),
        link_polled(path_chosen(m, Some(stored)), false) == path_chosen(m, Some(stored)),
        link_polled(path_chosen(m, Some(stored)), true).state == ProvisioningState::Connected,
{
}

/// The connected flag is lowered by the loss of the link and by the
/// provisioning task that has seen it, and by nothing else.
pub proof fn lemma_only_link_loss_lowers_connected(m: MachineView, e: EventView)
    requires
        m.flags & CONNECTED != 0,
        !(e is LinkLost),
    ensures
        handled(m, e).0.flags & CONNECTED != 0,
{
    let bits = m.flags;
    assert((bits | 1u32) & 1u32 != 0) by (bit_vector);
    assert((bits | 2u32) & 1u32 == bits & 1u32) by (bit_vector);
}

/// The provisioning task ends exactly when the acknowledgment flag is set,
/// and a flag raised before it looks is not lost.
pub proof fn lemma_task_sees_acknowledgment(bits: u32)
    ensures
        task_step(bits | PROVISIONING_DONE) == TaskStep::Finish,
        task_step(bits) == TaskStep::Finish <==> bits & PROVISIONING_DONE != 0,
        wait_satisfied(bits, TASK_MASK, false) <==> task_step(bits) != TaskStep::Suspend,
        task_polled(bits) == after_wait(bits, TASK_MASK, true),
{
    assert((bits | 2u32) & 3u32 != 0) by (bit_vector);
    assert((bits | 2u32) & 2u32 != 0) by (bit_vector);
    assert(bits & 2u32 != 0 ==> bits & 3u32 != 0) by (bit_vector);
}

/// No wakeup is lost between the event context and the provisioning task:
/// once the acknowledgment has been delivered to a listening machine the
/// task's next look ends it, and once the address has arrived its next
/// look does not suspend it, whatever the flags were before.
pub proof fn lemma_task_is_woken(m: MachineView)
    requires
        m.listening,
    ensures
        task_step(handled(m, EventView::AckSent).0.flags) == TaskStep::Finish,
        task_step(handled(m, EventView::LinkAcquired).0.flags) != TaskStep::Suspend,
{
    let bits = m.flags;
    assert((bits | 2u32) & 3u32 != 0) by (bit_vector);
    assert((bits | 2u32) & 2u32 != 0) by (bit_vector);
    assert((bits | 1u32) & 3u32 != 0) by (bit_vector);
}

/// An event is told apart by its category and its number together: the
/// kind found belongs to the category that delivered the event and bears
/// the number it came under, and where the numbers of a category differ
/// from one another every kind is found under its own.
pub proof fn lemma_classified_by_category_and_number(
    ids: EventIds,
    from: EventCategory,
    id: i32,
    kind: EventKind,
)
    ensures
        classified(ids, from, id) matches Some(found) ==> category(found) == from && id_of(
            ids,
            found,
        ) == id,
        distinct_within_categories(ids) ==> classified(ids, category(kind), id_of(ids, kind))
            == Some(kind),
{
}

} // verus!
