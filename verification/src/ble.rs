//! The link coordinator: it follows the state of the wireless link, says
//! when to advertise, and passes every report on to the host.
//!
//! The coordinator decides and leaves the doing to its caller: it is handed
//! what happened as an [`Event`] and answers with the [`Command`] to carry
//! out.

use crate::hid::Report;
use vstd::prelude::*;

verus! {

/// Time to wait between two looks at the number of connections while the
/// device advertises, in microseconds.
pub const CONNECTION_POLL_INTERVAL: u64 = 100_000;

/// Time to wait between two looks at the number of connections while a host
/// is connected, in microseconds.
pub const DISCONNECTION_POLL_INTERVAL: u64 = 500_000;

/// Time to leave the transport after a notification, in microseconds.
pub const NOTIFY_SETTLE_TIME: u64 = 7_000;

/// Settings of the link.
#[derive(Debug, Clone, Copy)]
pub struct Config {
    /// The name that the device advertises.
    pub device_name: &'static str,
}

/// Where the link to the host stands.
#[derive(Debug, Clone, Copy, PartialEq, Eq, Structural)]
pub enum ConnectionStatus {
    /// The coordinator has not been started.
    NotStarted,
    /// The device advertises and waits for a host.
    Unpaired,
    /// A host is connected.
    Paired,
}

/// What the coordinator is told.
#[derive(Debug, Clone, Copy, PartialEq, Eq)]
pub enum Event {
    /// The coordinator is started.
    Start,
    /// The transport has connected to a host.
    Connected,
    /// The transport has lost its host, for the reason given; zero stands
    /// for a link that was closed in order.
    Disconnected(u32),
    /// A report has arrived from the polling loop.
    Report(Report),
}

/// What the coordinator wants done.
#[derive(Debug, Clone, Copy, PartialEq, Eq)]
pub enum Command {
    /// Nothing.
    Idle,
    /// Start to advertise.
    StartAdvertising,
    /// Stop advertising.
    StopAdvertising,
    /// Notify the host of this report.
    Notify(Report),
}

impl ConnectionStatus {
    /// The transition table of the link: the status that follows `self` on
    /// `event`, and the command that goes with it.
    ///
    /// Starting arms the advertising, a connection ends it, and a
    /// disconnection arms it again, whatever its reason. A report is passed
    /// on whatever the status is, and never changes it. Nothing else has an
    /// effect.
    pub open spec fn step(self, event: Event) -> (ConnectionStatus, Command) {
        match (self, event) {
            (_, Event::Report(report)) => (self, Command::Notify(report)),
            (ConnectionStatus::NotStarted, Event::Start) => (
                ConnectionStatus::Unpaired,
                Command::StartAdvertising,
            ),
            (ConnectionStatus::Unpaired, Event::Connected) => (
                ConnectionStatus::Paired,
                Command::StopAdvertising,
            ),
            (ConnectionStatus::Paired, Event::Disconnected(_)) => (
                ConnectionStatus::Unpaired,
                Command::StartAdvertising,
            ),
            _ => (self, Command::Idle),
        }
    }

    /// What a look at the number of connections tells: a first connection
    /// while the device advertises, or the loss of the last one while it is
    /// paired.
    pub open spec fn seen(self, connected_count: usize) -> Option<Event> {
        match self {
            ConnectionStatus::Unpaired if connected_count > 0 => Some(Event::Connected),
            ConnectionStatus::Paired if connected_count == 0 => Some(Event::Disconnected(0)),
            _ => None,
        }
    }

    /// The status reached from `self` once `events` have been handled in
    /// order.
    pub open spec fn after(self, events: Seq<Event>) -> ConnectionStatus
        decreases events.len(),
    {
        if events.len() == 0 {
            self
        } else {
            self.after(events.drop_last()).step(events.last()).0
        }
    }

    /// The commands that handling `events` in order gives, one for each.
    pub open spec fn commands(self, events: Seq<Event>) -> Seq<Command>
        decreases events.len(),
    {
        if events.len() == 0 {
            Seq::empty()
        } else {
            self.commands(events.drop_last()).push(
                self.after(events.drop_last()).step(events.last()).1,
            )
        }
    }
}

/// The reports among `events`, in order.
pub open spec fn reports_in(events: Seq<Event>) -> Seq<Report>
    decreases events.len(),
{
    if events.len() == 0 {
        Seq::empty()
    } else {
        match events.last() {
            Event::Report(report) => reports_in(events.drop_last()).push(report),
            _ => reports_in(events.drop_last()),
        }
    }
}

/// The reports that `commands` notify the host of, in order.
pub open spec fn notified(commands: Seq<Command>) -> Seq<Report>
    decreases commands.len(),
{
    if commands.len() == 0 {
        Seq::empty()
    } else {
        match commands.last() {
            Command::Notify(report) => notified(commands.drop_last()).push(report),
            _ => notified(commands.drop_last()),
        }
    }
}

/// Reports reach the host in the order in which they arrived, each of them
/// once and nothing else: whatever else happens on the link, the
/// notifications that the coordinator asks for are the reports it was
/// handed.
pub proof fn lemma_reports_pass_in_order(status: ConnectionStatus, events: Seq<Event>)
    ensures
        status.commands(events).len() == events.len(),
        notified(status.commands(events)) == reports_in(events),
    decreases events.len(),
{
    if events.len() > 0 {
        lemma_reports_pass_in_order(status, events.drop_last());
        let commands = status.commands(events);
        assert(commands.drop_last() == status.commands(events.drop_last()));
    }
}

/// A coordinator that has been started stays started: no event leads back
/// to `NotStarted`.
pub proof fn lemma_started_stays_started(status: ConnectionStatus, events: Seq<Event>)
    requires
        status != ConnectionStatus::NotStarted,
    ensures
        status.after(events) != ConnectionStatus::NotStarted,
    decreases events.len(),
{
    if events.len() > 0 {
        lemma_started_stays_started(status, events.drop_last());
    }
}

/// The link coordinator.
#[derive(Debug, Clone, Copy)]
pub struct Server {
    status: ConnectionStatus,
    device_name: &'static str,
}

impl Server {
    /// Where the link stands.
    pub closed spec fn spec_status(&self) -> ConnectionStatus {
        self.status
    }

    /// The name that the device advertises.
    pub closed spec fn spec_device_name(&self) -> &'static str {
        self.device_name
    }

    /// Sets the coordinator up for the device that `config` describes. It
    /// is not started yet.
    pub fn initialize(config: &Config) -> (server: Server)
        ensures
            server.status() == ConnectionStatus::NotStarted,
            server.device_name() == config.device_name,
    {
        Server { status: ConnectionStatus::NotStarted, device_name: config.device_name }
    }

    /// Where the link stands.
    #[verifier::when_used_as_spec(spec_status)]
    pub fn status(&self) -> (status: ConnectionStatus)
        ensures
            status == self.spec_status(),
    {
        self.status
    }

    /// The name that the device advertises.
    #[verifier::when_used_as_spec(spec_device_name)]
    pub fn device_name(&self) -> (name: &'static str)
        ensures
            name == self.spec_device_name(),
    {
        self.device_name
    }

    /// Starts the coordinator: the first start asks for advertising and
    /// leaves the link unpaired; a later one does nothing.
    pub fn start(&mut self) -> (command: Command)
        ensures
            final(self).device_name() == old(self).device_name(),
            (final(self).status(), command) == old(self).status().step(Event::Start),
    {
        self.handle(Event::Start)
    }

    /// Handles one event: moves the status on and says what to do.
    pub fn handle(&mut self, event: Event) -> (command: Command)
        ensures
            final(self).device_name() == old(self).device_name(),
            (final(self).status(), command) == old(self).status().step(event),
    {
        match event {
            Event::Report(report) => Command::Notify(report),
            Event::Start => match self.status {
                ConnectionStatus::NotStarted => {
                    self.status = ConnectionStatus::Unpaired;
                    Command::StartAdvertising
                },
                _ => Command::Idle,
            },
            Event::Connected => match self.status {
                ConnectionStatus::Unpaired => {
                    self.status = ConnectionStatus::Paired;
                    Command::StopAdvertising
                },
                _ => Command::Idle,
            },
            Event::Disconnected(_) => match self.status {
                ConnectionStatus::Paired => {
                    self.status = ConnectionStatus::Unpaired;
                    Command::StartAdvertising
                },
                _ => Command::Idle,
            },
        }
    }

    /// Takes a look at the number of connections that the transport holds,
    /// and handles what it tells: a connection while advertising, a
    /// disconnection while paired, and nothing otherwise.
    pub fn observe(&mut self, connected_count: usize) -> (command: Command)
        ensures
            final(self).device_name() == old(self).device_name(),
            match old(self).status().seen(connected_count) {
                Some(event) => (final(self).status(), command) == old(self).status().step(event),
                None => final(self).status() == old(self).status() && command == Command::Idle,
            },
    {
        match self.status {
            ConnectionStatus::Unpaired => {
                if connected_count > 0 {
                    return self.handle(Event::Connected);
                }
            },
            ConnectionStatus::Paired => {
                if connected_count == 0 {
                    return self.handle(Event::Disconnected(0));
                }
            },
            ConnectionStatus::NotStarted => {},
        }
        Command::Idle
    }
}

} // verus!
