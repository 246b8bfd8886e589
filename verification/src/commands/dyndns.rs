//! Dynamic DNS: publishing the caller's public address, once per change.
//!
//! The decisions are a small state machine. Whoever drives it performs the
//! request that the machine is waiting on (resolve the public address, read
//! the last known address, call the registrar, persist, log) and hands the
//! answer back as an event.

use crate::address::IpAddress;
use crate::clock::utc_timestamp;
use crate::constants::{DYNDNS_EXECUTION_LOG_FILENAME, LAST_IP_FILENAME};
use crate::failure::{Failure, Operation};
use crate::paths::{join, joined};
use std::path::PathBuf;
use vstd::prelude::*;
use vstd::string::*;

verus! {

/// The arguments of the `dyndns` command.
#[derive(Debug)]
pub struct Command {
    /// The domain whose address is to be published.
    pub domain: String,
}

/// The file that holds the last known address.
pub fn get_last_ip_file(data_dir: &PathBuf) -> (file: PathBuf)
    ensures
        file == joined(*data_dir, LAST_IP_FILENAME@),
{
    join(data_dir, LAST_IP_FILENAME)
}

/// The file that the execution log is appended to.
pub fn get_execution_log_file(data_dir: &PathBuf) -> (file: PathBuf)
    ensures
        file == joined(*data_dir, DYNDNS_EXECUTION_LOG_FILENAME@),
{
    join(data_dir, DYNDNS_EXECUTION_LOG_FILENAME)
}

/// What reading the persisted last known address gave.
#[derive(Debug)]
pub enum Stored {
    /// The file is absent or could not be read.
    Unreadable,
    /// The file does not hold an address literal.
    Unparsable,
    Known(IpAddress),
}

impl Stored {
    /// The address that counts as previously published: an unparsable value
    /// counts like a missing one.
    pub open spec fn address(self) -> Option<IpAddress> {
        match self {
            Stored::Known(address) => Some(address),
            _ => None,
        }
    }

    pub fn into_address(self) -> (previous: Option<IpAddress>)
        ensures
            previous == self.address(),
    {
        match self {
            Stored::Known(address) => Some(address),
            _ => None,
        }
    }
}

/// One line of the execution log: a successful update.
#[derive(Debug)]
pub struct ExecutionLogEntry {
    pub timestamp: String,
    pub previous_address: Option<IpAddress>,
    pub new_address: IpAddress,
}

/// How a run ended.
#[derive(Debug)]
pub enum Outcome {
    ResolutionFailed,
    Unchanged,
    /// The registrar refused or could not be reached; the text is its error.
    UpdateFailed(String),
    Updated(IpAddress),
}

/// Trouble with the local state that is reported and does not end the run.
#[derive(Clone, Copy, Debug, PartialEq, Eq, Structural)]
pub enum LocalStateWarning {
    UnreadableLastAddress,
    UnparsableLastAddress,
    UnwritableLastAddress,
    UnwritableLog,
}

/// What the driver reports back to the machine.
#[derive(Debug)]
pub enum Event {
    Resolved(Option<IpAddress>),
    StoredRead(Stored),
    UpdateFinished(Result<(), String>),
    /// Whether the last known address was persisted.
    Written(bool),
    /// Whether the log entry was appended.
    Appended(bool),
}

/// What the machine asks of the driver.
#[derive(Debug)]
pub enum Action {
    ResolveAddress,
    ReadLastAddress,
    UpdateRegistrar { domain: String, address: IpAddress },
    /// Overwrite the last known address with the literal of `address`.
    WriteLastAddress { address: IpAddress },
    AppendLog { entry: ExecutionLogEntry },
    Finish { outcome: Outcome },
}

#[derive(Debug)]
pub enum Phase {
    Resolving,
    Reading { resolved: IpAddress },
    Updating { resolved: IpAddress, previous: Option<IpAddress> },
    Persisting { resolved: IpAddress, previous: Option<IpAddress> },
    Recording { entry: ExecutionLogEntry },
    Finished { outcome: Outcome },
}

/// A run of the reconciler for one domain.
#[derive(Debug)]
pub struct Reconciliation {
    pub domain: String,
    pub phase: Phase,
}

fn clone_previous(previous: &Option<IpAddress>) -> (copy: Option<IpAddress>)
    ensures
        copy == *previous,
{
    match previous {
        Some(address) => Some(address.clone()),
        None => None,
    }
}

impl Clone for ExecutionLogEntry {
    fn clone(&self) -> (copy: Self)
        ensures
            copy == *self,
    {
        ExecutionLogEntry {
            timestamp: self.timestamp.clone(),
            previous_address: clone_previous(&self.previous_address),
            new_address: self.new_address.clone(),
        }
    }
}

impl Clone for Outcome {
    fn clone(&self) -> (copy: Self)
        ensures
            copy == *self,
    {
        match self {
            Outcome::ResolutionFailed => Outcome::ResolutionFailed,
            Outcome::Unchanged => Outcome::Unchanged,
            Outcome::UpdateFailed(error) => Outcome::UpdateFailed(error.clone()),
            Outcome::Updated(address) => Outcome::Updated(address.clone()),
        }
    }
}

/// Whether the resolved address is the one already published.
pub open spec fn already_published(previous: Option<IpAddress>, resolved: IpAddress) -> bool {
    previous matches Some(address) && address.same_as(resolved)
}

impl Phase {
    /// The phase that follows when `event` arrives at time `now`. An event
    /// that does not answer the pending request changes nothing.
    pub open spec fn after(self, event: Event, now: String) -> Phase {
        match (self, event) {
            (Phase::Resolving, Event::Resolved(None)) => Phase::Finished {
                outcome: Outcome::ResolutionFailed,
            },
            (Phase::Resolving, Event::Resolved(Some(resolved))) => Phase::Reading { resolved },
            (Phase::Reading { resolved }, Event::StoredRead(stored)) => {
                if already_published(stored.address(), resolved) {
                    Phase::Finished { outcome: Outcome::Unchanged }
                } else {
                    Phase::Updating { resolved, previous: stored.address() }
                }
            },
            (Phase::Updating { resolved, previous }, Event::UpdateFinished(Ok(_))) => {
                Phase::Persisting { resolved, previous }
            },
            (Phase::Updating { resolved, previous }, Event::UpdateFinished(Err(error))) => {
                Phase::Finished { outcome: Outcome::UpdateFailed(error) }
            },
            (Phase::Persisting { resolved, previous }, Event::Written(_)) => Phase::Recording {
                entry: ExecutionLogEntry {
                    timestamp: now,
                    previous_address: previous,
                    new_address: resolved,
                },
            },
            (Phase::Recording { entry }, Event::Appended(_)) => Phase::Finished {
                outcome: Outcome::Updated(entry.new_address),
            },
            (phase, _) => phase,
        }
    }

    /// Whether `event` makes the machine read the clock.
    pub open spec fn stamps(self, event: Event) -> bool {
        self is Persisting && event is Written
    }
}

impl Reconciliation {
    pub open spec fn initial(domain: String) -> Reconciliation {
        Reconciliation { domain, phase: Phase::Resolving }
    }

    /// The request that the machine is waiting on.
    pub open spec fn pending(self) -> Action {
        match self.phase {
            Phase::Resolving => Action::ResolveAddress,
            Phase::Reading { resolved } => Action::ReadLastAddress,
            Phase::Updating { resolved, previous } => Action::UpdateRegistrar {
                domain: self.domain,
                address: resolved,
            },
            Phase::Persisting { resolved, previous } => Action::WriteLastAddress {
                address: resolved,
            },
            Phase::Recording { entry } => Action::AppendLog { entry },
            Phase::Finished { outcome } => Action::Finish { outcome },
        }
    }

    pub open spec fn after(self, event: Event, now: String) -> Reconciliation {
        Reconciliation { domain: self.domain, phase: self.phase.after(event, now) }
    }

    /// The warning that `event` gives rise to in this state, if any.
    pub open spec fn warning_on(self, event: Event) -> Option<LocalStateWarning> {
        match (self.phase, event) {
            (Phase::Reading { resolved }, Event::StoredRead(Stored::Unreadable)) => Some(
                LocalStateWarning::UnreadableLastAddress,
            ),
            (Phase::Reading { resolved }, Event::StoredRead(Stored::Unparsable)) => Some(
                LocalStateWarning::UnparsableLastAddress,
            ),
            (Phase::Persisting { resolved, previous }, Event::Written(false)) => Some(
                LocalStateWarning::UnwritableLastAddress,
            ),
            (Phase::Recording { entry }, Event::Appended(false)) => Some(
                LocalStateWarning::UnwritableLog,
            ),
            _ => None,
        }
    }

    pub fn start(command: &Command) -> (state: Reconciliation)
        ensures
            state == Reconciliation::initial(command.domain),
    {
        Reconciliation { domain: command.domain.clone(), phase: Phase::Resolving }
    }

    pub fn request(&self) -> (action: Action)
        ensures
            action == self.pending(),
    {
        match &self.phase {
            Phase::Resolving => Action::ResolveAddress,
            Phase::Reading { .. } => Action::ReadLastAddress,
            Phase::Updating { resolved, .. } => Action::UpdateRegistrar {
                domain: self.domain.clone(),
                address: resolved.clone(),
            },
            Phase::Persisting { resolved, .. } => Action::WriteLastAddress {
                address: resolved.clone(),
            },
            Phase::Recording { entry } => Action::AppendLog { entry: entry.clone() },
            Phase::Finished { outcome } => Action::Finish { outcome: outcome.clone() },
        }
    }

    pub fn warning(&self, event: &Event) -> (warning: Option<LocalStateWarning>)
        ensures
            warning == self.warning_on(*event),
    {
        match (&self.phase, event) {
            (Phase::Reading { .. }, Event::StoredRead(Stored::Unreadable)) => Some(
                LocalStateWarning::UnreadableLastAddress,
            ),
            (Phase::Reading { .. }, Event::StoredRead(Stored::Unparsable)) => Some(
                LocalStateWarning::UnparsableLastAddress,
            ),
            (Phase::Persisting { .. }, Event::Written(false)) => Some(
                LocalStateWarning::UnwritableLastAddress,
            ),
            (Phase::Recording { .. }, Event::Appended(false)) => Some(
                LocalStateWarning::UnwritableLog,
            ),
            _ => None,
        }
    }

    /// Takes `event` in, with `now` as the time of a log entry that it may
    /// give rise to.
    pub fn step_at(self, event: Event, now: String) -> (next: Reconciliation)
        ensures
            next == self.after(event, now),
    {
        let Reconciliation { domain, phase } = self;
        let phase = match phase {
            Phase::Resolving => match event {
                Event::Resolved(Some(resolved)) => Phase::Reading { resolved },
                Event::Resolved(None) => Phase::Finished { outcome: Outcome::ResolutionFailed },
                _ => Phase::Resolving,
            },
            Phase::Reading { resolved } => match event {
                Event::StoredRead(stored) => {
                    let previous = stored.into_address();
                    let unchanged = match &previous {
                        Some(address) => address.is_same_as(&resolved),
                        None => false,
                    };
                    if unchanged {
                        Phase::Finished { outcome: Outcome::Unchanged }
                    } else {
                        Phase::Updating { resolved, previous }
                    }
                },
                _ => Phase::Reading { resolved },
            },
            Phase::Updating { resolved, previous } => match event {
                Event::UpdateFinished(Ok(_)) => Phase::Persisting { resolved, previous },
                Event::UpdateFinished(Err(error)) => Phase::Finished {
                    outcome: Outcome::UpdateFailed(error),
                },
                _ => Phase::Updating { resolved, previous },
            },
            Phase::Persisting { resolved, previous } => match event {
                Event::Written(_) => Phase::Recording {
                    entry: ExecutionLogEntry {
                        timestamp: now,
                        previous_address: previous,
                        new_address: resolved,
                    },
                },
                _ => Phase::Persisting { resolved, previous },
            },
            Phase::Recording { entry } => match event {
                Event::Appended(_) => Phase::Finished {
                    outcome: Outcome::Updated(entry.new_address),
                },
                _ => Phase::Recording { entry },
            },
            Phase::Finished { outcome } => Phase::Finished { outcome },
        };
        Reconciliation { domain, phase }
    }

    /// Takes `event` in. The clock is read only where a log entry is made.
    pub fn step(self, event: Event) -> (next: Reconciliation)
        ensures
            exists|now: String| next == #[trigger] self.after(event, now),
            !self.phase.stamps(event) ==> forall|now: String|
                next == #[trigger] self.after(event, now),
    {
        let stamps = match (&self.phase, &event) {
            (Phase::Persisting { .. }, Event::Written(_)) => true,
            _ => false,
        };
        let now = if stamps {
            utc_timestamp()
        } else {
            String::new()
        };
        let ghost before = self;
        let next = self.step_at(event, now);
        assert(next == before.after(event, now));
        next
    }
}


/// Begins a run for the domain of the command: the state to drive from.
pub fn handle_dyndns(command: &Command) -> (state: Reconciliation)
    ensures
        state == Reconciliation::initial(command.domain),
{
    Reconciliation::start(command)
}

impl ExecutionLogEntry {
    /// How the previous address is written in the log.
    pub open spec fn previous_text(self) -> Seq<char> {
        match self.previous_address {
            None => "None"@,
            Some(address) => "Some("@ + address.literal@ + ")"@,
        }
    }

    /// The entry as one line of the log, without the line break.
    pub open spec fn line_text(self) -> Seq<char> {
        self.timestamp@ + ": Updated from ip "@ + self.previous_text() + " to "@
            + self.new_address.literal@
    }

    pub fn line(&self) -> (line: String)
        ensures
            line@ == self.line_text(),
    {
        let mut line = self.timestamp.clone();
        line.append(": Updated from ip ");
        match &self.previous_address {
            None => {
                line.append("None");
            },
            Some(address) => {
                line.append("Some(");
                line.append(address.literal.as_str());
                line.append(")");
                assert(line@ == self.timestamp@ + ": Updated from ip "@ + ("Some("@
                    + address.literal@ + ")"@));
            },
        }
        line.append(" to ");
        line.append(self.new_address.literal.as_str());
        line
    }
}

impl Outcome {
    /// Whether the run counts as a success of the command.
    pub open spec fn succeeded(self) -> bool {
        self is Unchanged || self is Updated
    }

    pub fn is_success(&self) -> (success: bool)
        ensures
            success == self.succeeded(),
    {
        match self {
            Outcome::Unchanged => true,
            Outcome::Updated(_) => true,
            _ => false,
        }
    }

    /// The failure that the run ended with, if it did not succeed.
    pub open spec fn failure(self) -> Option<Failure> {
        match self {
            Outcome::ResolutionFailed => Some(Failure::IpResolutionFailed),
            Outcome::UpdateFailed(error) => Some(
                Failure::ApiCallFailed { operation: Operation::UpdateDyndns, error },
            ),
            _ => None,
        }
    }

    pub fn into_failure(self) -> (failure: Option<Failure>)
        ensures
            failure == self.failure(),
    {
        match self {
            Outcome::ResolutionFailed => Some(Failure::IpResolutionFailed),
            Outcome::UpdateFailed(error) => Some(
                Failure::ApiCallFailed { operation: Operation::UpdateDyndns, error },
            ),
            _ => None,
        }
    }

    /// What the user is told at the end of the run.
    pub open spec fn message_text(self) -> Seq<char> {
        match self {
            Outcome::Unchanged => "IP hasn't changed since last time. Exiting"@,
            Outcome::Updated(address) => "Updated ip to "@ + address.literal@,
            _ => self.failure()->0.message_text(),
        }
    }

    pub fn message(&self) -> (message: String)
        ensures
            message@ == self.message_text(),
    {
        match self {
            Outcome::ResolutionFailed => Failure::IpResolutionFailed.message(),
            Outcome::Unchanged => String::from_str("IP hasn't changed since last time. Exiting"),
            Outcome::UpdateFailed(error) => crate::failure::failure_message(
                Operation::UpdateDyndns.description(),
                error.as_str(),
            ),
            Outcome::Updated(address) => {
                String::from_str("Updated ip to ").concat(address.literal.as_str())
            },
        }
    }
}

/// The persisted state under one data directory.
pub struct Store {
    pub last_address: Stored,
    pub log: Seq<ExecutionLogEntry>,
}

/// What the world outside answers during one run.
pub struct World {
    pub resolved: Option<IpAddress>,
    pub update: Result<(), String>,
    pub write_ok: bool,
    pub append_ok: bool,
    pub now: String,
}

/// One call of the registrar's update operation.
pub struct UpdateCall {
    pub domain: String,
    pub address: IpAddress,
}

/// A whole run: how it ended, what it left behind and what it asked of the
/// registrar.
pub struct Run {
    pub outcome: Outcome,
    pub store: Store,
    pub calls: Seq<UpdateCall>,
}

/// What one run does, from the world's answers and the persisted state.
pub open spec fn reconcile(domain: String, store: Store, world: World) -> Run {
    match world.resolved {
        None => Run { outcome: Outcome::ResolutionFailed, store, calls: Seq::empty() },
        Some(resolved) => {
            let previous = store.last_address.address();
            if already_published(previous, resolved) {
                Run { outcome: Outcome::Unchanged, store, calls: Seq::empty() }
            } else {
                let calls = Seq::empty().push(UpdateCall { domain, address: resolved });
                match world.update {
                    Err(error) => Run { outcome: Outcome::UpdateFailed(error), store, calls },
                    Ok(_) => {
                        let entry = ExecutionLogEntry {
                            timestamp: world.now,
                            previous_address: previous,
                            new_address: resolved,
                        };
                        Run {
                            outcome: Outcome::Updated(resolved),
                            store: Store {
                                last_address: if world.write_ok {
                                    Stored::Known(resolved)
                                } else {
                                    store.last_address
                                },
                                log: if world.append_ok {
                                    store.log.push(entry)
                                } else {
                                    store.log
                                },
                            },
                            calls,
                        }
                    },
                }
            }
        },
    }
}

/// The event with which a driver answers `action`.
pub open spec fn answer(action: Action, store: Store, world: World) -> Event {
    match action {
        Action::ResolveAddress => Event::Resolved(world.resolved),
        Action::ReadLastAddress => Event::StoredRead(store.last_address),
        Action::UpdateRegistrar { domain, address } => Event::UpdateFinished(world.update),
        Action::WriteLastAddress { address } => Event::Written(world.write_ok),
        Action::AppendLog { entry } => Event::Appended(world.append_ok),
        Action::Finish { outcome } => Event::Appended(false),
    }
}

/// The persisted state after a driver has performed `action`.
pub open spec fn performed(action: Action, store: Store, world: World) -> Store {
    match action {
        Action::WriteLastAddress { address } if world.write_ok => Store {
            last_address: Stored::Known(address),
            log: store.log,
        },
        Action::AppendLog { entry } if world.append_ok => Store {
            last_address: store.last_address,
            log: store.log.push(entry),
        },
        _ => store,
    }
}

/// The registrar calls so far, after a driver has performed `action`.
pub open spec fn called(action: Action, calls: Seq<UpdateCall>) -> Seq<UpdateCall> {
    match action {
        Action::UpdateRegistrar { domain, address } => calls.push(UpdateCall { domain, address }),
        _ => calls,
    }
}

/// Drives the machine from `state` for at most `steps` requests.
pub open spec fn drive(
    state: Reconciliation,
    store: Store,
    world: World,
    calls: Seq<UpdateCall>,
    steps: nat,
) -> Option<Run>
    decreases steps,
{
    match state.pending() {
        Action::Finish { outcome } => Some(Run { outcome, store, calls }),
        action => if steps == 0 {
            None
        } else {
            drive(
                state.after(answer(action, store, world), world.now),
                performed(action, store, world),
                world,
                called(action, calls),
                (steps - 1) as nat,
            )
        },
    }
}

/// A driver that performs each request of the machine and hands back the
/// answer ends after at most five requests, with exactly the run that
/// `reconcile` describes.
pub proof fn lemma_machine_reconciles(domain: String, store: Store, world: World)
    ensures
        drive(Reconciliation::initial(domain), store, world, Seq::empty(), 5) == Some(
            reconcile(domain, store, world),
        ),
{
    reveal_with_fuel(drive, 6);
}

/// What a series of runs does, one after the other on the same data
/// directory: the last run's outcome and state, and all calls in order.
pub open spec fn reconcile_each(domain: String, store: Store, worlds: Seq<World>) -> Run
    decreases worlds.len(),
{
    if worlds.len() == 0 {
        Run { outcome: Outcome::Unchanged, store, calls: Seq::empty() }
    } else {
        let before = reconcile_each(domain, store, worlds.drop_last());
        let last = reconcile(domain, before.store, worlds.last());
        Run { outcome: last.outcome, store: last.store, calls: before.calls + last.calls }
    }
}

/// As long as the resolved address is the one already stored, runs call
/// the registrar not once and leave the stored address and the log as they
/// are, however many of them follow one another.
pub proof fn lemma_unchanged_address_is_idempotent(
    domain: String,
    store: Store,
    worlds: Seq<World>,
)
    requires
        store.last_address is Known,
        forall|i: int|
            0 <= i < worlds.len() ==> already_published(
                store.last_address.address(),
                #[trigger] worlds[i].resolved->0,
            ) && worlds[i].resolved is Some,
    ensures
        reconcile_each(domain, store, worlds).store == store,
        reconcile_each(domain, store, worlds).calls == Seq::<UpdateCall>::empty(),
        reconcile_each(domain, store, worlds).outcome == Outcome::Unchanged,
    decreases worlds.len(),
{
    if worlds.len() > 0 {
        lemma_unchanged_address_is_idempotent(domain, store, worlds.drop_last());
    }
}

/// Without a usable stored address, be it missing or unparsable, a run calls
/// the registrar once, with the resolved address. When the registrar accepts,
/// the address is stored and one entry without a previous address is logged,
/// as far as the two writes go through; when it refuses, nothing changes.
pub proof fn lemma_converges_without_stored_address(
    domain: String,
    store: Store,
    world: World,
    resolved: IpAddress,
)
    requires
        store.last_address is Unreadable || store.last_address is Unparsable,
        world.resolved == Some(resolved),
    ensures
        reconcile(domain, store, world).calls == seq![UpdateCall { domain, address: resolved }],
        world.update is Ok ==> reconcile(domain, store, world).outcome == Outcome::Updated(
            resolved,
        ),
        world.update is Ok && world.write_ok ==> reconcile(domain, store, world).store.last_address
            == Stored::Known(resolved),
        world.update is Ok && world.append_ok ==> reconcile(domain, store, world).store.log
            == store.log.push(
            ExecutionLogEntry {
                timestamp: world.now,
                previous_address: None,
                new_address: resolved,
            },
        ),
        world.update is Err ==> reconcile(domain, store, world).store == store,
{
    assert(reconcile(domain, store, world).calls =~= seq![
        UpdateCall { domain, address: resolved },
    ]);
}

/// When the resolved address differs from the stored one, a run calls the
/// registrar once, with the resolved address. When the registrar accepts,
/// the resolved address replaces the stored one and one entry from the old
/// address to the new one is logged, as far as the two writes go through;
/// when it refuses, the stored address stays and nothing is logged.
pub proof fn lemma_change_is_propagated(
    domain: String,
    store: Store,
    world: World,
    stored: IpAddress,
    resolved: IpAddress,
)
    requires
        store.last_address == Stored::Known(stored),
        world.resolved == Some(resolved),
        !stored.same_as(resolved),
    ensures
        reconcile(domain, store, world).calls == seq![UpdateCall { domain, address: resolved }],
        world.update is Ok ==> reconcile(domain, store, world).outcome == Outcome::Updated(
            resolved,
        ),
        world.update is Ok && world.write_ok ==> reconcile(domain, store, world).store.last_address
            == Stored::Known(resolved),
        world.update is Ok && world.append_ok ==> reconcile(domain, store, world).store.log
            == store.log.push(
            ExecutionLogEntry {
                timestamp: world.now,
                previous_address: Some(stored),
                new_address: resolved,
            },
        ),
        world.update is Err ==> reconcile(domain, store, world).store == store,
        world.update is Err ==> reconcile(domain, store, world).outcome is UpdateFailed,
{
    assert(reconcile(domain, store, world).calls =~= seq![
        UpdateCall { domain, address: resolved },
    ]);
}

/// The persisted state follows the registrar: a run touches it only after
/// an update that the registrar accepted, the stored address is then the
/// one before or the one just published, and the log only ever grows, by at
/// most one entry a run.
pub proof fn lemma_store_follows_registrar(domain: String, store: Store, world: World)
    ensures
        !(reconcile(domain, store, world).outcome is Updated) ==> reconcile(
            domain,
            store,
            world,
        ).store == store,
        reconcile(domain, store, world).outcome is Updated ==> {
            &&& world.update is Ok
            &&& reconcile(domain, store, world).calls.len() == 1
            &&& Some(reconcile(domain, store, world).calls[0].address) == world.resolved
            &&& (reconcile(domain, store, world).store.last_address == store.last_address
                || reconcile(domain, store, world).store.last_address == Stored::Known(
                reconcile(domain, store, world).calls[0].address,
            ))
        },
        store.log.is_prefix_of(reconcile(domain, store, world).store.log),
        reconcile(domain, store, world).store.log.len() <= store.log.len() + 1,
{
}

/// Trouble with the local state never ends a run in failure: an event
/// that gives rise to a warning leaves the run going, or ends it as updated.
pub proof fn lemma_warnings_never_abort(state: Reconciliation, event: Event, now: String)
    requires
        state.warning_on(event) is Some,
    ensures
        state.after(event, now).phase matches Phase::Finished { outcome } ==> outcome.succeeded(),
        state.after(event, now).pending() matches Action::Finish { outcome }
            ==> outcome.failure() is None,
{
}

} // verus!
