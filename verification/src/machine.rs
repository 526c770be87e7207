//! The sweep as a state machine: which request is due in each state, and
//! what each result does to the state.

use vstd::prelude::*;
use crate::address::{AddressView, StoreAddress};
use crate::error::{
    ErrorView, SweepError, address_refused, connect_failed, enumeration_failed, report_of,
};
use crate::report::{DeletionOutcome, Level, OutcomeView, Record, RecordView, record_views};

verus! {

/// The exit status of a run that went through to the end, whatever became
/// of the single deletions.
pub const EXIT_COMPLETED: i32 = 0;

/// The exit status of a run that a fatal error ended.
pub const EXIT_FAILED: i32 = 1;

/// The pattern that matches every key name of the store. It is the one the
/// listing request goes out with.
pub const EVERY_KEY: &'static str = "*";

/// Where a run stands. A run only ever moves forward through
/// `Disconnected`, `Connected`, `Enumerated`, `Sweeping` and `Done`;
/// `Aborted` is entered from `Disconnected` or `Connected` alone.
#[derive(Clone, Copy, Debug, PartialEq, Eq, Structural)]
pub enum Phase {
    /// No connection yet.
    Disconnected,
    /// A live connection, and no key names yet.
    Connected,
    /// The key names are fixed and no deletion has been answered.
    Enumerated,
    /// Some deletions have been answered and some keys are left.
    Sweeping,
    /// Every key has had its deletion request.
    Done,
    /// A fatal error ended the run.
    Aborted,
}

/// What the outside reports back, as plain text.
pub enum EventView {
    AddressRefused(Seq<Seq<char>>),
    ConnectFailed(Seq<Seq<char>>),
    Connected,
    EnumerationFailed(Seq<Seq<char>>),
    KeysListed(Seq<Seq<char>>),
    DeletionFailed(Seq<char>),
    Deleted(nat),
}

/// The result of a request, as the program around the sweep reports it.
/// A failure carries the messages of the outside error and of the causes
/// below it, the nearest first.
#[derive(Debug, PartialEq, Eq)]
pub enum Event {
    /// No client could be made from the address.
    AddressRefused(Vec<String>),
    /// The connection attempt failed.
    ConnectFailed(Vec<String>),
    /// The connection is live.
    Connected,
    /// The request for the key names failed.
    EnumerationFailed(Vec<String>),
    /// The store listed these key names.
    KeysListed(Vec<String>),
    /// The deletion of the key that was due failed, for this reason.
    DeletionFailed(String),
    /// The store answered the deletion of the key that was due, with the
    /// number of keys it removed.
    Deleted(u64),
}

impl View for Event {
    type V = EventView;

    open spec fn view(&self) -> EventView {
        match self {
            Event::AddressRefused(causes) => EventView::AddressRefused(causes.deep_view()),
            Event::ConnectFailed(causes) => EventView::ConnectFailed(causes.deep_view()),
            Event::Connected => EventView::Connected,
            Event::EnumerationFailed(causes) => EventView::EnumerationFailed(causes.deep_view()),
            Event::KeysListed(keys) => EventView::KeysListed(keys.deep_view()),
            Event::DeletionFailed(reason) => EventView::DeletionFailed(reason@),
            Event::Deleted(removed) => EventView::Deleted(*removed as nat),
        }
    }
}

/// A request to the outside, as plain text.
pub enum CommandView {
    Connect,
    ListAllKeys,
    Delete(Seq<char>),
    Exit(int),
}

/// What the program around the sweep has to do next.
#[derive(Debug, PartialEq, Eq)]
pub enum Command {
    /// Open the connection to the store at the sweep's address.
    Connect,
    /// Ask the store for every key name it holds.
    ListAllKeys,
    /// Ask the store to delete this one key.
    Delete(String),
    /// End the process with this status.
    Exit(i32),
}

impl View for Command {
    type V = CommandView;

    open spec fn view(&self) -> CommandView {
        match self {
            Command::Connect => CommandView::Connect,
            Command::ListAllKeys => CommandView::ListAllKeys,
            Command::Delete(key) => CommandView::Delete(key@),
            Command::Exit(status) => CommandView::Exit(*status as int),
        }
    }
}

/// What a sweep is: its address, its phase, the snapshot of key names,
/// how many of them have had their deletion answered, and the error that
/// ended the run, if one did.
pub struct SweepView {
    pub address: AddressView,
    pub phase: Phase,
    pub keys: Seq<Seq<char>>,
    pub attempted: nat,
    pub failure: Option<ErrorView>,
}

/// The states a sweep can be in.
pub open spec fn valid(s: SweepView) -> bool {
    match s.phase {
        Phase::Disconnected | Phase::Connected => s.keys.len() == 0 && s.attempted == 0
            && s.failure is None,
        Phase::Enumerated => s.keys.len() > 0 && s.attempted == 0 && s.failure is None,
        Phase::Sweeping => 0 < s.attempted < s.keys.len() && s.failure is None,
        Phase::Done => s.attempted == s.keys.len() && s.failure is None,
        Phase::Aborted => s.keys.len() == 0 && s.attempted == 0 && s.failure is Some,
    }
}

/// The state of a run that has not started.
pub open spec fn initial(address: AddressView) -> SweepView {
    SweepView {
        address,
        phase: Phase::Disconnected,
        keys: Seq::empty(),
        attempted: 0,
        failure: None,
    }
}

/// The request that is due in a state.
pub open spec fn pending(s: SweepView) -> CommandView {
    match s.phase {
        Phase::Disconnected => CommandView::Connect,
        Phase::Connected => CommandView::ListAllKeys,
        Phase::Enumerated | Phase::Sweeping => CommandView::Delete(s.keys[s.attempted as int]),
        Phase::Done => CommandView::Exit(EXIT_COMPLETED as int),
        Phase::Aborted => CommandView::Exit(EXIT_FAILED as int),
    }
}

/// Whether an event is the result of a request.
pub open spec fn answers(command: CommandView, event: EventView) -> bool {
    match command {
        CommandView::Connect => event is AddressRefused || event is ConnectFailed
            || event is Connected,
        CommandView::ListAllKeys => event is EnumerationFailed || event is KeysListed,
        CommandView::Delete(_) => event is DeletionFailed || event is Deleted,
        CommandView::Exit(_) => false,
    }
}

/// The state in which a fatal error leaves a run.
pub open spec fn aborted(s: SweepView, error: ErrorView) -> SweepView {
    SweepView {
        address: s.address,
        phase: Phase::Aborted,
        keys: Seq::empty(),
        attempted: 0,
        failure: Some(error),
    }
}

/// The state once the store has listed `keys`: the snapshot is fixed, and
/// with no key in it the sweep is done at once.
pub open spec fn enumerated(s: SweepView, keys: Seq<Seq<char>>) -> SweepView {
    SweepView {
        address: s.address,
        phase: if keys.len() == 0 {
            Phase::Done
        } else {
            Phase::Enumerated
        },
        keys,
        attempted: 0,
        failure: None,
    }
}

/// The state once the deletion that was due has been answered, well or
/// badly: the sweep moves to the next key, and is done after the last.
pub open spec fn advanced(s: SweepView) -> SweepView {
    SweepView {
        address: s.address,
        phase: if s.attempted + 1 == s.keys.len() {
            Phase::Done
        } else {
            Phase::Sweeping
        },
        keys: s.keys,
        attempted: s.attempted + 1,
        failure: None,
    }
}

/// The state after an event. An event that is no result of the request
/// that is due changes nothing.
pub open spec fn absorb(s: SweepView, event: EventView) -> SweepView {
    match s.phase {
        Phase::Disconnected => match event {
            EventView::AddressRefused(causes) => aborted(s, address_refused(s.address, causes)),
            EventView::ConnectFailed(causes) => aborted(s, connect_failed(causes)),
            EventView::Connected => SweepView { phase: Phase::Connected, ..s },
            _ => s,
        },
        Phase::Connected => match event {
            EventView::EnumerationFailed(causes) => aborted(s, enumeration_failed(causes)),
            EventView::KeysListed(keys) => enumerated(s, keys),
            _ => s,
        },
        Phase::Enumerated | Phase::Sweeping => match event {
            EventView::DeletionFailed(_) | EventView::Deleted(_) => advanced(s),
            _ => s,
        },
        Phase::Done | Phase::Aborted => s,
    }
}

/// What an event says of the key whose deletion was due, if it is the
/// result of a deletion at all.
pub open spec fn outcome(s: SweepView, event: EventView) -> Option<OutcomeView> {
    if s.phase == Phase::Enumerated || s.phase == Phase::Sweeping {
        match event {
            EventView::Deleted(_) => Some(OutcomeView::Deleted(s.keys[s.attempted as int])),
            EventView::DeletionFailed(reason) => Some(
                OutcomeView::Failed(s.keys[s.attempted as int], reason),
            ),
            _ => None,
        }
    } else {
        None
    }
}

/// The line that closes a run that went through to the end.
pub open spec fn completion_line() -> RecordView {
    RecordView { level: Level::Info, text: "Program completed!"@ }
}

/// The lines that close a run: the completion line once the sweep is done,
/// the report of the error once the run is aborted, and nothing while the
/// run is still under way.
pub open spec fn summary_of(s: SweepView) -> Seq<RecordView> {
    match s.phase {
        Phase::Done => seq![completion_line()],
        Phase::Aborted => match s.failure {
            Some(error) => report_of(error),
            None => Seq::empty(),
        },
        _ => Seq::empty(),
    }
}

#[derive(Debug)]
enum Stage {
    Disconnected,
    Connected,
    Holding,
    Aborted,
}

/// One run of the sweep.
#[derive(Debug)]
pub struct Sweep {
    address: StoreAddress,
    stage: Stage,
    keys: Vec<String>,
    cursor: usize,
    failure: Option<SweepError>,
}

impl View for Sweep {
    type V = SweepView;

    closed spec fn view(&self) -> SweepView {
        SweepView {
            address: self.address@,
            phase: match self.stage {
                Stage::Disconnected => Phase::Disconnected,
                Stage::Connected => Phase::Connected,
                Stage::Holding => if self.cursor >= self.keys.len() {
                    Phase::Done
                } else if self.cursor == 0 {
                    Phase::Enumerated
                } else {
                    Phase::Sweeping
                },
                Stage::Aborted => Phase::Aborted,
            },
            keys: match self.stage {
                Stage::Holding => self.keys.deep_view(),
                _ => Seq::empty(),
            },
            attempted: match self.stage {
                Stage::Holding => self.cursor as nat,
                _ => 0,
            },
            failure: match self.stage {
                Stage::Aborted => match self.failure {
                    Some(error) => Some(error@),
                    None => None,
                },
                _ => None,
            },
        }
    }
}

impl Sweep {
    #[verifier::type_invariant]
    spec fn well_formed(self) -> bool {
        &&& self.stage is Holding ==> self.cursor <= self.keys.len()
        &&& self.stage is Aborted ==> self.failure is Some
    }

    /// A run that has not started, against the store at `address`.
    pub fn new(address: StoreAddress) -> (sweep: Sweep)
        ensures
            sweep@ == initial(address@),
            valid(sweep@),
    {
        Sweep { address, stage: Stage::Disconnected, keys: Vec::new(), cursor: 0, failure: None }
    }

    /// The address of the store.
    pub fn address(&self) -> (address: &StoreAddress)
        ensures
            address@ == self@.address,
    {
        &self.address
    }

    /// Where the run stands.
    pub fn phase(&self) -> (phase: Phase)
        ensures
            phase == self@.phase,
            valid(self@),
    {
        proof {
            use_type_invariant(self);
        }
        match self.stage {
            Stage::Disconnected => Phase::Disconnected,
            Stage::Connected => Phase::Connected,
            Stage::Holding => if self.cursor >= self.keys.len() {
                Phase::Done
            } else if self.cursor == 0 {
                Phase::Enumerated
            } else {
                Phase::Sweeping
            },
            Stage::Aborted => Phase::Aborted,
        }
    }

    /// The request that is due.
    pub fn command(&self) -> (command: Command)
        ensures
            command@ == pending(self@),
            valid(self@),
    {
        proof {
            use_type_invariant(self);
        }
        match self.stage {
            Stage::Disconnected => Command::Connect,
            Stage::Connected => Command::ListAllKeys,
            Stage::Holding => if self.cursor < self.keys.len() {
                Command::Delete(self.keys[self.cursor].clone())
            } else {
                Command::Exit(EXIT_COMPLETED)
            },
            Stage::Aborted => Command::Exit(EXIT_FAILED),
        }
    }

    /// Takes in the result of the request that was due. The run moves on as
    /// `absorb` says; where the event answers a deletion, the outcome for
    /// that key is handed back, and the run moves to the next key whether the
    /// deletion failed or not.
    pub fn handle(&mut self, event: Event) -> (reported: Option<DeletionOutcome>)
        ensures
            final(self)@ == absorb(old(self)@, event@),
            valid(final(self)@),
            match reported {
                Some(o) => outcome(old(self)@, event@) == Some(o@),
                None => outcome(old(self)@, event@) is None,
            },
    {
        proof {
            use_type_invariant(&*self);
        }
        match self.stage {
            Stage::Disconnected => match event {
                Event::AddressRefused(causes) => {
                    self.failure = Some(SweepError::address_refused(&self.address, causes));
                    self.stage = Stage::Aborted;
                    None
                },
                Event::ConnectFailed(causes) => {
                    self.failure = Some(SweepError::connect_failed(causes));
                    self.stage = Stage::Aborted;
                    None
                },
                Event::Connected => {
                    self.stage = Stage::Connected;
                    None
                },
                _ => None,
            },
            Stage::Connected => match event {
                Event::EnumerationFailed(causes) => {
                    self.failure = Some(SweepError::enumeration_failed(causes));
                    self.stage = Stage::Aborted;
                    None
                },
                Event::KeysListed(keys) => {
                    self.keys = keys;
                    self.cursor = 0;
                    self.stage = Stage::Holding;
                    None
                },
                _ => None,
            },
            Stage::Holding => if self.cursor < self.keys.len() {
                match event {
                    Event::Deleted(_) => {
                        let key = self.keys[self.cursor].clone();
                        self.cursor = self.cursor + 1;
                        Some(DeletionOutcome::Deleted(key))
                    },
                    Event::DeletionFailed(reason) => {
                        let key = self.keys[self.cursor].clone();
                        self.cursor = self.cursor + 1;
                        Some(DeletionOutcome::Failed(key, reason))
                    },
                    _ => None,
                }
            } else {
                None
            },
            Stage::Aborted => None,
        }
    }

    /// The error that ended the run, if one did.
    pub fn failure(&self) -> (failure: Option<&SweepError>)
        ensures
            match failure {
                Some(error) => self@.failure == Some(error@),
                None => self@.failure is None,
            },
            valid(self@),
    {
        proof {
            use_type_invariant(self);
        }
        match self.stage {
            Stage::Aborted => self.failure.as_ref(),
            _ => None,
        }
    }

    /// How many keys the snapshot holds.
    pub fn key_count(&self) -> (count: usize)
        ensures
            count == self@.keys.len(),
    {
        match self.stage {
            Stage::Holding => self.keys.len(),
            _ => 0,
        }
    }

    /// How many keys have had their deletion answered.
    pub fn attempted(&self) -> (count: usize)
        ensures
            count == self@.attempted,
    {
        match self.stage {
            Stage::Holding => self.cursor,
            _ => 0,
        }
    }

    /// The lines that close the run, as `summary_of` gives them.
    pub fn summary(&self) -> (records: Vec<Record>)
        ensures
            record_views(records@) == summary_of(self@),
    {
        proof {
            use_type_invariant(self);
        }
        match self.stage {
            Stage::Holding => {
                let mut records: Vec<Record> = Vec::new();
                if self.cursor >= self.keys.len() {
                    records.push(
                        Record { level: Level::Info, text: String::from_str("Program completed!") },
                    );
                }
                assert(record_views(records@) =~= summary_of(self@));
                records
            },
            Stage::Aborted => match &self.failure {
                Some(error) => error.report(),
                None => Vec::new(),
            },
            _ => {
                let records: Vec<Record> = Vec::new();
                assert(record_views(records@) =~= summary_of(self@));
                records
            },
        }
    }
}

} // verus!
