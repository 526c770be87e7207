//! The errors that end a run, each with the chain of causes below it.

use vstd::prelude::*;
use crate::address::{AddressView, StoreAddress, url_of};
use crate::report::{Level, Record, RecordView, record_views};

verus! {

/// Which stage of the run failed. A failed deletion is no error of this
/// kind: it is reported for its key and the sweep goes on.
#[derive(Clone, Copy, Debug, PartialEq, Eq, Structural)]
pub enum ErrorKind {
    /// No connection to the store could be had.
    Connection,
    /// The request for the key names failed.
    Enumeration,
}

/// What an error is: its kind, its own message, and the messages of the
/// causes below it, the nearest first.
pub struct ErrorView {
    pub kind: ErrorKind,
    pub message: Seq<char>,
    pub causes: Seq<Seq<char>>,
}

/// An error that ends the run.
#[derive(Debug, PartialEq, Eq)]
pub struct SweepError {
    pub kind: ErrorKind,
    pub message: String,
    pub causes: Vec<String>,
}

impl View for SweepError {
    type V = ErrorView;

    open spec fn view(&self) -> ErrorView {
        ErrorView {
            kind: self.kind,
            message: self.message@,
            causes: self.causes.deep_view(),
        }
    }
}

/// The error for an address from which no client could be made.
pub open spec fn address_refused(address: AddressView, causes: Seq<Seq<char>>) -> ErrorView {
    ErrorView {
        kind: ErrorKind::Connection,
        message: "Unable to create redis client with address '"@ + url_of(address) + "'"@,
        causes,
    }
}

/// The error for a store that could not be reached.
pub open spec fn connect_failed(causes: Seq<Seq<char>>) -> ErrorView {
    ErrorView {
        kind: ErrorKind::Connection,
        message: "Unable to get redis client connection"@,
        causes,
    }
}

/// The error for a failed request for the key names.
pub open spec fn enumeration_failed(causes: Seq<Seq<char>>) -> ErrorView {
    ErrorView {
        kind: ErrorKind::Enumeration,
        message: "Unable to get all keys from redis server"@,
        causes,
    }
}

/// The headline of an error report.
pub open spec fn headline(message: Seq<char>) -> RecordView {
    RecordView { level: Level::Error, text: "Error: "@ + message }
}

/// The report line of one cause.
pub open spec fn cause_line(cause: Seq<char>) -> RecordView {
    RecordView { level: Level::Error, text: "> Caused by: "@ + cause }
}

/// The report of an error: its headline, then one line for each cause in
/// the chain, the nearest first.
pub open spec fn report_of(error: ErrorView) -> Seq<RecordView> {
    seq![headline(error.message)] + error.causes.map_values(|cause: Seq<char>| cause_line(cause))
}

impl SweepError {
    /// The error for an address from which no client could be made.
    pub fn address_refused(address: &StoreAddress, causes: Vec<String>) -> (error: SweepError)
        ensures
            error@ == address_refused(address@, causes.deep_view()),
    {
        let mut message = String::from_str("Unable to create redis client with address '");
        let url = address.url();
        message.append(url.as_str());
        message.append("'");
        SweepError { kind: ErrorKind::Connection, message, causes }
    }

    /// The error for a store that could not be reached.
    pub fn connect_failed(causes: Vec<String>) -> (error: SweepError)
        ensures
            error@ == connect_failed(causes.deep_view()),
    {
        SweepError {
            kind: ErrorKind::Connection,
            message: String::from_str("Unable to get redis client connection"),
            causes,
        }
    }

    /// The error for a failed request for the key names.
    pub fn enumeration_failed(causes: Vec<String>) -> (error: SweepError)
        ensures
            error@ == enumeration_failed(causes.deep_view()),
    {
        SweepError {
            kind: ErrorKind::Enumeration,
            message: String::from_str("Unable to get all keys from redis server"),
            causes,
        }
    }

    /// The lines that report this error: the headline, then the chain of
    /// causes in order.
    pub fn report(&self) -> (records: Vec<Record>)
        ensures
            record_views(records@) == report_of(self@),
    {
        let mut records: Vec<Record> = Vec::new();
        let mut text = String::from_str("Error: ");
        text.append(self.message.as_str());
        records.push(Record { level: Level::Error, text });
        let mut i: usize = 0;
        while i < self.causes.len()
            invariant
                i <= self.causes.len(),
                records@.len() == i + 1,
                records@[0]@ == headline(self@.message),
                forall|k: int|
                    1 <= k <= i ==> (#[trigger] records@[k])@ == cause_line(self.causes@[k - 1]@),
            decreases self.causes.len() - i,
        {
            let mut line = String::from_str("> Caused by: ");
            line.append(self.causes[i].as_str());
            records.push(Record { level: Level::Error, text: line });
            i = i + 1;
        }
        proof {
            let lines = self@.causes.map_values(|cause: Seq<char>| cause_line(cause));
            assert forall|k: int| 0 <= k < records@.len() implies record_views(records@)[k]
                == report_of(self@)[k] by {
                if k >= 1 {
                    assert(report_of(self@)[k] == lines[k - 1]);
                    assert(self@.causes[k - 1] == self.causes@[k - 1]@);
                }
            }
            assert(record_views(records@) =~= report_of(self@));
        }
        records
    }
}

} // verus!
