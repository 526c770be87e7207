//! The first half of connecting: making a client for the store's address.
//! Nothing goes over the network here; the client only holds what the
//! address says, and the program around the sweep connects with it.

use vstd::prelude::*;
use crate::address::{StoreAddress, url_of};
use crate::machine::{Event, EventView};

verus! {

#[verifier::external_type_specification]
#[verifier::external_body]
pub struct ExClient(redis::Client);

#[verifier::external_type_specification]
#[verifier::external_body]
pub struct ExRedisError(redis::RedisError);

/// Whether `redis::Client::open` makes a client from the text of a URL.
/// The text alone decides: the client library parses and checks it, and
/// reads nothing else.
pub uninterp spec fn client_accepts(url: Seq<char>) -> bool;

/// `redis::Client::open` on the text of a URL. It parses the URL and
/// checks it, and opens no connection. The one claim made is that the
/// URL's text decides whether a client comes back; which URLs are taken
/// is left to the client library.
#[verifier::external_body]
fn client_open(url: &str) -> (made: Result<redis::Client, redis::RedisError>)
    ensures
        made is Ok <==> client_accepts(url@),
{
    redis::Client::open(url)
}

/// The message of a `redis::RedisError`, as its `Display` writes it.
/// Nothing is claimed of the text.
#[verifier::external_body]
fn error_text(error: &redis::RedisError) -> (text: String) {
    error.to_string()
}

/// The event that reports a refused address, with the one message of the
/// refusal as its chain of causes.
pub fn refused(reason: String) -> (event: Event)
    ensures
        event@ == EventView::AddressRefused(seq![reason@]),
{
    let mut causes: Vec<String> = Vec::new();
    causes.push(reason);
    assert(causes.deep_view() =~= seq![reason@]);
    Event::AddressRefused(causes)
}

/// Makes the client for the store at `address`. What the client library
/// is handed is the address's URL, `scheme://host:port`, and a client
/// comes back exactly where the library takes that URL. Where it refuses
/// the URL, the event to hand to the sweep comes back in the client's
/// place: the refusal, with the one message the library gave for it.
pub fn open_client(address: &StoreAddress) -> (made: Result<redis::Client, Event>)
    ensures
        made is Ok <==> client_accepts(url_of(address@)),
        made matches Err(event) ==> exists|reason: Seq<char>|
            event@ == EventView::AddressRefused(seq![reason]),
{
    let url = address.url();
    match client_open(url.as_str()) {
        Ok(client) => Ok(client),
        Err(error) => Err(refused(error_text(&error))),
    }
}

} // verus!
