use vstd::prelude::*;
use vstd::string::*;

verus! {

/// An inbound request as decoded from one client message.
pub struct SocketMessage {
    pub event: String,
    pub public_key: Option<String>,
    pub identifier: Option<String>,
    pub signature: Option<String>,
    pub data: Option<String>,
}

/// A stored record, as written by a successful PUT and returned by GET.
pub struct Response {
    pub identifier: String,
    pub data: String,
    pub public_key: String,
    pub signature: String,
    pub timestamp: u64,
}

/// The reply to a GET or PUT: a record or an error text.
pub struct FinalResponse {
    pub data: Option<Response>,
    pub error: Option<String>,
}

/// The kind of request, chosen by the exact `event` tag.
#[derive(PartialEq, Eq, Structural, Clone, Copy, Debug)]
pub enum Event {
    GET,
    PUT,
    INVALID,
}

/// The event that a tag selects: `GET` and `PUT` match exactly, anything else
/// is invalid.
pub open spec fn event_of(tag: Seq<char>) -> Event {
    if tag == seq!['G', 'E', 'T'] {
        Event::GET
    } else if tag == seq!['P', 'U', 'T'] {
        Event::PUT
    } else {
        Event::INVALID
    }
}

impl FinalResponse {
    /// A reply that carries the error text `e` and no record.
    pub open spec fn is_error(self, e: Seq<char>) -> bool {
        &&& self.data is None
        &&& self.error is Some
        &&& self.error->0@ == e
    }

    /// A reply that carries an error and no record.
    pub open spec fn is_failure(self) -> bool {
        self.data is None && self.error is Some
    }

    /// A reply that carries exactly one of a record and an error.
    pub open spec fn well_formed(self) -> bool {
        self.data is Some <==> self.error is None
    }

    pub fn failure(e: String) -> (r: FinalResponse)
        ensures
            r.is_error(e@),
    {
        FinalResponse { data: None, error: Some(e) }
    }

    pub fn success(record: Response) -> (r: FinalResponse)
        ensures
            r.data == Some(record),
            r.error is None,
    {
        FinalResponse { data: Some(record), error: None }
    }
}

impl Event {
    /// Classifies an event tag; every tag is accepted.
    #[allow(clippy::should_implement_trait)]
    pub fn from_str(input: &str) -> (r: Result<Event, ()>)
        ensures
            r == Ok::<Event, ()>(event_of(input@)),
    {
        let tag = input.to_owned();
        let get = String::from_str("GET");
        let put = String::from_str("PUT");
        proof {
            reveal_strlit("GET");
            reveal_strlit("PUT");
            assert(get@ =~= seq!['G', 'E', 'T']);
            assert(put@ =~= seq!['P', 'U', 'T']);
        }
        if tag == get {
            Ok(Event::GET)
        } else if tag == put {
            Ok(Event::PUT)
        } else {
            Ok(Event::INVALID)
        }
    }
}

} // verus!
