use vstd::prelude::*;

use crate::authority::str_eq;

verus! {

/// A published entry: its id, its content, when and by which service it was written.
#[derive(Debug, Clone)]
pub struct Frame {
    pub id: String,
    pub body: Page,
    pub time: String,
    /// The service that wrote it.
    pub by: String,
}

/// The content of an entry.
#[derive(Debug, Clone)]
pub struct Page {
    pub title: String,
    pub body: String,
}

/// A topic that accounts follow and services publish to.
#[derive(Debug, Clone)]
pub struct Topic {
    pub id: String,
    pub info: TopicInfo,
    pub name: String,
}

/// Miscellaneous figures about a topic.
#[derive(Debug, Clone)]
pub struct TopicInfo {
    pub pages: i64,
    pub subs: i64,
    pub time: String,
    pub desc: String,
}

/// The kind of a service.
#[derive(Debug, Clone, Copy, PartialEq, Eq, Structural)]
pub enum ServiceType {
    Unknown,
    Eh,
}

/// A service publishing to one topic.
#[derive(Debug, Clone)]
pub struct Service {
    pub id: String,
    pub typ: ServiceType,
    pub topic: String,
}

/// A follow relation between a user and a topic.
#[derive(Debug, Clone)]
pub struct FollowRequest {
    pub id: String,
    pub user: String,
    pub topic: String,
}

/// A list of topics.
#[derive(Debug, Clone)]
pub struct TopicList {
    pub fd: Vec<Topic>,
}

/// A list of entry contents.
#[derive(Debug, Clone)]
pub struct Book {
    pub fd: Vec<Page>,
}

/// A list of published entries.
#[derive(Debug, Clone)]
pub struct Album {
    pub fd: Vec<Frame>,
}

/// A message between two parties.
#[derive(Debug, Clone)]
pub struct Message {
    from: String,
    to: String,
    body: String,
    time: String,
}

/// A user's subscription to a topic.
#[derive(Debug, Clone)]
pub struct Subscription {
    pub id: String,
    pub user: String,
    pub topic: Topic,
}

/// The kind a service type is read as: only `eh` names a known kind.
pub open spec fn service_type_of(s: Seq<char>) -> ServiceType {
    if s == "eh"@ {
        ServiceType::Eh
    } else {
        ServiceType::Unknown
    }
}

/// The text a service type is printed as.
pub open spec fn service_type_text(t: ServiceType) -> Seq<char> {
    match t {
        ServiceType::Eh => "Eh"@,
        ServiceType::Unknown => "Unknown"@,
    }
}

impl ServiceType {
    /// Reads a service type from text.
    pub fn parse(value: &str) -> (r: ServiceType)
        ensures
            r == service_type_of(value@),
    {
        if str_eq(value, "eh") {
            ServiceType::Eh
        } else {
            ServiceType::Unknown
        }
    }

    /// The text a service type is printed and stored as.
    pub fn to_string(&self) -> (r: String)
        ensures
            r@ == service_type_text(*self),
    {
        match self {
            ServiceType::Eh => String::from_str("Eh"),
            ServiceType::Unknown => String::from_str("Unknown"),
        }
    }
}

impl<'a> From<&'a str> for ServiceType {
    fn from(value: &'a str) -> (r: ServiceType) {
        ServiceType::parse(value)
    }
}

impl<'a> vstd::std_specs::convert::FromSpecImpl<&'a str> for ServiceType {
    open spec fn obeys_from_spec() -> bool {
        true
    }

    open spec fn from_spec(value: &'a str) -> ServiceType {
        service_type_of(value@)
    }
}

/// Printing the unknown service type and reading it back gives it again. The
/// known kind does not come back: it prints as `Eh` and only `eh` reads as it.
pub proof fn service_type_text_round_trip()
    ensures
        service_type_of(service_type_text(ServiceType::Unknown)) == ServiceType::Unknown,
        service_type_of(service_type_text(ServiceType::Eh)) == ServiceType::Unknown,
{
    reveal_strlit("eh");
    reveal_strlit("Eh");
    reveal_strlit("Unknown");
    assert("eh"@.len() == 2 && "Unknown"@.len() == 7);
    assert("eh"@[0] == 'e' && "Eh"@[0] == 'E');
}

} // verus!
