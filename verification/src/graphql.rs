use vstd::prelude::*;

use crate::accounts::Identity;
use crate::authority::Authority;
use crate::database::{is_publish_request, is_subscribe_request, Database, DbError, DbRequest};
use crate::models::{service_type_of, service_type_text, Page, Service, ServiceType};

verus! {

/// The root of the GraphQL queries.
pub struct Query;

/// The root of the GraphQL mutations.
pub struct Mutation;

/// The root of the GraphQL subscriptions.
pub struct Subscription;

/// The GraphQL operations that act on the database.
#[derive(Debug, Clone, Copy, PartialEq, Eq, Structural)]
pub enum Operation {
    Topics,
    Book,
    TopicsLike,
    Subscribe,
    Unsubscribe,
    StartService,
    Publish,
    CreateTopic,
    TerminateService,
}

/// Which authorities each operation admits: a subscriber reads topics and
/// manages their subscriptions; a service provider starts services; a
/// service provider or an admin publishes, creates topics and ends services.
pub open spec fn permitted(op: Operation, auth: Authority) -> bool {
    match op {
        Operation::Topics | Operation::Book | Operation::TopicsLike | Operation::Subscribe
        | Operation::Unsubscribe => auth == Authority::Subscriber,
        Operation::StartService => auth == Authority::ServiceProvider,
        Operation::Publish | Operation::CreateTopic | Operation::TerminateService => auth
            == Authority::ServiceProvider || auth == Authority::Admin,
    }
}

/// Why a GraphQL operation is refused.
#[derive(Debug, Clone)]
pub enum FieldError {
    /// The caller's authority does not admit the operation.
    Unauthorized,
    /// The database operation refused.
    Database(DbError),
}

impl FieldError {
    /// The message of an authority refusal.
    pub fn unauthorized_message() -> (r: String)
        ensures
            r@ == "Unauthorized"@,
    {
        String::from_str("Unauthorized")
    }
}

/// Whether the caller's authority admits the operation.
pub fn permits(op: Operation, auth: Authority) -> (r: bool)
    ensures
        r == permitted(op, auth),
{
    match op {
        Operation::Topics | Operation::Book | Operation::TopicsLike | Operation::Subscribe
        | Operation::Unsubscribe => auth == Authority::Subscriber,
        Operation::StartService => auth == Authority::ServiceProvider,
        Operation::Publish | Operation::CreateTopic | Operation::TerminateService => auth
            == Authority::ServiceProvider || auth == Authority::Admin,
    }
}

impl Query {
    /// A constant probe.
    pub fn test(&self) -> (r: i32)
        ensures
            r == 1,
    {
        1
    }

    /// Your topics: for a subscriber, the listing of their topics.
    pub fn topics(&self, me: &Identity) -> (r: Result<DbRequest, FieldError>)
        ensures
            r is Ok <==> permitted(Operation::Topics, me.auth),
            r matches Err(e) ==> e is Unauthorized,
            r matches Ok(q) ==> q.is("get_topics"@, seq![("me"@, me.user_id@)]),
    {
        if !permits(Operation::Topics, me.auth) {
            return Err(FieldError::Unauthorized);
        }
        Ok(Database::get_topics(me.user_id.clone()))
    }

    /// A topic's contents: for a subscriber, the check that they follow it,
    /// which opens the reading of its entries.
    pub fn book(&self, me: &Identity, topic: String) -> (r: Result<DbRequest, FieldError>)
        ensures
            r is Ok <==> permitted(Operation::Book, me.auth),
            r matches Err(e) ==> e is Unauthorized,
            r matches Ok(q) ==> q.is("is_subbed"@, seq![("tname"@, topic@), ("me"@, me.user_id@)]),
    {
        if !permits(Operation::Book, me.auth) {
            return Err(FieldError::Unauthorized);
        }
        Ok(Database::get_book(me.user_id.clone(), topic))
    }

    /// Prefix search for topics, for a subscriber.
    pub fn topics_like(&self, me: &Identity, prefix: String) -> (r: Result<DbRequest, FieldError>)
        ensures
            r is Ok <==> permitted(Operation::TopicsLike, me.auth),
            r matches Err(e) ==> e is Unauthorized,
            r matches Ok(q) ==> q.is("search_topic_by_name"@, seq![("prefix"@, prefix@)]),
    {
        if !permits(Operation::TopicsLike, me.auth) {
            return Err(FieldError::Unauthorized);
        }
        Ok(Database::search_topic_by_name(prefix))
    }
}

impl Mutation {
    /// A constant probe.
    pub fn test(&self) -> (r: i32)
        ensures
            r == 1,
    {
        1
    }

    /// Follows a topic, for a subscriber.
    pub fn subscribe(&self, me: &Identity, topic: String) -> (r: Result<DbRequest, FieldError>)
        ensures
            r is Ok <==> permitted(Operation::Subscribe, me.auth),
            r matches Err(e) ==> e is Unauthorized,
            r matches Ok(q) ==> is_subscribe_request(q, me.user_id@, topic@),
    {
        if !permits(Operation::Subscribe, me.auth) {
            return Err(FieldError::Unauthorized);
        }
        let q = Database::subscribe_to(me.user_id.clone(), topic);
        Ok(q)
    }

    /// Stops following a topic, for a subscriber.
    pub fn unsubscribe(&self, me: &Identity, topic: String) -> (r: Result<DbRequest, FieldError>)
        ensures
            r is Ok <==> permitted(Operation::Unsubscribe, me.auth),
            r matches Err(e) ==> e is Unauthorized,
            r matches Ok(q) ==> q.is("unsubscribe"@, seq![("me"@, me.user_id@), ("tname"@, topic@)]),
    {
        if !permits(Operation::Unsubscribe, me.auth) {
            return Err(FieldError::Unauthorized);
        }
        Ok(Database::unsubscribe(me.user_id.clone(), topic))
    }

    /// Starts a service of the named kind on a topic, for a service provider.
    pub fn start_service(&self, me: &Identity, topic: String, typ: &str) -> (r: Result<
        DbRequest,
        FieldError,
    >)
        ensures
            r is Ok <==> permitted(Operation::StartService, me.auth),
            r matches Err(e) ==> e is Unauthorized,
            r matches Ok(q) ==> q.is_with_fresh_id(
                "new_service"@,
                seq![
                    ("sid"@, seq![]),
                    ("tname"@, topic@),
                    ("typ"@, service_type_text(service_type_of(typ@))),
                ],
                0,
            ),
    {
        if !permits(Operation::StartService, me.auth) {
            return Err(FieldError::Unauthorized);
        }
        let kind = ServiceType::parse(typ);
        Ok(Database::new_service(kind, topic))
    }

    /// Publishes an entry through a service, for a service provider or an admin.
    pub fn publish(&self, me: &Identity, serv: &Service, fr: &Page) -> (r: Result<
        DbRequest,
        FieldError,
    >)
        ensures
            r is Ok <==> permitted(Operation::Publish, me.auth),
            r matches Err(e) ==> e is Unauthorized,
            r matches Ok(q) ==> is_publish_request(q, *serv, *fr),
    {
        if !permits(Operation::Publish, me.auth) {
            return Err(FieldError::Unauthorized);
        }
        Ok(Database::publish(serv, fr))
    }

    /// Creates a topic: the GraphQL check admits a service provider or an
    /// admin, and the database operation then admits only an admin.
    pub fn create_topic(&self, me: &Identity, name: String, des: String) -> (r: Result<
        DbRequest,
        FieldError,
    >)
        ensures
            !permitted(Operation::CreateTopic, me.auth) ==> r matches Err(FieldError::Unauthorized),
            permitted(Operation::CreateTopic, me.auth) && me.auth != Authority::Admin ==> (r matches Err(
                FieldError::Database(DbError::Authentication(m)),
            ) && m@ == "Remove this"@),
            r is Ok <==> me.auth == Authority::Admin,
            r matches Ok(q) ==> q.is_with_fresh_id(
                "new_topic"@,
                seq![("id"@, seq![]), ("name"@, name@)],
                0,
            ),
    {
        if !permits(Operation::CreateTopic, me.auth) {
            return Err(FieldError::Unauthorized);
        }
        match Database::new_topic(me, name) {
            Ok(q) => Ok(q),
            Err(e) => Err(FieldError::Database(e)),
        }
    }

    /// Ends a service, for a service provider or an admin.
    pub fn terminate_service(&self, me: &Identity, sid: String) -> (r: Result<
        DbRequest,
        FieldError,
    >)
        ensures
            r is Ok <==> permitted(Operation::TerminateService, me.auth),
            r matches Err(e) ==> e is Unauthorized,
            r matches Ok(q) ==> q.is("kill_service"@, seq![("id"@, sid@)]),
    {
        if !permits(Operation::TerminateService, me.auth) {
            return Err(FieldError::Unauthorized);
        }
        Ok(Database::kill_service(sid))
    }
}

impl Subscription {
    /// The value the probe stream yields, again and again.
    pub fn test(&self) -> (r: i32)
        ensures
            r == 1,
    {
        1
    }
}

/// An account of unknown authority is refused every operation.
pub proof fn unknown_is_refused(op: Operation)
    ensures
        !permitted(op, Authority::Unknown),
{
}

/// The reading and subscribing operations are a subscriber's alone, and a
/// subscriber can do nothing else: neither start a service, publish, create
/// topics nor end services.
pub proof fn subscriber_operations_are_separate(op: Operation, auth: Authority)
    ensures
        (op == Operation::Topics || op == Operation::Book || op == Operation::TopicsLike || op
            == Operation::Subscribe || op == Operation::Unsubscribe) ==> (permitted(op, auth)
            <==> auth == Authority::Subscriber),
        permitted(op, Authority::Subscriber) ==> !permitted(op, Authority::ServiceProvider)
            && !permitted(op, Authority::Admin),
{
}

/// Only a service provider starts a service; an admin may not.
pub proof fn only_providers_start_services(auth: Authority)
    ensures
        permitted(Operation::StartService, auth) <==> auth == Authority::ServiceProvider,
{
}

} // verus!
