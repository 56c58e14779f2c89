use vstd::prelude::*;

use crate::accounts::{Account, Identity, User};
use crate::authority::Authority;
use crate::extract::Extractor;
use crate::fresh::{is_utc_time_text, is_uuid_v4_text, new_id, now_text};
use crate::models::{service_type_text, Frame, Page, Service, ServiceType, Topic};
use crate::record::NodeRecord;

verus! {

/// A query to run: the name of its Cypher file and its named text parameters, in order.
#[derive(Debug, Clone)]
pub struct DbRequest {
    pub query: String,
    pub params: Vec<(String, String)>,
}

/// What a database operation refuses with.
#[derive(Debug, Clone)]
pub enum DbError {
    /// The caller may not do this, with the reason.
    Authentication(String),
    /// The database answered something other than what was expected.
    Unexpected(String),
}

/// The parameters as key/value texts.
pub open spec fn params_view(params: Seq<(String, String)>) -> Seq<(Seq<char>, Seq<char>)> {
    params.map_values(|p: (String, String)| (p.0@, p.1@))
}

impl DbRequest {
    /// The request runs the named query with exactly these parameters.
    pub open spec fn is(self, query: Seq<char>, params: Seq<(Seq<char>, Seq<char>)>) -> bool {
        &&& self.query@ == query
        &&& params_view(self.params@) == params
    }

    /// The request runs the named query with these parameters, one of which,
    /// at position `fresh`, carries a newly drawn random identifier.
    pub open spec fn is_with_fresh_id(
        self,
        query: Seq<char>,
        params: Seq<(Seq<char>, Seq<char>)>,
        fresh: int,
    ) -> bool {
        &&& self.query@ == query
        &&& params_view(self.params@).len() == params.len()
        &&& 0 <= fresh < params.len()
        &&& forall|i: int|
            0 <= i < params.len() && i != fresh ==> #[trigger] params_view(self.params@)[i]
                == params[i]
        &&& params_view(self.params@)[fresh].0 == params[fresh].0
        &&& is_uuid_v4_text(params_view(self.params@)[fresh].1)
    }
}

/// The request subscribes user `me` to topic `topic`: the user, the topic, a
/// new random id and the current time, under these keys and in this order.
pub open spec fn is_subscribe_request(q: DbRequest, me: Seq<char>, topic: Seq<char>) -> bool {
    let p = params_view(q.params@);
    &&& q.query@ == "subscribe_to"@
    &&& p.len() == 4
    &&& p[0] == ("me"@, me)
    &&& p[1] == ("tname"@, topic)
    &&& p[2].0 == "id"@
    &&& is_uuid_v4_text(p[2].1)
    &&& p[3].0 == "from"@
    &&& is_utc_time_text(p[3].1)
}

/// The request publishes `page` through `serv`: the service id, the title, a
/// new random entry id, the body, the current time and the service's topic,
/// under these keys and in this order.
pub open spec fn is_publish_request(q: DbRequest, serv: Service, page: Page) -> bool {
    let p = params_view(q.params@);
    &&& q.query@ == "publish"@
    &&& p.len() == 6
    &&& p[0] == ("sid"@, serv.id@)
    &&& p[1] == ("title"@, page.title@)
    &&& p[2].0 == "pid"@
    &&& is_uuid_v4_text(p[2].1)
    &&& p[3] == ("body"@, page.body@)
    &&& p[4].0 == "time"@
    &&& is_utc_time_text(p[4].1)
    &&& p[5] == ("tname"@, serv.topic@)
}

/// A key/value parameter.
fn param(key: &str, value: String) -> (r: (String, String))
    ensures
        r.0@ == key@,
        r.1@ == value@,
{
    (String::from_str(key), value)
}

/// A request with the given query name and no parameters yet.
fn request(query: &str) -> (r: DbRequest)
    ensures
        r.query@ == query@,
        params_view(r.params@) == Seq::<(Seq<char>, Seq<char>)>::empty(),
{
    let r = DbRequest { query: String::from_str(query), params: Vec::new() };
    assert(params_view(r.params@) =~= Seq::<(Seq<char>, Seq<char>)>::empty());
    r
}

/// Adds a parameter at the end of a request.
fn with(r: DbRequest, key: &str, value: String) -> (out: DbRequest)
    ensures
        out.query == r.query,
        params_view(out.params@) == params_view(r.params@).push((key@, value@)),
{
    let mut r = r;
    let ghost before = r.params@;
    r.params.push(param(key, value));
    proof {
        assert(params_view(r.params@) =~= params_view(before).push((key@, value@)));
    }
    r
}

/// Where reading the rows of a result stands after one more fetch.
#[derive(Debug)]
pub enum RowStep<E> {
    /// A row came; these are the rows read so far, and more may follow.
    More(Vec<NodeRecord>),
    /// The result is exhausted; these are all its rows, in order.
    Done(Vec<NodeRecord>),
    /// Fetching failed: the whole read fails with this error, and no partial
    /// list is given.
    Failed(E),
}

/// The operations of the application on the graph database.
pub struct Database {}

impl Database {
    /// One step of reading a result's rows: a fetched row is added after the
    /// rows read so far, the end of the result gives them all, and a failed
    /// fetch fails the read.
    pub fn next_row<E>(read: Vec<NodeRecord>, fetched: Result<Option<NodeRecord>, E>) -> (r: RowStep<E>)
        ensures
            fetched matches Ok(Some(x)) ==> (r matches RowStep::More(v) && v@ == read@.push(x)),
            fetched matches Ok(None) ==> (r matches RowStep::Done(v) && v@ == read@),
            fetched matches Err(e) ==> (r matches RowStep::Failed(e2) && e2 == e),
    {
        match fetched {
            Ok(Some(x)) => {
                let mut read = read;
                read.push(x);
                RowStep::More(read)
            },
            Ok(None) => RowStep::Done(read),
            Err(e) => RowStep::Failed(e),
        }
    }

    /// Where the Cypher text of a named query is kept.
    pub fn query_path(name: &str) -> (r: String)
        ensures
            r@ == "src/cypher/"@ + name@ + ".cypher"@,
    {
        let mut p = String::from_str("src/cypher/");
        p.append(name);
        p.append(".cypher");
        p
    }

    /// Counts the accounts with the given username.
    pub fn dupe_acc(username: String) -> (r: DbRequest)
        ensures
            r.is("dupe_acc"@, seq![("unm"@, username@)]),
    {
        with(request("dupe_acc"), "unm", username)
    }

    /// Whether a username count shows the name already taken.
    pub fn is_duplicate(count: i64) -> (r: bool)
        ensures
            r == (count != 0),
    {
        count != 0
    }

    /// Fetches the account with the given username.
    pub fn get_account(username: String) -> (r: DbRequest)
        ensures
            r.is("get_account"@, seq![("unm"@, username@)]),
    {
        with(request("get_account"), "unm", username)
    }

    /// What looking up an account gives from the first row of the
    /// `get_account` query (its node `a`): no row means no such username and
    /// is refused; a node lacking a field gives `None`; otherwise the account.
    pub fn account_of_row(row: Option<NodeRecord>) -> (r: Option<Result<Account, DbError>>)
        ensures
            row is None ==> (r matches Some(Err(DbError::Authentication(m))) && m@ == ".."@),
            row matches Some(x) ==> (r is None <==> !Extractor::account_ready(x)),
            row matches Some(x) ==> (r matches Some(res) ==> (res matches Ok(a)
                && Extractor::is_account_of(a, x))),
    {
        match row {
            None => Some(Err(DbError::Authentication(String::from_str("..")))),
            Some(x) => match Extractor::try_account(&x) {
                Some(a) => Some(Ok(a)),
                None => None,
            },
        }
    }

    /// What storing a new account gives from the first row of the `makeme`
    /// query (the first node of its path `x`): no row is refused as an
    /// unexpected answer; a node lacking a field gives `None`; otherwise the
    /// account stored.
    pub fn created_account(row: Option<NodeRecord>) -> (r: Option<Result<Account, DbError>>)
        ensures
            row is None ==> (r matches Some(Err(DbError::Unexpected(m))) && m@ == "Ayo wut."@),
            row matches Some(x) ==> (r is None <==> !Extractor::account_ready(x)),
            row matches Some(x) ==> (r matches Some(res) ==> (res matches Ok(a)
                && Extractor::is_account_of(a, x))),
    {
        match row {
            None => Some(Err(DbError::Unexpected(String::from_str("Ayo wut.")))),
            Some(x) => match Extractor::try_account(&x) {
                Some(a) => Some(Ok(a)),
                None => None,
            },
        }
    }

    /// Creates a service of the given kind on the named topic, under a new id.
    pub fn new_service(typ: ServiceType, topic: String) -> (r: DbRequest)
        ensures
            r.is_with_fresh_id(
                "new_service"@,
                seq![("sid"@, seq![]), ("tname"@, topic@), ("typ"@, service_type_text(typ))],
                0,
            ),
    {
        let r = with(request("new_service"), "sid", new_id());
        let r = with(r, "tname", topic);
        let r = with(r, "typ", typ.to_string());
        r
    }

    /// Subscribes the user to the named topic, under a new id, stamped with the current time.
    pub fn subscribe_to(me: String, topic: String) -> (r: DbRequest)
        ensures
            is_subscribe_request(r, me@, topic@),
    {
        let id = new_id();
        let from = now_text();
        Self::subscribe_to_with(me, topic, id, from)
    }

    /// Subscribes the user to the named topic under the given subscription id,
    /// stamped with the given time: the step that takes the drawn id and the
    /// clock reading.
    pub fn subscribe_to_with(me: String, topic: String, id: String, from: String) -> (r: DbRequest)
        ensures
            r.is("subscribe_to"@, seq![("me"@, me@), ("tname"@, topic@), ("id"@, id@), ("from"@, from@)]),
    {
        let ghost (m, t, i, f) = (me@, topic@, id@, from@);
        let r = with(request("subscribe_to"), "me", me);
        let r = with(r, "tname", topic);
        let r = with(r, "id", id);
        let r = with(r, "from", from);
        assert(params_view(r.params@) =~= seq![("me"@, m), ("tname"@, t), ("id"@, i), ("from"@, f)]);
        r
    }

    /// Creates a topic under a new id; only an admin may.
    pub fn new_topic(me: &Identity, topic: String) -> (r: Result<DbRequest, DbError>)
        ensures
            me.auth != Authority::Admin <==> r is Err,
            r matches Err(e) ==> e matches DbError::Authentication(m) && m@ == "Remove this"@,
            r matches Ok(q) ==> q.is_with_fresh_id(
                "new_topic"@,
                seq![("id"@, seq![]), ("name"@, topic@)],
                0,
            ),
    {
        if me.auth != Authority::Admin {
            return Err(DbError::Authentication(String::from_str("Remove this")));
        }
        let id = new_id();
        Self::new_topic_with(me, topic, id)
    }

    /// Creates a topic under the given id; only an admin may: the step that
    /// takes the drawn id.
    pub fn new_topic_with(me: &Identity, topic: String, id: String) -> (r: Result<DbRequest, DbError>)
        ensures
            me.auth != Authority::Admin <==> r is Err,
            r matches Err(e) ==> e matches DbError::Authentication(m) && m@ == "Remove this"@,
            r matches Ok(q) ==> q.is("new_topic"@, seq![("id"@, id@), ("name"@, topic@)]),
    {
        if me.auth != Authority::Admin {
            return Err(DbError::Authentication(String::from_str("Remove this")));
        }
        let ghost (i, t) = (id@, topic@);
        let r = with(request("new_topic"), "id", id);
        let r = with(r, "name", topic);
        assert(params_view(r.params@) =~= seq![("id"@, i), ("name"@, t)]);
        Ok(r)
    }

    /// Hands an arbitrary query text on to be run; only an admin may.
    pub fn naked_query(me: &Identity, query: String) -> (r: Result<String, DbError>)
        ensures
            me.auth != Authority::Admin <==> r is Err,
            r matches Err(e) ==> e matches DbError::Authentication(m) && m@ == "Remove this"@,
            r matches Ok(q) ==> q@ == query@,
    {
        if me.auth != Authority::Admin {
            return Err(DbError::Authentication(String::from_str("Remove this")));
        }
        Ok(query)
    }

    /// Deletes the user's subscription to the named topic.
    pub fn unsubscribe(me: String, topic: String) -> (r: DbRequest)
        ensures
            r.is("unsubscribe"@, seq![("me"@, me@), ("tname"@, topic@)]),
    {
        let ghost (m, t) = (me@, topic@);
        let r = with(request("unsubscribe"), "me", me);
        let r = with(r, "tname", topic);
        assert(params_view(r.params@) =~= seq![("me"@, m), ("tname"@, t)]);
        r
    }

    /// What an unsubscription reports from the count the query returns: the
    /// bitwise complement of the count compared with zero, so `true` only for
    /// a count of -1.
    pub fn unsubscribed(c: i64) -> (r: bool)
        ensures
            r == (!c == 0),
            r == (c == -1),
    {
        assert((!c == 0) == (c == -1)) by (bit_vector);
        !c == 0
    }

    /// Ends the service with the given id.
    pub fn kill_service(id: String) -> (r: DbRequest)
        ensures
            r.is("kill_service"@, seq![("id"@, id@)]),
    {
        with(request("kill_service"), "id", id)
    }

    /// Retires the topic with the given id.
    pub fn retire_topic(topic: String) -> (r: DbRequest)
        ensures
            r.is("retire_topic"@, seq![("id"@, topic@)]),
    {
        with(request("retire_topic"), "id", topic)
    }

    /// Lists the topics the user is subscribed to.
    pub fn get_topics(me: String) -> (r: DbRequest)
        ensures
            r.is("get_topics"@, seq![("me"@, me@)]),
    {
        with(request("get_topics"), "me", me)
    }

    /// Lists the subscribers of the topic with the given id.
    pub fn get_subscribers(topic: String) -> (r: DbRequest)
        ensures
            r.is("get_subscribers"@, seq![("id"@, topic@)]),
    {
        with(request("get_subscribers"), "id", topic)
    }

    /// Publishes an entry with the given content through a service, under a
    /// new id, stamped with the current time, on the service's topic.
    pub fn publish(serv: &Service, page: &Page) -> (r: DbRequest)
        ensures
            is_publish_request(r, *serv, *page),
    {
        let pid = new_id();
        let time = now_text();
        Self::publish_with(serv, page, pid, time)
    }

    /// Publishes an entry with the given content through a service under the
    /// given entry id, stamped with the given time: the step that takes the
    /// drawn id and the clock reading.
    pub fn publish_with(serv: &Service, page: &Page, pid: String, time: String) -> (r: DbRequest)
        ensures
            r.is(
                "publish"@,
                seq![
                    ("sid"@, serv.id@),
                    ("title"@, page.title@),
                    ("pid"@, pid@),
                    ("body"@, page.body@),
                    ("time"@, time@),
                    ("tname"@, serv.topic@),
                ],
            ),
    {
        let ghost (p, t) = (pid@, time@);
        let r = with(request("publish"), "sid", serv.id.clone());
        let r = with(r, "title", page.title.clone());
        let r = with(r, "pid", pid);
        let r = with(r, "body", page.body.clone());
        let r = with(r, "time", time);
        let r = with(r, "tname", serv.topic.clone());
        assert(params_view(r.params@) =~= seq![
            ("sid"@, serv.id@),
            ("title"@, page.title@),
            ("pid"@, p),
            ("body"@, page.body@),
            ("time"@, t),
            ("tname"@, serv.topic@),
        ]);
        r
    }

    /// Asks whether the user is subscribed to the named topic: the first step
    /// of reading a topic's entries.
    pub fn get_book(me: String, topic: String) -> (r: DbRequest)
        ensures
            r.is("is_subbed"@, seq![("tname"@, topic@), ("me"@, me@)]),
    {
        let ghost (m, t) = (me@, topic@);
        let r = with(request("is_subbed"), "tname", topic);
        let r = with(r, "me", me);
        assert(params_view(r.params@) =~= seq![("tname"@, t), ("me"@, m)]);
        r
    }

    /// The second step of reading a topic's entries: refused when the
    /// subscription count is zero, otherwise the query for the entries.
    pub fn book_gate(count: i64, topic: String) -> (r: Result<DbRequest, DbError>)
        ensures
            count == 0 <==> r is Err,
            r matches Err(e) ==> e matches DbError::Authentication(m) && m@
                == "Not subscribed to topic."@,
            r matches Ok(q) ==> q.is("get_book"@, seq![("tname"@, topic@)]),
    {
        if count == 0 {
            return Err(DbError::Authentication(String::from_str("Not subscribed to topic.")));
        }
        Ok(with(request("get_book"), "tname", topic))
    }

    /// Searches for topics whose names start with the prefix.
    pub fn search_topic_by_name(prefix: String) -> (r: DbRequest)
        ensures
            r.is("search_topic_by_name"@, seq![("prefix"@, prefix@)]),
    {
        with(request("search_topic_by_name"), "prefix", prefix)
    }

    /// The topics read from a list of topic nodes, in order; `None` where a
    /// node lacks a field.
    pub fn topics(rows: &Vec<NodeRecord>) -> (r: Option<Vec<Topic>>)
        ensures
            r is None <==> exists|i: int|
                0 <= i < rows@.len() && !Extractor::topic_ready(#[trigger] rows@[i]),
            r matches Some(v) ==> v@.len() == rows@.len() && forall|i: int|
                0 <= i < rows@.len() ==> Extractor::is_topic_of(#[trigger] v@[i], rows@[i]),
    {
        let mut out: Vec<Topic> = Vec::new();
        let n = rows.len();
        for i in 0..n
            invariant
                n == rows@.len(),
                out@.len() == i,
                forall|j: int| 0 <= j < i ==> Extractor::topic_ready(#[trigger] rows@[j]),
                forall|j: int| 0 <= j < i ==> Extractor::is_topic_of(#[trigger] out@[j], rows@[j]),
        {
            match Extractor::try_topic(&rows[i]) {
                Some(t) => out.push(t),
                None => return None,
            }
        }
        Some(out)
    }

    /// The published entries read from a list of entry nodes, in order;
    /// `None` where a node lacks a field.
    pub fn pages(rows: &Vec<NodeRecord>) -> (r: Option<Vec<Frame>>)
        ensures
            r is None <==> exists|i: int|
                0 <= i < rows@.len() && !Extractor::page_ready(#[trigger] rows@[i]),
            r matches Some(v) ==> v@.len() == rows@.len() && forall|i: int|
                0 <= i < rows@.len() ==> Extractor::is_page_of(#[trigger] v@[i], rows@[i]),
    {
        let mut out: Vec<Frame> = Vec::new();
        let n = rows.len();
        for i in 0..n
            invariant
                n == rows@.len(),
                out@.len() == i,
                forall|j: int| 0 <= j < i ==> Extractor::page_ready(#[trigger] rows@[j]),
                forall|j: int| 0 <= j < i ==> Extractor::is_page_of(#[trigger] out@[j], rows@[j]),
        {
            match Extractor::try_page(&rows[i]) {
                Some(t) => out.push(t),
                None => return None,
            }
        }
        Some(out)
    }

    /// The users read from a list of account nodes, in order; `None` where a
    /// node lacks a field.
    pub fn users(rows: &Vec<NodeRecord>) -> (r: Option<Vec<User>>)
        ensures
            r is None <==> exists|i: int|
                0 <= i < rows@.len() && !Extractor::user_ready(#[trigger] rows@[i]),
            r matches Some(v) ==> v@.len() == rows@.len() && forall|i: int|
                0 <= i < rows@.len() ==> Extractor::is_user_of(#[trigger] v@[i], rows@[i]),
    {
        let mut out: Vec<User> = Vec::new();
        let n = rows.len();
        for i in 0..n
            invariant
                n == rows@.len(),
                out@.len() == i,
                forall|j: int| 0 <= j < i ==> Extractor::user_ready(#[trigger] rows@[j]),
                forall|j: int| 0 <= j < i ==> Extractor::is_user_of(#[trigger] out@[j], rows@[j]),
        {
            match Extractor::try_user(&rows[i]) {
                Some(t) => out.push(t),
                None => return None,
            }
        }
        Some(out)
    }
}

/// A topic is created under exactly the id drawn for it: requests made with
/// different drawn ids carry different ids, and the same id only when the
/// same one was drawn.
pub proof fn topics_carry_their_drawn_ids(
    q1: DbRequest,
    q2: DbRequest,
    topic1: Seq<char>,
    topic2: Seq<char>,
    id1: Seq<char>,
    id2: Seq<char>,
)
    requires
        q1.is("new_topic"@, seq![("id"@, id1), ("name"@, topic1)]),
        q2.is("new_topic"@, seq![("id"@, id2), ("name"@, topic2)]),
    ensures
        params_view(q1.params@)[0] == ("id"@, id1),
        (params_view(q1.params@)[0].1 == params_view(q2.params@)[0].1) <==> id1 == id2,
{
}

/// A subscription is made under exactly the id drawn for it and stamped with
/// exactly the clock reading taken for it: different draws give different
/// subscription ids, different readings different stamps.
pub proof fn subscriptions_carry_their_drawn_ids(
    q1: DbRequest,
    q2: DbRequest,
    me1: Seq<char>,
    me2: Seq<char>,
    topic1: Seq<char>,
    topic2: Seq<char>,
    id1: Seq<char>,
    id2: Seq<char>,
    from1: Seq<char>,
    from2: Seq<char>,
)
    requires
        q1.is("subscribe_to"@, seq![("me"@, me1), ("tname"@, topic1), ("id"@, id1), ("from"@, from1)]),
        q2.is("subscribe_to"@, seq![("me"@, me2), ("tname"@, topic2), ("id"@, id2), ("from"@, from2)]),
    ensures
        params_view(q1.params@)[2] == ("id"@, id1),
        params_view(q1.params@)[3] == ("from"@, from1),
        (params_view(q1.params@)[2].1 == params_view(q2.params@)[2].1) <==> id1 == id2,
        (params_view(q1.params@)[3].1 == params_view(q2.params@)[3].1) <==> from1 == from2,
{
}

/// An entry is published under exactly the id drawn for it and stamped with
/// exactly the clock reading taken when it is published: different draws give
/// different entry ids, different readings different stamps.
pub proof fn entries_carry_their_drawn_ids_and_times(
    q1: DbRequest,
    q2: DbRequest,
    serv1: Service,
    serv2: Service,
    page1: Page,
    page2: Page,
    pid1: Seq<char>,
    pid2: Seq<char>,
    time1: Seq<char>,
    time2: Seq<char>,
)
    requires
        q1.is(
            "publish"@,
            seq![("sid"@, serv1.id@), ("title"@, page1.title@), ("pid"@, pid1), ("body"@, page1.body@), ("time"@, time1), ("tname"@, serv1.topic@)],
        ),
        q2.is(
            "publish"@,
            seq![("sid"@, serv2.id@), ("title"@, page2.title@), ("pid"@, pid2), ("body"@, page2.body@), ("time"@, time2), ("tname"@, serv2.topic@)],
        ),
    ensures
        params_view(q1.params@)[2] == ("pid"@, pid1),
        params_view(q1.params@)[4] == ("time"@, time1),
        (params_view(q1.params@)[2].1 == params_view(q2.params@)[2].1) <==> pid1 == pid2,
        (params_view(q1.params@)[4].1 == params_view(q2.params@)[4].1) <==> time1 == time2,
{
}

} // verus!
