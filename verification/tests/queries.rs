use nt_server::accounts::Identity;
use nt_server::authority::Authority;
use nt_server::database::{Database, DbError, DbRequest, RowStep};
use nt_server::models::{Page, Service, ServiceType};
use nt_server::record::{NodeRecord, PropValue};

fn keys(r: &DbRequest) -> Vec<&str> {
    r.params.iter().map(|(k, _)| k.as_str()).collect()
}

fn value<'a>(r: &'a DbRequest, key: &str) -> &'a str {
    r.params.iter().find(|(k, _)| k == key).map(|(_, v)| v.as_str()).unwrap()
}

fn is_uuid_v4(s: &str) -> bool {
    s.len() == 36
        && s.chars().enumerate().all(|(i, c)| match i {
            8 | 13 | 18 | 23 => c == '-',
            14 => c == '4',
            _ => c.is_ascii_digit() || ('a'..='f').contains(&c),
        })
}

#[test]
fn query_files_live_under_src_cypher() {
    assert_eq!(Database::query_path("get_topics"), "src/cypher/get_topics.cypher");
    assert_eq!(Database::query_path(""), "src/cypher/.cypher");
}

#[test]
fn account_queries_take_the_username() {
    let d = Database::dupe_acc("luke".to_string());
    assert_eq!(d.query, "dupe_acc");
    assert_eq!(d.params, vec![("unm".to_string(), "luke".to_string())]);
    let g = Database::get_account("luke".to_string());
    assert_eq!(g.query, "get_account");
    assert_eq!(keys(&g), vec!["unm"]);
    assert!(Database::is_duplicate(1));
    assert!(Database::is_duplicate(-3));
    assert!(!Database::is_duplicate(0));
}

#[test]
fn new_service_draws_an_id() {
    let r = Database::new_service(ServiceType::Eh, "rust".to_string());
    assert_eq!(r.query, "new_service");
    assert_eq!(keys(&r), vec!["sid", "tname", "typ"]);
    assert!(is_uuid_v4(value(&r, "sid")));
    assert_eq!(value(&r, "tname"), "rust");
    assert_eq!(value(&r, "typ"), "Eh");
    let again = Database::new_service(ServiceType::Eh, "rust".to_string());
    assert_ne!(value(&r, "sid"), value(&again, "sid"));
}

#[test]
fn subscribe_to_stamps_id_and_time() {
    let r = Database::subscribe_to("me-1".to_string(), "rust".to_string());
    assert_eq!(r.query, "subscribe_to");
    assert_eq!(keys(&r), vec!["me", "tname", "id", "from"]);
    assert_eq!(value(&r, "me"), "me-1");
    assert!(is_uuid_v4(value(&r, "id")));
    assert!(value(&r, "from").contains("UTC"));
}

#[test]
fn new_topic_is_for_admins() {
    let admin = Identity { user_id: "a".to_string(), auth: Authority::Admin };
    let r = Database::new_topic(&admin, "rust".to_string()).unwrap();
    assert_eq!(r.query, "new_topic");
    assert_eq!(keys(&r), vec!["id", "name"]);
    assert_eq!(value(&r, "name"), "rust");
    for auth in [Authority::Subscriber, Authority::ServiceProvider, Authority::Unknown] {
        let me = Identity { user_id: "x".to_string(), auth };
        match Database::new_topic(&me, "rust".to_string()) {
            Err(DbError::Authentication(m)) => assert_eq!(m, "Remove this"),
            other => panic!("unexpected {other:?}"),
        }
    }
}

#[test]
fn unsubscribe_reports_complement_of_count() {
    let r = Database::unsubscribe("me".to_string(), "rust".to_string());
    assert_eq!(r.query, "unsubscribe");
    assert_eq!(keys(&r), vec!["me", "tname"]);
    assert!(Database::unsubscribed(-1));
    assert!(!Database::unsubscribed(0));
    assert!(!Database::unsubscribed(1));
}

#[test]
fn single_key_queries() {
    let k = Database::kill_service("s-1".to_string());
    assert_eq!((k.query.as_str(), value(&k, "id")), ("kill_service", "s-1"));
    let t = Database::retire_topic("t-1".to_string());
    assert_eq!((t.query.as_str(), value(&t, "id")), ("retire_topic", "t-1"));
    let g = Database::get_topics("me".to_string());
    assert_eq!((g.query.as_str(), value(&g, "me")), ("get_topics", "me"));
    let s = Database::get_subscribers("t-1".to_string());
    assert_eq!((s.query.as_str(), value(&s, "id")), ("get_subscribers", "t-1"));
    let p = Database::search_topic_by_name("ru".to_string());
    assert_eq!((p.query.as_str(), value(&p, "prefix")), ("search_topic_by_name", "ru"));
}

#[test]
fn publish_writes_through_the_service() {
    let serv = Service { id: "s-1".to_string(), typ: ServiceType::Eh, topic: "rust".to_string() };
    let page = Page { title: "Hi".to_string(), body: "There".to_string() };
    let r = Database::publish(&serv, &page);
    assert_eq!(r.query, "publish");
    assert_eq!(keys(&r), vec!["sid", "title", "pid", "body", "time", "tname"]);
    assert_eq!(value(&r, "sid"), "s-1");
    assert_eq!(value(&r, "title"), "Hi");
    assert_eq!(value(&r, "body"), "There");
    assert_eq!(value(&r, "tname"), "rust");
    assert!(is_uuid_v4(value(&r, "pid")));
}

#[test]
fn book_needs_a_subscription() {
    let first = Database::get_book("me".to_string(), "rust".to_string());
    assert_eq!(first.query, "is_subbed");
    assert_eq!(keys(&first), vec!["tname", "me"]);
    match Database::book_gate(0, "rust".to_string()) {
        Err(DbError::Authentication(m)) => assert_eq!(m, "Not subscribed to topic."),
        other => panic!("unexpected {other:?}"),
    }
    let next = Database::book_gate(2, "rust".to_string()).unwrap();
    assert_eq!(next.query, "get_book");
    assert_eq!(next.params, vec![("tname".to_string(), "rust".to_string())]);
}

#[test]
fn rows_become_records_in_order() {
    let t = |id: &str| NodeRecord {
        props: vec![
            (String::from("id"), PropValue::Text(id.to_string())),
            (String::from("name"), PropValue::Text(format!("n{id}"))),
            (String::from("pages"), PropValue::Integer(1)),
            (String::from("subs"), PropValue::Integer(2)),
            (String::from("time"), PropValue::Text("t".to_string())),
            (String::from("desc"), PropValue::Text("d".to_string())),
        ],
    };
    let topics = Database::topics(&vec![t("1"), t("2")]).unwrap();
    assert_eq!(topics.iter().map(|x| x.id.as_str()).collect::<Vec<_>>(), vec!["1", "2"]);
    assert!(Database::topics(&vec![t("1"), NodeRecord { props: vec![] }]).is_none());
    assert_eq!(Database::topics(&vec![]).unwrap().len(), 0);
    let users = Database::users(&vec![NodeRecord {
        props: vec![
            (String::from("username"), PropValue::Text("u".to_string())),
            (String::from("disp_name"), PropValue::Text("U".to_string())),
        ],
    }])
    .unwrap();
    assert_eq!(users[0].username, "u");
    assert!(Database::pages(&vec![NodeRecord { props: vec![(String::from("id"), PropValue::Null)] }]).is_none());
}

#[test]
fn naked_query_is_for_admins() {
    let admin = Identity { user_id: "a".to_string(), auth: Authority::Admin };
    assert_eq!(Database::naked_query(&admin, "MATCH (n) RETURN n".to_string()).unwrap(), "MATCH (n) RETURN n");
    let sub = Identity { user_id: "s".to_string(), auth: Authority::Subscriber };
    match Database::naked_query(&sub, "MATCH (n) RETURN n".to_string()) {
        Err(DbError::Authentication(m)) => assert_eq!(m, "Remove this"),
        other => panic!("unexpected {other:?}"),
    }
}

#[test]
fn row_reading_fails_on_a_failed_fetch() {
    let row = |id: &str| NodeRecord { props: vec![(String::from("id"), PropValue::Text(id.to_string()))] };
    let read = match Database::next_row::<String>(vec![], Ok(Some(row("a")))) {
        RowStep::More(v) => v,
        other => panic!("unexpected {other:?}"),
    };
    let read = match Database::next_row::<String>(read, Ok(Some(row("b")))) {
        RowStep::More(v) => v,
        other => panic!("unexpected {other:?}"),
    };
    assert_eq!(read.len(), 2);
    assert_eq!(read[1].get_text("id"), Some("b".to_string()));
    match Database::next_row::<String>(read.clone(), Err("connection lost".to_string())) {
        RowStep::Failed(e) => assert_eq!(e, "connection lost"),
        other => panic!("unexpected {other:?}"),
    }
    match Database::next_row::<String>(read, Ok(None)) {
        RowStep::Done(v) => assert_eq!(v.len(), 2),
        other => panic!("unexpected {other:?}"),
    }
}

fn account_node() -> NodeRecord {
    let t = |k: &str, v: &str| (k.to_string(), PropValue::Text(v.to_string()));
    NodeRecord {
        props: vec![
            t("id", "obj-7"),
            t("username", "han"),
            t("password", "$argon2id$x"),
            t("disp_name", "Han"),
            t("auth", "Admin"),
        ],
    }
}

#[test]
fn unknown_username_is_refused() {
    match Database::account_of_row(None) {
        Some(Err(DbError::Authentication(m))) => assert_eq!(m, ".."),
        other => panic!("unexpected {other:?}"),
    }
    let a = Database::account_of_row(Some(account_node())).unwrap().unwrap();
    assert_eq!(a.obj, "obj-7");
    assert_eq!(a.creds.username, "han");
    assert_eq!(a.creds.auth, Authority::Admin);
    assert!(Database::account_of_row(Some(NodeRecord { props: vec![] })).is_none());
}

#[test]
fn empty_insert_answer_is_unexpected() {
    match Database::created_account(None) {
        Some(Err(DbError::Unexpected(m))) => assert_eq!(m, "Ayo wut."),
        other => panic!("unexpected {other:?}"),
    }
    let a = Database::created_account(Some(account_node())).unwrap().unwrap();
    assert_eq!(a.creds.disp_name, "Han");
    assert!(Database::created_account(Some(NodeRecord { props: vec![] })).is_none());
}

#[test]
fn timestamps_are_written_in_utc() {
    let r = Database::subscribe_to("me".to_string(), "rust".to_string());
    assert!(value(&r, "from").ends_with(" UTC"));
    let serv = Service { id: "s".to_string(), typ: ServiceType::Eh, topic: "rust".to_string() };
    let page = Page { title: "t".to_string(), body: "b".to_string() };
    let p = Database::publish(&serv, &page);
    assert!(value(&p, "time").ends_with(" UTC"));
}
