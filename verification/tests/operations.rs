use nt_server::accounts::Identity;
use nt_server::authority::Authority;
use nt_server::database::DbError;
use nt_server::graphql::{permits, FieldError, Mutation, Operation, Query, Subscription};
use nt_server::models::{Page, Service, ServiceType};

const ALL: [Authority; 4] = [Authority::Unknown, Authority::Subscriber, Authority::ServiceProvider, Authority::Admin];

fn me(auth: Authority) -> Identity {
    Identity { user_id: "u-1".to_string(), auth }
}

#[test]
fn probes_answer_one() {
    assert_eq!(Query.test(), 1);
    assert_eq!(Mutation.test(), 1);
    assert_eq!(Subscription.test(), 1);
}

#[test]
fn reading_is_for_subscribers() {
    for a in ALL {
        let ok = a == Authority::Subscriber;
        assert_eq!(Query.topics(&me(a)).is_ok(), ok);
        assert_eq!(Query.book(&me(a), "rust".to_string()).is_ok(), ok);
        assert_eq!(Query.topics_like(&me(a), "ru".to_string()).is_ok(), ok);
        assert_eq!(Mutation.subscribe(&me(a), "rust".to_string()).is_ok(), ok);
        assert_eq!(Mutation.unsubscribe(&me(a), "rust".to_string()).is_ok(), ok);
    }
    let q = Query.topics(&me(Authority::Subscriber)).unwrap();
    assert_eq!(q.query, "get_topics");
    assert_eq!(q.params, vec![("me".to_string(), "u-1".to_string())]);
    let b = Query.book(&me(Authority::Subscriber), "rust".to_string()).unwrap();
    assert_eq!(b.query, "is_subbed");
    let l = Query.topics_like(&me(Authority::Subscriber), "ru".to_string()).unwrap();
    assert_eq!(l.query, "search_topic_by_name");
}

#[test]
fn refusals_are_unauthorized() {
    assert!(matches!(Query.topics(&me(Authority::Admin)), Err(FieldError::Unauthorized)));
    assert_eq!(FieldError::unauthorized_message(), "Unauthorized");
}

#[test]
fn starting_services_is_for_providers() {
    for a in ALL {
        assert_eq!(Mutation.start_service(&me(a), "rust".to_string(), "eh").is_ok(), a == Authority::ServiceProvider);
    }
    let q = Mutation.start_service(&me(Authority::ServiceProvider), "rust".to_string(), "eh").unwrap();
    assert_eq!(q.query, "new_service");
    assert_eq!(q.params[2], ("typ".to_string(), "Eh".to_string()));
}

#[test]
fn publishing_and_ending_is_for_providers_and_admins() {
    let serv = Service { id: "s".to_string(), typ: ServiceType::Eh, topic: "rust".to_string() };
    let page = Page { title: "t".to_string(), body: "b".to_string() };
    for a in ALL {
        let ok = a == Authority::ServiceProvider || a == Authority::Admin;
        assert_eq!(Mutation.publish(&me(a), &serv, &page).is_ok(), ok);
        assert_eq!(Mutation.terminate_service(&me(a), "s".to_string()).is_ok(), ok);
    }
    let k = Mutation.terminate_service(&me(Authority::Admin), "s".to_string()).unwrap();
    assert_eq!(k.query, "kill_service");
}

#[test]
fn creating_topics_ends_up_admin_only() {
    assert!(Mutation.create_topic(&me(Authority::Admin), "rust".to_string(), "d".to_string()).is_ok());
    match Mutation.create_topic(&me(Authority::ServiceProvider), "rust".to_string(), "d".to_string()) {
        Err(FieldError::Database(DbError::Authentication(m))) => assert_eq!(m, "Remove this"),
        other => panic!("unexpected {other:?}"),
    }
    assert!(matches!(
        Mutation.create_topic(&me(Authority::Subscriber), "rust".to_string(), "d".to_string()),
        Err(FieldError::Unauthorized)
    ));
}

#[test]
fn unknown_authority_is_refused_everything() {
    for op in [
        Operation::Topics,
        Operation::Book,
        Operation::TopicsLike,
        Operation::Subscribe,
        Operation::Unsubscribe,
        Operation::StartService,
        Operation::Publish,
        Operation::CreateTopic,
        Operation::TerminateService,
    ] {
        assert!(!permits(op, Authority::Unknown));
    }
}

#[test]
fn subscribe_and_publish_send_the_full_requests() {
    let q = Mutation.subscribe(&me(Authority::Subscriber), "rust".to_string()).unwrap();
    assert_eq!(q.query, "subscribe_to");
    let keys: Vec<&str> = q.params.iter().map(|(k, _)| k.as_str()).collect();
    assert_eq!(keys, vec!["me", "tname", "id", "from"]);
    assert_eq!(q.params[0].1, "u-1");
    assert_eq!(q.params[1].1, "rust");
    assert_eq!(q.params[2].1.len(), 36);
    let serv = Service { id: "s".to_string(), typ: ServiceType::Eh, topic: "rust".to_string() };
    let page = Page { title: "t".to_string(), body: "b".to_string() };
    let p = Mutation.publish(&me(Authority::ServiceProvider), &serv, &page).unwrap();
    let keys: Vec<&str> = p.params.iter().map(|(k, _)| k.as_str()).collect();
    assert_eq!(keys, vec!["sid", "title", "pid", "body", "time", "tname"]);
    assert_eq!(
        (p.params[0].1.as_str(), p.params[1].1.as_str(), p.params[3].1.as_str(), p.params[5].1.as_str()),
        ("s", "t", "b", "rust")
    );
    assert_eq!(p.params[2].1.len(), 36);
}
