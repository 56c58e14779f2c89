use nt_server::accounts::{Account, Creds, Identity, TokenClaims};
use nt_server::authority::Authority;
use nt_server::passwords::hash;
use nt_server::session::{
    login, logout, register, registered, session_cookie, try_login, LoginStep, RegisterStep,
    Reply, SESSION_SECONDS,
};

fn creds(user: &str, pw: &str) -> Creds {
    Creds {
        username: user.to_string(),
        password: pw.to_string(),
        disp_name: "Someone".to_string(),
        auth: Authority::Subscriber,
    }
}

fn value<'a>(params: &'a [(String, String)], key: &str) -> &'a str {
    params.iter().find(|(k, _)| k == key).map(|(_, v)| v.as_str()).unwrap()
}

fn account(pw_hash: String) -> Account {
    Account {
        obj: "obj-1".to_string(),
        creds: Creds {
            username: "luke".to_string(),
            password: pw_hash,
            disp_name: "Luke".to_string(),
            auth: Authority::Subscriber,
        },
    }
}

#[test]
fn token_claims_last_one_hour() {
    let c = TokenClaims::new("me".to_string(), Authority::Admin, 1_700_000_000);
    assert_eq!(c.sub, "me");
    assert_eq!(c.auth, Authority::Admin);
    assert_eq!(c.iat, 1_700_000_000);
    assert_eq!(c.exp, 1_700_003_600);
    assert_eq!(SESSION_SECONDS, 3600);
}

#[test]
fn issued_claims_use_the_clock() {
    let c = TokenClaims::issue("me".to_string(), Authority::Subscriber);
    assert!(c.iat > 1_600_000_000);
    assert_eq!(c.exp - c.iat, 3600);
}

#[test]
fn session_cookie_matches_token_lifetime() {
    let c = session_cookie("abc".to_string());
    assert_eq!(c.name, "token");
    assert_eq!(c.value, "abc");
    assert_eq!(c.path, "/");
    assert_eq!(c.max_age, 3600);
    assert!(c.http_only);
}

#[test]
fn logout_expires_the_cookie() {
    let c = logout();
    assert_eq!(c.name, "token");
    assert_eq!(c.value, "");
    assert_eq!(c.path, "/");
    assert_eq!(c.max_age, -1);
    assert!(c.http_only);
}

#[test]
fn refusal_replies() {
    assert_eq!((Reply::Conflict.code(), Reply::Conflict.status().as_str(), Reply::Conflict.message().as_str()), (409, "fail", "Doppleganger alert."));
    assert_eq!((Reply::NoRecord.code(), Reply::NoRecord.message().as_str()), (404, "No record."));
    assert_eq!(
        (Reply::WrongPassword.code(), Reply::WrongPassword.message().as_str()),
        (400, "These are not the droids we are looking for.")
    );
    let e = Reply::ServerError("boom".to_string());
    assert_eq!((e.code(), e.status().as_str(), e.message().as_str()), (500, "error", "boom"));
}

#[test]
fn register_refuses_taken_username() {
    match register(creds("luke", "pw"), 1) {
        RegisterStep::Refuse(Reply::Conflict) => {}
        other => panic!("unexpected {other:?}"),
    }
}

#[test]
fn register_stores_hashed_password() {
    match register(creds("luke", "pw"), 0) {
        RegisterStep::Create(q) => {
            assert_eq!(q.query, "makeme");
            let keys: Vec<&str> = q.params.iter().map(|(k, _)| k.as_str()).collect();
            assert_eq!(keys, vec!["obj", "unm", "pswd", "dnm", "auth"]);
            assert_eq!(value(&q.params, "unm"), "luke");
            assert_eq!(value(&q.params, "dnm"), "Someone");
            assert_eq!(value(&q.params, "auth"), "Subscriber");
            assert_eq!(value(&q.params, "obj").len(), 36);
            let stored = value(&q.params, "pswd").to_string();
            assert_ne!(stored, "pw");
            assert!(stored.starts_with("$argon2"));
            assert!(matches!(login(Some(account(stored)), "pw"), LoginStep::Grant(_)));
        }
        other => panic!("unexpected {other:?}"),
    }
}

#[test]
fn register_empty_password_means_username() {
    match register(creds("leia", ""), 0) {
        RegisterStep::Create(q) => {
            let stored = value(&q.params, "pswd").to_string();
            assert!(matches!(login(Some(account(stored.clone())), "leia"), LoginStep::Grant(_)));
            assert!(matches!(login(Some(account(stored)), ""), LoginStep::Refuse(Reply::WrongPassword)));
        }
        other => panic!("unexpected {other:?}"),
    }
}

#[test]
fn registered_opens_session_or_reports_error() {
    let (a, c) = registered(Ok(account("h".to_string()))).unwrap();
    assert_eq!(a.obj, "obj-1");
    assert_eq!(c.sub, "obj-1");
    assert_eq!(c.auth, Authority::Subscriber);
    assert_eq!(c.exp - c.iat, 3600);
    match registered(Err("db down".to_string())) {
        Err(Reply::ServerError(m)) => assert_eq!(m, "db down"),
        other => panic!("unexpected {other:?}"),
    }
}

#[test]
fn login_outcomes() {
    assert!(matches!(login(None, "pw"), LoginStep::Refuse(Reply::NoRecord)));
    let stored = hash("secret");
    match login(Some(account(stored.clone())), "secret") {
        LoginStep::Grant(c) => {
            assert_eq!(c.sub, "obj-1");
            assert_eq!(c.auth, Authority::Subscriber);
        }
        other => panic!("unexpected {other:?}"),
    }
    assert!(matches!(login(Some(account(stored)), "Secret"), LoginStep::Refuse(Reply::WrongPassword)));
}

#[test]
fn try_login_rejects_malformed_stored_hash() {
    assert!(try_login(Some(account("not a hash".to_string())), "x").is_none());
    assert!(matches!(try_login(None, "x"), Some(LoginStep::Refuse(Reply::NoRecord))));
}

#[test]
fn token_prefers_cookie_over_header() {
    assert_eq!(
        Identity::token_from(Some("c".to_string()), Some("Bearer h".to_string())),
        Some("c".to_string())
    );
    assert_eq!(Identity::token_from(None, Some("Bearer abc.def".to_string())), Some("abc.def".to_string()));
    assert_eq!(Identity::token_from(None, Some("Bearer ".to_string())), Some(String::new()));
    assert_eq!(Identity::token_from(None, None), None);
}

#[test]
fn missing_token_is_refused() {
    let e = Identity::from_token(None).unwrap_err();
    assert_eq!(e.status_text(), "fail");
    assert_eq!(
        e.message_text(),
        "Roses are red,\n violets are blue,\n please enter your credentials,\n we'd love to have you."
    );
    assert_eq!(Identity::from_token(Some("t".to_string())).unwrap(), "t");
}

#[test]
fn undecodable_token_is_refused() {
    let e = Identity::from_claims(None).unwrap_err();
    assert_eq!(e.status_text(), "fail");
    assert_eq!(e.message_text(), "I find your lack of faith...disturbing");
    let c = TokenClaims { sub: "u-1".to_string(), auth: Authority::ServiceProvider, iat: 1, exp: 2 };
    let i = Identity::from_claims(Some(c)).unwrap();
    assert_eq!(i.user_id, "u-1");
    assert_eq!(i.auth, Authority::ServiceProvider);
}

#[test]
fn login_session_identifies_the_account() {
    let stored = hash("pw");
    let claims = match login(Some(account(stored)), "pw") {
        LoginStep::Grant(c) => c,
        other => panic!("unexpected {other:?}"),
    };
    let me = Identity::from_claims(Some(claims)).unwrap();
    assert_eq!(me.user_id, "obj-1");
    assert_eq!(me.auth, Authority::Subscriber);
}
