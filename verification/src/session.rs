use vstd::prelude::*;

use crate::accounts::{Account, Creds, ErrorResponse, Identity, TokenClaims};
use crate::authority::{authority_text, Authority};
use crate::database::{params_view, DbRequest};
use crate::fresh::{is_uuid_v4_text, new_id, now_timestamp};
use crate::passwords::{argon2_accepts, hash, password_fits, password_matches, phc_well_formed};

verus! {

/// How long a session lasts, in seconds: the token's lifetime and the cookie's age.
pub const SESSION_SECONDS: i64 = 3600;

/// The name of the cookie that carries the session token.
pub open spec fn token_cookie_name() -> Seq<char> {
    "token"@
}

/// The message a request without any token is refused with.
pub open spec fn no_token_message() -> Seq<char> {
    "Roses are red,\n violets are blue,\n please enter your credentials,\n we'd love to have you."@
}

/// The message a request with a token that does not decode is refused with.
pub open spec fn bad_token_message() -> Seq<char> {
    "I find your lack of faith...disturbing"@
}

impl TokenClaims {
    /// The claims were issued at second `t`: issued then, expiring an hour later.
    pub open spec fn issued_at(self, t: i64) -> bool {
        &&& self.iat == t as usize
        &&& self.exp == (t + SESSION_SECONDS) as usize
    }

    /// The claims for a session of `sub` with authority `auth`, issued at second `now`.
    pub fn new(sub: String, auth: Authority, now: i64) -> (r: TokenClaims)
        ensures
            r.sub@ == sub@,
            r.auth == auth,
            r.issued_at(now),
    {
        let later: i128 = now as i128 + SESSION_SECONDS as i128;
        TokenClaims { sub, auth, iat: now as usize, exp: later as usize }
    }

    /// The claims for a session of `sub` with authority `auth`, issued now.
    pub fn issue(sub: String, auth: Authority) -> (r: TokenClaims)
        ensures
            r.sub@ == sub@,
            r.auth == auth,
            exists|t: i64| 0 <= t && r.issued_at(t),
    {
        let now = now_timestamp();
        TokenClaims::new(sub, auth, now)
    }
}

/// A cookie to set on a reply.
#[derive(Debug, Clone)]
pub struct CookieSpec {
    pub name: String,
    pub value: String,
    pub path: String,
    /// Seconds the cookie lives; negative expires it at once.
    pub max_age: i64,
    pub http_only: bool,
}

/// The cookie that carries a session token: site-wide, for one session's
/// length, out of reach of scripts.
pub fn session_cookie(token: String) -> (r: CookieSpec)
    ensures
        r.name@ == token_cookie_name(),
        r.value@ == token@,
        r.path@ == "/"@,
        r.max_age == SESSION_SECONDS,
        r.http_only,
{
    CookieSpec {
        name: String::from_str("token"),
        value: token,
        path: String::from_str("/"),
        max_age: SESSION_SECONDS,
        http_only: true,
    }
}

/// The cookie that ends a session: the token cookie, emptied and already expired.
pub fn logout() -> (r: CookieSpec)
    ensures
        r.name@ == token_cookie_name(),
        r.value@ == Seq::<char>::empty(),
        r.path@ == "/"@,
        r.max_age == -1,
        r.http_only,
{
    CookieSpec {
        name: String::from_str("token"),
        value: String::new(),
        path: String::from_str("/"),
        max_age: -1,
        http_only: true,
    }
}

/// A refusal of a register or log-in request.
#[derive(Debug, Clone)]
pub enum Reply {
    /// The username is already taken.
    Conflict,
    /// No account has the username.
    NoRecord,
    /// The password does not match.
    WrongPassword,
    /// The database failed, with its description.
    ServerError(String),
}

impl Reply {
    pub open spec fn spec_code(self) -> u16 {
        match self {
            Reply::Conflict => 409,
            Reply::NoRecord => 404,
            Reply::WrongPassword => 400,
            Reply::ServerError(_) => 500,
        }
    }

    pub open spec fn spec_status(self) -> Seq<char> {
        match self {
            Reply::ServerError(_) => "error"@,
            _ => "fail"@,
        }
    }

    pub open spec fn spec_message(self) -> Seq<char> {
        match self {
            Reply::Conflict => "Doppleganger alert."@,
            Reply::NoRecord => "No record."@,
            Reply::WrongPassword => "These are not the droids we are looking for."@,
            Reply::ServerError(m) => m@,
        }
    }

    /// The HTTP status code of the refusal.
    pub fn code(&self) -> (r: u16)
        ensures
            r == self.spec_code(),
    {
        match self {
            Reply::Conflict => 409,
            Reply::NoRecord => 404,
            Reply::WrongPassword => 400,
            Reply::ServerError(_) => 500,
        }
    }

    /// The status word of the refusal's body.
    pub fn status(&self) -> (r: String)
        ensures
            r@ == self.spec_status(),
    {
        match self {
            Reply::ServerError(_) => String::from_str("error"),
            _ => String::from_str("fail"),
        }
    }

    /// The message of the refusal's body.
    pub fn message(&self) -> (r: String)
        ensures
            r@ == self.spec_message(),
    {
        match self {
            Reply::Conflict => String::from_str("Doppleganger alert."),
            Reply::NoRecord => String::from_str("No record."),
            Reply::WrongPassword => String::from_str("These are not the droids we are looking for."),
            Reply::ServerError(m) => m.clone(),
        }
    }
}

/// The password an account is registered with: the one given, or the
/// username where none is given.
pub open spec fn effective_password(c: Creds) -> Seq<char> {
    if c.password@.len() == 0 {
        c.username@
    } else {
        c.password@
    }
}

/// The request that stores a new account made from the credentials: a new
/// object id, the username, the hash of the password, the display name and the authority.
pub open spec fn is_makeme_request(q: DbRequest, new: Creds, password: Seq<char>) -> bool {
    let p = params_view(q.params@);
    &&& q.query@ == "makeme"@
    &&& p.len() == 5
    &&& p[0].0 == "obj"@ && is_uuid_v4_text(p[0].1)
    &&& p[1] == ("unm"@, new.username@)
    &&& p[2].0 == "pswd"@ && phc_well_formed(p[2].1) && argon2_accepts(password, p[2].1)
    &&& p[3] == ("dnm"@, new.disp_name@)
    &&& p[4] == ("auth"@, authority_text(new.auth))
}

/// Stores a new account for the credentials, under a new object id, with the
/// password hashed.
pub fn makeme(new: Creds) -> (r: DbRequest)
    requires
        password_fits(new.password@),
    ensures
        is_makeme_request(r, new, new.password@),
{
    let ghost g = new;
    let auth = new.auth.to_string();
    let pswd = hash(new.password.as_str());
    let mut params: Vec<(String, String)> = Vec::new();
    params.push((String::from_str("obj"), new_id()));
    params.push((String::from_str("unm"), new.username));
    params.push((String::from_str("pswd"), pswd));
    params.push((String::from_str("dnm"), new.disp_name));
    params.push((String::from_str("auth"), auth));
    let r = DbRequest { query: String::from_str("makeme"), params };
    proof {
        let p = params_view(r.params@);
        assert(p[1] == ("unm"@, g.username@));
        assert(p[3] == ("dnm"@, g.disp_name@));
    }
    r
}

/// The next step of registering.
#[derive(Debug, Clone)]
pub enum RegisterStep {
    /// Answer with this refusal.
    Refuse(Reply),
    /// Store the account.
    Create(DbRequest),
}

/// Decides a registration once the number of accounts with its username is
/// known: a taken username is refused; otherwise the account is stored, its
/// password being the username where none was given.
pub fn register(body: Creds, existing: i64) -> (r: RegisterStep)
    requires
        existing == 0 ==> password_fits(effective_password(body)),
    ensures
        existing != 0 <==> r matches RegisterStep::Refuse(Reply::Conflict),
        existing == 0 ==> (r matches RegisterStep::Create(q) && is_makeme_request(
            q,
            body,
            effective_password(body),
        )),
        existing == 0 && body.password@.len() > 0 ==> (r matches RegisterStep::Create(q)
            && argon2_accepts(body.password@, params_view(q.params@)[2].1)),
        existing == 0 && body.password@.len() == 0 ==> (r matches RegisterStep::Create(q)
            && argon2_accepts(body.username@, params_view(q.params@)[2].1)),
{
    if existing != 0 {
        return RegisterStep::Refuse(Reply::Conflict);
    }
    let mut body = body;
    let ghost given = body;
    if body.password.as_str().is_empty() {
        body.password = body.username.clone();
    }
    proof {
        assert(body.password@ == effective_password(given));
        assert(body.username@ == given.username@);
    }
    RegisterStep::Create(makeme(body))
}

/// The hash a registration stores is of the whole password given, when one is
/// given, and of the username otherwise: logging in with exactly that
/// password is accepted against it.
pub proof fn registration_stores_the_given_password(body: Creds, q: DbRequest)
    requires
        is_makeme_request(q, body, effective_password(body)),
    ensures
        body.password@.len() > 0 ==> argon2_accepts(body.password@, params_view(q.params@)[2].1),
        body.password@.len() == 0 ==> argon2_accepts(body.username@, params_view(q.params@)[2].1),
        phc_well_formed(params_view(q.params@)[2].1),
{
}

/// Claims issued at clock reading `t` are issued at `t` and expire exactly
/// one session later, so they are valid for the hour that follows; a later
/// reading gives a later expiry.
pub proof fn claims_run_from_their_reading(c1: TokenClaims, t1: i64, c2: TokenClaims, t2: i64)
    requires
        c1.issued_at(t1),
        c2.issued_at(t2),
        0 <= t1 <= t2,
        t2 + SESSION_SECONDS <= usize::MAX,
    ensures
        c1.iat == t1,
        c1.exp == t1 + SESSION_SECONDS,
        c1.iat < c1.exp,
        t1 < t2 ==> c1.exp < c2.exp,
{
}

/// Finishes a registration once the database has answered: a stored account
/// gets a session for its object id and authority; a failure is answered
/// with its description.
pub fn registered(created: Result<Account, String>) -> (r: Result<(Account, TokenClaims), Reply>)
    ensures
        created matches Err(m) ==> r matches Err(Reply::ServerError(m2)) && m2@ == m@,
        created matches Ok(a) ==> r matches Ok((a2, c)) && a2 == a && c.sub@ == a.obj@ && c.auth
            == a.creds.auth && exists|t: i64| 0 <= t && c.issued_at(t),
{
    match created {
        Ok(a) => {
            let claims = TokenClaims::issue(a.obj.clone(), a.creds.auth);
            Ok((a, claims))
        },
        Err(m) => Err(Reply::ServerError(m)),
    }
}

/// The next step of logging in.
#[derive(Debug, Clone)]
pub enum LoginStep {
    /// Answer with this refusal.
    Refuse(Reply),
    /// Open a session with these claims.
    Grant(TokenClaims),
}

/// Whether a log-in with this password opens a session for the account found.
pub open spec fn login_grants(found: Option<Account>, password: Seq<char>) -> bool {
    found matches Some(a) && argon2_accepts(password, a.creds.password@)
}

/// The step a log-in takes for the account found (if any) and the password given.
pub open spec fn is_login_step(r: LoginStep, found: Option<Account>, password: Seq<char>) -> bool {
    match found {
        None => r matches LoginStep::Refuse(Reply::NoRecord),
        Some(a) => if login_grants(found, password) {
            r matches LoginStep::Grant(c) && c.sub@ == a.obj@ && c.auth == a.creds.auth && exists|
                t: i64,
            | 0 <= t && c.issued_at(t)
        } else {
            r matches LoginStep::Refuse(Reply::WrongPassword)
        },
    }
}

/// Decides a log-in once the account with its username has been looked up:
/// none found is refused with no record, a password Argon2 does not accept
/// against the stored hash is refused as wrong, and otherwise a session opens
/// for the account's object id and authority.
pub fn login(found: Option<Account>, password: &str) -> (r: LoginStep)
    requires
        found matches Some(a) ==> phc_well_formed(a.creds.password@),
    ensures
        is_login_step(r, found, password@),
{
    match found {
        None => LoginStep::Refuse(Reply::NoRecord),
        Some(a) => {
            let ok = password_matches(password, a.creds.password.as_str());
            match ok {
                Some(true) => LoginStep::Grant(TokenClaims::issue(a.obj.clone(), a.creds.auth)),
                _ => LoginStep::Refuse(Reply::WrongPassword),
            }
        },
    }
}

/// Decides a log-in as `login` does where the stored hash parses; `None`
/// where the account found holds a stored hash that does not.
pub fn try_login(found: Option<Account>, password: &str) -> (r: Option<LoginStep>)
    ensures
        r is None <==> (found matches Some(a) && !phc_well_formed(a.creds.password@)),
        r matches Some(s) ==> is_login_step(s, found, password@),
{
    let well_formed = match &found {
        None => true,
        Some(a) => password_matches(password, a.creds.password.as_str()).is_some(),
    };
    if well_formed {
        Some(login(found, password))
    } else {
        None
    }
}

/// Registering and then logging in with the password registered (the one
/// given, or the username when none was) opens a session: the hash that the
/// registration request stores parses, and Argon2 accepts that password
/// against it.
pub proof fn login_after_register(body: Creds, q: DbRequest, stored: Account)
    requires
        is_makeme_request(q, body, effective_password(body)),
        stored.creds.password@ == params_view(q.params@)[2].1,
    ensures
        phc_well_formed(stored.creds.password@),
        login_grants(Some(stored), effective_password(body)),
{
}

/// A log-in that opens a session opens it for the account found: its claims
/// name the account's object id and authority, which is who a request
/// carrying those claims is identified as (`Identity::from_claims`).
pub proof fn granted_session_names_the_account(
    found: Option<Account>,
    password: Seq<char>,
    step: LoginStep,
)
    requires
        is_login_step(step, found, password),
        login_grants(found, password),
    ensures
        step matches LoginStep::Grant(c) && c.sub@ == found.unwrap().obj@ && c.auth
            == found.unwrap().creds.auth,
{
}

/// A session token issued at a time after the epoch expires one session
/// length later, and the cookie that carries it lives exactly that long.
pub proof fn token_and_cookie_last_one_session(c: TokenClaims, t: i64, cookie: CookieSpec)
    requires
        c.issued_at(t),
        0 <= t,
        t + SESSION_SECONDS <= usize::MAX,
        cookie.max_age == SESSION_SECONDS,
    ensures
        c.exp - c.iat == SESSION_SECONDS,
        c.exp - c.iat == cookie.max_age,
{
}

impl Identity {
    /// The token a request carries: the `token` cookie where there is one,
    /// otherwise the `Authorization` header without its first seven
    /// characters (the `Bearer ` prefix).
    pub fn token_from(cookie: Option<String>, authorization: Option<String>) -> (r: Option<
        String,
    >)
        requires
            cookie is None && authorization is Some ==> authorization.unwrap().is_ascii()
                && authorization.unwrap()@.len() >= 7,
        ensures
            cookie matches Some(c) ==> r matches Some(t) && t@ == c@,
            cookie is None && authorization is None ==> r is None,
            cookie is None ==> (authorization matches Some(h) ==> (r matches Some(t) && t@
                == h@.skip(7))),
    {
        match cookie {
            Some(c) => Some(c),
            None => match authorization {
                Some(h) => {
                    let s = h.as_str();
                    let n = s.unicode_len();
                    let rest = s.substring_ascii(7, n);
                    assert(rest@ =~= h@.skip(7));
                    Some(String::from_str(rest))
                },
                None => None,
            },
        }
    }

    /// The first check on a request's token: without one the request is
    /// refused, asking for credentials.
    pub fn from_token(token: Option<String>) -> (r: Result<String, ErrorResponse>)
        ensures
            token matches Some(t) ==> r matches Ok(t2) && t2@ == t@,
            token is None ==> (r matches Err(e) && e.status() == "fail"@ && e.message()
                == no_token_message()),
    {
        match token {
            Some(t) => Ok(t),
            None => Err(
                ErrorResponse::new(
                    String::from_str("fail"),
                    String::from_str(
                        "Roses are red,\n violets are blue,\n please enter your credentials,\n we'd love to have you.",
                    ),
                ),
            ),
        }
    }

    /// The second check: a token that did not decode (or was refused) is
    /// refused; otherwise the request is made by the token's subject with the
    /// token's authority.
    pub fn from_claims(decoded: Option<TokenClaims>) -> (r: Result<Identity, ErrorResponse>)
        ensures
            decoded matches Some(c) ==> r matches Ok(i) && i.user_id@ == c.sub@ && i.auth
                == c.auth,
            decoded is None ==> (r matches Err(e) && e.status() == "fail"@ && e.message()
                == bad_token_message()),
    {
        match decoded {
            Some(c) => Ok(Identity { user_id: c.sub, auth: c.auth }),
            None => Err(
                ErrorResponse::new(
                    String::from_str("fail"),
                    String::from_str("I find your lack of faith...disturbing"),
                ),
            ),
        }
    }
}

} // verus!
