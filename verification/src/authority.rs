use vstd::prelude::*;

verus! {

/// The role a user account holds.
#[derive(Debug, Clone, Copy, PartialEq, Eq, Structural)]
pub enum Authority {
    Unknown,
    Subscriber,
    ServiceProvider,
    Admin,
}

/// What text names each authority; anything else means `Unknown`.
pub open spec fn authority_of(s: Seq<char>) -> Authority {
    if s == "Subscriber"@ {
        Authority::Subscriber
    } else if s == "Admin"@ {
        Authority::Admin
    } else if s == "Service"@ {
        Authority::ServiceProvider
    } else {
        Authority::Unknown
    }
}

/// The text an authority is written as.
pub open spec fn authority_text(a: Authority) -> Seq<char> {
    match a {
        Authority::Admin => "Admin"@,
        Authority::ServiceProvider => "Service"@,
        Authority::Subscriber => "Subscriber"@,
        Authority::Unknown => "Unknown"@,
    }
}

/// Whether two string slices hold the same characters.
pub fn str_eq(a: &str, b: &str) -> (r: bool)
    ensures
        r == (a@ == b@),
{
    a.to_owned() == b.to_owned()
}

impl Authority {
    /// Reads an authority from its stored text.
    pub fn parse(s: &str) -> (r: Authority)
        ensures
            r == authority_of(s@),
    {
        if str_eq(s, "Subscriber") {
            Authority::Subscriber
        } else if str_eq(s, "Admin") {
            Authority::Admin
        } else if str_eq(s, "Service") {
            Authority::ServiceProvider
        } else {
            Authority::Unknown
        }
    }

    /// The text the authority is stored and printed as.
    pub fn to_string(&self) -> (r: String)
        ensures
            r@ == authority_text(*self),
    {
        match self {
            Authority::Admin => String::from_str("Admin"),
            Authority::ServiceProvider => String::from_str("Service"),
            Authority::Subscriber => String::from_str("Subscriber"),
            Authority::Unknown => String::from_str("Unknown"),
        }
    }
}

impl<'a> From<&'a str> for Authority {
    fn from(s: &'a str) -> (r: Authority) {
        Authority::parse(s)
    }
}

impl<'a> vstd::std_specs::convert::FromSpecImpl<&'a str> for Authority {
    open spec fn obeys_from_spec() -> bool {
        true
    }

    open spec fn from_spec(s: &'a str) -> Authority {
        authority_of(s@)
    }
}

/// Printing an authority and reading the text back gives the same authority.
pub proof fn authority_text_round_trip(a: Authority)
    ensures
        authority_of(authority_text(a)) == a,
{
    reveal_strlit("Subscriber");
    reveal_strlit("Admin");
    reveal_strlit("Service");
    reveal_strlit("Unknown");
    assert("Subscriber"@.len() == 10 && "Admin"@.len() == 5);
    assert("Service"@.len() == 7 && "Unknown"@.len() == 7);
    assert("Unknown"@[0] == 'U' && "Service"@[0] == 'S');
}

} // verus!
