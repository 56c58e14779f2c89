use vstd::prelude::*;

verus! {

/// Whether the text has the shape of a random (version 4) UUID in its
/// hyphenated lower-case form: 36 characters, hyphens at 8, 13, 18 and 23,
/// the version digit `4` at 14, lower-case hexadecimal digits elsewhere.
pub open spec fn is_uuid_v4_text(s: Seq<char>) -> bool {
    &&& s.len() == 36
    &&& s[14] == '4'
    &&& forall|i: int|
        0 <= i < 36 ==> if i == 8 || i == 13 || i == 18 || i == 23 {
            #[trigger] s[i] == '-'
        } else {
            ('0' <= s[i] <= '9') || ('a' <= s[i] <= 'f')
        }
}

/// A fresh random identifier: `uuid::Uuid::new_v4()` written with its
/// `Display` (hyphenated, lower case). Trusted: the text has that shape, as
/// the crate documents; which identifier comes out is left unsaid (random).
#[verifier::external_body]
pub fn new_id() -> (r: String)
    ensures
        is_uuid_v4_text(r@),
{
    uuid::Uuid::new_v4().to_string()
}

/// The current time in whole seconds since the Unix epoch:
/// `chrono::Utc::now().timestamp()`. Trusted: it is not before the epoch
/// (`Utc::now` measures the system time from the epoch and fails rather than
/// give an earlier time); which second it is is left unsaid: it is the clock.
#[verifier::external_body]
pub fn now_timestamp() -> (r: i64)
    ensures
        r >= 0,
{
    chrono::Utc::now().timestamp()
}

/// Whether the text is a time written by chrono for the UTC zone: a local
/// date and time followed by a space and `UTC`.
pub open spec fn is_utc_time_text(s: Seq<char>) -> bool {
    &&& s.len() > 4
    &&& s.skip(s.len() - 4) == " UTC"@
}

/// The current time as text: `chrono::offset::Utc::now()` written with its
/// `Display`. Trusted: the text is the date and time, a space and `UTC`, as
/// chrono's `Display` for `DateTime<Utc>` writes it; which time is left
/// unsaid: it is the clock.
#[verifier::external_body]
pub fn now_text() -> (r: String)
    ensures
        is_utc_time_text(r@),
{
    chrono::offset::Utc::now().to_string()
}

} // verus!
