//! Identifiers and timestamps of events.
use vstd::prelude::*;
use vstd::string::*;

use crate::scan;
use crate::text;

verus! {

/// The usual notation of the identifier that `uuid::Uuid::parse_str` reads in a
/// text, if it reads one.
pub uninterp spec fn uuid_in(s: Seq<char>) -> Option<Seq<char>>;

/// `uuid::Uuid::parse_str`: the identifier that a text holds, in its usual
/// notation.
#[verifier::external_body]
pub(crate) fn parse_uuid(s: &str) -> (r: Option<String>)
    ensures
        text::opt_text(r) == uuid_in(s@),
{
    uuid::Uuid::parse_str(s).ok().map(|id| id.to_string())
}

/// A hexadecimal digit in lower case.
pub open spec fn is_hex(c: char) -> bool {
    scan::is_digit(c) || 'a' <= c <= 'f'
}

/// The usual notation of a random identifier: hexadecimal digits in lower case in
/// five groups, with a dash between two, of which the third begins with the version
/// and the fourth with the variant.
pub open spec fn is_random_id(s: Seq<char>) -> bool {
    &&& s.len() == 36
    &&& forall|i: int|
        0 <= i < 36 ==> if i == 8 || i == 13 || i == 18 || i == 23 {
            #[trigger] s[i] == '-'
        } else {
            is_hex(s[i])
        }
    &&& s[14] == '4'
    &&& s[19] == '8' || s[19] == '9' || s[19] == 'a' || s[19] == 'b'
}

/// `uuid::Uuid::new_v4`: a random identifier in its usual notation, which can be
/// read back. Which one it is depends on chance.
#[verifier::external_body]
pub(crate) fn random_uuid() -> (r: String)
    ensures
        uuid_in(r@) == Some(r@),
        is_random_id(r@),
{
    uuid::Uuid::new_v4().to_string()
}

/// Two decimal digits stand at a place of a text.
pub open spec fn two_digits(s: Seq<char>, at: int) -> bool {
    scan::is_digit(s[at]) && scan::is_digit(s[at + 1])
}

/// The RFC 3339 notation of a moment in UTC: four digits of the year and two each
/// of month, day, hour, minute and second, then, where there is one, the fraction
/// of the second after a point, and `Z`.
pub open spec fn is_utc_moment(s: Seq<char>) -> bool {
    &&& s.len() >= 20
    &&& two_digits(s, 0)
    &&& two_digits(s, 2)
    &&& s[4] == '-'
    &&& two_digits(s, 5)
    &&& s[7] == '-'
    &&& two_digits(s, 8)
    &&& s[10] == 'T'
    &&& two_digits(s, 11)
    &&& s[13] == ':'
    &&& two_digits(s, 14)
    &&& s[16] == ':'
    &&& two_digits(s, 17)
    &&& s.last() == 'Z'
    &&& s.len() > 20 ==> s.len() >= 22 && s[19] == '.' && forall|i: int|
        20 <= i < s.len() - 1 ==> scan::is_digit(#[trigger] s[i])
}

/// `time::OffsetDateTime::now_utc`, in the RFC 3339 notation that
/// `time::OffsetDateTime::format` writes: the present moment in UTC, if its year
/// can be written with four digits. Which moment it is depends on the clock.
#[verifier::external_body]
pub(crate) fn utc_now_text() -> (r: Option<String>)
    ensures
        r matches Some(s) ==> is_utc_moment(s@),
{
    time::OffsetDateTime::now_utc().format(&time::format_description::well_known::Rfc3339).ok()
}

/// An identifier such as a fresh one: a random one that can be read and is not blank.
pub open spec fn is_fresh_id(s: Seq<char>) -> bool {
    uuid_in(s) == Some(s) && is_random_id(s) && !text::blank(s)
}

/// A moment such as the present one: one in UTC that is not blank.
pub open spec fn is_fresh_moment(s: Seq<char>) -> bool {
    is_utc_moment(s) && !text::blank(s)
}

/// A fresh identifier.
pub fn fresh_event_id() -> (r: String)
    ensures
        is_fresh_id(r@),
{
    let id = random_uuid();
    proof {
        assert(is_hex(id@[0]));
        lemma_not_blank(id@);
    }
    id
}

/// The moment that was written, and the beginning of 1970 where none was.
pub fn timestamp_or_epoch(now: Option<String>) -> (r: String)
    ensures
        r@ == (match now {
            Some(s) => s@,
            None => "1970-01-01T00:00:00Z"@,
        }),
{
    match now {
        Some(s) => s,
        None => "1970-01-01T00:00:00Z".to_owned(),
    }
}

/// The present moment in RFC 3339 notation, and the beginning of 1970 where it
/// cannot be written.
pub fn current_timestamp_rfc3339() -> (r: String)
    ensures
        is_fresh_moment(r@),
{
    let now = timestamp_or_epoch(utc_now_text());
    proof {
        reveal_strlit("1970-01-01T00:00:00Z");
        lemma_not_blank(now@);
    }
    now
}

proof fn lemma_not_blank(s: Seq<char>)
    requires
        s.len() > 0,
        !text::is_white(s[0]),
    ensures
        !text::blank(s),
{
    assert(text::trim_left(s) == s);
    lemma_trim_right_keeps_front(s);
}

proof fn lemma_trim_right_keeps_front(s: Seq<char>)
    requires
        s.len() > 0,
        !text::is_white(s[0]),
    ensures
        text::trim_right(s).len() > 0,
    decreases s.len(),
{
    if text::is_white(s.last()) {
        lemma_trim_right_keeps_front(s.drop_last());
    }
}

} // verus!
