//! Identifiers of slides, users and stored settings: random UUIDs in their
//! hyphenated lower-case text form.

use vstd::prelude::*;

verus! {

/// A lower-case hexadecimal digit.
pub open spec fn is_lower_hex(c: char) -> bool {
    ('0' <= c && c <= '9') || ('a' <= c && c <= 'f')
}

/// Positions of the hyphens in the hyphenated form of a UUID.
pub open spec fn is_hyphen_position(i: int) -> bool {
    i == 8 || i == 13 || i == 18 || i == 23
}

/// The hyphenated lower-case text form of a UUID,
/// `xxxxxxxx-xxxx-xxxx-xxxx-xxxxxxxxxxxx`.
pub open spec fn is_hyphenated_uuid(s: Seq<char>) -> bool {
    &&& s.len() == 36
    &&& forall|i: int|
        0 <= i < 36 ==> if is_hyphen_position(i) {
            #[trigger] s[i] == '-'
        } else {
            is_lower_hex(s[i])
        }
}

/// The hyphenated form of a random (version 4, RFC 4122 variant) UUID.
pub open spec fn is_random_uuid(s: Seq<char>) -> bool {
    &&& is_hyphenated_uuid(s)
    &&& s[14] == '4'
    &&& (s[19] == '8' || s[19] == '9' || s[19] == 'a' || s[19] == 'b')
}

/// Every random id is in the hyphenated form that slide deletion accepts
/// back unchanged: the id a slide was stored under on upload is the id that
/// deletes it.
pub proof fn lemma_random_ids_hyphenated(s: Seq<char>)
    requires
        is_random_uuid(s),
    ensures
        is_hyphenated_uuid(s),
{
}

/// What `uuid::Uuid::parse_str` makes of a text: the UUID written back in
/// hyphenated lower-case form, or the parser's error message.
pub uninterp spec fn parsed_uuid(s: Seq<char>) -> Result<Seq<char>, Seq<char>>;

/// Calls `uuid::Uuid::new_v4` and writes the UUID with `to_string`.
///
/// The value is random; what is promised of every outcome is the text form:
/// `Display` for `Uuid` writes the 36-character hyphenated lower-case form,
/// and `new_v4` sets the version nibble to 4 and the variant bits to `10`.
/// The call panics if the operating system's random source fails; nothing
/// here can rule that out.
#[verifier::external_body]
pub(crate) fn new_random_id() -> (res: String)
    ensures
        is_random_uuid(res@),
{
    uuid::Uuid::new_v4().to_string()
}

/// Calls `uuid::Uuid::parse_str` on `s` and writes an accepted UUID back with
/// `to_string`, or the error with `to_string`.
///
/// The result is named `parsed_uuid`. Besides that, this states what the
/// parser's source shows: what comes back is in hyphenated lower-case form,
/// and a text already in that form (36 characters, hyphens at 8, 13, 18 and
/// 23, hexadecimal digits elsewhere) is accepted and comes back unchanged.
/// Which other forms (simple, braced, URN, upper case) are accepted, and the
/// error messages, are left to the name.
#[verifier::external_body]
pub(crate) fn canonical_uuid(s: &str) -> (res: Result<String, String>)
    ensures
        res matches Ok(t) ==> parsed_uuid(s@) is Ok && parsed_uuid(s@)->Ok_0 == t@ && is_hyphenated_uuid(
            t@,
        ),
        res matches Err(m) ==> parsed_uuid(s@) is Err && parsed_uuid(s@)->Err_0 == m@,
        is_hyphenated_uuid(s@) ==> res is Ok && res->Ok_0@ == s@,
{
    match uuid::Uuid::parse_str(s) {
        Ok(u) => Ok(u.to_string()),
        Err(e) => Err(e.to_string()),
    }
}

} // verus!
