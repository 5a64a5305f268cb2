//! The player's identity: the name, the UUID and the access token the client
//! logs in with.

use vstd::prelude::*;
use crate::text::{chars_of, string_of};

verus! {

/// The UUID that `uuid::Uuid::parse_str` reads from a text, as a 128-bit
/// big-endian number; none where the text is not a UUID.
pub uninterp spec fn uuid_parse(s: Seq<char>) -> Option<u128>;

/// The version 3 (MD5, name-based) UUID of a name in the DNS namespace, as a
/// 128-bit big-endian number.
pub uninterp spec fn uuid_v3_dns(name: Seq<char>) -> u128;

/// `Uuid::parse_str`, read as a number with `Uuid::as_u128`. Nothing is
/// stated of which texts parse, nor to what: the result is named.
#[verifier::external_body]
fn parse_uuid(s: &str) -> (r: Option<u128>)
    ensures
        r == uuid_parse(s@),
{
    match uuid::Uuid::parse_str(s) {
        Ok(u) => Some(u.as_u128()),
        Err(_) => None,
    }
}

/// `Uuid::new_v3` in `Uuid::NAMESPACE_DNS` on the UTF-8 bytes of `name`, read
/// as a number. Its value is named; the version nibble is 3 and the variant
/// bits are those of RFC 4122, as the crate's builder sets them.
#[verifier::external_body]
fn dns_name_uuid(name: &str) -> (r: u128)
    ensures
        r == uuid_v3_dns(name@),
        (r >> 76u128) & 0xf == 3,
        (r >> 62u128) & 0x3 == 2,
{
    uuid::Uuid::new_v3(&uuid::Uuid::NAMESPACE_DNS, name.as_bytes()).as_u128()
}

/// Who the player is.
pub struct UserData {
    pub username: String,
    /// The UUID as a 128-bit big-endian number.
    pub uuid: u128,
    pub access_token: Option<String>,
}

/// The name offline players are hashed under.
pub open spec fn offline_name(username: Seq<char>) -> Seq<char> {
    "OfflinePlayer:"@ + username
}

/// The UUID of an offline player: the version 3 UUID of
/// `OfflinePlayer:<name>` in the DNS namespace.
pub open spec fn spec_offline_uuid(username: Seq<char>) -> u128 {
    uuid_v3_dns(offline_name(username))
}

/// The name used when none is given.
pub open spec fn spec_username(username: Option<String>) -> Seq<char> {
    match username {
        Some(u) => u@,
        None => "Steve"@,
    }
}

/// The UUID of the player: the given one where it parses, else the offline
/// UUID of the name.
pub open spec fn spec_uuid(uuid: Option<String>, username: Seq<char>) -> u128 {
    match uuid {
        Some(s) => match uuid_parse(s@) {
            Some(v) => v,
            None => spec_offline_uuid(username),
        },
        None => spec_offline_uuid(username),
    }
}

impl UserData {
    /// The identity from the command line: the name defaults to `Steve`, and
    /// the UUID to the offline UUID of the name where none is given or the
    /// given one does not parse.
    pub fn from_args(
        username: Option<String>,
        uuid: Option<String>,
        access_token: Option<String>,
    ) -> (r: Self)
        ensures
            r.username@ == spec_username(username),
            r.uuid == spec_uuid(uuid, spec_username(username)),
            r.access_token == access_token,
    {
        let username = match username {
            Some(u) => u,
            None => string_of(&chars_of("Steve")),
        };
        let parsed = match &uuid {
            Some(s) => parse_uuid(s.as_str()),
            None => None,
        };
        let uuid = match parsed {
            Some(v) => v,
            None => Self::offline_uuid(username.as_str()),
        };
        UserData { username, uuid, access_token }
    }

    /// The UUID of an offline player with this name.
    pub fn offline_uuid(username: &str) -> (r: u128)
        ensures
            r == spec_offline_uuid(username@),
            (r >> 76u128) & 0xf == 3,
    {
        let mut name = chars_of("OfflinePlayer:");
        let rest = chars_of(username);
        let ghost start = name@;
        for i in 0..rest.len()
            invariant
                name@ == start + rest@.take(i as int),
        {
            name.push(rest[i]);
            assert(name@ =~= start + rest@.take(i + 1));
        }
        assert(rest@.take(rest@.len() as int) =~= rest@);
        let s = string_of(&name);
        dns_name_uuid(s.as_str())
    }
}

} // verus!
