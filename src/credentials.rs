//! Credentials of a registered device, and the frame that presents them.

use vstd::prelude::*;
use vstd::string::*;

verus! {

/// Opaque tokens obtained once by login and registration.
#[derive(Debug)]
pub struct Credentials {
    pub secret: String,
    pub device_id: String,
}

pub open spec fn login_frame_spec(device_id: Seq<char>, secret: Seq<char>) -> Seq<char> {
    "login:"@ + device_id + ":"@ + secret + "\n"@
}

/// The authentication frame sent right after connecting.
pub fn login_frame(creds: &Credentials) -> (r: String)
    ensures
        r@ == login_frame_spec(creds.device_id@, creds.secret@),
{
    let mut r = String::from_str("login:");
    r.append(creds.device_id.as_str());
    r.append(":");
    r.append(creds.secret.as_str());
    r.append("\n");
    r
}

/// Credentials from what the secret store holds: both tokens or none.
pub fn stored_credentials(secret: Option<String>, device_id: Option<String>) -> (r: Option<
    Credentials,
>)
    ensures
        (secret is Some && device_id is Some) <==> r is Some,
        r is Some ==> r->Some_0.secret == secret->Some_0 && r->Some_0.device_id
            == device_id->Some_0,
{
    match (secret, device_id) {
        (Some(secret), Some(device_id)) => Some(Credentials { secret, device_id }),
        _ => None,
    }
}

/// A device counts as registered as soon as either token is stored.
pub fn is_registered(has_secret: bool, has_device_id: bool) -> (r: bool)
    ensures
        r == (has_secret || has_device_id),
{
    has_secret || has_device_id
}

/// A line read from a terminal without its line feed; `None` where it does
/// not end in one (no input).
pub fn strip_newline(line: &str) -> (r: Option<String>)
    ensures
        line@.len() > 0 && line@.last() == '\n' ==> r is Some && r->Some_0@ == line@.drop_last(),
        !(line@.len() > 0 && line@.last() == '\n') ==> r is None,
{
    let n = line.unicode_len();
    if n == 0 {
        return None;
    }
    if line.get_char(n - 1) != '\n' {
        return None;
    }
    let head = line.substring_char(0, n - 1);
    Some(String::from_str(head))
}

} // verus!
