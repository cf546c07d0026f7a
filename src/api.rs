//! The request/response API: its addresses and how its answers are read.

use vstd::prelude::*;
use vstd::string::*;
use crate::error::TsunaLoopError;

verus! {

/// Status value by which the API reports success in its response body.
pub const API_STATUS_OK: i64 = 1;

/// HTTP status of a successful request.
pub const HTTP_OK: u16 = 200;

/// HTTP status by which a login asks for a second factor.
pub const HTTP_PRECONDITION_FAILED: u16 = 412;

/// Success of an API response, from the status in its body.
pub fn check_api_status(api_status: i64) -> (r: Result<(), TsunaLoopError>)
    ensures
        r is Ok <==> api_status == API_STATUS_OK,
        r is Err ==> r->Err_0 == TsunaLoopError::Api,
{
    if api_status == API_STATUS_OK {
        Ok(())
    } else {
        Err(TsunaLoopError::Api)
    }
}

/// Success of a request, from its HTTP status.
pub fn check_http_status(http_status: u16) -> (r: Result<(), TsunaLoopError>)
    ensures
        r is Ok <==> http_status == HTTP_OK,
        r is Err ==> r->Err_0 == TsunaLoopError::Api,
{
    if http_status == HTTP_OK {
        Ok(())
    } else {
        Err(TsunaLoopError::Api)
    }
}

/// What a login response means.
#[derive(Debug)]
pub enum LoginOutcome {
    /// Logged in; this is the session secret.
    LoggedIn(String),
    /// Ask for a second-factor token and log in again with it.
    NeedsTwoFactor,
    /// The login was refused.
    Refused,
}

/// Reads a login response from its HTTP status and the secret it carries.
/// A second factor is asked for once only, on the first attempt.
pub fn login_outcome(http_status: u16, secret: Option<String>, with_two_factor: bool) -> (r:
    LoginOutcome)
    ensures
        http_status == HTTP_OK && secret is Some ==> r == LoginOutcome::LoggedIn(secret->Some_0),
        http_status == HTTP_PRECONDITION_FAILED && !with_two_factor ==> r is NeedsTwoFactor,
        !(http_status == HTTP_OK && secret is Some) && !(http_status == HTTP_PRECONDITION_FAILED
            && !with_two_factor) ==> r is Refused,
{
    if http_status == HTTP_OK {
        match secret {
            Some(s) => LoginOutcome::LoggedIn(s),
            None => LoginOutcome::Refused,
        }
    } else if http_status == HTTP_PRECONDITION_FAILED && !with_two_factor {
        LoginOutcome::NeedsTwoFactor
    } else {
        LoginOutcome::Refused
    }
}

/// Reads a device registration response: the new device id, or `None`
/// where the registration was refused.
pub fn registration_outcome(http_status: u16, device_id: Option<String>) -> (r: Option<String>)
    ensures
        http_status == HTTP_OK ==> r == device_id,
        http_status != HTTP_OK ==> r is None,
{
    if http_status == HTTP_OK {
        device_id
    } else {
        None
    }
}

pub open spec fn ack_url_spec(device_id: Seq<char>) -> Seq<char> {
    "https://api.pushover.net/1/devices/"@ + device_id + "/update_highest_message.json"@
}

/// Address to which a device acknowledges the highest message it received.
pub fn ack_url(device_id: &str) -> (r: String)
    ensures
        r@ == ack_url_spec(device_id@),
{
    let mut r = String::from_str("https://api.pushover.net/1/devices/");
    r.append(device_id);
    r.append("/update_highest_message.json");
    r
}

/// Address from which queued messages are fetched.
pub fn messages_url() -> (r: String)
    ensures
        r@ == "https://api.pushover.net/1/messages.json"@,
{
    String::from_str("https://api.pushover.net/1/messages.json")
}

/// Address of the login request.
pub fn login_url() -> (r: String)
    ensures
        r@ == "https://api.pushover.net/1/users/login.json"@,
{
    String::from_str("https://api.pushover.net/1/users/login.json")
}

/// Address of the device registration request.
pub fn devices_url() -> (r: String)
    ensures
        r@ == "https://api.pushover.net/1/devices.json"@,
{
    String::from_str("https://api.pushover.net/1/devices.json")
}

/// Address of the streaming transport.
pub fn stream_url() -> (r: String)
    ensures
        r@ == "wss://client.pushover.net/push"@,
{
    String::from_str("wss://client.pushover.net/push")
}

} // verus!
