//! The device-session layer: building every request an Aurora session can
//! send, and interpreting every answer the device can give.
//!
//! A session is the pairing of a device address and an access token. Each
//! operation is split into a request builder, which pins the method, the
//! endpoint and the body of the outgoing request, and a response
//! interpreter, which pins the typed result for every status and body that
//! can come back. The transport that carries the requests lives outside
//! this library.

use vstd::prelude::*;
use vstd::string::StringExecFns;
use crate::Ipv4Address;
use crate::error::{BorealisError, BorealisResult};
use crate::json::{json_string_array, json_string_field, json_u16_field};
use crate::json::{parse_string_array, parse_string_field, parse_u16_field};
use crate::nanoleaf_json_messages::{
    OnOffBody, SelectEffect, SetBrightnessBody, SetBrightnessBodySubArgs,
    encode_on_off, encode_select_effect, encode_set_brightness,
    on_off_chars, select_effect_chars, set_brightness_chars,
};
use crate::strutil::{dec_str, fmt_u64};

verus! {

/// The port the device listens on unless another is given.
pub const AURORA_PORT: u32 = 16021;

/// The HTTP method of an outgoing request.
#[derive(Clone, Copy, PartialEq, Eq, Structural, Debug)]
pub enum Method {
    Get,
    Put,
    Post,
}

/// One outgoing HTTP request, ready for a transport to send.
pub struct HttpRequest {
    pub method: Method,
    pub url: String,
    pub body: Option<String>,
}

/// An IPv4 address written in dotted decimal.
pub open spec fn ipv4_chars(addr: Ipv4Address) -> Seq<char> {
    dec_str(addr.o0 as nat) + "."@ + dec_str(addr.o1 as nat) + "."@ + dec_str(addr.o2 as nat)
        + "."@ + dec_str(addr.o3 as nat)
}

/// The base URL of the device's API for a given address and port.
pub open spec fn base_url_chars(addr: Ipv4Address, port: u32) -> Seq<char> {
    "http://"@ + ipv4_chars(addr) + ":"@ + dec_str(port as nat) + "/api/v1"@
}

/// The port a session uses: the given one, or the device's default.
pub open spec fn effective_port(port: Option<u32>) -> u32 {
    match port {
        Some(p) => p,
        None => AURORA_PORT,
    }
}

/// Renders the base URL of the device's API.
fn format_base_url(addr: &Ipv4Address, port: u32) -> (r: String)
    ensures
        r@ == base_url_chars(*addr, port),
{
    let mut r = String::from_str("http://");
    let octet = fmt_u64(addr.o0 as u64);
    r.append(octet.as_str());
    r.append(".");
    let octet = fmt_u64(addr.o1 as u64);
    r.append(octet.as_str());
    r.append(".");
    let octet = fmt_u64(addr.o2 as u64);
    r.append(octet.as_str());
    r.append(".");
    let octet = fmt_u64(addr.o3 as u64);
    r.append(octet.as_str());
    r.append(":");
    let port_text = fmt_u64(port as u64);
    r.append(port_text.as_str());
    r.append("/api/v1");
    assert(r@ =~= base_url_chars(*addr, port));
    r
}

/// Whether a status is in the HTTP success range.
pub open spec fn is_success(status: u16) -> bool {
    200 <= status < 300
}

/// Builds the unauthenticated pairing request: a POST to the fixed pairing
/// endpoint of the device at `addr`.
pub fn generate_auth_token_request(addr: &Ipv4Address, port: Option<u32>) -> (r: HttpRequest)
    ensures
        r.method == Method::Post,
        r.url@ == base_url_chars(*addr, effective_port(port)) + "/new"@,
        r.body is None,
{
    let p: u32 = match port {
        Some(p) => p,
        None => AURORA_PORT,
    };
    let mut url = format_base_url(addr, p);
    url.append("/new");
    HttpRequest { method: Method::Post, url, body: None }
}

/// Interprets the device's answer to the pairing request. A token comes
/// back only with the expected success answer carrying one. Another success
/// status, or a success body without a token, is an unexpected answer; a
/// refusal means the physical-confirmation window was not open. In neither
/// failure is a token returned.
pub fn generate_auth_token_response(status: u16, body: &str) -> (r: BorealisResult<String>)
    ensures
        status == 200 ==> match json_string_field(body@, "auth_token"@) {
            Some(token) => r matches Ok(t) && t@ == token,
            None => r == Err::<String, BorealisError>(BorealisError::UnexpectedStatus(status)),
        },
        status != 200 && is_success(status) ==> r == Err::<String, BorealisError>(
            BorealisError::UnexpectedStatus(status),
        ),
        !is_success(status) ==> r == Err::<String, BorealisError>(BorealisError::Unauthorized),
{
    if status == 200 {
        match parse_string_field(body, "auth_token") {
            Some(token) => Ok(token),
            None => Err(BorealisError::UnexpectedStatus(status)),
        }
    } else if 200 < status && status < 300 {
        Err(BorealisError::UnexpectedStatus(status))
    } else {
        Err(BorealisError::Unauthorized)
    }
}

/// Data required for the Aurora client to make API requests: the resolved
/// device address, bound into a base URL, and the access token pairing
/// granted. Both are immutable for the life of the session.
pub struct Aurora {
    base_url: String,
    auth_token: String,
}

impl Aurora {
    /// The base URL this session sends to.
    pub closed spec fn base(&self) -> Seq<char> {
        self.base_url@
    }

    /// The access token this session holds.
    pub closed spec fn token(&self) -> Seq<char> {
        self.auth_token@
    }

    /// Constructs a new Aurora session from an address, an optional port and
    /// an access token. Construction is pure: the session is a value made
    /// from its arguments alone, and no request is sent by making one.
    pub fn new(addr: &Ipv4Address, port: Option<u32>, auth: &String) -> (a: Aurora)
        ensures
            a.base() == base_url_chars(*addr, effective_port(port)),
            a.token() == auth@,
    {
        let p: u32 = match port {
            Some(p) => p,
            None => AURORA_PORT,
        };
        Aurora { base_url: format_base_url(addr, p), auth_token: auth.clone() }
    }

    /// The URL of an authorized endpoint: base, token, then `suffix`.
    fn endpoint_url(&self, suffix: &str) -> (r: String)
        ensures
            r@ == self.base() + "/"@ + self.token() + suffix@,
    {
        let mut r = self.base_url.clone();
        r.append("/");
        r.append(self.auth_token.as_str());
        r.append(suffix);
        assert(r@ =~= self.base() + "/"@ + self.token() + suffix@);
        r
    }

    /// Builds the request that fetches the device metadata envelope.
    pub fn get_all_panel_info_request(&self) -> (r: HttpRequest)
        ensures
            r.method == Method::Get,
            r.url@ == self.base() + "/"@ + self.token() + "/"@,
            r.body is None,
    {
        HttpRequest { method: Method::Get, url: self.endpoint_url("/"), body: None }
    }

    /// Interprets the metadata answer for the firmware revision: the
    /// `firmwareVersion` member of the envelope. Any other status, or an
    /// envelope without that member, is an unexpected answer.
    pub fn get_firmware_version_response(&self, status: u16, body: &str) -> (r: BorealisResult<
        String,
    >)
        ensures
            status == 200 ==> match json_string_field(body@, "firmwareVersion"@) {
                Some(version) => r matches Ok(v) && v@ == version,
                None => r == Err::<String, BorealisError>(BorealisError::UnexpectedStatus(status)),
            },
            status != 200 ==> r == Err::<String, BorealisError>(
                BorealisError::UnexpectedStatus(status),
            ),
    {
        if status == 200 {
            match parse_string_field(body, "firmwareVersion") {
                Some(version) => Ok(version),
                None => Err(BorealisError::UnexpectedStatus(status)),
            }
        } else {
            Err(BorealisError::UnexpectedStatus(status))
        }
    }

    /// Interprets the metadata answer for the device's friendly name: the
    /// `name` member of the envelope when the call succeeded, and the empty
    /// string on any other status. Answering empty instead of failing is the
    /// documented fallback of this operation.
    pub fn get_name_response(&self, status: u16, body: &str) -> (r: BorealisResult<String>)
        ensures
            status == 200 ==> match json_string_field(body@, "name"@) {
                Some(name) => r matches Ok(n) && n@ == name,
                None => r == Err::<String, BorealisError>(BorealisError::UnexpectedStatus(status)),
            },
            status != 200 ==> (r matches Ok(n) && n@ == Seq::<char>::empty()),
    {
        if status == 200 {
            match parse_string_field(body, "name") {
                Some(name) => Ok(name),
                None => Err(BorealisError::UnexpectedStatus(status)),
            }
        } else {
            Ok(String::new())
        }
    }

    /// Builds the request that sets the panels' on/off state.
    pub fn turn_on_off_request(&self, on: bool) -> (r: HttpRequest)
        ensures
            r.method == Method::Put,
            r.url@ == self.base() + "/"@ + self.token() + "/state"@,
            r.body matches Some(b) && b@ == on_off_chars(on),
    {
        let body = encode_on_off(&OnOffBody { value: on });
        HttpRequest { method: Method::Put, url: self.endpoint_url("/state"), body: Some(body) }
    }

    /// Builds the request that turns the panels on.
    pub fn turn_on_request(&self) -> (r: HttpRequest)
        ensures
            r.method == Method::Put,
            r.url@ == self.base() + "/"@ + self.token() + "/state"@,
            r.body matches Some(b) && b@ == on_off_chars(true),
    {
        self.turn_on_off_request(true)
    }

    /// Builds the request that turns the panels off.
    pub fn turn_off_request(&self) -> (r: HttpRequest)
        ensures
            r.method == Method::Put,
            r.url@ == self.base() + "/"@ + self.token() + "/state"@,
            r.body matches Some(b) && b@ == on_off_chars(false),
    {
        self.turn_on_off_request(false)
    }

    /// Builds the request that fetches the current brightness.
    pub fn get_brightness_request(&self) -> (r: HttpRequest)
        ensures
            r.method == Method::Get,
            r.url@ == self.base() + "/"@ + self.token() + "/state/brightness"@,
            r.body is None,
    {
        HttpRequest { method: Method::Get, url: self.endpoint_url("/state/brightness"), body: None }
    }

    /// Interprets the brightness answer: the `value` member of the state
    /// variable the device reports. Any other status, or a body without
    /// that member, is an unexpected answer.
    pub fn get_brightness_response(&self, status: u16, body: &str) -> (r: BorealisResult<u16>)
        ensures
            status == 200 ==> match json_u16_field(body@, "value"@) {
                Some(value) => r == Ok::<u16, BorealisError>(value),
                None => r == Err::<u16, BorealisError>(BorealisError::UnexpectedStatus(status)),
            },
            status != 200 ==> r == Err::<u16, BorealisError>(
                BorealisError::UnexpectedStatus(status),
            ),
    {
        if status == 200 {
            match parse_u16_field(body, "value") {
                Some(value) => Ok(value),
                None => Err(BorealisError::UnexpectedStatus(status)),
            }
        } else {
            Err(BorealisError::UnexpectedStatus(status))
        }
    }

    /// Builds the request that sets the brightness. The transition time, when
    /// one is given, goes on the wire in whole seconds: a sub-second remainder
    /// is floored away. The wire field holds sixteen bits of seconds, so the
    /// duration must stay within them; a longer transition cannot be encoded
    /// and is not silently shortened here.
    pub fn set_brightness_request(&self, value: u16, duration_millis: Option<u64>) -> (r:
        HttpRequest)
        requires
            duration_millis matches Some(m) ==> m / 1000 <= u16::MAX,
        ensures
            r.method == Method::Put,
            r.url@ == self.base() + "/"@ + self.token() + "/state"@,
            r.body matches Some(b) && b@ == set_brightness_chars(
                value,
                floored_seconds(duration_millis),
            ),
    {
        let duration: Option<u16> = match duration_millis {
            Some(millis) => Some((millis / 1000) as u16),
            None => None,
        };
        let body = encode_set_brightness(
            &SetBrightnessBody { brightness: SetBrightnessBodySubArgs { value, duration } },
        );
        HttpRequest { method: Method::Put, url: self.endpoint_url("/state"), body: Some(body) }
    }

    /// Builds the request that fetches the names of the programmed effects.
    pub fn get_effects_request(&self) -> (r: HttpRequest)
        ensures
            r.method == Method::Get,
            r.url@ == self.base() + "/"@ + self.token() + "/effects/effectsList"@,
            r.body is None,
    {
        HttpRequest {
            method: Method::Get,
            url: self.endpoint_url("/effects/effectsList"),
            body: None,
        }
    }

    /// Interprets the effects answer: the names in the order the device
    /// lists them. On any non-success status the list is empty rather than
    /// an error; that is the documented fallback of this operation. A
    /// success answer whose body is not an array of strings is unexpected.
    pub fn get_effects_response(&self, status: u16, body: &str) -> (r: BorealisResult<Vec<String>>)
        ensures
            status == 200 ==> match json_string_array(body@) {
                Some(names) => r matches Ok(v) && v.deep_view() == names,
                None => r == Err::<Vec<String>, BorealisError>(
                    BorealisError::UnexpectedStatus(status),
                ),
            },
            status != 200 ==> (r matches Ok(v) && v@.len() == 0),
    {
        if status == 200 {
            match parse_string_array(body) {
                Some(names) => Ok(names),
                None => Err(BorealisError::UnexpectedStatus(status)),
            }
        } else {
            Ok(Vec::new())
        }
    }

    /// Builds the request that commands the device to display an effect.
    pub fn set_effect_request(&self, effect: &String) -> (r: HttpRequest)
        ensures
            r.method == Method::Put,
            r.url@ == self.base() + "/"@ + self.token() + "/effects/select"@,
            r.body matches Some(b) && b@ == select_effect_chars(effect@),
    {
        let body = encode_select_effect(&SelectEffect { select: effect.clone() });
        HttpRequest {
            method: Method::Put,
            url: self.endpoint_url("/effects/select"),
            body: Some(body),
        }
    }

    /// Builds the request that makes the panels flash in unison.
    pub fn identify_request(&self) -> (r: HttpRequest)
        ensures
            r.method == Method::Put,
            r.url@ == self.base() + "/"@ + self.token() + "/identify"@,
            r.body is None,
    {
        HttpRequest { method: Method::Put, url: self.endpoint_url("/identify"), body: None }
    }

    /// Interprets the answer to a state-changing request: success statuses
    /// confirm the change, and any other status is the device rejecting it.
    pub fn put_response(&self, status: u16) -> (r: BorealisResult<()>)
        ensures
            is_success(status) ==> r == Ok::<(), BorealisError>(()),
            !is_success(status) ==> r == Err::<(), BorealisError>(
                BorealisError::UnexpectedStatus(status),
            ),
    {
        if 200 <= status && status < 300 {
            Ok(())
        } else {
            Err(BorealisError::UnexpectedStatus(status))
        }
    }

    /// Interprets the answer to an identify request: the flash is
    /// best-effort, so every status that arrives at all is a success.
    pub fn identify_response(&self, _status: u16) -> (r: BorealisResult<()>)
        ensures
            r == Ok::<(), BorealisError>(()),
    {
        Ok(())
    }
}

/// The whole seconds of an optional duration given in milliseconds. Callers
/// keep the seconds within the wire field's sixteen bits, so the narrowing
/// below never drops a value.
pub open spec fn floored_seconds(duration_millis: Option<u64>) -> Option<u16>
    recommends
        duration_millis matches Some(m) ==> m / 1000 <= u16::MAX,
{
    match duration_millis {
        Some(millis) => Some((millis / 1000) as u16),
        None => None,
    }
}

/// A transition shorter than one second is floored, not rounded: the body
/// that goes on the wire is the body of a zero-second transition.
pub proof fn lemma_set_brightness_subsecond(value: u16, millis: u64)
    requires
        millis < 1000,
    ensures
        set_brightness_chars(value, floored_seconds(Some(millis))) == set_brightness_chars(
            value,
            floored_seconds(Some(0)),
        ),
{
    assert(millis / 1000 == 0);
}

} // verus!
