//! Connection and session parameters: the immutable settings snapshot a
//! connect intent carries, and the transport descriptor a resume intent
//! carries.

use crate::packet::QosLevel;
use vstd::prelude::*;

verus! {

/// Default delay, in seconds, before the broker delivers a last-will
/// message.
pub const DEFAULT_WILL_DELAY_SECONDS: u32 = 60;

/// Default expiry, in seconds, of a last-will message and of the session
/// itself.
pub const DEFAULT_WILL_EXPIRY_SECONDS: u32 = 300;

/// Relies on `uuid::Uuid::new_v4` and its `Display` impl: a freshly
/// generated random UUID rendered in the hyphenated form, which is
/// always 36 characters with hyphens at positions 8, 13, 18 and 23.
/// Nothing more is promised of a random value.
#[verifier::external_body]
fn fresh_uuid_string() -> (r: String)
    ensures
        r@.len() == 36,
        r@[8] == '-',
        r@[13] == '-',
        r@[18] == '-',
        r@[23] == '-',
{
    uuid::Uuid::new_v4().to_string()
}

/// A generated default client identifier: `client-` followed by a fresh
/// random UUID in hyphenated form.
pub fn generated_client_id() -> (r: String)
    ensures
        r@.len() == 43,
        r@.subrange(0, 7) == "client-"@,
{
    let mut id = String::from_str("client-");
    let tail = fresh_uuid_string();
    id.append(tail.as_str());
    proof {
        reveal_strlit("client-");
        assert(id@.subrange(0, 7) =~= "client-"@);
    }
    id
}

/// An immutable, value-typed bundle of connection and session
/// parameters, constructed once per connect attempt and handed to the
/// runner by a `StartClient` intent.  Last-will fields are meaningful
/// only when `with_will` is set, and credential fields only when
/// `with_credentials` is set.
#[derive(Clone, Debug)]
pub struct ClientSetting {
    /// `None` until the operator has chosen; `Some(false)` requests a
    /// clean start, `Some(true)` a resumed session.
    pub clean_start: Option<bool>,
    pub client_id: String,

    pub with_tls: bool,
    pub ca_file: String,
    pub client_cert: String,

    pub host: String,
    pub port: u16,
    pub session_expiry: u32,
    pub auto_ack: bool,
    pub auto_packet_id: bool,
    pub with_ping_resp: bool,

    pub with_credentials: bool,
    pub username: String,
    pub password: String,

    pub with_will: bool,
    pub will_topic: String,
    pub will_payload: String,
    pub will_qos: QosLevel,
    pub will_retain: bool,
    pub will_delay: u32,
    pub will_expiry: u32,
}

impl ClientSetting {
    /// A snapshot with the defaults: localhost:1883, no TLS, no
    /// credentials, no last-will, automatic acknowledgments and packet
    /// identifiers, and a freshly generated client identifier.
    pub fn new() -> (r: Self)
        ensures
            r.clean_start is None,
            r.client_id@.len() == 43,
            r.client_id@.subrange(0, 7) == "client-"@,
            !r.with_tls,
            r.ca_file@ == Seq::<char>::empty(),
            r.client_cert@ == Seq::<char>::empty(),
            r.host@ == "localhost"@,
            r.port == 1883,
            r.session_expiry == DEFAULT_WILL_EXPIRY_SECONDS,
            r.auto_ack,
            r.auto_packet_id,
            r.with_ping_resp,
            !r.with_credentials,
            r.username@ == Seq::<char>::empty(),
            r.password@ == Seq::<char>::empty(),
            !r.with_will,
            r.will_topic@ == Seq::<char>::empty(),
            r.will_payload@ == Seq::<char>::empty(),
            r.will_qos is AtMostOnce,
            !r.will_retain,
            r.will_delay == DEFAULT_WILL_DELAY_SECONDS,
            r.will_expiry == DEFAULT_WILL_EXPIRY_SECONDS,
    {
        ClientSetting {
            clean_start: None,
            client_id: generated_client_id(),
            with_tls: false,
            ca_file: String::new(),
            client_cert: String::new(),
            host: String::from_str("localhost"),
            port: 1883,
            session_expiry: DEFAULT_WILL_EXPIRY_SECONDS,
            auto_ack: true,
            auto_packet_id: true,
            with_ping_resp: true,
            with_credentials: false,
            username: String::new(),
            password: String::new(),
            with_will: false,
            will_topic: String::new(),
            will_payload: String::new(),
            will_qos: QosLevel::AtMostOnce,
            will_retain: false,
            will_delay: DEFAULT_WILL_DELAY_SECONDS,
            will_expiry: DEFAULT_WILL_EXPIRY_SECONDS,
        }
    }
}

/// Transport parameters for resuming a prior session: everything a new
/// connection needs that is not already embedded in the captured
/// session state.
#[derive(Clone, Debug)]
pub struct TransportDescriptor {
    pub host: String,
    pub port: u16,
    pub with_tls: bool,
    pub with_credentials: bool,
    pub username: String,
    pub password: String,
}

impl TransportDescriptor {
    /// The transport parameters a snapshot implies: host, port, TLS,
    /// and the credentials exactly when the snapshot enables them.
    pub fn from_settings(s: &ClientSetting) -> (t: TransportDescriptor)
        ensures
            t.host@ == s.host@,
            t.port == s.port,
            t.with_tls == s.with_tls,
            t.with_credentials == s.with_credentials,
            s.with_credentials ==> t.username@ == s.username@ && t.password@ == s.password@,
            !s.with_credentials ==> t.username@ == Seq::<char>::empty() && t.password@
                == Seq::<char>::empty(),
    {
        let (username, password) = if s.with_credentials {
            (s.username.clone(), s.password.clone())
        } else {
            (String::new(), String::new())
        };
        TransportDescriptor {
            host: s.host.clone(),
            port: s.port,
            with_tls: s.with_tls,
            with_credentials: s.with_credentials,
            username,
            password,
        }
    }
}

} // verus!
