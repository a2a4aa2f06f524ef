//! The transport: a closed union over the three channel variants, fixed at
//! construction, plus the classification of HTTP responses into the error
//! taxonomy.
//!
//! The variant carries what a connector needs to reach the daemon: the
//! socket path, or the normalized `scheme://host:port` authority, plus the
//! validated TLS material for the encrypted variant.

use vstd::prelude::*;

use crate::addr::AddrModel;
use crate::errors::Error;
use crate::strnum::{dec_digits, u64_to_dec};
use crate::tls::TlsMaterial;

verus! {

/// The communication channel a request is sent over. Exactly one variant
/// is active per instance; it never changes after construction.
#[derive(Clone, Debug)]
pub enum Transport {
    /// A local Unix-domain socket.
    Unix {
        /// The socket's filesystem path.
        path: String,
    },
    /// Plain TCP.
    Tcp {
        /// The normalized `scheme://host:port` authority.
        host: String,
    },
    /// Mutually-authenticated TLS over TCP.
    EncryptedTcp {
        /// The normalized `scheme://host:port` authority.
        host: String,
        /// The client TLS material the connection authenticates with.
        tls: TlsMaterial,
    },
}

/// The canonical `scheme://host:port` form of a parsed address; the port
/// defaults to 80 when absent.
pub open spec fn normalized_host(m: AddrModel) -> Seq<char> {
    m.scheme + "://"@ + m.host + ":"@ + dec_digits(
        match m.port {
            Option::Some(p) => p as nat,
            Option::None => 80 as nat,
        },
    )
}

/// Builds the canonical `scheme://host:port` string of a parsed address.
pub fn build_host_str(scheme: &String, host: &String, port: Option<u16>) -> (r: String)
    ensures
        r@ == normalized_host(
            AddrModel { scheme: scheme@, host: host@, port, path: Seq::empty() },
        ),
{
    let p: u64 = match port {
        Some(p) => p as u64,
        None => 80,
    };
    let mut s = scheme.clone();
    s.append("://");
    s.append(host.as_str());
    s.append(":");
    let digits = u64_to_dec(p);
    s.append(digits.as_str());
    s
}

/// Whether an HTTP status signals success.
pub open spec fn is_success_status(status: u16) -> bool {
    200 <= status < 300
}

/// Classifies one fully buffered response: a 2xx status yields the body,
/// any other status yields an API error carrying exactly that status and
/// that body. Used by one-shot and streaming entry points alike, before
/// any data is handed to the consumer.
pub fn classify_response(status: u16, body: String) -> (r: Result<String, Error>)
    ensures
        is_success_status(status) ==> (r matches Ok(b) && b@ == body@),
        !is_success_status(status) ==> (r matches Err(e) && (e matches Error::Api {
            code,
            message,
        } && code == status && message@ == body@)),
{
    if 200 <= status && status < 300 {
        Ok(body)
    } else {
        Err(Error::Api { code: status, message: body })
    }
}

/// Classifies the response to an upgrade request: only `101 Switching
/// Protocols` hands the connection over; anything else means the daemon
/// declined the upgrade.
pub fn classify_upgrade_response(status: u16) -> (r: Result<(), Error>)
    ensures
        r is Ok <==> status == 101,
        status != 101 ==> (r matches Err(e) && e is ConnectionNotUpgraded),
{
    if status == 101 {
        Ok(())
    } else {
        Err(Error::ConnectionNotUpgraded)
    }
}

} // verus!
