//! The entry point: selecting and constructing the transport for a daemon
//! address, and the per-resource interfaces layered on top of it.
//!
//! A `unix` scheme selects the Unix-domain variant with the address's
//! path; any other scheme selects TCP, encrypted exactly when TLS
//! material is supplied; a malformed address is a fatal construction
//! error. Environment lookups and file reads stay with the caller, who
//! passes their results in as plain values.

use vstd::prelude::*;

use crate::addr::{parse_addr, spec_parse_addr};
use crate::errors::Error;
use crate::tls::TlsMaterial;
use crate::transport::{normalized_host, Transport};

verus! {

/// Interface for communicating with the daemon over a chosen transport.
#[derive(Clone, Debug)]
pub struct Docker {
    /// The channel every request of this instance is sent over.
    pub transport: Transport,
}

/// The default daemon address, used when the caller supplies none.
pub open spec fn default_addr() -> Seq<char> {
    "unix:///var/run/docker.sock"@
}

/// What transport construction must yield for an address and optional TLS
/// material: the variant tagged by the scheme, with the socket path or the
/// normalized host string.
pub open spec fn selection_matches(
    addr: Seq<char>,
    tls: Option<TlsMaterial>,
    r: Result<Docker, Error>,
) -> bool {
    match spec_parse_addr(addr) {
        Option::None => r matches Err(e) && e is InvalidAddress,
        Option::Some(m) => if m.scheme == "unix"@ {
            r matches Ok(d) && (d.transport matches Transport::Unix { path } && path@ == m.path)
        } else {
            match tls {
                Option::None => r matches Ok(d) && (d.transport matches Transport::Tcp { host }
                    && host@ == normalized_host(m)),
                Option::Some(t) => r matches Ok(d) && (d.transport
                    matches Transport::EncryptedTcp { host, tls: t2 } && host@
                    == normalized_host(m) && t2 == t),
            }
        },
    }
}

/// Constructs the plain-TCP variant for an already normalized host string.
pub fn get_docker_for_tcp_http(tcp_host_str: String) -> (r: Docker)
    ensures
        r.transport matches Transport::Tcp { host } && host@ == tcp_host_str@,
{
    Docker { transport: Transport::Tcp { host: tcp_host_str } }
}

/// Constructs the encrypted-TCP variant for an already normalized host
/// string and loaded TLS material.
pub fn get_docker_for_tcp_https(tcp_host_str: String, tls: TlsMaterial) -> (r: Docker)
    ensures
        r.transport matches Transport::EncryptedTcp { host, tls: t } && host@ == tcp_host_str@ && t
            == tls,
{
    Docker { transport: Transport::EncryptedTcp { host: tcp_host_str, tls } }
}

/// Constructs a TCP transport for a normalized host string: encrypted
/// exactly when TLS material is supplied.
pub fn get_docker_for_tcp(tcp_host_str: String, tls: Option<TlsMaterial>) -> (r: Docker)
    ensures
        tls is None ==> (r.transport matches Transport::Tcp { host } && host@ == tcp_host_str@),
        tls matches Some(t) ==> (r.transport matches Transport::EncryptedTcp { host, tls: t2 }
            && host@ == tcp_host_str@ && t2 == t),
{
    match tls {
        Some(t) => get_docker_for_tcp_https(tcp_host_str, t),
        None => get_docker_for_tcp_http(tcp_host_str),
    }
}

impl Docker {
    /// Constructs an instance for a daemon listening on a Unix socket at
    /// the given path.
    pub fn unix(socket_path: String) -> (r: Docker)
        ensures
            r.transport matches Transport::Unix { path } && path@ == socket_path@,
    {
        Docker { transport: Transport::Unix { path: socket_path } }
    }

    /// Constructs an instance for the daemon at the given address,
    /// selecting the transport by the scheme and the presence of TLS
    /// material.
    pub fn host_with_tls(addr: &str, tls: Option<TlsMaterial>) -> (r: Result<Docker, Error>)
        ensures
            selection_matches(addr@, tls, r),
    {
        let spec = match parse_addr(addr) {
            Ok(h) => h,
            Err(e) => {
                return Err(Error::InvalidAddress);
            },
        };
        if spec.scheme == "unix".to_owned() {
            Ok(Docker { transport: Transport::Unix { path: spec.path } })
        } else {
            let host_str = crate::transport::build_host_str(&spec.scheme, &spec.host, spec.port);
            Ok(get_docker_for_tcp(host_str, tls))
        }
    }

    /// Constructs an instance for the daemon at the given address over a
    /// plain (never encrypted) channel, unless the scheme selects the
    /// Unix-domain variant.
    pub fn host(addr: &str) -> (r: Result<Docker, Error>)
        ensures
            selection_matches(addr@, Option::None, r),
    {
        Self::host_with_tls(addr, None)
    }

    /// Constructs an instance from configuration read once by the caller:
    /// the daemon address (the default Unix socket when none is given) and
    /// TLS material, already loaded, when certificate-based encryption was
    /// requested.
    pub fn from_settings(addr: Option<&str>, tls: Option<TlsMaterial>) -> (r: Result<
        Docker,
        Error,
    >)
        ensures
            addr matches Some(a) ==> selection_matches(a@, tls, r),
            addr is None ==> selection_matches(default_addr(), tls, r),
    {
        let a: &str = match addr {
            Some(s) => s,
            None => "unix:///var/run/docker.sock",
        };
        Self::host_with_tls(a, tls)
    }

    /// Exports an interface for interacting with images.
    pub fn images(&'_ self) -> (r: Images<'_>)
        ensures
            r.docker == self,
    {
        Images { docker: self }
    }

    /// Exports an interface for interacting with containers.
    pub fn containers(&'_ self) -> (r: Containers<'_>)
        ensures
            r.docker == self,
    {
        Containers { docker: self }
    }

    /// Exports an interface for interacting with services.
    pub fn services(&'_ self) -> (r: Services<'_>)
        ensures
            r.docker == self,
    {
        Services { docker: self }
    }

    /// Exports an interface for interacting with networks.
    pub fn networks(&'_ self) -> (r: Networks<'_>)
        ensures
            r.docker == self,
    {
        Networks { docker: self }
    }

    /// Exports an interface for interacting with volumes.
    pub fn volumes(&'_ self) -> (r: Volumes<'_>)
        ensures
            r.docker == self,
    {
        Volumes { docker: self }
    }
}

/// Version information reported by the daemon.
#[derive(Clone, Debug)]
pub struct Version {
    /// The daemon's version string.
    pub version: String,
    /// The API version the daemon speaks.
    pub api_version: String,
    /// The commit the daemon was built from.
    pub git_commit: String,
    /// The Go toolchain the daemon was built with.
    pub go_version: String,
    /// The daemon's operating system.
    pub os: String,
    /// The daemon's architecture.
    pub arch: String,
    /// The host kernel version.
    pub kernel_version: String,
    /// When the daemon was built.
    pub build_time: String,
}

/// Information reported by the daemon.
#[derive(Clone, Debug)]
pub struct Info {
    /// How many containers exist.
    pub containers: u64,
    /// How many images exist.
    pub images: u64,
    /// The storage driver in use.
    pub driver: String,
    /// The daemon's root directory.
    pub docker_root_dir: String,
    /// Status lines of the storage driver.
    pub driver_status: Vec<Vec<String>>,
    /// The daemon's identifier.
    pub id: String,
    /// The host kernel version.
    pub kernel_version: String,
    /// Total memory of the host.
    pub mem_total: u64,
    /// Whether memory limits are supported.
    pub memory_limit: bool,
    /// How many processors the host has.
    pub n_cpu: u64,
    /// How many event listeners are registered.
    pub n_events_listener: u64,
    /// How many goroutines the daemon runs.
    pub n_goroutines: u64,
    /// The daemon's name.
    pub name: String,
    /// The host operating system.
    pub operating_system: String,
    /// Whether swap limits are supported.
    pub swap_limit: bool,
    /// The daemon's clock, when reported.
    pub system_time: Option<String>,
}

/// One event of the daemon's notification feed.
#[derive(Clone, Debug)]
pub struct Event {
    /// The kind of object the event concerns.
    pub typ: String,
    /// What happened.
    pub action: String,
    /// The object the event concerns.
    pub actor: Actor,
    /// A legacy status string, when reported.
    pub status: Option<String>,
    /// A legacy object identifier, when reported.
    pub id: Option<String>,
    /// A legacy image reference, when reported.
    pub from: Option<String>,
    /// When the event happened, in seconds.
    pub time: u64,
    /// When the event happened, in nanoseconds.
    pub time_nano: u64,
}

/// The object an event concerns.
#[derive(Clone, Debug)]
pub struct Actor {
    /// The object's identifier.
    pub id: String,
    /// The object's attributes, as key and value pairs.
    pub attributes: Vec<(String, String)>,
}

/// Interface for image operations, bound to one transport.
pub struct Images<'a> {
    /// The instance whose transport every request uses.
    pub docker: &'a Docker,
}

/// Interface for container operations, bound to one transport.
pub struct Containers<'a> {
    /// The instance whose transport every request uses.
    pub docker: &'a Docker,
}

/// Interface for service operations, bound to one transport.
pub struct Services<'a> {
    /// The instance whose transport every request uses.
    pub docker: &'a Docker,
}

/// Interface for network operations, bound to one transport.
pub struct Networks<'a> {
    /// The instance whose transport every request uses.
    pub docker: &'a Docker,
}

/// Interface for volume operations, bound to one transport.
pub struct Volumes<'a> {
    /// The instance whose transport every request uses.
    pub docker: &'a Docker,
}

} // verus!
