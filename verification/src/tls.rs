//! Loading and validation of client TLS material.
//!
//! The material lives in three fixed files under a caller-supplied
//! directory: `ca.pem` (CA bundle, read only when server-certificate
//! verification is requested), `cert.pem` (client certificate chain) and
//! `key.pem` (client private key, exactly one, RSA or PKCS8). The caller
//! reads the files; this module decodes and validates their contents.

use vstd::prelude::*;

use crate::errors::{Error, TlsFileKind};

verus! {

/// One decoded section of a PEM file, with its DER payload.
#[derive(Clone, Debug)]
pub enum PemEntry {
    /// A `CERTIFICATE` section.
    Certificate(Vec<u8>),
    /// An `RSA PRIVATE KEY` (PKCS#1) section.
    RsaKey(Vec<u8>),
    /// A `PRIVATE KEY` (PKCS#8) section.
    Pkcs8Key(Vec<u8>),
    /// An `EC PRIVATE KEY` (SEC1) section.
    EcKey(Vec<u8>),
    /// Any other recognised section.
    Other,
}

impl PemEntry {
    /// Whether this section holds a private key of any encoding.
    pub open spec fn spec_is_key(&self) -> bool {
        self is RsaKey || self is Pkcs8Key || self is EcKey
    }

    /// Whether this section holds a private key of any encoding.
    pub fn is_key(&self) -> (r: bool)
        ensures
            r == self.spec_is_key(),
    {
        match self {
            PemEntry::RsaKey(_) => true,
            PemEntry::Pkcs8Key(_) => true,
            PemEntry::EcKey(_) => true,
            _ => false,
        }
    }
}

/// The sections that a well-formed PEM buffer decodes to.
pub uninterp spec fn pem_entries_of(bytes: Seq<u8>) -> Seq<PemEntry>;

/// Whether a buffer decodes as PEM without error.
pub uninterp spec fn pem_parse_ok(bytes: Seq<u8>) -> bool;

/// Relies on `rustls_pemfile::read_all`: decodes every PEM section of a
/// buffer into its DER payload, classified by the section's begin line,
/// and fails on a section that is unterminated or not valid base64.
#[verifier::external_body]
fn parse_pem(bytes: &[u8]) -> (r: Option<Vec<PemEntry>>)
    ensures
        r is Some <==> pem_parse_ok(bytes@),
        r matches Some(v) ==> v@ == pem_entries_of(bytes@),
{
    let items = rustls_pemfile::read_all(&mut &bytes[..]).ok()?;
    Some(
        items
            .into_iter()
            .map(|item| match item {
                rustls_pemfile::Item::X509Certificate(der) => PemEntry::Certificate(der),
                rustls_pemfile::Item::RSAKey(der) => PemEntry::RsaKey(der),
                rustls_pemfile::Item::PKCS8Key(der) => PemEntry::Pkcs8Key(der),
                rustls_pemfile::Item::ECKey(der) => PemEntry::EcKey(der),
                _ => PemEntry::Other,
            })
            .collect(),
    )
}

/// The encoding of the single accepted client private key.
#[derive(Clone, Copy, Debug, PartialEq, Eq, Structural)]
pub enum KeyEncoding {
    /// PKCS#1, from an `RSA PRIVATE KEY` section.
    Rsa,
    /// PKCS#8, from a `PRIVATE KEY` section.
    Pkcs8,
}

/// The client private key: its encoding and DER payload.
#[derive(Clone, Debug)]
pub struct PrivateKey {
    /// The accepted encoding.
    pub encoding: KeyEncoding,
    /// The DER payload of the key section.
    pub der: Vec<u8>,
}

/// Validated TLS client material, immutable once loaded.
#[derive(Clone, Debug)]
pub struct TlsMaterial {
    /// DER certificates of the trust root; empty when server-certificate
    /// verification is off.
    pub roots: Vec<Vec<u8>>,
    /// The DER client certificate chain from `cert.pem`.
    pub cert_chain: Vec<Vec<u8>>,
    /// The client private key from `key.pem`.
    pub key: PrivateKey,
}

/// The DER payloads of the `CERTIFICATE` sections of `entries`, in order.
pub open spec fn spec_certs_of(entries: Seq<PemEntry>) -> Seq<Seq<u8>>
    decreases entries.len(),
{
    if entries.len() == 0 {
        Seq::empty()
    } else {
        let rest = spec_certs_of(entries.drop_last());
        match entries.last() {
            PemEntry::Certificate(der) => rest.push(der@),
            _ => rest,
        }
    }
}

/// How many sections of `entries` hold a private key.
pub open spec fn spec_key_count(entries: Seq<PemEntry>) -> nat
    decreases entries.len(),
{
    if entries.len() == 0 {
        0
    } else {
        spec_key_count(entries.drop_last()) + if entries.last().spec_is_key() {
            1nat
        } else {
            0nat
        }
    }
}

/// The certificates of the parsed entries, in order.
fn certs_of(entries: &Vec<PemEntry>) -> (r: Vec<Vec<u8>>)
    ensures
        r.deep_view() == spec_certs_of(entries@),
{
    let mut r: Vec<Vec<u8>> = Vec::new();
    let mut i: usize = 0;
    while i < entries.len()
        invariant
            0 <= i <= entries.len(),
            r.deep_view() == spec_certs_of(entries@.subrange(0, i as int)),
        decreases entries.len() - i,
    {
        let ghost pre = r.deep_view();
        proof {
            assert(entries@.subrange(0, i + 1).drop_last() =~= entries@.subrange(0, i as int));
            assert(entries@.subrange(0, i + 1).last() == entries@[i as int]);
        }
        match &entries[i] {
            PemEntry::Certificate(der) => {
                let der2 = der.clone();
                assert(der2@ == der@);
                r.push(der2);
                proof {
                    assert(r.deep_view() =~~= pre.push(der@));
                }
            },
            _ => {},
        }
        i += 1;
        proof {
            assert(r.deep_view() =~~= spec_certs_of(entries@.subrange(0, i as int)));
        }
    }
    proof {
        assert(entries@.subrange(0, entries@.len() as int) =~= entries@);
    }
    r
}

/// The private-key sections of `entries`, in order.
pub open spec fn spec_keys_of(entries: Seq<PemEntry>) -> Seq<PemEntry>
    decreases entries.len(),
{
    if entries.len() == 0 {
        Seq::empty()
    } else {
        let rest = spec_keys_of(entries.drop_last());
        if entries.last().spec_is_key() {
            rest.push(entries.last())
        } else {
            rest
        }
    }
}

/// What the single private key of `key.pem` must be, given its key
/// sections: exactly one, and RSA or PKCS8.
pub open spec fn key_selection_matches(keys: Seq<PemEntry>, r: Result<PrivateKey, Error>) -> bool {
    if keys.len() == 0 {
        r matches Err(Error::NoPrivateKey)
    } else if keys.len() > 1 {
        r matches Err(Error::MultiplePrivateKeys)
    } else {
        match keys[0] {
            PemEntry::RsaKey(d) => r matches Ok(k) && k.encoding == KeyEncoding::Rsa && k.der@
                == d@,
            PemEntry::Pkcs8Key(d) => r matches Ok(k) && k.encoding == KeyEncoding::Pkcs8 && k.der@
                == d@,
            PemEntry::EcKey(_) => r matches Err(Error::UnsupportedPrivateKey),
            _ => false,
        }
    }
}

/// Picks the single accepted private key out of the parsed sections of
/// `key.pem`; zero keys, several keys, or a key that is neither RSA nor
/// PKCS8 is a fatal decode error.
pub fn select_key(entries: &Vec<PemEntry>) -> (r: Result<PrivateKey, Error>)
    ensures
        key_selection_matches(spec_keys_of(entries@), r),
{
    let mut count: usize = 0;
    let mut first_key: Option<PrivateKey> = None;
    let mut first_ec: bool = false;
    let mut i: usize = 0;
    while i < entries.len()
        invariant
            0 <= i <= entries.len(),
            count <= i,
            count == spec_keys_of(entries@.subrange(0, i as int)).len(),
            count > 0 ==> match spec_keys_of(entries@.subrange(0, i as int))[0] {
                PemEntry::RsaKey(d) => !first_ec && (first_key matches Some(k) && k.encoding
                    == KeyEncoding::Rsa && k.der@ == d@),
                PemEntry::Pkcs8Key(d) => !first_ec && (first_key matches Some(k) && k.encoding
                    == KeyEncoding::Pkcs8 && k.der@ == d@),
                PemEntry::EcKey(_) => first_ec && first_key is None,
                _ => false,
            },
            count == 0 ==> first_key is None && !first_ec,
        decreases entries.len() - i,
    {
        proof {
            assert(entries@.subrange(0, i + 1).drop_last() =~= entries@.subrange(0, i as int));
            assert(entries@.subrange(0, i + 1).last() == entries@[i as int]);
        }
        if entries[i].is_key() {
            if count == 0 {
                match &entries[i] {
                    PemEntry::RsaKey(d) => {
                        let der = d.clone();
                        assert(der@ == d@);
                        first_key = Some(PrivateKey { encoding: KeyEncoding::Rsa, der });
                    },
                    PemEntry::Pkcs8Key(d) => {
                        let der = d.clone();
                        assert(der@ == d@);
                        first_key = Some(PrivateKey { encoding: KeyEncoding::Pkcs8, der });
                    },
                    _ => {
                        first_ec = true;
                    },
                }
            }
            count += 1;
        }
        i += 1;
    }
    proof {
        assert(entries@.subrange(0, entries@.len() as int) =~= entries@);
    }
    if count == 0 {
        Err(Error::NoPrivateKey)
    } else if count > 1 {
        Err(Error::MultiplePrivateKeys)
    } else if first_ec {
        Err(Error::UnsupportedPrivateKey)
    } else {
        match first_key {
            Some(k) => Ok(k),
            None => Err(Error::UnsupportedPrivateKey),
        }
    }
}

/// What a load of TLS material must return once `cert.pem` and `key.pem`
/// were decoded and the key was selected.
pub open spec fn roots_and_result_match(
    ca: Option<Seq<u8>>,
    verify_server: bool,
    chain: Seq<Seq<u8>>,
    enc: KeyEncoding,
    der: Seq<u8>,
    r: Result<TlsMaterial, Error>,
) -> bool {
    if !verify_server {
        r matches Ok(m) && m.cert_chain.deep_view() == chain && m.key.encoding == enc && m.key.der@
            == der && m.roots@.len() == 0
    } else {
        match ca {
            Option::None => r matches Err(Error::MissingTlsFile(TlsFileKind::CaPem)),
            Option::Some(ab) => if !pem_parse_ok(ab) {
                r matches Err(Error::InvalidPem(TlsFileKind::CaPem))
            } else {
                r matches Ok(m) && m.cert_chain.deep_view() == chain && m.key.encoding == enc
                    && m.key.der@ == der && m.roots.deep_view() == spec_certs_of(
                    pem_entries_of(ab),
                )
            },
        }
    }
}

/// What a load of TLS material must return, for every combination of
/// present, missing, well-formed and malformed input files.
pub open spec fn load_matches(
    ca: Option<Seq<u8>>,
    cert: Option<Seq<u8>>,
    key: Option<Seq<u8>>,
    verify_server: bool,
    r: Result<TlsMaterial, Error>,
) -> bool {
    match cert {
        Option::None => r matches Err(Error::MissingTlsFile(TlsFileKind::CertPem)),
        Option::Some(cb) => if !pem_parse_ok(cb) {
            r matches Err(Error::InvalidPem(TlsFileKind::CertPem))
        } else {
            match key {
                Option::None => r matches Err(Error::MissingTlsFile(TlsFileKind::KeyPem)),
                Option::Some(kb) => if !pem_parse_ok(kb) {
                    r matches Err(Error::InvalidPem(TlsFileKind::KeyPem))
                } else {
                    let ks = spec_keys_of(pem_entries_of(kb));
                    let chain = spec_certs_of(pem_entries_of(cb));
                    if ks.len() == 0 {
                        r matches Err(Error::NoPrivateKey)
                    } else if ks.len() > 1 {
                        r matches Err(Error::MultiplePrivateKeys)
                    } else {
                        match ks[0] {
                            PemEntry::EcKey(_) => r matches Err(Error::UnsupportedPrivateKey),
                            PemEntry::RsaKey(d) => roots_and_result_match(
                                ca,
                                verify_server,
                                chain,
                                KeyEncoding::Rsa,
                                d@,
                                r,
                            ),
                            PemEntry::Pkcs8Key(d) => roots_and_result_match(
                                ca,
                                verify_server,
                                chain,
                                KeyEncoding::Pkcs8,
                                d@,
                                r,
                            ),
                            _ => false,
                        }
                    }
                },
            }
        },
    }
}

/// Loads and validates TLS client material from the contents of the three
/// fixed files; `None` stands for a file that was missing or unreadable,
/// which is fatal for `cert.pem` and `key.pem` always, and for `ca.pem`
/// when server-certificate verification is requested. The trust root is
/// left empty when verification is off.
pub fn load_tls_material(
    ca_pem: Option<Vec<u8>>,
    cert_pem: Option<Vec<u8>>,
    key_pem: Option<Vec<u8>>,
    verify_server: bool,
) -> (r: Result<TlsMaterial, Error>)
    ensures
        load_matches(
            match ca_pem {
                Option::Some(ref b) => Option::Some(b@),
                Option::None => Option::None,
            },
            match cert_pem {
                Option::Some(ref b) => Option::Some(b@),
                Option::None => Option::None,
            },
            match key_pem {
                Option::Some(ref b) => Option::Some(b@),
                Option::None => Option::None,
            },
            verify_server,
            r,
        ),
{
    let cert_bytes = match cert_pem {
        Some(b) => b,
        None => {
            return Err(Error::MissingTlsFile(TlsFileKind::CertPem));
        },
    };
    let cert_entries = match parse_pem(cert_bytes.as_slice()) {
        Some(es) => es,
        None => {
            return Err(Error::InvalidPem(TlsFileKind::CertPem));
        },
    };
    let chain = certs_of(&cert_entries);
    let key_bytes = match key_pem {
        Some(b) => b,
        None => {
            return Err(Error::MissingTlsFile(TlsFileKind::KeyPem));
        },
    };
    let key_entries = match parse_pem(key_bytes.as_slice()) {
        Some(es) => es,
        None => {
            return Err(Error::InvalidPem(TlsFileKind::KeyPem));
        },
    };
    let key = match select_key(&key_entries) {
        Ok(k) => k,
        Err(e) => {
            return Err(e);
        },
    };
    if !verify_server {
        return Ok(TlsMaterial { roots: Vec::new(), cert_chain: chain, key });
    }
    let ca_bytes = match ca_pem {
        Some(b) => b,
        None => {
            return Err(Error::MissingTlsFile(TlsFileKind::CaPem));
        },
    };
    let ca_entries = match parse_pem(ca_bytes.as_slice()) {
        Some(es) => es,
        None => {
            return Err(Error::InvalidPem(TlsFileKind::CaPem));
        },
    };
    let roots = certs_of(&ca_entries);
    Ok(TlsMaterial { roots, cert_chain: chain, key })
}

} // verus!
