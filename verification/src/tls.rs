//! Certificates and keys for the TLS listener, taken from PEM text.
//!
//! The PEM sections are found and decoded by the `rustls_pemfile` crate.
//! What comes out is DER, passed on as bytes and not looked into.

use vstd::prelude::*;

verus! {

/// Why a PEM text did not give what the listener needs.
#[derive(Clone, Copy, Debug, PartialEq, Eq, Structural)]
pub enum TlsMaterialError {
    /// A section of the certificate file could not be read.
    InvalidCert,
    /// A section of the key file could not be read.
    InvalidKey,
    /// The key file holds no PKCS#8 private key.
    NoPrivateKey,
}

impl TlsMaterialError {
    /// The error in words.
    pub fn message(self) -> (r: &'static str)
        ensures
            r@ == match self {
                TlsMaterialError::InvalidCert => "invalid cert"@,
                TlsMaterialError::InvalidKey => "invalid key"@,
                TlsMaterialError::NoPrivateKey => "no private key found"@,
            },
    {
        match self {
            TlsMaterialError::InvalidCert => "invalid cert",
            TlsMaterialError::InvalidKey => "invalid key",
            TlsMaterialError::NoPrivateKey => "no private key found",
        }
    }
}

/// What `rustls_pemfile::certs` yields on a PEM text, item by item: the DER
/// bytes of each certificate section, `None` for an item that is an error.
pub uninterp spec fn pem_certificates(pem: Seq<u8>) -> Seq<Option<Seq<u8>>>;

/// What `rustls_pemfile::pkcs8_private_keys` yields on a PEM text, item by
/// item: the DER bytes of each PKCS#8 key section, `None` for an item that
/// is an error.
pub uninterp spec fn pem_pkcs8_keys(pem: Seq<u8>) -> Seq<Option<Seq<u8>>>;

/// The items of a PEM reading as contracts see them.
pub open spec fn item_views(items: Seq<Option<Vec<u8>>>) -> Seq<Option<Seq<u8>>> {
    Seq::new(
        items.len(),
        |i: int|
            match items[i] {
                Some(der) => Some(der@),
                None => None,
            },
    )
}

/// The byte strings of a vector of byte vectors.
pub open spec fn byte_strings(v: Seq<Vec<u8>>) -> Seq<Seq<u8>> {
    Seq::new(v.len(), |i: int| v[i]@)
}

/// Reads the certificate sections of `pem` with `rustls_pemfile::certs`.
/// Trusted: the items are those that the crate's iterator yields, in its
/// order, each certificate as its DER bytes and each error as `None`.
#[verifier::external_body]
fn read_certificates(pem: &[u8]) -> (r: Vec<Option<Vec<u8>>>)
    ensures
        item_views(r@) == pem_certificates(pem@),
{
    let mut reader = pem;
    rustls_pemfile::certs(&mut reader).map(
        |item| item.ok().map(|der| der.as_ref().to_vec()),
    ).collect()
}

/// Reads the PKCS#8 key sections of `pem` with
/// `rustls_pemfile::pkcs8_private_keys`. Trusted: the items are those that
/// the crate's iterator yields, in its order, each key as its DER bytes and
/// each error as `None`.
#[verifier::external_body]
fn read_pkcs8_keys(pem: &[u8]) -> (r: Vec<Option<Vec<u8>>>)
    ensures
        item_views(r@) == pem_pkcs8_keys(pem@),
{
    let mut reader = pem;
    rustls_pemfile::pkcs8_private_keys(&mut reader).map(
        |item| item.ok().map(|der| der.secret_pkcs8_der().to_vec()),
    ).collect()
}

/// Whether every item was read.
pub open spec fn all_read(items: Seq<Option<Seq<u8>>>) -> bool {
    forall|i: int| 0 <= i < items.len() ==> (#[trigger] items[i]) is Some
}

/// The sections of a reading in which every item was read.
pub open spec fn sections(items: Seq<Option<Seq<u8>>>) -> Seq<Seq<u8>> {
    Seq::new(items.len(), |i: int| items[i]->0)
}

/// Turns the items of a reading into its sections, or into nothing if one
/// of the items is an error.
pub fn collect_sections(items: Vec<Option<Vec<u8>>>) -> (r: Option<Vec<Vec<u8>>>)
    ensures
        r is Some <==> all_read(item_views(items@)),
        r matches Some(found) ==> byte_strings(found@) == sections(item_views(items@)),
{
    let ghost views = item_views(items@);
    let mut found: Vec<Vec<u8>> = Vec::new();
    let mut rest = items;
    let n = rest.len();
    let mut i: usize = 0;
    while i < n
        invariant
            i <= n,
            n == rest.len(),
            views == item_views(items@),
            n == views.len(),
            found.len() == i,
            forall|k: int| 0 <= k < i ==> (#[trigger] views[k]) is Some,
            forall|k: int| 0 <= k < i ==> (#[trigger] found@[k])@ == views[k]->0,
            forall|k: int| i <= k < n ==> #[trigger] item_views(rest@)[k] == views[k],
        decreases n - i,
    {
        let mut taken: Option<Vec<u8>> = None;
        let ghost before = rest@;
        std::mem::swap(&mut rest[i], &mut taken);
        match taken {
            None => {
                assert(item_views(before)[i as int] == views[i as int]);
                assert(!all_read(views));
                return None;
            },
            Some(der) => {
                assert(item_views(before)[i as int] == views[i as int]);
                found.push(der);
                assert forall|k: int| i + 1 <= k < n implies #[trigger] item_views(rest@)[k]
                    == views[k] by {
                    assert(item_views(before)[k] == views[k]);
                }
            },
        }
        i += 1;
    }
    assert(byte_strings(found@) =~= sections(views));
    Some(found)
}

/// The certificates of a PEM text, or the failure to read them.
pub open spec fn certificates(pem: Seq<u8>) -> Result<Seq<Seq<u8>>, TlsMaterialError> {
    if all_read(pem_certificates(pem)) {
        Ok(sections(pem_certificates(pem)))
    } else {
        Err(TlsMaterialError::InvalidCert)
    }
}

/// The first PKCS#8 key of a PEM text, or the failure to find one.
pub open spec fn private_key(pem: Seq<u8>) -> Result<Seq<u8>, TlsMaterialError> {
    if !all_read(pem_pkcs8_keys(pem)) {
        Err(TlsMaterialError::InvalidKey)
    } else if pem_pkcs8_keys(pem).len() == 0 {
        Err(TlsMaterialError::NoPrivateKey)
    } else {
        Ok(pem_pkcs8_keys(pem)[0]->0)
    }
}

/// The view of a list of certificates, or of the failure to read them.
pub open spec fn certificates_view(r: Result<Vec<Vec<u8>>, TlsMaterialError>) -> Result<
    Seq<Seq<u8>>,
    TlsMaterialError,
> {
    match r {
        Ok(found) => Ok(byte_strings(found@)),
        Err(e) => Err(e),
    }
}

/// The view of a key, or of the failure to find one.
pub open spec fn key_view(r: Result<Vec<u8>, TlsMaterialError>) -> Result<
    Seq<u8>,
    TlsMaterialError,
> {
    match r {
        Ok(der) => Ok(der@),
        Err(e) => Err(e),
    }
}

/// Takes the certificates from the text of a PEM file, in file order.
/// Sections of other kinds are passed over. One section that cannot be read
/// fails the whole file.
pub fn load_certs(pem: &[u8]) -> (r: Result<Vec<Vec<u8>>, TlsMaterialError>)
    ensures
        certificates_view(r) == certificates(pem@),
{
    match collect_sections(read_certificates(pem)) {
        Some(found) => Ok(found),
        None => Err(TlsMaterialError::InvalidCert),
    }
}

/// Picks the private key from what was read of a key file: the first
/// section, if every section was read and there is one.
pub fn first_key(items: Vec<Option<Vec<u8>>>) -> (r: Result<Vec<u8>, TlsMaterialError>)
    ensures
        key_view(r) == (if !all_read(item_views(items@)) {
            Err(TlsMaterialError::InvalidKey)
        } else if items.len() == 0 {
            Err(TlsMaterialError::NoPrivateKey)
        } else {
            Ok(item_views(items@)[0]->0)
        }),
{
    let ghost views = item_views(items@);
    match collect_sections(items) {
        None => Err(TlsMaterialError::InvalidKey),
        Some(found) => {
            let mut found = found;
            assert(byte_strings(found@).len() == sections(views).len());
            if found.len() == 0 {
                Err(TlsMaterialError::NoPrivateKey)
            } else {
                assert(byte_strings(found@)[0] == sections(views)[0]);
                Ok(found.swap_remove(0))
            }
        },
    }
}

/// Takes the private key from the text of a PEM file: the first PKCS#8
/// section. One section that cannot be read fails the whole file.
pub fn load_private_key(pem: &[u8]) -> (r: Result<Vec<u8>, TlsMaterialError>)
    ensures
        key_view(r) == private_key(pem@),
{
    first_key(read_pkcs8_keys(pem))
}

} // verus!
