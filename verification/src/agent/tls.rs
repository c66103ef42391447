//! The TLS material of the control-plane connection.

use rustls::pki_types::{CertificateDer, PrivateKeyDer};
use vstd::prelude::*;

verus! {

/// Why input could not be read.
#[verifier::external_type_specification]
#[verifier::external_body]
pub struct ExIoError(std::io::Error);

/// Why TLS material was turned down.
#[verifier::external_type_specification]
#[verifier::external_body]
pub struct ExRustlsError(rustls::Error);

/// The certificates that are trusted.
#[verifier::external_type_specification]
#[verifier::external_body]
pub struct ExRootCertStore(rustls::RootCertStore);

/// A private key, carried through without being looked into.
#[verifier::external_type_specification]
#[verifier::external_body]
pub struct ExPrivateKeyDer<'a>(rustls::pki_types::PrivateKeyDer<'a>);

/// The configuration of a TLS client.
#[verifier::external_type_specification]
#[verifier::external_body]
pub struct ExClientConfig(rustls::ClientConfig);

/// What is kept of a certificate that is trusted.
pub struct Anchor {
    /// The subject.
    pub subject: Seq<u8>,
    /// The public key.
    pub public_key: Seq<u8>,
    /// The constraints on the names that it vouches for, if there are any.
    pub name_constraints: Option<Seq<u8>>,
}

/// What a client configuration is made with.
pub struct ClientSetup {
    /// The certificates that vouch for the server.
    pub anchors: Seq<Anchor>,
    /// The certificates of the client.
    pub chain: Seq<Seq<u8>>,
    /// The private key of the client.
    pub key: PrivateKeyDer<'static>,
}

/// Why TLS material cannot be used.
#[derive(Debug)]
pub enum TlsError {
    /// A certificate that vouches for the server cannot be read.
    ServerCaSyntax(std::io::Error),
    /// A certificate that vouches for the server cannot be trusted.
    ServerCaRejected(rustls::Error),
    /// A certificate of the client cannot be read.
    ClientCertificateSyntax(std::io::Error),
    /// The private key of the client cannot be read.
    ClientKeySyntax(std::io::Error),
    /// There is no private key of the client.
    NoClientKey,
    /// The certificate and the private key of the client do not make a pair.
    KeyPair(rustls::Error),
}

/// The certificates of a PEM text, in order, as DER; an error in place of one that cannot be
/// read.
pub uninterp spec fn pem_certificates(pem: Seq<u8>) -> Seq<Result<Seq<u8>, std::io::Error>>;

/// The first private key of a PEM text, if there is one; an error if the text cannot be read.
pub uninterp spec fn pem_private_key(pem: Seq<u8>) -> Result<
    Option<PrivateKeyDer<'static>>,
    std::io::Error,
>;

/// What is kept of a certificate when it is trusted, or why it cannot be.
pub uninterp spec fn trust_anchor(der: Seq<u8>) -> Result<Anchor, rustls::Error>;

/// What a root store keeps of the certificates that were added to it, in order.
pub uninterp spec fn anchors(store: rustls::RootCertStore) -> Seq<Anchor>;

/// What a client configuration was made with.
pub uninterp spec fn client_setup(config: rustls::ClientConfig) -> ClientSetup;

/// The certificates that `items` holds, as DER.
pub open spec fn certificate_items(items: Seq<Result<Vec<u8>, std::io::Error>>) -> Seq<
    Result<Seq<u8>, std::io::Error>,
> {
    items.map_values(
        |item: Result<Vec<u8>, std::io::Error>|
            match item {
                Ok(der) => Ok(der@),
                Err(error) => Err(error),
            },
    )
}

/// The bytes of each of some certificates.
pub open spec fn der_bytes(chain: Seq<Vec<u8>>) -> Seq<Seq<u8>> {
    chain.map_values(|der: Vec<u8>| der@)
}

/// `rustls_pemfile::certs`: the certificates of a PEM text, with an error in place of each that
/// cannot be read. The text determines both, since nothing else is read.
#[verifier::external_body]
fn read_certificates(pem: &[u8]) -> (res: Vec<Result<Vec<u8>, std::io::Error>>)
    ensures
        certificate_items(res@) == pem_certificates(pem@),
{
    let mut reader = pem;
    rustls_pemfile::certs(&mut reader).map(|item| item.map(|der| der.to_vec())).collect()
}

/// `rustls_pemfile::private_key`: the first private key of a PEM text, or an error if the text
/// cannot be read. The text determines both, since nothing else is read.
#[verifier::external_body]
fn read_private_key(pem: &[u8]) -> (res: Result<Option<PrivateKeyDer<'static>>, std::io::Error>)
    ensures
        res == pem_private_key(pem@),
{
    let mut reader = pem;
    rustls_pemfile::private_key(&mut reader)
}

/// `rustls::RootCertStore::empty`: the store that trusts nothing.
#[verifier::external_body]
fn empty_store() -> (res: rustls::RootCertStore)
    ensures
        anchors(res) =~= Seq::empty(),
{
    rustls::RootCertStore::empty()
}

/// `rustls::RootCertStore::add`: adds what is kept of a certificate at the end, or leaves the
/// store as it is if the certificate cannot be trusted. The certificate alone determines which,
/// and the error.
#[verifier::external_body]
fn add_certificate(store: &mut rustls::RootCertStore, der: Vec<u8>) -> (res: Result<
    (),
    rustls::Error,
>)
    ensures
        match res {
            Ok(_) => trust_anchor(der@) is Ok && anchors(*final(store)) == anchors(
                *old(store),
            ).push(trust_anchor(der@)->Ok_0),
            Err(error) => trust_anchor(der@) == Err::<Anchor, rustls::Error>(error) && anchors(
                *final(store),
            ) == anchors(*old(store)),
        },
{
    store.add(CertificateDer::from(der))
}

/// `rustls::ClientConfig::builder`, completed by `with_root_certificates` and
/// `with_client_auth_cert`: a configuration made with these certificates and this key. Whether
/// they make a pair is for the cryptography provider of the process to say, so nothing is
/// claimed of when this fails. The `ring` feature supplies that provider where the process has
/// not chosen another.
#[verifier::external_body]
fn build_client_config(
    store: rustls::RootCertStore,
    chain: Vec<Vec<u8>>,
    key: PrivateKeyDer<'static>,
) -> (res: Result<rustls::ClientConfig, rustls::Error>)
    ensures
        res matches Ok(config) ==> client_setup(config) == (ClientSetup {
            anchors: anchors(store),
            chain: der_bytes(chain@),
            key,
        }),
{
    rustls::ClientConfig::builder()
        .with_root_certificates(store)
        .with_client_auth_cert(chain.into_iter().map(CertificateDer::from).collect(), key)
}

/// The item is a certificate that can be trusted.
pub open spec fn is_trustworthy(item: Result<Seq<u8>, std::io::Error>) -> bool {
    item matches Ok(der) && trust_anchor(der) is Ok
}

/// What is kept of an item that can be trusted.
pub open spec fn anchor_of(item: Result<Seq<u8>, std::io::Error>) -> Anchor {
    trust_anchor(item->Ok_0)->Ok_0
}

/// Why an item cannot be trusted.
pub open spec fn trust_fault(item: Result<Seq<u8>, std::io::Error>) -> TlsError {
    match item {
        Ok(der) => TlsError::ServerCaRejected(trust_anchor(der)->Err_0),
        Err(error) => TlsError::ServerCaSyntax(error),
    }
}

/// All items are certificates that can be trusted.
pub open spec fn are_trustworthy(items: Seq<Result<Seq<u8>, std::io::Error>>) -> bool {
    forall|i: int| 0 <= i < items.len() ==> is_trustworthy(#[trigger] items[i])
}

/// What is kept of items that can be trusted.
pub open spec fn anchors_of(items: Seq<Result<Seq<u8>, std::io::Error>>) -> Seq<Anchor> {
    items.map_values(|item: Result<Seq<u8>, std::io::Error>| anchor_of(item))
}

/// The outcome of trusting `items`: a store with all of them, or the fault of the first that
/// cannot be trusted.
pub open spec fn is_trust_in(
    res: Result<rustls::RootCertStore, TlsError>,
    items: Seq<Result<Seq<u8>, std::io::Error>>,
) -> bool {
    match res {
        Ok(store) => are_trustworthy(items) && anchors(store) == anchors_of(items),
        Err(error) => exists|i: int|
            {
                &&& 0 <= i < items.len()
                &&& !is_trustworthy(#[trigger] items[i])
                &&& are_trustworthy(items.take(i))
                &&& error == trust_fault(items[i])
            },
    }
}

/// Trusts the certificates of `items`.
pub fn trust_certificates(items: Vec<Result<Vec<u8>, std::io::Error>>) -> (res: Result<
    rustls::RootCertStore,
    TlsError,
>)
    ensures
        is_trust_in(res, certificate_items(items@)),
{
    let ghost all = certificate_items(items@);
    let mut store = empty_store();
    for item in it: items
        invariant
            it.seq() == items@,
            all == certificate_items(items@),
            are_trustworthy(all.take(it.index() as int)),
            anchors(store) == anchors_of(all.take(it.index() as int)),
    {
        let ghost i = it.index() as int;
        assert(item == items@[i]);
        assert(all.take(i + 1) =~= all.take(i).push(all[i]));
        match item {
            Ok(der) => {
                assert(all[i] == Ok::<Seq<u8>, std::io::Error>(der@));
                match add_certificate(&mut store, der) {
                    Ok(_) => {
                        assert(anchors(store) =~= anchors_of(all.take(i + 1)));
                    },
                    Err(error) => {
                        assert(!is_trustworthy(all[i]));
                        return Err(TlsError::ServerCaRejected(error));
                    },
                }
            },
            Err(error) => {
                assert(!is_trustworthy(all[i]));
                return Err(TlsError::ServerCaSyntax(error));
            },
        }
    }
    assert(all.take(all.len() as int) =~= all);
    Ok(store)
}

/// Trusts the certificates of a PEM text.
pub fn server_roots(pem: &[u8]) -> (res: Result<rustls::RootCertStore, TlsError>)
    ensures
        is_trust_in(res, pem_certificates(pem@)),
{
    trust_certificates(read_certificates(pem))
}

/// All items are certificates that could be read.
pub open spec fn are_read(items: Seq<Result<Seq<u8>, std::io::Error>>) -> bool {
    forall|i: int| 0 <= i < items.len() ==> (#[trigger] items[i]) is Ok
}

/// The certificates of items that could be read.
pub open spec fn ders_of(items: Seq<Result<Seq<u8>, std::io::Error>>) -> Seq<Seq<u8>> {
    items.map_values(|item: Result<Seq<u8>, std::io::Error>| item->Ok_0)
}

/// The outcome of reading `items` as the certificates of a client: all of them, or the fault of
/// the first that could not be read.
pub open spec fn is_chain_of(
    res: Result<Vec<Vec<u8>>, TlsError>,
    items: Seq<Result<Seq<u8>, std::io::Error>>,
) -> bool {
    match res {
        Ok(chain) => are_read(items) && der_bytes(chain@) == ders_of(items),
        Err(error) => exists|i: int|
            {
                &&& 0 <= i < items.len()
                &&& (#[trigger] items[i]) is Err
                &&& are_read(items.take(i))
                &&& error == TlsError::ClientCertificateSyntax(items[i]->Err_0)
            },
    }
}

/// The certificates of `items`.
pub fn certificate_chain(items: Vec<Result<Vec<u8>, std::io::Error>>) -> (res: Result<
    Vec<Vec<u8>>,
    TlsError,
>)
    ensures
        is_chain_of(res, certificate_items(items@)),
{
    let ghost all = certificate_items(items@);
    let mut chain: Vec<Vec<u8>> = Vec::new();
    for item in it: items
        invariant
            it.seq() == items@,
            all == certificate_items(items@),
            are_read(all.take(it.index() as int)),
            der_bytes(chain@) == ders_of(all.take(it.index() as int)),
    {
        let ghost i = it.index() as int;
        let ghost before = der_bytes(chain@);
        assert(item == items@[i]);
        assert(all.take(i + 1) =~= all.take(i).push(all[i]));
        match item {
            Ok(der) => {
                assert(all[i] == Ok::<Seq<u8>, std::io::Error>(der@));
                chain.push(der);
                assert(der_bytes(chain@) =~= before.push(der@));
                assert(der_bytes(chain@) =~= ders_of(all.take(i + 1)));
            },
            Err(error) => {
                assert(all[i] == Err::<Seq<u8>, std::io::Error>(error));
                return Err(TlsError::ClientCertificateSyntax(error));
            },
        }
    }
    assert(all.take(all.len() as int) =~= all);
    Ok(chain)
}

/// The certificates of a PEM text.
pub fn client_certificates(pem: &[u8]) -> (res: Result<Vec<Vec<u8>>, TlsError>)
    ensures
        is_chain_of(res, pem_certificates(pem@)),
{
    certificate_chain(read_certificates(pem))
}

/// What follows on a private key that was looked for.
pub open spec fn key_outcome(
    found: Result<Option<PrivateKeyDer<'static>>, std::io::Error>,
) -> Result<PrivateKeyDer<'static>, TlsError> {
    match found {
        Ok(Some(key)) => Ok(key),
        Ok(None) => Err(TlsError::NoClientKey),
        Err(error) => Err(TlsError::ClientKeySyntax(error)),
    }
}

/// The private key that was found.
pub fn required_key(found: Result<Option<PrivateKeyDer<'static>>, std::io::Error>) -> (res: Result<
    PrivateKeyDer<'static>,
    TlsError,
>)
    ensures
        res == key_outcome(found),
{
    match found {
        Ok(Some(key)) => Ok(key),
        Ok(None) => Err(TlsError::NoClientKey),
        Err(error) => Err(TlsError::ClientKeySyntax(error)),
    }
}

/// The first private key of a PEM text.
pub fn client_key(pem: &[u8]) -> (res: Result<PrivateKeyDer<'static>, TlsError>)
    ensures
        res == key_outcome(pem_private_key(pem@)),
{
    required_key(read_private_key(pem))
}

/// The configuration that was built.
pub fn required_pair(built: Result<rustls::ClientConfig, rustls::Error>) -> (res: Result<
    rustls::ClientConfig,
    TlsError,
>)
    ensures
        res == match built {
            Ok(config) => Ok::<rustls::ClientConfig, TlsError>(config),
            Err(error) => Err(TlsError::KeyPair(error)),
        },
{
    match built {
        Ok(config) => Ok(config),
        Err(error) => Err(TlsError::KeyPair(error)),
    }
}

/// The configuration of a client that trusts `store` and shows `chain`, with `key` as its
/// private key. Whether the two make a pair is decided outside.
pub fn client_config(
    store: rustls::RootCertStore,
    chain: Vec<Vec<u8>>,
    key: PrivateKeyDer<'static>,
) -> (res: Result<rustls::ClientConfig, TlsError>)
    ensures
        match res {
            Ok(config) => client_setup(config) == (ClientSetup {
                anchors: anchors(store),
                chain: der_bytes(chain@),
                key,
            }),
            Err(error) => error is KeyPair,
        },
{
    required_pair(build_client_config(store, chain, key))
}

/// Why a client cannot be configured from three files.
#[derive(Debug)]
pub enum MaterialError<E> {
    /// A file could not be had.
    Unreadable(E),
    /// What a file holds cannot be used.
    Unusable(TlsError),
}

/// The outcome of configuring a client from three PEM texts, each of which may not have been
/// had: a client that trusts exactly the certificates of the first, shows those of the second
/// and holds the key of the third, or the first fault in that order. Whether the certificates
/// and the key make a pair is decided outside.
pub open spec fn is_client_of<E>(
    res: Result<rustls::ClientConfig, MaterialError<E>>,
    server_ca: Result<Vec<u8>, E>,
    client_cert: Result<Vec<u8>, E>,
    client_key: Result<Vec<u8>, E>,
) -> bool {
    match server_ca {
        Err(error) => res == Err::<rustls::ClientConfig, MaterialError<E>>(
            MaterialError::Unreadable(error),
        ),
        Ok(ca) => {
            let trusted = pem_certificates(ca@);
            if !are_trustworthy(trusted) {
                res matches Err(MaterialError::Unusable(error)) && is_trust_in(
                    Err(error),
                    trusted,
                )
            } else {
                is_client_trusting(res, anchors_of(trusted), client_cert, client_key)
            }
        },
    }
}

/// The outcome of configuring a client that trusts `anchors` from two PEM texts.
pub open spec fn is_client_trusting<E>(
    res: Result<rustls::ClientConfig, MaterialError<E>>,
    anchors: Seq<Anchor>,
    client_cert: Result<Vec<u8>, E>,
    client_key: Result<Vec<u8>, E>,
) -> bool {
    match client_cert {
        Err(error) => res == Err::<rustls::ClientConfig, MaterialError<E>>(
            MaterialError::Unreadable(error),
        ),
        Ok(cert) => {
            let shown = pem_certificates(cert@);
            if !are_read(shown) {
                res matches Err(MaterialError::Unusable(error)) && is_chain_of(Err(error), shown)
            } else {
                is_client_showing(res, anchors, ders_of(shown), client_key)
            }
        },
    }
}

/// The outcome of configuring a client that trusts `anchors` and shows `chain` from a PEM text.
pub open spec fn is_client_showing<E>(
    res: Result<rustls::ClientConfig, MaterialError<E>>,
    anchors: Seq<Anchor>,
    chain: Seq<Seq<u8>>,
    client_key: Result<Vec<u8>, E>,
) -> bool {
    match client_key {
        Err(error) => res == Err::<rustls::ClientConfig, MaterialError<E>>(
            MaterialError::Unreadable(error),
        ),
        Ok(pem) => match key_outcome(pem_private_key(pem@)) {
            Err(error) => res == Err::<rustls::ClientConfig, MaterialError<E>>(
                MaterialError::Unusable(error),
            ),
            Ok(key) => match res {
                Ok(config) => client_setup(config) == (ClientSetup { anchors, chain, key }),
                Err(MaterialError::Unusable(error)) => error is KeyPair,
                Err(MaterialError::Unreadable(_)) => false,
            },
        },
    }
}

/// The configuration of a client that trusts the certificates of `server_ca` and shows those of
/// `client_cert`, with the key of `client_key`: three PEM texts, or why they could not be had.
pub fn client_of_files<E>(
    server_ca: Result<Vec<u8>, E>,
    client_cert: Result<Vec<u8>, E>,
    client_key: Result<Vec<u8>, E>,
) -> (res: Result<rustls::ClientConfig, MaterialError<E>>)
    ensures
        is_client_of(res, server_ca, client_cert, client_key),
{
    let store = match server_ca {
        Ok(pem) => match server_roots(pem.as_slice()) {
            Ok(store) => store,
            Err(error) => {
                return Err(MaterialError::Unusable(error));
            },
        },
        Err(error) => {
            return Err(MaterialError::Unreadable(error));
        },
    };
    let chain = match client_cert {
        Ok(pem) => match client_certificates(pem.as_slice()) {
            Ok(chain) => chain,
            Err(error) => {
                return Err(MaterialError::Unusable(error));
            },
        },
        Err(error) => {
            return Err(MaterialError::Unreadable(error));
        },
    };
    let key = match client_key {
        Ok(pem) => match self::client_key(pem.as_slice()) {
            Ok(key) => key,
            Err(error) => {
                return Err(MaterialError::Unusable(error));
            },
        },
        Err(error) => {
            return Err(MaterialError::Unreadable(error));
        },
    };
    match client_config(store, chain, key) {
        Ok(config) => Ok(config),
        Err(error) => Err(MaterialError::Unusable(error)),
    }
}

/// The message that tells an operator of `error`.
pub open spec fn tls_error_text(error: TlsError) -> Seq<char> {
    match error {
        TlsError::ServerCaSyntax(_) => "failed to parse server CA certificate"@,
        TlsError::ServerCaRejected(_) => "failed to add server CA certificate"@,
        TlsError::ClientCertificateSyntax(_) => "failed to parse client certificate"@,
        TlsError::ClientKeySyntax(_) => "failed to parse client key"@,
        TlsError::NoClientKey => "client key PEM contains no private key"@,
        TlsError::KeyPair(_) => "invalid client certificate/private-key pair"@,
    }
}

impl TlsError {
    /// The message that tells an operator of the error.
    pub fn message(&self) -> (res: String)
        ensures
            res@ == tls_error_text(*self),
    {
        match self {
            TlsError::ServerCaSyntax(_) => "failed to parse server CA certificate".to_owned(),
            TlsError::ServerCaRejected(_) => "failed to add server CA certificate".to_owned(),
            TlsError::ClientCertificateSyntax(_) => "failed to parse client certificate".to_owned(),
            TlsError::ClientKeySyntax(_) => "failed to parse client key".to_owned(),
            TlsError::NoClientKey => "client key PEM contains no private key".to_owned(),
            TlsError::KeyPair(_) => "invalid client certificate/private-key pair".to_owned(),
        }
    }
}

/// A client that is configured from three PEM texts trusts, in order, each certificate of the
/// first and no other, shows those of the second and no other, and holds the key of the third.
pub proof fn law_client_setup<E>(
    config: rustls::ClientConfig,
    server_ca: Vec<u8>,
    client_cert: Vec<u8>,
    client_key: Vec<u8>,
)
    requires
        is_client_of::<E>(Ok(config), Ok(server_ca), Ok(client_cert), Ok(client_key)),
    ensures
        ({
            let setup = client_setup(config);
            let trusted = pem_certificates(server_ca@);
            let shown = pem_certificates(client_cert@);
            &&& setup.anchors.len() == trusted.len()
            &&& forall|i: int|
                0 <= i < trusted.len() ==> ((#[trigger] trusted[i]) matches Ok(der) && trust_anchor(
                    der,
                ) == Ok::<Anchor, rustls::Error>(setup.anchors[i]))
            &&& setup.chain.len() == shown.len()
            &&& forall|i: int|
                0 <= i < shown.len() ==> (#[trigger] shown[i]) == Ok::<Seq<u8>, std::io::Error>(
                    setup.chain[i],
                )
            &&& pem_private_key(client_key@) == Ok::<
                Option<PrivateKeyDer<'static>>,
                std::io::Error,
            >(Some(setup.key))
        }),
{
    let trusted = pem_certificates(server_ca@);
    let shown = pem_certificates(client_cert@);
    let setup = client_setup(config);
    assert forall|i: int| 0 <= i < trusted.len() implies ((#[trigger] trusted[i]) matches Ok(der)
        && trust_anchor(der) == Ok::<Anchor, rustls::Error>(setup.anchors[i])) by {
        assert(is_trustworthy(trusted[i]));
        assert(setup.anchors[i] == anchor_of(trusted[i]));
    }
    assert forall|i: int| 0 <= i < shown.len() implies (#[trigger] shown[i]) == Ok::<
        Seq<u8>,
        std::io::Error,
    >(setup.chain[i]) by {
        assert(shown[i] is Ok);
        assert(setup.chain[i] == shown[i]->Ok_0);
    }
}

/// Of three files the first that could not be had is what is told, unless one before it cannot
/// be used; a client is turned down for anything else than its key pair only if a file could not
/// be had or used.
pub proof fn law_file_faults<E>(
    res: Result<rustls::ClientConfig, MaterialError<E>>,
    server_ca: Result<Vec<u8>, E>,
    client_cert: Result<Vec<u8>, E>,
    client_key: Result<Vec<u8>, E>,
)
    requires
        is_client_of(res, server_ca, client_cert, client_key),
    ensures
        server_ca matches Err(error) ==> res == Err::<rustls::ClientConfig, MaterialError<E>>(
            MaterialError::Unreadable(error),
        ),
        res is Ok ==> server_ca is Ok && client_cert is Ok && client_key is Ok,
        res matches Err(MaterialError::Unreadable(error)) ==> {
            ||| server_ca == Err::<Vec<u8>, E>(error)
            ||| client_cert == Err::<Vec<u8>, E>(error)
            ||| client_key == Err::<Vec<u8>, E>(error)
        },
        res matches Err(MaterialError::Unusable(TlsError::KeyPair(_))) ==> server_ca is Ok
            && client_cert is Ok && client_key is Ok,
        server_ca matches Ok(ca) && client_cert matches Err(error) && are_trustworthy(
            pem_certificates(ca@),
        ) ==> res == Err::<rustls::ClientConfig, MaterialError<E>>(
            MaterialError::Unreadable(client_cert->Err_0),
        ),
        server_ca matches Ok(ca) && client_cert matches Ok(cert) && client_key matches Ok(key)
            && are_trustworthy(pem_certificates(ca@)) && are_read(pem_certificates(cert@)) && (
        pem_private_key(key@) matches Ok(found) && found is Some) ==> res is Ok || (
        res matches Err(MaterialError::Unusable(error)) && error is KeyPair),
        res matches Err(MaterialError::Unusable(TlsError::NoClientKey)) ==> (
        client_key matches Ok(pem) && pem_private_key(pem@) == Ok::<
            Option<PrivateKeyDer<'static>>,
            std::io::Error,
        >(None)),
        res matches Err(MaterialError::Unusable(TlsError::ClientKeySyntax(error))) ==> (
        client_key matches Ok(pem) && pem_private_key(pem@) == Err::<
            Option<PrivateKeyDer<'static>>,
            std::io::Error,
        >(error)),
        res matches Err(MaterialError::Unusable(TlsError::ClientCertificateSyntax(error))) ==> (
        client_cert matches Ok(pem) && pem_certificates(pem@).contains(Err(error))),
        res matches Err(MaterialError::Unusable(TlsError::ServerCaSyntax(error))) ==> (
        server_ca matches Ok(pem) && pem_certificates(pem@).contains(Err(error))),
{
}

/// Certificates that can all be trusted are trusted; of others, the first that cannot be is told,
/// with what stands against it.
pub proof fn law_trust(
    res: Result<rustls::RootCertStore, TlsError>,
    items: Seq<Result<Seq<u8>, std::io::Error>>,
)
    requires
        is_trust_in(res, items),
    ensures
        res is Ok <==> forall|i: int|
            0 <= i < items.len() ==> ((#[trigger] items[i]) matches Ok(der) && trust_anchor(
                der,
            ) is Ok),
        res matches Ok(store) ==> anchors(store).len() == items.len() && forall|i: int|
            0 <= i < items.len() ==> trust_anchor((#[trigger] items[i])->Ok_0) == Ok::<
                Anchor,
                rustls::Error,
            >(anchors(store)[i]),
        res matches Err(error) ==> exists|i: int|
            {
                &&& 0 <= i < items.len()
                &&& match #[trigger] items[i] {
                    Ok(der) => error is ServerCaRejected && trust_anchor(der) == Err::<
                        Anchor,
                        rustls::Error,
                    >(error->ServerCaRejected_0),
                    Err(unread) => error == TlsError::ServerCaSyntax(unread),
                }
                &&& forall|j: int|
                    0 <= j < i ==> ((#[trigger] items[j]) matches Ok(der) && trust_anchor(
                        der,
                    ) is Ok)
            },
{
    if let Err(error) = res {
        let i = choose|i: int|
            {
                &&& 0 <= i < items.len()
                &&& !is_trustworthy(#[trigger] items[i])
                &&& are_trustworthy(items.take(i))
                &&& error == trust_fault(items[i])
            };
        assert forall|j: int| 0 <= j < i implies ((#[trigger] items[j]) matches Ok(der)
            && trust_anchor(der) is Ok) by {
            assert(is_trustworthy(items.take(i)[j]));
        }
        assert(items[i] is Ok ==> trust_anchor(items[i]->Ok_0) is Err);
    }
    if let Ok(store) = res {
        assert forall|i: int| 0 <= i < items.len() implies trust_anchor((#[trigger] items[i])->Ok_0)
            == Ok::<Anchor, rustls::Error>(anchors(store)[i]) by {
            assert(is_trustworthy(items[i]));
            assert(anchors(store)[i] == anchor_of(items[i]));
        }
        assert forall|i: int| 0 <= i < items.len() implies ((#[trigger] items[i]) matches Ok(der)
            && trust_anchor(der) is Ok) by {
            assert(is_trustworthy(items[i]));
        }
    }
}

/// A key that was found is the key; where none was, or none could be read, that is told.
pub proof fn law_key(found: Result<Option<PrivateKeyDer<'static>>, std::io::Error>)
    ensures
        key_outcome(found) is Ok <==> (found matches Ok(key) && key is Some),
        key_outcome(found) matches Ok(key) ==> found == Ok::<
            Option<PrivateKeyDer<'static>>,
            std::io::Error,
        >(Some(key)),
        found matches Err(error) ==> key_outcome(found) == Err::<
            PrivateKeyDer<'static>,
            TlsError,
        >(TlsError::ClientKeySyntax(error)),
        found == Ok::<Option<PrivateKeyDer<'static>>, std::io::Error>(None) ==> key_outcome(found)
            == Err::<PrivateKeyDer<'static>, TlsError>(TlsError::NoClientKey),
{
}

/// Certificates that could all be read are the chain, in order; of others, the first that could
/// not be read is told.
pub proof fn law_chain(
    res: Result<Vec<Vec<u8>>, TlsError>,
    items: Seq<Result<Seq<u8>, std::io::Error>>,
)
    requires
        is_chain_of(res, items),
    ensures
        res is Ok <==> forall|i: int| 0 <= i < items.len() ==> (#[trigger] items[i]) is Ok,
        res matches Ok(chain) ==> chain@.len() == items.len() && forall|i: int|
            0 <= i < items.len() ==> (#[trigger] items[i]) == Ok::<Seq<u8>, std::io::Error>(
                chain@[i]@,
            ),
        res matches Err(error) ==> exists|i: int|
            {
                &&& 0 <= i < items.len()
                &&& #[trigger] items[i] == Err::<Seq<u8>, std::io::Error>(
                    error->ClientCertificateSyntax_0,
                )
                &&& error is ClientCertificateSyntax
                &&& forall|j: int| 0 <= j < i ==> (#[trigger] items[j]) is Ok
            },
{
    if let Ok(chain) = res {
        assert(der_bytes(chain@).len() == ders_of(items).len());
        assert forall|i: int| 0 <= i < items.len() implies (#[trigger] items[i]) == Ok::<
            Seq<u8>,
            std::io::Error,
        >(chain@[i]@) by {
            assert(der_bytes(chain@)[i] == ders_of(items)[i]);
        }
    }
    if let Err(error) = res {
        let i = choose|i: int|
            {
                &&& 0 <= i < items.len()
                &&& (#[trigger] items[i]) is Err
                &&& are_read(items.take(i))
                &&& error == TlsError::ClientCertificateSyntax(items[i]->Err_0)
            };
        assert forall|j: int| 0 <= j < i implies (#[trigger] items[j]) is Ok by {
            assert(items.take(i)[j] is Ok);
        }
        assert(items[i] == Err::<Seq<u8>, std::io::Error>(error->ClientCertificateSyntax_0));
    }
}

} // verus!
