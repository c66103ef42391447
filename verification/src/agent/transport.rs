//! The configuration of the control-plane connection.

use crate::text;
use vstd::prelude::*;

verus! {

/// Where the control plane is, and the TLS material to reach it with.
#[derive(Debug, Clone)]
pub struct TransportConfig {
    /// URL of the control plane.
    pub control_plane_url: String,
    /// Certificate of the agent, as PEM.
    pub client_cert_path: Option<String>,
    /// Private key of the agent, as PEM.
    pub client_key_path: Option<String>,
    /// Certificates that vouch for the control plane, as PEM.
    pub server_ca_path: Option<String>,
}

impl Default for TransportConfig {
    fn default() -> (res: Self)
        ensures
            res.control_plane_url@.len() == 0,
            res.client_cert_path is None,
            res.client_key_path is None,
            res.server_ca_path is None,
    {
        TransportConfig {
            control_plane_url: String::new(),
            client_cert_path: None,
            client_key_path: None,
            server_ca_path: None,
        }
    }
}

/// What a control-plane URL leads to.
#[derive(Debug)]
pub enum TransportEndpoint {
    /// A WebSocket.
    WebSocket {
        /// Its URL.
        url: String,
    },
    /// A virtio-vsock stream at this address.
    Vsock(String),
}

/// The files that an outbound TLS connection needs.
#[derive(Debug)]
pub struct TlsPaths {
    /// Certificates that vouch for the control plane.
    pub server_ca: String,
    /// Certificate of the agent.
    pub client_cert: String,
    /// Private key of the agent.
    pub client_key: String,
}

/// What is wrong with a configuration.
#[derive(Debug, Clone, Copy, PartialEq, Eq, Structural)]
pub enum TransportError {
    /// The URL leads nowhere that the agent knows.
    UnknownScheme,
    /// The URL leads to something else than a WebSocket.
    NotWebSocket,
    /// The URL is not that of a secure WebSocket.
    Plaintext,
    /// There is no file with the certificates that vouch for the control plane.
    MissingServerCa,
    /// There is no file with the certificate of the agent.
    MissingClientCertificate,
    /// There is no file with the private key of the agent.
    MissingClientKey,
}

/// The message that tells an operator of `error`.
pub open spec fn error_text(error: TransportError) -> Seq<char> {
    match error {
        TransportError::UnknownScheme =>
            "control plane URL must use ws://, wss:// or vsock://"@,
        TransportError::NotWebSocket =>
            "agent-connect only supports ws:// and wss:// endpoints"@,
        TransportError::Plaintext => "outbound control plane URL must use wss://"@,
        TransportError::MissingServerCa => "missing server CA path for outbound WSS"@,
        TransportError::MissingClientCertificate =>
            "missing client certificate path for outbound WSS"@,
        TransportError::MissingClientKey => "missing client key path for outbound WSS"@,
    }
}

impl TransportError {
    /// The message that tells an operator of the error.
    pub fn message(&self) -> (res: String)
        ensures
            res@ == error_text(*self),
    {
        match self {
            TransportError::UnknownScheme =>
                "control plane URL must use ws://, wss:// or vsock://".to_owned(),
            TransportError::NotWebSocket =>
                "agent-connect only supports ws:// and wss:// endpoints".to_owned(),
            TransportError::Plaintext => "outbound control plane URL must use wss://".to_owned(),
            TransportError::MissingServerCa =>
                "missing server CA path for outbound WSS".to_owned(),
            TransportError::MissingClientCertificate =>
                "missing client certificate path for outbound WSS".to_owned(),
            TransportError::MissingClientKey =>
                "missing client key path for outbound WSS".to_owned(),
        }
    }
}

/// The URL is that of a WebSocket.
pub open spec fn is_websocket_url(url: Seq<char>) -> bool {
    "ws://"@.is_prefix_of(url) || "wss://"@.is_prefix_of(url)
}

/// The first file that an outbound TLS connection lacks, if any.
pub open spec fn missing_file(config: TransportConfig) -> Option<TransportError> {
    if config.server_ca_path is None {
        Some(TransportError::MissingServerCa)
    } else if config.client_cert_path is None {
        Some(TransportError::MissingClientCertificate)
    } else if config.client_key_path is None {
        Some(TransportError::MissingClientKey)
    } else {
        None
    }
}

/// What stands against an outbound connection to `url`, if anything.
pub open spec fn outbound_fault(config: TransportConfig, url: Seq<char>) -> Option<TransportError> {
    if !"wss://"@.is_prefix_of(url) {
        Some(TransportError::Plaintext)
    } else {
        missing_file(config)
    }
}

/// What stands against connecting with a configuration, if anything.
pub open spec fn connect_fault(config: TransportConfig) -> Option<TransportError> {
    let url = config.control_plane_url@;
    if is_websocket_url(url) {
        outbound_fault(config, url)
    } else if "vsock://"@.is_prefix_of(url) {
        Some(TransportError::NotWebSocket)
    } else {
        Some(TransportError::UnknownScheme)
    }
}

/// The outcome is what a URL leads to.
pub open spec fn is_endpoint_of(
    res: Result<TransportEndpoint, TransportError>,
    url: Seq<char>,
) -> bool {
    match res {
        Ok(TransportEndpoint::WebSocket { url: kept }) => kept@ == url && is_websocket_url(url),
        Ok(TransportEndpoint::Vsock(address)) => url == "vsock://"@ + address@,
        Err(error) => error == TransportError::UnknownScheme && !is_websocket_url(url)
            && !"vsock://"@.is_prefix_of(url),
    }
}

/// The outcome is the files that a configuration names, or the first that it lacks.
pub open spec fn are_paths_of(
    res: Result<TlsPaths, TransportError>,
    config: TransportConfig,
) -> bool {
    match res {
        Ok(paths) => config.server_ca_path == Some(paths.server_ca) && config.client_cert_path
            == Some(paths.client_cert) && config.client_key_path == Some(paths.client_key),
        Err(error) => missing_file(config) == Some(error),
    }
}

impl TransportConfig {
    /// What the control-plane URL leads to.
    pub fn endpoint(&self) -> (res: Result<TransportEndpoint, TransportError>)
        ensures
            is_endpoint_of(res, self.control_plane_url@),
    {
        let url = self.control_plane_url.as_str();
        if text::starts_with(url, "ws://") || text::starts_with(url, "wss://") {
            Ok(TransportEndpoint::WebSocket { url: url.to_owned() })
        } else if text::starts_with(url, "vsock://") {
            let address = text::after_prefix(url, "vsock://");
            assert(url@ =~= "vsock://"@ + address@);
            Ok(TransportEndpoint::Vsock(address.to_owned()))
        } else {
            Err(TransportError::UnknownScheme)
        }
    }

    /// Checks that an outbound connection to `url` is secure and that both sides can prove who
    /// they are.
    pub fn validate(&self, url: &str) -> (res: Result<(), TransportError>)
        ensures
            match res {
                Ok(_) => outbound_fault(*self, url@) is None,
                Err(error) => outbound_fault(*self, url@) == Some(error),
            },
    {
        if !text::starts_with(url, "wss://") {
            Err(TransportError::Plaintext)
        } else if self.server_ca_path.is_none() {
            Err(TransportError::MissingServerCa)
        } else if self.client_cert_path.is_none() {
            Err(TransportError::MissingClientCertificate)
        } else if self.client_key_path.is_none() {
            Err(TransportError::MissingClientKey)
        } else {
            Ok(())
        }
    }

    /// The URL to connect to.
    pub fn outbound_url(&self) -> (res: Result<String, TransportError>)
        ensures
            match res {
                Ok(url) => connect_fault(*self) is None && url@ == self.control_plane_url@,
                Err(error) => connect_fault(*self) == Some(error),
            },
    {
        match self.endpoint() {
            Ok(TransportEndpoint::WebSocket { url }) => match self.validate(url.as_str()) {
                Ok(_) => Ok(url),
                Err(error) => Err(error),
            },
            Ok(TransportEndpoint::Vsock(_)) => {
                proof {
                    lemma_schemes_differ(self.control_plane_url@);
                }
                Err(TransportError::NotWebSocket)
            },
            Err(error) => Err(error),
        }
    }

    /// The files that an outbound TLS connection needs.
    pub fn tls_paths(&self) -> (res: Result<TlsPaths, TransportError>)
        ensures
            are_paths_of(res, *self),
    {
        match &self.server_ca_path {
            Some(server_ca) => match &self.client_cert_path {
                Some(client_cert) => match &self.client_key_path {
                    Some(client_key) => Ok(
                        TlsPaths {
                            server_ca: server_ca.clone(),
                            client_cert: client_cert.clone(),
                            client_key: client_key.clone(),
                        },
                    ),
                    None => Err(TransportError::MissingClientKey),
                },
                None => Err(TransportError::MissingClientCertificate),
            },
            None => Err(TransportError::MissingServerCa),
        }
    }
}

proof fn lemma_schemes_differ(url: Seq<char>)
    requires
        "vsock://"@.is_prefix_of(url),
    ensures
        !is_websocket_url(url),
{
    reveal_strlit("vsock://");
    reveal_strlit("ws://");
    reveal_strlit("wss://");
    assert("vsock://"@[0] == url[0]);
    if "ws://"@.is_prefix_of(url) {
        assert("ws://"@[0] == url[0]);
    }
    if "wss://"@.is_prefix_of(url) {
        assert("wss://"@[0] == url[0]);
    }
}

/// A configuration connects only to a secure WebSocket, and only with all three files.
pub proof fn law_connections_are_mutually_authenticated(config: TransportConfig)
    ensures
        connect_fault(config) is None <==> {
            &&& "wss://"@.is_prefix_of(config.control_plane_url@)
            &&& config.server_ca_path is Some
            &&& config.client_cert_path is Some
            &&& config.client_key_path is Some
        },
{
}

/// A plaintext URL is turned down, whatever files there are.
pub proof fn law_plaintext_is_rejected(config: TransportConfig, url: Seq<char>)
    requires
        "ws://"@.is_prefix_of(url),
    ensures
        outbound_fault(config, url) == Some(TransportError::Plaintext),
{
    reveal_strlit("ws://");
    reveal_strlit("wss://");
    if "wss://"@.is_prefix_of(url) {
        assert("ws://"@[2] == url[2]);
        assert("wss://"@[2] == url[2]);
    }
}

/// A WebSocket URL leads to a WebSocket at exactly that URL, a vsock URL to the address after
/// its scheme, and any other nowhere.
pub proof fn law_endpoints(res: Result<TransportEndpoint, TransportError>, url: Seq<char>)
    requires
        is_endpoint_of(res, url),
    ensures
        "ws://"@.is_prefix_of(url) || "wss://"@.is_prefix_of(url) ==> (
        res matches Ok(TransportEndpoint::WebSocket { url: kept }) && kept@ == url),
        "vsock://"@.is_prefix_of(url) ==> (res matches Ok(TransportEndpoint::Vsock(address))
            && address@ == url.skip("vsock://"@.len() as int)),
        !"ws://"@.is_prefix_of(url) && !"wss://"@.is_prefix_of(url) && !"vsock://"@.is_prefix_of(
            url,
        ) ==> res == Err::<TransportEndpoint, TransportError>(TransportError::UnknownScheme),
{
    if "vsock://"@.is_prefix_of(url) {
        lemma_schemes_differ(url);
    }
    if let Ok(TransportEndpoint::Vsock(address)) = res {
        assert("vsock://"@.is_prefix_of(url));
        lemma_schemes_differ(url);
        assert(url.skip("vsock://"@.len() as int) =~= address@);
    }
}

/// Each file is taken for what it is named as, and what is missing is told: first the
/// certificates that vouch for the control plane, then the certificate of the agent, then its
/// key.
pub proof fn law_tls_paths(res: Result<TlsPaths, TransportError>, config: TransportConfig)
    requires
        are_paths_of(res, config),
    ensures
        res is Ok <==> config.server_ca_path is Some && config.client_cert_path is Some
            && config.client_key_path is Some,
        res matches Ok(paths) ==> Some(paths.server_ca) == config.server_ca_path && Some(
            paths.client_cert,
        ) == config.client_cert_path && Some(paths.client_key) == config.client_key_path,
        config.server_ca_path is None ==> res == Err::<TlsPaths, TransportError>(
            TransportError::MissingServerCa,
        ),
        config.server_ca_path is Some && config.client_cert_path is None ==> res == Err::<
            TlsPaths,
            TransportError,
        >(TransportError::MissingClientCertificate),
        config.server_ca_path is Some && config.client_cert_path is Some && config.client_key_path
            is None ==> res == Err::<TlsPaths, TransportError>(TransportError::MissingClientKey),
{
}

/// What stands against connecting is told for what it is: the scheme first, then plaintext, then
/// the first file that is missing.
pub proof fn law_connect_faults(config: TransportConfig)
    ensures
        ({
            let url = config.control_plane_url@;
            let plain = "ws://"@.is_prefix_of(url);
            let secure = "wss://"@.is_prefix_of(url);
            let fault = connect_fault(config);
            &&& fault == Some(TransportError::UnknownScheme) <==> !plain && !secure
                && !"vsock://"@.is_prefix_of(url)
            &&& fault == Some(TransportError::NotWebSocket) <==> "vsock://"@.is_prefix_of(url)
            &&& fault == Some(TransportError::Plaintext) <==> plain
            &&& fault == Some(TransportError::MissingServerCa) <==> secure
                && config.server_ca_path is None
            &&& fault == Some(TransportError::MissingClientCertificate) <==> secure
                && config.server_ca_path is Some && config.client_cert_path is None
            &&& fault == Some(TransportError::MissingClientKey) <==> secure
                && config.server_ca_path is Some && config.client_cert_path is Some
                && config.client_key_path is None
        }),
{
    let url = config.control_plane_url@;
    if "ws://"@.is_prefix_of(url) {
        law_plaintext_is_rejected(config, url);
    }
    if "vsock://"@.is_prefix_of(url) {
        lemma_schemes_differ(url);
    }
}

/// What stands against an outbound connection is told for what it is: first that the URL is not
/// that of a secure WebSocket, then the first file that is missing.
pub proof fn law_outbound_faults(config: TransportConfig, url: Seq<char>)
    ensures
        ({
            let secure = "wss://"@.is_prefix_of(url);
            let fault = outbound_fault(config, url);
            &&& fault == Some(TransportError::Plaintext) <==> !secure
            &&& fault == Some(TransportError::MissingServerCa) <==> secure
                && config.server_ca_path is None
            &&& fault == Some(TransportError::MissingClientCertificate) <==> secure
                && config.server_ca_path is Some && config.client_cert_path is None
            &&& fault == Some(TransportError::MissingClientKey) <==> secure
                && config.server_ca_path is Some && config.client_cert_path is Some
                && config.client_key_path is None
            &&& fault is None <==> secure && config.server_ca_path is Some
                && config.client_cert_path is Some && config.client_key_path is Some
        }),
{
}

} // verus!
