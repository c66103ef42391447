//! Host-initiated, device-code enrollment with an Ultramarine Dashboard.

use crate::text;
use vstd::prelude::*;
use vstd::string::StringExecFns;

pub mod account;
pub mod dashboard;
pub mod flow;
pub mod host;
pub mod laws;
pub mod machine;
pub mod settings;

verus! {

/// A file system path, carried through without being looked into.
#[verifier::external_type_specification]
#[verifier::external_body]
pub struct ExPathBuf(std::path::PathBuf);

/// What the operator chose before enrollment starts; whatever is absent is asked for or taken
/// from the host.
#[derive(Debug, Clone)]
pub struct Options {
    /// Dashboard base URL.
    pub dashboard_url: Option<String>,
    /// WebSocket URL where the Dashboard can reach this host.
    pub agent_url: Option<String>,
    /// Local address and port of the WebSocket listener.
    pub listen: Option<String>,
    /// Name that the Dashboard shows for this host.
    pub display_name: Option<String>,
    /// File that receives the device authorization details.
    pub approval_file: Option<std::path::PathBuf>,
    /// Base URL of the approval page, where it is not the Dashboard base URL.
    pub verification_url: Option<String>,
    /// Directory of the host identity.
    pub identity_dir: String,
    /// Directory of the TLS material and the enrollment files.
    pub config_dir: String,
    /// Name of this host.
    pub hostname: Option<String>,
    /// Permits plaintext endpoints and invalid Dashboard certificates.
    pub insecure: bool,
    /// Leaves the system service alone after approval.
    pub skip_service: bool,
}

/// Why enrollment ended without success.
#[derive(Debug)]
pub enum EnrollError {
    /// Nothing is left of the Dashboard URL once it is cleaned up.
    EmptyDashboardUrl,
    /// The listener address is not a socket address.
    ListenFormat,
    /// The agent URL has another scheme than WebSocket.
    AgentUrlScheme,
    /// The agent URL is plaintext and that was not permitted.
    PlaintextAgentUrl,
    /// `openssl` reported a failure.
    OpensslFailed,
    /// The Dashboard answered with a status that is not a success.
    Refused {
        /// The status, as text.
        status: String,
        /// The body of the answer.
        body: String,
    },
    /// The expiry does not fit into the clock.
    ExpiryOutOfRange,
    /// Approval did not come in time.
    Expired,
    /// The Dashboard user turned the request down.
    Denied,
    /// The approval came without a controller key.
    MissingControllerKey,
    /// The Dashboard answered with a status word that enrollment does not know.
    UnknownStatus(String),
    /// `systemctl` reported a failure.
    ServiceFailed,
}

/// The message that tells an operator of `error`.
pub open spec fn error_text(error: EnrollError) -> Seq<char> {
    match error {
        EnrollError::EmptyDashboardUrl => "Dashboard URL cannot be empty"@,
        EnrollError::ListenFormat => "listener address must be in HOST:PORT format"@,
        EnrollError::AgentUrlScheme => "agent URL must use ws:// or wss://"@,
        EnrollError::PlaintextAgentUrl =>
            "agent URL uses plaintext ws://; pass --insecure only for local development"@,
        EnrollError::OpensslFailed => "openssl failed to generate TLS material"@,
        EnrollError::Refused { status, body } => "Dashboard request failed with HTTP "@ + status@
            + ": "@ + body@,
        EnrollError::ExpiryOutOfRange =>
            "enrollment expiry is outside the supported time range"@,
        EnrollError::Expired => "Dashboard enrollment expired"@,
        EnrollError::Denied => "Dashboard denied the enrollment request"@,
        EnrollError::MissingControllerKey =>
            "Dashboard approval did not include a controller public key"@,
        EnrollError::UnknownStatus(status) =>
            "Dashboard returned unknown enrollment status `"@ + status@ + "`"@,
        EnrollError::ServiceFailed => "systemctl failed to enable and start tetra.service"@,
    }
}

impl EnrollError {
    /// The message that tells an operator of the error.
    pub fn message(&self) -> (res: String)
        ensures
            res@ == error_text(*self),
    {
        match self {
            EnrollError::EmptyDashboardUrl => "Dashboard URL cannot be empty".to_owned(),
            EnrollError::ListenFormat => "listener address must be in HOST:PORT format".to_owned(),
            EnrollError::AgentUrlScheme => "agent URL must use ws:// or wss://".to_owned(),
            EnrollError::PlaintextAgentUrl =>
                "agent URL uses plaintext ws://; pass --insecure only for local development".to_owned(),
            EnrollError::OpensslFailed => "openssl failed to generate TLS material".to_owned(),
            EnrollError::Refused { status, body } => {
                let mut text = "Dashboard request failed with HTTP ".to_owned();
                text.append(status.as_str());
                text.append(": ");
                text.append(body.as_str());
                text
            },
            EnrollError::ExpiryOutOfRange =>
                "enrollment expiry is outside the supported time range".to_owned(),
            EnrollError::Expired => "Dashboard enrollment expired".to_owned(),
            EnrollError::Denied => "Dashboard denied the enrollment request".to_owned(),
            EnrollError::MissingControllerKey =>
                "Dashboard approval did not include a controller public key".to_owned(),
            EnrollError::UnknownStatus(status) => {
                let mut text = "Dashboard returned unknown enrollment status `".to_owned();
                text.append(status.as_str());
                text.append("`");
                text
            },
            EnrollError::ServiceFailed =>
                "systemctl failed to enable and start tetra.service".to_owned(),
        }
    }
}

impl Clone for EnrollError {
    fn clone(&self) -> (res: Self)
        ensures
            res == *self,
    {
        match self {
            EnrollError::EmptyDashboardUrl => EnrollError::EmptyDashboardUrl,
            EnrollError::ListenFormat => EnrollError::ListenFormat,
            EnrollError::AgentUrlScheme => EnrollError::AgentUrlScheme,
            EnrollError::PlaintextAgentUrl => EnrollError::PlaintextAgentUrl,
            EnrollError::OpensslFailed => EnrollError::OpensslFailed,
            EnrollError::Refused { status, body } => EnrollError::Refused {
                status: status.clone(),
                body: body.clone(),
            },
            EnrollError::ExpiryOutOfRange => EnrollError::ExpiryOutOfRange,
            EnrollError::Expired => EnrollError::Expired,
            EnrollError::Denied => EnrollError::Denied,
            EnrollError::MissingControllerKey => EnrollError::MissingControllerKey,
            EnrollError::UnknownStatus(status) => EnrollError::UnknownStatus(status.clone()),
            EnrollError::ServiceFailed => EnrollError::ServiceFailed,
        }
    }
}

/// The message of a refusal tells the status and the body of the answer, and that of a status
/// word that enrollment does not know tells the word.
pub proof fn law_messages_tell(status: String, body: String)
    ensures
        text::is_wrapped(
            error_text(EnrollError::Refused { status, body }),
            "Dashboard request failed with HTTP "@ + status@ + ": "@,
            body@,
            seq![],
        ),
        text::is_wrapped(
            error_text(EnrollError::UnknownStatus(status)),
            "Dashboard returned unknown enrollment status `"@,
            status@,
            "`"@,
        ),
{
    let before = "Dashboard request failed with HTTP "@ + status@ + ": "@;
    text::lemma_wrapped(before, body@, seq![]);
    assert(error_text(EnrollError::Refused { status, body }) =~= before + body@ + seq![]);
    text::lemma_wrapped("Dashboard returned unknown enrollment status `"@, status@, "`"@);
}

} // verus!
