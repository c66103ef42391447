//! The order of enrollment: which step comes next, given what is known so far.
//!
//! An [`Enrollment`](super::machine::Enrollment) names the one [`Action`] to take next. Whoever
//! drives it takes that action and reports what came of it as an [`Event`]. A step that cannot be taken at all is not
//! reported: the drive ends there.

use super::dashboard;
use super::dashboard::{CreateRequest, CreateResponse, PollResponse, Verdict};
use super::host;
use super::settings;
use super::settings::Question;
use super::{EnrollError, Options};
use crate::json;
use crate::json::Scalar;
use vstd::prelude::*;

verus! {

/// Where enrollment stands.
#[derive(Debug)]
pub enum Phase {
    /// The Dashboard URL is to be asked for.
    AskDashboard,
    /// The host name is to be read from the environment.
    ReadHostname,
    /// The display name is to be asked for.
    AskDisplayName,
    /// The agent URL is to be asked for.
    AskAgentUrl,
    /// The listener address is to be asked for.
    AskListen,
    /// The listener address is to be parsed.
    CheckListen,
    /// The host identity is to be loaded.
    LoadIdentity,
    /// The configuration directory is to be created.
    CreateConfigDir,
    /// The paths of the files in the configuration directory are to be found out.
    LocateFiles,
    /// The TLS material is to be looked for.
    ProbeTls,
    /// The TLS material is to be generated.
    GenerateTls,
    /// The operator is to be told who this host is.
    AnnounceHost,
    /// The certificate is to be read.
    ReadCertificate,
    /// The HTTP client is to be set up.
    OpenClient,
    /// The Dashboard is to be asked for an enrollment.
    Register,
    /// The device authorization details are to be written.
    WriteApproval,
    /// The operator is to be told how to have the enrollment approved.
    AnnounceCode,
    /// The expiry is to be set.
    SetDeadline,
    /// The status is to be asked for.
    Poll,
    /// The expiry is to be looked at.
    ReadClock,
    /// Some time is to pass.
    Pause,
    /// The controller key is to be stored.
    StoreKey,
    /// The enrollment record is to be written.
    WriteRecord,
    /// The environment file is to be written.
    WriteEnvironment,
    /// The service is to be enabled.
    EnableService,
    /// Enrollment is complete.
    Enrolled,
    /// Enrollment ended without success.
    Failed(EnrollError),
}

/// What to do next.
#[derive(Debug)]
pub enum Action {
    /// Ask the operator; report the line as `Reply`.
    Ask {
        /// The question.
        question: Question,
    },
    /// Read the variable `HOSTNAME`; report it as `Hostname`.
    ReadHostname,
    /// Parse a socket address; report whether it is one as `ListenParses`.
    CheckListen {
        /// The address.
        listen: String,
    },
    /// Load the host identity, or create it; report it as `Identity`.
    LoadIdentity {
        /// The directory of the identity.
        identity_dir: String,
    },
    /// Create a directory and those above it; report `Done`.
    CreateDirectory {
        /// The directory.
        path: String,
    },
    /// Join these names to a directory, as the host joins paths; report `FilesAt`.
    LocateFiles {
        /// The directory.
        dir: String,
        /// The name of the private key.
        key: String,
        /// The name of the certificate.
        certificate: String,
        /// The name of the enrollment record.
        record: String,
        /// The name of the environment file.
        environment: String,
    },
    /// See which files exist; report `TlsFound`.
    ProbeTls {
        /// The private key.
        key: String,
        /// The certificate.
        certificate: String,
    },
    /// Run `openssl`; report `Exit`.
    RunOpenssl {
        /// Its arguments.
        arguments: Vec<String>,
    },
    /// Print lines; report `Done`.
    Print {
        /// The lines.
        lines: Vec<String>,
    },
    /// Read a text file; report it as `Certificate`.
    ReadCertificate {
        /// The file.
        path: String,
    },
    /// Set up the HTTP client for the requests to come; report `Done`.
    OpenClient {
        /// Whether it is to accept a server certificate that is not valid.
        accept_invalid_certificates: bool,
    },
    /// Post the request; report `Registered`, or `Refused` if the status is no success.
    Register {
        /// Where to.
        url: String,
        /// The request.
        request: CreateRequest,
    },
    /// Write the approval file; report `Done`.
    WriteApproval {
        /// Its contents.
        contents: Vec<u8>,
    },
    /// Set the expiry to so many seconds from now; report whether that is possible as
    /// `DeadlineSet`.
    SetDeadline {
        /// The seconds.
        seconds: u64,
    },
    /// Put the request; report `Polled`, or `Refused` if the status is no success.
    Poll {
        /// Where to.
        url: String,
        /// The body of the request.
        body: serde_json::Map<String, serde_json::Value>,
    },
    /// See whether the expiry has come; report it as `Clock`.
    ReadClock,
    /// Let so many seconds pass; report `Done`.
    Pause {
        /// The seconds.
        seconds: u64,
    },
    /// Store the controller key with the host identity; report `Done`.
    StoreKey {
        /// The key.
        key: String,
    },
    /// Write a file; report `Done`.
    WriteFile {
        /// The file.
        path: String,
        /// Its contents.
        contents: Vec<u8>,
    },
    /// Run `systemctl`; report `Exit`.
    RunSystemctl {
        /// Its arguments.
        arguments: Vec<String>,
    },
    /// Print lines and end with success.
    Finish {
        /// The lines.
        lines: Vec<String>,
    },
    /// End with an error.
    Fail {
        /// The error.
        error: EnrollError,
    },
}

/// What came of an action.
#[derive(Debug)]
pub enum Event {
    /// The line that the operator typed, if one could be read.
    Reply(Option<String>),
    /// The host name from the environment, if it is set.
    Hostname(Option<String>),
    /// Whether the listener address is a socket address.
    ListenParses(bool),
    /// The host identity.
    Identity {
        /// The public key.
        public_key: [u8; 32],
        /// Where the identity is stored.
        path: String,
        /// The fingerprint of the public key.
        fingerprint: String,
    },
    /// The action was taken.
    Done,
    /// The paths that the names were joined to.
    FilesAt {
        /// The private key.
        key_path: String,
        /// The certificate.
        certificate_path: String,
        /// The enrollment record.
        record_path: String,
        /// The environment file.
        environment_path: String,
    },
    /// Which part of the TLS material exists.
    TlsFound {
        /// The private key does.
        key: bool,
        /// The certificate does.
        certificate: bool,
    },
    /// A program ended.
    Exit {
        /// It reported success.
        success: bool,
    },
    /// The certificate, as PEM.
    Certificate(String),
    /// The Dashboard opened the enrollment.
    Registered(CreateResponse),
    /// The Dashboard answered with a status that is not a success.
    Refused {
        /// The status, as text.
        status: String,
        /// The body of the answer.
        body: String,
    },
    /// Whether the expiry fits into the clock.
    DeadlineSet(bool),
    /// The Dashboard told the status of the enrollment.
    Polled(PollResponse),
    /// What the clock says.
    Clock {
        /// The expiry has come.
        expired: bool,
    },
}

/// What is known of an enrollment.
pub struct Progress {
    /// What the operator chose.
    pub options: Options,
    /// Where enrollment stands.
    pub phase: Phase,
    /// The Dashboard base URL.
    pub dashboard_url: Seq<char>,
    /// The base URL of the approval page.
    pub verification_url: Seq<char>,
    /// The name of the host.
    pub hostname: Seq<char>,
    /// The name that the Dashboard shows.
    pub display_name: Seq<char>,
    /// The URL where the Dashboard can reach the host.
    pub agent_url: Seq<char>,
    /// The listener address.
    pub listen: Seq<char>,
    /// The public key of the host, as text.
    pub host_public_key: Seq<char>,
    /// Where the identity is stored.
    pub identity_path: Seq<char>,
    /// The fingerprint of the public key.
    pub fingerprint: Seq<char>,
    /// Where the private key of the listener is.
    pub key_path: Seq<char>,
    /// Where the certificate of the listener is.
    pub certificate_path: Seq<char>,
    /// Where the enrollment record goes.
    pub record_path: Seq<char>,
    /// Where the environment file goes.
    pub environment_path: Seq<char>,
    /// The certificate of the listener.
    pub certificate: Seq<char>,
    /// Names the enrollment in later requests.
    pub device_code: Seq<char>,
    /// Names the enrollment to the Dashboard user.
    pub user_code: Seq<char>,
    /// Seconds until the enrollment expires.
    pub expires_in: u64,
    /// Seconds to wait between two requests for the status.
    pub interval: u64,
    /// The public key of the controller.
    pub controller_key: Seq<char>,
}

/// What to do next, with texts in place of strings.
pub enum Task {
    /// Ask the operator.
    Ask {
        /// What is asked for.
        label: Seq<char>,
        /// The answer where the operator gives none.
        default: Seq<char>,
    },
    /// Read the variable `HOSTNAME`.
    ReadHostname,
    /// Parse a socket address.
    CheckListen {
        /// The address.
        listen: Seq<char>,
    },
    /// Load the host identity, or create it.
    LoadIdentity {
        /// The directory of the identity.
        identity_dir: Seq<char>,
    },
    /// Create a directory and those above it.
    CreateDirectory {
        /// The directory.
        path: Seq<char>,
    },
    /// Join names to a directory.
    LocateFiles {
        /// The directory.
        dir: Seq<char>,
        /// The name of the private key.
        key: Seq<char>,
        /// The name of the certificate.
        certificate: Seq<char>,
        /// The name of the enrollment record.
        record: Seq<char>,
        /// The name of the environment file.
        environment: Seq<char>,
    },
    /// See which files exist.
    ProbeTls {
        /// The private key.
        key: Seq<char>,
        /// The certificate.
        certificate: Seq<char>,
    },
    /// Run `openssl`.
    RunOpenssl {
        /// Its arguments.
        arguments: Seq<Seq<char>>,
    },
    /// Print lines.
    Print {
        /// The lines.
        lines: Seq<Seq<char>>,
    },
    /// Read a text file.
    ReadCertificate {
        /// The file.
        path: Seq<char>,
    },
    /// Set up the HTTP client.
    OpenClient {
        /// Whether it is to accept a server certificate that is not valid.
        accept_invalid_certificates: bool,
    },
    /// Ask the Dashboard for an enrollment.
    Register {
        /// Where to.
        url: Seq<char>,
        /// The name that the Dashboard shows.
        display_name: Seq<char>,
        /// The name of the host.
        hostname: Seq<char>,
        /// The URL where the Dashboard can reach the host.
        agent_url: Seq<char>,
        /// The public key of the host, as text.
        host_public_key: Seq<char>,
        /// The certificate of the listener.
        tls_ca_certificate: Seq<char>,
    },
    /// Write the approval file.
    WriteApproval {
        /// Its contents.
        contents: Seq<u8>,
    },
    /// Set the expiry.
    SetDeadline {
        /// The seconds from now.
        seconds: u64,
    },
    /// Ask for the status.
    Poll {
        /// Where to.
        url: Seq<char>,
        /// The fields of the body.
        body: Map<Seq<char>, Scalar>,
    },
    /// See whether the expiry has come.
    ReadClock,
    /// Let time pass.
    Pause {
        /// The seconds.
        seconds: u64,
    },
    /// Store the controller key.
    StoreKey {
        /// The key.
        key: Seq<char>,
    },
    /// Write a file.
    WriteFile {
        /// The file.
        path: Seq<char>,
        /// Its contents.
        contents: Seq<u8>,
    },
    /// Run `systemctl`.
    RunSystemctl {
        /// Its arguments.
        arguments: Seq<Seq<char>>,
    },
    /// End with success.
    Finish {
        /// The lines to print.
        lines: Seq<Seq<char>>,
    },
    /// End with an error.
    Fail {
        /// The error.
        error: EnrollError,
    },
}

impl View for Action {
    type V = Task;

    open spec fn view(&self) -> Task {
        match *self {
            Action::Ask { question } => Task::Ask {
                label: question.label@,
                default: question.default@,
            },
            Action::ReadHostname => Task::ReadHostname,
            Action::CheckListen { listen } => Task::CheckListen { listen: listen@ },
            Action::LoadIdentity { identity_dir } => Task::LoadIdentity {
                identity_dir: identity_dir@,
            },
            Action::CreateDirectory { path } => Task::CreateDirectory { path: path@ },
            Action::LocateFiles { dir, key, certificate, record, environment } =>
                Task::LocateFiles {
                    dir: dir@,
                    key: key@,
                    certificate: certificate@,
                    record: record@,
                    environment: environment@,
                },
            Action::ProbeTls { key, certificate } => Task::ProbeTls {
                key: key@,
                certificate: certificate@,
            },
            Action::RunOpenssl { arguments } => Task::RunOpenssl {
                arguments: arguments.deep_view(),
            },
            Action::Print { lines } => Task::Print { lines: lines.deep_view() },
            Action::ReadCertificate { path } => Task::ReadCertificate { path: path@ },
            Action::OpenClient { accept_invalid_certificates } => Task::OpenClient {
                accept_invalid_certificates,
            },
            Action::Register { url, request } => Task::Register {
                url: url@,
                display_name: request.display_name@,
                hostname: request.hostname@,
                agent_url: request.agent_url@,
                host_public_key: request.host_public_key@,
                tls_ca_certificate: request.tls_ca_certificate@,
            },
            Action::WriteApproval { contents } => Task::WriteApproval { contents: contents@ },
            Action::SetDeadline { seconds } => Task::SetDeadline { seconds },
            Action::Poll { url, body } => Task::Poll {
                url: url@,
                body: json::fields(body),
            },
            Action::ReadClock => Task::ReadClock,
            Action::Pause { seconds } => Task::Pause { seconds },
            Action::StoreKey { key } => Task::StoreKey { key: key@ },
            Action::WriteFile { path, contents } => Task::WriteFile {
                path: path@,
                contents: contents@,
            },
            Action::RunSystemctl { arguments } => Task::RunSystemctl {
                arguments: arguments.deep_view(),
            },
            Action::Finish { lines } => Task::Finish { lines: lines.deep_view() },
            Action::Fail { error } => Task::Fail { error },
        }
    }
}

// ---- what follows what ----

/// `p` at another phase.
pub open spec fn at(p: Progress, phase: Phase) -> Progress {
    Progress { phase, ..p }
}

/// `p`, ended without success.
pub open spec fn fail(p: Progress, error: EnrollError) -> Progress {
    at(p, Phase::Failed(error))
}

/// What is known when nothing but the options is.
pub open spec fn nothing_known(options: Options) -> Progress {
    Progress {
        options,
        phase: Phase::AskDashboard,
        dashboard_url: seq![],
        verification_url: seq![],
        hostname: seq![],
        display_name: seq![],
        agent_url: seq![],
        listen: seq![],
        host_public_key: seq![],
        identity_path: seq![],
        fingerprint: seq![],
        key_path: seq![],
        certificate_path: seq![],
        record_path: seq![],
        environment_path: seq![],
        certificate: seq![],
        device_code: seq![],
        user_code: seq![],
        expires_in: 0,
        interval: 0,
        controller_key: seq![],
    }
}

/// Where enrollment begins.
pub open spec fn beginning(options: Options) -> Progress {
    match options.dashboard_url {
        Some(url) => with_dashboard(nothing_known(options), url@),
        None => nothing_known(options),
    }
}

/// Once the Dashboard URL is known, as it was given.
pub open spec fn with_dashboard(p: Progress, raw: Seq<char>) -> Progress {
    let base = settings::base_url(raw);
    if base.len() == 0 {
        fail(p, EnrollError::EmptyDashboardUrl)
    } else {
        let verification_url = match p.options.verification_url {
            Some(url) => url@,
            None => base,
        };
        let q = Progress { dashboard_url: base, verification_url, ..p };
        match p.options.hostname {
            Some(hostname) => with_hostname(q, hostname@),
            None => at(q, Phase::ReadHostname),
        }
    }
}

/// Once the host name is known.
pub open spec fn with_hostname(p: Progress, hostname: Seq<char>) -> Progress {
    let q = Progress { hostname, ..p };
    match p.options.display_name {
        Some(name) => with_display_name(q, name@),
        None => at(q, Phase::AskDisplayName),
    }
}

/// Once the display name is known.
pub open spec fn with_display_name(p: Progress, display_name: Seq<char>) -> Progress {
    let q = Progress { display_name, ..p };
    match p.options.agent_url {
        Some(url) => with_agent_url(q, url@),
        None => at(q, Phase::AskAgentUrl),
    }
}

/// Once the agent URL is known.
pub open spec fn with_agent_url(p: Progress, agent_url: Seq<char>) -> Progress {
    let q = Progress { agent_url, ..p };
    match p.options.listen {
        Some(listen) => with_listen(q, listen@),
        None => at(q, Phase::AskListen),
    }
}

/// Once the listener address is known.
pub open spec fn with_listen(p: Progress, listen: Seq<char>) -> Progress {
    Progress { listen, phase: Phase::CheckListen, ..p }
}

/// Once it is known whether the listener address is a socket address.
pub open spec fn with_listen_checked(p: Progress, parses: bool) -> Progress {
    match settings::settings_fault(parses, p.agent_url, p.options.insecure) {
        Some(error) => fail(p, error),
        None => at(p, Phase::LoadIdentity),
    }
}

/// Once the Dashboard has opened the enrollment.
pub open spec fn with_device(p: Progress, device: CreateResponse) -> Progress {
    let q = Progress {
        device_code: device.device_code@,
        user_code: device.user_code@,
        expires_in: device.expires_in,
        interval: device.interval,
        ..p
    };
    if p.options.approval_file is Some {
        at(q, Phase::WriteApproval)
    } else {
        at(q, Phase::AnnounceCode)
    }
}

/// Once the Dashboard has told the status.
pub open spec fn with_status(p: Progress, response: PollResponse) -> Progress {
    match dashboard::verdict_of(response) {
        Verdict::Pending => at(p, Phase::ReadClock),
        Verdict::Approved(key) => Progress {
            controller_key: key@,
            phase: Phase::StoreKey,
            ..p
        },
        Verdict::Rejected(error) => fail(p, error),
    }
}

/// The fields of the enrollment record.
pub open spec fn record(p: Progress) -> Map<Seq<char>, Scalar> {
    host::record_fields(
        p.agent_url,
        p.certificate_path,
        p.key_path,
        p.options.identity_dir@,
    )
}

/// Where enrollment stands after an event. An event that does not answer the action of the
/// phase changes nothing.
pub open spec fn after(p: Progress, event: Event) -> Progress {
    match (p.phase, event) {
        (Phase::AskDashboard, Event::Reply(reply)) => with_dashboard(
            p,
            settings::answer_text(settings::line_view(reply), "http://127.0.0.1:3000"@),
        ),
        (Phase::ReadHostname, Event::Hostname(name)) => with_hostname(
            p,
            match name {
                Some(name) => name@,
                None => "tetra-host"@,
            },
        ),
        (Phase::AskDisplayName, Event::Reply(reply)) => with_display_name(
            p,
            settings::answer_text(settings::line_view(reply), p.hostname),
        ),
        (Phase::AskAgentUrl, Event::Reply(reply)) => with_agent_url(
            p,
            settings::answer_text(
                settings::line_view(reply),
                settings::proposed_agent_url(p.hostname),
            ),
        ),
        (Phase::AskListen, Event::Reply(reply)) => with_listen(
            p,
            settings::answer_text(settings::line_view(reply), "0.0.0.0:7780"@),
        ),
        (Phase::CheckListen, Event::ListenParses(parses)) => with_listen_checked(p, parses),
        (Phase::LoadIdentity, Event::Identity { public_key, path, fingerprint }) => Progress {
            host_public_key: host::url_safe_base64(public_key@),
            identity_path: path@,
            fingerprint: fingerprint@,
            phase: Phase::CreateConfigDir,
            ..p
        },
        (Phase::CreateConfigDir, Event::Done) => at(p, Phase::LocateFiles),
        (
            Phase::LocateFiles,
            Event::FilesAt { key_path, certificate_path, record_path, environment_path },
        ) => Progress {
            key_path: key_path@,
            certificate_path: certificate_path@,
            record_path: record_path@,
            environment_path: environment_path@,
            phase: Phase::ProbeTls,
            ..p
        },
        (Phase::ProbeTls, Event::TlsFound { key, certificate }) => if key && certificate {
            at(p, Phase::AnnounceHost)
        } else {
            at(p, Phase::GenerateTls)
        },
        (Phase::GenerateTls, Event::Exit { success }) => if success {
            at(p, Phase::AnnounceHost)
        } else {
            fail(p, EnrollError::OpensslFailed)
        },
        (Phase::AnnounceHost, Event::Done) => at(p, Phase::ReadCertificate),
        (Phase::ReadCertificate, Event::Certificate(text)) => Progress {
            certificate: text@,
            phase: Phase::OpenClient,
            ..p
        },
        (Phase::OpenClient, Event::Done) => at(p, Phase::Register),
        (Phase::Register, Event::Registered(device)) => with_device(p, device),
        (Phase::Register, Event::Refused { status, body }) => fail(
            p,
            EnrollError::Refused { status, body },
        ),
        (Phase::WriteApproval, Event::Done) => at(p, Phase::AnnounceCode),
        (Phase::AnnounceCode, Event::Done) => at(p, Phase::SetDeadline),
        (Phase::SetDeadline, Event::DeadlineSet(possible)) => if possible {
            at(p, Phase::Poll)
        } else {
            fail(p, EnrollError::ExpiryOutOfRange)
        },
        (Phase::Poll, Event::Polled(response)) => with_status(p, response),
        (Phase::Poll, Event::Refused { status, body }) => fail(
            p,
            EnrollError::Refused { status, body },
        ),
        (Phase::ReadClock, Event::Clock { expired }) => if expired {
            fail(p, EnrollError::Expired)
        } else {
            at(p, Phase::Pause)
        },
        (Phase::Pause, Event::Done) => at(p, Phase::Poll),
        (Phase::StoreKey, Event::Done) => at(p, Phase::WriteRecord),
        (Phase::WriteRecord, Event::Done) => at(p, Phase::WriteEnvironment),
        (Phase::WriteEnvironment, Event::Done) => if p.options.skip_service {
            at(p, Phase::Enrolled)
        } else {
            at(p, Phase::EnableService)
        },
        (Phase::EnableService, Event::Exit { success }) => if success {
            at(p, Phase::Enrolled)
        } else {
            fail(p, EnrollError::ServiceFailed)
        },
        _ => p,
    }
}

/// The lines that tell the operator who this host is.
pub open spec fn host_notice(p: Progress) -> Seq<Seq<char>> {
    seq![
        "Host identity: "@ + p.identity_path,
        "Host fingerprint: "@ + p.fingerprint,
        "TLS certificate: "@ + p.certificate_path,
    ]
}

/// The lines that tell the operator that enrollment is complete.
pub open spec fn closing_notice(p: Progress) -> Seq<Seq<char>> {
    seq![
        "Enrollment approved. Controller key saved under "@ + p.options.identity_dir@ + "."@,
        "Enabled and started tetra.service."@,
    ]
}

/// What to do where enrollment stands.
pub open spec fn task(p: Progress) -> Task {
    match p.phase {
        Phase::AskDashboard => Task::Ask {
            label: "Dashboard URL"@,
            default: "http://127.0.0.1:3000"@,
        },
        Phase::ReadHostname => Task::ReadHostname,
        Phase::AskDisplayName => Task::Ask { label: "Host display name"@, default: p.hostname },
        Phase::AskAgentUrl => Task::Ask {
            label: "Tetra WebSocket URL"@,
            default: settings::proposed_agent_url(p.hostname),
        },
        Phase::AskListen => Task::Ask {
            label: "Tetra listener address"@,
            default: "0.0.0.0:7780"@,
        },
        Phase::CheckListen => Task::CheckListen { listen: p.listen },
        Phase::LoadIdentity => Task::LoadIdentity { identity_dir: p.options.identity_dir@ },
        Phase::CreateConfigDir => Task::CreateDirectory { path: p.options.config_dir@ },
        Phase::LocateFiles => Task::LocateFiles {
            dir: p.options.config_dir@,
            key: "tetra.key"@,
            certificate: "tetra.crt"@,
            record: "enrollment.json"@,
            environment: "enrollment.env"@,
        },
        Phase::ProbeTls => Task::ProbeTls {
            key: p.key_path,
            certificate: p.certificate_path,
        },
        Phase::GenerateTls => Task::RunOpenssl {
            arguments: host::openssl_line(p.hostname, p.key_path, p.certificate_path),
        },
        Phase::AnnounceHost => Task::Print { lines: host_notice(p) },
        Phase::ReadCertificate => Task::ReadCertificate { path: p.certificate_path },
        Phase::OpenClient => Task::OpenClient {
            accept_invalid_certificates: p.options.insecure,
        },
        Phase::Register => Task::Register {
            url: dashboard::device_url(p.dashboard_url),
            display_name: p.display_name,
            hostname: p.hostname,
            agent_url: p.agent_url,
            host_public_key: p.host_public_key,
            tls_ca_certificate: p.certificate,
        },
        Phase::WriteApproval => Task::WriteApproval {
            contents: json::pretty(
                dashboard::approval_fields(p.verification_url, p.user_code, p.expires_in),
            ),
        },
        Phase::AnnounceCode => Task::Print {
            lines: dashboard::approval_notice(p.verification_url, p.user_code),
        },
        Phase::SetDeadline => Task::SetDeadline { seconds: p.expires_in },
        Phase::Poll => Task::Poll {
            url: dashboard::device_url(p.dashboard_url),
            body: dashboard::poll_fields(p.device_code),
        },
        Phase::ReadClock => Task::ReadClock,
        Phase::Pause => Task::Pause { seconds: dashboard::pause_length(p.interval) },
        Phase::StoreKey => Task::StoreKey { key: p.controller_key },
        Phase::WriteRecord => Task::WriteFile {
            path: p.record_path,
            contents: json::pretty(record(p)),
        },
        Phase::WriteEnvironment => Task::WriteFile {
            path: p.environment_path,
            contents: vstd::utf8::encode_utf8(host::environment_text(p.listen)),
        },
        Phase::EnableService => Task::RunSystemctl { arguments: host::service_line() },
        Phase::Enrolled => Task::Finish { lines: closing_notice(p) },
        Phase::Failed(error) => Task::Fail { error },
    }
}

} // verus!
