//! The enrollment of one host, as a machine that is driven step by step.

use super::dashboard;
use super::dashboard::{CreateRequest, CreateResponse, PollResponse, Verdict};
use super::flow;
use super::flow::{Action, Event, Phase, Progress};
use super::host;
use super::settings;
use super::settings::Question;
use super::{EnrollError, Options};
use vstd::prelude::*;
use vstd::string::StringExecFns;

verus! {

/// The enrollment of one host.
#[derive(Debug)]
pub struct Enrollment {
    options: Options,
    phase: Phase,
    dashboard_url: String,
    verification_url: String,
    hostname: String,
    display_name: String,
    agent_url: String,
    listen: String,
    host_public_key: String,
    identity_path: String,
    fingerprint: String,
    key_path: String,
    certificate_path: String,
    record_path: String,
    environment_path: String,
    certificate: String,
    device: CreateResponse,
    controller_key: String,
}

impl View for Enrollment {
    type V = Progress;

    closed spec fn view(&self) -> Progress {
        Progress {
            options: self.options,
            phase: self.phase,
            dashboard_url: self.dashboard_url@,
            verification_url: self.verification_url@,
            hostname: self.hostname@,
            display_name: self.display_name@,
            agent_url: self.agent_url@,
            listen: self.listen@,
            host_public_key: self.host_public_key@,
            identity_path: self.identity_path@,
            fingerprint: self.fingerprint@,
            key_path: self.key_path@,
            certificate_path: self.certificate_path@,
            record_path: self.record_path@,
            environment_path: self.environment_path@,
            certificate: self.certificate@,
            device_code: self.device.device_code@,
            user_code: self.device.user_code@,
            expires_in: self.device.expires_in,
            interval: self.device.interval,
            controller_key: self.controller_key@,
        }
    }
}

impl Enrollment {
    /// Begins an enrollment.
    pub fn start(options: Options) -> (res: Self)
        ensures
            res@ == flow::beginning(options),
    {
        let mut res = Enrollment {
            options,
            phase: Phase::AskDashboard,
            dashboard_url: String::new(),
            verification_url: String::new(),
            hostname: String::new(),
            display_name: String::new(),
            agent_url: String::new(),
            listen: String::new(),
            host_public_key: String::new(),
            identity_path: String::new(),
            fingerprint: String::new(),
            key_path: String::new(),
            certificate_path: String::new(),
            record_path: String::new(),
            environment_path: String::new(),
            certificate: String::new(),
            device: CreateResponse {
                device_code: String::new(),
                user_code: String::new(),
                expires_in: 0,
                interval: 0,
            },
            controller_key: String::new(),
        };
        assert(res@ == flow::nothing_known(options));
        let given = res.options.dashboard_url.clone();
        match given {
            Some(url) => res.settle_dashboard(url.as_str()),
            None => {},
        }
        res
    }

    fn settle_dashboard(&mut self, raw: &str)
        ensures
            final(self)@ == flow::with_dashboard(old(self)@, raw@),
    {
        match settings::dashboard_base_url(raw) {
            Ok(base) => {
                let given = self.options.verification_url.clone();
                self.verification_url = match given {
                    Some(url) => url,
                    None => base.clone(),
                };
                self.dashboard_url = base;
                let given = self.options.hostname.clone();
                match given {
                    Some(hostname) => self.settle_hostname(hostname),
                    None => {
                        self.phase = Phase::ReadHostname;
                    },
                }
            },
            Err(error) => {
                self.phase = Phase::Failed(error);
            },
        }
    }

    fn settle_hostname(&mut self, hostname: String)
        ensures
            final(self)@ == flow::with_hostname(old(self)@, hostname@),
    {
        self.hostname = hostname;
        let given = self.options.display_name.clone();
        match given {
            Some(name) => self.settle_display_name(name),
            None => {
                self.phase = Phase::AskDisplayName;
            },
        }
    }

    fn settle_display_name(&mut self, display_name: String)
        ensures
            final(self)@ == flow::with_display_name(old(self)@, display_name@),
    {
        self.display_name = display_name;
        let given = self.options.agent_url.clone();
        match given {
            Some(url) => self.settle_agent_url(url),
            None => {
                self.phase = Phase::AskAgentUrl;
            },
        }
    }

    fn settle_agent_url(&mut self, agent_url: String)
        ensures
            final(self)@ == flow::with_agent_url(old(self)@, agent_url@),
    {
        self.agent_url = agent_url;
        let given = self.options.listen.clone();
        match given {
            Some(listen) => self.settle_listen(listen),
            None => {
                self.phase = Phase::AskListen;
            },
        }
    }

    fn settle_listen(&mut self, listen: String)
        ensures
            final(self)@ == flow::with_listen(old(self)@, listen@),
    {
        self.listen = listen;
        self.phase = Phase::CheckListen;
    }

    fn take_reply(&mut self, reply: Option<String>)
        ensures
            final(self)@ == flow::after(old(self)@, Event::Reply(reply)),
    {
        match self.phase {
            Phase::AskDashboard => {
                let url = settings::prompt(reply, "http://127.0.0.1:3000");
                self.settle_dashboard(url.as_str());
            },
            Phase::AskDisplayName => {
                let name = settings::prompt(reply, self.hostname.as_str());
                self.settle_display_name(name);
            },
            Phase::AskAgentUrl => {
                let proposed = settings::default_agent_url(self.hostname.as_str());
                let url = settings::prompt(reply, proposed.as_str());
                self.settle_agent_url(url);
            },
            Phase::AskListen => {
                let listen = settings::prompt(reply, "0.0.0.0:7780");
                self.settle_listen(listen);
            },
            _ => {},
        }
    }

    fn take_device(&mut self, device: CreateResponse)
        ensures
            final(self)@ == flow::with_device(old(self)@, device),
    {
        self.device = device;
        if self.options.approval_file.is_some() {
            self.phase = Phase::WriteApproval;
        } else {
            self.phase = Phase::AnnounceCode;
        }
    }

    fn take_status(&mut self, response: PollResponse)
        ensures
            final(self)@ == flow::with_status(old(self)@, response),
    {
        match dashboard::judge(response) {
            Verdict::Pending => {
                self.phase = Phase::ReadClock;
            },
            Verdict::Approved(key) => {
                self.controller_key = key;
                self.phase = Phase::StoreKey;
            },
            Verdict::Rejected(error) => {
                self.phase = Phase::Failed(error);
            },
        }
    }

    fn take_done(&mut self)
        ensures
            final(self)@ == flow::after(old(self)@, Event::Done),
    {
        match self.phase {
            Phase::CreateConfigDir => {
                self.phase = Phase::LocateFiles;
            },
            Phase::AnnounceHost => {
                self.phase = Phase::ReadCertificate;
            },
            Phase::OpenClient => {
                self.phase = Phase::Register;
            },
            Phase::WriteApproval => {
                self.phase = Phase::AnnounceCode;
            },
            Phase::AnnounceCode => {
                self.phase = Phase::SetDeadline;
            },
            Phase::Pause => {
                self.phase = Phase::Poll;
            },
            Phase::StoreKey => {
                self.phase = Phase::WriteRecord;
            },
            Phase::WriteRecord => {
                self.phase = Phase::WriteEnvironment;
            },
            Phase::WriteEnvironment => {
                if self.options.skip_service {
                    self.phase = Phase::Enrolled;
                } else {
                    self.phase = Phase::EnableService;
                }
            },
            _ => {},
        }
    }

    fn take_exit(&mut self, success: bool)
        ensures
            final(self)@ == flow::after(old(self)@, Event::Exit { success }),
    {
        match self.phase {
            Phase::GenerateTls => {
                if success {
                    self.phase = Phase::AnnounceHost;
                } else {
                    self.phase = Phase::Failed(EnrollError::OpensslFailed);
                }
            },
            Phase::EnableService => {
                if success {
                    self.phase = Phase::Enrolled;
                } else {
                    self.phase = Phase::Failed(EnrollError::ServiceFailed);
                }
            },
            _ => {},
        }
    }

    /// Takes note of what came of the last action.
    pub fn advance(&mut self, event: Event)
        ensures
            final(self)@ == flow::after(old(self)@, event),
    {
        match event {
            Event::Reply(reply) => self.take_reply(reply),
            Event::Hostname(name) => {
                if let Phase::ReadHostname = self.phase {
                    let hostname = match name {
                        Some(name) => name,
                        None => "tetra-host".to_owned(),
                    };
                    self.settle_hostname(hostname);
                }
            },
            Event::ListenParses(parses) => {
                if let Phase::CheckListen = self.phase {
                    match settings::check_settings(
                        parses,
                        self.agent_url.as_str(),
                        self.options.insecure,
                    ) {
                        Ok(_) => {
                            self.phase = Phase::LoadIdentity;
                        },
                        Err(error) => {
                            self.phase = Phase::Failed(error);
                        },
                    }
                }
            },
            Event::Identity { public_key, path, fingerprint } => {
                if let Phase::LoadIdentity = self.phase {
                    self.host_public_key = host::public_key_text(&public_key);
                    self.identity_path = path;
                    self.fingerprint = fingerprint;
                    self.phase = Phase::CreateConfigDir;
                }
            },
            Event::Done => self.take_done(),
            Event::FilesAt { key_path, certificate_path, record_path, environment_path } => {
                if let Phase::LocateFiles = self.phase {
                    self.key_path = key_path;
                    self.certificate_path = certificate_path;
                    self.record_path = record_path;
                    self.environment_path = environment_path;
                    self.phase = Phase::ProbeTls;
                }
            },
            Event::TlsFound { key, certificate } => {
                if let Phase::ProbeTls = self.phase {
                    if key && certificate {
                        self.phase = Phase::AnnounceHost;
                    } else {
                        self.phase = Phase::GenerateTls;
                    }
                }
            },
            Event::Exit { success } => self.take_exit(success),
            Event::Certificate(text) => {
                if let Phase::ReadCertificate = self.phase {
                    self.certificate = text;
                    self.phase = Phase::OpenClient;
                }
            },
            Event::Registered(device) => {
                if let Phase::Register = self.phase {
                    self.take_device(device);
                }
            },
            Event::Refused { status, body } => {
                match self.phase {
                    Phase::Register | Phase::Poll => {
                        self.phase = Phase::Failed(EnrollError::Refused { status, body });
                    },
                    _ => {},
                }
            },
            Event::DeadlineSet(possible) => {
                if let Phase::SetDeadline = self.phase {
                    if possible {
                        self.phase = Phase::Poll;
                    } else {
                        self.phase = Phase::Failed(EnrollError::ExpiryOutOfRange);
                    }
                }
            },
            Event::Polled(response) => {
                if let Phase::Poll = self.phase {
                    self.take_status(response);
                }
            },
            Event::Clock { expired } => {
                if let Phase::ReadClock = self.phase {
                    if expired {
                        self.phase = Phase::Failed(EnrollError::Expired);
                    } else {
                        self.phase = Phase::Pause;
                    }
                }
            },
        }
    }

    fn host_lines(&self) -> (res: Vec<String>)
        ensures
            res.deep_view() == flow::host_notice(self@),
    {
        let mut identity = "Host identity: ".to_owned();
        identity.append(self.identity_path.as_str());
        let mut fingerprint = "Host fingerprint: ".to_owned();
        fingerprint.append(self.fingerprint.as_str());
        let mut certificate = "TLS certificate: ".to_owned();
        certificate.append(self.certificate_path.as_str());
        let res = vec![identity, fingerprint, certificate];
        assert(res.deep_view() =~= flow::host_notice(self@));
        res
    }

    fn closing_lines(&self) -> (res: Vec<String>)
        ensures
            res.deep_view() == flow::closing_notice(self@),
    {
        let mut approved = "Enrollment approved. Controller key saved under ".to_owned();
        approved.append(self.options.identity_dir.as_str());
        approved.append(".");
        let res = vec![approved, "Enabled and started tetra.service.".to_owned()];
        assert(res.deep_view() =~= flow::closing_notice(self@));
        res
    }

    fn request(&self) -> (res: CreateRequest)
        ensures
            res.display_name@ == self@.display_name,
            res.hostname@ == self@.hostname,
            res.agent_url@ == self@.agent_url,
            res.host_public_key@ == self@.host_public_key,
            res.tls_ca_certificate@ == self@.certificate,
    {
        CreateRequest {
            display_name: self.display_name.clone(),
            hostname: self.hostname.clone(),
            agent_url: self.agent_url.clone(),
            host_public_key: self.host_public_key.clone(),
            tls_ca_certificate: self.certificate.clone(),
        }
    }

    /// The action to take next.
    pub fn action(&self) -> (res: Action)
        ensures
            res@ == flow::task(self@),
    {
        match &self.phase {
            Phase::AskDashboard => Action::Ask {
                question: Question::new("Dashboard URL", "http://127.0.0.1:3000"),
            },
            Phase::ReadHostname => Action::ReadHostname,
            Phase::AskDisplayName => Action::Ask {
                question: Question::new("Host display name", self.hostname.as_str()),
            },
            Phase::AskAgentUrl => {
                let proposed = settings::default_agent_url(self.hostname.as_str());
                Action::Ask { question: Question::new("Tetra WebSocket URL", proposed.as_str()) }
            },
            Phase::AskListen => Action::Ask {
                question: Question::new("Tetra listener address", "0.0.0.0:7780"),
            },
            Phase::CheckListen => Action::CheckListen { listen: self.listen.clone() },
            Phase::LoadIdentity => Action::LoadIdentity {
                identity_dir: self.options.identity_dir.clone(),
            },
            Phase::CreateConfigDir => Action::CreateDirectory {
                path: self.options.config_dir.clone(),
            },
            Phase::LocateFiles => Action::LocateFiles {
                dir: self.options.config_dir.clone(),
                key: "tetra.key".to_owned(),
                certificate: "tetra.crt".to_owned(),
                record: "enrollment.json".to_owned(),
                environment: "enrollment.env".to_owned(),
            },
            Phase::ProbeTls => Action::ProbeTls {
                key: self.key_path.clone(),
                certificate: self.certificate_path.clone(),
            },
            Phase::GenerateTls => Action::RunOpenssl {
                arguments: host::openssl_arguments(
                    self.hostname.as_str(),
                    self.key_path.as_str(),
                    self.certificate_path.as_str(),
                ),
            },
            Phase::AnnounceHost => Action::Print { lines: self.host_lines() },
            Phase::ReadCertificate => Action::ReadCertificate {
                path: self.certificate_path.clone(),
            },
            Phase::OpenClient => Action::OpenClient {
                accept_invalid_certificates: self.options.insecure,
            },
            Phase::Register => Action::Register {
                url: dashboard::device_endpoint(self.dashboard_url.as_str()),
                request: self.request(),
            },
            Phase::WriteApproval => Action::WriteApproval {
                contents: dashboard::approval_document(
                    self.verification_url.as_str(),
                    self.device.user_code.as_str(),
                    self.device.expires_in,
                ),
            },
            Phase::AnnounceCode => Action::Print {
                lines: dashboard::approval_lines(
                    self.verification_url.as_str(),
                    self.device.user_code.as_str(),
                ),
            },
            Phase::SetDeadline => Action::SetDeadline { seconds: self.device.expires_in },
            Phase::Poll => Action::Poll {
                url: dashboard::device_endpoint(self.dashboard_url.as_str()),
                body: dashboard::poll_request(self.device.device_code.as_str()),
            },
            Phase::ReadClock => Action::ReadClock,
            Phase::Pause => Action::Pause {
                seconds: dashboard::pause_seconds(self.device.interval),
            },
            Phase::StoreKey => Action::StoreKey { key: self.controller_key.clone() },
            Phase::WriteRecord => Action::WriteFile {
                path: self.record_path.clone(),
                contents: host::enrollment_record(
                    self.agent_url.as_str(),
                    self.certificate_path.as_str(),
                    self.key_path.as_str(),
                    self.options.identity_dir.as_str(),
                ),
            },
            Phase::WriteEnvironment => Action::WriteFile {
                path: self.environment_path.clone(),
                contents: host::environment_file(self.listen.as_str()),
            },
            Phase::EnableService => Action::RunSystemctl { arguments: host::service_arguments() },
            Phase::Enrolled => Action::Finish { lines: self.closing_lines() },
            Phase::Failed(error) => Action::Fail { error: error.clone() },
        }
    }
}

} // verus!
