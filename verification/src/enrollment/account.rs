//! Where everything comes from that an enrollment asks, tells, writes and runs: from the
//! options, and from the events that answered its actions.

use super::dashboard;
use super::flow::{after, beginning, task, Action, Event, Phase, Progress, Task};
use super::host;
use super::laws::{is_opened, is_settling, is_storing, law_options_stay, reached};
use super::settings;
use super::{EnrollError, Options};
use crate::json;
use crate::json::Scalar;
use crate::text;
use vstd::prelude::*;

verus! {

/// The event tells what came of the action of the phase.
pub open spec fn is_answer(phase: Phase, event: Event) -> bool {
    match event {
        Event::Reply(_) => phase is AskDashboard || phase is AskDisplayName
            || phase is AskAgentUrl || phase is AskListen,
        Event::Hostname(_) => phase is ReadHostname,
        Event::ListenParses(_) => phase is CheckListen,
        Event::Identity { .. } => phase is LoadIdentity,
        Event::Done => phase is CreateConfigDir || phase is AnnounceHost || phase is OpenClient
            || phase is WriteApproval || phase is AnnounceCode || phase is Pause
            || phase is StoreKey || phase is WriteRecord || phase is WriteEnvironment,
        Event::FilesAt { .. } => phase is LocateFiles,
        Event::TlsFound { .. } => phase is ProbeTls,
        Event::Exit { .. } => phase is GenerateTls || phase is EnableService,
        Event::Certificate(_) => phase is ReadCertificate,
        Event::Registered(_) => phase is Register,
        Event::Refused { .. } => phase is Register || phase is Poll,
        Event::DeadlineSet(_) => phase is SetDeadline,
        Event::Polled(_) => phase is Poll,
        Event::Clock { .. } => phase is ReadClock,
    }
}

/// The event that answered the action of `phase`, the last one if there were several.
pub open spec fn answer(options: Options, events: Seq<Event>, phase: Phase) -> Option<Event>
    decreases events.len(),
{
    if events.len() == 0 {
        None
    } else if reached(options, events.drop_last()).phase == phase && is_answer(
        phase,
        events.last(),
    ) {
        Some(events.last())
    } else {
        answer(options, events.drop_last(), phase)
    }
}

/// An event that is no answer to the action of the phase changes nothing.
pub proof fn law_other_events_change_nothing(p: Progress, event: Event)
    requires
        !is_answer(p.phase, event),
    ensures
        after(p, event) == p,
{
}

// ---- what the operator settles ----

/// What was chosen, or else what was answered: the line without the white space around it,
/// unless it is blank or could not be read, and then the default.
pub open spec fn settled(
    chosen: Option<String>,
    answered: Option<Event>,
    default: Seq<char>,
) -> Seq<char> {
    match chosen {
        Some(value) => value@,
        None => match answered {
            Some(Event::Reply(Some(line))) => if text::all_space(line@) {
                default
            } else {
                text::trimmed(line@)
            },
            _ => default,
        },
    }
}

/// The operator was asked for what they had not chosen.
pub open spec fn was_asked(chosen: Option<String>, answered: Option<Event>) -> bool {
    chosen is None ==> (answered matches Some(event) && event is Reply)
}

/// The Dashboard base URL.
pub open spec fn dashboard_of(options: Options, events: Seq<Event>) -> Seq<char> {
    settings::base_url(
        settled(
            options.dashboard_url,
            answer(options, events, Phase::AskDashboard),
            "http://127.0.0.1:3000"@,
        ),
    )
}

/// The base URL of the approval page.
pub open spec fn verification_of(options: Options, events: Seq<Event>) -> Seq<char> {
    match options.verification_url {
        Some(url) => url@,
        None => dashboard_of(options, events),
    }
}

/// The name of the host.
pub open spec fn hostname_of(options: Options, events: Seq<Event>) -> Seq<char> {
    match options.hostname {
        Some(name) => name@,
        None => match answer(options, events, Phase::ReadHostname) {
            Some(Event::Hostname(Some(name))) => name@,
            _ => "tetra-host"@,
        },
    }
}

/// The name that the Dashboard shows.
pub open spec fn display_name_of(options: Options, events: Seq<Event>) -> Seq<char> {
    settled(
        options.display_name,
        answer(options, events, Phase::AskDisplayName),
        hostname_of(options, events),
    )
}

/// The URL where the Dashboard can reach the host.
pub open spec fn agent_url_of(options: Options, events: Seq<Event>) -> Seq<char> {
    settled(
        options.agent_url,
        answer(options, events, Phase::AskAgentUrl),
        "wss://"@ + hostname_of(options, events) + ":7780"@,
    )
}

/// The listener address.
pub open spec fn listen_of(options: Options, events: Seq<Event>) -> Seq<char> {
    settled(options.listen, answer(options, events, Phase::AskListen), "0.0.0.0:7780"@)
}

/// The Dashboard URL is settled at this phase.
pub open spec fn past_dashboard(phase: Phase) -> bool {
    !(phase is AskDashboard) && !(phase is Failed)
}

/// The host name is settled at this phase.
pub open spec fn past_hostname(phase: Phase) -> bool {
    past_dashboard(phase) && !(phase is ReadHostname)
}

/// The display name is settled at this phase.
pub open spec fn past_display_name(phase: Phase) -> bool {
    past_hostname(phase) && !(phase is AskDisplayName)
}

/// The agent URL is settled at this phase.
pub open spec fn past_agent_url(phase: Phase) -> bool {
    past_display_name(phase) && !(phase is AskAgentUrl)
}

/// The listener address is settled at this phase.
pub open spec fn past_listen(phase: Phase) -> bool {
    past_agent_url(phase) && !(phase is AskListen)
}

spec fn settings_known(options: Options, events: Seq<Event>, p: Progress) -> bool {
    let phase = p.phase;
    &&& past_dashboard(phase) ==> {
        &&& was_asked(options.dashboard_url, answer(options, events, Phase::AskDashboard))
        &&& p.dashboard_url == dashboard_of(options, events)
        &&& p.dashboard_url.len() > 0
        &&& p.verification_url == verification_of(options, events)
    }
    &&& past_hostname(phase) ==> {
        &&& options.hostname is None ==> {
            &&& answer(options, events, Phase::ReadHostname) matches Some(event)
            &&& event is Hostname
        }
        &&& p.hostname == hostname_of(options, events)
    }
    &&& past_display_name(phase) ==> {
        &&& was_asked(options.display_name, answer(options, events, Phase::AskDisplayName))
        &&& p.display_name == display_name_of(options, events)
    }
    &&& past_agent_url(phase) ==> {
        &&& was_asked(options.agent_url, answer(options, events, Phase::AskAgentUrl))
        &&& p.agent_url == agent_url_of(options, events)
    }
    &&& past_listen(phase) ==> {
        &&& was_asked(options.listen, answer(options, events, Phase::AskListen))
        &&& p.listen == listen_of(options, events)
    }
}

proof fn lemma_answer_text(reply: Option<String>, default: Seq<char>)
    ensures
        settings::answer_text(settings::line_view(reply), default) == settled(
            None,
            Some(Event::Reply(reply)),
            default,
        ),
{
    if let Some(line) = reply {
        text::law_blank(line@);
    }
}

proof fn lemma_answers_kept(options: Options, events: Seq<Event>, phase: Phase)
    requires
        events.len() > 0,
        reached(options, events.drop_last()).phase != phase || !is_answer(phase, events.last()),
    ensures
        answer(options, events, phase) == answer(options, events.drop_last(), phase),
{
}

#[verifier::spinoff_prover]
#[verifier::rlimit(40)]
proof fn lemma_settings_step(options: Options, events: Seq<Event>)
    requires
        events.len() > 0,
        settings_known(
            options,
            events.drop_last(),
            reached(options, events.drop_last()),
        ),
        reached(options, events.drop_last()).options == options,
    ensures
        settings_known(options, events, reached(options, events)),
{
    let init = events.drop_last();
    let before = reached(options, init);
    let event = events.last();
    let now = reached(options, events);
    super::laws::law_enrollment_is_sound(options, init);
    if !(before.phase is AskDashboard) {
        lemma_answers_kept(options, events, Phase::AskDashboard);
    }
    if !(before.phase is ReadHostname) {
        lemma_answers_kept(options, events, Phase::ReadHostname);
    }
    if !(before.phase is AskDisplayName) {
        lemma_answers_kept(options, events, Phase::AskDisplayName);
    }
    if !(before.phase is AskAgentUrl) {
        lemma_answers_kept(options, events, Phase::AskAgentUrl);
    }
    if !(before.phase is AskListen) {
        lemma_answers_kept(options, events, Phase::AskListen);
    }
    if let Event::Reply(reply) = event {
        lemma_answer_text(reply, "http://127.0.0.1:3000"@);
        lemma_answer_text(reply, before.hostname);
        lemma_answer_text(reply, settings::proposed_agent_url(before.hostname));
        lemma_answer_text(reply, "0.0.0.0:7780"@);
    }
    if !is_settling(before.phase) {
        assert(now.dashboard_url == before.dashboard_url);
        assert(now.verification_url == before.verification_url);
        assert(now.hostname == before.hostname);
        assert(now.display_name == before.display_name);
        assert(now.agent_url == before.agent_url);
        assert(now.listen == before.listen);
    }
}

proof fn lemma_settings_known(options: Options, events: Seq<Event>)
    ensures
        settings_known(options, events, reached(options, events)),
    decreases events.len(),
{
    if events.len() > 0 {
        lemma_settings_known(options, events.drop_last());
        law_options_stay(options, events.drop_last());
        lemma_settings_step(options, events);
    }
}

/// Whatever the operator is asked for, they are asked with the default that a blank line stands
/// for, and only for what they did not choose before.
pub proof fn law_questions(options: Options, events: Seq<Event>)
    ensures
        ({
            let p = reached(options, events);
            &&& p.phase is AskDashboard ==> options.dashboard_url is None && task(p) == (Task::Ask {
                label: "Dashboard URL"@,
                default: "http://127.0.0.1:3000"@,
            })
            &&& p.phase is ReadHostname ==> options.hostname is None && task(p) is ReadHostname
            &&& p.phase is AskDisplayName ==> options.display_name is None && task(p) == (
            Task::Ask { label: "Host display name"@, default: hostname_of(options, events) })
            &&& p.phase is AskAgentUrl ==> options.agent_url is None && task(p) == (Task::Ask {
                label: "Tetra WebSocket URL"@,
                default: "wss://"@ + hostname_of(options, events) + ":7780"@,
            })
            &&& p.phase is AskListen ==> options.listen is None && task(p) == (Task::Ask {
                label: "Tetra listener address"@,
                default: "0.0.0.0:7780"@,
            })
        }),
{
    lemma_settings_known(options, events);
    law_options_stay(options, events);
    super::laws::law_enrollment_is_sound(options, events);
}

/// The listener address that is checked is the one that the operator chose or answered, and the
/// host and the Dashboard are touched only if it is a socket address and the agent URL is in
/// order.
pub proof fn law_listener_is_checked(options: Options, events: Seq<Event>)
    ensures
        ({
            let p = reached(options, events);
            &&& p.phase is CheckListen ==> task(p) == (Task::CheckListen {
                listen: listen_of(options, events),
            })
            &&& !is_settling(p.phase) && !(p.phase is Failed) ==> {
                &&& answer(options, events, Phase::CheckListen) == Some(Event::ListenParses(true))
                &&& "wss://"@.is_prefix_of(agent_url_of(options, events)) || ("ws://"@.is_prefix_of(
                    agent_url_of(options, events),
                ) && options.insecure)
            }
        }),
    decreases events.len(),
{
    lemma_settings_known(options, events);
    law_options_stay(options, events);
    super::laws::law_enrollment_is_sound(options, events);
    if events.len() > 0 {
        law_listener_is_checked(options, events.drop_last());
        if !(reached(options, events.drop_last()).phase is CheckListen) {
            lemma_answers_kept(options, events, Phase::CheckListen);
        }
    }
}

// ---- what the host tells ----

/// The identity of the host is known at this phase.
pub open spec fn past_identity(phase: Phase) -> bool {
    !is_settling(phase) && !(phase is Failed) && !(phase is LoadIdentity)
}

/// The paths of the files are known at this phase.
pub open spec fn past_files(phase: Phase) -> bool {
    past_identity(phase) && !(phase is CreateConfigDir) && !(phase is LocateFiles)
}

/// The certificate is known at this phase.
pub open spec fn past_certificate(phase: Phase) -> bool {
    phase is OpenClient || phase is Register || is_opened(phase)
}

spec fn host_known(options: Options, events: Seq<Event>, p: Progress) -> bool {
    &&& past_identity(p.phase) ==> {
        &&& answer(options, events, Phase::LoadIdentity) matches Some(
            Event::Identity { public_key, path, fingerprint },
        )
        &&& p.host_public_key == host::url_safe_base64(public_key@)
        &&& p.identity_path == path@
        &&& p.fingerprint == fingerprint@
    }
    &&& past_files(p.phase) ==> {
        &&& answer(options, events, Phase::LocateFiles) matches Some(
            Event::FilesAt { key_path, certificate_path, record_path, environment_path },
        )
        &&& p.key_path == key_path@
        &&& p.certificate_path == certificate_path@
        &&& p.record_path == record_path@
        &&& p.environment_path == environment_path@
    }
    &&& past_certificate(p.phase) ==> {
        &&& answer(options, events, Phase::ReadCertificate) matches Some(Event::Certificate(pem))
        &&& p.certificate == pem@
    }
}

#[verifier::spinoff_prover]
#[verifier::rlimit(40)]
proof fn lemma_host_known(options: Options, events: Seq<Event>)
    ensures
        host_known(options, events, reached(options, events)),
    decreases events.len(),
{
    if events.len() > 0 {
        lemma_host_known(options, events.drop_last());
        let before = reached(options, events.drop_last());
        if !(before.phase is LoadIdentity) {
            lemma_answers_kept(options, events, Phase::LoadIdentity);
        }
        if !(before.phase is LocateFiles) {
            lemma_answers_kept(options, events, Phase::LocateFiles);
        }
        if !(before.phase is ReadCertificate) {
            lemma_answers_kept(options, events, Phase::ReadCertificate);
        }
    }
}

/// The directories that are used are those of the options, and the files in them have the names
/// that the service knows them by.
pub proof fn law_places(options: Options, events: Seq<Event>)
    ensures
        ({
            let p = reached(options, events);
            &&& p.phase is LoadIdentity ==> task(p) == (Task::LoadIdentity {
                identity_dir: options.identity_dir@,
            })
            &&& p.phase is CreateConfigDir ==> task(p) == (Task::CreateDirectory {
                path: options.config_dir@,
            })
            &&& p.phase is LocateFiles ==> task(p) == (Task::LocateFiles {
                dir: options.config_dir@,
                key: "tetra.key"@,
                certificate: "tetra.crt"@,
                record: "enrollment.json"@,
                environment: "enrollment.env"@,
            })
        }),
{
    law_options_stay(options, events);
}

/// The TLS material is looked for, made and read where the host says that it is, for the name of
/// the host.
pub proof fn law_tls_material(options: Options, events: Seq<Event>)
    requires
        reached(options, events).phase is ProbeTls || reached(options, events).phase is GenerateTls
            || reached(options, events).phase is ReadCertificate,
    ensures
        answer(options, events, Phase::LocateFiles) matches Some(
            Event::FilesAt { key_path, certificate_path, .. },
        ) && match task(reached(options, events)) {
            Task::ProbeTls { key, certificate } => key == key_path@ && certificate
                == certificate_path@,
            Task::RunOpenssl { arguments } => arguments == host::openssl_line(
                hostname_of(options, events),
                key_path@,
                certificate_path@,
            ),
            Task::ReadCertificate { path } => path == certificate_path@,
            _ => false,
        },
{
    lemma_host_known(options, events);
    lemma_settings_known(options, events);
}

/// The operator is told where the identity of the host is, its fingerprint and where its
/// certificate is.
pub proof fn law_host_is_announced(options: Options, events: Seq<Event>)
    requires
        reached(options, events).phase is AnnounceHost,
    ensures
        answer(options, events, Phase::LoadIdentity) matches Some(
            Event::Identity { path, fingerprint, .. },
        ) && answer(options, events, Phase::LocateFiles) matches Some(
            Event::FilesAt { certificate_path, .. },
        ) && task(reached(options, events)) matches Task::Print { lines } && lines.len() == 3
            && lines[0] == "Host identity: "@ + path@ && lines[1] == "Host fingerprint: "@
            + fingerprint@ && lines[2] == "TLS certificate: "@ + certificate_path@,
{
    lemma_host_known(options, events);
}

/// The Dashboard is told the names and the agent URL that were settled, the public key that the
/// host has, and the certificate that was read.
pub proof fn law_registration(options: Options, events: Seq<Event>)
    requires
        reached(options, events).phase is Register,
    ensures
        answer(options, events, Phase::LoadIdentity) matches Some(
            Event::Identity { public_key, .. },
        ) && answer(options, events, Phase::ReadCertificate) matches Some(Event::Certificate(pem))
            && task(reached(options, events)) == (Task::Register {
            url: dashboard_of(options, events) + "/api/tetra/device"@,
            display_name: display_name_of(options, events),
            hostname: hostname_of(options, events),
            agent_url: agent_url_of(options, events),
            host_public_key: host::url_safe_base64(public_key@),
            tls_ca_certificate: pem@,
        }),
{
    lemma_host_known(options, events);
    lemma_settings_known(options, events);
}

/// The public key that the Dashboard is told reads back to the key of the host, byte by byte.
pub proof fn law_registered_key_is_that_of_the_host(options: Options, events: Seq<Event>)
    requires
        reached(options, events).phase is Register,
    ensures
        answer(options, events, Phase::LoadIdentity) matches Some(
            Event::Identity { public_key, .. },
        ) && task(reached(options, events)) matches Task::Register { host_public_key, .. }
            && host_public_key.len() == 43 && forall|k: int|
            0 <= k < 32 ==> host::byte_read(host_public_key, k) == #[trigger] public_key@[k],
{
    law_registration(options, events);
    if let Some(Event::Identity { public_key, .. }) = answer(
        options,
        events,
        Phase::LoadIdentity,
    ) {
        assert forall|k: int| 0 <= k < 32 implies host::byte_read(
            host::url_safe_base64(public_key@),
            k,
        ) == #[trigger] public_key@[k] by {
            host::law_public_key_reads_back(public_key@, k);
        }
    }
}

// ---- what the Dashboard tells ----

spec fn device_known(options: Options, events: Seq<Event>, p: Progress) -> bool {
    &&& is_opened(p.phase) ==> {
        &&& answer(options, events, Phase::Register) matches Some(Event::Registered(device))
        &&& p.device_code == device.device_code@
        &&& p.user_code == device.user_code@
        &&& p.expires_in == device.expires_in
        &&& p.interval == device.interval
    }
    &&& p.phase is ReadClock || p.phase is Pause ==> {
        &&& answer(options, events, Phase::Poll) matches Some(Event::Polled(response))
        &&& response.status@ == "authorization_pending"@
    }
    &&& is_storing(p.phase) ==> {
        &&& answer(options, events, Phase::Poll) matches Some(Event::Polled(response))
        &&& response.status@ == "approved"@
        &&& response.controller_public_key matches Some(key)
        &&& p.controller_key == key@
    }
}

#[verifier::spinoff_prover]
#[verifier::rlimit(40)]
proof fn lemma_device_known(options: Options, events: Seq<Event>)
    ensures
        device_known(options, events, reached(options, events)),
    decreases events.len(),
{
    if events.len() > 0 {
        lemma_device_known(options, events.drop_last());
        let before = reached(options, events.drop_last());
        if !(before.phase is Register) {
            lemma_answers_kept(options, events, Phase::Register);
        }
        if !(before.phase is Poll) {
            lemma_answers_kept(options, events, Phase::Poll);
        }
        if let Event::Polled(response) = events.last() {
            dashboard::law_verdicts(response);
        }
    }
}

/// The operator is told the approval page and the code that the Dashboard gave, and the details
/// that are written where they are wanted are the same.
pub proof fn law_approval_is_announced(options: Options, events: Seq<Event>)
    requires
        reached(options, events).phase is AnnounceCode || reached(
            options,
            events,
        ).phase is WriteApproval,
    ensures
        answer(options, events, Phase::Register) matches Some(Event::Registered(device)) && match task(
            reached(options, events),
        ) {
            Task::Print { lines } => lines.len() == 4 && lines[1] == "Open "@
                + text::without_trailing_slashes(verification_of(options, events))
                + "/tetra/device"@ + "?code="@ + device.user_code@ && lines[2]
                == "Enter enrollment code: "@ + device.user_code@,
            Task::WriteApproval { contents } => options.approval_file is Some && contents
                == json::pretty(
                map![
                    "verification_uri"@ => Scalar::Text(
                        text::without_trailing_slashes(verification_of(options, events))
                            + "/tetra/device"@,
                    ),
                    "user_code"@ => Scalar::Text(device.user_code@),
                    "expires_in"@ => Scalar::Count(device.expires_in),
                ],
            ),
            _ => false,
        },
    decreases events.len(),
{
    lemma_device_known(options, events);
    lemma_settings_known(options, events);
    law_options_stay(options, events);
    let p = reached(options, events);
    let page = text::without_trailing_slashes(p.verification_url) + "/tetra/device"@;
    assert("Open "@ + page + "?code="@ + p.user_code =~= "Open "@ + text::without_trailing_slashes(
        p.verification_url,
    ) + "/tetra/device"@ + "?code="@ + p.user_code);
    if p.phase is WriteApproval && events.len() > 0 && reached(
        options,
        events.drop_last(),
    ).phase is WriteApproval {
        law_approval_is_announced(options, events.drop_last());
    }
}

/// Approval is waited for as long as the Dashboard said when it opened the enrollment.
pub proof fn law_deadline(options: Options, events: Seq<Event>)
    requires
        reached(options, events).phase is SetDeadline,
    ensures
        answer(options, events, Phase::Register) matches Some(Event::Registered(device)) && task(
            reached(options, events),
        ) == (Task::SetDeadline { seconds: device.expires_in }),
{
    lemma_device_known(options, events);
}

/// The status is asked for with the device code that the Dashboard gave and nothing else, again
/// only while it is pending, and after the interval that the Dashboard gave, or a second where
/// that is none.
pub proof fn law_polling(options: Options, events: Seq<Event>)
    ensures
        ({
            let p = reached(options, events);
            &&& p.phase is Poll ==> {
                &&& answer(options, events, Phase::Register) matches Some(Event::Registered(device))
                &&& task(p) matches Task::Poll { url, body }
                &&& url == dashboard_of(options, events) + "/api/tetra/device"@
                &&& body =~= map!["device_code"@ => Scalar::Text(device.device_code@)]
            }
            &&& p.phase is ReadClock ==> {
                &&& task(p) is ReadClock
                &&& answer(options, events, Phase::Poll) matches Some(Event::Polled(response))
                &&& response.status@ == "authorization_pending"@
            }
            &&& p.phase is Pause ==> {
                &&& answer(options, events, Phase::Register) matches Some(Event::Registered(device))
                &&& task(p) matches Task::Pause { seconds }
                &&& seconds >= 1
                &&& device.interval > 0 ==> seconds == device.interval
                &&& device.interval == 0 ==> seconds == 1
            }
        }),
{
    lemma_device_known(options, events);
    lemma_settings_known(options, events);
}

/// The controller key that is stored is the one that came with the approval.
pub proof fn law_stored_key(options: Options, events: Seq<Event>)
    requires
        reached(options, events).phase is StoreKey,
    ensures
        ({
            &&& answer(options, events, Phase::Poll) matches Some(Event::Polled(response))
            &&& response.status@ == "approved"@
            &&& response.controller_public_key matches Some(key)
            &&& task(reached(options, events)) == (Task::StoreKey { key: key@ })
        }),
{
    lemma_device_known(options, events);
}

/// The enrollment record says which agent URL was settled, where the TLS material is and where
/// the identity is, and is written where the host says that it goes.
pub proof fn law_record(options: Options, events: Seq<Event>)
    requires
        reached(options, events).phase is WriteRecord,
    ensures
        answer(options, events, Phase::LocateFiles) matches Some(
            Event::FilesAt { key_path, certificate_path, record_path, .. },
        ) && task(reached(options, events)) == (Task::WriteFile {
            path: record_path@,
            contents: json::pretty(
                map![
                    "agent_url"@ => Scalar::Text(agent_url_of(options, events)),
                    "tls_cert"@ => Scalar::Text(certificate_path@),
                    "tls_key"@ => Scalar::Text(key_path@),
                    "identity_dir"@ => Scalar::Text(options.identity_dir@),
                ],
            ),
        }),
{
    lemma_host_known(options, events);
    lemma_settings_known(options, events);
    law_options_stay(options, events);
}

/// The environment file names exactly the listener address that was found to be in order, and
/// is written where the host says that it goes.
pub proof fn law_environment(options: Options, events: Seq<Event>)
    requires
        reached(options, events).phase is WriteEnvironment,
    ensures
        answer(options, events, Phase::CheckListen) == Some(Event::ListenParses(true)),
        answer(options, events, Phase::LocateFiles) matches Some(
            Event::FilesAt { environment_path, .. },
        ) && exists|contents: Seq<char>| #[trigger]
            text::is_wrapped(
                contents,
                "TETRA_LISTEN="@,
                listen_of(options, events),
                seq!['\n'],
            ) && task(reached(options, events)) == (Task::WriteFile {
                path: environment_path@,
                contents: vstd::utf8::encode_utf8(contents),
            }),
{
    lemma_host_known(options, events);
    lemma_settings_known(options, events);
    law_listener_is_checked(options, events);
    host::law_environment_reads_back(listen_of(options, events));
}

/// An enrollment ends by enabling the service, and tells the operator where the controller key
/// was saved.
pub proof fn law_closing(options: Options, events: Seq<Event>)
    ensures
        ({
            let p = reached(options, events);
            &&& p.phase is EnableService ==> task(p) == (Task::RunSystemctl {
                arguments: seq!["enable"@, "--now"@, "tetra.service"@],
            })
            &&& p.phase is Enrolled ==> task(p) == (Task::Finish {
                lines: seq![
                    "Enrollment approved. Controller key saved under "@ + options.identity_dir@
                        + "."@,
                    "Enabled and started tetra.service."@,
                ],
            })
            &&& p.phase is OpenClient ==> task(p) == (Task::OpenClient {
                accept_invalid_certificates: options.insecure,
            })
            &&& p.phase matches Phase::Failed(error) ==> task(p) == (Task::Fail { error })
        }),
{
    law_options_stay(options, events);
}

// ---- how one step leads to the next ----

/// The first thing that is still to be settled with these options, from the host name (1) to
/// the listener address (4) on; the check of the addresses if there is nothing.
pub open spec fn next_question(options: Options, from: int) -> Phase {
    if from <= 1 && options.hostname is None {
        Phase::ReadHostname
    } else if from <= 2 && options.display_name is None {
        Phase::AskDisplayName
    } else if from <= 3 && options.agent_url is None {
        Phase::AskAgentUrl
    } else if from <= 4 && options.listen is None {
        Phase::AskListen
    } else {
        Phase::CheckListen
    }
}

/// An enrollment begins with the first question that the options leave open, and fails at once
/// only if they give a Dashboard URL of which nothing is left.
pub proof fn law_beginning(options: Options)
    ensures
        match options.dashboard_url {
            None => beginning(options).phase is AskDashboard,
            Some(url) => if settings::base_url(url@).len() == 0 {
                beginning(options).phase == Phase::Failed(EnrollError::EmptyDashboardUrl)
            } else {
                beginning(options).phase == next_question(options, 1)
            },
        },
{
}

/// While the addresses are being settled, each answer leads to the next question that the
/// options leave open, and then to the check of the addresses. Only a Dashboard URL of which
/// nothing is left ends the enrollment.
pub proof fn law_questions_lead_on(p: Progress, event: Event)
    requires
        is_answer(p.phase, event),
        is_settling(p.phase),
        !(p.phase is CheckListen),
    ensures
        match p.phase {
            Phase::AskDashboard => {
                let url = settings::base_url(
                    settled(None, Some(event), "http://127.0.0.1:3000"@),
                );
                after(p, event).phase == if url.len() == 0 {
                    Phase::Failed(EnrollError::EmptyDashboardUrl)
                } else {
                    next_question(p.options, 1)
                }
            },
            Phase::ReadHostname => after(p, event).phase == next_question(p.options, 2),
            Phase::AskDisplayName => after(p, event).phase == next_question(p.options, 3),
            Phase::AskAgentUrl => after(p, event).phase == next_question(p.options, 4),
            _ => after(p, event).phase is CheckListen,
        },
{
    if let Event::Reply(reply) = event {
        lemma_answer_text(reply, "http://127.0.0.1:3000"@);
    }
}

/// Once the addresses are settled, each answer leads to the next step, or ends the enrollment
/// with the error that tells what went wrong.
pub proof fn law_steps_lead_on(p: Progress, event: Event)
    requires
        is_answer(p.phase, event),
        !is_settling(p.phase) || p.phase is CheckListen,
    ensures
        ({
            let next = after(p, event).phase;
            match event {
                Event::ListenParses(parses) => {
                    let plain = "ws://"@.is_prefix_of(p.agent_url);
                    let secure = "wss://"@.is_prefix_of(p.agent_url);
                    if !parses {
                        next == Phase::Failed(EnrollError::ListenFormat)
                    } else if !plain && !secure {
                        next == Phase::Failed(EnrollError::AgentUrlScheme)
                    } else if plain && !p.options.insecure {
                        next == Phase::Failed(EnrollError::PlaintextAgentUrl)
                    } else {
                        next is LoadIdentity
                    }
                },
                Event::Identity { .. } => next is CreateConfigDir,
                Event::FilesAt { .. } => next is ProbeTls,
                Event::TlsFound { key, certificate } => if key && certificate {
                    next is AnnounceHost
                } else {
                    next is GenerateTls
                },
                Event::Certificate(_) => next is OpenClient,
                Event::Registered(_) => if p.options.approval_file is Some {
                    next is WriteApproval
                } else {
                    next is AnnounceCode
                },
                Event::Refused { status, body } => next == Phase::Failed(
                    EnrollError::Refused { status, body },
                ),
                Event::DeadlineSet(possible) => if possible {
                    next is Poll
                } else {
                    next == Phase::Failed(EnrollError::ExpiryOutOfRange)
                },
                Event::Polled(response) => if response.status@ == "authorization_pending"@ {
                    next is ReadClock
                } else if response.status@ == "approved"@ {
                    if response.controller_public_key is Some {
                        next is StoreKey
                    } else {
                        next == Phase::Failed(EnrollError::MissingControllerKey)
                    }
                } else if response.status@ == "access_denied"@ {
                    next == Phase::Failed(EnrollError::Denied)
                } else if response.status@ == "expired_token"@ {
                    next == Phase::Failed(EnrollError::Expired)
                } else {
                    next matches Phase::Failed(EnrollError::UnknownStatus(word)) && word@
                        == response.status@
                },
                Event::Clock { expired } => if expired {
                    next == Phase::Failed(EnrollError::Expired)
                } else {
                    next is Pause
                },
                Event::Exit { success } => if p.phase is GenerateTls {
                    if success {
                        next is AnnounceHost
                    } else {
                        next == Phase::Failed(EnrollError::OpensslFailed)
                    }
                } else {
                    if success {
                        next is Enrolled
                    } else {
                        next == Phase::Failed(EnrollError::ServiceFailed)
                    }
                },
                Event::Done => match p.phase {
                    Phase::CreateConfigDir => next is LocateFiles,
                    Phase::AnnounceHost => next is ReadCertificate,
                    Phase::OpenClient => next is Register,
                    Phase::WriteApproval => next is AnnounceCode,
                    Phase::AnnounceCode => next is SetDeadline,
                    Phase::Pause => next is Poll,
                    Phase::StoreKey => next is WriteRecord,
                    Phase::WriteRecord => next is WriteEnvironment,
                    _ => if p.options.skip_service {
                        next is Enrolled
                    } else {
                        next is EnableService
                    },
                },
                _ => false,
            }
        }),
{
}

/// What an action is seen as holds exactly what the action holds.
pub proof fn law_actions_are_seen_as_they_are(action: Action)
    ensures
        match action@ {
            Task::Ask { label, default } => action matches Action::Ask { question }
                && question.label@ == label && question.default@ == default,
            Task::ReadHostname => action is ReadHostname,
            Task::CheckListen { listen } => action matches Action::CheckListen { listen: it } && it@
                == listen,
            Task::LoadIdentity { identity_dir } => action matches Action::LoadIdentity {
                identity_dir: it,
            } && it@ == identity_dir,
            Task::CreateDirectory { path } => action matches Action::CreateDirectory { path: it }
                && it@ == path,
            Task::LocateFiles { dir, key, certificate, record, environment } =>
                action matches Action::LocateFiles {
                    dir: d,
                    key: k,
                    certificate: c,
                    record: r,
                    environment: e,
                } && d@ == dir && k@ == key && c@ == certificate && r@ == record && e@
                    == environment,
            Task::ProbeTls { key, certificate } => action matches Action::ProbeTls {
                key: k,
                certificate: c,
            } && k@ == key && c@ == certificate,
            Task::RunOpenssl { arguments } => action matches Action::RunOpenssl { arguments: it }
                && it.deep_view() == arguments,
            Task::Print { lines } => action matches Action::Print { lines: it } && it.deep_view()
                == lines,
            Task::ReadCertificate { path } => action matches Action::ReadCertificate { path: it }
                && it@ == path,
            Task::OpenClient { accept_invalid_certificates } =>
                action matches Action::OpenClient { accept_invalid_certificates: it } && it
                    == accept_invalid_certificates,
            Task::Register {
                url,
                display_name,
                hostname,
                agent_url,
                host_public_key,
                tls_ca_certificate,
            } => action matches Action::Register { url: u, request } && u@ == url
                && request.display_name@ == display_name && request.hostname@ == hostname
                && request.agent_url@ == agent_url && request.host_public_key@ == host_public_key
                && request.tls_ca_certificate@ == tls_ca_certificate,
            Task::WriteApproval { contents } => action matches Action::WriteApproval {
                contents: it,
            } && it@ == contents,
            Task::SetDeadline { seconds } => action == (Action::SetDeadline { seconds }),
            Task::Poll { url, body } => action matches Action::Poll { url: u, body: b } && u@ == url
                && json::fields(b) == body,
            Task::ReadClock => action is ReadClock,
            Task::Pause { seconds } => action == (Action::Pause { seconds }),
            Task::StoreKey { key } => action matches Action::StoreKey { key: it } && it@ == key,
            Task::WriteFile { path, contents } => action matches Action::WriteFile {
                path: p,
                contents: c,
            } && p@ == path && c@ == contents,
            Task::RunSystemctl { arguments } => action matches Action::RunSystemctl {
                arguments: it,
            } && it.deep_view() == arguments,
            Task::Finish { lines } => action matches Action::Finish { lines: it } && it.deep_view()
                == lines,
            Task::Fail { error } => action == (Action::Fail { error }),
        },
{
}

} // verus!
