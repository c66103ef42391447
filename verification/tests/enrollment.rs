use std::path::PathBuf;
use tetra::enrollment::dashboard::{
    approval_document, approval_lines, approval_page, device_endpoint, is_success, judge,
    pause_seconds, poll_request, CreateResponse, PollResponse, Verdict,
};
use tetra::enrollment::flow::{Action, Event};
use tetra::enrollment::host::{
    enrollment_record, environment_file, openssl_arguments, public_key_text, service_arguments,
};
use tetra::enrollment::machine::Enrollment;
use tetra::enrollment::settings::{
    check_settings, dashboard_base_url, default_agent_url, prompt, Question,
};
use tetra::enrollment::{EnrollError, Options};

fn nothing_chosen() -> Options {
    Options {
        dashboard_url: None,
        agent_url: None,
        listen: None,
        display_name: None,
        approval_file: None,
        verification_url: None,
        identity_dir: "/var/lib/tetra/identity".into(),
        config_dir: "/etc/tetra".into(),
        hostname: None,
        insecure: false,
        skip_service: false,
    }
}

fn everything_chosen() -> Options {
    Options {
        dashboard_url: Some(" https://dashboard.example.com// ".into()),
        agent_url: Some("wss://host.example.com:9443".into()),
        listen: Some("0.0.0.0:9443".into()),
        display_name: Some("host-01".into()),
        hostname: Some("host".into()),
        ..nothing_chosen()
    }
}

fn device() -> CreateResponse {
    CreateResponse {
        device_code: "dev-1".into(),
        user_code: "ABCD-EFGH".into(),
        expires_in: 600,
        interval: 0,
    }
}

fn polled(status: &str, key: Option<&str>) -> Event {
    Event::Polled(PollResponse {
        status: status.into(),
        controller_public_key: key.map(str::to_string),
    })
}

fn identity() -> Event {
    Event::Identity {
        public_key: [0; 32],
        path: "/var/lib/tetra/identity/host.key".into(),
        fingerprint: "SHA256:x".into(),
    }
}

fn files() -> Event {
    Event::FilesAt {
        key_path: "/etc/tetra/tetra.key".into(),
        certificate_path: "/etc/tetra/tetra.crt".into(),
        record_path: "/etc/tetra/enrollment.json".into(),
        environment_path: "/etc/tetra/enrollment.env".into(),
    }
}

fn drive(machine: &mut Enrollment, events: Vec<Event>) {
    for event in events {
        machine.advance(event);
    }
}

fn at_poll(options: Options) -> Enrollment {
    let mut machine = Enrollment::start(options);
    drive(
        &mut machine,
        vec![
            Event::ListenParses(true),
            identity(),
            Event::Done,
            files(),
            Event::TlsFound { key: true, certificate: true },
            Event::Done,
            Event::Certificate("PEM".into()),
            Event::Done,
            Event::Registered(device()),
            Event::Done,
            Event::DeadlineSet(true),
        ],
    );
    machine
}

fn failure(machine: &Enrollment) -> String {
    match machine.action() {
        Action::Fail { error } => error.message(),
        other => panic!("{other:?}"),
    }
}

fn question(machine: &Enrollment) -> String {
    match machine.action() {
        Action::Ask { question } => question.text(),
        other => panic!("{other:?}"),
    }
}

#[test]
fn asks_for_what_was_not_chosen() {
    let mut machine = Enrollment::start(nothing_chosen());
    assert_eq!(question(&machine), "Dashboard URL [http://127.0.0.1:3000]: ");
    machine.advance(Event::Reply(Some("\n".into())));
    assert!(matches!(machine.action(), Action::ReadHostname));
    machine.advance(Event::Hostname(None));
    assert_eq!(question(&machine), "Host display name [tetra-host]: ");
    machine.advance(Event::Reply(None));
    assert_eq!(question(&machine), "Tetra WebSocket URL [wss://tetra-host:7780]: ");
    machine.advance(Event::Reply(Some(" ws://a \n".into())));
    assert_eq!(question(&machine), "Tetra listener address [0.0.0.0:7780]: ");
    machine.advance(Event::Reply(Some("".into())));
    match machine.action() {
        Action::CheckListen { listen } => assert_eq!(listen, "0.0.0.0:7780"),
        other => panic!("{other:?}"),
    }
    machine.advance(Event::ListenParses(true));
    assert_eq!(
        failure(&machine),
        "agent URL uses plaintext ws://; pass --insecure only for local development"
    );
}

#[test]
fn hostname_comes_from_the_environment() {
    let mut machine = Enrollment::start(Options { hostname: None, ..everything_chosen() });
    assert!(matches!(machine.action(), Action::ReadHostname));
    machine.advance(Event::Hostname(Some("box".into())));
    drive(
        &mut machine,
        vec![
            Event::ListenParses(true),
            identity(),
            Event::Done,
            files(),
            Event::TlsFound { key: true, certificate: false },
        ],
    );
    match machine.action() {
        Action::RunOpenssl { arguments } => assert!(arguments.contains(&"/CN=box".to_string())),
        other => panic!("{other:?}"),
    }
}

#[test]
fn enrolls_step_by_step() {
    let mut machine = Enrollment::start(everything_chosen());
    match machine.action() {
        Action::CheckListen { listen } => assert_eq!(listen, "0.0.0.0:9443"),
        other => panic!("{other:?}"),
    }
    machine.advance(Event::ListenParses(true));
    match machine.action() {
        Action::LoadIdentity { identity_dir } => assert_eq!(identity_dir, "/var/lib/tetra/identity"),
        other => panic!("{other:?}"),
    }
    machine.advance(identity());
    match machine.action() {
        Action::CreateDirectory { path } => assert_eq!(path, "/etc/tetra"),
        other => panic!("{other:?}"),
    }
    machine.advance(Event::Done);
    match machine.action() {
        Action::LocateFiles { dir, key, certificate, record, environment } => {
            assert_eq!(dir, "/etc/tetra");
            assert_eq!(key, "tetra.key");
            assert_eq!(certificate, "tetra.crt");
            assert_eq!(record, "enrollment.json");
            assert_eq!(environment, "enrollment.env");
        }
        other => panic!("{other:?}"),
    }
    machine.advance(files());
    match machine.action() {
        Action::ProbeTls { key, certificate } => {
            assert_eq!(key, "/etc/tetra/tetra.key");
            assert_eq!(certificate, "/etc/tetra/tetra.crt");
        }
        other => panic!("{other:?}"),
    }
    machine.advance(Event::TlsFound { key: false, certificate: true });
    match machine.action() {
        Action::RunOpenssl { arguments } => assert_eq!(
            arguments,
            openssl_arguments("host", "/etc/tetra/tetra.key", "/etc/tetra/tetra.crt")
        ),
        other => panic!("{other:?}"),
    }
    machine.advance(Event::Exit { success: true });
    match machine.action() {
        Action::Print { lines } => assert_eq!(
            lines,
            [
                "Host identity: /var/lib/tetra/identity/host.key",
                "Host fingerprint: SHA256:x",
                "TLS certificate: /etc/tetra/tetra.crt",
            ]
        ),
        other => panic!("{other:?}"),
    }
    machine.advance(Event::Done);
    match machine.action() {
        Action::ReadCertificate { path } => assert_eq!(path, "/etc/tetra/tetra.crt"),
        other => panic!("{other:?}"),
    }
    machine.advance(Event::Certificate("PEM".into()));
    assert!(matches!(
        machine.action(),
        Action::OpenClient { accept_invalid_certificates: false }
    ));
    machine.advance(Event::Done);
    match machine.action() {
        Action::Register { url, request } => {
            assert_eq!(url, "https://dashboard.example.com/api/tetra/device");
            assert_eq!(request.display_name, "host-01");
            assert_eq!(request.hostname, "host");
            assert_eq!(request.agent_url, "wss://host.example.com:9443");
            assert_eq!(request.host_public_key, "A".repeat(43));
            assert_eq!(request.tls_ca_certificate, "PEM");
        }
        other => panic!("{other:?}"),
    }
    machine.advance(Event::Registered(device()));
    match machine.action() {
        Action::Print { lines } => assert_eq!(
            lines,
            [
                "",
                "Open https://dashboard.example.com/tetra/device?code=ABCD-EFGH",
                "Enter enrollment code: ABCD-EFGH",
                "Waiting for Dashboard approval...",
            ]
        ),
        other => panic!("{other:?}"),
    }
    machine.advance(Event::Done);
    assert!(matches!(machine.action(), Action::SetDeadline { seconds: 600 }));
    machine.advance(Event::DeadlineSet(true));
    match machine.action() {
        Action::Poll { url, body } => {
            assert_eq!(url, "https://dashboard.example.com/api/tetra/device");
            assert_eq!(serde_json::to_string(&body).unwrap(), "{\"device_code\":\"dev-1\"}");
        }
        other => panic!("{other:?}"),
    }
    machine.advance(polled("authorization_pending", None));
    assert!(matches!(machine.action(), Action::ReadClock));
    machine.advance(Event::Clock { expired: false });
    assert!(matches!(machine.action(), Action::Pause { seconds: 1 }));
    machine.advance(Event::Done);
    assert!(matches!(machine.action(), Action::Poll { .. }));
    machine.advance(polled("approved", Some("controller-key")));
    match machine.action() {
        Action::StoreKey { key } => assert_eq!(key, "controller-key"),
        other => panic!("{other:?}"),
    }
    machine.advance(Event::Done);
    match machine.action() {
        Action::WriteFile { path, contents } => {
            assert_eq!(path, "/etc/tetra/enrollment.json");
            assert_eq!(
                String::from_utf8(contents).unwrap(),
                "{\n  \"agent_url\": \"wss://host.example.com:9443\",\n  \"identity_dir\": \
                 \"/var/lib/tetra/identity\",\n  \"tls_cert\": \"/etc/tetra/tetra.crt\",\n  \
                 \"tls_key\": \"/etc/tetra/tetra.key\"\n}"
            );
        }
        other => panic!("{other:?}"),
    }
    machine.advance(Event::Done);
    match machine.action() {
        Action::WriteFile { path, contents } => {
            assert_eq!(path, "/etc/tetra/enrollment.env");
            assert_eq!(contents, b"TETRA_LISTEN=0.0.0.0:9443\n");
        }
        other => panic!("{other:?}"),
    }
    machine.advance(Event::Done);
    match machine.action() {
        Action::RunSystemctl { arguments } => {
            assert_eq!(arguments, ["enable", "--now", "tetra.service"]);
        }
        other => panic!("{other:?}"),
    }
    machine.advance(Event::Exit { success: true });
    for _ in 0..2 {
        match machine.action() {
            Action::Finish { lines } => assert_eq!(
                lines,
                [
                    "Enrollment approved. Controller key saved under /var/lib/tetra/identity.",
                    "Enabled and started tetra.service.",
                ]
            ),
            other => panic!("{other:?}"),
        }
        machine.advance(Event::Done);
    }
}

#[test]
fn service_can_be_left_alone() {
    let mut machine = at_poll(Options { skip_service: true, ..everything_chosen() });
    drive(
        &mut machine,
        vec![polled("approved", Some("k")), Event::Done, Event::Done, Event::Done],
    );
    assert!(matches!(machine.action(), Action::Finish { .. }));
}

#[test]
fn approval_details_are_written_where_wanted() {
    let mut machine = Enrollment::start(Options {
        approval_file: Some(PathBuf::from("/tmp/approval.json")),
        verification_url: Some("https://public.example.com/".into()),
        ..everything_chosen()
    });
    drive(
        &mut machine,
        vec![
            Event::ListenParses(true),
            identity(),
            Event::Done,
            files(),
            Event::TlsFound { key: true, certificate: true },
            Event::Done,
            Event::Certificate("PEM".into()),
            Event::Done,
            Event::Registered(device()),
        ],
    );
    match machine.action() {
        Action::WriteApproval { contents } => assert_eq!(
            String::from_utf8(contents).unwrap(),
            "{\n  \"expires_in\": 600,\n  \"user_code\": \"ABCD-EFGH\",\n  \"verification_uri\": \
             \"https://public.example.com/tetra/device\"\n}"
        ),
        other => panic!("{other:?}"),
    }
    machine.advance(Event::Done);
    match machine.action() {
        Action::Print { lines } => assert_eq!(
            lines[1],
            "Open https://public.example.com/tetra/device?code=ABCD-EFGH"
        ),
        other => panic!("{other:?}"),
    }
}

#[test]
fn files_are_used_where_the_host_puts_them() {
    let mut machine = Enrollment::start(everything_chosen());
    drive(
        &mut machine,
        vec![
            Event::ListenParses(true),
            identity(),
            Event::Done,
            Event::FilesAt {
                key_path: "C:\\tetra\\tetra.key".into(),
                certificate_path: "C:\\tetra\\tetra.crt".into(),
                record_path: "C:\\tetra\\enrollment.json".into(),
                environment_path: "C:\\tetra\\enrollment.env".into(),
            },
        ],
    );
    match machine.action() {
        Action::ProbeTls { key, certificate } => {
            assert_eq!(key, "C:\\tetra\\tetra.key");
            assert_eq!(certificate, "C:\\tetra\\tetra.crt");
        }
        other => panic!("{other:?}"),
    }
}

#[test]
fn invalid_certificates_need_permission() {
    for insecure in [false, true] {
        let mut machine = Enrollment::start(Options { insecure, ..everything_chosen() });
        drive(
            &mut machine,
            vec![
                Event::ListenParses(true),
                identity(),
                Event::Done,
                files(),
                Event::TlsFound { key: true, certificate: true },
                Event::Done,
                Event::Certificate("PEM".into()),
            ],
        );
        match machine.action() {
            Action::OpenClient { accept_invalid_certificates } => {
                assert_eq!(accept_invalid_certificates, insecure);
            }
            other => panic!("{other:?}"),
        }
    }
}

#[test]
fn requests_go_to_the_same_place_whatever_surrounds_the_url() {
    for url in ["http://d", "http://d//", " http://d \n", "\thttp://d/ "] {
        let machine =
            at_poll(Options { dashboard_url: Some(url.into()), ..everything_chosen() });
        match machine.action() {
            Action::Poll { url, .. } => assert_eq!(url, "http://d/api/tetra/device"),
            other => panic!("{other:?}"),
        }
    }
}

#[test]
fn host_registers_once() {
    let mut machine = at_poll(everything_chosen());
    let other = CreateResponse { device_code: "dev-2".into(), ..device() };
    machine.advance(Event::Registered(other));
    match machine.action() {
        Action::Poll { body, .. } => assert_eq!(body["device_code"], "dev-1"),
        other => panic!("{other:?}"),
    }
}

#[test]
fn events_that_answer_nothing_change_nothing() {
    let mut machine = at_poll(everything_chosen());
    drive(
        &mut machine,
        vec![
            Event::Done,
            Event::Reply(Some("x".into())),
            Event::Clock { expired: true },
            Event::Exit { success: false },
        ],
    );
    assert!(matches!(machine.action(), Action::Poll { .. }));
}

#[test]
fn each_failure_ends_the_enrollment() {
    let machine =
        Enrollment::start(Options { dashboard_url: Some(" /// ".into()), ..nothing_chosen() });
    assert_eq!(failure(&machine), "Dashboard URL cannot be empty");

    let mut machine = Enrollment::start(everything_chosen());
    machine.advance(Event::ListenParses(false));
    assert_eq!(failure(&machine), "listener address must be in HOST:PORT format");

    let mut machine = Enrollment::start(Options {
        agent_url: Some("https://host".into()),
        ..everything_chosen()
    });
    machine.advance(Event::ListenParses(true));
    assert_eq!(failure(&machine), "agent URL must use ws:// or wss://");

    let mut machine = Enrollment::start(everything_chosen());
    drive(
        &mut machine,
        vec![
            Event::ListenParses(true),
            identity(),
            Event::Done,
            files(),
            Event::TlsFound { key: false, certificate: false },
            Event::Exit { success: false },
        ],
    );
    assert_eq!(failure(&machine), "openssl failed to generate TLS material");

    let mut machine = at_poll(everything_chosen());
    machine.advance(Event::Refused { status: "502 Bad Gateway".into(), body: "down".into() });
    assert_eq!(failure(&machine), "Dashboard request failed with HTTP 502 Bad Gateway: down");

    let mut machine = at_poll(everything_chosen());
    machine.advance(polled("authorization_pending", None));
    machine.advance(Event::Clock { expired: true });
    assert_eq!(failure(&machine), "Dashboard enrollment expired");

    let mut machine = at_poll(everything_chosen());
    machine.advance(polled("expired_token", None));
    assert_eq!(failure(&machine), "Dashboard enrollment expired");

    let mut machine = at_poll(everything_chosen());
    machine.advance(polled("access_denied", Some("k")));
    assert_eq!(failure(&machine), "Dashboard denied the enrollment request");

    let mut machine = at_poll(everything_chosen());
    machine.advance(polled("approved", None));
    assert_eq!(
        failure(&machine),
        "Dashboard approval did not include a controller public key"
    );

    let mut machine = at_poll(everything_chosen());
    machine.advance(polled("maybe", None));
    assert_eq!(
        failure(&machine),
        "Dashboard returned unknown enrollment status `maybe`"
    );
    machine.advance(polled("approved", Some("k")));
    assert_eq!(
        failure(&machine),
        "Dashboard returned unknown enrollment status `maybe`"
    );

    let mut machine = at_poll(everything_chosen());
    drive(
        &mut machine,
        vec![
            polled("approved", Some("k")),
            Event::Done,
            Event::Done,
            Event::Done,
            Event::Exit { success: false },
        ],
    );
    assert_eq!(failure(&machine), "systemctl failed to enable and start tetra.service");
}

#[test]
fn expiry_that_does_not_fit_ends_the_enrollment() {
    let mut machine = Enrollment::start(everything_chosen());
    drive(
        &mut machine,
        vec![
            Event::ListenParses(true),
            identity(),
            Event::Done,
            files(),
            Event::TlsFound { key: true, certificate: true },
            Event::Done,
            Event::Certificate("PEM".into()),
            Event::Done,
            Event::Registered(device()),
            Event::Done,
            Event::DeadlineSet(false),
        ],
    );
    assert_eq!(failure(&machine), "enrollment expiry is outside the supported time range");
}

#[test]
fn registration_can_be_refused() {
    let mut machine = Enrollment::start(everything_chosen());
    drive(
        &mut machine,
        vec![
            Event::ListenParses(true),
            identity(),
            Event::Done,
            files(),
            Event::TlsFound { key: true, certificate: true },
            Event::Done,
            Event::Certificate("PEM".into()),
            Event::Done,
            Event::Refused { status: "403 Forbidden".into(), body: "".into() },
        ],
    );
    assert_eq!(failure(&machine), "Dashboard request failed with HTTP 403 Forbidden: ");
}

#[test]
fn prompts_fall_back_to_the_default() {
    let question = Question::new("Name", "box");
    assert_eq!(question.text(), "Name [box]: ");
    assert_eq!(prompt(None, "box"), "box");
    assert_eq!(prompt(Some("".into()), "box"), "box");
    assert_eq!(prompt(Some(" \r\n".into()), "box"), "box");
    assert_eq!(prompt(Some(" a b \n".into()), "box"), "a b");
}

#[test]
fn base_url_loses_space_and_slashes() {
    assert_eq!(dashboard_base_url(" http://a/b// \n").unwrap(), "http://a/b");
    assert_eq!(dashboard_base_url("http://a /").unwrap(), "http://a ");
    assert!(matches!(dashboard_base_url("/"), Err(EnrollError::EmptyDashboardUrl)));
    assert!(matches!(dashboard_base_url(""), Err(EnrollError::EmptyDashboardUrl)));
    assert_eq!(default_agent_url("box"), "wss://box:7780");
}

#[test]
fn settings_are_checked_in_order() {
    assert!(check_settings(true, "wss://a", false).is_ok());
    assert!(check_settings(true, "ws://a", true).is_ok());
    assert!(matches!(
        check_settings(true, "ws://a", false),
        Err(EnrollError::PlaintextAgentUrl)
    ));
    assert!(matches!(check_settings(true, "a", true), Err(EnrollError::AgentUrlScheme)));
    assert!(matches!(check_settings(false, "a", false), Err(EnrollError::ListenFormat)));
}

#[test]
fn openssl_is_told_what_to_write() {
    assert_eq!(
        openssl_arguments("box", "k", "c"),
        [
            "req", "-x509", "-newkey", "rsa:2048", "-nodes", "-days", "365", "-subj", "/CN=box",
            "-addext", "subjectAltName=DNS:box", "-keyout", "k", "-out", "c",
        ]
    );
    assert_eq!(service_arguments(), ["enable", "--now", "tetra.service"]);
}

#[test]
fn public_keys_are_url_safe_base64() {
    assert_eq!(public_key_text(&[0xff; 32]), format!("{}8", "_".repeat(42)));
    let mut key = [0; 32];
    key[0] = 0xfb;
    key[1] = 0xf0;
    key[31] = 1;
    assert_eq!(public_key_text(&key), format!("-_{}AE", "A".repeat(39)));
}

#[test]
fn different_keys_have_different_texts() {
    let key = [0x5a; 32];
    let text = public_key_text(&key);
    assert_eq!(text.len(), 43);
    for i in 0..32 {
        for bit in 0..8 {
            let mut other = key;
            other[i] ^= 1 << bit;
            assert_ne!(public_key_text(&other), text);
        }
    }
}

#[test]
fn enrollment_that_is_over_stays_over() {
    let mut machine = at_poll(everything_chosen());
    machine.advance(polled("access_denied", None));
    let message = failure(&machine);
    drive(
        &mut machine,
        vec![polled("approved", Some("key")), Event::Done, Event::Clock { expired: false }],
    );
    assert_eq!(failure(&machine), message);
    assert_eq!(message, "Dashboard denied the enrollment request");
}

#[test]
fn documents_escape_their_text() {
    assert_eq!(
        String::from_utf8(approval_document("http://d/\"", "ü\n", u64::MAX)).unwrap(),
        "{\n  \"expires_in\": 18446744073709551615,\n  \"user_code\": \"ü\\n\",\n  \
         \"verification_uri\": \"http://d/\\\"/tetra/device\"\n}"
    );
    let record = enrollment_record("u", "c", "k", "i");
    let value: serde_json::Value = serde_json::from_slice(&record).unwrap();
    assert_eq!(value["agent_url"], "u");
    assert_eq!(value["tls_cert"], "c");
    assert_eq!(value["tls_key"], "k");
    assert_eq!(value["identity_dir"], "i");
    assert_eq!(value.as_object().unwrap().len(), 4);
    assert_eq!(environment_file("0.0.0.0:7780"), b"TETRA_LISTEN=0.0.0.0:7780\n");
    let body = poll_request("dev");
    assert_eq!(body.len(), 1);
    assert_eq!(body["device_code"], "dev");
}

#[test]
fn dashboard_pages_lie_under_their_base() {
    assert_eq!(device_endpoint("http://d"), "http://d/api/tetra/device");
    assert_eq!(approval_page("http://d"), "http://d/tetra/device");
    assert_eq!(approval_page("http://d//"), "http://d/tetra/device");
    assert_eq!(approval_lines("http://d/", "C")[1], "Open http://d/tetra/device?code=C");
}

#[test]
fn status_words_are_judged() {
    let status = |word: &str, key: Option<&str>| {
        judge(PollResponse {
            status: word.into(),
            controller_public_key: key.map(str::to_string),
        })
    };
    assert!(matches!(status("authorization_pending", Some("k")), Verdict::Pending));
    assert!(matches!(status("approved", Some("k")), Verdict::Approved(key) if key == "k"));
    assert!(matches!(
        status("approved", None),
        Verdict::Rejected(EnrollError::MissingControllerKey)
    ));
    assert!(matches!(status("access_denied", None), Verdict::Rejected(EnrollError::Denied)));
    assert!(matches!(status("expired_token", None), Verdict::Rejected(EnrollError::Expired)));
    assert!(matches!(
        status("Approved", Some("k")),
        Verdict::Rejected(EnrollError::UnknownStatus(word)) if word == "Approved"
    ));
    assert_eq!(pause_seconds(0), 1);
    assert_eq!(pause_seconds(1), 1);
    assert_eq!(pause_seconds(5), 5);
    assert!(is_success(200) && is_success(299));
    assert!(!is_success(199) && !is_success(300));
}
