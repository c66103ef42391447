//! What holds of every enrollment, whatever comes of its actions.

use super::dashboard;
use super::dashboard::{PollResponse, Verdict};
use super::flow::{
    after, at, beginning, nothing_known, record, task, with_dashboard, Event, Phase, Progress, Task,
};
use super::settings;
use super::{error_text, EnrollError, Options};
use crate::json;
use crate::json::Scalar;
use crate::text;
use vstd::prelude::*;

verus! {

/// Where an enrollment with these options stands after these events.
pub open spec fn reached(options: Options, events: Seq<Event>) -> Progress
    decreases events.len(),
{
    if events.len() == 0 {
        beginning(options)
    } else {
        after(reached(options, events.drop_last()), events.last())
    }
}

/// The phases in which, or after which, something that enrollment grants is stored.
pub open spec fn is_storing(phase: Phase) -> bool {
    phase is StoreKey || phase is WriteRecord || phase is WriteEnvironment
        || phase is EnableService || phase is Enrolled
}

/// The phases that come before the addresses are checked.
pub open spec fn is_settling(phase: Phase) -> bool {
    phase is AskDashboard || phase is ReadHostname || phase is AskDisplayName
        || phase is AskAgentUrl || phase is AskListen || phase is CheckListen
}

/// At the event `i` the status told an approval for the controller with this key.
pub open spec fn approved_at(
    options: Options,
    events: Seq<Event>,
    i: int,
    key: Seq<char>,
) -> bool {
    &&& 0 <= i < events.len()
    &&& reached(options, events.take(i)).phase is Poll
    &&& events[i] matches Event::Polled(response) && dashboard::verdict_of(
        response,
    ) matches Verdict::Approved(granted) && granted@ == key
}

/// At the event `i` the action of `phase` was done.
pub open spec fn done_at(options: Options, events: Seq<Event>, i: int, phase: Phase) -> bool {
    &&& 0 <= i < events.len()
    &&& reached(options, events.take(i)).phase == phase
    &&& events[i] is Done
}

/// Nothing that enrollment grants is stored before the Dashboard has approved it, and the key
/// that is stored is the one that came with the approval.
pub proof fn law_nothing_stored_without_approval(options: Options, events: Seq<Event>)
    requires
        is_storing(reached(options, events).phase),
    ensures
        exists|i: int|
            approved_at(options, events, i, reached(options, events).controller_key),
    decreases events.len(),
{
    if events.len() > 0 {
        let before = reached(options, events.drop_last());
        let now = reached(options, events);
        let last = events.len() - 1;
        assert(events.take(last) =~= events.drop_last());
        if is_storing(before.phase) {
            law_nothing_stored_without_approval(options, events.drop_last());
            let i = choose|i: int|
                approved_at(options, events.drop_last(), i, before.controller_key);
            assert(events.drop_last().take(i) =~= events.take(i));
            assert(approved_at(options, events, i, now.controller_key));
        } else {
            assert(approved_at(options, events, last, now.controller_key));
        }
    }
}

proof fn lemma_done_at_kept(options: Options, events: Seq<Event>, i: int, phase: Phase)
    requires
        events.len() > 0,
        done_at(options, events.drop_last(), i, phase),
    ensures
        done_at(options, events, i, phase),
{
    assert(events.drop_last().take(i) =~= events.take(i));
}

/// The enrollment record is written only once the controller key is stored.
pub proof fn law_key_before_record(options: Options, events: Seq<Event>)
    requires
        is_storing(reached(options, events).phase),
        !(reached(options, events).phase is StoreKey),
    ensures
        exists|i: int| done_at(options, events, i, Phase::StoreKey),
    decreases events.len(),
{
    if events.len() > 0 {
        let before = reached(options, events.drop_last());
        let last = events.len() - 1;
        assert(events.take(last) =~= events.drop_last());
        if before.phase is StoreKey {
            assert(done_at(options, events, last, Phase::StoreKey));
        } else {
            law_key_before_record(options, events.drop_last());
            let i = choose|i: int| done_at(options, events.drop_last(), i, Phase::StoreKey);
            lemma_done_at_kept(options, events, i, Phase::StoreKey);
        }
    }
}

/// An enrollment that is complete has stored the controller key, then written the enrollment
/// record, then the environment file.
pub proof fn law_complete_is_stored(options: Options, events: Seq<Event>)
    requires
        reached(options, events).phase is EnableService || reached(
            options,
            events,
        ).phase is Enrolled,
    ensures
        exists|i: int, j: int, k: int|
            #![trigger done_at(options, events, i, Phase::StoreKey), done_at(
                options,
                events,
                j,
                Phase::WriteRecord,
            ), done_at(options, events, k, Phase::WriteEnvironment)]
            i < j < k && done_at(options, events, i, Phase::StoreKey) && done_at(
                options,
                events,
                j,
                Phase::WriteRecord,
            ) && done_at(options, events, k, Phase::WriteEnvironment),
    decreases events.len(),
{
    if events.len() > 0 {
        let init = events.drop_last();
        let before = reached(options, init);
        let last = events.len() - 1;
        assert(events.take(last) =~= init);
        if before.phase is WriteEnvironment {
            assert(done_at(options, events, last, Phase::WriteEnvironment));
            lemma_record_after_key(options, init);
            let (i, j) = choose|i: int, j: int|
                #![trigger done_at(options, init, i, Phase::StoreKey), done_at(
                    options,
                    init,
                    j,
                    Phase::WriteRecord,
                )]
                i < j && done_at(options, init, i, Phase::StoreKey) && done_at(
                    options,
                    init,
                    j,
                    Phase::WriteRecord,
                );
            lemma_done_at_kept(options, events, i, Phase::StoreKey);
            lemma_done_at_kept(options, events, j, Phase::WriteRecord);
        } else {
            law_complete_is_stored(options, init);
            let (i, j, k) = choose|i: int, j: int, k: int|
                #![trigger done_at(options, init, i, Phase::StoreKey), done_at(
                    options,
                    init,
                    j,
                    Phase::WriteRecord,
                ), done_at(options, init, k, Phase::WriteEnvironment)]
                i < j < k && done_at(options, init, i, Phase::StoreKey) && done_at(
                    options,
                    init,
                    j,
                    Phase::WriteRecord,
                ) && done_at(options, init, k, Phase::WriteEnvironment);
            lemma_done_at_kept(options, events, i, Phase::StoreKey);
            lemma_done_at_kept(options, events, j, Phase::WriteRecord);
            lemma_done_at_kept(options, events, k, Phase::WriteEnvironment);
        }
    }
}

proof fn lemma_record_after_key(options: Options, events: Seq<Event>)
    requires
        reached(options, events).phase is WriteEnvironment,
    ensures
        exists|i: int, j: int|
            #![trigger done_at(options, events, i, Phase::StoreKey), done_at(
                options,
                events,
                j,
                Phase::WriteRecord,
            )]
            i < j && done_at(options, events, i, Phase::StoreKey) && done_at(
                options,
                events,
                j,
                Phase::WriteRecord,
            ),
    decreases events.len(),
{
    if events.len() > 0 {
        let init = events.drop_last();
        let before = reached(options, init);
        let last = events.len() - 1;
        assert(events.take(last) =~= init);
        if before.phase is WriteRecord {
            law_key_before_record(options, init);
            let i = choose|i: int| done_at(options, init, i, Phase::StoreKey);
            lemma_done_at_kept(options, events, i, Phase::StoreKey);
            assert(done_at(options, events, last, Phase::WriteRecord));
        } else {
            lemma_record_after_key(options, init);
            let (i, j) = choose|i: int, j: int|
                #![trigger done_at(options, init, i, Phase::StoreKey), done_at(
                    options,
                    init,
                    j,
                    Phase::WriteRecord,
                )]
                i < j && done_at(options, init, i, Phase::StoreKey) && done_at(
                    options,
                    init,
                    j,
                    Phase::WriteRecord,
                );
            lemma_done_at_kept(options, events, i, Phase::StoreKey);
            lemma_done_at_kept(options, events, j, Phase::WriteRecord);
        }
    }
}

/// The service is enabled exactly where the operator did not opt out: without the option an
/// enrollment is complete only after `systemctl` reported success, and with it `systemctl` is
/// never run.
pub proof fn law_service(options: Options, events: Seq<Event>)
    ensures
        options.skip_service ==> !(reached(options, events).phase is EnableService),
        !options.skip_service && reached(options, events).phase is Enrolled ==> exists|i: int|
            0 <= i < events.len() && (#[trigger] reached(
                options,
                events.take(i),
            )).phase is EnableService && events[i] == (Event::Exit { success: true }),
    decreases events.len(),
{
    law_options_stay(options, events);
    if events.len() > 0 {
        let init = events.drop_last();
        let last = events.len() - 1;
        assert(events.take(last) =~= init);
        law_options_stay(options, init);
        law_service(options, init);
        if !options.skip_service && reached(options, events).phase is Enrolled {
            if reached(options, init).phase is Enrolled {
                let i = choose|i: int|
                    0 <= i < init.len() && (#[trigger] reached(
                        options,
                        init.take(i),
                    )).phase is EnableService && init[i] == (Event::Exit { success: true });
                assert(init.take(i) =~= events.take(i));
                assert(reached(options, events.take(i)).phase is EnableService);
            } else {
                assert(reached(options, events.take(last)).phase is EnableService);
            }
        }
    }
}

/// The options never change.
pub proof fn law_options_stay(options: Options, events: Seq<Event>)
    ensures
        reached(options, events).options == options,
    decreases events.len(),
{
    if events.len() > 0 {
        law_options_stay(options, events.drop_last());
    }
}

/// The Dashboard URLs are settled: the base URL is not empty and ends with no slash, and both
/// are what the operator chose, if they did.
pub open spec fn dashboard_is_settled(p: Progress) -> bool {
    &&& p.dashboard_url.len() > 0
    &&& p.dashboard_url.last() != '/'
    &&& p.options.dashboard_url matches Some(url) ==> p.dashboard_url == settings::base_url(url@)
    &&& p.verification_url == match p.options.verification_url {
        Some(url) => url@,
        None => p.dashboard_url,
    }
}

/// The value is what the operator chose, if they did.
pub open spec fn is_as_chosen(value: Seq<char>, choice: Option<String>) -> bool {
    choice matches Some(chosen) ==> value == chosen@
}

/// The facts that an enrollment rests on where it stands.
pub open spec fn is_sound(p: Progress) -> bool {
    let o = p.options;
    match p.phase {
        Phase::Failed(_) => true,
        Phase::AskDashboard => o.dashboard_url is None,
        Phase::ReadHostname => dashboard_is_settled(p) && o.hostname is None,
        Phase::AskDisplayName => dashboard_is_settled(p) && is_as_chosen(p.hostname, o.hostname)
            && o.display_name is None,
        Phase::AskAgentUrl => dashboard_is_settled(p) && is_as_chosen(p.hostname, o.hostname)
            && is_as_chosen(p.display_name, o.display_name) && o.agent_url is None,
        Phase::AskListen => dashboard_is_settled(p) && is_as_chosen(p.hostname, o.hostname)
            && is_as_chosen(p.display_name, o.display_name) && is_as_chosen(
            p.agent_url,
            o.agent_url,
        ) && o.listen is None,
        Phase::CheckListen => addresses_are_settled(p),
        _ => addresses_are_settled(p) && settings::settings_fault(true, p.agent_url, o.insecure)
            is None,
    }
}

/// Everything that the operator is asked for is settled.
pub open spec fn addresses_are_settled(p: Progress) -> bool {
    let o = p.options;
    &&& dashboard_is_settled(p)
    &&& is_as_chosen(p.hostname, o.hostname)
    &&& is_as_chosen(p.display_name, o.display_name)
    &&& is_as_chosen(p.agent_url, o.agent_url)
    &&& is_as_chosen(p.listen, o.listen)
}

proof fn lemma_sound_with_dashboard(p: Progress, raw: Seq<char>)
    requires
        is_as_chosen(raw, p.options.dashboard_url),
    ensures
        is_sound(with_dashboard(p, raw)),
{
    settings::law_base_url(raw);
}

proof fn lemma_sound_while_settling(p: Progress, event: Event)
    requires
        is_settling(p.phase),
        is_sound(p),
    ensures
        is_sound(after(p, event)),
{
    match (p.phase, event) {
        (Phase::AskDashboard, Event::Reply(reply)) => {
            lemma_sound_with_dashboard(
                p,
                settings::answer_text(settings::line_view(reply), "http://127.0.0.1:3000"@),
            );
        },
        _ => {},
    }
}

proof fn lemma_sound_once_settled(p: Progress, event: Event)
    requires
        !is_settling(p.phase),
        is_sound(p),
    ensures
        is_sound(after(p, event)),
{
}

/// Every enrollment keeps the facts that it rests on: it asks only for what the operator did
/// not choose, uses what they chose, and goes on past the addresses only if they are in order.
pub proof fn law_enrollment_is_sound(options: Options, events: Seq<Event>)
    ensures
        is_sound(reached(options, events)),
    decreases events.len(),
{
    if events.len() == 0 {
        if let Some(url) = options.dashboard_url {
            lemma_sound_with_dashboard(nothing_known(options), url@);
        }
    } else {
        let before = reached(options, events.drop_last());
        law_enrollment_is_sound(options, events.drop_last());
        if is_settling(before.phase) {
            lemma_sound_while_settling(before, events.last());
        } else {
            lemma_sound_once_settled(before, events.last());
        }
    }
}

/// The agent URL that the Dashboard is told is a WebSocket URL, and a secure one unless the
/// operator permitted plaintext.
pub proof fn law_agent_url_is_permitted(options: Options, events: Seq<Event>)
    requires
        reached(options, events).phase is Register,
    ensures
        task(reached(options, events)) matches Task::Register { agent_url, .. } && (
        "wss://"@.is_prefix_of(agent_url) || ("ws://"@.is_prefix_of(agent_url)
            && options.insecure)),
{
    law_options_stay(options, events);
    law_enrollment_is_sound(options, events);
}

/// The phases that come after the registration was answered.
pub open spec fn is_past_registration(phase: Phase) -> bool {
    is_opened(phase) || phase is Failed
}

/// The phases of an enrollment that the Dashboard has opened.
pub open spec fn is_opened(phase: Phase) -> bool {
    phase is WriteApproval || phase is AnnounceCode || phase is SetDeadline || phase is Poll
        || phase is ReadClock || phase is Pause || is_storing(phase)
}

/// At the event `i` the Dashboard answered the registration.
pub open spec fn answered_at(options: Options, events: Seq<Event>, i: int) -> bool {
    &&& 0 <= i < events.len()
    &&& reached(options, events.take(i)).phase is Register
    &&& events[i] is Registered || events[i] is Refused
}

/// At the event `i` the Dashboard opened the enrollment that is under way: its codes and times
/// are those of the answer, and what the Dashboard was told is still so.
pub open spec fn opened_at(options: Options, events: Seq<Event>, i: int) -> bool {
    let now = reached(options, events);
    let then = reached(options, events.take(i));
    &&& answered_at(options, events, i)
    &&& events[i] matches Event::Registered(device) && now.device_code == device.device_code@
        && now.user_code == device.user_code@ && now.expires_in == device.expires_in
        && now.interval == device.interval
    &&& now.dashboard_url == then.dashboard_url
    &&& now.agent_url == then.agent_url
}

/// What is asked of the Dashboard with a task, if anything: where the request goes.
pub open spec fn request_url(task: Task) -> Option<Seq<char>> {
    match task {
        Task::Register { url, .. } => Some(url),
        Task::Poll { url, .. } => Some(url),
        _ => None,
    }
}

proof fn lemma_past_registration_stays(options: Options, events: Seq<Event>, i: int, k: int)
    requires
        0 <= i <= k <= events.len(),
        is_past_registration(reached(options, events.take(i)).phase),
    ensures
        is_past_registration(reached(options, events.take(k)).phase),
    decreases k - i,
{
    if i < k {
        lemma_past_registration_stays(options, events, i, k - 1);
        assert(events.take(k).drop_last() =~= events.take(k - 1));
    }
}

proof fn lemma_answer_is_past(options: Options, events: Seq<Event>, i: int, k: int)
    requires
        answered_at(options, events, i),
        i < k <= events.len(),
    ensures
        is_past_registration(reached(options, events.take(k)).phase),
{
    assert(events.take(i + 1).drop_last() =~= events.take(i));
    lemma_past_registration_stays(options, events, i + 1, k);
}

/// A host registers at most once.
pub proof fn law_one_registration(options: Options, events: Seq<Event>, i: int, j: int)
    requires
        answered_at(options, events, i),
        answered_at(options, events, j),
    ensures
        i == j,
{
    if i < j {
        lemma_answer_is_past(options, events, i, j);
    } else if j < i {
        lemma_answer_is_past(options, events, j, i);
    }
}

proof fn lemma_opened(options: Options, events: Seq<Event>)
    requires
        is_opened(reached(options, events).phase),
    ensures
        exists|i: int| opened_at(options, events, i),
    decreases events.len(),
{
    if events.len() > 0 {
        let init = events.drop_last();
        let before = reached(options, init);
        let last = events.len() - 1;
        assert(events.take(last) =~= init);
        if is_opened(before.phase) {
            lemma_opened(options, init);
            let i = choose|i: int| opened_at(options, init, i);
            assert(init.take(i) =~= events.take(i));
            assert(opened_at(options, events, i));
        } else {
            assert(opened_at(options, events, last));
        }
    }
}

/// All requests go to the device endpoint of the Dashboard. The first is the registration;
/// once it is answered, there are only requests for the status, with the device code of the
/// answer.
pub proof fn law_requests(options: Options, events: Seq<Event>)
    ensures
        ({
            let p = reached(options, events);
            &&& request_url(task(p)) matches Some(url) ==> url == dashboard::device_url(
                p.dashboard_url,
            ) && (options.dashboard_url matches Some(raw) ==> p.dashboard_url
                == settings::base_url(raw@))
            &&& task(p) is Register ==> forall|i: int| !answered_at(options, events, i)
            &&& task(p) matches Task::Poll { body, .. } ==> exists|i: int|
                {
                    &&& #[trigger] answered_at(options, events, i)
                    &&& events[i] matches Event::Registered(device) && body
                        == dashboard::poll_fields(device.device_code@)
                }
        }),
{
    let p = reached(options, events);
    law_options_stay(options, events);
    law_enrollment_is_sound(options, events);
    assert(events.take(events.len() as int) =~= events);
    if task(p) is Register {
        assert forall|i: int| !answered_at(options, events, i) by {
            if answered_at(options, events, i) {
                lemma_answer_is_past(options, events, i, events.len() as int);
            }
        }
    }
    if task(p) is Poll {
        lemma_opened(options, events);
        let i = choose|i: int| opened_at(options, events, i);
        assert(answered_at(options, events, i));
    }
}

/// White space around the Dashboard URL that the operator chose and slashes at its end do not
/// change where requests go, unless white space comes before the slashes.
pub proof fn law_requests_go_to_the_same_place(
    options: Options,
    events: Seq<Event>,
    others: Options,
    other_events: Seq<Event>,
    before: Seq<char>,
    slashes: Seq<char>,
    after: Seq<char>,
)
    requires
        options.dashboard_url is Some,
        others.dashboard_url is Some,
        others.dashboard_url.unwrap()@ == before + (options.dashboard_url.unwrap()@ + slashes)
            + after,
        text::all_space(before),
        text::all_space(after),
        text::all_slashes(slashes),
        text::ends_without_space(options.dashboard_url.unwrap()@),
        request_url(task(reached(options, events))) is Some,
        request_url(task(reached(others, other_events))) is Some,
    ensures
        request_url(task(reached(options, events))) == request_url(
            task(reached(others, other_events)),
        ),
{
    let raw = options.dashboard_url.unwrap()@;
    law_requests(options, events);
    law_requests(others, other_events);
    settings::law_base_url_ignores_slashes(raw, slashes);
    settings::law_base_url_ignores_space(before, raw + slashes, after);
}

/// The agent URL that is recorded on the host is the one that the Dashboard was told.
pub proof fn law_recorded_agent_url(options: Options, events: Seq<Event>)
    requires
        reached(options, events).phase is WriteRecord,
    ensures
        exists|i: int|
            {
                &&& #[trigger] answered_at(options, events, i)
                &&& events[i] is Registered
                &&& task(reached(options, events.take(i))) matches Task::Register { agent_url, .. }
                    && record(reached(options, events))["agent_url"@] == Scalar::Text(agent_url)
            },
        task(reached(options, events)) matches Task::WriteFile { contents, .. } && contents
            == json::pretty(record(reached(options, events))),
{
    lemma_opened(options, events);
    let i = choose|i: int| opened_at(options, events, i);
    assert(answered_at(options, events, i));
    reveal_strlit("agent_url");
    reveal_strlit("tls_cert");
    reveal_strlit("tls_key");
    reveal_strlit("identity_dir");
    assert("agent_url"@.len() != "tls_cert"@.len());
    assert("agent_url"@.len() != "tls_key"@.len());
    assert("agent_url"@.len() != "identity_dir"@.len());
}

/// Before anything is asked of the Dashboard, the HTTP client is set up, and it accepts an
/// invalid certificate exactly where the operator permitted it.
pub proof fn law_client_is_set_up(options: Options, events: Seq<Event>)
    requires
        reached(options, events).phase is Register || is_opened(reached(options, events).phase),
    ensures
        exists|i: int|
            #[trigger] done_at(options, events, i, Phase::OpenClient) && task(
                reached(options, events.take(i)),
            ) == (Task::OpenClient { accept_invalid_certificates: options.insecure }),
    decreases events.len(),
{
    if events.len() > 0 {
        let init = events.drop_last();
        let before = reached(options, init);
        let last = events.len() - 1;
        assert(events.take(last) =~= init);
        if before.phase is OpenClient {
            law_options_stay(options, init);
            assert(done_at(options, events, last, Phase::OpenClient));
        } else {
            law_client_is_set_up(options, init);
            let i = choose|i: int|
                #[trigger] done_at(options, init, i, Phase::OpenClient) && task(
                    reached(options, init.take(i)),
                ) == (Task::OpenClient { accept_invalid_certificates: options.insecure });
            assert(init.take(i) =~= events.take(i));
            lemma_done_at_kept(options, events, i, Phase::OpenClient);
        }
    }
}

/// An enrollment that is over stays as it is.
pub proof fn law_end_is_final(p: Progress, event: Event)
    requires
        p.phase is Enrolled || p.phase is Failed,
    ensures
        after(p, event) == p,
{
}

/// An enrollment that nobody has decided is asked for again after a pause, of the interval
/// that the Dashboard wants and at least one second, or is over if it has expired.
pub proof fn law_pending_waits(p: Progress, response: PollResponse, expired: bool)
    requires
        p.phase is Poll,
        response.status@ == "authorization_pending"@,
    ensures
        ({
            let looked = after(after(p, Event::Polled(response)), Event::Clock { expired });
            if expired {
                task(looked) == (Task::Fail { error: EnrollError::Expired })
            } else {
                &&& task(looked) == (Task::Pause { seconds: dashboard::pause_length(p.interval) })
                &&& after(looked, Event::Done) == p
            }
        }),
{
}

/// An approval with a key leads to a complete enrollment that stored that key, if the service,
/// where it is wanted, can be enabled.
pub proof fn law_approval_completes(p: Progress, response: PollResponse)
    requires
        p.phase is Poll,
        response.status@ == "approved"@,
        response.controller_public_key is Some,
    ensures
        ({
            let key = response.controller_public_key.unwrap()@;
            let approved = after(p, Event::Polled(response));
            let stored = after(approved, Event::Done);
            let written = after(after(stored, Event::Done), Event::Done);
            let end = if p.options.skip_service {
                written
            } else {
                after(written, Event::Exit { success: true })
            };
            &&& task(approved) == (Task::StoreKey { key })
            &&& task(stored) == (Task::WriteFile {
                path: p.record_path,
                contents: json::pretty(record(p)),
            })
            &&& end.phase is Enrolled
            &&& end.controller_key == key
        }),
{
    reveal_strlit("approved");
    reveal_strlit("authorization_pending");
    assert("approved"@.len() != "authorization_pending"@.len());
    let approved = after(p, Event::Polled(response));
    assert(approved.phase is StoreKey);
    assert(record(approved) == record(p));
    let stored = after(approved, Event::Done);
    assert(stored.phase is WriteRecord);
    assert(after(stored, Event::Done).phase is WriteEnvironment);
}

/// Whoever chose everything is asked for nothing.
pub proof fn law_choices_are_not_asked_for(options: Options)
    requires
        options.dashboard_url is Some,
        options.hostname is Some,
        options.display_name is Some,
        options.agent_url is Some,
        options.listen is Some,
    ensures
        ({
            let p = beginning(options);
            if settings::base_url(options.dashboard_url.unwrap()@).len() == 0 {
                task(p) == (Task::Fail { error: EnrollError::EmptyDashboardUrl })
            } else {
                task(p) == (Task::CheckListen { listen: options.listen.unwrap()@ })
            }
        }),
{
}

/// A request that the Dashboard refuses ends the enrollment with a message that tells the
/// status and the body of the answer.
pub proof fn law_refusal_is_told(p: Progress, status: String, body: String)
    requires
        p.phase is Register || p.phase is Poll,
    ensures
        task(after(p, Event::Refused { status, body })) matches Task::Fail { error } && error_text(
            error,
        ) == "Dashboard request failed with HTTP "@ + status@ + ": "@ + body@,
{
}

/// TLS material that is already there is kept.
pub proof fn law_tls_material_is_kept(p: Progress)
    requires
        p.phase is ProbeTls,
    ensures
        after(p, Event::TlsFound { key: true, certificate: true }) == at(p, Phase::AnnounceHost),
{
}

/// The approval page lies under the base URL that the operator chose for it, or under that of
/// the Dashboard, whatever slashes end it.
pub proof fn law_approval_page(base: Seq<char>, slashes: Seq<char>)
    requires
        base.len() > 0,
        base.last() != '/',
        forall|i: int| 0 <= i < slashes.len() ==> slashes[i] == '/',
    ensures
        dashboard::approval_url(base + slashes) == base + "/tetra/device"@,
    decreases slashes.len(),
{
    if slashes.len() > 0 {
        assert((base + slashes).drop_last() =~= base + slashes.drop_last());
        law_approval_page(base, slashes.drop_last());
    } else {
        assert(base + slashes =~= base);
        assert(text::without_trailing_slashes(base) == base);
    }
}

} // verus!
