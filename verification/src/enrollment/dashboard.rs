//! The conversation with the Dashboard: what is sent to it and what its answers mean.

use super::EnrollError;
use crate::json;
use crate::json::Scalar;
use crate::text;
use vstd::prelude::*;
use vstd::string::StringExecFns;

verus! {

/// The request that asks the Dashboard for an enrollment.
#[derive(Debug)]
pub struct CreateRequest {
    /// Name that the Dashboard shows for the host.
    pub display_name: String,
    /// Name of the host.
    pub hostname: String,
    /// WebSocket URL where the Dashboard can reach the host.
    pub agent_url: String,
    /// Public key of the host, as URL-safe base64.
    pub host_public_key: String,
    /// Certificate of the listener, as PEM.
    pub tls_ca_certificate: String,
}

/// The enrollment that the Dashboard opened.
#[derive(Debug)]
pub struct CreateResponse {
    /// Names the enrollment in later requests.
    pub device_code: String,
    /// Names the enrollment to the Dashboard user.
    pub user_code: String,
    /// Seconds until the enrollment expires.
    pub expires_in: u64,
    /// Seconds to wait between two requests for its status.
    pub interval: u64,
}

/// The status of an enrollment.
#[derive(Debug)]
pub struct PollResponse {
    /// The status word.
    pub status: String,
    /// Public key of the controller, once the enrollment is approved.
    pub controller_public_key: Option<String>,
}

/// What a status means for the host.
#[derive(Debug)]
pub enum Verdict {
    /// Nobody has decided yet.
    Pending,
    /// The enrollment is approved, for the controller with this public key.
    Approved(String),
    /// The enrollment is over.
    Rejected(EnrollError),
}

/// The HTTP status code is one of success.
pub open spec fn is_success_code(status: u16) -> bool {
    200 <= status < 300
}

/// Whether an HTTP status code is one of success.
pub fn is_success(status: u16) -> (res: bool)
    ensures
        res == is_success_code(status),
{
    200 <= status && status < 300
}

/// Where enrollments are opened and their status is asked for.
pub open spec fn device_url(base_url: Seq<char>) -> Seq<char> {
    base_url + "/api/tetra/device"@
}

/// Where enrollments are opened and their status is asked for.
pub fn device_endpoint(base_url: &str) -> (res: String)
    ensures
        res@ == device_url(base_url@),
{
    let mut url = base_url.to_owned();
    url.append("/api/tetra/device");
    url
}

/// The page on which a Dashboard user enters the code of an enrollment.
pub open spec fn approval_url(verification_url: Seq<char>) -> Seq<char> {
    text::without_trailing_slashes(verification_url) + "/tetra/device"@
}

/// The page on which a Dashboard user enters the code of an enrollment.
pub fn approval_page(verification_url: &str) -> (res: String)
    ensures
        res@ == approval_url(verification_url@),
{
    let mut url = text::trim_end_slashes(verification_url).to_owned();
    url.append("/tetra/device");
    url
}

/// The lines that tell the operator how to have the enrollment approved.
pub open spec fn approval_notice(verification_url: Seq<char>, user_code: Seq<char>) -> Seq<
    Seq<char>,
> {
    seq![
        ""@,
        "Open "@ + approval_url(verification_url) + "?code="@ + user_code,
        "Enter enrollment code: "@ + user_code,
        "Waiting for Dashboard approval..."@,
    ]
}

/// The lines that tell the operator how to have the enrollment approved.
pub fn approval_lines(verification_url: &str, user_code: &str) -> (res: Vec<String>)
    ensures
        res.deep_view() == approval_notice(verification_url@, user_code@),
{
    let mut open = "Open ".to_owned();
    open.append(approval_page(verification_url).as_str());
    open.append("?code=");
    open.append(user_code);
    let mut enter = "Enter enrollment code: ".to_owned();
    enter.append(user_code);
    let res = vec![
        "".to_owned(),
        open,
        enter,
        "Waiting for Dashboard approval...".to_owned(),
    ];
    assert(res.deep_view() =~= approval_notice(verification_url@, user_code@));
    res
}

/// The fields of the device authorization details.
pub open spec fn approval_fields(
    verification_url: Seq<char>,
    user_code: Seq<char>,
    expires_in: u64,
) -> Map<Seq<char>, Scalar> {
    map![
        "verification_uri"@ => Scalar::Text(approval_url(verification_url)),
        "user_code"@ => Scalar::Text(user_code),
        "expires_in"@ => Scalar::Count(expires_in),
    ]
}

/// The contents of the file with the device authorization details.
pub fn approval_document(verification_url: &str, user_code: &str, expires_in: u64) -> (res: Vec<u8>)
    ensures
        res@ == json::pretty(approval_fields(verification_url@, user_code@, expires_in)),
{
    let mut object = json::empty_object();
    json::set_text(&mut object, "verification_uri", approval_page(verification_url).as_str());
    json::set_text(&mut object, "user_code", user_code);
    json::set_count(&mut object, "expires_in", expires_in);
    json::document(&object)
}

/// The fields of a request for the status of an enrollment.
pub open spec fn poll_fields(device_code: Seq<char>) -> Map<Seq<char>, Scalar> {
    map!["device_code"@ => Scalar::Text(device_code)]
}

/// The request for the status of an enrollment.
pub fn poll_request(device_code: &str) -> (res: serde_json::Map<String, serde_json::Value>)
    ensures
        json::fields(res) == poll_fields(device_code@),
{
    let mut object = json::empty_object();
    json::set_text(&mut object, "device_code", device_code);
    object
}

/// What the status of an enrollment means.
pub open spec fn verdict_of(response: PollResponse) -> Verdict {
    if response.status@ == "authorization_pending"@ {
        Verdict::Pending
    } else if response.status@ == "approved"@ {
        match response.controller_public_key {
            Some(key) => Verdict::Approved(key),
            None => Verdict::Rejected(EnrollError::MissingControllerKey),
        }
    } else if response.status@ == "access_denied"@ {
        Verdict::Rejected(EnrollError::Denied)
    } else if response.status@ == "expired_token"@ {
        Verdict::Rejected(EnrollError::Expired)
    } else {
        Verdict::Rejected(EnrollError::UnknownStatus(response.status))
    }
}

/// What the status of an enrollment means.
pub fn judge(response: PollResponse) -> (res: Verdict)
    ensures
        res == verdict_of(response),
{
    if text::same(response.status.as_str(), "authorization_pending") {
        Verdict::Pending
    } else if text::same(response.status.as_str(), "approved") {
        match response.controller_public_key {
            Some(key) => Verdict::Approved(key),
            None => Verdict::Rejected(EnrollError::MissingControllerKey),
        }
    } else if text::same(response.status.as_str(), "access_denied") {
        Verdict::Rejected(EnrollError::Denied)
    } else if text::same(response.status.as_str(), "expired_token") {
        Verdict::Rejected(EnrollError::Expired)
    } else {
        Verdict::Rejected(EnrollError::UnknownStatus(response.status))
    }
}

/// How many seconds to wait before the status is asked for again: the interval that the
/// Dashboard asks for, and one second at least.
pub open spec fn pause_length(interval: u64) -> u64 {
    if interval >= 1 {
        interval
    } else {
        1
    }
}

/// How many seconds to wait before the status is asked for again.
pub fn pause_seconds(interval: u64) -> (res: u64)
    ensures
        res == pause_length(interval),
{
    if interval >= 1 {
        interval
    } else {
        1
    }
}

/// The status codes of success are the hundred that begin with a two.
pub proof fn law_success(status: u16)
    ensures
        is_success_code(status) <==> status / 100 == 2,
{
}

/// Requests go to one place under the base URL, which can be read back from it.
pub proof fn law_device_url(base_url: Seq<char>)
    ensures
        text::is_wrapped(device_url(base_url), base_url, "/api/tetra/device"@, seq![]),
{
    text::lemma_wrapped(base_url, "/api/tetra/device"@, seq![]);
    assert(device_url(base_url) =~= base_url + "/api/tetra/device"@ + seq![]);
}

/// The approval page lies under its base URL without the slashes at its end.
pub proof fn law_approval_url(verification_url: Seq<char>)
    ensures
        ({
            let page = approval_url(verification_url);
            let base = page.take(page.len() - "/tetra/device"@.len());
            &&& "/tetra/device"@.len() <= page.len()
            &&& page == base + "/tetra/device"@
            &&& base.is_prefix_of(verification_url)
            &&& base.len() > 0 ==> base.last() != '/'
            &&& text::all_slashes(verification_url.skip(base.len() as int))
        }),
{
    let page = approval_url(verification_url);
    let kept = text::without_trailing_slashes(verification_url);
    text::law_without_trailing_slashes(verification_url);
    assert(page.take(page.len() - "/tetra/device"@.len()) =~= kept);
}

/// The operator is told the page with the code of the enrollment, and the code itself.
pub proof fn law_approval_notice(verification_url: Seq<char>, user_code: Seq<char>)
    ensures
        ({
            let lines = approval_notice(verification_url, user_code);
            let page = text::without_trailing_slashes(verification_url) + "/tetra/device"@;
            &&& lines.len() == 4
            &&& lines[0] == ""@
            &&& text::is_wrapped(lines[1], "Open "@ + page + "?code="@, user_code, seq![])
            &&& text::is_wrapped(lines[2], "Enter enrollment code: "@, user_code, seq![])
            &&& lines[3] == "Waiting for Dashboard approval..."@
        }),
{
    let lines = approval_notice(verification_url, user_code);
    let page = text::without_trailing_slashes(verification_url) + "/tetra/device"@;
    text::lemma_wrapped("Open "@ + page + "?code="@, user_code, seq![]);
    assert(lines[1] =~= "Open "@ + page + "?code="@ + user_code + seq![]);
    text::lemma_wrapped("Enter enrollment code: "@, user_code, seq![]);
    assert(lines[2] =~= "Enter enrollment code: "@ + user_code + seq![]);
}

/// The device authorization details are the approval page, the code and the expiry of the
/// enrollment, and nothing else.
pub proof fn law_approval_fields(verification_url: Seq<char>, user_code: Seq<char>, expires_in: u64)
    ensures
        ({
            let fields = approval_fields(verification_url, user_code, expires_in);
            &&& fields.dom() == set!["verification_uri"@, "user_code"@, "expires_in"@]
            &&& fields["verification_uri"@] == Scalar::Text(
                text::without_trailing_slashes(verification_url) + "/tetra/device"@,
            )
            &&& fields["user_code"@] == Scalar::Text(user_code)
            &&& fields["expires_in"@] == Scalar::Count(expires_in)
        }),
{
    reveal_strlit("verification_uri");
    reveal_strlit("user_code");
    reveal_strlit("expires_in");
    assert("verification_uri"@.len() == 16 && "user_code"@.len() == 9 && "expires_in"@.len() == 10);
    assert(approval_fields(verification_url, user_code, expires_in).dom() =~= set![
        "verification_uri"@,
        "user_code"@,
        "expires_in"@,
    ]);
}

/// A request for the status names the device, and nothing else.
pub proof fn law_poll_fields(device_code: Seq<char>)
    ensures
        poll_fields(device_code).dom() == set!["device_code"@],
        poll_fields(device_code)["device_code"@] == Scalar::Text(device_code),
{
    assert(poll_fields(device_code).dom() =~= set!["device_code"@]);
}

proof fn lemma_status_words_differ()
    ensures
        "authorization_pending"@ != "approved"@,
        "authorization_pending"@ != "access_denied"@,
        "authorization_pending"@ != "expired_token"@,
        "approved"@ != "access_denied"@,
        "approved"@ != "expired_token"@,
        "access_denied"@ != "expired_token"@,
{
    reveal_strlit("authorization_pending");
    reveal_strlit("approved");
    reveal_strlit("access_denied");
    reveal_strlit("expired_token");
    assert("authorization_pending"@.len() == 21 && "approved"@.len() == 8);
    assert("access_denied"@.len() == 13 && "expired_token"@.len() == 13);
    assert("access_denied"@[0] == 'a' && "expired_token"@[0] == 'e');
}

/// Each status word has its one meaning: pending exactly if it says so, approved exactly if it
/// says so and a key comes with it, and over in any other case, for the reason that it tells.
pub proof fn law_verdicts(response: PollResponse)
    ensures
        ({
            let status = response.status@;
            let key = response.controller_public_key;
            let verdict = verdict_of(response);
            &&& verdict is Pending <==> status == "authorization_pending"@
            &&& verdict is Approved <==> status == "approved"@ && key is Some
            &&& verdict matches Verdict::Approved(granted) ==> key == Some(granted)
            &&& verdict == Verdict::Rejected(EnrollError::MissingControllerKey) <==> status
                == "approved"@ && key is None
            &&& verdict == Verdict::Rejected(EnrollError::Denied) <==> status == "access_denied"@
            &&& verdict == Verdict::Rejected(EnrollError::Expired) <==> status == "expired_token"@
            &&& (verdict matches Verdict::Rejected(error) && error is UnknownStatus) <==> (status
                != "authorization_pending"@ && status != "approved"@ && status
                != "access_denied"@ && status != "expired_token"@)
            &&& verdict matches Verdict::Rejected(EnrollError::UnknownStatus(word)) ==> word@
                == status
        }),
{
    lemma_status_words_differ();
}

/// The pause is as long as the Dashboard asks for, and only where that is no time at all, one
/// second.
pub proof fn law_pause_length(interval: u64)
    ensures
        pause_length(interval) >= 1,
        interval > 0 ==> pause_length(interval) == interval,
        interval == 0 ==> pause_length(interval) == 1,
{
}

} // verus!
