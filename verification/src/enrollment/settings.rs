//! What enrollment needs to know before it touches the host: the questions to the operator and
//! the checks on the answers.

use super::EnrollError;
use crate::text;
use vstd::prelude::*;
use vstd::string::StringExecFns;

verus! {

/// A question to the operator, with the answer that an empty line stands for.
#[derive(Debug)]
pub struct Question {
    /// What is asked for.
    pub label: String,
    /// The answer where the operator gives none.
    pub default: String,
}

/// The line that puts a question.
pub open spec fn question_text(label: Seq<char>, default: Seq<char>) -> Seq<char> {
    label + " ["@ + default + "]: "@
}

/// What a reply to a question with this default means. A reply that could not be read is
/// `None`.
pub open spec fn answer_text(reply: Option<Seq<char>>, default: Seq<char>) -> Seq<char> {
    match reply {
        Some(line) if text::trimmed(line).len() > 0 => text::trimmed(line),
        _ => default,
    }
}

/// The text that a line holds, if there is one.
pub open spec fn line_view(line: Option<String>) -> Option<Seq<char>> {
    match line {
        Some(line) => Some(line@),
        None => None,
    }
}

impl Question {
    /// The question with this label and this default.
    pub fn new(label: &str, default: &str) -> (res: Self)
        ensures
            res.label@ == label@,
            res.default@ == default@,
    {
        Question { label: label.to_owned(), default: default.to_owned() }
    }

    /// The line that puts the question.
    pub fn text(&self) -> (res: String)
        ensures
            res@ == question_text(self.label@, self.default@),
    {
        let mut text = self.label.clone();
        text.append(" [");
        text.append(self.default.as_str());
        text.append("]: ");
        text
    }
}

/// What `reply` means as the answer to a question with this default: the default if nothing
/// could be read or the line is blank, and the line without the white space around it otherwise.
pub fn prompt(reply: Option<String>, default: &str) -> (res: String)
    ensures
        res@ == answer_text(line_view(reply), default@),
{
    match reply {
        Some(line) => {
            let answer = text::trim(line.as_str());
            if answer.is_empty() {
                default.to_owned()
            } else {
                answer.to_owned()
            }
        },
        None => default.to_owned(),
    }
}

/// The Dashboard base URL that `raw` stands for: without white space around it, then without
/// trailing slashes.
pub open spec fn base_url(raw: Seq<char>) -> Seq<char> {
    text::without_trailing_slashes(text::trimmed(raw))
}

/// The Dashboard base URL that `raw` stands for.
pub fn dashboard_base_url(raw: &str) -> (res: Result<String, EnrollError>)
    ensures
        match res {
            Ok(url) => url@ == base_url(raw@) && url@.len() > 0,
            Err(error) => error == EnrollError::EmptyDashboardUrl && base_url(raw@).len() == 0,
        },
{
    let url = text::trim_end_slashes(text::trim(raw));
    if url.is_empty() {
        Err(EnrollError::EmptyDashboardUrl)
    } else {
        Ok(url.to_owned())
    }
}

/// The agent URL proposed for a host of this name.
pub open spec fn proposed_agent_url(hostname: Seq<char>) -> Seq<char> {
    "wss://"@ + hostname + ":7780"@
}

/// The agent URL proposed for a host of this name.
pub fn default_agent_url(hostname: &str) -> (res: String)
    ensures
        res@ == proposed_agent_url(hostname@),
{
    let mut url = "wss://".to_owned();
    url.append(hostname);
    url.append(":7780");
    url
}

/// What is wrong with the settled addresses, if anything. Of several faults the first in this
/// order is reported.
pub open spec fn settings_fault(
    listen_parses: bool,
    agent_url: Seq<char>,
    insecure: bool,
) -> Option<EnrollError> {
    if !listen_parses {
        Some(EnrollError::ListenFormat)
    } else if !"ws://"@.is_prefix_of(agent_url) && !"wss://"@.is_prefix_of(agent_url) {
        Some(EnrollError::AgentUrlScheme)
    } else if "ws://"@.is_prefix_of(agent_url) && !insecure {
        Some(EnrollError::PlaintextAgentUrl)
    } else {
        None
    }
}

/// Checks the settled addresses. `listen_parses` says whether the listener address is a socket
/// address.
pub fn check_settings(listen_parses: bool, agent_url: &str, insecure: bool) -> (res: Result<
    (),
    EnrollError,
>)
    ensures
        match res {
            Ok(_) => settings_fault(listen_parses, agent_url@, insecure) is None,
            Err(error) => settings_fault(listen_parses, agent_url@, insecure) == Some(error),
        },
{
    let plaintext = text::starts_with(agent_url, "ws://");
    if !listen_parses {
        Err(EnrollError::ListenFormat)
    } else if !plaintext && !text::starts_with(agent_url, "wss://") {
        Err(EnrollError::AgentUrlScheme)
    } else if plaintext && !insecure {
        Err(EnrollError::PlaintextAgentUrl)
    } else {
        Ok(())
    }
}

/// A Dashboard base URL never ends with a slash, and cleaning it up once more changes it only
/// where white space came before the slashes.
pub proof fn law_base_url(raw: Seq<char>)
    ensures
        base_url(raw).len() > 0 ==> base_url(raw).last() != '/',
        base_url(raw).len() > 0 && !text::is_space(base_url(raw).last()) ==> base_url(base_url(raw))
            == base_url(raw),
{
    let inner = text::trimmed(raw);
    text::law_trimmed(raw);
    text::law_without_trailing_slashes(inner);
    let url = base_url(raw);
    if url.len() > 0 && !text::is_space(url.last()) {
        assert(url[0] == inner[0]);
        assert(text::trimmed(url) == url);
    }
}

/// White space around the Dashboard URL does not matter.
pub proof fn law_base_url_ignores_space(before: Seq<char>, raw: Seq<char>, after: Seq<char>)
    requires
        text::all_space(before),
        text::all_space(after),
    ensures
        base_url(before + raw + after) == base_url(raw),
{
    text::law_trimmed_ignores_space(before, raw, after);
}

/// Slashes at the end of the Dashboard URL do not matter, unless white space comes before them.
pub proof fn law_base_url_ignores_slashes(raw: Seq<char>, slashes: Seq<char>)
    requires
        text::ends_without_space(raw),
        text::all_slashes(slashes),
    ensures
        base_url(raw + slashes) == base_url(raw),
{
    text::law_trimmed_keeps_slashes(raw, slashes);
    text::law_trailing_slashes_do_not_count(text::trimmed(raw), slashes);
}

/// The addresses pass without the permission for plaintext only if the agent URL is a secure
/// WebSocket URL.
pub proof fn law_plaintext_needs_permission(listen_parses: bool, agent_url: Seq<char>)
    ensures
        settings_fault(listen_parses, agent_url, false) is None ==> "wss://"@.is_prefix_of(
            agent_url,
        ) && !"ws://"@.is_prefix_of(agent_url),
{
}

/// What passes without the permission for plaintext also passes with it.
pub proof fn law_permission_only_widens(listen_parses: bool, agent_url: Seq<char>)
    ensures
        settings_fault(listen_parses, agent_url, false) is None ==> settings_fault(
            listen_parses,
            agent_url,
            true,
        ) is None,
{
}

/// A question shows its label, then its default in brackets.
pub proof fn law_question_shows_its_default(label: Seq<char>, default: Seq<char>)
    ensures
        text::is_wrapped(question_text(label, default), label + seq![' ', '['], default, "]: "@),
{
    reveal_strlit(" [");
    assert(" ["@ =~= seq![' ', '[']);
    text::lemma_wrapped(label + seq![' ', '['], default, "]: "@);
    assert(question_text(label, default) =~= label + seq![' ', '['] + default + "]: "@);
}

/// A line that is not blank is the answer, without the white space around it; a blank line, or
/// none, stands for the default.
pub proof fn law_answer(reply: Option<Seq<char>>, default: Seq<char>)
    ensures
        match reply {
            Some(line) => if text::all_space(line) {
                answer_text(reply, default) == default
            } else {
                exists|i: int, j: int|
                    #[trigger] text::is_core(line, i, j) && i < j && answer_text(reply, default)
                        == line.subrange(i, j)
            },
            None => answer_text(reply, default) == default,
        },
{
    if let Some(line) = reply {
        text::law_blank(line);
        text::law_trimmed_is_the_core(line);
        if !text::all_space(line) {
            let (i, j) = choose|i: int, j: int|
                #[trigger] text::is_core(line, i, j) && text::trimmed(line) == line.subrange(i, j);
            assert(text::is_core(line, i, j) && i < j);
        }
    }
}

/// The Dashboard base URL is all of what was given but the white space around it and the slashes
/// at the end of what is left.
pub proof fn law_base_url_is_within(raw: Seq<char>)
    ensures
        exists|i: int, j: int|
            {
                &&& #[trigger] text::is_core(raw, i, j)
                &&& base_url(raw).is_prefix_of(raw.subrange(i, j))
                &&& text::all_slashes(raw.subrange(i, j).skip(base_url(raw).len() as int))
                &&& base_url(raw).len() > 0 ==> base_url(raw).last() != '/'
            },
{
    text::law_trimmed_is_the_core(raw);
    let (i, j) = choose|i: int, j: int|
        #[trigger] text::is_core(raw, i, j) && text::trimmed(raw) == raw.subrange(i, j);
    text::law_without_trailing_slashes(text::trimmed(raw));
    assert(text::is_core(raw, i, j));
}

/// The agent URL that is proposed is that of a secure WebSocket on the host, at the port of the
/// listener that is proposed.
pub proof fn law_proposed_agent_url(hostname: Seq<char>)
    ensures
        text::is_wrapped(proposed_agent_url(hostname), "wss://"@, hostname, ":7780"@),
{
    text::lemma_wrapped("wss://"@, hostname, ":7780"@);
}

/// Each fault of the addresses comes exactly where it should: first the listener address, then
/// the scheme of the agent URL, then plaintext without permission.
pub proof fn law_settings_faults(parses: bool, agent_url: Seq<char>, insecure: bool)
    ensures
        ({
            let plain = "ws://"@.is_prefix_of(agent_url);
            let secure = "wss://"@.is_prefix_of(agent_url);
            let fault = settings_fault(parses, agent_url, insecure);
            &&& fault == Some(EnrollError::ListenFormat) <==> !parses
            &&& fault == Some(EnrollError::AgentUrlScheme) <==> parses && !plain && !secure
            &&& fault == Some(EnrollError::PlaintextAgentUrl) <==> parses && plain && !insecure
            &&& fault is None <==> parses && (secure || (plain && insecure))
        }),
{
    reveal_strlit("ws://");
    reveal_strlit("wss://");
    if "ws://"@.is_prefix_of(agent_url) && "wss://"@.is_prefix_of(agent_url) {
        assert("ws://"@[2] == agent_url[2]);
        assert("wss://"@[2] == agent_url[2]);
    }
}

} // verus!
