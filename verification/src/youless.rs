//! The YouLess connection: a plugin that reads a YouLess energy monitor.

use vstd::prelude::*;

use crate::sdk::rpc::logging::{spec_level_code, Log, LogLevel};
use crate::sdk::rpc::Rpc;
use crate::sdk::rpc::action::Action;

verus! {

/// Connection settings, as the host hands them to `init()`.
pub struct Settings {
    /// Host name (and port, if any) of the YouLess device.
    pub host: String,
}

/// The URL of the counters endpoint of the device at `host`.
pub open spec fn spec_endpoint_url(host: Seq<char>) -> Seq<char> {
    "http://"@ + host + "/e"@
}

/// The text of the log record that announces the check of the device at `url`.
pub open spec fn spec_checking_text(url: Seq<char>) -> Seq<char> {
    "checking YouLess at `"@ + url + "`…"@
}

/// The URL of the counters endpoint of the configured device.
pub fn endpoint_url(settings: &Settings) -> (url: String)
    ensures
        url@ == spec_endpoint_url(settings.host@),
        url@ == "http://"@ + settings.host@ + "/e"@,
{
    let url = String::from_str("http://");
    let url = url.concat(settings.host.as_str());
    url.concat("/e")
}

/// What the plugin does when the host initialises it with `settings`.
pub struct InitOutcome {
    /// The call that announces the check of the device.
    pub announcement: Rpc,
    /// The initial state handed back to the host.
    pub state: Vec<u8>,
}

/// Initialise the plugin: announce, at the info level, which device is checked, and
/// hand back an empty state.
pub fn init_with(settings: &Settings) -> (outcome: InitOutcome)
    ensures
        outcome.announcement.action matches Some(Action { log: Some(log) }) && log.level
            == spec_level_code(LogLevel::Info) && log.message@ == spec_checking_text(
            spec_endpoint_url(settings.host@),
        ),
        outcome.announcement.action matches Some(Action { log: Some(log) }) && log.message@
            == "checking YouLess at `"@ + ("http://"@ + settings.host@ + "/e"@) + "`…"@,
        outcome.state@ == Seq::<u8>::empty(),
{
    let url = endpoint_url(settings);
    let message = String::from_str("checking YouLess at `");
    let message = message.concat(url.as_str());
    let message = message.concat("`…");
    let announcement = Rpc::from(Log::info(message));
    InitOutcome { announcement, state: Vec::new() }
}

/// The endpoint URL of every host is "http://", then the host unchanged, then "/e":
/// nine characters longer than the host, which stands at offset 7.
pub proof fn lemma_endpoint_url_wraps_host(host: Seq<char>)
    ensures
        spec_endpoint_url(host) == "http://"@ + host + "/e"@,
        spec_endpoint_url(host).len() == host.len() + 9,
        spec_endpoint_url(host).subrange(0, 7) == "http://"@,
        spec_endpoint_url(host).subrange(7, 7 + host.len() as int) == host,
        spec_endpoint_url(host).subrange(7 + host.len() as int, 9 + host.len() as int) == "/e"@,
{
    reveal_strlit("http://");
    reveal_strlit("/e");
    let url = spec_endpoint_url(host);
    assert(url.subrange(0, 7) =~= "http://"@);
    assert(url.subrange(7, 7 + host.len() as int) =~= host);
    assert(url.subrange(7 + host.len() as int, 9 + host.len() as int) =~= "/e"@);
}

/// The announcement of every URL is "checking YouLess at `", then the URL unchanged,
/// then "`…": the URL stands whole at offset 21.
pub proof fn lemma_checking_text_names_url(url: Seq<char>)
    ensures
        spec_checking_text(url) == "checking YouLess at `"@ + url + "`…"@,
        spec_checking_text(url).len() == url.len() + 23,
        spec_checking_text(url).subrange(0, 21) == "checking YouLess at `"@,
        spec_checking_text(url).subrange(21, 21 + url.len() as int) == url,
        spec_checking_text(url).subrange(21 + url.len() as int, 23 + url.len() as int) == "`…"@,
{
    reveal_strlit("checking YouLess at `");
    reveal_strlit("`…");
    let text = spec_checking_text(url);
    assert(text.subrange(0, 21) =~= "checking YouLess at `"@);
    assert(text.subrange(21, 21 + url.len() as int) =~= url);
    assert(text.subrange(21 + url.len() as int, 23 + url.len() as int) =~= "`…"@);
}

/// The announcement of the plugin for every host names that host whole, inside the
/// endpoint URL: the host stands at offset 28 of the message.
pub proof fn lemma_announcement_names_host(host: Seq<char>)
    ensures
        spec_checking_text(spec_endpoint_url(host)).subrange(28, 28 + host.len() as int) == host,
        spec_checking_text(spec_endpoint_url(host)).len() == host.len() + 32,
{
    lemma_endpoint_url_wraps_host(host);
    let url = spec_endpoint_url(host);
    lemma_checking_text_names_url(url);
    let text = spec_checking_text(url);
    assert(text.subrange(28, 28 + host.len() as int) =~= url.subrange(7, 7 + host.len() as int));
}

} // verus!
