//! The engine's fixed wiring: which core plugins it loads, which events switch the
//! UI to which page, where plugin pages are mounted, and how it retries
//! connecting to the WebSocket hub.
use vstd::prelude::*;
use crate::text::{concat2, concat3, has_prefix, owned, starts_with, str_eq};

verus! {

/// The page of a plugin route: `{route}/web`, with a leading `/` added when missing.
pub open spec fn web_mount(route: Seq<char>) -> Seq<char> {
    if has_prefix(route, "/"@) {
        route + "/web"@
    } else {
        "/"@ + route + "/web"@
    }
}

/// A static route, with a leading `/` added when missing.
pub open spec fn static_mount(route: Seq<char>) -> Seq<char> {
    if has_prefix(route, "/"@) {
        route
    } else {
        "/"@ + route
    }
}

/// Builds the routes the engine mounts.
pub struct RouterManager;

impl RouterManager {
    /// Where the pages of a plugin route are mounted.
    pub fn plugin_web_path(route: &str) -> (r: String)
        ensures
            r@ == web_mount(route@),
    {
        if starts_with(route, "/") {
            concat2(route, "/web")
        } else {
            concat3("/", route, "/web")
        }
    }

    /// Where a static folder is mounted.
    pub fn static_route_path(route: &str) -> (r: String)
        ensures
            r@ == static_mount(route@),
    {
        if starts_with(route, "/") {
            owned(route)
        } else {
            concat2("/", route)
        }
    }
}

/// The core plugins, loaded at start in this order, with their start parameters.
pub open spec fn core_plugin_list() -> Seq<(Seq<char>, Seq<char>)> {
    seq![
        ("plugin_welcome"@, "continue=false"@),
        ("plugin_mockwifi"@, "connected=false"@),
        ("plugin_execplan"@, "hasupdate=true"@),
        ("plugin_login"@, "isloggedin=false"@),
        ("plugin_provisioning"@, "isprovisioned=false"@),
        ("plugin_terms"@, "accepted=false"@),
        ("plugin_finish"@, "done=true"@),
    ]
}

/// A core plugin and its start parameter.
pub struct CorePlugin {
    pub name: String,
    pub params: String,
}

/// The core plugins, loaded at start in this order, with their start parameters.
pub fn core_plugins() -> (r: Vec<CorePlugin>)
    ensures
        r@.map_values(|p: CorePlugin| (p.name@, p.params@)) == core_plugin_list(),
{
    let mut v: Vec<CorePlugin> = Vec::new();
    v.push(CorePlugin { name: owned("plugin_welcome"), params: owned("continue=false") });
    v.push(CorePlugin { name: owned("plugin_mockwifi"), params: owned("connected=false") });
    v.push(CorePlugin { name: owned("plugin_execplan"), params: owned("hasupdate=true") });
    v.push(CorePlugin { name: owned("plugin_login"), params: owned("isloggedin=false") });
    v.push(CorePlugin { name: owned("plugin_provisioning"), params: owned("isprovisioned=false") });
    v.push(CorePlugin { name: owned("plugin_terms"), params: owned("accepted=false") });
    v.push(CorePlugin { name: owned("plugin_finish"), params: owned("done=true") });
    assert(v@.map_values(|p: CorePlugin| (p.name@, p.params@)) =~= core_plugin_list());
    v
}

/// What the engine does when a subscribed event arrives.
pub enum EventReaction {
    /// Switch the UI to this page.
    SwitchTo(String),
    /// Load the execution plan's plugins, then switch the UI to this page.
    LoadPlanThenSwitchTo(String),
    /// Only log the event.
    LogOnly,
}

/// The engine's reaction to the core events: `WelcomeCompleted` leads to the mock
/// Wi-Fi page, `WifiCompleted` loads the plan's plugins and then shows the
/// execution page, `ExecutionPlanCompleted` leads to login and
/// `ProvisionCompleted` to the status page. Other events are only logged.
pub open spec fn core_reaction(event: Seq<char>) -> (int, Seq<char>) {
    if event == "WelcomeCompleted"@ {
        (0, "/mwifi/web"@)
    } else if event == "WifiCompleted"@ {
        (1, "/execution/web"@)
    } else if event == "ExecutionPlanCompleted"@ {
        (0, "/login/web"@)
    } else if event == "ProvisionCompleted"@ {
        (0, "/status/web"@)
    } else {
        (2, Seq::empty())
    }
}

/// A reaction as its kind and page.
pub open spec fn reaction_view(r: EventReaction) -> (int, Seq<char>) {
    match r {
        EventReaction::SwitchTo(p) => (0, p@),
        EventReaction::LoadPlanThenSwitchTo(p) => (1, p@),
        EventReaction::LogOnly => (2, Seq::empty()),
    }
}

/// The engine's reaction to a core event.
pub fn core_event_reaction(event: &str) -> (r: EventReaction)
    ensures
        reaction_view(r) == core_reaction(event@),
{
    if str_eq(event, "WelcomeCompleted") {
        EventReaction::SwitchTo(owned("/mwifi/web"))
    } else if str_eq(event, "WifiCompleted") {
        EventReaction::LoadPlanThenSwitchTo(owned("/execution/web"))
    } else if str_eq(event, "ExecutionPlanCompleted") {
        EventReaction::SwitchTo(owned("/login/web"))
    } else if str_eq(event, "ProvisionCompleted") {
        EventReaction::SwitchTo(owned("/status/web"))
    } else {
        EventReaction::LogOnly
    }
}

/// Attempts the engine makes to connect to the WebSocket hub.
pub const MAX_CONNECT_ATTEMPTS: u8 = 5;

/// Pause between connection attempts, in milliseconds.
pub const CONNECT_RETRY_PAUSE_MS: u64 = 500;

/// What to do after a failed connection attempt.
#[derive(PartialEq, Eq, Structural, Clone, Copy)]
pub enum RetryStep {
    /// Wait `CONNECT_RETRY_PAUSE_MS`, then try again.
    WaitAndRetry,
    /// Stop trying: the hub could not be reached.
    GiveUp,
}

/// Counts the engine's attempts to connect to the hub.
pub struct ConnectRetry {
    pub failures: u8,
}

impl ConnectRetry {
    /// No attempt has failed yet.
    pub fn new() -> (r: ConnectRetry)
        ensures
            r.failures == 0,
    {
        ConnectRetry { failures: 0 }
    }

    /// Records a failed attempt: the engine pauses and retries until
    /// `MAX_CONNECT_ATTEMPTS` attempts have failed, then gives up.
    pub fn after_failure(&mut self) -> (r: RetryStep)
        requires
            old(self).failures < MAX_CONNECT_ATTEMPTS,
        ensures
            final(self).failures == old(self).failures + 1,
            r == (if final(self).failures < MAX_CONNECT_ATTEMPTS {
                RetryStep::WaitAndRetry
            } else {
                RetryStep::GiveUp
            }),
    {
        self.failures = self.failures + 1;
        if self.failures < MAX_CONNECT_ATTEMPTS {
            RetryStep::WaitAndRetry
        } else {
            RetryStep::GiveUp
        }
    }
}

/// The engine makes at most `MAX_CONNECT_ATTEMPTS` attempts: after that many
/// failures it gives up, and before that it always retries.
pub proof fn law_connect_attempts_bounded(failures_before: u8, failures_after: u8, step: RetryStep)
    requires
        failures_before < MAX_CONNECT_ATTEMPTS,
        failures_after == failures_before + 1,
        step == (if failures_after < MAX_CONNECT_ATTEMPTS {
            RetryStep::WaitAndRetry
        } else {
            RetryStep::GiveUp
        }),
    ensures
        step == RetryStep::GiveUp <==> failures_after == MAX_CONNECT_ATTEMPTS,
        failures_after <= MAX_CONNECT_ATTEMPTS,
{
}

/// The REST mount of a plugin in the stand-alone engine binary: `/{name}/api/*path`.
pub fn plugin_api_path(name: &str) -> (r: String)
    ensures
        r@ == "/"@ + name@ + "/api/*path"@,
{
    concat3("/", name, "/api/*path")
}

} // verus!
