//! The host API's decisions: shutdown requests, response statuses, the shell
//! callbacks and the API reference page.

use vstd::prelude::*;

use crate::cli::Cli;
use crate::urls::{callback_url, url_join_outcome};

verus! {

/// A shutdown request on a latch that was (or was not) already requested: whether it
/// is the first request, and whether the latch is requested afterwards.
pub open spec fn shutdown_step(requested: bool) -> (bool, bool) {
    (!requested, true)
}

/// Whether host shutdown has been requested. Only the first request notifies.
pub struct ShutdownLatch {
    requested: bool,
}

impl ShutdownLatch {
    /// Whether shutdown has been requested.
    pub closed spec fn is_requested(&self) -> bool {
        self.requested
    }

    /// No shutdown requested yet.
    pub fn new() -> (latch: Self)
        ensures
            !latch.is_requested(),
    {
        ShutdownLatch { requested: false }
    }

    /// Records a shutdown request; returns `true` only for the first one.
    pub fn begin_shutdown(&mut self) -> (first: bool)
        ensures
            (first, final(self).is_requested()) == shutdown_step(old(self).is_requested()),
    {
        let first = !self.requested;
        self.requested = true;
        first
    }
}

/// What a quit request leads to.
#[derive(Clone, Copy, Debug, PartialEq, Eq, Structural)]
pub struct QuitPlan {
    /// Post the shell's `/_quit` callback (a shell that the host does not supervise).
    pub notify_shell: bool,
    /// Notify the HTTP server to shut down gracefully.
    pub shut_down_server: bool,
}

/// The plan of a quit request.
pub open spec fn spec_quit_plan(first_request: bool, manages_webapp: bool) -> QuitPlan {
    QuitPlan { notify_shell: first_request && !manages_webapp, shut_down_server: first_request }
}

/// The quit plan for a request: only the first request acts; it calls the shell's
/// `/_quit` callback unless the host supervises the shell, and shuts the server down.
pub fn quit_plan(first_request: bool, manages_webapp: bool) -> (plan: QuitPlan)
    ensures
        plan == spec_quit_plan(first_request, manages_webapp),
{
    QuitPlan { notify_shell: first_request && !manages_webapp, shut_down_server: first_request }
}

/// Repeated requests do not repeat shutdown notification: whatever the latch held,
/// a request after a recorded one is not the first, and its plan notifies neither
/// the shell nor the server.
pub proof fn lemma_shutdown_notifies_once(requested: bool, manages_webapp: bool)
    ensures
        !shutdown_step(shutdown_step(requested).1).0,
        !spec_quit_plan(shutdown_step(shutdown_step(requested).1).0, manages_webapp).notify_shell,
        !spec_quit_plan(
            shutdown_step(shutdown_step(requested).1).0,
            manages_webapp,
        ).shut_down_server,
{
}

/// The first shutdown request on a fresh latch is the first; an external shell is
/// then told to quit and the server shut down, while a supervised shell is not told
/// (it is stopped with the host) and the server is still shut down.
pub proof fn lemma_quit_outcomes(first: bool)
    ensures
        shutdown_step(false).0,
        shutdown_step(false).1,
        !shutdown_step(true).0,
        spec_quit_plan(true, false) == (QuitPlan { notify_shell: true, shut_down_server: true }),
        spec_quit_plan(true, true) == (QuitPlan { notify_shell: false, shut_down_server: true }),
        spec_quit_plan(false, first) == (QuitPlan {
            notify_shell: false,
            shut_down_server: false,
        }),
{
}

/// What Ctrl-C leads to.
#[derive(Clone, Copy, Debug, PartialEq, Eq, Structural)]
pub enum InterruptPlan {
    /// Cancel the host; the supervised shell is stopped with it.
    Cancel,
    /// Post the shell's `/_quit` callback, then quit the GTK side.
    NotifyShellAndQuit,
}

/// The plan on Ctrl-C: a supervised shell is stopped by cancelling the host; an
/// external shell is asked to quit and the GTK side quits.
pub fn interrupt_plan(manages_webapp: bool) -> (plan: InterruptPlan)
    ensures
        manages_webapp ==> plan == InterruptPlan::Cancel,
        !manages_webapp ==> plan == InterruptPlan::NotifyShellAndQuit,
{
    if manages_webapp {
        InterruptPlan::Cancel
    } else {
        InterruptPlan::NotifyShellAndQuit
    }
}

/// The status of a layer-shell mutation: 204 once the GTK side has processed it; 503
/// when the command could not be sent or its completion never came.
pub fn mutation_status(sent: bool, completed: bool) -> (code: u16)
    ensures
        code == if sent && completed {
            204u16
        } else {
            503u16
        },
{
    if sent && completed {
        204
    } else {
        503
    }
}

/// The status of a queued session-lock command: 202 once queued; 503 when the
/// command channel is gone.
pub fn queued_status(sent: bool) -> (code: u16)
    ensures
        code == if sent {
            202u16
        } else {
            503u16
        },
{
    if sent {
        202
    } else {
        503
    }
}

/// The liveness response of the host.
pub struct HealthResponse {
    /// Always `ok` when the host accepts requests.
    pub status: String,
}

/// The response to an accepted shutdown request.
pub struct QuitResponse {
    /// Always `shutting down` for an accepted request.
    pub status: String,
}

/// The liveness response: `ok`.
pub fn health() -> (response: HealthResponse)
    ensures
        response.status@ == "ok"@,
{
    HealthResponse { status: String::from_str("ok") }
}

/// The response to a quit request, first or not: `shutting down`.
pub fn quit_response() -> (response: QuitResponse)
    ensures
        response.status@ == "shutting down"@,
{
    QuitResponse { status: String::from_str("shutting down") }
}

/// The bootstrap details that the host posts to the shell's `/_start` callback.
pub struct StartPayload {
    /// Protocol version implemented by the host.
    pub protocol: String,
    /// Base URL of this authenticated host API.
    pub host_api: String,
    /// Bearer token required by host API requests.
    pub token: String,
}

/// Why a shell callback URL could not be formed.
#[derive(Clone, Copy, Debug, PartialEq, Eq, Structural)]
pub enum CallbackError {
    /// The callback name does not resolve against the shell's base URL.
    UnresolvableUrl,
}

/// The host's client of the shell's lifecycle callbacks.
pub struct ShellClient {
    /// The shell's base URL.
    pub base_url: String,
    /// The base URL of the host API.
    pub host_api: String,
    /// The host API token.
    pub token: String,
}

impl ShellClient {
    /// A client of the shell at the configured base URL, announcing `host_api`.
    pub fn new(args: &Cli, host_api: String) -> (client: Self)
        ensures
            client.base_url == args.base_url,
            client.host_api == host_api,
            client.token == args.token,
    {
        ShellClient { base_url: args.base_url.clone(), host_api, token: args.token.clone() }
    }

    /// The URL of the `/_start` callback: `_start` resolved against the base URL.
    pub fn start_url(&self) -> (url: Result<String, CallbackError>)
        ensures
            url matches Ok(u) ==> url_join_outcome(self.base_url@, "_start"@) == Some(u@),
            url is Err ==> url_join_outcome(self.base_url@, "_start"@) is None,
    {
        match callback_url(self.base_url.as_str(), "_start") {
            Some(url) => Ok(url),
            None => Err(CallbackError::UnresolvableUrl),
        }
    }

    /// The URL of the `/_quit` callback: `_quit` resolved against the base URL.
    pub fn quit_url(&self) -> (url: Result<String, CallbackError>)
        ensures
            url matches Ok(u) ==> url_join_outcome(self.base_url@, "_quit"@) == Some(u@),
            url is Err ==> url_join_outcome(self.base_url@, "_quit"@) is None,
    {
        match callback_url(self.base_url.as_str(), "_quit") {
            Some(url) => Ok(url),
            None => Err(CallbackError::UnresolvableUrl),
        }
    }

    /// The bootstrap details: protocol `yawsf-v1`, the host API URL and the token.
    pub fn start_payload(&self) -> (payload: StartPayload)
        ensures
            payload.protocol@ == "yawsf-v1"@,
            payload.host_api == self.host_api,
            payload.token == self.token,
    {
        StartPayload {
            protocol: String::from_str("yawsf-v1"),
            host_api: self.host_api.clone(),
            token: self.token.clone(),
        }
    }
}

} // verus!
