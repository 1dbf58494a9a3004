//! Addresses of the local API and of the planner bridge, and the planner's task request.

use vstd::prelude::*;
use crate::text::{chars_of, i64_to_decimal, signed_decimal};

verus! {

/// Base address of the local service-provider API.
pub open spec fn api_base() -> Seq<char> {
    "http://127.0.0.1:54001"@
}

/// Base address of the planner bridge.
pub open spec fn bridge_base() -> Seq<char> {
    "http://127.0.0.1:55002"@
}

fn join2(a: &str, b: &str) -> (r: String)
    ensures
        r@ == a@ + b@,
{
    let mut r = String::from_str(a);
    r.append(b);
    r
}

fn join3(a: &str, b: &str, c: &str) -> (r: String)
    ensures
        r@ == a@ + b@ + c@,
{
    let mut r = String::from_str(a);
    r.append(b);
    r.append(c);
    r
}

/// The API's health check.
pub fn api_health_url() -> (u: String)
    ensures
        u@ == api_base() + "/health"@,
{
    join2("http://127.0.0.1:54001", "/health")
}

/// The API's collection of service providers.
pub fn services_url() -> (u: String)
    ensures
        u@ == api_base() + "/services"@,
{
    join2("http://127.0.0.1:54001", "/services")
}

/// The API address of the service provider with this id.
pub fn service_by_id_url(id: i64) -> (u: String)
    ensures
        u@ == api_base() + "/services/id/"@ + signed_decimal(id as int),
{
    let digits = i64_to_decimal(id);
    join3("http://127.0.0.1:54001", "/services/id/", digits.as_str())
}

/// The bridge's health check.
pub fn bridge_health_url() -> (u: String)
    ensures
        u@ == bridge_base() + "/health"@,
{
    join2("http://127.0.0.1:55002", "/health")
}

/// The bridge's live log stream.
pub fn bridge_log_ws_url() -> (u: String)
    ensures
        u@ == "ws://127.0.0.1:55002/ws/logs"@,
{
    String::from_str("ws://127.0.0.1:55002/ws/logs")
}

/// The bridge's collection of planner tasks.
pub fn planner_tasks_url() -> (u: String)
    ensures
        u@ == bridge_base() + "/planner/tasks"@,
{
    join2("http://127.0.0.1:55002", "/planner/tasks")
}

/// The bridge address of one planner task.
pub fn planner_task_url(task_id: &str) -> (u: String)
    ensures
        u@ == bridge_base() + "/planner/tasks/"@ + task_id@,
{
    join3("http://127.0.0.1:55002", "/planner/tasks/", task_id)
}

/// The bridge address of one planner task's events.
pub fn planner_task_events_url(task_id: &str) -> (u: String)
    ensures
        u@ == bridge_base() + "/planner/tasks/"@ + task_id@ + "/events"@,
{
    let mut u = planner_task_url(task_id);
    u.append("/events");
    u
}

/// The bridge address that cancels one planner task.
pub fn planner_task_cancel_url(task_id: &str) -> (u: String)
    ensures
        u@ == bridge_base() + "/planner/tasks/"@ + task_id@ + "/cancel"@,
{
    let mut u = planner_task_url(task_id);
    u.append("/cancel");
    u
}

/// A task submitted to the planner.
#[derive(Debug)]
pub struct PlannerTaskSubmitRequest {
    pub goal: String,
    pub provider: String,
    pub model: Option<String>,
    pub max_steps: i32,
}

/// The planner request for `goal`: the `siliconflow` provider with its default model.
pub fn planner_submit_request(goal: String, max_steps: i32) -> (r: PlannerTaskSubmitRequest)
    ensures
        r.goal == goal,
        r.provider@ == "siliconflow"@,
        r.model is None,
        r.max_steps == max_steps,
{
    PlannerTaskSubmitRequest {
        goal,
        provider: String::from_str("siliconflow"),
        model: None,
        max_steps,
    }
}

/// `path` with `component` appended as a further relative component: a `/` goes between
/// them unless `path` is empty or already ends with one.
pub open spec fn path_join(path: Seq<char>, component: Seq<char>) -> Seq<char> {
    if path.len() == 0 || path.last() == '/' {
        path + component
    } else {
        path + seq!['/'] + component
    }
}

fn push_component(path: &mut String, component: &str)
    ensures
        final(path)@ == path_join(old(path)@, component@),
{
    let chars = chars_of(path.as_str());
    let n = chars.len();
    let needs_separator = n > 0 && chars[n - 1] != '/';
    if needs_separator {
        path.push('/');
    }
    path.append(component);
    proof {
        if needs_separator {
            assert(old(path)@.push('/') + component@ =~= old(path)@ + seq!['/'] + component@);
        }
    }
}

/// The planner bridge's source directory: `python` two levels above `manifest_dir`.
pub fn bridge_python_app_dir(manifest_dir: &str) -> (p: String)
    ensures
        p@ == path_join(path_join(path_join(manifest_dir@, ".."@), ".."@), "python"@),
{
    let mut p = String::from_str(manifest_dir);
    push_component(&mut p, "..");
    push_component(&mut p, "..");
    push_component(&mut p, "python");
    p
}

/// What to do after probing a server that is starting up.
#[derive(Debug, PartialEq, Eq, Structural)]
pub enum ReadyStep {
    /// The server answered; go on.
    Ready,
    /// Wait the probe interval, then probe again.
    Retry,
    /// Wait the probe interval, then report that the server is not ready.
    GiveUp,
}

/// Milliseconds between two probes of a starting server.
pub const PROBE_INTERVAL_MS: u64 = 100;

/// Waiting for a starting server, with a budget of probes.
pub struct ReadinessWait {
    attempts_left: u32,
}

impl ReadinessWait {
    /// The probes that are still allowed.
    pub closed spec fn remaining(self) -> nat {
        self.attempts_left as nat
    }

    /// Waiting for the local API: thirty probes.
    pub fn for_api() -> (w: ReadinessWait)
        ensures
            w.remaining() == 30,
    {
        ReadinessWait { attempts_left: 30 }
    }

    /// Waiting for the planner bridge: sixty probes.
    pub fn for_bridge() -> (w: ReadinessWait)
        ensures
            w.remaining() == 60,
    {
        ReadinessWait { attempts_left: 60 }
    }

    /// Takes the outcome of one probe: an answer ends the wait; otherwise one probe is used
    /// up, and the wait goes on while any are left.
    pub fn on_probe(&mut self, answered: bool) -> (s: ReadyStep)
        ensures
            answered ==> s == ReadyStep::Ready && final(self).remaining() == old(self).remaining(),
            !answered && old(self).remaining() > 1 ==> s == ReadyStep::Retry
                && final(self).remaining() == old(self).remaining() - 1,
            !answered && old(self).remaining() <= 1 ==> s == ReadyStep::GiveUp
                && final(self).remaining() == 0,
    {
        if answered {
            return ReadyStep::Ready;
        }
        if self.attempts_left > 1 {
            self.attempts_left = self.attempts_left - 1;
            ReadyStep::Retry
        } else {
            self.attempts_left = 0;
            ReadyStep::GiveUp
        }
    }
}

} // verus!
