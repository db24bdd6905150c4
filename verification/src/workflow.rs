//! Protocol types between cloud-manager and workflow-manager.
//!
//! workflow-manager is a native worker fed by the task queue: cloud-manager
//! produces requests as task payloads, and workflow-manager reports each
//! execution's result as task output. Heartbeat `info` uses these types too.
//!
//! One execution may be delivered several times: a first `start`, then one
//! `continue` for every interrupt point it stops at. Both share `exec_id` as
//! their idempotency key.
use vstd::prelude::*;

verus! {

/// A request for workflow-manager; the `type` tag tells a start from a continue.
#[derive(Debug, Clone)]
pub enum WorkflowRequest {
    /// Start a new workflow execution.
    Start(WorkflowStartRequest),
    /// Resume the workflow parked at `nid`.
    Continue(WorkflowContinueRequest),
}

impl WorkflowRequest {
    /// The idempotency key of the execution this request belongs to.
    pub open spec fn spec_exec_id(&self) -> Seq<char> {
        match self {
            WorkflowRequest::Start(req) => req.exec_id@,
            WorkflowRequest::Continue(req) => req.exec_id@,
        }
    }

    /// Idempotency key: a start and every continue it leads to share it.
    pub fn exec_id(&self) -> (id: &str)
        ensures
            id@ == self.spec_exec_id(),
            self matches WorkflowRequest::Start(req) ==> id@ == req.exec_id@,
            self matches WorkflowRequest::Continue(req) ==> id@ == req.exec_id@,
    {
        match self {
            WorkflowRequest::Start(req) => req.exec_id.as_str(),
            WorkflowRequest::Continue(req) => req.exec_id.as_str(),
        }
    }
}

/// The key of a start is its own `exec_id`, and so is the key of a continue;
/// a start and a continue that carry the same `exec_id` share one key,
/// whatever else they hold.
pub proof fn lemma_exec_id_is_the_requests_own(
    start: WorkflowStartRequest,
    cont: WorkflowContinueRequest,
)
    ensures
        WorkflowRequest::Start(start).spec_exec_id() == start.exec_id@,
        WorkflowRequest::Continue(cont).spec_exec_id() == cont.exec_id@,
        start.exec_id@ == cont.exec_id@ ==> WorkflowRequest::Start(start).spec_exec_id()
            == WorkflowRequest::Continue(cont).spec_exec_id(),
{
}

/// Starts one workflow execution.
#[derive(Debug, Clone)]
pub struct WorkflowStartRequest {
    /// Business execution id; doubles as idempotency key and process id.
    pub exec_id: String,
    /// The automation rule that triggered this run; keeps rules' models apart.
    pub rule_id: String,
    /// The workflow definition, already converted (JSON or YAML text).
    pub workflow_def: String,
    /// Initial variables injected into the process.
    pub vars: Vec<VarPair>,
    /// Timeout of one execution in seconds; 0 leaves it to the worker.
    pub timeout_secs: u64,
}

impl Default for WorkflowStartRequest {
    /// Every field empty or zero: what a payload that lacks them reads as.
    fn default() -> (r: Self)
        ensures
            r.exec_id@ == Seq::<char>::empty(),
            r.rule_id@ == Seq::<char>::empty(),
            r.workflow_def@ == Seq::<char>::empty(),
            r.vars@ == Seq::<VarPair>::empty(),
            r.timeout_secs == 0,
    {
        WorkflowStartRequest {
            exec_id: String::new(),
            rule_id: String::new(),
            workflow_def: String::new(),
            vars: Vec::new(),
            timeout_secs: 0,
        }
    }
}

/// Resumes a parked workflow.
///
/// Replica independent: any replica may take it over, given a shared store.
#[derive(Debug, Clone)]
pub struct WorkflowContinueRequest {
    /// Idempotency key, equal to the `exec_id` of the matching start.
    pub exec_id: String,
    /// Process id, as the first start reported it.
    pub pid: String,
    /// Task id of the parked act; locates the act to complete.
    pub tid: String,
    /// Node id of the parked act; for observation and checks only.
    pub nid: String,
    /// The act's outputs, fed back as process variables.
    pub outputs: Vec<VarPair>,
    /// When present, the parked point failed: the worker fails the act
    /// instead of completing it.
    pub error: Option<String>,
}

impl Default for WorkflowContinueRequest {
    /// Every field empty, and no error: an older producer's payload reads as a plain continue.
    fn default() -> (r: Self)
        ensures
            r.exec_id@ == Seq::<char>::empty(),
            r.pid@ == Seq::<char>::empty(),
            r.tid@ == Seq::<char>::empty(),
            r.nid@ == Seq::<char>::empty(),
            r.outputs@ == Seq::<VarPair>::empty(),
            r.error is None,
    {
        WorkflowContinueRequest {
            exec_id: String::new(),
            pid: String::new(),
            tid: String::new(),
            nid: String::new(),
            outputs: Vec::new(),
            error: None,
        }
    }
}

/// A process variable as a key and a value.
#[derive(Debug, Clone, PartialEq, Eq)]
pub struct VarPair {
    pub key: String,
    pub value: String,
}

impl VarPair {
    /// Builds a pair from its key and its value.
    pub fn new(key: &str, value: &str) -> (pair: Self)
        ensures
            pair.key@ == key@,
            pair.value@ == value@,
    {
        VarPair { key: key.to_owned(), value: value.to_owned() }
    }
}

impl Default for VarPair {
    /// An empty key with an empty value.
    fn default() -> (r: Self)
        ensures
            r.key@ == Seq::<char>::empty(),
            r.value@ == Seq::<char>::empty(),
    {
        VarPair { key: String::new(), value: String::new() }
    }
}

/// The result envelope that workflow-manager sends back to cloud-manager.
#[derive(Debug, Clone, PartialEq)]
pub struct WorkflowResultEnvelope {
    pub exec_id: String,
    /// Process id, for later continues.
    pub pid: String,
    pub status: WorkflowStatus,
    /// Task id of the parked point; only set when `status` is `Suspended`.
    pub tid: Option<String>,
    /// Node id of the parked point; only set when `status` is `Suspended`.
    pub nid: Option<String>,
    /// Inputs of the parked act, from which the client decides what to dispatch.
    pub inputs: Vec<VarPair>,
    /// Final process variables; meaningful only when `status` is `Succeeded`.
    pub outputs: Vec<VarPair>,
    /// Why it failed; only set when `status` is `Failed`.
    pub error: Option<String>,
}

impl Default for WorkflowResultEnvelope {
    /// An empty envelope, parked: `Suspended` with no task, node or error.
    fn default() -> (r: Self)
        ensures
            r.exec_id@ == Seq::<char>::empty(),
            r.pid@ == Seq::<char>::empty(),
            r.status == WorkflowStatus::Suspended,
            r.tid is None,
            r.nid is None,
            r.inputs@ == Seq::<VarPair>::empty(),
            r.outputs@ == Seq::<VarPair>::empty(),
            r.error is None,
    {
        WorkflowResultEnvelope {
            exec_id: String::new(),
            pid: String::new(),
            status: WorkflowStatus::default(),
            tid: None,
            nid: None,
            inputs: Vec::new(),
            outputs: Vec::new(),
            error: None,
        }
    }
}

/// Where one execution stands when a delivery ends.
#[derive(Debug, Clone, Copy, PartialEq, Eq, Structural)]
pub enum WorkflowStatus {
    /// Parked at an interrupt point, waiting for the client to deliver a continue.
    Suspended,
    Succeeded,
    Failed,
}

impl Default for WorkflowStatus {
    /// A fresh status is `Suspended`.
    fn default() -> (r: Self)
        ensures
            r == WorkflowStatus::Suspended,
    {
        WorkflowStatus::Suspended
    }
}

impl WorkflowStatus {
    /// Whether nothing is left to drive forward: every status but `Suspended`.
    pub fn is_terminal(self) -> (r: bool)
        ensures
            r == !(self is Suspended),
    {
        !matches!(self, WorkflowStatus::Suspended)
    }
}

/// Heartbeat `info` payload, for watching an execution make progress.
///
/// The `nid` of a parked point is the one in `WorkflowResultEnvelope`; the
/// heartbeat only reports progress and takes no part in control flow.
#[derive(Debug, Clone)]
pub struct WorkflowProgress {
    pub exec_id: String,
    pub pid: String,
    pub phase: WorkflowPhase,
    /// Node id of the current act.
    pub node: Option<String>,
}

impl Default for WorkflowProgress {
    /// Empty ids, phase `Running`, no node.
    fn default() -> (r: Self)
        ensures
            r.exec_id@ == Seq::<char>::empty(),
            r.pid@ == Seq::<char>::empty(),
            r.phase == WorkflowPhase::Running,
            r.node is None,
    {
        WorkflowProgress {
            exec_id: String::new(),
            pid: String::new(),
            phase: WorkflowPhase::default(),
            node: None,
        }
    }
}

/// The phase of an execution.
#[derive(Debug, Clone, Copy, PartialEq, Eq, Structural)]
pub enum WorkflowPhase {
    /// Started moving forward.
    Running,
    /// Parked at an interrupt point.
    Suspended,
    /// Ended normally.
    Completed,
    /// Ended with an error.
    Failed,
}

impl Default for WorkflowPhase {
    /// A fresh phase is `Running`.
    fn default() -> (r: Self)
        ensures
            r == WorkflowPhase::Running,
    {
        WorkflowPhase::Running
    }
}

} // verus!
