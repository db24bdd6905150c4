//! Protocol types between agent-manager and cloud-manager.
//!
//! Four kinds of exchange: dispatching tasks, pushing status back, pushing
//! artifacts back, and syncing configuration.
use std::collections::HashMap;
use vstd::prelude::*;

verus! {

/// Lifecycle of a task.
#[derive(Debug, Clone, Copy, PartialEq, Eq, Structural)]
pub enum TaskStatus {
    Pending,
    Running,
    Succeeded,
    Failed,
    Killed,
    Timeout,
}

impl TaskStatus {
    /// The name of the status on the wire and in text.
    pub open spec fn name(self) -> Seq<char> {
        match self {
            TaskStatus::Pending => "pending"@,
            TaskStatus::Running => "running"@,
            TaskStatus::Succeeded => "succeeded"@,
            TaskStatus::Failed => "failed"@,
            TaskStatus::Killed => "killed"@,
            TaskStatus::Timeout => "timeout"@,
        }
    }

    /// Whether the task has ended: every status but `Pending` and `Running`.
    pub fn is_terminal(self) -> (r: bool)
        ensures
            r == !(self is Pending || self is Running),
    {
        matches!(
            self,
            TaskStatus::Succeeded | TaskStatus::Failed | TaskStatus::Killed | TaskStatus::Timeout
        )
    }

    /// The status as text, in snake case: `pending`, `running`, ...
    pub fn to_string(&self) -> (s: String)
        ensures
            s@ == self.name(),
            *self is Pending ==> s@ == "pending"@,
            *self is Running ==> s@ == "running"@,
            *self is Succeeded ==> s@ == "succeeded"@,
            *self is Failed ==> s@ == "failed"@,
            *self is Killed ==> s@ == "killed"@,
            *self is Timeout ==> s@ == "timeout"@,
    {
        match self {
            TaskStatus::Pending => "pending".to_owned(),
            TaskStatus::Running => "running".to_owned(),
            TaskStatus::Succeeded => "succeeded".to_owned(),
            TaskStatus::Failed => "failed".to_owned(),
            TaskStatus::Killed => "killed".to_owned(),
            TaskStatus::Timeout => "timeout".to_owned(),
        }
    }
}

/// Each status is named by its own snake-case word.
pub proof fn lemma_task_status_names(s: TaskStatus)
    ensures
        s is Pending ==> s.name() == "pending"@,
        s is Running ==> s.name() == "running"@,
        s is Succeeded ==> s.name() == "succeeded"@,
        s is Failed ==> s.name() == "failed"@,
        s is Killed ==> s.name() == "killed"@,
        s is Timeout ==> s.name() == "timeout"@,
{
}

/// Two different statuses never share a name.
pub proof fn lemma_task_status_names_distinct(a: TaskStatus, b: TaskStatus)
    ensures
        a.name() == b.name() <==> a == b,
{
    reveal_strlit("pending");
    reveal_strlit("running");
    reveal_strlit("succeeded");
    reveal_strlit("failed");
    reveal_strlit("killed");
    reveal_strlit("timeout");
    if a != b {
        assert(a.name().len() != b.name().len() || a.name()[0] != b.name()[0]
            || a.name()[1] != b.name()[1]);
    }
}

/// LLM token usage.
#[derive(Debug, Clone)]
pub struct TokenUsage {
    pub input: Option<u64>,
    pub output: Option<u64>,
}

impl Default for TokenUsage {
    /// Nothing counted in either direction.
    fn default() -> (r: Self)
        ensures
            r.input is None,
            r.output is None,
    {
        TokenUsage { input: None, output: None }
    }
}

/// A count that was not reported counts as zero.
pub open spec fn count_or_zero(c: Option<u64>) -> u64 {
    match c {
        Some(n) => n,
        None => 0,
    }
}

/// A reported count is read as it is, whatever its size, and only a missing one as zero.
pub proof fn lemma_count_or_zero_keeps_reported_counts(c: Option<u64>, n: u64)
    ensures
        c == Some(n) ==> count_or_zero(c) == n,
        c is None ==> count_or_zero(c) == 0,
        count_or_zero(Some(n)) == n,
{
}

impl TokenUsage {
    /// Input and output tokens, a missing count read as zero.
    pub fn total(&self) -> (r: (u64, u64))
        ensures
            r.0 == count_or_zero(self.input),
            r.1 == count_or_zero(self.output),
            self.input matches Some(n) ==> r.0 == n,
            self.input is None ==> r.0 == 0,
            self.output matches Some(m) ==> r.1 == m,
            self.output is None ==> r.1 == 0,
    {
        (self.input.unwrap_or(0), self.output.unwrap_or(0))
    }
}

/// Request to create a task (cloud-manager → agent-manager `POST /api/v1/tasks`).
#[derive(Debug, Clone)]
pub struct CreateTaskRequest {
    pub task_id: String,
    pub prompt: String,
    pub model: Option<String>,
    pub base_url: Option<String>,
    pub api_key: Option<String>,
    pub context_window: Option<u64>,
    /// Also read under the older name `subagents`.
    pub agents: Vec<String>,
    pub mcps: Vec<String>,
    /// Cached remote MCP tool names, grouped by MCP name; agent-manager merges
    /// them with the built-in tools. Older agent-managers ignore the field.
    pub mcp_tools: HashMap<String, Vec<String>>,
    pub skills: Vec<String>,
    /// Initial files with their content inline.
    pub files: HashMap<String, String>,
    /// References to initial files whose content lives in cloud-manager's
    /// blob store; unlike `files`, these are not bound by the payload size limit.
    pub file_refs: Vec<TaskFileRef>,
    /// Task environment, passed to the agent process and the MCP processes it starts.
    pub env: HashMap<String, String>,
    pub timeout_secs: u64,
    pub memory_limit_mb: u64,
}

impl Default for CreateTaskRequest {
    /// Every text empty, every option absent, every list and map empty, every number zero:
    /// what a payload that lacks a field reads as.
    fn default() -> (r: Self)
        ensures
            r.task_id@ == Seq::<char>::empty(),
            r.prompt@ == Seq::<char>::empty(),
            r.model is None,
            r.base_url is None,
            r.api_key is None,
            r.context_window is None,
            r.agents@ == Seq::<String>::empty(),
            r.mcps@ == Seq::<String>::empty(),
            r.mcp_tools@ == Map::<String, Vec<String>>::empty(),
            r.skills@ == Seq::<String>::empty(),
            r.files@ == Map::<String, String>::empty(),
            r.file_refs@ == Seq::<TaskFileRef>::empty(),
            r.env@ == Map::<String, String>::empty(),
            r.timeout_secs == 0,
            r.memory_limit_mb == 0,
    {
        CreateTaskRequest {
            task_id: String::new(),
            prompt: String::new(),
            model: None,
            base_url: None,
            api_key: None,
            context_window: None,
            agents: Vec::new(),
            mcps: Vec::new(),
            mcp_tools: HashMap::new(),
            skills: Vec::new(),
            files: HashMap::new(),
            file_refs: Vec::new(),
            env: HashMap::new(),
            timeout_secs: 0,
            memory_limit_mb: 0,
        }
    }
}

/// A reference to an initial task file: the content is in cloud-manager's
/// blob store, and only its key travels here.
#[derive(Debug, Clone, PartialEq, Eq)]
pub struct TaskFileRef {
    /// Relative path inside the task workspace.
    pub name: String,
    /// Blob store key, of the form `agent-task/{file_uuid}`.
    pub blob_key: String,
    /// Expected byte count, for logs and checks only.
    pub size: u64,
}

impl Default for TaskFileRef {
    /// Empty name and key, size zero.
    fn default() -> (r: Self)
        ensures
            r.name@ == Seq::<char>::empty(),
            r.blob_key@ == Seq::<char>::empty(),
            r.size == 0,
    {
        TaskFileRef { name: String::new(), blob_key: String::new(), size: 0 }
    }
}

/// Agent runtime configuration, which agent-manager pulls through sync.
///
/// An empty `llm_sk` is written as null, which agent-manager reads as "keep the
/// default or the current value".
#[derive(Debug, Clone)]
pub struct AgentRuntimeConfig {
    pub max_concurrent_tasks: u64,
    pub sync_interval_secs: u64,
    pub llm_url: String,
    pub llm_model: String,
    pub llm_sk: Option<String>,
    /// Context window of the model, in tokens.
    pub context_window: u64,
    /// Outbound network allow list (`host:port`).
    pub net_allow: Vec<String>,
    /// Read-only sandbox paths.
    pub fs_read: Vec<String>,
    /// Read-write sandbox paths; the task's working directory is added at run time.
    pub fs_read_write: Vec<String>,
    pub compression_min_bytes: u64,
    pub artifact_retention_secs: u64,
    /// Extension policy: safe / balanced / permissive.
    pub extension_policy: String,
    /// Whether the agent runs inside the sandbox.
    pub use_sandbox: bool,
    /// Model for the cheap and quick role.
    pub smol: Option<String>,
    /// Model for the deep reasoning role.
    pub slow: Option<String>,
    /// Model for plan mode.
    pub plan: Option<String>,
    /// Second model that reviews turns.
    pub advisor: Option<String>,
    /// Start in read-only plan mode until a plan is approved.
    pub plan_mode: bool,
    /// Approve submitted plans automatically.
    pub plan_yolo: bool,
    /// Tool approval mode: always-ask / write / yolo.
    pub approval_mode: String,
    /// Provider request timeout in seconds; 0 means none.
    pub request_timeout_secs: u64,
    /// Extended thinking level: off / minimal / low / medium / high / xhigh / max.
    pub thinking: String,
    /// Replaces the system prompt.
    pub system_prompt: String,
    /// Appended to the system prompt.
    pub append_system_prompt: String,
    /// Internal base address of cloud-manager, from which task files are fetched.
    pub cloud_manager_url: String,
}

impl Default for AgentRuntimeConfig {
    /// The configuration an agent-manager runs with until it syncs, and the value
    /// of every field that a synced configuration leaves out.
    fn default() -> (r: Self)
        ensures
            r.max_concurrent_tasks == 10,
            r.sync_interval_secs == 60,
            r.llm_url@ == "http://tokengateway.wasmcloud.svc:80/v1"@,
            r.llm_model@ == "agent-manager"@,
            r.llm_sk is None,
            r.context_window == 200_000,
            r.net_allow@.len() == 1,
            r.net_allow@[0]@ == "tokengateway.wasmcloud.svc:80"@,
            r.fs_read@.len() == 5,
            r.fs_read@[0]@ == "/usr"@,
            r.fs_read@[1]@ == "/lib"@,
            r.fs_read@[2]@ == "/lib64"@,
            r.fs_read@[3]@ == "/bin"@,
            r.fs_read@[4]@ == "/etc"@,
            r.fs_read_write@ == Seq::<String>::empty(),
            r.compression_min_bytes == 1024,
            r.artifact_retention_secs == 3600,
            r.extension_policy@ == "balanced"@,
            !r.use_sandbox,
            r.smol is None,
            r.slow is None,
            r.plan is None,
            r.advisor is None,
            !r.plan_mode,
            !r.plan_yolo,
            r.approval_mode@ == "always-ask"@,
            r.request_timeout_secs == 60,
            r.thinking@ == "medium"@,
            r.system_prompt@ == Seq::<char>::empty(),
            r.append_system_prompt@ == Seq::<char>::empty(),
            r.cloud_manager_url@ == Seq::<char>::empty(),
    {
        AgentRuntimeConfig {
            max_concurrent_tasks: 10,
            sync_interval_secs: 60,
            llm_url: "http://tokengateway.wasmcloud.svc:80/v1".to_owned(),
            llm_model: "agent-manager".to_owned(),
            llm_sk: None,
            context_window: 200_000,
            net_allow: vec!["tokengateway.wasmcloud.svc:80".to_owned()],
            fs_read: vec![
                "/usr".to_owned(),
                "/lib".to_owned(),
                "/lib64".to_owned(),
                "/bin".to_owned(),
                "/etc".to_owned(),
            ],
            fs_read_write: Vec::new(),
            compression_min_bytes: 1024,
            artifact_retention_secs: 3600,
            extension_policy: "balanced".to_owned(),
            use_sandbox: false,
            smol: None,
            slow: None,
            plan: None,
            advisor: None,
            plan_mode: false,
            plan_yolo: false,
            approval_mode: "always-ask".to_owned(),
            request_timeout_secs: 60,
            thinking: "medium".to_owned(),
            system_prompt: String::new(),
            append_system_prompt: String::new(),
            cloud_manager_url: String::new(),
        }
    }
}

/// A skill in the sync manifest.
#[derive(Debug, Clone)]
pub struct SkillEntry {
    pub name: String,
    pub updated_at: Option<i64>,
    /// The whole SKILL.md, sent inline with the manifest.
    pub content: String,
    pub attachments: Vec<AttachmentEntry>,
}

/// A file of a skill other than SKILL.md; `name` is its path relative to the
/// skill's root.
///
/// One type serves two directions: an upload carries `content` inline (base64
/// when `binary`), while the sync manifest carries no content, only `blob_key`,
/// `size` and `sha256`, and agent-manager downloads the bytes on demand.
#[derive(Debug, Clone)]
pub struct AttachmentEntry {
    /// Path relative to the skill's root, such as `references/aitable.md`.
    /// The writing side must refuse absolute paths, `..` and empty segments.
    pub name: String,
    /// File content, in uploads only: the text itself, or base64 when `binary`.
    /// Empty in the manifest, where it is left out of the output.
    pub content: String,
    /// Whether the file is binary.
    pub binary: bool,
    /// Blob store key; empty means no blob, and the reader falls back to `content`.
    pub blob_key: String,
    /// Byte count of the file as written to disk.
    pub size: u64,
    /// Lower-case hex digest of the file's bytes as written to disk.
    pub sha256: String,
}

/// An MCP server in the sync manifest.
#[derive(Debug, Clone)]
pub struct McpEntry {
    pub name: String,
    pub updated_at: Option<i64>,
    /// The MCP configuration as JSON, sent inline.
    pub content: String,
}

/// A subagent in the sync manifest.
#[derive(Debug, Clone)]
pub struct SubagentEntry {
    pub name: String,
    pub updated_at: Option<i64>,
    /// The subagent's markdown (front matter and system prompt), sent inline.
    pub content: String,
}

/// An executable in the sync manifest: metadata only, the content is fetched on demand.
#[derive(Debug, Clone)]
pub struct BinaryEntry {
    /// File name in the binary directory, and the name it is called by.
    pub name: String,
    /// Blob store key, `agent-binary/<uuid>`.
    pub blob_key: String,
    /// Byte count of the uncompressed file.
    pub size: u64,
    /// Hex digest of the uncompressed file.
    pub sha256: String,
    /// Byte count as stored (compressed); 0 means unknown.
    pub stored_size: u64,
    /// Storage encoding: empty for as-is, `gzip` for a gzip stream.
    pub encoding: String,
    pub updated_at: Option<i64>,
}

/// Sync response (cloud-manager `GET /api/sync` → agent-manager).
#[derive(Debug, Clone)]
pub struct SyncManifest {
    pub updated_at: i64,
    pub config: Option<AgentRuntimeConfig>,
    pub skills: Vec<SkillEntry>,
    pub mcp: Vec<McpEntry>,
    pub subagents: Vec<SubagentEntry>,
    /// Enabled executables, metadata only.
    pub binaries: Vec<BinaryEntry>,
}

/// Artifact push (agent-manager → cloud-manager `POST /api/agent/artifacts`).
#[derive(Debug, Clone)]
pub struct ArtifactSubmit {
    pub task_id: String,
    pub submitted_at: String,
    pub artifacts: Vec<ArtifactEntry>,
}

/// One artifact.
#[derive(Debug, Clone)]
pub struct ArtifactEntry {
    pub path: String,
    pub content_base64: String,
    pub size: u64,
}

} // verus!
