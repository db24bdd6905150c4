//! Protocol types shared by cloud-manager, agent-manager, tokengateway and
//! workflow-manager: the request and response structures they exchange.
use vstd::prelude::*;

pub mod agent;
pub mod tg;
pub mod workflow;

pub use agent::{
    AgentRuntimeConfig, ArtifactEntry, ArtifactSubmit, AttachmentEntry, BinaryEntry,
    CreateTaskRequest, McpEntry, SkillEntry, SubagentEntry, SyncManifest, TaskFileRef, TaskStatus,
    TokenUsage,
};
pub use tg::{
    default_attempt_role, default_true, fallback_rewrite_model_names, ActiveWindow, AuthKeyRow,
    AuthUserRow, GroupStrategy, PatternRule, Provider, ProviderAuth, ProviderGroup, Route,
    RouteMatchType, RouteRaw, TgSyncManifest, Tier,
};
pub use workflow::{
    VarPair, WorkflowContinueRequest, WorkflowPhase, WorkflowProgress, WorkflowRequest,
    WorkflowResultEnvelope, WorkflowStartRequest, WorkflowStatus,
};
