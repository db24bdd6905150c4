use cloud_core::{AgentRuntimeConfig, CreateTaskRequest, TaskFileRef, TaskStatus, TokenUsage};

const ALL: [TaskStatus; 6] = [
    TaskStatus::Pending,
    TaskStatus::Running,
    TaskStatus::Succeeded,
    TaskStatus::Failed,
    TaskStatus::Killed,
    TaskStatus::Timeout,
];

#[test]
fn task_status_terminal_states() {
    assert!(!TaskStatus::Pending.is_terminal());
    assert!(!TaskStatus::Running.is_terminal());
    assert!(TaskStatus::Succeeded.is_terminal());
    assert!(TaskStatus::Failed.is_terminal());
    assert!(TaskStatus::Killed.is_terminal());
    assert!(TaskStatus::Timeout.is_terminal());
}

#[test]
fn task_status_text() {
    let names: Vec<String> = ALL.iter().map(|s| s.to_string()).collect();
    assert_eq!(
        names,
        vec!["pending", "running", "succeeded", "failed", "killed", "timeout"]
    );
}

#[test]
fn task_status_names_are_distinct() {
    for a in ALL {
        for b in ALL {
            assert_eq!(a.to_string() == b.to_string(), a == b);
        }
    }
}

#[test]
fn token_usage_missing_counts_are_zero() {
    assert_eq!(TokenUsage::default().total(), (0, 0));
    let u = TokenUsage { input: Some(120), output: None };
    assert_eq!(u.total(), (120, 0));
    let u = TokenUsage { input: None, output: Some(7) };
    assert_eq!(u.total(), (0, 7));
    let u = TokenUsage { input: Some(u64::MAX), output: Some(3) };
    assert_eq!(u.total(), (u64::MAX, 3));
}

#[test]
fn runtime_config_defaults() {
    let c = AgentRuntimeConfig::default();
    assert_eq!(c.max_concurrent_tasks, 10);
    assert_eq!(c.sync_interval_secs, 60);
    assert_eq!(c.llm_url, "http://tokengateway.wasmcloud.svc:80/v1");
    assert_eq!(c.llm_model, "agent-manager");
    assert_eq!(c.llm_sk, None);
    assert_eq!(c.context_window, 200_000);
    assert_eq!(c.net_allow, vec!["tokengateway.wasmcloud.svc:80".to_string()]);
    assert_eq!(c.fs_read, vec!["/usr", "/lib", "/lib64", "/bin", "/etc"]);
    assert!(c.fs_read_write.is_empty());
    assert_eq!(c.compression_min_bytes, 1024);
    assert_eq!(c.artifact_retention_secs, 3600);
    assert_eq!(c.extension_policy, "balanced");
    assert!(!c.use_sandbox);
    assert!(c.smol.is_none() && c.slow.is_none() && c.plan.is_none() && c.advisor.is_none());
    assert!(!c.plan_mode && !c.plan_yolo);
    assert_eq!(c.approval_mode, "always-ask");
    assert_eq!(c.request_timeout_secs, 60);
    assert_eq!(c.thinking, "medium");
    assert!(c.system_prompt.is_empty());
    assert!(c.append_system_prompt.is_empty());
    assert!(c.cloud_manager_url.is_empty());
}

#[test]
fn create_task_request_defaults_are_empty() {
    let r = CreateTaskRequest::default();
    assert!(r.task_id.is_empty() && r.prompt.is_empty());
    assert!(r.model.is_none() && r.base_url.is_none() && r.api_key.is_none());
    assert!(r.context_window.is_none());
    assert!(r.agents.is_empty() && r.mcps.is_empty() && r.skills.is_empty());
    assert!(r.mcp_tools.is_empty() && r.files.is_empty() && r.env.is_empty());
    assert!(r.file_refs.is_empty());
    assert_eq!(r.timeout_secs, 0);
    assert_eq!(r.memory_limit_mb, 0);
}

#[test]
fn task_file_ref_default() {
    assert_eq!(
        TaskFileRef::default(),
        TaskFileRef { name: String::new(), blob_key: String::new(), size: 0 }
    );
}
