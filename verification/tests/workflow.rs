use cloud_core::{
    VarPair, WorkflowContinueRequest, WorkflowPhase, WorkflowProgress, WorkflowRequest,
    WorkflowResultEnvelope, WorkflowStartRequest, WorkflowStatus,
};

#[test]
fn envelope_defaults_to_suspended() {
    let envelope = WorkflowResultEnvelope::default();
    assert_eq!(envelope.status, WorkflowStatus::Suspended);
    assert_eq!(envelope.nid, None);
}

#[test]
fn var_pair_helpers_build_values() {
    let pair = VarPair::new("k", "v");
    assert_eq!(
        pair,
        VarPair {
            key: "k".to_string(),
            value: "v".to_string()
        }
    );
}

fn start(exec_id: &str) -> WorkflowStartRequest {
    WorkflowStartRequest {
        exec_id: exec_id.to_string(),
        rule_id: "rule-1".to_string(),
        workflow_def: "{\"id\":\"automation-rule-1\"}".to_string(),
        vars: vec![VarPair::new("a", "1")],
        timeout_secs: 60,
    }
}

#[test]
fn start_and_continue_share_exec_id() {
    let req = WorkflowRequest::Start(start("exec-1"));
    assert_eq!(req.exec_id(), "exec-1");
    let req = WorkflowRequest::Continue(WorkflowContinueRequest {
        exec_id: "exec-1".to_string(),
        pid: "pid-9".to_string(),
        tid: "task-1".to_string(),
        nid: "step1".to_string(),
        outputs: vec![VarPair::new("result", "ok")],
        error: Some("agent task failed".to_string()),
    });
    assert_eq!(req.exec_id(), "exec-1");
}

#[test]
fn exec_id_is_not_the_pid() {
    let req = WorkflowRequest::Continue(WorkflowContinueRequest {
        exec_id: "e".to_string(),
        pid: "p".to_string(),
        ..WorkflowContinueRequest::default()
    });
    assert_eq!(req.exec_id(), "e");
}

#[test]
fn only_suspended_is_not_terminal() {
    assert!(!WorkflowStatus::Suspended.is_terminal());
    assert!(WorkflowStatus::Succeeded.is_terminal());
    assert!(WorkflowStatus::Failed.is_terminal());
}

#[test]
fn status_and_phase_defaults() {
    assert_eq!(WorkflowStatus::default(), WorkflowStatus::Suspended);
    assert_eq!(WorkflowPhase::default(), WorkflowPhase::Running);
    let p = WorkflowProgress::default();
    assert_eq!(p.phase, WorkflowPhase::Running);
    assert!(p.exec_id.is_empty() && p.pid.is_empty() && p.node.is_none());
}

#[test]
fn start_request_defaults_are_empty() {
    let req = WorkflowStartRequest::default();
    assert_eq!(req.exec_id, "");
    assert_eq!(req.rule_id, "");
    assert_eq!(req.workflow_def, "");
    assert_eq!(req.timeout_secs, 0);
    assert!(req.vars.is_empty());
}

#[test]
fn continue_request_defaults_to_no_error() {
    let req = WorkflowContinueRequest::default();
    assert!(req.error.is_none());
    assert!(req.outputs.is_empty());
    assert_eq!(req.tid, "");
}

#[test]
fn envelope_default_is_empty() {
    let e = WorkflowResultEnvelope::default();
    assert_eq!(e.exec_id, "");
    assert_eq!(e.pid, "");
    assert_eq!(e.tid, None);
    assert!(e.inputs.is_empty() && e.outputs.is_empty());
    assert_eq!(e.error, None);
    assert_eq!(VarPair::default(), VarPair::new("", ""));
}
