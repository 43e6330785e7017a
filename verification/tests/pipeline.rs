use fleet_apply::assemble::{assemble_tasks, SelectedNode, SkipReason};
use fleet_apply::error::ConstructionError;
use fleet_apply::goal::DeploymentGoal;
use fleet_apply::options::TransferOptions;
use fleet_apply::state::{
    step, FailureCause, PipelineEvent, TaskState,
};
use fleet_apply::task::{ConnectionDescriptor, DeploymentTask};

fn node(name: &str, resolved: bool) -> SelectedNode {
    SelectedNode {
        name: String::from(name),
        artifact: format!("/store/{}-system", name),
        connection: if resolved {
            Some(ConnectionDescriptor::new(format!("{}.example", name)))
        } else {
            None
        },
    }
}

#[test]
fn goal_tokens_parse() {
    assert_eq!(DeploymentGoal::from_str("push"), Some(DeploymentGoal::Push));
    assert_eq!(DeploymentGoal::from_str("switch"), Some(DeploymentGoal::Switch));
    assert_eq!(DeploymentGoal::from_str("boot"), Some(DeploymentGoal::Boot));
    assert_eq!(DeploymentGoal::from_str("test"), Some(DeploymentGoal::Test));
    assert_eq!(DeploymentGoal::from_str("dry-activate"), Some(DeploymentGoal::DryActivate));
}

#[test]
fn malformed_goal_token_is_a_construction_error() {
    assert_eq!(DeploymentGoal::from_str("reboot"), None);
    assert_eq!(DeploymentGoal::from_str(""), None);
    assert_eq!(DeploymentGoal::parse("Switch"), Err(ConstructionError::InvalidGoalToken));
    assert_eq!(DeploymentGoal::parse("boot"), Ok(DeploymentGoal::Boot));
}

#[test]
fn goal_token_round_trip() {
    for g in [
        DeploymentGoal::Push,
        DeploymentGoal::Switch,
        DeploymentGoal::Boot,
        DeploymentGoal::Test,
        DeploymentGoal::DryActivate,
    ] {
        assert_eq!(DeploymentGoal::from_str(g.token()), Some(g));
    }
}

#[test]
fn only_push_skips_activation() {
    assert!(!DeploymentGoal::Push.requires_activation());
    assert!(DeploymentGoal::Switch.requires_activation());
    assert!(DeploymentGoal::Boot.requires_activation());
    assert!(DeploymentGoal::Test.requires_activation());
    assert!(DeploymentGoal::DryActivate.requires_activation());
}

#[test]
fn transfer_options_default_and_flags() {
    let d = TransferOptions::default();
    assert!(d.use_compression);
    assert!(d.use_substitutes);
    let o = TransferOptions::default().gzip(false).use_substitutes(true);
    assert!(!o.use_compression);
    assert!(o.use_substitutes);
    let f = TransferOptions::from_flags(true, true);
    assert!(!f.use_compression);
    assert!(!f.use_substitutes);
}

#[test]
fn task_construction_keeps_fields() {
    let mut t = DeploymentTask::new(
        String::from("a"),
        ConnectionDescriptor::new(String::from("a.example")),
        String::from("/store/a-system"),
        DeploymentGoal::Switch,
    );
    assert_eq!(t.name, "a");
    assert_eq!(t.goal, DeploymentGoal::Switch);
    assert!(t.options.use_compression);
    t.set_copy_options(TransferOptions::from_flags(true, false));
    assert!(!t.options.use_compression);
    assert!(t.options.use_substitutes);
}

#[test]
fn partition_covers_and_is_disjoint() {
    let selection = vec![
        node("a", true),
        node("b", false),
        node("c", true),
        node("d", false),
        node("e", false),
    ];
    let (tasks, skips) =
        assemble_tasks(&selection, &DeploymentGoal::Switch, &TransferOptions::default());
    assert_eq!(tasks.len() + skips.len(), selection.len());
    assert_eq!(tasks.len(), 2);
    assert_eq!(skips.len(), 3);
    for t in &tasks {
        for s in &skips {
            assert_ne!(t.name, s.name);
        }
    }
    assert_eq!(tasks[0].name, "a");
    assert_eq!(tasks[1].name, "c");
    assert_eq!(skips[0].name, "b");
    assert_eq!(skips[0].reason, SkipReason::ConnectionUnresolved);
}

#[test]
fn empty_selection_partitions_to_nothing() {
    let selection: Vec<SelectedNode> = Vec::new();
    let (tasks, skips) =
        assemble_tasks(&selection, &DeploymentGoal::Switch, &TransferOptions::default());
    assert!(tasks.is_empty());
    assert!(skips.is_empty());
}

#[test]
fn step_follows_the_pipeline() {
    let push = DeploymentGoal::Push;
    let switch = DeploymentGoal::Switch;
    assert_eq!(
        step(&push, &TaskState::Transferring, &PipelineEvent::TransferFinished(true)),
        TaskState::Succeeded,
    );
    assert_eq!(
        step(&switch, &TaskState::Transferring, &PipelineEvent::TransferFinished(true)),
        TaskState::Activating,
    );
    assert_eq!(
        step(&switch, &TaskState::Transferring, &PipelineEvent::TransferFinished(false)),
        TaskState::Failed(FailureCause::TransferError),
    );
    assert_eq!(
        step(&switch, &TaskState::Activating, &PipelineEvent::ActivationFinished(true)),
        TaskState::Succeeded,
    );
    assert_eq!(
        step(&switch, &TaskState::Activating, &PipelineEvent::ActivationFinished(false)),
        TaskState::Failed(FailureCause::ActivationError),
    );
}
