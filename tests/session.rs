use claude_agent::cli::{select_cli, PathProbe};
use claude_agent::session::{Session, SessionManager};
use claude_agent::ClaudeAgentError;

#[test]
fn sessions_are_created_resumed_and_deactivated() {
    let mut manager = SessionManager::new();
    assert!(manager.current_session().is_none());
    let first = manager.create_session().id.clone();
    let second = manager.create_session().id.clone();
    assert_ne!(first, second);
    assert!(manager.get_session(&first).is_some());
    assert_eq!(manager.current_session().unwrap().id, second);
    assert_eq!(manager.resume_session(&first).unwrap().id, first);
    assert_eq!(manager.current_session().unwrap().id, first);
    assert!(manager.resume_session("missing").is_none());
    assert_eq!(manager.current_session().unwrap().id, first);
    manager.deactivate_current();
    assert!(!manager.get_session(&first).unwrap().is_active);
    assert!(manager.get_session(&second).unwrap().is_active);
}

#[test]
fn checkpoints_are_kept_in_order_and_forks_copy_them() {
    let mut session = Session::with_id("s-1".to_string());
    assert!(session.last_checkpoint().is_none());
    session.add_checkpoint_at("m-1".to_string(), 100);
    session.add_checkpoint("m-2".to_string());
    assert_eq!(session.checkpoints.len(), 2);
    assert_eq!(session.checkpoints[0].timestamp, 100);
    assert_eq!(session.last_checkpoint().unwrap().user_message_id, "m-2");
    let fork = session.fork();
    assert_ne!(fork.id, session.id);
    assert!(fork.is_active);
    assert_eq!(fork.checkpoints.len(), 2);
    session.deactivate();
    assert!(!session.is_active);
}

fn probe(exists: bool, is_file: bool, executable: bool) -> PathProbe {
    PathProbe { exists, access_error: None, is_file, executable }
}

#[test]
fn executable_discovery_follows_its_policy() {
    let good = probe(true, true, true);
    assert_eq!(select_cli(Some(("/x/agent-cli".to_string(), good.clone())), Some("/bin/agent-cli".to_string()), &vec![]).unwrap(), "/x/agent-cli");
    match select_cli(Some(("/x/dir".to_string(), probe(true, false, true))), None, &vec![]) {
        Err(ClaudeAgentError::CLINotFound(d)) => assert_eq!(d, "CLI path is not a file: /x/dir"),
        other => panic!("unexpected {:?}", other),
    }
    match select_cli(Some(("/x/f".to_string(), probe(true, true, false))), None, &vec![]) {
        Err(ClaudeAgentError::CLINotFound(d)) => assert_eq!(d, "CLI is not executable: /x/f"),
        other => panic!("unexpected {:?}", other),
    }
    match select_cli(Some(("/nope".to_string(), probe(false, false, false))), Some("/bin/agent-cli".to_string()), &vec![]) {
        Err(ClaudeAgentError::CLINotFound(d)) => assert_eq!(d, "Specified CLI path does not exist: /nope"),
        other => panic!("unexpected {:?}", other),
    }
    assert_eq!(select_cli(None, Some("/bin/agent-cli".to_string()), &vec![("/a".to_string(), good.clone())]).unwrap(), "/bin/agent-cli");
    let candidates = vec![
        ("/a".to_string(), probe(false, false, false)),
        ("/b".to_string(), probe(true, true, false)),
        ("/c".to_string(), good.clone()),
        ("/d".to_string(), good),
    ];
    assert_eq!(select_cli(None, None, &candidates).unwrap(), "/c");
    assert!(matches!(select_cli(None, None, &vec![]), Err(ClaudeAgentError::CLINotFound(_))));
}
