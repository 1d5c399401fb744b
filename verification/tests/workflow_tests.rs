use gitph::workflow::{
    release_step, sync_step, ApiResponse, CmdOutput, ReleaseEvent, ReleaseState, SyncEvent,
    SyncState, WorkflowOutcome,
};

fn ok_out(success: bool, stdout: &str, stderr: &str) -> Result<CmdOutput, String> {
    Ok(CmdOutput {
        success,
        stdout: String::from(stdout),
        stderr: String::from(stderr),
    })
}

#[test]
fn sync_happy_path_completes() {
    let s = SyncState::AwaitStage;
    let s = sync_step(s, SyncEvent::StageDone(ok_out(true, "", "")));
    assert_eq!(s, SyncState::AwaitStatus);
    let s = sync_step(s, SyncEvent::StatusReport(ok_out(true, "## main\nM  a.rs", "")));
    assert_eq!(s, SyncState::AwaitMessage);
    let s = sync_step(s, SyncEvent::MessageEntered(Some(String::from("fix the parser"))));
    assert_eq!(s, SyncState::AwaitCommit { message: String::from("fix the parser") });
    let s = sync_step(s, SyncEvent::CommitDone(ok_out(true, "", "")));
    assert_eq!(s, SyncState::AwaitPush);
    let s = sync_step(s, SyncEvent::PushDone(ok_out(true, "", "To origin: done")));
    assert_eq!(
        s,
        SyncState::Finished {
            outcome: WorkflowOutcome::Completed { message: String::from("To origin: done") },
            committed: true,
            pushed: true,
        }
    );
}

#[test]
fn sync_skips_when_nothing_is_staged() {
    let s = SyncState::AwaitStatus;
    let s = sync_step(s, SyncEvent::StatusReport(ok_out(true, "## main\n M unstaged.rs", "")));
    assert_eq!(
        s,
        SyncState::Finished {
            outcome: WorkflowOutcome::Skipped,
            committed: false,
            pushed: false,
        }
    );
    // the flow is over: a commit or push result no longer moves it
    let s = sync_step(s, SyncEvent::CommitDone(ok_out(true, "", "")));
    assert!(matches!(
        s,
        SyncState::Finished { outcome: WorkflowOutcome::Skipped, committed: false, pushed: false }
    ));
    let s = sync_step(s, SyncEvent::PushDone(ok_out(true, "", "")));
    assert!(matches!(s, SyncState::Finished { outcome: WorkflowOutcome::Skipped, .. }));
}

#[test]
fn sync_aborts_when_the_commit_fails() {
    let s = SyncState::AwaitCommit { message: String::from("msg") };
    let s = sync_step(s, SyncEvent::CommitDone(ok_out(false, "", "nothing to commit")));
    assert_eq!(
        s,
        SyncState::Finished {
            outcome: WorkflowOutcome::Aborted {
                reason: String::from("the commit failed: nothing to commit"),
            },
            committed: false,
            pushed: false,
        }
    );
    // the push is never attempted: a push result no longer moves the flow
    let s = sync_step(s, SyncEvent::PushDone(ok_out(true, "", "")));
    assert!(matches!(
        s,
        SyncState::Finished { outcome: WorkflowOutcome::Aborted { .. }, committed: false, .. }
    ));
}

#[test]
fn sync_commit_failure_reports_stdout_when_stderr_is_empty() {
    let s = SyncState::AwaitCommit { message: String::from("msg") };
    let s = sync_step(s, SyncEvent::CommitDone(ok_out(false, "on stdout", "")));
    assert_eq!(
        s,
        SyncState::Finished {
            outcome: WorkflowOutcome::Aborted {
                reason: String::from("the commit failed: on stdout"),
            },
            committed: false,
            pushed: false,
        }
    );
}

#[test]
fn sync_aborts_when_staging_fails() {
    let s = sync_step(
        SyncState::AwaitStage,
        SyncEvent::StageDone(ok_out(false, "", "fatal: not a git repository")),
    );
    assert_eq!(
        s,
        SyncState::Finished {
            outcome: WorkflowOutcome::Aborted {
                reason: String::from("staging failed: fatal: not a git repository"),
            },
            committed: false,
            pushed: false,
        }
    );
}

#[test]
fn sync_aborts_when_the_stage_command_cannot_start() {
    let s = sync_step(
        SyncState::AwaitStage,
        SyncEvent::StageDone(Err(String::from("program not found"))),
    );
    assert_eq!(
        s,
        SyncState::Finished {
            outcome: WorkflowOutcome::Aborted {
                reason: String::from("failed to run the stage command: program not found"),
            },
            committed: false,
            pushed: false,
        }
    );
}

#[test]
fn sync_aborts_on_withheld_or_blank_message() {
    let s = sync_step(SyncState::AwaitMessage, SyncEvent::MessageEntered(None));
    assert!(matches!(
        s,
        SyncState::Finished { outcome: WorkflowOutcome::Aborted { .. }, committed: false, .. }
    ));
    let s = sync_step(
        SyncState::AwaitMessage,
        SyncEvent::MessageEntered(Some(String::from("   \t"))),
    );
    assert!(matches!(
        s,
        SyncState::Finished { outcome: WorkflowOutcome::Aborted { .. }, committed: false, .. }
    ));
}

#[test]
fn push_failure_keeps_the_commit() {
    let s = sync_step(
        SyncState::AwaitPush,
        SyncEvent::PushDone(ok_out(false, "", "rejected: fetch first")),
    );
    assert_eq!(
        s,
        SyncState::Finished {
            outcome: WorkflowOutcome::Aborted {
                reason: String::from(
                    "the push failed (the commit exists locally; push it manually): rejected: fetch first",
                ),
            },
            committed: true,
            pushed: false,
        }
    );
}

#[test]
fn push_success_message_prefers_the_diagnostic_stream() {
    let s = sync_step(
        SyncState::AwaitPush,
        SyncEvent::PushDone(ok_out(true, "on stdout", "on stderr")),
    );
    assert_eq!(
        s,
        SyncState::Finished {
            outcome: WorkflowOutcome::Completed { message: String::from("on stderr") },
            committed: true,
            pushed: true,
        }
    );
    let s = sync_step(SyncState::AwaitPush, SyncEvent::PushDone(ok_out(true, "on stdout", "")));
    assert!(matches!(
        s,
        SyncState::Finished { outcome: WorkflowOutcome::Completed { message }, .. }
            if message == "on stdout"
    ));
}

#[test]
fn release_aborts_when_the_sync_is_skipped() {
    let s = ReleaseState::Syncing { sync: SyncState::AwaitStatus };
    let s = release_step(
        s,
        ReleaseEvent::Sync(SyncEvent::StatusReport(ok_out(true, "## main", ""))),
    );
    assert_eq!(
        s,
        ReleaseState::Finished {
            outcome: WorkflowOutcome::Aborted {
                reason: String::from(
                    "nothing to release: the sync found no staged changes and made no commit",
                ),
            },
        }
    );
    // the remote URL is never resolved: its result no longer moves the flow
    let s = release_step(s, ReleaseEvent::RemoteUrl(ok_out(true, "git@github.com:a/b.git", "")));
    assert!(matches!(s, ReleaseState::Finished { .. }));
}

#[test]
fn release_keeps_the_sync_abort_reason() {
    let s = ReleaseState::Syncing { sync: SyncState::AwaitStage };
    let s = release_step(
        s,
        ReleaseEvent::Sync(SyncEvent::StageDone(Err(String::from("no such program")))),
    );
    assert_eq!(
        s,
        ReleaseState::Finished {
            outcome: WorkflowOutcome::Aborted {
                reason: String::from("failed to run the stage command: no such program"),
            },
        }
    );
}

#[test]
fn release_happy_path_completes_with_the_release_address() {
    let s = ReleaseState::Syncing { sync: SyncState::AwaitStage };
    let s = release_step(s, ReleaseEvent::Sync(SyncEvent::StageDone(ok_out(true, "", ""))));
    let s = release_step(
        s,
        ReleaseEvent::Sync(SyncEvent::StatusReport(ok_out(true, "## main\nA  f.rs", ""))),
    );
    let s = release_step(
        s,
        ReleaseEvent::Sync(SyncEvent::MessageEntered(Some(String::from("cut a release")))),
    );
    let s = release_step(s, ReleaseEvent::Sync(SyncEvent::CommitDone(ok_out(true, "", ""))));
    let s = release_step(s, ReleaseEvent::Sync(SyncEvent::PushDone(ok_out(true, "", "sent"))));
    assert_eq!(s, ReleaseState::AwaitRemoteUrl);
    let s = release_step(
        s,
        ReleaseEvent::RemoteUrl(ok_out(true, "git@github.com:acme/widget.git\n", "")),
    );
    assert_eq!(
        s,
        ReleaseState::AwaitTagName { owner: String::from("acme"), repo: String::from("widget") }
    );
    let s = release_step(s, ReleaseEvent::TagNameEntered(Some(String::from("v1.2.0"))));
    let s = release_step(s, ReleaseEvent::NotesEntered(Some(String::from("First stable cut."))));
    let s = release_step(s, ReleaseEvent::TagCreated(ok_out(true, "", "")));
    let s = release_step(s, ReleaseEvent::TagPushed(ok_out(true, "", "tag sent")));
    let s = release_step(
        s,
        ReleaseEvent::TokenLoaded(Ok(Some(String::from("SECRET-REDACTED")))),
    );
    let s = release_step(
        s,
        ReleaseEvent::PublishDone(Ok(ApiResponse { status: 201, message: None })),
    );
    assert_eq!(
        s,
        ReleaseState::Finished {
            outcome: WorkflowOutcome::Completed {
                message: String::from("https://github.com/acme/widget/releases/tag/v1.2.0"),
            },
        }
    );
}

#[test]
fn release_aborts_on_unrecognised_remote_url() {
    let s = ReleaseState::AwaitRemoteUrl;
    let s = release_step(
        s,
        ReleaseEvent::RemoteUrl(ok_out(true, "https://gitlab.com/a/b.git\n", "")),
    );
    match s {
        ReleaseState::Finished { outcome: WorkflowOutcome::Aborted { reason } } => {
            assert!(reason.contains("https://gitlab.com/a/b.git"));
            assert!(reason.contains("unrecognized"));
        }
        other => panic!("expected an aborted flow, got {:?}", other),
    }
}

#[test]
fn release_aborts_on_blank_tag_or_notes() {
    let base = || ReleaseState::AwaitTagName {
        owner: String::from("a"),
        repo: String::from("b"),
    };
    let s = release_step(base(), ReleaseEvent::TagNameEntered(None));
    assert!(matches!(s, ReleaseState::Finished { .. }));
    let s = release_step(base(), ReleaseEvent::TagNameEntered(Some(String::from("  "))));
    assert!(matches!(s, ReleaseState::Finished { .. }));
    let notes_state = ReleaseState::AwaitNotes {
        owner: String::from("a"),
        repo: String::from("b"),
        tag: String::from("v1"),
    };
    let s = release_step(notes_state, ReleaseEvent::NotesEntered(Some(String::from(""))));
    assert!(matches!(s, ReleaseState::Finished { .. }));
}

#[test]
fn tag_creation_failure_stops_before_any_push() {
    let details = gitph::workflow::ReleaseDetails {
        owner: String::from("a"),
        repo: String::from("b"),
        tag: String::from("v1"),
        notes: String::from("n"),
    };
    let s = ReleaseState::AwaitTagCreate { details };
    let s = release_step(s, ReleaseEvent::TagCreated(ok_out(false, "", "tag exists")));
    assert_eq!(
        s,
        ReleaseState::Finished {
            outcome: WorkflowOutcome::Aborted {
                reason: String::from("creating the tag failed: tag exists"),
            },
        }
    );
    let s = release_step(s, ReleaseEvent::TagPushed(ok_out(true, "", "")));
    assert!(matches!(s, ReleaseState::Finished { .. }));
}

#[test]
fn release_aborts_without_a_token() {
    let details = gitph::workflow::ReleaseDetails {
        owner: String::from("a"),
        repo: String::from("b"),
        tag: String::from("v1"),
        notes: String::from("n"),
    };
    let s = ReleaseState::AwaitToken { details };
    let s = release_step(s, ReleaseEvent::TokenLoaded(Ok(None)));
    assert_eq!(
        s,
        ReleaseState::Finished {
            outcome: WorkflowOutcome::Aborted {
                reason: String::from(
                    "GitHub token not configured: add github_token to the configuration file",
                ),
            },
        }
    );
}

#[test]
fn publish_failure_surfaces_the_server_message() {
    let details = gitph::workflow::ReleaseDetails {
        owner: String::from("a"),
        repo: String::from("b"),
        tag: String::from("v1"),
        notes: String::from("n"),
    };
    let s = ReleaseState::AwaitPublish { details, token: String::from("SECRET-REDACTED") };
    let s = release_step(
        s,
        ReleaseEvent::PublishDone(Ok(ApiResponse {
            status: 422,
            message: Some(String::from("Validation Failed")),
        })),
    );
    assert_eq!(
        s,
        ReleaseState::Finished {
            outcome: WorkflowOutcome::Aborted {
                reason: String::from("publishing the release failed: Validation Failed"),
            },
        }
    );
}

#[test]
fn publish_failure_without_a_message_names_the_status() {
    let details = gitph::workflow::ReleaseDetails {
        owner: String::from("a"),
        repo: String::from("b"),
        tag: String::from("v1"),
        notes: String::from("n"),
    };
    let s = ReleaseState::AwaitPublish { details, token: String::from("SECRET-REDACTED") };
    let s = release_step(
        s,
        ReleaseEvent::PublishDone(Ok(ApiResponse { status: 500, message: None })),
    );
    assert_eq!(
        s,
        ReleaseState::Finished {
            outcome: WorkflowOutcome::Aborted {
                reason: String::from(
                    "publishing the release failed: the API returned status 500 and an unreadable body",
                ),
            },
        }
    );
}

#[test]
fn tag_push_failure_keeps_the_local_tag() {
    let details = gitph::workflow::ReleaseDetails {
        owner: String::from("a"),
        repo: String::from("b"),
        tag: String::from("v1"),
        notes: String::from("n"),
    };
    let s = ReleaseState::AwaitTagPush { details };
    let s = release_step(s, ReleaseEvent::TagPushed(ok_out(false, "", "denied")));
    assert_eq!(
        s,
        ReleaseState::Finished {
            outcome: WorkflowOutcome::Aborted {
                reason: String::from("pushing the tag failed (the local tag remains): denied"),
            },
        }
    );
}
