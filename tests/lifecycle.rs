use docbox::presigned::{
    CompleteResult, CompletionOutcome, CreatePresigned, InitiateError, PresignedTaskStatus,
    UploadTasks, FOLDER_MISSING,
};
use docbox::completion::purge_expired_presigned_tasks;

fn request(id: u128, key: &str, size: i32, expires_at: i64) -> CreatePresigned {
    CreatePresigned {
        id,
        document_box: "abc".to_string(),
        folder_id: 7,
        file_key: key.to_string(),
        name: "report.pdf".to_string(),
        mime: "application/pdf".to_string(),
        size,
        processing_config: None,
        created_at: 100,
        expires_at,
    }
}

#[test]
fn end_to_end_upload_then_sweeps() {
    let mut tasks = UploadTasks::new();
    assert_eq!(tasks.initiate(request(1, "abc/123", 500, 1_000), 1000, true), Ok(1));
    assert!(matches!(tasks.task(1).unwrap().status, PresignedTaskStatus::Pending));

    let r = tasks.complete("abc/123", CompletionOutcome::Processed { file_id: 42 });
    assert_eq!(r, CompleteResult::Completed { file_id: 42 });
    assert!(matches!(
        tasks.task(1).unwrap().status,
        PresignedTaskStatus::Completed { file_id: 42 }
    ));
    let file = tasks.file(42).unwrap();
    assert_eq!(file.task_id, 1);
    assert_eq!(file.file_key, "abc/123");

    // Before expiry the terminal task stays.
    let deleted = tasks.purge_expired(500);
    assert!(deleted.is_empty());
    assert!(tasks.task(1).is_some());

    // A second, abandoned upload.
    assert_eq!(tasks.initiate(request(2, "abc/456", 10, 2_000), 1000, true), Ok(2));
    let deleted = tasks.purge_expired(5_000);
    assert_eq!(deleted, vec!["abc/456".to_string()]);
    assert!(tasks.task(2).is_none());
    // The completed task's row goes too, but not its object; the file stays.
    assert!(tasks.task(1).is_none());
    assert!(tasks.file(42).is_some());
}

#[test]
fn second_notification_is_a_no_op() {
    let mut tasks = UploadTasks::new();
    tasks.initiate(request(1, "abc/123", 500, 1_000), 1000, true).unwrap();
    assert_eq!(
        tasks.complete("abc/123", CompletionOutcome::Processed { file_id: 42 }),
        CompleteResult::Completed { file_id: 42 }
    );
    assert_eq!(
        tasks.complete("abc/123", CompletionOutcome::Processed { file_id: 43 }),
        CompleteResult::NoPendingTask
    );
    assert_eq!(tasks.file_count(), 1);
    assert!(tasks.file(43).is_none());
    assert!(matches!(
        tasks.task(1).unwrap().status,
        PresignedTaskStatus::Completed { file_id: 42 }
    ));
}

#[test]
fn notification_without_pending_task_changes_nothing() {
    let mut tasks = UploadTasks::new();
    tasks.initiate(request(1, "abc/123", 500, 1_000), 1000, true).unwrap();
    assert_eq!(
        tasks.complete("abc/999", CompletionOutcome::Processed { file_id: 42 }),
        CompleteResult::NoPendingTask
    );
    assert_eq!(tasks.task_count(), 1);
    assert_eq!(tasks.file_count(), 0);
    assert!(matches!(tasks.task(1).unwrap().status, PresignedTaskStatus::Pending));
}

#[test]
fn purge_removes_only_expired_and_is_idempotent() {
    let mut tasks = UploadTasks::new();
    tasks.initiate(request(1, "k/1", 1, 10), 1000, true).unwrap();
    tasks.initiate(request(2, "k/2", 1, 20), 1000, true).unwrap();
    tasks.initiate(request(3, "k/3", 1, 30), 1000, true).unwrap();
    // Expiry strictly before `now` only: the task expiring at 20 stays.
    let deleted = tasks.purge_expired(20);
    assert_eq!(deleted, vec!["k/1".to_string()]);
    assert!(tasks.task(1).is_none());
    assert!(tasks.task(2).is_some());
    assert!(tasks.task(3).is_some());
    let again = tasks.purge_expired(20);
    assert!(again.is_empty());
    assert_eq!(tasks.task_count(), 2);
}

#[test]
fn sweep_first_then_completion_changes_nothing() {
    let mut tasks = UploadTasks::new();
    tasks.initiate(request(1, "abc/123", 500, 10), 1000, true).unwrap();
    let located = tasks.find_pending("abc/123");
    assert_eq!(located, Some(1));
    let deleted = tasks.purge_expired(50);
    assert_eq!(deleted, vec!["abc/123".to_string()]);
    assert_eq!(
        tasks.finish(1, CompletionOutcome::Processed { file_id: 9 }),
        CompleteResult::NoPendingTask
    );
    assert_eq!(tasks.file_count(), 0);
    assert_eq!(tasks.task_count(), 0);
}

#[test]
fn completion_first_then_sweep_keeps_object() {
    let mut tasks = UploadTasks::new();
    tasks.initiate(request(1, "abc/123", 500, 10), 1000, true).unwrap();
    let id = tasks.find_pending("abc/123").unwrap();
    assert_eq!(
        tasks.finish(id, CompletionOutcome::Processed { file_id: 9 }),
        CompleteResult::Completed { file_id: 9 }
    );
    let deleted = tasks.purge_expired(50);
    assert!(deleted.is_empty());
    assert!(tasks.task(1).is_none());
    assert!(tasks.file(9).is_some());
}

#[test]
fn failed_tasks_lose_their_object_when_swept() {
    let mut tasks = UploadTasks::new();
    tasks.initiate(request(1, "a/1", 1, 10), 1000, true).unwrap();
    tasks.initiate(request(2, "a/2", 1, 10), 1000, true).unwrap();
    assert_eq!(tasks.complete("a/1", CompletionOutcome::FolderMissing), CompleteResult::Failed);
    match &tasks.task(1).unwrap().status {
        PresignedTaskStatus::Failed { error } => assert_eq!(error, FOLDER_MISSING),
        other => panic!("unexpected status {:?}", other),
    }
    assert_eq!(
        tasks.complete(
            "a/2",
            CompletionOutcome::ProcessingFailed { error: "bad pdf".to_string() }
        ),
        CompleteResult::Failed
    );
    match &tasks.task(2).unwrap().status {
        PresignedTaskStatus::Failed { error } => assert_eq!(error, "bad pdf"),
        other => panic!("unexpected status {:?}", other),
    }
    assert_eq!(tasks.file_count(), 0);
    let deleted = tasks.purge_expired(11);
    assert_eq!(deleted, vec!["a/1".to_string(), "a/2".to_string()]);
}

#[test]
fn initiate_refusals() {
    let mut tasks = UploadTasks::new();
    assert_eq!(
        tasks.initiate(request(1, "k", 1001, 10), 1000, true),
        Err(InitiateError::FileTooLarge { size: 1001, max: 1000 })
    );
    assert_eq!(
        tasks.initiate(request(1, "k", 1000, 10), 1000, false),
        Err(InitiateError::UnknownTargetFolder)
    );
    assert_eq!(tasks.initiate(request(1, "k", 1000, 10), 1000, true), Ok(1));
    assert_eq!(
        tasks.initiate(request(1, "other", 1, 10), 1000, true),
        Err(InitiateError::TaskIdTaken)
    );
    assert_eq!(
        tasks.initiate(request(2, "k", 1, 10), 1000, true),
        Err(InitiateError::FileKeyTaken)
    );
    assert_eq!(tasks.task_count(), 1);
}

#[test]
fn file_identifier_in_use_changes_nothing() {
    let mut tasks = UploadTasks::new();
    tasks.initiate(request(1, "a", 1, 10), 1000, true).unwrap();
    tasks.initiate(request(2, "b", 1, 10), 1000, true).unwrap();
    tasks.complete("a", CompletionOutcome::Processed { file_id: 5 });
    assert_eq!(
        tasks.complete("b", CompletionOutcome::Processed { file_id: 5 }),
        CompleteResult::FileIdTaken
    );
    assert!(matches!(tasks.task(2).unwrap().status, PresignedTaskStatus::Pending));
}

#[test]
fn sweep_runs_each_tenant_on_its_own() {
    let mut first = UploadTasks::new();
    first.initiate(request(1, "x/1", 1, 10), 1000, true).unwrap();
    let mut second = UploadTasks::new();
    second.initiate(request(1, "y/1", 1, 100), 1000, true).unwrap();
    let mut tables = vec![first, second];
    let deleted = purge_expired_presigned_tasks(&mut tables, 50);
    assert_eq!(deleted, vec![vec!["x/1".to_string()], vec![]]);
    assert_eq!(tables[0].task_count(), 0);
    assert_eq!(tables[1].task_count(), 1);
}

#[test]
fn sweep_at_current_time_removes_long_expired_tasks() {
    let mut tasks = UploadTasks::new();
    tasks.initiate(request(1, "old", 1, 10), 1000, true).unwrap();
    tasks.initiate(request(2, "future", 1, i64::MAX), 1000, true).unwrap();
    let deleted = tasks.purge_expired_now();
    assert_eq!(deleted, vec!["old".to_string()]);
    assert!(tasks.task(2).is_some());
}
