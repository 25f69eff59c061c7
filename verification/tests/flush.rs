use feeding_store::flush::{
    advance_flush, begin_flush, conclude, FlushProgress, FlushStep, PersistError,
};
use feeding_store::record::FeedingRecord;

fn run(has_parent: bool, outcomes: &[Result<(), String>]) -> (Vec<FlushStep>, Result<(), PersistError>) {
    let mut taken = Vec::new();
    let mut step = begin_flush();
    let mut next = 0;
    loop {
        taken.push(step);
        match advance_flush(step, has_parent, outcomes[next].clone()) {
            FlushProgress::Pending(following) => step = following,
            FlushProgress::Finished(result) => return (taken, result),
        }
        next += 1;
    }
}

#[test]
fn flush_begins_with_serialization() {
    assert_eq!(begin_flush(), FlushStep::Serialize);
}

#[test]
fn flush_takes_three_steps_where_the_path_has_a_parent() {
    let (taken, result) = run(true, &[Ok(()), Ok(()), Ok(())]);
    assert_eq!(taken, vec![FlushStep::Serialize, FlushStep::CreateDirectory, FlushStep::WriteFile]);
    assert_eq!(result, Ok(()));
}

#[test]
fn flush_skips_the_directory_where_the_path_has_no_parent() {
    let (taken, result) = run(false, &[Ok(()), Ok(())]);
    assert_eq!(taken, vec![FlushStep::Serialize, FlushStep::WriteFile]);
    assert_eq!(result, Ok(()));
}

#[test]
fn each_step_is_followed_by_the_next() {
    assert_eq!(
        advance_flush(FlushStep::Serialize, true, Ok(())),
        FlushProgress::Pending(FlushStep::CreateDirectory)
    );
    assert_eq!(
        advance_flush(FlushStep::Serialize, false, Ok(())),
        FlushProgress::Pending(FlushStep::WriteFile)
    );
    assert_eq!(
        advance_flush(FlushStep::CreateDirectory, true, Ok(())),
        FlushProgress::Pending(FlushStep::WriteFile)
    );
    assert_eq!(
        advance_flush(FlushStep::CreateDirectory, false, Ok(())),
        FlushProgress::Pending(FlushStep::WriteFile)
    );
    assert_eq!(advance_flush(FlushStep::WriteFile, true, Ok(())), FlushProgress::Finished(Ok(())));
    assert_eq!(advance_flush(FlushStep::WriteFile, false, Ok(())), FlushProgress::Finished(Ok(())));
}

#[test]
fn failed_serialization_ends_the_flush() {
    let (taken, result) = run(true, &[Err(String::from("key must be a string"))]);
    assert_eq!(taken, vec![FlushStep::Serialize]);
    assert_eq!(result, Err(PersistError::Serialization(String::from("key must be a string"))));
}

#[test]
fn failed_directory_creation_ends_the_flush() {
    let (taken, result) = run(true, &[Ok(()), Err(String::from("Permission denied (os error 13)"))]);
    assert_eq!(taken, vec![FlushStep::Serialize, FlushStep::CreateDirectory]);
    assert_eq!(
        result,
        Err(PersistError::DirectoryCreation(String::from("Permission denied (os error 13)")))
    );
}

#[test]
fn failed_write_ends_the_flush() {
    let (taken, result) = run(true, &[Ok(()), Ok(()), Err(String::from("No space left on device"))]);
    assert_eq!(taken, vec![FlushStep::Serialize, FlushStep::CreateDirectory, FlushStep::WriteFile]);
    assert_eq!(result, Err(PersistError::Write(String::from("No space left on device"))));
}

#[test]
fn failed_write_without_a_parent() {
    let (taken, result) = run(false, &[Ok(()), Err(String::from("Is a directory"))]);
    assert_eq!(taken, vec![FlushStep::Serialize, FlushStep::WriteFile]);
    assert_eq!(result, Err(PersistError::Write(String::from("Is a directory"))));
}

#[test]
fn message_names_the_failed_step() {
    assert_eq!(
        PersistError::Serialization(String::from("boom")).message(),
        "序列化失败: boom"
    );
    assert_eq!(
        PersistError::DirectoryCreation(String::from("Permission denied (os error 13)")).message(),
        "创建目录失败: Permission denied (os error 13)"
    );
    assert_eq!(
        PersistError::Write(String::from("No space left on device")).message(),
        "保存文件失败: No space left on device"
    );
}

#[test]
fn message_with_an_empty_detail() {
    assert_eq!(PersistError::Write(String::new()).message(), "保存文件失败: ");
}

#[test]
fn conclude_hands_the_value_on_after_a_good_flush() {
    let added = FeedingRecord {
        id: 1,
        feeding_type: String::from("bottle"),
        amount: 120,
        duration: 15,
        feeding_time: String::from("2024-01-01T08:00:00"),
        notes: String::new(),
    };
    let reply = conclude(added.clone(), Ok(()));
    assert_eq!(reply, Ok(added));
    assert_eq!(conclude((), Ok(())), Ok(()));
}

#[test]
fn conclude_reports_the_message_after_a_failed_flush() {
    let reply = conclude(7u64, Err(PersistError::Write(String::from("disk full"))));
    assert_eq!(reply, Err(String::from("保存文件失败: disk full")));
    let reply = conclude((), Err(PersistError::Serialization(String::from("bad"))));
    assert_eq!(reply, Err(String::from("序列化失败: bad")));
    let reply = conclude((), Err(PersistError::DirectoryCreation(String::from("denied"))));
    assert_eq!(reply, Err(String::from("创建目录失败: denied")));
}
