use bundle_parts::copy_keys::{
    key_line, record_copy_result, select_inner_blobstore, source_key, CopyError, CopyProgress,
    KeyList, MissingPrefix, OverrideError, Recorded,
};

#[test]
fn outcome_decides_the_list() {
    assert_eq!(record_copy_result(&Ok(())), KeyList::Successful);
    assert_eq!(record_copy_result(&Err(CopyError::NotFound)), KeyList::Missing);
    assert_eq!(
        record_copy_result(&Err(CopyError::Error(anyhow::Error::msg("io")))),
        KeyList::Error
    );
}

#[test]
fn key_line_is_key_and_line_feed() {
    assert_eq!(key_line("repo0001.content.blake2.ab"), b"repo0001.content.blake2.ab\n".to_vec());
    assert_eq!(key_line(""), b"\n".to_vec());
    assert_eq!(key_line("\u{e9}"), vec![0xc3, 0xa9, b'\n']);
}

#[test]
fn line_is_the_key_when_nothing_is_stripped() {
    assert_eq!(
        source_key("repo0001.alias.x".to_string(), "repo0001", false),
        Ok("repo0001.alias.x".to_string())
    );
    assert_eq!(source_key("other".to_string(), "repo0001", false), Ok("other".to_string()));
}

#[test]
fn prefix_is_stripped() {
    assert_eq!(
        source_key("repo0001.alias.x".to_string(), "repo0001", true),
        Ok(".alias.x".to_string())
    );
    assert_eq!(source_key("repo0001".to_string(), "repo0001", true), Ok(String::new()));
    assert_eq!(source_key("key".to_string(), "", true), Ok("key".to_string()));
}

#[test]
fn line_without_the_prefix_is_refused() {
    assert_eq!(
        source_key("repo0002.alias.x".to_string(), "repo0001", true),
        Err(MissingPrefix { line: "repo0002.alias.x".to_string() })
    );
    assert_eq!(
        source_key("repo".to_string(), "repo0001", true),
        Err(MissingPrefix { line: "repo".to_string() })
    );
}

#[test]
fn progress_is_logged_every_tenth_of_the_keys() {
    let mut progress = CopyProgress::new(40, false);
    assert_eq!(progress.log_step(), 4);
    let mut logged = Vec::new();
    for _ in 0..40 {
        match progress.record(true) {
            Recorded::Continue { warn: false, log } => {
                if log {
                    logged.push(progress.processed());
                }
            }
            other => panic!("unexpected {:?}", other),
        }
    }
    assert_eq!(logged, vec![4, 8, 12, 16, 20, 24, 28, 32, 36, 40]);
    assert_eq!(progress.copied(), 40);
    assert_eq!(progress.processed(), 40);
    assert_eq!(progress.total(), 40);
}

#[test]
fn few_keys_are_logged_one_by_one() {
    assert_eq!(CopyProgress::new(0, false).log_step(), 1);
    assert_eq!(CopyProgress::new(9, false).log_step(), 1);
    assert_eq!(CopyProgress::new(10, false).log_step(), 1);
    assert_eq!(CopyProgress::new(19, false).log_step(), 1);
    assert_eq!(CopyProgress::new(20, false).log_step(), 2);
    let mut progress = CopyProgress::new(3, false);
    assert_eq!(progress.record(true), Recorded::Continue { warn: false, log: true });
}

#[test]
fn failure_stops_the_tool() {
    let mut progress = CopyProgress::new(5, false);
    assert_eq!(progress.record(true), Recorded::Continue { warn: false, log: true });
    assert_eq!(progress.record(false), Recorded::Abort);
    assert_eq!(progress.processed(), 1);
    assert_eq!(progress.copied(), 1);
}

#[test]
fn ignored_failure_is_processed_but_not_copied() {
    let mut progress = CopyProgress::new(30, true);
    assert_eq!(progress.record(false), Recorded::Continue { warn: true, log: false });
    assert_eq!(progress.record(true), Recorded::Continue { warn: false, log: false });
    assert_eq!(progress.record(false), Recorded::Continue { warn: true, log: true });
    assert_eq!(progress.processed(), 3);
    assert_eq!(progress.copied(), 1);
}

#[test]
fn first_inner_blobstore_with_the_id_is_chosen() {
    let ids = vec![3u64, 7, 5, 7];
    assert_eq!(select_inner_blobstore(Some(&ids), 7), Ok(1));
    assert_eq!(select_inner_blobstore(Some(&ids), 3), Ok(0));
    assert_eq!(select_inner_blobstore(Some(&ids), 5), Ok(2));
}

#[test]
fn unknown_inner_blobstore_is_an_error() {
    let ids = vec![3u64, 7];
    assert_eq!(select_inner_blobstore(Some(&ids), 4), Err(OverrideError::NotFound));
    assert_eq!(select_inner_blobstore(Some(&Vec::new()), 4), Err(OverrideError::NotFound));
}

#[test]
fn blobstore_that_is_not_multiplexed_is_an_error() {
    assert_eq!(select_inner_blobstore(None, 4), Err(OverrideError::NotMultiplexed));
}
