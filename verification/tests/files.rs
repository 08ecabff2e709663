use arch_bot_commons::files::append_chunk;
use arch_bot_commons::files::assemble_chunks;
use arch_bot_commons::files::FetchPlan;
use arch_bot_commons::files::File;
use arch_bot_commons::files::FileMeta;
use arch_bot_commons::files::FileStuff;
use arch_bot_commons::files::MaterializePlan;

fn record(path: &str) -> File {
    File {
        meta: FileMeta {
            id: "file-id".to_owned(),
            size: 42,
        },
        path: path.to_owned(),
    }
}

#[test]
fn absolute_path_is_local() {
    assert!(record("/srv/bot/files/photo.jpg").is_local());
}

#[test]
fn relative_path_is_remote() {
    assert!(!record("documents/file_7.jpg").is_local());
}

#[test]
fn empty_path_is_remote() {
    assert!(!record("").is_local());
}

#[test]
fn fetch_plan_reads_local_path_directly() {
    match record("/var/data/blob").fetch_plan() {
        FetchPlan::ReadLocal { path } => assert_eq!(path, "/var/data/blob"),
        FetchPlan::StreamRemote { .. } => panic!("expected a local read"),
    }
}

#[test]
fn fetch_plan_streams_remote_path() {
    match record("photos/blob_9").fetch_plan() {
        FetchPlan::StreamRemote { path } => assert_eq!(path, "photos/blob_9"),
        FetchPlan::ReadLocal { .. } => panic!("expected a remote stream"),
    }
}

#[test]
fn materialize_plan_hands_back_local_path() {
    match record("/var/data/blob").materialize_plan() {
        MaterializePlan::UseLocalPath { path } => assert_eq!(path, "/var/data/blob"),
        MaterializePlan::DownloadToTemp { .. } => panic!("expected the resolved path"),
    }
}

#[test]
fn materialize_plan_downloads_remote_to_temp() {
    match record("photos/blob_9").materialize_plan() {
        MaterializePlan::DownloadToTemp { path } => assert_eq!(path, "photos/blob_9"),
        MaterializePlan::UseLocalPath { .. } => panic!("expected a temp download"),
    }
}

#[test]
fn local_record_round_trips_through_one_path() {
    let f = record("/var/data/blob");
    let fetched = match f.fetch_plan() {
        FetchPlan::ReadLocal { path } => path,
        FetchPlan::StreamRemote { .. } => panic!("expected a local read"),
    };
    let materialized = match f.materialize_plan() {
        MaterializePlan::UseLocalPath { path } => path,
        MaterializePlan::DownloadToTemp { .. } => panic!("expected the resolved path"),
    };
    assert_eq!(fetched, materialized);
    assert_eq!(fetched, "/var/data/blob");
}

#[test]
fn append_chunk_keeps_arrival_order() {
    let mut buf = vec![1u8, 2];
    append_chunk(&mut buf, &vec![3u8, 4, 5]);
    assert_eq!(buf, vec![1u8, 2, 3, 4, 5]);
}

#[test]
fn append_empty_chunk_changes_nothing() {
    let mut buf = vec![9u8];
    append_chunk(&mut buf, &Vec::new());
    assert_eq!(buf, vec![9u8]);
}

#[test]
fn assemble_chunks_concatenates_in_order() {
    let chunks = vec![vec![1u8, 2], Vec::new(), vec![3u8, 4, 5], vec![6u8]];
    assert_eq!(assemble_chunks(&chunks), vec![1u8, 2, 3, 4, 5, 6]);
}

#[test]
fn assemble_no_chunks_is_empty() {
    let chunks: Vec<Vec<u8>> = Vec::new();
    assert!(assemble_chunks(&chunks).is_empty());
}
