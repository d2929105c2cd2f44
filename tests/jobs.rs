use cloud::ai::{ImageTags, TagError};
use cloud::conversion::{Model, Operation, Status};
use cloud::dispatch::{Action, Event, ToolError};
use cloud::queue::{advance, next_turn, process_conversion_queue, WorkerAction};
use cloud::store::{JobStore, StoreError};
use cloud::tag::TagStore;

const NOW: i64 = 1_700_000_000;

fn s(x: &str) -> String {
    x.to_string()
}

fn job(id: i32, source: &str, op: &str, requested: i64, status: Status, tries: i32) -> Model {
    let time_completed = match status {
        Status::Completed | Status::Failed => Some(requested + 1),
        _ => None,
    };
    Model {
        id,
        source_filename: s(source),
        operation: s(op),
        time_requested: requested,
        time_completed,
        status,
        times_tried: tries,
    }
}

fn tags_of(list: &[&str]) -> ImageTags {
    ImageTags { tags: list.iter().map(|t| t.to_string()).collect(), description: s("a view") }
}

#[test]
fn first_request_creates_pending_job() {
    let mut store = JobStore::new();
    let r = Model::request_conversion(&mut store, s("movie.mp4"), s("thumbnail"), NOW);
    assert_eq!(r, Ok(true));
    let rows = store.jobs();
    assert_eq!(rows.len(), 1);
    assert_eq!(rows[0].id, 1);
    assert_eq!(rows[0].source_filename, "movie.mp4");
    assert_eq!(rows[0].operation, "thumbnail");
    assert_eq!(rows[0].status, Status::Pending);
    assert_eq!(rows[0].times_tried, 1);
    assert_eq!(rows[0].time_requested, NOW);
    assert_eq!(rows[0].time_completed, None);
}

#[test]
fn second_request_within_window_is_suppressed() {
    let mut store = JobStore::new();
    assert_eq!(Model::request_conversion(&mut store, s("movie.mp4"), s("thumbnail"), NOW), Ok(true));
    assert_eq!(Model::request_conversion(&mut store, s("movie.mp4"), s("thumbnail"), NOW + 3599), Ok(false));
    assert_eq!(store.jobs().len(), 1);
    let active = store.find_active(&s("movie.mp4"), &s("thumbnail")).unwrap();
    assert_eq!(active.id, 1);
}

#[test]
fn other_operation_or_source_is_not_a_duplicate() {
    let mut store = JobStore::new();
    assert_eq!(Model::request_conversion(&mut store, s("movie.mp4"), s("thumbnail"), NOW), Ok(true));
    assert_eq!(Model::request_conversion(&mut store, s("movie.mp4"), s("categorize"), NOW), Ok(true));
    assert_eq!(Model::request_conversion(&mut store, s("other.mp4"), s("thumbnail"), NOW), Ok(true));
    assert_eq!(store.jobs().len(), 3);
}

#[test]
fn stale_job_is_attempted_again() {
    let mut store = JobStore::from_rows(vec![job(7, "movie.mp4", "thumbnail", NOW - 4000, Status::Pending, 2)]).unwrap();
    assert_eq!(Model::request_conversion(&mut store, s("movie.mp4"), s("thumbnail"), NOW), Ok(true));
    let rows = store.jobs();
    assert_eq!(rows.len(), 2);
    assert_eq!(rows[0].id, 7);
    assert_eq!(rows[0].status, Status::Pending);
    assert_eq!(rows[0].time_requested, NOW - 4000);
    assert_eq!(rows[0].times_tried, 2);
    assert_eq!(rows[1].id, 8);
    assert_eq!(rows[1].times_tried, 3);
    assert_eq!(rows[1].time_requested, NOW);
    assert_eq!(rows[1].status, Status::Pending);
    // the fresh attempt now suppresses further requests
    assert_eq!(Model::request_conversion(&mut store, s("movie.mp4"), s("thumbnail"), NOW + 10), Ok(false));
    assert_eq!(store.jobs().len(), 2);
}

#[test]
fn window_edge_is_stale() {
    let mut store = JobStore::from_rows(vec![job(1, "a.mp4", "thumbnail", NOW - 3600, Status::Running, 1)]).unwrap();
    assert_eq!(Model::request_conversion(&mut store, s("a.mp4"), s("thumbnail"), NOW), Ok(true));
    assert_eq!(store.jobs()[1].times_tried, 2);
}

#[test]
fn finished_job_does_not_suppress() {
    let mut store = JobStore::from_rows(vec![job(1, "a.mp4", "thumbnail", NOW - 5, Status::Failed, 1)]).unwrap();
    assert_eq!(Model::request_conversion(&mut store, s("a.mp4"), s("thumbnail"), NOW), Ok(true));
    assert_eq!(store.jobs()[1].times_tried, 1);
}

#[test]
fn exhausted_ids_are_reported() {
    let mut store = JobStore::from_rows(vec![job(i32::MAX, "a.mp4", "thumbnail", NOW, Status::Completed, 1)]).unwrap();
    assert_eq!(Model::request_conversion(&mut store, s("b.mp4"), s("thumbnail"), NOW), Err(StoreError::Exhausted));
    assert_eq!(store.jobs().len(), 1);
}

#[test]
fn exhausted_attempts_are_reported() {
    let mut store = JobStore::from_rows(vec![job(1, "a.mp4", "thumbnail", NOW - 9000, Status::Pending, i32::MAX)]).unwrap();
    assert_eq!(Model::request_conversion(&mut store, s("a.mp4"), s("thumbnail"), NOW), Err(StoreError::Exhausted));
    assert_eq!(store.jobs().len(), 1);
}

#[test]
fn inconsistent_rows_are_refused() {
    let mut done_without_time = job(1, "a.mp4", "thumbnail", NOW, Status::Completed, 1);
    done_without_time.time_completed = None;
    assert!(matches!(JobStore::from_rows(vec![done_without_time]), Err(StoreError::Inconsistent)));
    let unordered = vec![job(5, "a.mp4", "thumbnail", NOW, Status::Pending, 1), job(3, "b.mp4", "thumbnail", NOW, Status::Pending, 1)];
    assert!(matches!(JobStore::from_rows(unordered), Err(StoreError::Inconsistent)));
    assert!(matches!(JobStore::from_rows(vec![job(1, "a.mp4", "thumbnail", NOW, Status::Pending, 0)]), Err(StoreError::Inconsistent)));
    assert!(JobStore::from_rows(vec![]).is_ok());
}

#[test]
fn fifo_selection_ignores_insertion_order() {
    let t = NOW;
    let mut store = JobStore::new();
    assert_eq!(Model::request_conversion(&mut store, s("c.mp4"), s("thumbnail"), t + 20), Ok(true));
    assert_eq!(Model::request_conversion(&mut store, s("a.mp4"), s("thumbnail"), t), Ok(true));
    assert_eq!(Model::request_conversion(&mut store, s("b.mp4"), s("thumbnail"), t + 10), Ok(true));
    let first = store.find_next_eligible().unwrap();
    assert_eq!(first.time_requested, t);
    assert_eq!(first.source_filename, "a.mp4");
    store.update_status(first.id, Status::Completed, t + 30).unwrap();
    let second = store.find_next_eligible().unwrap();
    assert_eq!(second.time_requested, t + 10);
    store.update_status(second.id, Status::Failed, t + 31).unwrap();
    let third = store.find_next_eligible().unwrap();
    assert_eq!(third.time_requested, t + 20);
    store.update_status(third.id, Status::Completed, t + 32).unwrap();
    assert!(store.find_next_eligible().is_none());
}

#[test]
fn equal_request_times_go_in_insertion_order() {
    let mut store = JobStore::new();
    assert_eq!(Model::request_conversion(&mut store, s("x.mp4"), s("thumbnail"), NOW), Ok(true));
    assert_eq!(Model::request_conversion(&mut store, s("y.mp4"), s("thumbnail"), NOW), Ok(true));
    assert_eq!(store.find_next_eligible().unwrap().source_filename, "x.mp4");
}

#[test]
fn completion_time_follows_terminal_status() {
    let mut store = JobStore::new();
    assert_eq!(Model::request_conversion(&mut store, s("a.mp4"), s("thumbnail"), NOW), Ok(true));
    assert_eq!(store.jobs()[0].time_completed, None);
    store.update_status(1, Status::Running, NOW + 1).unwrap();
    assert_eq!(store.jobs()[0].status, Status::Running);
    assert_eq!(store.jobs()[0].time_completed, None);
    store.update_status(1, Status::Failed, NOW + 2).unwrap();
    assert_eq!(store.jobs()[0].time_completed, Some(NOW + 2));
    store.update_status(1, Status::Pending, NOW + 3).unwrap();
    assert_eq!(store.jobs()[0].time_completed, None);
    store.update_status(1, Status::Completed, NOW + 4).unwrap();
    assert_eq!(store.jobs()[0].time_completed, Some(NOW + 4));
    for row in store.jobs() {
        let terminal = matches!(row.status, Status::Completed | Status::Failed);
        assert_eq!(row.time_completed.is_some(), terminal);
    }
}

#[test]
fn unknown_id_is_not_found() {
    let mut store = JobStore::new();
    assert_eq!(store.update_status(3, Status::Completed, NOW), Err(StoreError::NotFound));
}

#[test]
fn thumbnail_scenario() {
    let mut store = JobStore::new();
    let mut tags = TagStore::new();
    assert_eq!(Model::request_conversion(&mut store, s("movie.mp4"), s("thumbnail"), NOW), Ok(true));
    assert_eq!(store.jobs()[0].times_tried, 1);
    let j = match process_conversion_queue(&store, false) {
        WorkerAction::Run(j) => j,
        other => panic!("expected a job, got {:?}", other),
    };
    match advance(&mut store, &mut tags, &j, &Event::Start, NOW + 1) {
        Ok(Action::RunTool { dir, args }) => {
            assert_eq!(dir, "thumbs");
            assert_eq!(args, vec!["-i", "movie.mp4", "-vf", "thumbnail,scale=320:180", "-frames:v", "1", "thumbs/movie.webp"]);
        }
        other => panic!("expected the tool to run, got {:?}", other),
    }
    assert_eq!(store.jobs()[0].status, Status::Pending);
    let r = advance(&mut store, &mut tags, &j, &Event::ToolFinished(Ok(())), NOW + 2);
    assert!(matches!(r, Ok(Action::Finish(Status::Completed, None))));
    assert_eq!(store.jobs()[0].status, Status::Completed);
    assert_eq!(store.jobs()[0].time_completed, Some(NOW + 2));
    assert_eq!(tags.rows().len(), 0);
    assert!(matches!(process_conversion_queue(&store, false), WorkerAction::Sleep(3)));
}

#[test]
fn thumbnail_in_a_folder() {
    let j = job(4, "videos/trip/movie.mp4", "Thumbnail", NOW, Status::Pending, 1);
    let mut tags = TagStore::new();
    match j.process(&Event::Start, &mut tags) {
        Action::RunTool { dir, args } => {
            assert_eq!(dir, "videos/trip/thumbs");
            assert_eq!(args[6], "videos/trip/thumbs/movie.webp");
        }
        other => panic!("expected the tool to run, got {:?}", other),
    }
}

#[test]
fn thumbnail_tool_failure_marks_failed() {
    let mut store = JobStore::new();
    let mut tags = TagStore::new();
    assert_eq!(Model::request_conversion(&mut store, s("movie.mp4"), s("thumbnail"), NOW), Ok(true));
    let j = store.find_next_eligible().unwrap();
    let r = advance(&mut store, &mut tags, &j, &Event::ToolFinished(Err(ToolError::SpawnFailed(s("no such file")))), NOW + 5);
    match r {
        Ok(Action::Finish(Status::Failed, Some(reason))) => assert_eq!(reason, "no such file"),
        other => panic!("expected a failure with its reason, got {:?}", other),
    }
    assert_eq!(store.jobs()[0].status, Status::Failed);
    assert_eq!(store.jobs()[0].time_completed, Some(NOW + 5));
}

#[test]
fn categorize_scenario_creates_tags() {
    let mut store = JobStore::new();
    let mut tags = TagStore::new();
    assert_eq!(Model::request_conversion(&mut store, s("movie.mp4"), s("categorize"), NOW), Ok(true));
    let j = store.find_next_eligible().unwrap();
    match advance(&mut store, &mut tags, &j, &Event::Start, NOW) {
        Ok(Action::RunTool { dir, args }) => {
            assert_eq!(dir, "segments/ai/conversions");
            assert_eq!(args, vec!["-ss", "1", "-i", "movie.mp4", "-frames:v", "1", "-q:v", "2", "segments/ai/conversions/1.jpg"]);
        }
        other => panic!("expected the tool to run, got {:?}", other),
    }
    match advance(&mut store, &mut tags, &j, &Event::ToolFinished(Ok(())), NOW + 1) {
        Ok(Action::TagImage { image_url }) => assert_eq!(image_url, "https://media.aiowa.com/categorize/1.jpg"),
        other => panic!("expected a tagging request, got {:?}", other),
    }
    let r = advance(&mut store, &mut tags, &j, &Event::TagsReceived(Ok(tags_of(&["beach", "sunset"]))), NOW + 2);
    assert!(matches!(r, Ok(Action::Finish(Status::Completed, None))));
    let rows = tags.rows();
    assert_eq!(rows.len(), 2);
    assert_eq!(rows[0].source_filename, "movie.mp4");
    assert_eq!(rows[0].tag, "beach");
    assert_eq!(rows[0].slug, "beach");
    assert_eq!(rows[1].tag, "sunset");
    assert_eq!(rows[1].id, 2);
    assert_eq!(store.jobs()[0].status, Status::Completed);
    assert_eq!(store.jobs()[0].time_completed, Some(NOW + 2));
}

#[test]
fn categorize_tool_failure_asks_no_tags() {
    let mut store = JobStore::new();
    let mut tags = TagStore::new();
    assert_eq!(Model::request_conversion(&mut store, s("movie.mp4"), s("categorize"), NOW), Ok(true));
    let j = store.find_next_eligible().unwrap();
    let r = advance(&mut store, &mut tags, &j, &Event::ToolFinished(Err(ToolError::NonZeroExit(1))), NOW + 1);
    match r {
        Ok(Action::Finish(Status::Failed, Some(reason))) => assert_eq!(reason, "ffmpeg failed with exit code: 1"),
        other => panic!("expected a failure with its reason, got {:?}", other),
    }
    assert_eq!(store.jobs()[0].status, Status::Failed);
    assert_eq!(store.jobs()[0].time_completed, Some(NOW + 1));
    assert_eq!(tags.rows().len(), 0);
}

#[test]
fn categorize_tagging_failure_marks_failed() {
    let mut store = JobStore::new();
    let mut tags = TagStore::new();
    assert_eq!(Model::request_conversion(&mut store, s("movie.mp4"), s("categorize"), NOW), Ok(true));
    let j = store.find_next_eligible().unwrap();
    let r = advance(&mut store, &mut tags, &j, &Event::TagsReceived(Err(TagError::MalformedResponse(s("not json")))), NOW + 1);
    match r {
        Ok(Action::Finish(Status::Failed, Some(reason))) => assert_eq!(reason, "not json"),
        other => panic!("expected a failure with its reason, got {:?}", other),
    }
    assert_eq!(store.jobs()[0].status, Status::Failed);
    assert_eq!(tags.rows().len(), 0);
}

#[test]
fn categorize_twice_does_not_duplicate_tags() {
    let mut tags = TagStore::new();
    let first = job(1, "movie.mp4", "categorize", NOW, Status::Pending, 1);
    let second = job(2, "movie.mp4", "categorize", NOW + 10, Status::Pending, 1);
    let reply = || Event::TagsReceived(Ok(tags_of(&["Beach", "sunset", "Blue Hair"])));
    first.process(&reply(), &mut tags);
    assert_eq!(tags.rows().len(), 3);
    second.process(&reply(), &mut tags);
    assert_eq!(tags.rows().len(), 3);
    // a different spelling with the same slug is a duplicate too
    second.process(&Event::TagsReceived(Ok(tags_of(&["  BLUE hair ", "BEACH", "night"]))), &mut tags);
    let rows = tags.rows();
    assert_eq!(rows.len(), 4);
    assert_eq!(rows[2].slug, "blue-hair");
    assert_eq!(rows[3].tag, "night");
}

#[test]
fn duplicate_within_one_reply_is_stored_once() {
    let mut tags = TagStore::new();
    let j = job(1, "movie.mp4", "categorize", NOW, Status::Pending, 1);
    j.process(&Event::TagsReceived(Ok(tags_of(&["beach", "beach"]))), &mut tags);
    assert_eq!(tags.rows().len(), 1);
}

#[test]
fn same_tag_for_another_source_is_stored() {
    let mut tags = TagStore::new();
    assert!(tags.add(&s("a.mp4"), &s("beach")));
    assert!(!tags.add(&s("a.mp4"), &s("beach")));
    assert!(tags.add(&s("b.mp4"), &s("beach")));
    assert_eq!(tags.add_all(&s("a.mp4"), &vec![s("beach"), s("dune")]), 1);
}

#[test]
fn unknown_operation_completes_without_calls() {
    let mut store = JobStore::new();
    let mut tags = TagStore::new();
    assert_eq!(Model::request_conversion(&mut store, s("movie.mp4"), s("unsupported-op"), NOW), Ok(true));
    let j = store.find_next_eligible().unwrap();
    assert_eq!(j.operation_kind(), None);
    let r = advance(&mut store, &mut tags, &j, &Event::Start, NOW + 1);
    assert!(matches!(r, Ok(Action::Finish(Status::Completed, None))));
    assert_eq!(store.jobs()[0].status, Status::Completed);
    assert_eq!(store.jobs()[0].time_completed, Some(NOW + 1));
    assert_eq!(tags.rows().len(), 0);
}

#[test]
fn placeholder_operations_complete() {
    let mut tags = TagStore::new();
    for op in ["scaledown", "MakeClip"] {
        let j = job(1, "movie.mp4", op, NOW, Status::Pending, 1);
        assert!(matches!(j.process(&Event::Start, &mut tags), Action::Finish(Status::Completed, None)));
    }
}

#[test]
fn unexpected_event_fails_the_job() {
    let mut tags = TagStore::new();
    let j = job(1, "movie.mp4", "thumbnail", NOW, Status::Pending, 1);
    let r = j.process(&Event::TagsReceived(Ok(tags_of(&["x"]))), &mut tags);
    assert!(matches!(r, Action::Finish(Status::Failed, Some(_))));
    assert_eq!(tags.rows().len(), 0);
}

#[test]
fn ending_a_missing_job_is_reported() {
    let mut store = JobStore::new();
    let mut tags = TagStore::new();
    let j = job(9, "movie.mp4", "thumbnail", NOW, Status::Pending, 1);
    let r = advance(&mut store, &mut tags, &j, &Event::ToolFinished(Ok(())), NOW);
    assert!(matches!(r, Err(StoreError::NotFound)));
}

#[test]
fn worker_turns() {
    assert!(matches!(next_turn(true, Ok(None)), WorkerAction::Exit));
    assert!(matches!(next_turn(false, Ok(None)), WorkerAction::Sleep(3)));
    assert!(matches!(next_turn(false, Err(StoreError::NotFound)), WorkerAction::Sleep(5)));
    let j = job(1, "a.mp4", "thumbnail", NOW, Status::Pending, 1);
    match next_turn(false, Ok(Some(j))) {
        WorkerAction::Run(m) => assert_eq!(m.id, 1),
        other => panic!("expected a job, got {:?}", other),
    }
    let mut store = JobStore::new();
    assert_eq!(Model::request_conversion(&mut store, s("a.mp4"), s("thumbnail"), NOW), Ok(true));
    assert!(matches!(process_conversion_queue(&store, true), WorkerAction::Exit));
}

#[test]
fn operation_names_ignore_case() {
    assert_eq!(Operation::from_str_case_insensitive("THUMBNAIL"), Some(Operation::Thumbnail));
    assert_eq!(Operation::from_str_case_insensitive("Categorize"), Some(Operation::Categorize));
    assert_eq!(Operation::from_str_case_insensitive("scaledown"), Some(Operation::Scaledown));
    assert_eq!(Operation::from_str_case_insensitive("MakeClip"), Some(Operation::Makeclip));
    assert_eq!(Operation::from_str_case_insensitive("make-clip"), None);
    assert_eq!(Operation::from_str_case_insensitive(""), None);
    assert_eq!(Operation::from_lowercase("THUMBNAIL"), None);
}

#[test]
fn status_names() {
    assert_eq!(Status::Completed.name(), "completed");
    assert_eq!(Status::from_name("running"), Some(Status::Running));
    assert_eq!(Status::from_name("Running"), None);
    assert!(Status::Failed.terminal());
    assert!(!Status::Pending.terminal());
}

#[test]
fn loaded_tags_keep_their_ids() {
    let row = |id: i32, t: &str| cloud::tag::Model { id, source_filename: s("a.mp4"), tag: s(t), slug: s(t) };
    let mut tags = TagStore::from_rows(vec![row(3, "beach"), row(9, "dune")]).unwrap();
    assert_eq!(tags.rows()[1].id, 9);
    assert!(tags.add(&s("a.mp4"), &s("night")));
    assert_eq!(tags.rows()[2].id, 10);
    assert!(!tags.add(&s("a.mp4"), &s("Beach")));
    assert!(matches!(TagStore::from_rows(vec![row(3, "x"), row(3, "y")]), Err(StoreError::Inconsistent)));
    assert!(matches!(TagStore::from_rows(vec![row(0, "x")]), Err(StoreError::Inconsistent)));
}

#[test]
fn thumbnail_of_invalid_path_fails_with_reason() {
    let mut tags = TagStore::new();
    let j = job(1, "", "thumbnail", NOW, Status::Pending, 1);
    match j.process(&Event::Start, &mut tags) {
        Action::Finish(Status::Failed, Some(reason)) => assert_eq!(reason, "Invalid source path"),
        other => panic!("expected a failure, got {:?}", other),
    }
    assert_eq!(ToolError::NonZeroExit(-1).message(), "ffmpeg failed with exit code: -1");
    assert_eq!(TagError::RequestFailed(s("timeout")).message(), "timeout");
}
