use video_compressor::app::{JobSignal, MyApp, Tab};
use video_compressor::types::app::{AppConfig, FileStatus};
use video_compressor::types::{Encoder, Preset, Resolution};

fn app_with(paths: &[&str]) -> MyApp {
    let mut app = MyApp::new(AppConfig::default());
    for (i, path) in paths.iter().enumerate() {
        app.enqueue(path.to_string(), 1000 + i as u64);
    }
    app
}

fn statuses(app: &MyApp) -> Vec<FileStatus> {
    app.queue().iter().map(|item| item.status).collect()
}

fn processing(app: &MyApp) -> usize {
    app.queue().iter().filter(|item| item.status == FileStatus::Processing).count()
}

fn assert_valid(app: &MyApp) {
    assert!(processing(app) <= 1);
    assert_eq!(app.is_busy(), processing(app) == 1);
    for item in app.queue() {
        if item.status == FileStatus::Waiting {
            assert_eq!(item.output_size_bytes, None);
        }
    }
}

#[test]
fn a_new_state_is_idle_and_empty() {
    let app = MyApp::new(AppConfig::default());
    assert!(app.queue().is_empty());
    assert!(app.log().is_empty());
    assert!(!app.is_busy());
    assert!(!app.should_start_next());
    assert!(!app.config_dirty());
    assert_eq!(app.current_tab(), Tab::Main);
    assert_eq!(app.config(), AppConfig::default());
}

#[test]
fn enqueued_files_wait_in_order() {
    let app = app_with(&["a.mp4", "b.mp4", "c.mp4"]);
    let paths: Vec<&str> = app.queue().iter().map(|item| item.path.as_str()).collect();
    assert_eq!(paths, ["a.mp4", "b.mp4", "c.mp4"]);
    assert_eq!(statuses(&app), [FileStatus::Waiting; 3]);
    assert_eq!(app.queue()[1].size_bytes, 1001);
    assert_eq!(app.queue()[1].output_size_bytes, None);
    assert!(!app.is_busy());
}

#[test]
fn claim_takes_the_oldest_waiting_file() {
    let mut app = app_with(&["a.mp4", "b.mp4"]);
    let item = app.claim_next().unwrap();
    assert_eq!(item.path, "a.mp4");
    assert_eq!(item.status, FileStatus::Processing);
    assert_eq!(item.size_bytes, 1000);
    assert_eq!(statuses(&app), [FileStatus::Processing, FileStatus::Waiting]);
    assert!(app.is_busy());
    assert!(!app.should_start_next());
    assert_valid(&app);
}

#[test]
fn claim_on_an_empty_queue_finds_nothing() {
    let mut app = app_with(&[]);
    assert!(app.claim_next().is_none());
    assert!(!app.is_busy());
    assert!(app.start_next().is_none());
    assert!(app.poll().is_none());
}

#[test]
fn second_claim_in_a_row_finds_nothing() {
    let mut app = app_with(&["a.mp4", "b.mp4"]);
    assert!(app.claim_next().is_some());
    assert!(app.claim_next().is_none());
    assert_eq!(statuses(&app), [FileStatus::Processing, FileStatus::Waiting]);
    assert!(app.is_busy());
    assert_valid(&app);
}

#[test]
fn files_are_claimed_in_queue_order() {
    let mut app = app_with(&["a.mp4", "b.mp4", "c.mp4"]);
    let mut order = Vec::new();
    while let Some(item) = app.claim_next() {
        assert_valid(&app);
        assert!(app.mark_done(&item.path, Some(1)));
        assert_valid(&app);
        order.push(item.path);
    }
    assert_eq!(order, ["a.mp4", "b.mp4", "c.mp4"]);
    assert_eq!(statuses(&app), [FileStatus::Done; 3]);
}

#[test]
fn claim_skips_files_that_do_not_wait() {
    let mut app = app_with(&["a.mp4", "b.mp4"]);
    let first = app.claim_next().unwrap();
    app.mark_done(&first.path, None);
    app.enqueue("c.mp4".to_string(), 5);
    let second = app.claim_next().unwrap();
    assert_eq!(second.path, "b.mp4");
    assert_eq!(
        statuses(&app),
        [FileStatus::Done, FileStatus::Processing, FileStatus::Waiting]
    );
    app.mark_done("b.mp4", None);
    assert_eq!(app.claim_next().unwrap().path, "c.mp4");
    app.mark_done("c.mp4", None);
    assert!(app.claim_next().is_none());
    assert_eq!(statuses(&app), [FileStatus::Done; 3]);
}

#[test]
fn done_records_the_output_size() {
    let mut app = app_with(&["a.mp4"]);
    app.claim_next();
    assert!(app.mark_done("a.mp4", Some(777)));
    assert_eq!(app.queue()[0].status, FileStatus::Done);
    assert_eq!(app.queue()[0].output_size_bytes, Some(777));
    assert_eq!(app.queue()[0].size_bytes, 1000);
    assert!(!app.is_busy());
    assert!(app.should_start_next());
}

#[test]
fn done_without_an_output_leaves_the_size_unset() {
    let mut app = app_with(&["a.mp4"]);
    app.claim_next();
    assert!(app.mark_done("a.mp4", None));
    assert_eq!(app.queue()[0].status, FileStatus::Done);
    assert_eq!(app.queue()[0].output_size_bytes, None);
    assert!(!app.is_busy());
}

#[test]
fn done_for_a_path_that_no_job_runs_on_changes_nothing() {
    let mut app = app_with(&["a.mp4", "b.mp4"]);
    assert!(!app.mark_done("a.mp4", Some(1)));
    assert_eq!(statuses(&app), [FileStatus::Waiting; 2]);
    assert!(!app.should_start_next());
    app.claim_next();
    assert!(!app.mark_done("b.mp4", Some(1)));
    assert!(!app.mark_done("zzz.mp4", Some(1)));
    assert_eq!(statuses(&app), [FileStatus::Processing, FileStatus::Waiting]);
    assert!(app.is_busy());
    assert!(!app.should_start_next());
    assert!(app.mark_done("a.mp4", None));
    assert!(!app.mark_done("a.mp4", Some(9)));
    assert_eq!(app.queue()[0].output_size_bytes, None);
}

#[test]
fn files_never_move_backward() {
    let mut app = app_with(&["a.mp4"]);
    app.claim_next();
    app.mark_done("a.mp4", Some(3));
    assert!(app.claim_next().is_none());
    assert!(!app.record_output_size("a.mp4", 4));
    assert_eq!(app.queue()[0].status, FileStatus::Done);
    assert_eq!(app.queue()[0].output_size_bytes, Some(3));
}

#[test]
fn the_same_path_twice_is_two_jobs() {
    let mut app = app_with(&["a.mp4", "a.mp4"]);
    app.claim_next();
    app.mark_done("a.mp4", Some(1));
    assert_eq!(statuses(&app), [FileStatus::Done, FileStatus::Waiting]);
    app.claim_next();
    assert_eq!(statuses(&app), [FileStatus::Done, FileStatus::Processing]);
    app.mark_done("a.mp4", Some(2));
    assert_eq!(statuses(&app), [FileStatus::Done, FileStatus::Done]);
    assert_eq!(app.queue()[0].output_size_bytes, Some(1));
    assert_eq!(app.queue()[1].output_size_bytes, Some(2));
    assert_valid(&app);
}

#[test]
fn signals_reach_the_log_and_the_queue() {
    let mut app = app_with(&["a.mp4", "b.mp4"]);
    app.claim_next();
    app.handle_signal("a.mp4", JobSignal::Line("frame=1".to_string()));
    app.handle_signal("a.mp4", JobSignal::Line("frame=2".to_string()));
    assert_eq!(app.log(), &["frame=1", "frame=2"]);
    assert!(app.is_busy());
    app.handle_signal("a.mp4", JobSignal::OutputSize(4096));
    assert_eq!(app.queue()[0].status, FileStatus::Processing);
    assert_eq!(app.queue()[0].output_size_bytes, Some(4096));
    assert!(app.is_busy());
    assert!(!app.should_start_next());
    app.handle_signal("a.mp4", JobSignal::Done);
    assert_eq!(app.queue()[0].status, FileStatus::Done);
    assert_eq!(app.queue()[0].output_size_bytes, Some(4096));
    assert_eq!(app.queue()[1].status, FileStatus::Waiting);
    assert_eq!(app.log().len(), 2);
    assert!(!app.is_busy());
    assert!(app.should_start_next());
    assert_valid(&app);
}

#[test]
fn start_next_hands_out_the_file_and_the_options() {
    let mut app = app_with(&["a.mp4"]);
    let config = AppConfig {
        target_size_mb: 50,
        frame_rate: Some(30),
        encoder: Encoder::GpuNvenc,
        dark_mode_enabled: true,
        resolution: Some(Resolution::R480),
        preset: Preset::Medium,
    };
    app.set_config(config);
    let request = app.start_next().unwrap();
    assert_eq!(request.item.path, "a.mp4");
    assert_eq!(request.item.status, FileStatus::Processing);
    assert_eq!(request.config, config);
    app.set_config(AppConfig::default());
    assert_eq!(request.config, config);
}

#[test]
fn start_next_can_be_called_at_any_time() {
    let mut app = app_with(&["a.mp4", "b.mp4"]);
    assert!(app.start_next().is_some());
    for _ in 0..3 {
        assert!(app.start_next().is_none());
        assert_eq!(statuses(&app), [FileStatus::Processing, FileStatus::Waiting]);
        assert!(app.is_busy());
    }
    app.mark_done("a.mp4", None);
    assert_eq!(app.start_next().unwrap().item.path, "b.mp4");
    app.mark_done("b.mp4", None);
    assert!(app.start_next().is_none());
    assert!(!app.is_busy());
}

#[test]
fn the_end_of_a_job_starts_the_next_at_the_next_poll() {
    let mut app = app_with(&["a.mp4", "b.mp4"]);
    assert!(app.poll().is_none());
    assert_eq!(statuses(&app), [FileStatus::Waiting; 2]);
    app.start_next();
    assert!(app.poll().is_none());
    app.handle_signal("a.mp4", JobSignal::Done);
    assert!(app.should_start_next());
    let request = app.poll().unwrap();
    assert_eq!(request.item.path, "b.mp4");
    assert!(!app.should_start_next());
    assert!(app.is_busy());
    assert!(app.poll().is_none());
    assert_valid(&app);
}

#[test]
fn the_request_for_the_next_job_is_used_once() {
    let mut app = app_with(&["a.mp4"]);
    app.start_next();
    app.mark_done("a.mp4", None);
    assert!(app.should_start_next());
    assert!(app.poll().is_none());
    assert!(!app.should_start_next());
    app.enqueue("b.mp4".to_string(), 1);
    assert!(app.poll().is_none());
    assert_eq!(app.queue()[1].status, FileStatus::Waiting);
    assert!(!app.is_busy());
}

#[test]
fn a_poll_while_busy_keeps_the_request() {
    let mut app = app_with(&["a.mp4", "b.mp4", "c.mp4"]);
    app.start_next();
    app.mark_done("a.mp4", None);
    assert_eq!(app.start_next().unwrap().item.path, "b.mp4");
    assert!(app.should_start_next());
    assert!(app.poll().is_none());
    assert!(app.should_start_next());
    assert_eq!(
        statuses(&app),
        [FileStatus::Done, FileStatus::Processing, FileStatus::Waiting]
    );
}

#[test]
fn reset_keeps_the_theme_only() {
    let mut app = MyApp::new(AppConfig {
        target_size_mb: 99,
        frame_rate: Some(12),
        encoder: Encoder::GpuNvenc,
        dark_mode_enabled: true,
        resolution: Some(Resolution::R1080),
        preset: Preset::Veryslow,
    });
    assert!(!app.config_dirty());
    app.reset_config_to_default();
    assert_eq!(app.config(), AppConfig { dark_mode_enabled: true, ..AppConfig::default() });
    assert!(app.config_dirty());
    app.mark_config_stored();
    assert!(!app.config_dirty());
    let mut light = MyApp::new(AppConfig { target_size_mb: 1, ..AppConfig::default() });
    light.reset_config_to_default();
    assert_eq!(light.config(), AppConfig::default());
}

#[test]
fn editing_the_options_marks_them() {
    let mut app = MyApp::new(AppConfig::default());
    let edited = AppConfig { target_size_mb: 8, ..AppConfig::default() };
    app.set_config(edited);
    assert_eq!(app.config(), edited);
    assert!(app.config_dirty());
}

#[test]
fn tabs_can_be_selected() {
    let mut app = MyApp::new(AppConfig::default());
    app.select_tab(Tab::Options);
    assert_eq!(app.current_tab(), Tab::Options);
    app.select_tab(Tab::Output);
    assert_eq!(app.current_tab(), Tab::Output);
}

#[test]
fn log_lines_are_kept_in_order() {
    let mut app = MyApp::new(AppConfig::default());
    app.push_log("one".to_string());
    app.push_log("two".to_string());
    app.push_log("".to_string());
    assert_eq!(app.log(), &["one", "two", ""]);
}

#[test]
fn a_repeated_done_does_not_ask_again() {
    let mut app = app_with(&["a.mp4", "b.mp4"]);
    app.start_next();
    app.handle_signal("a.mp4", JobSignal::Done);
    assert_eq!(app.poll().unwrap().item.path, "b.mp4");
    assert!(!app.should_start_next());
    app.handle_signal("a.mp4", JobSignal::Done);
    assert!(!app.should_start_next());
    assert!(app.is_busy());
    assert_eq!(statuses(&app), [FileStatus::Done, FileStatus::Processing]);
    assert!(app.is_valid());
}

#[test]
fn every_reachable_state_is_valid() {
    let mut app = app_with(&["a.mp4", "b.mp4", "a.mp4"]);
    assert!(app.is_valid());
    for round in 0..4 {
        let claimed = app.claim_next();
        assert!(app.is_valid());
        assert!(app.claim_next().is_none());
        assert!(app.poll().is_none());
        assert!(app.is_valid());
        if let Some(item) = claimed {
            app.handle_signal(&item.path, JobSignal::Line(format!("round {}", round)));
            app.handle_signal(&item.path, JobSignal::OutputSize(round));
            assert!(app.is_valid());
            app.enqueue(format!("late{}.mp4", round), 7);
            app.handle_signal(&item.path, JobSignal::Done);
            assert!(app.is_valid());
        }
    }
    assert_valid(&app);
}
