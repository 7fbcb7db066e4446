use backup_reporter::schedule::{
    build_health_url, fire_job, health_body, report_filename, report_window, settle_dispatch,
    DispatchOutcome, HealthStatus, JobState,
};

#[test]
fn a_fire_always_dispatches() {
    assert_eq!(fire_job(JobState::Idle), JobState::Dispatching);
    // overlapping fires are not prevented
    assert_eq!(fire_job(JobState::Dispatching), JobState::Dispatching);
}

#[test]
fn settling_returns_to_idle_whatever_the_outcome() {
    let (s, ping) = settle_dispatch(DispatchOutcome::Delivered);
    assert_eq!(s, JobState::Idle);
    assert_eq!(ping, HealthStatus::Success);
    let (s, ping) = settle_dispatch(DispatchOutcome::RejectedStatus);
    assert_eq!(s, JobState::Idle);
    assert_eq!(ping, HealthStatus::Fail);
    let (s, ping) = settle_dispatch(DispatchOutcome::ConnectionFailed);
    assert_eq!(s, JobState::Idle);
    assert_eq!(ping, HealthStatus::Fail);
}

#[test]
fn report_window_reaches_back_the_configured_hours() {
    let w = report_window(1_736_899_200, 24);
    assert_eq!(w.end, 1_736_899_200);
    assert_eq!(w.start, 1_736_899_200 - 86_400);
    let w = report_window(5_000, 0);
    assert_eq!(w.start, 5_000);
    assert_eq!(w.end, 5_000);
}

#[test]
fn health_urls_trim_slashes_for_start_and_fail_only() {
    let url = build_health_url("https://hc.example/ping/", HealthStatus::Start);
    assert_eq!(url.as_str(), "https://hc.example/ping/start");
    let url = build_health_url("https://hc.example/ping//", HealthStatus::Fail);
    assert_eq!(url.as_str(), "https://hc.example/ping/fail");
    // a success posts to the base itself, unchanged
    let url = build_health_url("https://hc.example/ping/", HealthStatus::Success);
    assert_eq!(url.as_str(), "https://hc.example/ping/");
}

#[test]
fn health_bodies_default_per_status() {
    assert_eq!(health_body(HealthStatus::Start, None).as_str(), "Start");
    assert_eq!(health_body(HealthStatus::Success, None).as_str(), "Success");
    assert_eq!(health_body(HealthStatus::Fail, None).as_str(), "Failure");
    assert_eq!(
        health_body(HealthStatus::Fail, Some("DB error: insert failed")).as_str(),
        "DB error: insert failed"
    );
}

#[test]
fn report_filenames_embed_the_stamp() {
    let name = report_filename("/reports", "2025-01-15_00-00-00_UTC");
    assert_eq!(name.as_str(), "/reports/report-2025-01-15_00-00-00_UTC.html");
}
