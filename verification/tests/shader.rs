use sdf_harness::shader::{build_outcome, BuildOutcome, Shader, Stage};

const SECOND: u64 = 1_000_000_000;

#[test]
fn outcome_classifies_every_status_combination() {
    assert_eq!(build_outcome(true, true, true), BuildOutcome::Ready);
    assert_eq!(
        build_outcome(false, true, true),
        BuildOutcome::CompileFailed(Stage::Vertex)
    );
    assert_eq!(
        build_outcome(true, false, true),
        BuildOutcome::CompileFailed(Stage::Fragment)
    );
    assert_eq!(build_outcome(true, true, false), BuildOutcome::LinkFailed);
    // The first failing stage wins when several fail.
    assert_eq!(
        build_outcome(false, false, false),
        BuildOutcome::CompileFailed(Stage::Vertex)
    );
}

#[test]
fn construction_records_handles_clock_and_outcome() {
    let s = Shader::new(7, 3, 4, true, true, true, 1_000);
    assert_eq!(s.id, 7);
    assert_eq!(s.vao, 3);
    assert_eq!(s.vbo, 4);
    assert_eq!(s.created_at_nanos, 1_000);
    assert_eq!(s.outcome, BuildOutcome::Ready);
}

#[test]
fn failed_build_still_yields_a_drawable_resource() {
    // A failing link never aborts construction: the resource comes back
    // whole and draw works on it exactly as on a healthy one.
    let s = Shader::new(7, 3, 4, true, true, false, 500);
    assert_eq!(s.outcome, BuildOutcome::LinkFailed);
    let call = s.draw(500, 512, 512);
    assert_eq!(call.elapsed_nanos, 0);
    assert_eq!(call.width, 512);
    assert_eq!(call.height, 512);
    assert_eq!(call.vertex_count, 6);
}

#[test]
fn elapsed_time_is_relative_to_construction_not_process_start() {
    // A resource constructed late in the process still starts at zero.
    let s = Shader::new(1, 1, 1, true, true, true, 90 * SECOND);
    assert_eq!(s.draw(90 * SECOND, 100, 100).elapsed_nanos, 0);
    assert_eq!(s.draw(95 * SECOND, 100, 100).elapsed_nanos, 5 * SECOND);
}

#[test]
fn elapsed_time_strictly_increases_across_draws() {
    let s = Shader::new(1, 1, 1, true, true, true, 1_000);
    let first = s.draw(2_000, 640, 480);
    let second = s.draw(2_001, 640, 480);
    assert!(second.elapsed_nanos > first.elapsed_nanos);
}

#[test]
fn one_second_apart_draws_differ_by_exactly_one_second() {
    // Construct, draw at t0, draw at t0 + 1s: the second time uniform is
    // the first plus exactly one second of nanoseconds.
    let t0: u64 = 123 * SECOND + 456;
    let s = Shader::new(2, 5, 6, true, true, true, t0);
    let first = s.draw(t0, 512, 512);
    let second = s.draw(t0 + SECOND, 512, 512);
    assert_eq!(first.elapsed_nanos, 0);
    assert_eq!(second.elapsed_nanos, first.elapsed_nanos + SECOND);
    assert_eq!(second.width, 512);
    assert_eq!(second.height, 512);
}
