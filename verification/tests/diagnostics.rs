use sdf_harness::diagnostics::{check_compile_errors, step_name, BuildStep, TRUE_STATUS};

#[test]
fn success_emits_no_diagnostic() {
    assert_eq!(
        check_compile_errors(BuildStep::VertexShader, TRUE_STATUS, "ignored"),
        None
    );
    assert_eq!(
        check_compile_errors(BuildStep::FragmentShader, TRUE_STATUS, ""),
        None
    );
    assert_eq!(
        check_compile_errors(BuildStep::ShaderProgram, TRUE_STATUS, "log"),
        None
    );
}

#[test]
fn failed_vertex_compile_renders_the_exact_message() {
    let msg = check_compile_errors(BuildStep::VertexShader, 0, "0:1: syntax error");
    assert_eq!(
        msg.as_deref(),
        Some("Compilation error of type: VertexShader\nInfo log:\n0:1: syntax error")
    );
}

#[test]
fn failed_fragment_compile_renders_the_exact_message() {
    let msg = check_compile_errors(BuildStep::FragmentShader, 0, "undefined symbol");
    assert_eq!(
        msg.as_deref(),
        Some("Compilation error of type: FragmentShader\nInfo log:\nundefined symbol")
    );
}

#[test]
fn failed_link_renders_a_linking_message() {
    let msg = check_compile_errors(BuildStep::ShaderProgram, 0, "unresolved varying");
    assert_eq!(
        msg.as_deref(),
        Some("Linking error of type: ShaderProgram\nInfo log:\nunresolved varying")
    );
}

#[test]
fn any_status_other_than_true_is_a_failure() {
    // The driver's truth value is 1; every other answer counts as failure.
    assert!(check_compile_errors(BuildStep::VertexShader, -1, "x").is_some());
    assert!(check_compile_errors(BuildStep::ShaderProgram, 2, "x").is_some());
}

#[test]
fn step_names_match_the_driver_facing_labels() {
    assert_eq!(step_name(BuildStep::VertexShader), "VertexShader");
    assert_eq!(step_name(BuildStep::FragmentShader), "FragmentShader");
    assert_eq!(step_name(BuildStep::ShaderProgram), "ShaderProgram");
}
