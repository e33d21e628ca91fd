//! Compile/link diagnostics: the decision whether a construction step
//! failed, and the exact text of the operator-visible diagnostic line.
//!
//! The GPU driver is queried after each compile and after the link; it
//! answers with a boolean status and, on failure, a textual info log. Both
//! the status query and the log retrieval are external calls made by the
//! surrounding program; what is decided and proved here is the policy: a
//! step failed exactly when the status is not the driver's truth value, a
//! failure is non-fatal and yields only a message, and the message is the
//! fixed format `<failure-kind> error of type: <step-name>` followed by the
//! info log.

use vstd::prelude::*;

verus! {

/// The driver's boolean truth value: a status query reporting anything else
/// is a failure.
pub const TRUE_STATUS: i32 = 1;

/// The three construction steps whose status the driver is asked for, in
/// the order they run.
#[derive(Clone, Copy, Debug, PartialEq, Eq, Structural)]
pub enum BuildStep {
    VertexShader,
    FragmentShader,
    ShaderProgram,
}

/// The name a step carries in a diagnostic line.
pub open spec fn spec_step_name(step: BuildStep) -> Seq<char> {
    match step {
        BuildStep::VertexShader => "VertexShader"@,
        BuildStep::FragmentShader => "FragmentShader"@,
        BuildStep::ShaderProgram => "ShaderProgram"@,
    }
}

/// The failure kind of a step: the two compile stages fail compilation,
/// the program object fails linking.
pub open spec fn spec_failure_kind(step: BuildStep) -> Seq<char> {
    match step {
        BuildStep::ShaderProgram => "Linking"@,
        _ => "Compilation"@,
    }
}

/// The complete diagnostic line emitted for a failed step.
pub open spec fn spec_diagnostic_message(step: BuildStep, info_log: Seq<char>) -> Seq<char> {
    spec_failure_kind(step) + " error of type: "@ + spec_step_name(step) + "\nInfo log:\n"@
        + info_log
}

/// The name a step carries in a diagnostic line.
pub fn step_name(step: BuildStep) -> (r: &'static str)
    ensures
        r@ == spec_step_name(step),
{
    match step {
        BuildStep::VertexShader => "VertexShader",
        BuildStep::FragmentShader => "FragmentShader",
        BuildStep::ShaderProgram => "ShaderProgram",
    }
}

/// Decides whether a construction step failed and, if it did, renders the
/// diagnostic line for it from the driver's info log. Success yields no
/// message; failure yields exactly the fixed-format message — never an
/// abort, construction always continues.
pub fn check_compile_errors(step: BuildStep, success: i32, info_log: &str) -> (r: Option<String>)
    ensures
        (r is None) <==> success == TRUE_STATUS,
        success != TRUE_STATUS ==> r is Some && r.unwrap()@ == spec_diagnostic_message(
            step,
            info_log@,
        ),
{
    if success == TRUE_STATUS {
        None
    } else {
        let kind: &str = match step {
            BuildStep::ShaderProgram => "Linking",
            _ => "Compilation",
        };
        let mut msg: String = kind.to_owned();
        msg.append(" error of type: ");
        msg.append(step_name(step));
        msg.append("\nInfo log:\n");
        msg.append(info_log);
        Some(msg)
    }
}

} // verus!
