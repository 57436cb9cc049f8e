//! End-to-end runs of the orchestrator over echo pipelines, and the failure
//! modes that abort a run.

use workflows::{
    Config, Payload, PipelineError, Registry, Runner, StrMap, SupportedWorkflows, WorkflowConfig,
};

fn expect_err(
    r: Result<Option<(SupportedWorkflows, Payload)>, PipelineError>,
) -> PipelineError {
    match r {
        Err(e) => e,
        Ok(_) => panic!("the run was expected to fail here"),
    }
}

fn step(workflow_type: &str, pairs: &[(&str, &str)]) -> WorkflowConfig {
    let mut parameters = StrMap::new();
    for (k, v) in pairs {
        parameters.insert(k.to_string(), v.to_string());
    }
    WorkflowConfig { workflow_type: workflow_type.to_string(), parameters }
}

fn runner_over(steps: Vec<WorkflowConfig>) -> Runner {
    Runner::new(Registry::standard(), Config { workflows: steps }, StrMap::new())
}

#[test]
fn single_echo_step_succeeds() {
    let mut runner = runner_over(vec![step("echo", &[("text", "hello")])]);
    let (workflow, payload) = runner.next_workflow().unwrap().unwrap();
    let output = match workflow {
        SupportedWorkflows::Echo(echo) => echo.execute(&payload),
        _ => unreachable!("the echo step is registered under `echo`"),
    };
    assert_eq!(output.parameter("text"), "hello");
    runner.record_output(output);
    assert!(matches!(runner.next_workflow(), Ok(None)));
}

#[test]
fn second_step_sees_first_output() {
    let mut runner = runner_over(vec![
        step("echo", &[("text", "A")]),
        step("echo", &[("text", "${text}-B")]),
    ]);
    let (workflow, payload) = runner.next_workflow().unwrap().unwrap();
    let first_output = match workflow {
        SupportedWorkflows::Echo(echo) => echo.execute(&payload),
        _ => unreachable!(),
    };
    assert_eq!(first_output.parameter("text"), "A");
    runner.record_output(first_output);

    let (workflow, payload) = runner.next_workflow().unwrap().unwrap();
    assert_eq!(payload.parameter("text"), "A-B");
    let second_output = match workflow {
        SupportedWorkflows::Echo(echo) => echo.execute(&payload),
        _ => unreachable!(),
    };
    assert_eq!(second_output.parameter("text"), "A-B");
    runner.record_output(second_output);
    assert!(matches!(runner.next_workflow(), Ok(None)));
}

#[test]
fn unknown_type_fails_at_that_step() {
    let runner = runner_over(vec![step("nope", &[])]);
    assert_eq!(
        expect_err(runner.next_workflow()),
        PipelineError::UnknownWorkflow("nope".to_string())
    );
}

#[test]
fn unknown_type_fails_only_when_reached() {
    let mut runner = runner_over(vec![
        step("echo", &[("text", "first")]),
        step("nope", &[]),
    ]);
    let (workflow, payload) = runner.next_workflow().unwrap().unwrap();
    let output = match workflow {
        SupportedWorkflows::Echo(echo) => echo.execute(&payload),
        _ => unreachable!(),
    };
    runner.record_output(output);
    assert_eq!(
        expect_err(runner.next_workflow()),
        PipelineError::UnknownWorkflow("nope".to_string())
    );
}

#[test]
fn undefined_variable_aborts_the_run() {
    let runner = runner_over(vec![
        step("echo", &[("text", "${MISSING}")]),
        step("echo", &[("text", "never reached")]),
    ]);
    assert_eq!(
        expect_err(runner.next_workflow()),
        PipelineError::MissingVariable("MISSING".to_string())
    );
}

#[test]
fn type_names_match_case_insensitively() {
    let mut runner = runner_over(vec![step("EcHo", &[("text", "hi")])]);
    let (workflow, payload) = runner.next_workflow().unwrap().unwrap();
    assert!(matches!(workflow, SupportedWorkflows::Echo(_)));
    let output = match workflow {
        SupportedWorkflows::Echo(echo) => echo.execute(&payload),
        _ => unreachable!(),
    };
    assert_eq!(output.parameter("text"), "hi");
}

#[test]
fn undeclared_parameters_are_ignored() {
    let mut runner = runner_over(vec![step("echo", &[("text", "kept"), ("extra", "${nope}")])]);
    // `extra` is not a declared echo parameter, so its unresolvable value is
    // never resolved and the step still runs.
    let (workflow, payload) = runner.next_workflow().unwrap().unwrap();
    assert_eq!(payload.parameter("extra"), "");
    let output = match workflow {
        SupportedWorkflows::Echo(echo) => echo.execute(&payload),
        _ => unreachable!(),
    };
    assert_eq!(output.parameter("text"), "kept");
}

#[test]
fn declared_parameter_missing_from_config_defaults_to_empty() {
    let mut runner = runner_over(vec![step("echo", &[])]);
    let (workflow, payload) = runner.next_workflow().unwrap().unwrap();
    assert_eq!(payload.parameter("text"), "");
    let output = match workflow {
        SupportedWorkflows::Echo(echo) => echo.execute(&payload),
        _ => unreachable!(),
    };
    assert_eq!(output.parameter("text"), "");
}

#[test]
fn empty_pipeline_succeeds_at_once() {
    let runner = runner_over(Vec::new());
    assert!(matches!(runner.next_workflow(), Ok(None)));
}

#[test]
fn environment_reaches_step_parameters() {
    let mut env = StrMap::new();
    env.insert("GREETING".to_string(), "hey".to_string());
    let config = Config { workflows: vec![step("echo", &[("text", "${GREETING}!")])] };
    let runner = Runner::new(Registry::standard(), config, env);
    let (_, payload) = runner.next_workflow().unwrap().unwrap();
    assert_eq!(payload.parameter("text"), "hey!");
}
