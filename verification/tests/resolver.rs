//! Behaviour of the variable resolver: placeholder substitution, the
//! identity on plain text, tier precedence, and resolution failures.

use workflows::{fulfill, Context, PipelineError, StrMap};

fn context_with(env_pairs: &[(&str, &str)], output_pairs: &[(&str, &str)]) -> Context {
    let mut env = StrMap::new();
    for (k, v) in env_pairs {
        env.insert(k.to_string(), v.to_string());
    }
    let mut context = Context::new(env);
    if !output_pairs.is_empty() {
        let mut output = StrMap::new();
        for (k, v) in output_pairs {
            output.insert(k.to_string(), v.to_string());
        }
        context.replace_last_output(output);
    }
    context
}

#[test]
fn plain_text_is_unchanged() {
    let context = context_with(&[("x", "1")], &[]);
    assert_eq!(fulfill("hello world", &context).unwrap(), "hello world");
}

#[test]
fn empty_string_is_unchanged() {
    let context = context_with(&[], &[]);
    assert_eq!(fulfill("", &context).unwrap(), "");
}

#[test]
fn lone_placeholder_resolves_from_environment() {
    let context = context_with(&[("x", "1")], &[]);
    assert_eq!(fulfill("${x}", &context).unwrap(), "1");
}

#[test]
fn embedded_placeholder_resolves() {
    let context = context_with(&[("x", "1")], &[]);
    assert_eq!(fulfill("a${x}b", &context).unwrap(), "a1b");
}

#[test]
fn adjacent_placeholders_resolve() {
    let context = context_with(&[("x", "1"), ("y", "2")], &[]);
    assert_eq!(fulfill("${x}${y}", &context).unwrap(), "12");
}

#[test]
fn last_output_shadows_environment() {
    let context = context_with(&[("x", "env")], &[("x", "out")]);
    assert_eq!(fulfill("${x}", &context).unwrap(), "out");
}

#[test]
fn environment_serves_names_missing_from_last_output() {
    let context = context_with(&[("e", "env")], &[("o", "out")]);
    assert_eq!(fulfill("${o}-${e}", &context).unwrap(), "out-env");
}

#[test]
fn unterminated_placeholder_is_literal_text() {
    let context = context_with(&[("x", "1")], &[]);
    assert_eq!(fulfill("${x", &context).unwrap(), "${x");
}

#[test]
fn dollar_without_brace_is_literal_text() {
    let context = context_with(&[("x", "1")], &[]);
    assert_eq!(fulfill("$x }", &context).unwrap(), "$x }");
}

#[test]
fn substituted_value_is_not_resolved_again() {
    let context = context_with(&[("x", "${y}"), ("y", "z")], &[]);
    assert_eq!(fulfill("${x}", &context).unwrap(), "${y}");
}

#[test]
fn missing_variable_is_reported() {
    let context = context_with(&[("x", "1")], &[]);
    assert_eq!(
        fulfill("${MISSING}", &context),
        Err(PipelineError::MissingVariable("MISSING".to_string()))
    );
}

#[test]
fn empty_name_is_a_missing_variable() {
    let context = context_with(&[("x", "1")], &[]);
    assert_eq!(
        fulfill("${}", &context),
        Err(PipelineError::MissingVariable(String::new()))
    );
}

#[test]
fn first_missing_variable_wins() {
    let context = context_with(&[], &[]);
    assert_eq!(
        fulfill("${a}${b}", &context),
        Err(PipelineError::MissingVariable("a".to_string()))
    );
}

#[test]
fn replacing_last_output_discards_every_earlier_key() {
    let mut context = context_with(&[("E", "env")], &[]);
    let mut first = StrMap::new();
    first.insert("a".to_string(), "1".to_string());
    context.replace_last_output(first);
    assert_eq!(context.lookup("a").map(|s| s.as_str()), Some("1"));
    let mut second = StrMap::new();
    second.insert("b".to_string(), "2".to_string());
    context.replace_last_output(second);
    assert!(context.lookup("a").is_none());
    assert_eq!(context.lookup("b").map(|s| s.as_str()), Some("2"));
    assert_eq!(context.lookup("E").map(|s| s.as_str()), Some("env"));
}
