use cwe_api_cli::cli::Format;
use cwe_api_cli::client::interpret_response;
use cwe_api_cli::dispatch::exit_status;
use cwe_api_cli::report::{
    find_template, human_outcome, json_outcome, report, report_human, report_human_in,
    report_json, ReportError, TemplateSource, CONTEXT_VARIABLE,
};
use serde_json::Value;

fn template(name: &str, source: &str) -> TemplateSource {
    TemplateSource { name: name.to_string(), source: source.to_string() }
}

fn json(text: &str) -> Value {
    serde_json::from_str(text).unwrap()
}

#[test]
fn json_report_is_indented_by_two_spaces() {
    let value = json("{\"ID\":\"79\",\"Related\":[{\"ID\":\"80\"},{\"ID\":\"81\"}],\"Count\":2}");
    let text = report(Format::Json, &Vec::new(), "cwe_info", value).unwrap();
    assert_eq!(
        text,
        "{\n  \"ID\": \"79\",\n  \"Related\": [\n    {\n      \"ID\": \"80\"\n    },\n    {\n      \"ID\": \"81\"\n    }\n  ],\n  \"Count\": 2\n}\n"
    );
}

#[test]
fn json_report_keeps_the_order_of_keys() {
    let text = report_json(json("{\"b\":1,\"a\":2,\"c\":3}")).unwrap();
    assert_eq!(text, "{\n  \"b\": 1,\n  \"a\": 2,\n  \"c\": 3\n}\n");
}

#[test]
fn json_report_of_scalars() {
    assert_eq!(report_json(Value::Null).unwrap(), "null\n");
    assert_eq!(report_json(json("\"4.15\"")).unwrap(), "\"4.15\"\n");
    assert_eq!(report_json(json("[]")).unwrap(), "[]\n");
    assert_eq!(report_json(json("{}")).unwrap(), "{}\n");
}

#[test]
fn json_report_needs_no_template() {
    let templates = vec![template("cwe_info.jinja", "{% broken")];
    assert_eq!(report(Format::Json, &templates, "missing", json("1")).unwrap(), "1\n");
}

#[test]
fn json_report_parses_back_to_the_same_value() {
    let body = "{\"Weaknesses\":[{\"ID\":\"79\",\"Name\":\"XSS \\\"quoted\\\" \\u00e9\",\"Score\":7.5,\"Deprecated\":false,\"Notes\":null,\"Related\":[1,-2,3000000000]}]}";
    let value = interpret_response(200, body).unwrap();
    let text = report(Format::Json, &Vec::new(), "weakness_info", value.clone()).unwrap();
    assert!(text.ends_with('\n'));
    let again = interpret_response(200, &text).unwrap();
    assert_eq!(again, value);
}

#[test]
fn json_outcome_ends_the_line() {
    let written: Result<String, serde_json::Error> = Ok("{}".to_string());
    assert_eq!(json_outcome(written).unwrap(), "{}\n");
    let failed = serde_json::from_str::<Value>("{").map(|_| String::new());
    assert!(matches!(json_outcome(failed), Err(ReportError::Json(_))));
}

#[test]
fn human_report_without_a_template_fails() {
    let templates = vec![template("cwe_version.jinja", "{{ context.ContentVersion }}")];
    let outcome = report(Format::Human, &templates, "cwe_info", json("{\"ID\":\"79\"}"));
    assert_eq!(exit_status(&outcome), 1);
    match outcome {
        Err(ReportError::TemplateNotFound { name }) => assert_eq!(name, "cwe_info.jinja"),
        other => panic!("unexpected: {:?}", other),
    }
}

#[test]
fn human_report_with_no_templates_at_all_fails() {
    match report_human(&Vec::new(), "version", json("{}")) {
        Err(ReportError::TemplateNotFound { name }) => assert_eq!(name, "version.jinja"),
        other => panic!("unexpected: {:?}", other),
    }
}

#[test]
fn template_is_found_by_key_and_extension_only() {
    let templates = vec![template("cwe_info", "x"), template("cwe_info.jinja2", "x")];
    assert!(matches!(
        report_human(&templates, "cwe_info", json("{}")),
        Err(ReportError::TemplateNotFound { .. })
    ));
}

#[test]
fn missing_template_is_reported_before_an_invalid_one() {
    let templates = vec![template("cwe_version.jinja", "{% broken")];
    assert!(matches!(
        report_human(&templates, "cwe_info", json("{}")),
        Err(ReportError::TemplateNotFound { .. })
    ));
}

#[test]
fn human_report_renders_the_template_of_the_command() {
    let templates = vec![
        template("cwe_version.jinja", "{{ context.ContentVersion }}"),
        template("cwe_info.jinja", "CWE-{{ context.ID }}: {{ context.Name }}"),
    ];
    let value = json("{\"ID\":\"79\",\"Name\":\"XSS\"}");
    assert_eq!(report(Format::Human, &templates, "cwe_info", value).unwrap(), "CWE-79: XSS\n");
}

#[test]
fn value_is_bound_to_the_context_variable() {
    assert_eq!(CONTEXT_VARIABLE, "context");
    let templates = vec![template("t.jinja", "{{ context }}|{{ context.ID }}")];
    assert_eq!(
        report_human(&templates, "t", json("{\"ID\":\"79\"}")).unwrap(),
        "{\"ID\": \"79\"}|79\n"
    );
}

#[test]
fn value_is_bound_to_no_other_variable() {
    for source in ["{{ value }}", "{{ ID }}", "{{ ctx.ID }}"] {
        let templates = vec![template("t.jinja", source)];
        assert!(matches!(
            report_human(&templates, "t", json("{\"ID\":\"79\"}")),
            Err(ReportError::Render(_))
        ));
    }
}

#[test]
fn human_report_iterates_over_lists() {
    let templates = vec![template(
        "cwe_parents.jinja",
        "{% for parent in context %}{{ parent.Type }} {{ parent.ID }}\n{% endfor %}",
    )];
    let value = json("[{\"Type\":\"class_weakness\",\"ID\":\"269\"},{\"Type\":\"base\",\"ID\":\"7\"}]");
    assert_eq!(
        report_human(&templates, "cwe_parents", value).unwrap(),
        "class_weakness 269\nbase 7\n\n"
    );
}

#[test]
fn trailing_newline_of_a_template_is_dropped() {
    let templates = vec![template("t.jinja", "hello\n")];
    assert_eq!(report_human(&templates, "t", json("{}")).unwrap(), "hello\n");
}

#[test]
fn blanks_before_a_block_are_stripped() {
    let templates = vec![template("t.jinja", "a\n    {% if context.x %}b{% endif %}")];
    assert_eq!(report_human(&templates, "t", json("{\"x\":true}")).unwrap(), "a\nb\n");
}

#[test]
fn templates_can_include_each_other() {
    let templates = vec![
        template("entry.jinja", "{{ context.ID }}"),
        template("cwe_info.jinja", "[{% include \"entry.jinja\" %}]"),
    ];
    assert_eq!(report_human(&templates, "cwe_info", json("{\"ID\":\"79\"}")).unwrap(), "[79]\n");
}

#[test]
fn later_template_of_a_name_replaces_the_earlier() {
    let templates = vec![template("t.jinja", "first"), template("t.jinja", "second")];
    assert_eq!(report_human(&templates, "t", json("{}")).unwrap(), "second\n");
}

#[test]
fn invalid_template_in_the_set_fails() {
    let templates = vec![template("cwe_info.jinja", "ok"), template("other.jinja", "{% if %}")];
    assert!(matches!(
        report_human(&templates, "cwe_info", json("{}")),
        Err(ReportError::InvalidTemplate(_))
    ));
}

#[test]
fn value_of_the_wrong_shape_is_a_render_error() {
    let templates = vec![template("cwe_info.jinja", "{{ context.Weakness.Name }}")];
    assert!(matches!(
        report_human(&templates, "cwe_info", json("{\"ID\":\"79\"}")),
        Err(ReportError::Render(_))
    ));
}

#[test]
fn missing_field_is_a_render_error() {
    let templates = vec![template("cwe_info.jinja", "<{{ context.Name }}>")];
    assert!(matches!(
        report_human(&templates, "cwe_info", json("{\"ID\":\"79\"}")),
        Err(ReportError::Render(_))
    ));
    assert!(matches!(
        report(Format::Human, &templates, "cwe_info", json("{\"ID\":\"79\"}")),
        Err(ReportError::Render(_))
    ));
}

#[test]
fn missing_field_is_a_render_error_in_a_condition_and_in_a_loop() {
    let templates = vec![
        template("a.jinja", "{% if context.Name %}x{% endif %}"),
        template("b.jinja", "{% for entry in context.Entries %}x{% endfor %}"),
    ];
    for key in ["a", "b"] {
        assert!(matches!(
            report_human(&templates, key, json("{\"ID\":\"79\"}")),
            Err(ReportError::Render(_))
        ));
    }
}

#[test]
fn field_that_is_null_is_no_missing_field() {
    let templates = vec![template("t.jinja", "<{{ context.Name }}>{% if context.Name %}x{% endif %}")];
    assert_eq!(report_human(&templates, "t", json("{\"Name\":null}")).unwrap(), "<None>\n");
}

#[test]
fn template_can_ask_whether_a_field_is_there() {
    let templates = vec![template(
        "t.jinja",
        "{% if context.Name is defined %}{{ context.Name }}{% else %}unnamed{% endif %}",
    )];
    assert_eq!(report_human(&templates, "t", json("{\"ID\":\"79\"}")).unwrap(), "unnamed\n");
    assert_eq!(report_human(&templates, "t", json("{\"Name\":\"XSS\"}")).unwrap(), "XSS\n");
}

#[test]
fn report_in_a_given_environment() {
    let templates = vec![template("cwe_info.jinja", "CWE-{{ context.ID }}")];
    let value = json("{\"ID\":\"79\"}");
    let first = report_human_in(minijinja::Environment::new(), &templates, "cwe_info", value.clone());
    let second = report_human_in(minijinja::Environment::new(), &templates, "cwe_info", value.clone());
    assert_eq!(first.unwrap(), "CWE-79\n");
    assert_eq!(second.unwrap(), "CWE-79\n");
    assert_eq!(report_human(&templates, "cwe_info", value).unwrap(), "CWE-79\n");
}

#[test]
fn report_in_an_environment_that_holds_templates() {
    let mut env = minijinja::Environment::new();
    env.add_template_owned("entry.jinja".to_string(), "<{{ context.ID }}>".to_string()).unwrap();
    let templates = vec![template("cwe_info.jinja", "{% include \"entry.jinja\" %}")];
    assert_eq!(
        report_human_in(env.clone(), &templates, "cwe_info", json("{\"ID\":\"79\"}")).unwrap(),
        "<79>\n"
    );
    assert!(matches!(
        report_human_in(env, &templates, "entry", json("{\"ID\":\"79\"}")),
        Err(ReportError::TemplateNotFound { .. })
    ));
}

#[test]
fn two_reports_of_equal_inputs_agree() {
    let templates = vec![
        template("cwe_info.jinja", "{% for e in context %}{{ e.ID }},{% endfor %}"),
        template("other.jinja", "{{ context.Missing }}"),
    ];
    let value = json("[{\"ID\":\"79\"},{\"ID\":\"80\"}]");
    for format in [Format::Json, Format::Human] {
        for key in ["cwe_info", "other", "missing"] {
            let first = report(format, &templates, key, value.clone());
            let second = report(format, &templates, key, value.clone());
            assert_eq!(format!("{:?}", first), format!("{:?}", second));
        }
    }
    assert_eq!(
        format!("{:?}", report(Format::Human, &templates, "cwe_info", value.clone())),
        format!("{:?}", report_human(&templates, "cwe_info", value.clone()))
    );
    assert_eq!(
        format!("{:?}", report(Format::Json, &templates, "cwe_info", value.clone())),
        format!("{:?}", report_json(value))
    );
}

#[test]
fn human_outcome_ends_the_line() {
    let rendered: Result<String, minijinja::Error> = Ok("CWE-79".to_string());
    assert_eq!(human_outcome(rendered).unwrap(), "CWE-79\n");
    let failed: Result<String, minijinja::Error> =
        Err(minijinja::Error::new(minijinja::ErrorKind::UndefinedError, "undefined"));
    assert!(matches!(human_outcome(failed), Err(ReportError::Render(_))));
}

#[test]
fn find_template_gives_the_first_of_a_name() {
    let templates = vec![template("a.jinja", "1"), template("b.jinja", "2"), template("b.jinja", "3")];
    assert_eq!(find_template(&templates, &"a.jinja".to_string()), Some(0));
    assert_eq!(find_template(&templates, &"b.jinja".to_string()), Some(1));
    assert_eq!(find_template(&templates, &"c.jinja".to_string()), None);
    assert_eq!(find_template(&Vec::new(), &"a.jinja".to_string()), None);
}
