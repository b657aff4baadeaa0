//! What a run writes to standard output: a value as pretty-printed JSON, or
//! rendered through the template that is named after the command.

use crate::cli::Format;
use crate::json::{pretty_text, to_string_pretty};
use crate::template::{
    add_template_owned, added, found, get_template, has_loader, loaded, new_environment, render,
    rendered, set_keep_trailing_newline, set_lstrip_blocks, set_undefined_behavior,
    with_keep_trailing_newline, with_lstrip_blocks, with_undefined_behavior,
};
use minijinja::{Environment, UndefinedBehavior};
use serde_json::Value as JsonValue;
use vstd::prelude::*;
use vstd::string::*;

verus! {

/// A template of the set from which human-readable output is rendered.
#[derive(Debug, Clone, PartialEq, Eq)]
pub struct TemplateSource {
    /// The name under which the template is found: a key and `.jinja`.
    pub name: String,
    /// The text of the template.
    pub source: String,
}

/// Why a value could not be reported.
#[derive(Debug)]
pub enum ReportError {
    /// The value could not be written as JSON.
    Json(serde_json::Error),
    /// The set holds no template of this name.
    TemplateNotFound { name: String },
    /// A template of the set is not valid.
    InvalidTemplate(minijinja::Error),
    /// The value does not have the shape that the template expects.
    Render(minijinja::Error),
}

/// The name of the variable that a template reads the reported value from.
pub const CONTEXT_VARIABLE: &'static str = "context";

/// The name of the template that belongs to a key.
pub open spec fn template_file(key: Seq<char>) -> Seq<char> {
    key + ".jinja"@
}

/// Whether a set holds a template of the given name.
pub open spec fn has_template(templates: Seq<TemplateSource>, name: Seq<char>) -> bool {
    exists|i: int| 0 <= i < templates.len() && #[trigger] templates[i].name@ == name
}

/// A text as one line of output.
pub open spec fn line(text: Seq<char>) -> Seq<char> {
    text.push('\n')
}

/// What reporting as JSON gives: the pretty-printed text of the value as one
/// line.
pub open spec fn json_reported(value: JsonValue, result: Result<String, ReportError>) -> bool {
    result matches Ok(output) && output@ == line(pretty_text(value))
}

/// An environment as reports are rendered in it: blanks in front of a block
/// tag are dropped, the newline at the end of a template is dropped, and a
/// variable or field that the value does not hold is an error.
pub open spec fn configured(env: Environment<'static>) -> Environment<'static> {
    with_undefined_behavior(
        with_keep_trailing_newline(with_lstrip_blocks(env, true), false),
        UndefinedBehavior::Strict,
    )
}

/// An environment after the first `count` templates of a set have been
/// added to it in their order, if all of them are valid.
pub open spec fn filled(env: Environment<'static>, templates: Seq<TemplateSource>, count: nat) -> Option<
    Environment<'static>,
>
    decreases count,
{
    if count == 0 {
        Some(env)
    } else {
        match filled(env, templates, (count - 1) as nat) {
            Some(before) => added(
                before,
                templates[count - 1].name@,
                templates[count - 1].source@,
            ),
            None => None,
        }
    }
}

/// What reporting through a template gives, where rendering starts from the
/// environment `env`.
///
/// Without a template for the key the report fails, and says which name it
/// looked for. Else the environment is configured and the whole set is
/// added to it; where a template of the set is not valid, the report
/// fails. Else the template of the key is rendered with the value bound to
/// `CONTEXT_VARIABLE`: the report is the rendered text as one line, or fails
/// where there is none.
pub open spec fn human_reported_in(
    env: Environment<'static>,
    templates: Seq<TemplateSource>,
    key: Seq<char>,
    value: JsonValue,
    result: Result<String, ReportError>,
) -> bool {
    if !has_template(templates, template_file(key)) {
        result matches Err(ReportError::TemplateNotFound { name }) && name@ == template_file(key)
    } else {
        match filled(configured(env), templates, templates.len()) {
            None => result matches Err(ReportError::InvalidTemplate(_)),
            Some(full) => {
                &&& found(full, template_file(key)) matches Some(template)
                &&& match rendered(template, CONTEXT_VARIABLE@, value) {
                    Some(text) => result matches Ok(output) && output@ == line(text),
                    None => result matches Err(ReportError::Render(_)),
                }
            },
        }
    }
}

/// What reporting through a template gives: what `human_reported_in` says,
/// for an environment without templates and without a loader.
pub open spec fn human_reported(
    templates: Seq<TemplateSource>,
    key: Seq<char>,
    value: JsonValue,
    result: Result<String, ReportError>,
) -> bool {
    exists|env: Environment<'static>|
        #![trigger human_reported_in(env, templates, key, value, result)]
        loaded(env) == Set::<Seq<char>>::empty() && !has_loader(env) && human_reported_in(
            env,
            templates,
            key,
            value,
            result,
        )
}

/// Reports a value in the format asked for.
///
/// The result is the text to write to standard output.
pub fn report(
    format: Format,
    templates: &Vec<TemplateSource>,
    template_name: &str,
    value: JsonValue,
) -> (result: Result<String, ReportError>)
    ensures
        format == Format::Json ==> json_reported(value, result),
        format == Format::Human ==> human_reported(templates@, template_name@, value, result),
{
    match format {
        Format::Json => report_json(value),
        Format::Human => report_human(templates, template_name, value),
    }
}

/// Reports a value as pretty-printed JSON.
pub fn report_json(value: JsonValue) -> (result: Result<String, ReportError>)
    ensures
        json_reported(value, result),
{
    json_outcome(to_string_pretty(&value))
}

/// The report that follows from writing a value as JSON.
pub fn json_outcome(written: Result<String, serde_json::Error>) -> (result: Result<
    String,
    ReportError,
>)
    ensures
        match written {
            Ok(text) => result matches Ok(output) && output@ == line(text@),
            Err(error) => result matches Err(ReportError::Json(e)) && e == error,
        },
{
    match written {
        Ok(text) => Ok(end_line(text)),
        Err(error) => Err(ReportError::Json(error)),
    }
}

/// Reports a value in human-readable form, through the template named
/// after `template_name`, in a new environment.
pub fn report_human(templates: &Vec<TemplateSource>, template_name: &str, value: JsonValue) -> (result:
    Result<String, ReportError>)
    ensures
        human_reported(templates@, template_name@, value, result),
{
    let env = new_environment();
    report_human_in(env, templates, template_name, value)
}

/// Reports a value in human-readable form, through the template named
/// after `template_name`, in an environment that the caller made.
pub fn report_human_in(
    start: Environment<'static>,
    templates: &Vec<TemplateSource>,
    template_name: &str,
    value: JsonValue,
) -> (result: Result<String, ReportError>)
    requires
        !has_loader(start),
    ensures
        human_reported_in(start, templates@, template_name@, value, result),
{
    let name = String::from_str(template_name).concat(".jinja");
    if find_template(templates, &name).is_none() {
        return Err(ReportError::TemplateNotFound { name });
    }
    // Load the template environment.

    let mut env = start;
    set_lstrip_blocks(&mut env, true);
    set_keep_trailing_newline(&mut env, false);
    set_undefined_behavior(&mut env, UndefinedBehavior::Strict);
    let mut i: usize = 0;
    while i < templates.len()
        invariant
            i <= templates.len(),
            name@ == template_file(template_name@),
            has_template(templates@, name@),
            !has_loader(env),
            filled(configured(start), templates@, i as nat) == Some(env),
            forall|j: int| 0 <= j < i ==> loaded(env).contains(#[trigger] templates[j].name@),
        decreases templates.len() - i,
    {
        let template = &templates[i];
        let ghost before = env;
        match add_template_owned(&mut env, template.name.clone(), template.source.clone()) {
            Ok(()) => {},
            Err(error) => {
                proof {
                    assert(added(before, templates[i as int].name@, templates[i as int].source@)
                        is None);
                    assert(filled(configured(start), templates@, (i + 1) as nat) is None);
                    invalid_template_spoils_the_set(configured(start), templates@, (i + 1) as nat);
                }
                return Err(ReportError::InvalidTemplate(error));
            },
        }
        i += 1;
    }
    // Render the template we need.
    match get_template(&env, name.as_str()) {
        Ok(template) => human_outcome(render(&template, CONTEXT_VARIABLE, &value)),
        Err(_) => Err(ReportError::TemplateNotFound { name }),
    }
}

/// Reporting as JSON depends on the value alone: it always succeeds, and
/// two reports of one value are the same text, whatever the template name
/// and the set of templates were.
pub proof fn json_report_is_determined(
    value: JsonValue,
    first: Result<String, ReportError>,
    second: Result<String, ReportError>,
)
    requires
        json_reported(value, first),
        json_reported(value, second),
    ensures
        first matches Ok(one) && second matches Ok(other) && one@ == other@ && one@ == line(
            pretty_text(value),
        ),
{
}

/// Reporting through a template depends on the environment that rendering
/// starts from, the set, the key and the value alone: two reports of equal
/// inputs both succeed with the same text, or both fail for the same reason.
pub proof fn human_report_is_determined(
    env: Environment<'static>,
    templates: Seq<TemplateSource>,
    key: Seq<char>,
    value: JsonValue,
    first: Result<String, ReportError>,
    second: Result<String, ReportError>,
)
    requires
        human_reported_in(env, templates, key, value, first),
        human_reported_in(env, templates, key, value, second),
    ensures
        first matches Ok(one) ==> (second matches Ok(other) && one@ == other@),
        first matches Err(ReportError::TemplateNotFound { name: one }) ==> (second matches Err(
            ReportError::TemplateNotFound { name: other },
        ) && one@ == other@),
        first matches Err(ReportError::InvalidTemplate(_)) ==> second matches Err(
            ReportError::InvalidTemplate(_),
        ),
        first matches Err(ReportError::Render(_)) ==> second matches Err(ReportError::Render(_)),
        !(first matches Err(ReportError::Json(_))),
{
}

/// Once a template of a set is not valid, the set cannot be added.
proof fn invalid_template_spoils_the_set(env: Environment<'static>, templates: Seq<TemplateSource>, count: nat)
    requires
        count <= templates.len(),
        filled(env, templates, count) is None,
    ensures
        filled(env, templates, templates.len()) is None,
    decreases templates.len() - count,
{
    if count < templates.len() {
        invalid_template_spoils_the_set(env, templates, count + 1);
    }
}

/// The report that follows from rendering a template.
pub fn human_outcome(rendered: Result<String, minijinja::Error>) -> (result: Result<
    String,
    ReportError,
>)
    ensures
        match rendered {
            Ok(text) => result matches Ok(output) && output@ == line(text@),
            Err(error) => result matches Err(ReportError::Render(e)) && e == error,
        },
{
    match rendered {
        Ok(text) => Ok(end_line(text)),
        Err(error) => Err(ReportError::Render(error)),
    }
}

/// The place of the first template of a name in a set, if there is one.
pub fn find_template(templates: &Vec<TemplateSource>, name: &String) -> (found: Option<usize>)
    ensures
        match found {
            Some(i) => i < templates.len() && templates[i as int].name@ == name@ && forall|j: int|
                0 <= j < i ==> templates[j].name@ != name@,
            None => !has_template(templates@, name@),
        },
{
    let mut i: usize = 0;
    while i < templates.len()
        invariant
            i <= templates.len(),
            forall|j: int| 0 <= j < i ==> templates[j].name@ != name@,
        decreases templates.len() - i,
    {
        if templates[i].name == *name {
            return Some(i);
        }
        i += 1;
    }
    None
}

/// Ends a text with a newline.
fn end_line(text: String) -> (output: String)
    ensures
        output@ == line(text@),
{
    proof {
        reveal_strlit("\n");
    }
    let output = text.concat("\n");
    assert(output@ =~= line(text@));
    output
}

} // verus!
