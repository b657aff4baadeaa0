//! The template engine: an environment that holds named templates, and the
//! calls that fill it and render from it.
//!
//! Every call here is a function of its arguments alone, as long as the
//! environment has no loader that fetches templates from elsewhere. So each
//! result has a name, and what a sequence of calls gives is stated over
//! those names.

use minijinja::{Environment, Template, UndefinedBehavior};
use serde_json::Value as JsonValue;
use vstd::prelude::*;

verus! {

/// `minijinja::Environment`: the settings of the engine and the templates
/// that have been added to it.
#[verifier::external_type_specification]
#[verifier::external_body]
pub struct ExEnvironment<'source>(minijinja::Environment<'source>);

/// `minijinja::Template`: a handle to one template of an environment.
#[verifier::external_type_specification]
#[verifier::external_body]
pub struct ExTemplate<'env: 'source, 'source>(minijinja::Template<'env, 'source>);

/// `minijinja::Error`: why a template could not be compiled or rendered.
#[verifier::external_type_specification]
#[verifier::external_body]
pub struct ExTemplateError(minijinja::Error);

/// `minijinja::UndefinedBehavior`: what the engine does with a variable or
/// field that the context does not hold. It is declared with its variants,
/// so that the one in use can be written where the environment is set up.
#[verifier::external_type_specification]
pub struct ExUndefinedBehavior(minijinja::UndefinedBehavior);

/// The names of the templates that have been added to an environment.
pub uninterp spec fn loaded(env: Environment<'static>) -> Set<Seq<char>>;

/// Whether an environment has a loader, which fetches templates that were
/// not added.
pub uninterp spec fn has_loader(env: Environment<'static>) -> bool;

/// An environment after `Environment::set_lstrip_blocks`.
pub uninterp spec fn with_lstrip_blocks(env: Environment<'static>, yes: bool) -> Environment<'static>;

/// An environment after `Environment::set_keep_trailing_newline`.
pub uninterp spec fn with_keep_trailing_newline(env: Environment<'static>, yes: bool) -> Environment<
    'static,
>;

/// An environment after `Environment::set_undefined_behavior`.
pub uninterp spec fn with_undefined_behavior(
    env: Environment<'static>,
    behavior: UndefinedBehavior,
) -> Environment<'static>;

/// An environment after `Environment::add_template_owned` has added a
/// template to it, for a source that is a valid template.
pub uninterp spec fn added(env: Environment<'static>, name: Seq<char>, source: Seq<char>) -> Option<
    Environment<'static>,
>;

/// The template that `Environment::get_template` finds under a name, if it
/// finds one.
pub uninterp spec fn found(env: Environment<'static>, name: Seq<char>) -> Option<
    Template<'static, 'static>,
>;

/// The environment that a template belongs to.
pub uninterp spec fn env_of(template: Template<'static, 'static>) -> Environment<'static>;

/// The text that `Template::render` gives for a context of one variable,
/// where it gives one.
pub uninterp spec fn rendered(
    template: Template<'static, 'static>,
    variable: Seq<char>,
    value: JsonValue,
) -> Option<Seq<char>>;

/// Calls `Environment::new`, which gives an environment with the default
/// filters, tests and globals, no template and no loader.
#[verifier::external_body]
pub(crate) fn new_environment() -> (env: Environment<'static>)
    ensures
        loaded(env) == Set::<Seq<char>>::empty(),
        !has_loader(env),
{
    Environment::new()
}

/// Calls `Environment::set_lstrip_blocks`, which decides whether templates
/// added from now on drop the blanks in front of a block tag. It adds and
/// removes no template, and leaves the loader as it is.
#[verifier::external_body]
pub(crate) fn set_lstrip_blocks(env: &mut Environment<'static>, yes: bool)
    ensures
        *final(env) == with_lstrip_blocks(*old(env), yes),
        loaded(*final(env)) == loaded(*old(env)),
        has_loader(*final(env)) == has_loader(*old(env)),
{
    env.set_lstrip_blocks(yes)
}

/// Calls `Environment::set_keep_trailing_newline`, which decides whether
/// templates added from now on keep a newline at their end. It adds and
/// removes no template, and leaves the loader as it is.
#[verifier::external_body]
pub(crate) fn set_keep_trailing_newline(env: &mut Environment<'static>, yes: bool)
    ensures
        *final(env) == with_keep_trailing_newline(*old(env), yes),
        loaded(*final(env)) == loaded(*old(env)),
        has_loader(*final(env)) == has_loader(*old(env)),
{
    env.set_keep_trailing_newline(yes)
}

/// Calls `Environment::set_undefined_behavior`, which decides what rendering
/// does with a variable or field that the context does not hold. It adds and
/// removes no template, and leaves the loader as it is.
#[verifier::external_body]
pub(crate) fn set_undefined_behavior(env: &mut Environment<'static>, behavior: UndefinedBehavior)
    ensures
        *final(env) == with_undefined_behavior(*old(env), behavior),
        loaded(*final(env)) == loaded(*old(env)),
        has_loader(*final(env)) == has_loader(*old(env)),
{
    env.set_undefined_behavior(behavior)
}

/// Calls `Environment::add_template_owned`, which compiles a template and
/// keeps it under its name, in place of an earlier one of that name. It fails
/// where the source is not a valid template, and then adds none. Whether it
/// fails, and the environment that it leaves where it does not, depend on the
/// environment, the name and the source alone. The loader stays as it is.
#[verifier::external_body]
pub(crate) fn add_template_owned(env: &mut Environment<'static>, name: String, source: String) -> (result:
    Result<(), minijinja::Error>)
    ensures
        result is Ok <==> added(*old(env), name@, source@) is Some,
        result is Ok ==> added(*old(env), name@, source@) == Some(*final(env)),
        result is Ok ==> loaded(*final(env)) == loaded(*old(env)).insert(name@),
        result is Err ==> loaded(*final(env)).subset_of(loaded(*old(env))),
        has_loader(*final(env)) == has_loader(*old(env)),
{
    env.add_template_owned(name, source)
}

/// Calls `Environment::get_template`, which finds every template that has
/// been added under the name asked for. Without a loader, what it finds
/// depends on the environment and the name alone. The template that it finds
/// belongs to the environment.
#[verifier::external_body]
pub(crate) fn get_template<'env>(env: &'env Environment<'static>, name: &str) -> (result: Result<
    Template<'env, 'env>,
    minijinja::Error,
>)
    requires
        !has_loader(*env),
    ensures
        result is Ok <==> found(*env, name@) is Some,
        result matches Ok(template) ==> found(*env, name@) == Some(template) && env_of(template)
            == *env,
        loaded(*env).contains(name@) ==> result is Ok,
{
    env.get_template(name)
}

/// Calls `Template::render` with a context of one variable, `variable`, bound
/// to `value`. For a template of an environment without a loader, the text,
/// and whether there is one, depend on the template, the variable and the
/// value alone.
#[verifier::external_body]
pub(crate) fn render(template: &Template<'_, '_>, variable: &str, value: &JsonValue) -> (result:
    Result<String, minijinja::Error>)
    requires
        !has_loader(env_of(*template)),
    ensures
        result is Ok <==> rendered(*template, variable@, *value) is Some,
        result matches Ok(text) ==> rendered(*template, variable@, *value) == Some(text@),
{
    template.render(std::collections::BTreeMap::from([(variable, value)]))
}

} // verus!
