//! The dispatcher: from a parsed command to the one call that it makes, and
//! to the template that its answer is reported through.

use crate::cli::{
    CategoryArgs, CategoryCommand, CategoryInfoArgs, Cli, Command, CweAncestorsArgs, CweArgs,
    CweChildrenArgs, CweCommand, CweDescendantsArgs, CweInfoArgs, CweParentsArgs, VersionArgs,
    ViewArgs, ViewCommand, ViewInfoArgs, WeaknessArgs, WeaknessCommand, WeaknessInfoArgs,
};
use crate::client::{
    entry_request, interpreted, is_success, primary_query, relatives_request, version_request,
    view_query, Client, Request, RequestView, BASE_URL,
};
use crate::json::{parsed_json, pretty_text};
use crate::report::{
    has_template, human_reported, json_reported, line, template_file, ReportError, TemplateSource,
};
use serde_json::Value as JsonValue;
use vstd::prelude::*;
use vstd::string::*;

verus! {

/// The version of the CLI.
pub const VERSION: &'static str = "0.1.0";

/// Holds the central app state and API client.
#[derive(Debug, Clone)]
pub struct App {
    /// The CLI arguments passed by the user.
    pub cli: Cli,
    /// The client of the CWE API.
    pub client: Client,
}

impl App {
    /// Construct a new `App` instance for a parsed command line, with a
    /// client of the public CWE service.
    pub fn new(cli: Cli) -> (app: App)
        ensures
            app.cli == cli,
            app.client.baseurl@ == BASE_URL@,
    {
        App { cli, client: Client::new(BASE_URL) }
    }
}

/// What a command asks the caller to do before anything is reported.
#[derive(Debug, Clone)]
pub enum Plan {
    /// Make one request and report what the service answers.
    Fetch { request: Request, template: String },
    /// Report versions. The version of the CLI is known without the
    /// service; `api_request` is the call that gives the version of the API,
    /// where that is asked for.
    Version { cli_version: bool, api_request: Option<Request>, template: String },
}

/// A plan as plain text.
pub enum PlanView {
    Fetch { request: RequestView, template: Seq<char> },
    Version { cli_version: bool, api_request: Option<RequestView>, template: Seq<char> },
}

impl View for Plan {
    type V = PlanView;

    open spec fn view(&self) -> PlanView {
        match *self {
            Plan::Fetch { request, template } => PlanView::Fetch {
                request: request@,
                template: template@,
            },
            Plan::Version { cli_version, api_request, template } => PlanView::Version {
                cli_version,
                api_request: match api_request {
                    Some(request) => Some(request@),
                    None => None,
                },
                template: template@,
            },
        }
    }
}

/// The text of a string that may be absent.
pub open spec fn text_of(text: Option<String>) -> Option<Seq<char>> {
    match text {
        Some(t) => Some(t@),
        None => None,
    }
}

/// The key of the template through which the answer to a command is
/// reported in human-readable form.
pub open spec fn template_key(command: Command) -> Seq<char> {
    match command {
        Command::Version(_) => "version"@,
        Command::Cwe(CweArgs { command: CweCommand::Version }) => "cwe_version"@,
        Command::Cwe(CweArgs { command: CweCommand::Info(_) }) => "cwe_info"@,
        Command::Cwe(CweArgs { command: CweCommand::Parents(_) }) => "cwe_parents"@,
        Command::Cwe(CweArgs { command: CweCommand::Descendants(_) }) => "cwe_descendants"@,
        Command::Cwe(CweArgs { command: CweCommand::Children(_) }) => "cwe_children"@,
        Command::Cwe(CweArgs { command: CweCommand::Ancestors(_) }) => "cwe_ancestors"@,
        Command::Weakness(_) => "weakness_info"@,
        Command::View(_) => "view_info"@,
        Command::Category(_) => "category_info"@,
    }
}

/// The plan of a command, for a client of the service at `base`.
pub open spec fn planned(command: Command, base: Seq<char>) -> PlanView {
    let template = template_key(command);
    match command {
        Command::Version(args) => PlanView::Version {
            cli_version: args.cli_version,
            api_request: if args.api_version {
                Some(version_request(base))
            } else {
                None
            },
            template,
        },
        Command::Cwe(CweArgs { command: CweCommand::Version }) => PlanView::Fetch {
            request: version_request(base),
            template,
        },
        Command::Cwe(CweArgs { command: CweCommand::Info(args) }) => PlanView::Fetch {
            request: entry_request(base, "/cwe/"@, args.id@),
            template,
        },
        Command::Cwe(CweArgs { command: CweCommand::Parents(args) }) => PlanView::Fetch {
            request: relatives_request(
                base,
                args.id@,
                "parents"@,
                view_query(text_of(args.view)),
            ),
            template,
        },
        Command::Cwe(CweArgs { command: CweCommand::Descendants(args) }) => PlanView::Fetch {
            request: relatives_request(
                base,
                args.id@,
                "descendants"@,
                view_query(text_of(args.view)),
            ),
            template,
        },
        Command::Cwe(CweArgs { command: CweCommand::Children(args) }) => PlanView::Fetch {
            request: relatives_request(
                base,
                args.id@,
                "children"@,
                view_query(text_of(args.view)),
            ),
            template,
        },
        Command::Cwe(CweArgs { command: CweCommand::Ancestors(args) }) => PlanView::Fetch {
            request: relatives_request(
                base,
                args.id@,
                "ancestors"@,
                primary_query(args.primary) + view_query(text_of(args.view)),
            ),
            template,
        },
        Command::Weakness(WeaknessArgs { command: WeaknessCommand::Info(args) }) => PlanView::Fetch {
            request: entry_request(base, "/cwe/weakness/"@, args.id@),
            template,
        },
        Command::View(ViewArgs { command: ViewCommand::Info(args) }) => PlanView::Fetch {
            request: entry_request(base, "/cwe/view/"@, args.id@),
            template,
        },
        Command::Category(CategoryArgs { command: CategoryCommand::Info(args) }) => PlanView::Fetch {
            request: entry_request(base, "/cwe/category/"@, args.id@),
            template,
        },
    }
}

impl PlanView {
    /// The requests that a plan makes: one, or none.
    pub open spec fn requests(self) -> Seq<RequestView> {
        match self {
            PlanView::Fetch { request, .. } => seq![request],
            PlanView::Version { api_request: Some(request), .. } => seq![request],
            PlanView::Version { api_request: None, .. } => Seq::empty(),
        }
    }

    /// The key of the template that the answer is reported through.
    pub open spec fn template(self) -> Seq<char> {
        match self {
            PlanView::Fetch { template, .. } => template,
            PlanView::Version { template, .. } => template,
        }
    }
}

/// Maps the command of an invocation to its plan: at most one call to the
/// service, and the template for its answer.
pub fn run(app: &App) -> (plan: Plan)
    ensures
        plan@ == planned(app.cli.command, app.client.baseurl@),
{
    match &app.cli.command {
        Command::Version(args) => run_version_cmd(app, args),
        Command::Cwe(args) => match &args.command {
            CweCommand::Version => run_cwe_version_cmd(app),
            CweCommand::Info(args) => run_cwe_info_cmd(app, args),
            CweCommand::Parents(args) => run_cwe_parents_cmd(app, args),
            CweCommand::Descendants(args) => run_cwe_descendants_cmd(app, args),
            CweCommand::Children(args) => run_cwe_children_cmd(app, args),
            CweCommand::Ancestors(args) => run_cwe_ancestors_cmd(app, args),
        },
        Command::Weakness(args) => match &args.command {
            WeaknessCommand::Info(args) => run_weakness_info_cmd(app, args),
        },
        Command::View(args) => match &args.command {
            ViewCommand::Info(args) => run_view_info_cmd(app, args),
        },
        Command::Category(args) => match &args.command {
            CategoryCommand::Info(args) => run_category_info_cmd(app, args),
        },
    }
}

/// The plan of `version`: the service is asked only for the version of the API.
pub fn run_version_cmd(app: &App, args: &VersionArgs) -> (plan: Plan)
    ensures
        plan@ == planned(Command::Version(*args), app.client.baseurl@),
{
    let api_request = if args.api_version {
        Some(app.client.get_cwe())
    } else {
        None
    };
    Plan::Version {
        cli_version: args.cli_version,
        api_request,
        template: String::from_str("version"),
    }
}

/// The plan of `cwe version`.
pub fn run_cwe_version_cmd(app: &App) -> (plan: Plan)
    ensures
        plan@ == planned(
            Command::Cwe(CweArgs { command: CweCommand::Version }),
            app.client.baseurl@,
        ),
{
    Plan::Fetch { request: app.client.get_cwe(), template: String::from_str("cwe_version") }
}

/// The plan of `cwe info`.
pub fn run_cwe_info_cmd(app: &App, args: &CweInfoArgs) -> (plan: Plan)
    ensures
        plan@ == planned(
            Command::Cwe(CweArgs { command: CweCommand::Info(*args) }),
            app.client.baseurl@,
        ),
{
    Plan::Fetch {
        request: app.client.get_cwe_info(args.id.as_str()),
        template: String::from_str("cwe_info"),
    }
}

/// The plan of `cwe parents`.
pub fn run_cwe_parents_cmd(app: &App, args: &CweParentsArgs) -> (plan: Plan)
    ensures
        plan@ == planned(
            Command::Cwe(CweArgs { command: CweCommand::Parents(*args) }),
            app.client.baseurl@,
        ),
{
    Plan::Fetch {
        request: app.client.get_cwe_parents(args.id.as_str(), as_deref(&args.view)),
        template: String::from_str("cwe_parents"),
    }
}

/// The plan of `cwe descendants`.
pub fn run_cwe_descendants_cmd(app: &App, args: &CweDescendantsArgs) -> (plan: Plan)
    ensures
        plan@ == planned(
            Command::Cwe(CweArgs { command: CweCommand::Descendants(*args) }),
            app.client.baseurl@,
        ),
{
    Plan::Fetch {
        request: app.client.get_cwe_descendants(args.id.as_str(), as_deref(&args.view)),
        template: String::from_str("cwe_descendants"),
    }
}

/// The plan of `cwe children`.
pub fn run_cwe_children_cmd(app: &App, args: &CweChildrenArgs) -> (plan: Plan)
    ensures
        plan@ == planned(
            Command::Cwe(CweArgs { command: CweCommand::Children(*args) }),
            app.client.baseurl@,
        ),
{
    Plan::Fetch {
        request: app.client.get_cwe_children(args.id.as_str(), as_deref(&args.view)),
        template: String::from_str("cwe_children"),
    }
}

/// The plan of `cwe ancestors`.
pub fn run_cwe_ancestors_cmd(app: &App, args: &CweAncestorsArgs) -> (plan: Plan)
    ensures
        plan@ == planned(
            Command::Cwe(CweArgs { command: CweCommand::Ancestors(*args) }),
            app.client.baseurl@,
        ),
{
    Plan::Fetch {
        request: app.client.get_cwe_ancestors(
            args.id.as_str(),
            args.primary,
            as_deref(&args.view),
        ),
        template: String::from_str("cwe_ancestors"),
    }
}

/// The plan of `weakness info`.
pub fn run_weakness_info_cmd(app: &App, args: &WeaknessInfoArgs) -> (plan: Plan)
    ensures
        plan@ == planned(
            Command::Weakness(WeaknessArgs { command: WeaknessCommand::Info(*args) }),
            app.client.baseurl@,
        ),
{
    Plan::Fetch {
        request: app.client.get_cwe_weakness(args.id.as_str()),
        template: String::from_str("weakness_info"),
    }
}

/// The plan of `view info`.
pub fn run_view_info_cmd(app: &App, args: &ViewInfoArgs) -> (plan: Plan)
    ensures
        plan@ == planned(
            Command::View(ViewArgs { command: ViewCommand::Info(*args) }),
            app.client.baseurl@,
        ),
{
    Plan::Fetch {
        request: app.client.get_cwe_view(args.id.as_str()),
        template: String::from_str("view_info"),
    }
}

/// The plan of `category info`.
pub fn run_category_info_cmd(app: &App, args: &CategoryInfoArgs) -> (plan: Plan)
    ensures
        plan@ == planned(
            Command::Category(CategoryArgs { command: CategoryCommand::Info(*args) }),
            app.client.baseurl@,
        ),
{
    Plan::Fetch {
        request: app.client.get_cwe_category(args.id.as_str()),
        template: String::from_str("category_info"),
    }
}

/// The versions that `version` reports.
#[derive(Debug, Clone)]
pub struct VersionReport {
    /// The version of the CLI, where it is asked for.
    pub cli_version: Option<String>,
    /// What the service says of its version, where it is asked for.
    pub api_version: Option<JsonValue>,
}

/// The report of `version`: the version of the CLI where it is asked for,
/// and the answer of the service to the request of the plan, if it made one.
pub fn version_report(cli_version: bool, api_version: Option<JsonValue>) -> (report: VersionReport)
    ensures
        text_of(report.cli_version) == reported_version(cli_version),
        report.api_version == api_version,
{
    let cli_version = if cli_version {
        Some(String::from_str(VERSION))
    } else {
        None
    };
    VersionReport { cli_version, api_version }
}

/// What `version` reports of the CLI: its version, where it is asked for.
pub open spec fn reported_version(cli_version: bool) -> Option<Seq<char>> {
    if cli_version {
        Some(VERSION@)
    } else {
        None
    }
}

/// The exit status of a run: zero on success, one on any error.
pub open spec fn status_of<T, E>(outcome: Result<T, E>) -> u8 {
    match outcome {
        Ok(_) => 0,
        Err(_) => 1,
    }
}

/// The exit status of a run that ended in `outcome`.
pub fn exit_status<T, E>(outcome: &Result<T, E>) -> (status: u8)
    ensures
        status == status_of(*outcome),
{
    match outcome {
        Ok(_) => 0,
        Err(_) => 1,
    }
}

/// A command makes at most one request. `version` makes one exactly when
/// the version of the API is asked for, and then it asks for the version of
/// the content; every other command makes exactly one.
pub proof fn plan_makes_at_most_one_request(command: Command, base: Seq<char>)
    ensures
        planned(command, base).requests().len() <= 1,
        command matches Command::Version(args) ==> planned(command, base).requests() == if args.api_version {
            seq![version_request(base)]
        } else {
            Seq::empty()
        },
        !(command is Version) ==> planned(command, base).requests().len() == 1,
{
}

/// Without the flag for the API, `version` needs no service: its plan holds
/// no request. Where the version of the CLI is asked for, the report holds
/// it, and it is not the empty text.
pub proof fn cli_version_needs_no_service(args: VersionArgs, base: Seq<char>)
    requires
        !args.api_version,
    ensures
        planned(Command::Version(args), base).requests().len() == 0,
        args.cli_version ==> (reported_version(args.cli_version) matches Some(text) && text.len()
            > 0),
{
    reveal_strlit("0.1.0");
}

/// In human-readable form, a command whose template the set does not hold
/// ends in `TemplateNotFound`, whatever the service answered, and the run
/// exits with a status other than zero.
pub proof fn missing_template_fails(
    command: Command,
    base: Seq<char>,
    templates: Seq<TemplateSource>,
    value: JsonValue,
    result: Result<String, ReportError>,
)
    requires
        !has_template(templates, template_file(planned(command, base).template())),
        human_reported(templates, planned(command, base).template(), value, result),
    ensures
        result matches Err(ReportError::TemplateNotFound { name }) && name@ == template_file(
            template_key(command),
        ),
        status_of(result) != 0,
{
}

/// A successful answer is reported as JSON exactly as it was read: the
/// report is the pretty-printed text, as one line, of the value that the
/// body stands for.
pub proof fn answer_is_reported_as_read(
    status: u16,
    body: Seq<char>,
    value: JsonValue,
    result: Result<String, ReportError>,
)
    requires
        interpreted(status, body, Ok(value)),
        json_reported(value, result),
    ensures
        is_success(status),
        parsed_json(body) == Some(value),
        result matches Ok(output) && output@ == line(pretty_text(value)),
        status_of(result) == 0,
{
}

/// A borrowed view of a string that may be absent.
fn as_deref(text: &Option<String>) -> (borrowed: Option<&str>)
    ensures
        crate::client::text_of(borrowed) == text_of(*text),
{
    match text {
        Some(t) => Some(t.as_str()),
        None => None,
    }
}

} // verus!
