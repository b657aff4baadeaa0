//! The commands that a user can give, as plain values.

use vstd::prelude::*;

verus! {

/// A complete invocation: one command and the format of its output.
#[derive(Debug, Clone)]
pub struct Cli {
    pub command: Command,
    /// The format of output.
    pub format: Format,
}

/// The format of output.
#[derive(Debug, Clone, Copy, PartialEq, Eq, Structural)]
pub enum Format {
    /// Json output.
    Json,
    /// Human-readable output.
    Human,
}

impl Format {
    /// The word that selects this format on the command line.
    pub open spec fn name(self) -> Seq<char> {
        match self {
            Format::Json => "json"@,
            Format::Human => "human"@,
        }
    }

    /// The word that selects this format on the command line.
    pub fn as_str(&self) -> (word: &'static str)
        ensures
            word@ == self.name(),
    {
        match self {
            Format::Json => "json",
            Format::Human => "human",
        }
    }
}

impl Default for Format {
    /// Output is JSON unless the user asks otherwise.
    fn default() -> (format: Format)
        ensures
            format == Format::Json,
    {
        Format::Json
    }
}

#[derive(Debug, Clone)]
pub enum Command {
    /// Operations for specific CWEs.
    Cwe(CweArgs),
    /// Operations for specific weaknesses.
    Weakness(WeaknessArgs),
    /// Operations for specific views.
    View(ViewArgs),
    /// Operations for specific categories.
    Category(CategoryArgs),
    /// Get version information for the CLI and API.
    Version(VersionArgs),
}

#[derive(Debug, Clone)]
pub struct VersionArgs {
    /// Get the version of the CLI binary.
    pub cli_version: bool,
    /// Get the version of the CWE API.
    pub api_version: bool,
}

impl Default for VersionArgs {
    /// Without flags, the version of the CLI alone is reported.
    fn default() -> (args: VersionArgs)
        ensures
            args.cli_version,
            !args.api_version,
    {
        VersionArgs { cli_version: true, api_version: false }
    }
}

#[derive(Debug, Clone)]
pub struct CweArgs {
    pub command: CweCommand,
}

#[derive(Debug, Clone)]
pub struct WeaknessArgs {
    pub command: WeaknessCommand,
}

#[derive(Debug, Clone)]
pub struct ViewArgs {
    pub command: ViewCommand,
}

#[derive(Debug, Clone)]
pub struct CategoryArgs {
    pub command: CategoryCommand,
}

#[derive(Debug, Clone)]
pub enum CweCommand {
    /// Get info for a specific CWE.
    Info(CweInfoArgs),
    /// Get the parents of a specific CWE.
    Parents(CweParentsArgs),
    /// Get the descendants of a specific CWE.
    Descendants(CweDescendantsArgs),
    /// Get the children of a specific CWE.
    Children(CweChildrenArgs),
    /// Get the ancestors of a specific CWE.
    Ancestors(CweAncestorsArgs),
    /// Get info about the current version of the CWE database.
    Version,
}

#[derive(Debug, Clone)]
pub struct CweInfoArgs {
    /// The ID of the CWE.
    pub id: String,
}

#[derive(Debug, Clone)]
pub struct CweParentsArgs {
    /// The ID of the CWE.
    pub id: String,
    /// An optional view filter.
    pub view: Option<String>,
}

#[derive(Debug, Clone)]
pub struct CweDescendantsArgs {
    /// The ID of the CWE.
    pub id: String,
    /// An optional view filter.
    pub view: Option<String>,
}

#[derive(Debug, Clone)]
pub struct CweChildrenArgs {
    /// The ID of the CWE.
    pub id: String,
    /// An optional view filter.
    pub view: Option<String>,
}

#[derive(Debug, Clone)]
pub struct CweAncestorsArgs {
    /// The ID of the CWE.
    pub id: String,
    /// The primary ancestor.
    pub primary: Option<bool>,
    /// An optional view filter.
    pub view: Option<String>,
}

#[derive(Debug, Clone)]
pub enum WeaknessCommand {
    /// Get info about a specific weakness.
    Info(WeaknessInfoArgs),
}

#[derive(Debug, Clone)]
pub struct WeaknessInfoArgs {
    /// The ID of the weakness.
    pub id: String,
}

#[derive(Debug, Clone)]
pub enum ViewCommand {
    /// Get info about a specific view.
    Info(ViewInfoArgs),
}

#[derive(Debug, Clone)]
pub struct ViewInfoArgs {
    /// The ID of the view.
    pub id: String,
}

#[derive(Debug, Clone)]
pub enum CategoryCommand {
    /// Get info about a specific category.
    Info(CategoryInfoArgs),
}

#[derive(Debug, Clone)]
pub struct CategoryInfoArgs {
    /// The ID of the category.
    pub id: String,
}

} // verus!
