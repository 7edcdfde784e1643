//! Binding a command to its target environment: which interpreters discovery may return, where
//! installs are redirected, and whether an externally managed interpreter stops the command.

use vstd::prelude::*;

verus! {

/// Which environments interpreter discovery may return.
#[derive(Debug, Clone, Copy, PartialEq, Eq, Structural)]
pub enum EnvironmentPreference {
    /// Only virtual environments.
    OnlyVirtual,
    /// Virtual environments, and a system interpreter only where it was asked for by name.
    ExplicitSystem,
    /// Only system interpreters.
    OnlySystem,
    /// Any environment.
    Any,
}

/// The preference that the `--system` flag gives, for a command that changes the environment
/// (`mutable`) or one that only reads it.
pub open spec fn preference_spec(system: bool, mutable: bool) -> EnvironmentPreference {
    if system {
        EnvironmentPreference::OnlySystem
    } else if mutable {
        EnvironmentPreference::ExplicitSystem
    } else {
        EnvironmentPreference::Any
    }
}

impl EnvironmentPreference {
    /// The preference that the `--system` flag gives: with it, only system interpreters;
    /// without it, a command that changes the environment accepts a system interpreter only
    /// where one was asked for, and any other command accepts any.
    pub fn from_system_flag(system: bool, mutable: bool) -> (r: Self)
        ensures
            r == preference_spec(system, mutable),
    {
        if system {
            EnvironmentPreference::OnlySystem
        } else if mutable {
            EnvironmentPreference::ExplicitSystem
        } else {
            EnvironmentPreference::Any
        }
    }
}

/// How the interpreter is located.
#[derive(Debug, Clone, Copy, PartialEq, Eq, Structural)]
pub enum Discovery {
    /// Any discoverable installation, system ones included, with the given preference.
    Installation(EnvironmentPreference),
    /// The active environment, with the given preference.
    Environment(EnvironmentPreference),
}

/// How an install locates its interpreter: with `--target` or `--prefix`, any installation will
/// do; otherwise the active environment is preferred and a system interpreter needs `--system`.
pub open spec fn install_discovery_spec(redirected: bool, system: bool) -> Discovery {
    if redirected {
        Discovery::Installation(preference_spec(system, false))
    } else {
        Discovery::Environment(preference_spec(system, true))
    }
}

/// Decide how an install locates its interpreter, as [`install_discovery_spec`] says.
pub fn install_discovery(redirected: bool, system: bool) -> (r: Discovery)
    ensures
        r == install_discovery_spec(redirected, system),
{
    if redirected {
        Discovery::Installation(EnvironmentPreference::from_system_flag(system, false))
    } else {
        Discovery::Environment(EnvironmentPreference::from_system_flag(system, true))
    }
}

/// Where installs go.
#[derive(Debug, Clone, PartialEq, Eq)]
pub enum Redirect {
    /// Into a `--target` directory.
    Target(String),
    /// Into a `--prefix` directory.
    Prefix(String),
    /// Into the environment itself.
    Unchanged,
}

/// The redirect that `--target` and `--prefix` ask for: `--target` wins over `--prefix`.
pub open spec fn redirect_spec(target: Option<String>, prefix: Option<String>) -> Redirect {
    match target {
        Some(t) => Redirect::Target(t),
        None => match prefix {
            Some(p) => Redirect::Prefix(p),
            None => Redirect::Unchanged,
        },
    }
}

/// Decide where installs go, as [`redirect_spec`] says.
pub fn choose_redirect(target: Option<String>, prefix: Option<String>) -> (r: Redirect)
    ensures
        r == redirect_spec(target, prefix),
{
    match target {
        Some(t) => Redirect::Target(t),
        None => match prefix {
            Some(p) => Redirect::Prefix(p),
            None => Redirect::Unchanged,
        },
    }
}

/// The interpreter at `root` is externally managed, and the command may not change it.
#[derive(Debug, Clone, PartialEq, Eq)]
pub struct ExternallyManagedError {
    /// The environment's root directory, as it is displayed.
    pub root: String,
    /// The explanation that the interpreter's `EXTERNALLY-MANAGED` file gives, if any.
    pub explanation: Option<String>,
}

/// Whether an interpreter that reports `managed` (`None`: not externally managed; `Some(e)`:
/// managed, with the explanation `e` if there is one) stops the command: an install
/// redirected to `--target` or `--prefix` never changes the interpreter's own packages, and
/// `--break-system-packages` overrides the marker.
pub open spec fn externally_managed_stops(
    managed: Option<Option<String>>,
    redirected: bool,
    break_system_packages: bool,
) -> bool {
    managed is Some && !redirected && !break_system_packages
}

/// Check the externally-managed marker of the interpreter at `root`.
pub fn check_externally_managed(
    managed: Option<Option<String>>,
    redirected: bool,
    break_system_packages: bool,
    root: String,
) -> (r: Result<(), ExternallyManagedError>)
    ensures
        r is Err <==> externally_managed_stops(managed, redirected, break_system_packages),
        r matches Err(e) ==> e.root == root && Some(e.explanation) == managed,
{
    if redirected || break_system_packages {
        return Ok(());
    }
    match managed {
        Some(explanation) => Err(ExternallyManagedError { root, explanation }),
        None => Ok(()),
    }
}

/// The text of [`indent`]: each non-blank line of `s` with `prefix` put before it.
pub uninterp spec fn indent_of(s: Seq<char>, prefix: Seq<char>) -> Seq<char>;

/// Relies on `textwrap::indent`: it prefixes each line that is not blank, and gives an empty
/// string for an empty one.
#[verifier::external_body]
fn indent(s: &str, prefix: &str) -> (r: String)
    ensures
        r@ == indent_of(s@, prefix@),
        s@.len() == 0 ==> r@.len() == 0,
{
    textwrap::indent(s, prefix)
}

/// The message of an externally-managed error, from its root and its explanation already
/// indented.
pub open spec fn externally_managed_text(root: Seq<char>, indented: Option<Seq<char>>) -> Seq<char> {
    match indented {
        Some(text) => "The interpreter at "@ + root
            + " is externally managed, and indicates the following:\n\n"@ + text
            + "\n\nConsider creating a virtual environment with `uv venv`."@,
        None => "The interpreter at "@ + root
            + " is externally managed. Instead, create a virtual environment with `uv venv`."@,
    }
}

/// The message of an externally-managed error whose explanation, if any, has been indented
/// already.
pub fn externally_managed_message_with(root: &str, indented: Option<&str>) -> (r: String)
    ensures
        r@ == externally_managed_text(root@, match indented {
            Some(t) => Some(t@),
            None => None,
        }),
{
    let r = String::from_str("The interpreter at ");
    let r = r.concat(root);
    match indented {
        Some(text) => {
            let r = r.concat(" is externally managed, and indicates the following:\n\n");
            let r = r.concat(text);
            r.concat("\n\nConsider creating a virtual environment with `uv venv`.")
        },
        None => r.concat(
            " is externally managed. Instead, create a virtual environment with `uv venv`.",
        ),
    }
}

impl ExternallyManagedError {
    /// The message that reports the error, with the interpreter's explanation indented by two
    /// spaces.
    pub fn message(&self) -> (r: String)
        ensures
            r@ == externally_managed_text(self.root@, match self.explanation {
                Some(e) => Some(indent_of(e@, "  "@)),
                None => None,
            }),
    {
        match &self.explanation {
            Some(e) => {
                let indented = indent(e.as_str(), "  ");
                externally_managed_message_with(self.root.as_str(), Some(indented.as_str()))
            },
            None => externally_managed_message_with(self.root.as_str(), None),
        }
    }
}

} // verus!
