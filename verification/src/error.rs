//! The errors of loading and invoking a plugin.

use vstd::prelude::*;
use vstd::string::StringExecFns;

verus! {

/// Why loading a plugin, or one invocation of it, failed.
///
/// A `ConfigError`, a `LoadError` or a `LinkError` comes from building the
/// module handle: there is no handle afterwards, and the error carries the
/// path of the module. The other four end one invocation and leave the
/// handle as it was.
#[derive(Debug, Clone, PartialEq, Eq)]
pub enum WasmError {
    /// The engine could not be configured.
    ConfigError { cause: String, path: String },
    /// The component could not be read, or is no valid component.
    LoadError { cause: String, path: String },
    /// A host import could not be registered.
    LinkError { cause: String, path: String },
    /// The sandbox context of an invocation could not be built.
    ContextError(String),
    /// An import of the component is not registered, or its start-up trapped.
    InstantiateError(String),
    /// The instance has no exported function of the name that it holds.
    ExportNotFoundError(String),
    /// The guest call trapped, did not fit the signature, or hit a limit.
    CallError(String),
}

/// A [`WasmError`] with its texts as sequences of characters.
pub enum WasmErrorView {
    ConfigError { cause: Seq<char>, path: Seq<char> },
    LoadError { cause: Seq<char>, path: Seq<char> },
    LinkError { cause: Seq<char>, path: Seq<char> },
    ContextError(Seq<char>),
    InstantiateError(Seq<char>),
    ExportNotFoundError(Seq<char>),
    CallError(Seq<char>),
}

impl View for WasmError {
    type V = WasmErrorView;

    open spec fn view(&self) -> WasmErrorView {
        match self {
            WasmError::ConfigError { cause, path } => WasmErrorView::ConfigError {
                cause: cause@,
                path: path@,
            },
            WasmError::LoadError { cause, path } => WasmErrorView::LoadError {
                cause: cause@,
                path: path@,
            },
            WasmError::LinkError { cause, path } => WasmErrorView::LinkError {
                cause: cause@,
                path: path@,
            },
            WasmError::ContextError(cause) => WasmErrorView::ContextError(cause@),
            WasmError::InstantiateError(cause) => WasmErrorView::InstantiateError(cause@),
            WasmError::ExportNotFoundError(name) => WasmErrorView::ExportNotFoundError(name@),
            WasmError::CallError(cause) => WasmErrorView::CallError(cause@),
        }
    }
}

/// `anyhow::Error`, the error of the engine and of the system interface.
/// Nothing inside it is read here.
#[verifier::external_type_specification]
#[verifier::external_body]
pub struct ExError(anyhow::Error);

/// What an error of the engine says of itself: its outermost message.
pub uninterp spec fn error_text(error: anyhow::Error) -> Seq<char>;

/// `ToString::to_string` of `anyhow::Error`, which goes through its
/// `Display`: the outermost message of the error, without its causes.
/// Nothing is stated of the text but that it is the error's own.
#[verifier::external_body]
pub(crate) fn describe(error: &anyhow::Error) -> (text: String)
    ensures
        text@ == error_text(*error),
{
    error.to_string()
}

/// `text` holds `part` as a run of consecutive characters.
pub open spec fn contains_text(text: Seq<char>, part: Seq<char>) -> bool {
    exists|at: int|
        0 <= at && at + part.len() <= text.len() && #[trigger] text.subrange(
            at,
            at + part.len(),
        ) == part
}

impl WasmErrorView {
    /// The path of the module, for the errors that carry one.
    pub open spec fn path(self) -> Option<Seq<char>> {
        match self {
            WasmErrorView::ConfigError { path, .. } => Some(path),
            WasmErrorView::LoadError { path, .. } => Some(path),
            WasmErrorView::LinkError { path, .. } => Some(path),
            _ => None,
        }
    }

    /// The message: the cause, followed by a blank and the path where the
    /// error carries one.
    pub open spec fn message(self) -> Seq<char> {
        match self {
            WasmErrorView::ConfigError { cause, path } => cause + " "@ + path,
            WasmErrorView::LoadError { cause, path } => cause + " "@ + path,
            WasmErrorView::LinkError { cause, path } => cause + " "@ + path,
            WasmErrorView::ContextError(cause) => cause,
            WasmErrorView::InstantiateError(cause) => cause,
            WasmErrorView::ExportNotFoundError(name) => "export not found: "@ + name,
            WasmErrorView::CallError(cause) => cause,
        }
    }

    /// Whether the error leaves no handle behind: it came from building
    /// one. The other errors end one invocation, and the handle serves the
    /// next as before.
    pub open spec fn invalidates_handle(self) -> bool {
        self is ConfigError || self is LoadError || self is LinkError
    }

    /// The message as it is shown to a user.
    pub open spec fn rendered(self) -> Seq<char> {
        "Generic error `"@ + self.message() + "`"@
    }
}

/// `cause`, a blank, `path`.
fn cause_and_path(cause: &str, path: &str) -> (text: String)
    ensures
        text@ == cause@ + " "@ + path@,
{
    let mut text = String::from_str(cause);
    text.append(" ");
    text.append(path);
    text
}

impl WasmError {
    /// The engine could not be configured for the module at `path`.
    pub fn config(cause: &str, path: &str) -> (error: WasmError)
        ensures
            error@ == (WasmErrorView::ConfigError { cause: cause@, path: path@ }),
    {
        WasmError::ConfigError { cause: String::from_str(cause), path: String::from_str(path) }
    }

    /// The component at `path` could not be read or compiled.
    pub fn load(cause: &str, path: &str) -> (error: WasmError)
        ensures
            error@ == (WasmErrorView::LoadError { cause: cause@, path: path@ }),
    {
        WasmError::LoadError { cause: String::from_str(cause), path: String::from_str(path) }
    }

    /// A host import of the module at `path` could not be registered.
    pub fn link(cause: &str, path: &str) -> (error: WasmError)
        ensures
            error@ == (WasmErrorView::LinkError { cause: cause@, path: path@ }),
    {
        WasmError::LinkError { cause: String::from_str(cause), path: String::from_str(path) }
    }

    /// The path of the module, for the errors that carry one.
    pub fn path(&self) -> (path: Option<&str>)
        ensures
            path is Some == self@.path() is Some,
            path matches Some(p) ==> Some(p@) == self@.path(),
    {
        match self {
            WasmError::ConfigError { path, .. } => Some(path.as_str()),
            WasmError::LoadError { path, .. } => Some(path.as_str()),
            WasmError::LinkError { path, .. } => Some(path.as_str()),
            _ => None,
        }
    }

    /// Whether the error leaves no handle behind, so that the plugin has to
    /// be loaded again.
    pub fn invalidates_handle(&self) -> (fatal: bool)
        ensures
            fatal == self@.invalidates_handle(),
    {
        match self {
            WasmError::ConfigError { .. } => true,
            WasmError::LoadError { .. } => true,
            WasmError::LinkError { .. } => true,
            _ => false,
        }
    }

    /// The message of the error.
    pub fn message(&self) -> (text: String)
        ensures
            text@ == self@.message(),
    {
        match self {
            WasmError::ConfigError { cause, path } => cause_and_path(
                cause.as_str(),
                path.as_str(),
            ),
            WasmError::LoadError { cause, path } => cause_and_path(cause.as_str(), path.as_str()),
            WasmError::LinkError { cause, path } => cause_and_path(cause.as_str(), path.as_str()),
            WasmError::ContextError(cause) => cause.clone(),
            WasmError::InstantiateError(cause) => cause.clone(),
            WasmError::ExportNotFoundError(name) => {
                let mut text = String::from_str("export not found: ");
                text.append(name.as_str());
                text
            },
            WasmError::CallError(cause) => cause.clone(),
        }
    }

    /// The error as it is shown to a user: the message between backticks,
    /// after the words `Generic error`.
    pub fn to_string(&self) -> (text: String)
        ensures
            text@ == self@.rendered(),
    {
        let message = self.message();
        let mut text = String::from_str("Generic error `");
        text.append(message.as_str());
        text.append("`");
        text
    }
}

/// An error that carries a path names it: the message ends with the path,
/// and what is shown to a user holds it.
pub proof fn lemma_message_names_path(error: WasmErrorView)
    requires
        error.path() is Some,
    ensures
        error.message().len() >= error.path().unwrap().len(),
        error.message().subrange(
            error.message().len() - error.path().unwrap().len(),
            error.message().len() as int,
        ) == error.path().unwrap(),
        contains_text(error.message(), error.path().unwrap()),
        contains_text(error.rendered(), error.path().unwrap()),
{
    let path = error.path().unwrap();
    let message = error.message();
    let start = message.len() - path.len();
    assert(message.subrange(start, start + path.len()) =~= path);
    let prefix = "Generic error `"@;
    let shown = error.rendered();
    assert(shown.subrange(prefix.len() + start, prefix.len() + start + path.len()) =~= path);
}

} // verus!
