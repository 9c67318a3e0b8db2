//! Shared data types: project and engine records, build status, log lines,
//! and the focus/navigation vocabulary of the front end.

use vstd::prelude::*;

verus! {

/// A project entry in the persisted configuration.
#[derive(Debug, Clone)]
pub struct ProjectConfig {
    pub name: String,
    pub path: String,
    /// Manual override for the editor target; used verbatim when non-blank.
    pub editor_target: Option<String>,
}

/// Top-level persisted configuration.
#[derive(Debug, Clone)]
pub struct Config {
    pub projects: Vec<ProjectConfig>,
    pub unreal_engine_path: Option<String>,
    pub selected_project_path: Option<String>,
}

impl Default for Config {
    fn default() -> (r: Self)
        ensures
            r.projects@.len() == 0,
            r.unreal_engine_path is None,
            r.selected_project_path is None,
    {
        Config { projects: Vec::new(), unreal_engine_path: None, selected_project_path: None }
    }
}

/// A detected engine installation.
#[derive(Debug, Clone)]
pub struct EngineInstall {
    pub id: String,
    pub name: String,
    pub path: String,
    pub version: Option<String>,
}

/// The current state of a build as shown to the user.
#[derive(Debug, Clone, PartialEq, Eq, Structural)]
pub enum BuildState {
    Idle,
    Running,
    Success,
    Error,
    Cancelled,
}

impl BuildState {
    /// The status text shown for this state.
    pub fn label(&self) -> (r: &'static str)
        ensures
            *self is Idle ==> r@ == "Idle"@,
            *self is Running ==> r@ == "Building..."@,
            *self is Success ==> r@ == "Build Succeeded"@,
            *self is Error ==> r@ == "Build Failed"@,
            *self is Cancelled ==> r@ == "Cancelled"@,
    {
        match self {
            BuildState::Idle => "Idle",
            BuildState::Running => "Building...",
            BuildState::Success => "Build Succeeded",
            BuildState::Error => "Build Failed",
            BuildState::Cancelled => "Cancelled",
        }
    }
}

/// A single line of build output with a severity hint.
#[derive(Debug, Clone)]
pub struct LogLine {
    pub text: String,
    pub level: LogLevel,
}

/// Severity hint attached to a log line.
#[derive(Debug, Clone, PartialEq, Eq, Structural)]
pub enum LogLevel {
    Info,
    Warning,
    Error,
    Success,
}

/// A single focusable element in the linear navigation order.
#[derive(Debug, Clone, PartialEq, Eq, Structural)]
pub enum FocusItem {
    /// A project in the list, by index.
    Project(usize),
    /// The "Add Project" action.
    AddProject,
    /// The engine path panel.
    Engine,
    /// A build action button, by index into the available actions.
    BuildButton(usize),
    /// The log panel.
    Logs,
}

impl FocusItem {
    /// The panel a focus item belongs to.
    pub fn panel(&self) -> (r: FocusPanel)
        ensures
            r == self.spec_panel(),
    {
        match self {
            FocusItem::Project(_) | FocusItem::AddProject => FocusPanel::Projects,
            FocusItem::Engine => FocusPanel::Engine,
            FocusItem::BuildButton(_) => FocusPanel::Build,
            FocusItem::Logs => FocusPanel::Logs,
        }
    }

    /// The panel a focus item belongs to, as a specification.
    pub open spec fn spec_panel(&self) -> FocusPanel {
        match self {
            FocusItem::Project(_) | FocusItem::AddProject => FocusPanel::Projects,
            FocusItem::Engine => FocusPanel::Engine,
            FocusItem::BuildButton(_) => FocusPanel::Build,
            FocusItem::Logs => FocusPanel::Logs,
        }
    }
}

/// Which panel is highlighted, derived from the focused item.
#[derive(Debug, Clone, Copy, PartialEq, Eq, Structural)]
pub enum FocusPanel {
    Projects,
    Engine,
    Build,
    Logs,
}

/// The active modal dialog, if any.
#[derive(Debug, Clone, PartialEq, Eq)]
pub enum DialogKind {
    /// Manual path text input: label, current text, and what the value is for.
    PathInput { label: String, value: String, target: PathInputTarget },
    /// Pick from the detected engine installations.
    EnginePicker,
    /// Pick one of several discovered editor targets for a project.
    EditorTargetPicker { project_index: usize, candidates: Vec<String>, selected: usize },
    /// Confirm an action before it runs.
    Confirm { message: String, action: ConfirmAction },
    /// Help overlay.
    Help,
}

/// What a path-input dialog's value is used for once confirmed.
#[derive(Debug, Clone, PartialEq, Eq, Structural)]
pub enum PathInputTarget {
    AddProject,
    SetEnginePath,
    SetEditorTarget(usize),
}

/// An action that requires confirmation.
#[derive(Debug, Clone, PartialEq, Eq, Structural)]
pub enum ConfirmAction {
    RemoveProject(usize),
}

} // verus!
