use vstd::prelude::*;

verus! {

/// A single variable in the runtime.
#[derive(Debug, PartialEq, Eq)]
pub struct Variable {
    /// A key that identifies the variable within the runtime; `inspect`
    /// requests name it in their paths.
    pub access_key: String,
    /// The name of the variable, formatted for display.
    pub display_name: String,
    /// The variable's value, formatted for display and possibly truncated.
    pub display_value: String,
    /// The variable's type, formatted for display.
    pub display_type: String,
    /// Extended information about the variable's type.
    pub type_info: String,
    /// The size of the variable's value in bytes.
    pub size: i64,
    /// The kind of value the variable represents, by its wire name.
    pub kind: String,
    /// The number of elements in the variable, if it is a collection.
    pub length: i64,
    /// Whether the variable has child variables.
    pub has_children: bool,
    /// Whether the runtime can open a viewer for the variable.
    pub has_viewer: bool,
    /// Whether `display_value` was cut short.
    pub is_truncated: bool,
}

/// An inspected variable.
#[derive(Debug, PartialEq, Eq)]
pub struct InspectedVariable {
    /// The children of the inspected variable.
    pub children: Vec<Variable>,
    /// The total number of children, which may be more than `children`
    /// holds.
    pub length: i64,
}

/// An object formatted for copying to the clipboard.
#[derive(Debug, PartialEq, Eq)]
pub struct FormattedVariable {
    /// The format returned, as a MIME type.
    pub format: String,
    /// The formatted content of the variable.
    pub content: String,
}

/// The kinds of value a variable can stand for.
#[derive(Clone, Copy, Debug, PartialEq, Eq, Structural)]
pub enum VariableKind {
    Boolean,
    Bytes,
    Collection,
    Empty,
    Function,
    /// Named values; the wire calls this kind `map`.
    Mapping,
    Number,
    Other,
    String,
    Table,
}

/// Parameters for the Clear method.
#[derive(Clone, Copy, Debug, PartialEq, Eq, Structural)]
pub struct ClearParams {
    /// Whether to clear hidden objects in addition to normal variables.
    pub include_hidden_objects: bool,
}

/// Parameters for the Delete method.
#[derive(Debug, PartialEq, Eq)]
pub struct DeleteParams {
    /// The names of the variables to delete.
    pub names: Vec<String>,
}

/// Parameters for the Inspect method.
#[derive(Debug, PartialEq, Eq)]
pub struct InspectParams {
    /// The path to the variable to inspect, as a list of access keys.
    pub path: Vec<String>,
}

/// Parameters for the ClipboardFormat method.
#[derive(Debug, PartialEq, Eq)]
pub struct ClipboardFormatParams {
    /// The path to the variable to format, as a list of access keys.
    pub path: Vec<String>,
    /// The requested format for the variable, as a MIME type.
    pub format: String,
}

/// Parameters for the View method.
#[derive(Debug, PartialEq, Eq)]
pub struct ViewParams {
    /// The path to the variable to view, as a list of access keys.
    pub path: Vec<String>,
}

/// Parameters for the Update method.
#[derive(Debug, PartialEq, Eq)]
pub struct UpdateParams {
    /// The variables that have been newly assigned.
    pub assigned: Vec<Variable>,
    /// The names of the variables that have been removed.
    pub removed: Vec<String>,
}

/// Parameters for the Refresh method.
#[derive(Debug, PartialEq, Eq)]
pub struct RefreshParams {
    /// All the variables in the current session.
    pub variables: Vec<Variable>,
}

/// The requests of the variables comm.
#[derive(Debug, PartialEq, Eq)]
pub enum VariablesRpcRequest {
    /// List all the variables in the current session.
    List,
    /// Delete all the variables in the current session.
    Clear(ClearParams),
    /// Delete the named variables.
    Delete(DeleteParams),
    /// Return the children of a variable.
    Inspect(InspectParams),
    /// Format a variable for the clipboard.
    ClipboardFormat(ClipboardFormatParams),
    /// Open a viewer on a variable.
    View(ViewParams),
}

/// The replies of the variables comm.
#[derive(Debug, PartialEq, Eq)]
pub enum VariablesRpcReply {
    /// The variables in the session.
    ListReply(Vec<Variable>),
    /// The variables that remain after a clear; usually none.
    ClearReply(Vec<Variable>),
    /// The names of the variables that were deleted.
    DeleteReply(Vec<String>),
    /// An inspected variable.
    InspectReply(InspectedVariable),
    /// An object formatted for the clipboard.
    ClipboardFormatReply(FormattedVariable),
}

/// The events that the variables comm sends to the front end.
#[derive(Debug, PartialEq, Eq)]
pub enum VariablesEvent {
    /// Some variables were assigned or removed.
    Update(UpdateParams),
    /// All variables are replaced by those given.
    Refresh(RefreshParams),
}

} // verus!
