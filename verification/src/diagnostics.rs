use vstd::prelude::*;
use vstd::string::*;

verus! {

/// A place in a document.
#[derive(Clone, Copy, Debug, PartialEq, Eq, Structural)]
pub struct Point {
    pub row: usize,
    pub column: usize,
}

/// A stretch of a document.
#[derive(Clone, Copy, Debug, PartialEq, Eq, Structural)]
pub struct Range {
    pub start: Point,
    pub end: Point,
}

/// What is read of a child of a syntax node.
#[derive(Clone, Debug, PartialEq, Eq)]
pub struct ChildInfo {
    pub kind: String,
    pub range: Range,
}

/// What is read of a syntax node: its kind and its children in order.
#[derive(Clone, Debug, PartialEq, Eq)]
pub struct NodeInfo {
    pub kind: String,
    pub children: Vec<ChildInfo>,
}

/// A finding about a document.
#[derive(Clone, Debug, PartialEq, Eq)]
pub struct Diagnostic {
    pub range: Range,
    pub message: String,
}

/// A finding with its message as a sequence of characters.
pub ghost struct DiagnosticView {
    pub range: Range,
    pub message: Seq<char>,
}

impl View for Diagnostic {
    type V = DiagnosticView;

    open spec fn view(&self) -> DiagnosticView {
        DiagnosticView { range: self.range, message: self.message@ }
    }
}

/// The findings of a list, each by its view.
pub open spec fn diagnostic_views(list: Seq<Diagnostic>) -> Seq<DiagnosticView> {
    list.map_values(|d: Diagnostic| d@)
}

/// The bracket that closes an opening one.
pub open spec fn spec_closing(kind: Seq<char>) -> Option<Seq<char>> {
    if kind == "{"@ {
        Some("}"@)
    } else if kind == "("@ {
        Some(")"@)
    } else if kind == "["@ {
        Some("]"@)
    } else if kind == "[["@ {
        Some("]]"@)
    } else {
        None
    }
}

/// A bracket node is unmatched where it has children and the last of them is
/// not its closing bracket.
pub open spec fn spec_unmatched(node: NodeInfo) -> bool {
    match spec_closing(node.kind@) {
        Some(closing) => node.children@.len() > 0 && node.children@.last().kind@ != closing,
        None => false,
    }
}

/// The finding for an unmatched bracket node: it lies on the node's first
/// child and names the bracket.
pub open spec fn spec_unmatched_diagnostic(node: NodeInfo) -> DiagnosticView {
    DiagnosticView {
        range: node.children@[0].range,
        message: "unmatched opening bracket '"@ + node.kind@ + "'"@,
    }
}

fn closing(kind: &String) -> (res: Option<String>)
    ensures
        crate::environment::option_view(res) == spec_closing(kind@),
{
    if *kind == "{".to_owned() {
        Some("}".to_owned())
    } else if *kind == "(".to_owned() {
        Some(")".to_owned())
    } else if *kind == "[".to_owned() {
        Some("]".to_owned())
    } else if *kind == "[[".to_owned() {
        Some("]]".to_owned())
    } else {
        None
    }
}

/// Looks at one node for an opening bracket without its closing one. Says
/// whether it found one, and where it did, adds the finding to the list.
pub fn check_unmatched_bracket(node: &NodeInfo, diagnostics: &mut Vec<Diagnostic>) -> (found: bool)
    ensures
        found == spec_unmatched(*node),
        diagnostic_views(final(diagnostics)@) == if found {
            diagnostic_views(old(diagnostics)@).push(spec_unmatched_diagnostic(*node))
        } else {
            diagnostic_views(old(diagnostics)@)
        },
{
    let n: usize = node.children.len();
    if n == 0 {
        return false;
    }
    let rhs: String = match closing(&node.kind) {
        Some(rhs) => rhs,
        None => {
            return false;
        },
    };
    if node.children[n - 1].kind == rhs {
        return false;
    }
    let mut message = "unmatched opening bracket '".to_owned();
    message.append(node.kind.as_str());
    message.append("'");
    diagnostics.push(Diagnostic { range: node.children[0].range, message });
    assert(diagnostic_views(final(diagnostics)@) =~= diagnostic_views(old(diagnostics)@).push(
        spec_unmatched_diagnostic(*node),
    ));
    true
}

/// A request for diagnostics of `version`. One older than the newest seen
/// is dropped. Any other becomes the newest, and its work is to be
/// scheduled.
pub fn enqueue_diagnostics(newest: &mut DiagnosticsVersion, version: i32) -> (scheduled: bool)
    ensures
        scheduled == (version >= old(newest).version),
        final(newest).version == if scheduled {
            version
        } else {
            old(newest).version
        },
{
    if version < newest.version {
        false
    } else {
        newest.version = version;
        true
    }
}

/// The newest version of a document for which diagnostics were asked.
#[derive(Clone, Copy, Debug, PartialEq, Eq, Structural)]
pub struct DiagnosticsVersion {
    pub version: i32,
}

impl DiagnosticsVersion {
    /// No version was asked for yet.
    pub fn new() -> (v: Self)
        ensures
            v.version == 0,
    {
        DiagnosticsVersion { version: 0 }
    }

    /// Whether scheduled work for `version` is still wanted when its turn
    /// comes: only if no other version was asked for since.
    pub fn is_current(&self, version: i32) -> (current: bool)
        ensures
            current == (version == self.version),
    {
        version == self.version
    }
}

} // verus!
