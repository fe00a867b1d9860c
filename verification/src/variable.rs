use crate::environment::has_children;
use crate::environment::spec_has_children;
use crate::environment::Binding;
use crate::environment::BindingKind;
use crate::environment::ObjectInfo;
use crate::environment::CLOSXP;
use crate::environment::CPLXSXP;
use crate::environment::ENVSXP;
use crate::environment::INTSXP;
use crate::environment::LGLSXP;
use crate::environment::RAWSXP;
use crate::environment::REALSXP;
use crate::environment::STRSXP;
use crate::environment::VECSXP;
use crate::text::decimal;
use crate::text::lemma_lex_le_total;
use crate::text::lemma_lex_le_transitive;
use crate::text::lex_le;
use crate::text::spec_decimal;
use crate::text::spec_lex_le;
use vstd::prelude::*;
use vstd::string::*;
use vstd::utf8::*;

verus! {

/// The kinds of value that a variable can hold.
#[derive(Clone, Copy, Debug, PartialEq, Eq, Structural)]
pub enum ValueKind {
    /// A single logical value.
    Boolean,
    /// Raw bytes.
    Bytes,
    /// Values without names; most often a vector.
    Collection,
    /// A missing or null value.
    Empty,
    /// Anything that can be called.
    Function,
    /// Values with names, such as a named list or an environment.
    Mapping,
    /// A number.
    Number,
    /// A value of a kind not known or not told.
    Other,
    /// A character string.
    String,
    /// A data frame or another structure of two dimensions.
    Table,
}

/// A value formatted for display.
#[derive(Clone, Debug, PartialEq, Eq)]
pub struct BindingValue {
    pub display_value: String,
    /// Whether the text was cut short.
    pub is_truncated: bool,
}

/// A type formatted for display.
#[derive(Clone, Debug, PartialEq, Eq)]
pub struct BindingType {
    pub display_type: String,
    pub type_info: String,
}

/// A variable of an environment, ready to be sent to the front end.
#[derive(Clone, Debug, PartialEq, Eq)]
pub struct EnvironmentVariable {
    /// The key by which paths name the variable; not shown to the user.
    pub access_key: String,
    /// The variable's name, formatted for display.
    pub display_name: String,
    /// The variable's value, formatted for display.
    pub display_value: String,
    /// The variable's type, formatted for display.
    pub display_type: String,
    /// Extended type information.
    pub type_info: String,
    /// The kind of the variable's value.
    pub kind: ValueKind,
    /// The number of elements in the value, where that applies.
    pub length: usize,
    /// The size of the value in bytes.
    pub size: usize,
    /// Whether the variable holds other variables.
    pub has_children: bool,
    /// Whether `display_value` was cut short.
    pub is_truncated: bool,
}

/// A variable with its strings as sequences of characters.
pub ghost struct EnvironmentVariableView {
    pub access_key: Seq<char>,
    pub display_name: Seq<char>,
    pub display_value: Seq<char>,
    pub display_type: Seq<char>,
    pub type_info: Seq<char>,
    pub kind: ValueKind,
    pub length: usize,
    pub size: usize,
    pub has_children: bool,
    pub is_truncated: bool,
}

impl View for EnvironmentVariable {
    type V = EnvironmentVariableView;

    open spec fn view(&self) -> EnvironmentVariableView {
        EnvironmentVariableView {
            access_key: self.access_key@,
            display_name: self.display_name@,
            display_value: self.display_value@,
            display_type: self.display_type@,
            type_info: self.type_info@,
            kind: self.kind,
            length: self.length,
            size: self.size,
            has_children: self.has_children,
            is_truncated: self.is_truncated,
        }
    }
}

/// The kind of an object by its type: a closure is a function, an
/// environment a mapping; a list is a table where it is a data frame, a
/// mapping where it has names and a collection where not; an atomic vector
/// is a collection; anything else is of another kind.
pub open spec fn spec_variable_kind(x: ObjectInfo) -> ValueKind {
    if x.rtype == CLOSXP {
        ValueKind::Function
    } else if x.rtype == ENVSXP {
        ValueKind::Mapping
    } else if x.rtype == VECSXP {
        if x.inherits_data_frame {
            ValueKind::Table
        } else if x.has_names {
            ValueKind::Mapping
        } else {
            ValueKind::Collection
        }
    } else if x.rtype == LGLSXP || x.rtype == INTSXP || x.rtype == REALSXP || x.rtype == CPLXSXP
        || x.rtype == STRSXP || x.rtype == RAWSXP {
        ValueKind::Collection
    } else {
        ValueKind::Other
    }
}

/// The kind of a binding's value. An active binding and a promise that was
/// not forced are not looked into; a forced promise counts as what it came
/// to.
pub open spec fn spec_binding_value_kind(binding: Binding) -> ValueKind {
    match (binding.kind, binding.promise_value) {
        (BindingKind::Regular, _) => spec_variable_kind(binding.value),
        (BindingKind::Promise(true), Some(value)) => spec_variable_kind(value),
        _ => ValueKind::Other,
    }
}

/// Whether a binding's value has children, looked into as far as its kind
/// is.
pub open spec fn spec_binding_has_children(binding: Binding) -> bool {
    match (binding.kind, binding.promise_value) {
        (BindingKind::Regular, _) => spec_has_children(binding.value),
        (BindingKind::Promise(true), Some(value)) => spec_has_children(value),
        _ => false,
    }
}

/// The display name of a member of a pairlist: its tag, or, where it has
/// none, its place counted from one, in double brackets.
pub open spec fn spec_pairlist_name(tag: Option<Seq<char>>, index: u64) -> Seq<char> {
    match tag {
        Some(name) => name,
        None => "[["@ + spec_decimal((index + 1) as nat) + "]]"@,
    }
}

/// The display name of a member of a pairlist.
pub fn pairlist_name(tag: Option<String>, index: u64) -> (name: String)
    requires
        index < u64::MAX,
    ensures
        name@ == spec_pairlist_name(crate::environment::option_view(tag), index),
{
    match tag {
        Some(name) => name,
        None => {
            let mut name = "[[".to_owned();
            name.append(decimal(index + 1).as_str());
            name.append("]]");
            name
        },
    }
}

impl EnvironmentVariable {
    /// The kind of an object's value.
    pub fn variable_kind(x: &ObjectInfo) -> (kind: ValueKind)
        ensures
            kind == spec_variable_kind(*x),
    {
        let rtype: u32 = x.rtype;
        if rtype == CLOSXP {
            ValueKind::Function
        } else if rtype == ENVSXP {
            ValueKind::Mapping
        } else if rtype == VECSXP {
            if x.inherits_data_frame {
                ValueKind::Table
            } else if x.has_names {
                ValueKind::Mapping
            } else {
                ValueKind::Collection
            }
        } else if rtype == LGLSXP || rtype == INTSXP || rtype == REALSXP || rtype == CPLXSXP
            || rtype == STRSXP || rtype == RAWSXP {
            ValueKind::Collection
        } else {
            ValueKind::Other
        }
    }

    /// The variable of a binding: it is named and keyed by the binding's
    /// name, shows the value and type as formatted, and has no length or
    /// size told.
    pub fn new(binding: &Binding, value: BindingValue, ty: BindingType) -> (var: Self)
        ensures
            var@ == (EnvironmentVariableView {
                access_key: binding.name@,
                display_name: binding.name@,
                display_value: value.display_value@,
                display_type: ty.display_type@,
                type_info: ty.type_info@,
                kind: spec_binding_value_kind(*binding),
                length: 0,
                size: 0,
                has_children: spec_binding_has_children(*binding),
                is_truncated: value.is_truncated,
            }),
    {
        let (kind, children) = match (binding.kind, &binding.promise_value) {
            (BindingKind::Regular, _) => (
                Self::variable_kind(&binding.value),
                has_children(&binding.value),
            ),
            (BindingKind::Promise(true), Some(forced)) => (
                Self::variable_kind(forced),
                has_children(forced),
            ),
            _ => (ValueKind::Other, false),
        };
        EnvironmentVariable {
            access_key: binding.name.clone(),
            display_name: binding.name.clone(),
            display_value: value.display_value,
            display_type: ty.display_type,
            type_info: ty.type_info,
            kind,
            length: 0,
            size: 0,
            has_children: children,
            is_truncated: value.is_truncated,
        }
    }

    /// The variable of an object reached under a key and a name of its own.
    pub fn from(
        access_key: String,
        display_name: String,
        x: &ObjectInfo,
        value: BindingValue,
        ty: BindingType,
    ) -> (var: Self)
        ensures
            var@ == (EnvironmentVariableView {
                access_key: access_key@,
                display_name: display_name@,
                display_value: value.display_value@,
                display_type: ty.display_type@,
                type_info: ty.type_info@,
                kind: spec_variable_kind(*x),
                length: 0,
                size: 0,
                has_children: spec_has_children(*x),
                is_truncated: value.is_truncated,
            }),
    {
        EnvironmentVariable {
            access_key,
            display_name,
            display_value: value.display_value,
            display_type: ty.display_type,
            type_info: ty.type_info,
            kind: Self::variable_kind(x),
            length: 0,
            size: 0,
            has_children: has_children(x),
            is_truncated: value.is_truncated,
        }
    }

    /// Marks the variable as an attribute of the inspected object: its key
    /// is its name behind an `@`, and its name is shown as a call of `attr`.
    pub fn into_attribute(self) -> (var: Self)
        ensures
            var@ == spec_attribute(self@),
    {
        let mut key = "@".to_owned();
        key.append(self.display_name.as_str());
        let mut name = "attr(\"".to_owned();
        name.append(self.display_name.as_str());
        name.append("\")");
        EnvironmentVariable {
            access_key: key,
            display_name: name,
            display_value: self.display_value,
            display_type: self.display_type,
            type_info: self.type_info,
            kind: self.kind,
            length: self.length,
            size: self.size,
            has_children: self.has_children,
            is_truncated: self.is_truncated,
        }
    }
}

/// The bytes by which a variable is ordered: those of its display name.
pub open spec fn name_key(var: EnvironmentVariable) -> Seq<u8> {
    encode_utf8(var.display_name@)
}

/// The variables stand in the order of their display names.
pub open spec fn sorted_by_name(vars: Seq<EnvironmentVariable>) -> bool {
    forall|i: int, j: int|
        0 <= i <= j < vars.len() ==> spec_lex_le(name_key(vars[i]), name_key(vars[j]))
}

proof fn lemma_nothing_in_an_empty_list(vars: Seq<EnvironmentVariable>)
    requires
        vars.len() == 0,
    ensures
        vars.to_multiset() == vstd::multiset::Multiset::<EnvironmentVariable>::empty(),
{
    broadcast use vstd::multiset::group_multiset_axioms;

    assert forall|v: EnvironmentVariable| vars.to_multiset().count(v) == 0 by {
        vstd::seq_lib::to_multiset_contains(vars, v);
    }
    assert(vars.to_multiset() =~= vstd::multiset::Multiset::<EnvironmentVariable>::empty());
}

/// Puts variables in the order of their display names, compared byte by
/// byte. The result holds the same variables, each as often as before.
pub fn sort_by_display_name(vars: Vec<EnvironmentVariable>) -> (sorted: Vec<EnvironmentVariable>)
    ensures
        sorted_by_name(sorted@),
        sorted@.to_multiset() == vars@.to_multiset(),
{
    let mut input = vars;
    let mut sorted: Vec<EnvironmentVariable> = Vec::new();
    proof {
        broadcast use vstd::multiset::group_multiset_axioms;

        lemma_nothing_in_an_empty_list(sorted@);
        assert(sorted@.to_multiset().add(input@.to_multiset()) =~= vars@.to_multiset());
    }
    while input.len() > 0
        invariant
            sorted_by_name(sorted@),
            sorted@.to_multiset().add(input@.to_multiset()) == vars@.to_multiset(),
        decreases input.len(),
    {
        let ghost input_before = input@;
        let ghost sorted_before = sorted@;
        let var = input.remove(0);
        let mut place: usize = 0;
        while place < sorted.len() && lex_le(
            sorted[place].display_name.as_str().as_bytes(),
            var.display_name.as_str().as_bytes(),
        )
            invariant
                place <= sorted.len(),
                sorted@ == sorted_before,
                forall|k: int| 0 <= k < place ==> spec_lex_le(name_key(sorted@[k]), name_key(var)),
            decreases sorted.len() - place,
        {
            place += 1;
        }
        sorted.insert(place, var);
        proof {
            broadcast use vstd::multiset::group_multiset_axioms;

            vstd::seq_lib::to_multiset_remove(input_before, 0);
            vstd::seq_lib::to_multiset_insert(sorted_before, place as int, var);
            input_before.to_multiset_ensures();
            assert(input_before.to_multiset().count(var) > 0);
            assert(sorted@.to_multiset().add(input@.to_multiset())
                =~= sorted_before.to_multiset().add(input_before.to_multiset()));
            assert forall|i: int, j: int| 0 <= i <= j < sorted@.len() implies spec_lex_le(
                name_key(sorted@[i]),
                name_key(sorted@[j]),
            ) by {
                let p = place as int;
                if j < p {
                    assert(sorted@[i] == sorted_before[i] && sorted@[j] == sorted_before[j]);
                } else if j == p {
                    if i < p {
                        assert(sorted@[i] == sorted_before[i]);
                    }
                    lemma_lex_le_total(name_key(var), name_key(var));
                } else {
                    assert(sorted@[j] == sorted_before[j - 1]);
                    if i < p {
                        assert(sorted@[i] == sorted_before[i]);
                    } else if i == p {
                        assert(!spec_lex_le(name_key(sorted_before[p]), name_key(var)));
                        lemma_lex_le_total(name_key(sorted_before[p]), name_key(var));
                        lemma_lex_le_transitive(
                            name_key(var),
                            name_key(sorted_before[p]),
                            name_key(sorted_before[j - 1]),
                        );
                    } else {
                        assert(sorted@[i] == sorted_before[i - 1]);
                    }
                }
            }
        }
    }
    proof {
        broadcast use vstd::multiset::group_multiset_axioms;

        lemma_nothing_in_an_empty_list(input@);
        assert(sorted@.to_multiset().add(input@.to_multiset()) =~= sorted@.to_multiset());
    }
    sorted
}

/// The views of a list of variables.
pub open spec fn variable_views(vars: Seq<EnvironmentVariable>) -> Seq<EnvironmentVariableView> {
    vars.map_values(|v: EnvironmentVariable| v@)
}

/// The view of a variable marked as an attribute.
pub open spec fn spec_attribute(var: EnvironmentVariableView) -> EnvironmentVariableView {
    EnvironmentVariableView {
        access_key: "@"@ + var.display_name,
        display_name: "attr(\""@ + var.display_name + "\")"@,
        ..var
    }
}

/// What an inspection shows of an object: its children as they are, then
/// its attributes, each marked as one.
pub fn with_attributes(
    children: Vec<EnvironmentVariable>,
    attributes: Vec<EnvironmentVariable>,
) -> (out: Vec<EnvironmentVariable>)
    ensures
        variable_views(out@) == variable_views(children@) + variable_views(
            attributes@,
        ).map_values(|v: EnvironmentVariableView| spec_attribute(v)),
{
    let mut out = children;
    let mut rest = attributes;
    let ghost marked = variable_views(attributes@).map_values(
        |v: EnvironmentVariableView| spec_attribute(v),
    );
    let ghost total = attributes@.len();
    assert(variable_views(out@) =~= variable_views(children@) + marked.take(0));
    while rest.len() > 0
        invariant
            rest@.len() <= total,
            total == attributes@.len(),
            rest@ == attributes@.skip(total - rest@.len()),
            out@.len() == children@.len() + total - rest@.len(),
            marked == variable_views(attributes@).map_values(
                |v: EnvironmentVariableView| spec_attribute(v),
            ),
            variable_views(out@) == variable_views(children@) + marked.take(
                total - rest@.len(),
            ),
        decreases rest.len(),
    {
        let ghost done = total - rest@.len();
        let ghost before = out@;
        let var = rest.remove(0);
        assert(var == attributes@[done]);
        let attribute = var.into_attribute();
        assert(attribute@ == marked[done]);
        out.push(attribute);
        proof {
            assert(rest@ =~= attributes@.skip(done + 1));
            let now = variable_views(out@);
            let want = variable_views(children@) + marked.take(done + 1);
            assert(now.len() == want.len());
            assert forall|k: int| 0 <= k < now.len() implies now[k] == want[k] by {
                if k < before.len() {
                    assert(variable_views(before)[k] == (variable_views(children@) + marked.take(
                        done,
                    ))[k]);
                }
            }
            assert(now =~= want);
        }
    }
    assert(marked.take(total as int) =~= marked);
    out
}

} // verus!
