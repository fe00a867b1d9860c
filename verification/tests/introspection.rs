use ark::diagnostics::{
    check_unmatched_bracket, enqueue_diagnostics, ChildInfo, Diagnostic, DiagnosticsVersion,
    NodeInfo, Point, Range,
};
use ark::environment::{
    all_classes, altrep_class, first_class, has_children, is_simple_vector, pairlist_size,
    vec_shape, vec_type, Binding, BindingExtra, BindingExtraAltrep, BindingKind, Environment,
    EnvironmentIter, Error, FrameInfo, HashedEnvironmentIter, NonHashedEnvironmentIter,
    ObjectInfo, CLOSXP, CPLXSXP, ENVSXP, EXPRSXP, INTSXP, LGLSXP, LISTSXP, NILSXP, PROMSXP,
    RAWSXP, REALSXP, STRSXP, VECSXP,
};
use ark::path::{parse_index, path_step, PathStep};
use ark::text::{decimal, int_text, join, lex_le};
use ark::variable::{
    pairlist_name, sort_by_display_name, with_attributes, BindingType, BindingValue,
    EnvironmentVariable, ValueKind,
};

fn object(rtype: u32, length: i64) -> ObjectInfo {
    ObjectInfo {
        handle: 0,
        rtype,
        length,
        is_s4: false,
        slot_count: 0,
        classes: vec![],
        inherits_factor: false,
        inherits_data_frame: false,
        has_names: false,
        levels: 0,
        dim: None,
    }
}

fn scalar_integer(name: &str) -> Binding {
    Binding::new(FrameInfo {
        name: name.to_string(),
        is_active: false,
        value: object(INTSXP, 1),
        promise_value: None,
        altrep: None,
    })
}

fn test_environment_iter_impl(hash: bool) {
    let a = scalar_integer("a");
    let b = scalar_integer("b");
    let c = scalar_integer("c");
    let env = if hash {
        Environment::new(Some(vec![vec![], vec![b, a], vec![], vec![], vec![c], vec![]]), vec![])
    } else {
        Environment::new(None, vec![c, b, a])
    };
    assert_eq!(env.iter().count(), 3);
}

#[test]
fn test_environment_iter() {
    test_environment_iter_impl(true);
    test_environment_iter_impl(false);
}

#[test]
fn hashed_walk_goes_slot_by_slot() {
    let table = vec![
        vec![],
        vec![scalar_integer("b"), scalar_integer("a")],
        vec![],
        vec![scalar_integer("c")],
    ];
    let mut iter = HashedEnvironmentIter::new(&table);
    assert_eq!(iter.hashtab_index, 1);
    let mut names = Vec::new();
    while let Some(binding) = iter.next() {
        names.push(binding.name.clone());
    }
    assert_eq!(names, vec!["b", "a", "c"]);
    assert_eq!(iter.next(), None);
    assert_eq!(iter.hashtab_index, 4);
}

#[test]
fn hashed_walk_over_nothing_ends_at_once() {
    let empty: Vec<Vec<Binding>> = vec![];
    assert_eq!(HashedEnvironmentIter::new(&empty).next(), None);
    let hollow: Vec<Vec<Binding>> = vec![vec![], vec![], vec![]];
    let mut iter = HashedEnvironmentIter::new(&hollow);
    assert_eq!(iter.hashtab_index, 3);
    assert_eq!(iter.next(), None);
    assert_eq!(Environment::new(Some(hollow), vec![scalar_integer("x")]).iter().count(), 0);
}

#[test]
fn plain_walk_follows_the_chain() {
    let frame = vec![scalar_integer("x"), scalar_integer("y")];
    let mut iter = NonHashedEnvironmentIter::new(&frame);
    assert_eq!(iter.next().map(|b| b.name.as_str()), Some("x"));
    assert_eq!(iter.next().map(|b| b.name.as_str()), Some("y"));
    assert_eq!(iter.next(), None);
    assert_eq!(iter.next(), None);
    let env = Environment::new(None, frame);
    let mut walk = EnvironmentIter::new(&env);
    assert_eq!(walk.next().map(|b| b.name.as_str()), Some("x"));
    assert_eq!(walk.count(), 1);
}

#[test]
fn binding_kinds() {
    let mut frame = FrameInfo {
        name: "f".to_string(),
        is_active: false,
        value: object(PROMSXP, 1),
        promise_value: None,
        altrep: None,
    };
    assert_eq!(Binding::new(frame.clone()).kind, BindingKind::Promise(false));
    frame.promise_value = Some(object(REALSXP, 1));
    assert_eq!(Binding::new(frame.clone()).kind, BindingKind::Promise(true));
    frame.is_active = true;
    assert_eq!(Binding::new(frame.clone()).kind, BindingKind::Active);
    frame.is_active = false;
    frame.value = object(CLOSXP, 1);
    frame.altrep = Some(BindingExtraAltrep { data1: 16, data2: 32 });
    let binding = Binding::new(frame);
    assert_eq!(binding.kind, BindingKind::Regular);
    assert_eq!(binding.extra, BindingExtra::Altrep(BindingExtraAltrep { data1: 16, data2: 32 }));
    assert_eq!(scalar_integer("x").extra, BindingExtra::Nothing);
}

#[test]
fn hidden_names_start_with_a_dot() {
    assert!(scalar_integer(".Random.seed").is_hidden());
    assert!(scalar_integer(".").is_hidden());
    assert!(!scalar_integer("x.y").is_hidden());
    assert!(!scalar_integer("").is_hidden());
}

#[test]
fn children_by_type() {
    assert!(has_children(&object(VECSXP, 2)));
    assert!(!has_children(&object(VECSXP, 0)));
    assert!(has_children(&object(EXPRSXP, 1)));
    assert!(!has_children(&object(EXPRSXP, 0)));
    assert!(has_children(&object(LISTSXP, 0)));
    assert!(has_children(&object(ENVSXP, 0)));
    assert!(!has_children(&object(INTSXP, 5)));
    assert!(!has_children(&object(NILSXP, 0)));
    let mut formal = object(ENVSXP, 0);
    formal.is_s4 = true;
    assert!(!has_children(&formal));
    formal.slot_count = 2;
    assert!(has_children(&formal));
}

#[test]
fn simple_vectors() {
    for rtype in [LGLSXP, REALSXP, CPLXSXP, STRSXP, RAWSXP, INTSXP] {
        assert!(is_simple_vector(&object(rtype, 3)));
        let mut classed = object(rtype, 3);
        classed.classes = vec!["Date".to_string()];
        assert!(!is_simple_vector(&classed));
    }
    let mut factor = object(INTSXP, 3);
    factor.classes = vec!["factor".to_string()];
    factor.inherits_factor = true;
    assert!(is_simple_vector(&factor));
    assert!(!is_simple_vector(&object(VECSXP, 3)));
    assert!(!is_simple_vector(&object(CLOSXP, 1)));
}

#[test]
fn classes_of_an_object() {
    let mut x = object(VECSXP, 2);
    assert_eq!(first_class(&x), None);
    assert_eq!(all_classes(&x), "");
    x.classes = vec!["tbl_df".to_string(), "tbl".to_string(), "data.frame".to_string()];
    assert_eq!(first_class(&x), Some("tbl_df".to_string()));
    assert_eq!(all_classes(&x), "tbl_df/tbl/data.frame");
    x.classes = vec!["one".to_string()];
    assert_eq!(all_classes(&x), "one");
}

#[test]
fn pairlist_is_measured_by_its_cells() {
    assert_eq!(pairlist_size(&vec![]), Ok(0));
    assert_eq!(pairlist_size(&vec![LISTSXP, LISTSXP, LISTSXP]), Ok(3));
    assert_eq!(
        pairlist_size(&vec![LISTSXP, INTSXP, STRSXP]),
        Err(Error::UnexpectedType(INTSXP, vec![LISTSXP]))
    );
    assert_eq!(
        pairlist_size(&vec![ENVSXP]),
        Err(Error::UnexpectedType(ENVSXP, vec![LISTSXP]))
    );
}

#[test]
fn vector_type_names() {
    assert_eq!(vec_type(&object(INTSXP, 1)), "int");
    assert_eq!(vec_type(&object(REALSXP, 1)), "dbl");
    assert_eq!(vec_type(&object(LGLSXP, 1)), "lgl");
    assert_eq!(vec_type(&object(STRSXP, 1)), "str");
    assert_eq!(vec_type(&object(RAWSXP, 1)), "raw");
    assert_eq!(vec_type(&object(CPLXSXP, 1)), "cplx");
    assert_eq!(vec_type(&object(VECSXP, 1)), "???");
    let mut factor = object(INTSXP, 10);
    factor.inherits_factor = true;
    factor.levels = 12;
    assert_eq!(vec_type(&factor), "fct(12)");
    let mut odd = object(REALSXP, 10);
    odd.inherits_factor = true;
    assert_eq!(vec_type(&odd), "dbl");
}

#[test]
fn vector_shapes() {
    assert_eq!(vec_shape(&object(INTSXP, 1)), "");
    assert_eq!(vec_shape(&object(INTSXP, 0)), " [0]");
    assert_eq!(vec_shape(&object(INTSXP, 250)), " [250]");
    let mut matrix = object(REALSXP, 12);
    matrix.dim = Some(vec![3, 4]);
    assert_eq!(vec_shape(&matrix), " [3,4]");
    matrix.dim = Some(vec![2, 3, 2]);
    assert_eq!(vec_shape(&matrix), " [2,3,2]");
    matrix.dim = Some(vec![12]);
    assert_eq!(vec_shape(&matrix), " [12]");
    matrix.dim = Some(vec![]);
    assert_eq!(vec_shape(&matrix), " []");
}

#[test]
fn altrep_class_is_qualified_by_its_package() {
    assert_eq!(altrep_class("base", "compact_intseq"), "base::compact_intseq");
    assert_eq!(altrep_class("", ""), "::");
}

#[test]
fn numbers_in_decimal() {
    assert_eq!(decimal(0), "0");
    assert_eq!(decimal(7), "7");
    assert_eq!(decimal(10), "10");
    assert_eq!(decimal(1234567890), "1234567890");
    assert_eq!(decimal(u64::MAX), "18446744073709551615");
    assert_eq!(int_text(0), "0");
    assert_eq!(int_text(-1), "-1");
    assert_eq!(int_text(42), "42");
    assert_eq!(int_text(i64::MAX), "9223372036854775807");
    assert_eq!(int_text(i64::MIN), "-9223372036854775808");
}

#[test]
fn joined_strings() {
    assert_eq!(join(&vec![], ", "), "");
    assert_eq!(join(&vec!["a".to_string()], ", "), "a");
    assert_eq!(join(&vec!["a".to_string(), "".to_string(), "c".to_string()], ", "), "a, , c");
    assert_eq!(join(&vec!["a".to_string(), "b".to_string()], ""), "ab");
}

#[test]
fn value_kinds() {
    assert_eq!(EnvironmentVariable::variable_kind(&object(CLOSXP, 1)), ValueKind::Function);
    assert_eq!(EnvironmentVariable::variable_kind(&object(ENVSXP, 1)), ValueKind::Mapping);
    assert_eq!(EnvironmentVariable::variable_kind(&object(VECSXP, 1)), ValueKind::Collection);
    let mut list = object(VECSXP, 2);
    list.has_names = true;
    assert_eq!(EnvironmentVariable::variable_kind(&list), ValueKind::Mapping);
    list.inherits_data_frame = true;
    assert_eq!(EnvironmentVariable::variable_kind(&list), ValueKind::Table);
    for rtype in [LGLSXP, INTSXP, REALSXP, CPLXSXP, STRSXP, RAWSXP] {
        assert_eq!(EnvironmentVariable::variable_kind(&object(rtype, 1)), ValueKind::Collection);
    }
    assert_eq!(EnvironmentVariable::variable_kind(&object(NILSXP, 0)), ValueKind::Other);
    assert_eq!(EnvironmentVariable::variable_kind(&object(LISTSXP, 0)), ValueKind::Other);
}

fn shown(value: &str, truncated: bool) -> (BindingValue, BindingType) {
    (
        BindingValue { display_value: value.to_string(), is_truncated: truncated },
        BindingType { display_type: "int [1]".to_string(), type_info: "integer".to_string() },
    )
}

#[test]
fn variable_of_a_binding() {
    let (value, ty) = shown("42", false);
    let var = EnvironmentVariable::new(&scalar_integer("a"), value, ty);
    assert_eq!(
        var,
        EnvironmentVariable {
            access_key: "a".to_string(),
            display_name: "a".to_string(),
            display_value: "42".to_string(),
            display_type: "int [1]".to_string(),
            type_info: "integer".to_string(),
            kind: ValueKind::Collection,
            length: 0,
            size: 0,
            has_children: false,
            is_truncated: false,
        }
    );
}

#[test]
fn variable_of_a_promise_or_an_active_binding() {
    let mut frame = FrameInfo {
        name: "p".to_string(),
        is_active: false,
        value: object(PROMSXP, 1),
        promise_value: None,
        altrep: None,
    };
    let (value, ty) = shown("...", true);
    let var = EnvironmentVariable::new(&Binding::new(frame.clone()), value, ty);
    assert_eq!(var.kind, ValueKind::Other);
    assert!(!var.has_children);
    assert!(var.is_truncated);
    frame.promise_value = Some(object(ENVSXP, 0));
    let (value, ty) = shown("<environment>", false);
    let var = EnvironmentVariable::new(&Binding::new(frame.clone()), value, ty);
    assert_eq!(var.kind, ValueKind::Mapping);
    assert!(var.has_children);
    frame.is_active = true;
    let (value, ty) = shown("", false);
    let var = EnvironmentVariable::new(&Binding::new(frame), value, ty);
    assert_eq!(var.kind, ValueKind::Other);
    assert!(!var.has_children);
}

#[test]
fn variable_of_a_member_and_of_an_attribute() {
    let (value, ty) = shown("list(...)", false);
    let var = EnvironmentVariable::from(
        "0".to_string(),
        "names".to_string(),
        &object(VECSXP, 3),
        value,
        ty,
    );
    assert_eq!(var.access_key, "0");
    assert_eq!(var.display_name, "names");
    assert_eq!(var.kind, ValueKind::Collection);
    assert!(var.has_children);
    let attribute = var.clone().into_attribute();
    assert_eq!(attribute.access_key, "@names");
    assert_eq!(attribute.display_name, "attr(\"names\")");
    assert_eq!(attribute.display_value, var.display_value);
    assert_eq!(attribute.kind, var.kind);
    assert_eq!(attribute.has_children, var.has_children);
}

#[test]
fn members_of_a_pairlist_are_named_or_numbered() {
    assert_eq!(pairlist_name(Some("x".to_string()), 0), "x");
    assert_eq!(pairlist_name(None, 0), "[[1]]");
    assert_eq!(pairlist_name(None, 41), "[[42]]");
}

fn range(row: usize, from: usize, to: usize) -> Range {
    Range { start: Point { row, column: from }, end: Point { row, column: to } }
}

fn node(kind: &str, children: &[&str]) -> NodeInfo {
    NodeInfo {
        kind: kind.to_string(),
        children: children
            .iter()
            .enumerate()
            .map(|(i, k)| ChildInfo { kind: k.to_string(), range: range(3, i, i + 1) })
            .collect(),
    }
}

#[test]
fn matched_brackets_give_no_finding() {
    let mut found = Vec::new();
    assert!(!check_unmatched_bracket(&node("{", &["{", "call", "}"]), &mut found));
    assert!(!check_unmatched_bracket(&node("(", &["(", ")"]), &mut found));
    assert!(!check_unmatched_bracket(&node("[", &["[", "x", "]"]), &mut found));
    assert!(!check_unmatched_bracket(&node("[[", &["[[", "x", "]]"]), &mut found));
    assert!(!check_unmatched_bracket(&node("{", &[]), &mut found));
    assert!(!check_unmatched_bracket(&node("call", &["identifier", "("]), &mut found));
    assert_eq!(found, vec![]);
}

#[test]
fn unmatched_brackets_are_reported_on_the_first_child() {
    let mut found = vec![Diagnostic { range: range(0, 0, 0), message: "earlier".to_string() }];
    assert!(check_unmatched_bracket(&node("{", &["{", "call"]), &mut found));
    assert!(check_unmatched_bracket(&node("[[", &["[[", "x", "]"]), &mut found));
    assert!(check_unmatched_bracket(&node("(", &["("]), &mut found));
    assert_eq!(
        found,
        vec![
            Diagnostic { range: range(0, 0, 0), message: "earlier".to_string() },
            Diagnostic {
                range: range(3, 0, 1),
                message: "unmatched opening bracket '{'".to_string(),
            },
            Diagnostic {
                range: range(3, 0, 1),
                message: "unmatched opening bracket '[['".to_string(),
            },
            Diagnostic {
                range: range(3, 0, 1),
                message: "unmatched opening bracket '('".to_string(),
            },
        ]
    );
}

#[test]
fn only_the_newest_version_is_diagnosed() {
    let mut newest = DiagnosticsVersion::new();
    assert!(enqueue_diagnostics(&mut newest, 3));
    assert!(newest.is_current(3));
    assert!(!enqueue_diagnostics(&mut newest, 2));
    assert_eq!(newest.version, 3);
    assert!(enqueue_diagnostics(&mut newest, 3));
    assert!(enqueue_diagnostics(&mut newest, 5));
    assert!(!newest.is_current(3));
    assert!(newest.is_current(5));
    let mut fresh = DiagnosticsVersion::new();
    assert!(!enqueue_diagnostics(&mut fresh, -1));
    assert!(enqueue_diagnostics(&mut fresh, 0));
}

fn named(name: &str, value: &str) -> EnvironmentVariable {
    let (shown_value, ty) = shown(value, false);
    EnvironmentVariable::from(
        name.to_string(),
        name.to_string(),
        &object(INTSXP, 1),
        shown_value,
        ty,
    )
}

#[test]
fn strings_are_ordered_by_their_bytes() {
    assert!(lex_le(b"", b""));
    assert!(lex_le(b"", b"a"));
    assert!(!lex_le(b"a", b""));
    assert!(lex_le(b"abc", b"abc"));
    assert!(lex_le(b"ab", b"abc"));
    assert!(!lex_le(b"abc", b"ab"));
    assert!(lex_le(b"abc", b"abd"));
    assert!(!lex_le(b"abd", b"abc"));
    assert!(lex_le(b"Z", b"a"));
    assert!(lex_le("z".as_bytes(), "é".as_bytes()));
    for (a, b) in [("x", "y"), ("data", "Data"), ("a1", "a10"), ("", "é"), ("same", "same")] {
        assert_eq!(lex_le(a.as_bytes(), b.as_bytes()), a <= b);
        assert_eq!(lex_le(b.as_bytes(), a.as_bytes()), b <= a);
    }
}

#[test]
fn variables_are_sorted_by_display_name() {
    let vars = vec![named("b", "2"), named("a", "1"), named("c", "3"), named("B", "4")];
    let sorted = sort_by_display_name(vars);
    let names: Vec<&str> = sorted.iter().map(|v| v.display_name.as_str()).collect();
    assert_eq!(names, vec!["B", "a", "b", "c"]);
    let values: Vec<&str> = sorted.iter().map(|v| v.display_value.as_str()).collect();
    assert_eq!(values, vec!["4", "1", "2", "3"]);
    assert_eq!(sort_by_display_name(vec![]), vec![]);
}

#[test]
fn sorting_keeps_every_variable() {
    let vars = vec![named("x", "1"), named("x", "2"), named("", "3"), named("x", "1")];
    let mut expected = vars.clone();
    expected.sort_by(|a, b| a.display_name.cmp(&b.display_name));
    assert_eq!(sort_by_display_name(vars), expected);
}

#[test]
fn attributes_come_after_the_children() {
    let children = vec![named("0", "a"), named("1", "b")];
    let attributes = vec![named("names", "c"), named("class", "d")];
    let out = with_attributes(children.clone(), attributes);
    assert_eq!(out.len(), 4);
    assert_eq!(out[0], children[0]);
    assert_eq!(out[1], children[1]);
    assert_eq!(out[2].access_key, "@names");
    assert_eq!(out[2].display_name, "attr(\"names\")");
    assert_eq!(out[2].display_value, "c");
    assert_eq!(out[3].access_key, "@class");
    assert_eq!(out[3].display_name, "attr(\"class\")");
    assert_eq!(with_attributes(children.clone(), vec![]), children);
    assert_eq!(with_attributes(vec![], vec![]), vec![]);
}

#[test]
fn indexes_are_read_as_integers() {
    assert_eq!(parse_index(b"0"), Some(0));
    assert_eq!(parse_index(b"12"), Some(12));
    assert_eq!(parse_index(b"-3"), Some(-3));
    assert_eq!(parse_index(b"+7"), Some(7));
    assert_eq!(parse_index(b"007"), Some(7));
    assert_eq!(parse_index(b"-0"), Some(0));
    assert_eq!(parse_index(b""), None);
    assert_eq!(parse_index(b"-"), None);
    assert_eq!(parse_index(b"+"), None);
    assert_eq!(parse_index(b"1a"), None);
    assert_eq!(parse_index(b" 1"), None);
    assert_eq!(parse_index(b"1 "), None);
    assert_eq!(parse_index(b"--1"), None);
    assert_eq!(parse_index(b"1.0"), None);
    assert_eq!(parse_index(isize::MAX.to_string().as_bytes()), Some(isize::MAX));
    assert_eq!(parse_index(isize::MIN.to_string().as_bytes()), Some(isize::MIN));
    assert_eq!(parse_index(b"9223372036854775808"), None);
    assert_eq!(parse_index(b"-9223372036854775809"), None);
    assert_eq!(parse_index(b"99999999999999999999999999"), None);
    assert_eq!(parse_index(b"00000000000000000000000001"), Some(1));
    for text in ["5", "-5", "+5", "", "x", "18446744073709551616", "-9223372036854775808"] {
        assert_eq!(parse_index(text.as_bytes()), text.parse::<isize>().ok());
    }
}

#[test]
fn path_elements_become_steps() {
    let attributes = vec!["names".to_string(), "class".to_string(), "names".to_string()];
    assert_eq!(path_step(VECSXP, &attributes, "@class".to_string()), Ok(PathStep::Attribute(1)));
    assert_eq!(path_step(INTSXP, &attributes, "@names".to_string()), Ok(PathStep::Attribute(0)));
    assert_eq!(path_step(VECSXP, &attributes, "@dim".to_string()), Ok(PathStep::Stay));
    assert_eq!(path_step(VECSXP, &attributes, "@".to_string()), Ok(PathStep::Stay));
    assert_eq!(path_step(VECSXP, &vec![], "@names".to_string()), Ok(PathStep::Stay));
    assert_eq!(
        path_step(ENVSXP, &attributes, "x".to_string()),
        Ok(PathStep::Variable("x".to_string()))
    );
    assert_eq!(
        path_step(ENVSXP, &attributes, "12".to_string()),
        Ok(PathStep::Variable("12".to_string()))
    );
    assert_eq!(path_step(VECSXP, &attributes, "12".to_string()), Ok(PathStep::Element(12)));
    assert_eq!(path_step(LISTSXP, &attributes, "3".to_string()), Ok(PathStep::Member(3)));
    assert_eq!(
        path_step(VECSXP, &attributes, "x".to_string()),
        Err(Error::InvalidIndex("x".to_string()))
    );
    assert_eq!(
        path_step(LISTSXP, &attributes, "".to_string()),
        Err(Error::InvalidIndex(String::new()))
    );
    assert_eq!(
        path_step(INTSXP, &attributes, "0".to_string()),
        Err(Error::UnexpectedType(INTSXP, vec![ENVSXP, VECSXP, LISTSXP]))
    );
    assert_eq!(
        path_step(CLOSXP, &attributes, "x".to_string()),
        Err(Error::UnexpectedType(CLOSXP, vec![ENVSXP, VECSXP, LISTSXP]))
    );
}
