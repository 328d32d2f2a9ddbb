use blang_config::stdlib::{
    get_standard_library_names, StandardLibraryName, StandardLibraryNames, STANDARD_LIBRARY_SIZE,
};

fn function(name: &str, arity: Option<usize>) -> StandardLibraryName {
    StandardLibraryName::Function { fn_name: name.to_string(), parameter_list_length: arity }
}

fn variable(name: &str) -> StandardLibraryName {
    StandardLibraryName::Variable { var_name: name.to_string() }
}

fn listed_functions() -> Vec<(&'static str, Option<usize>)> {
    vec![
        ("getchar", Some(0)),
        ("putchar", Some(1)),
        ("openr", Some(2)),
        ("openw", Some(2)),
        ("getstr", Some(1)),
        ("putstr", Some(1)),
        ("system", Some(1)),
        ("close", Some(1)),
        ("flush", Some(0)),
        ("reread", Some(0)),
        ("printf", None),
        ("ioerrors", Some(1)),
        ("char", Some(2)),
        ("lchar", Some(3)),
        ("getarg", Some(3)),
        ("concat", None),
        ("getvec", Some(1)),
        ("rlsevec", Some(2)),
        ("nargs", Some(0)),
        ("exit", Some(0)),
    ]
}

#[test]
fn standard_library_scenario() {
    let names = get_standard_library_names();
    assert!(names.contains(&function("getchar", Some(0))));
    assert!(names.contains(&function("printf", None)));
    assert!(!names.contains(&function("printf", Some(1))));
}

#[test]
fn standard_library_holds_every_listed_function() {
    let names = get_standard_library_names();
    for (name, arity) in listed_functions() {
        assert!(names.contains(&function(name, arity)), "{} is missing", name);
    }
}

#[test]
fn standard_library_size() {
    let names = get_standard_library_names();
    assert_eq!(names.len(), 22);
    assert_eq!(names.len(), STANDARD_LIBRARY_SIZE);
    assert_eq!(names.len(), listed_functions().len() + 2);
    assert_eq!(names.names().len(), 22);
}

#[test]
fn standard_library_has_no_duplicates() {
    let names = get_standard_library_names();
    let entries = names.names();
    for i in 0..entries.len() {
        for j in 0..entries.len() {
            if i != j {
                assert_ne!(entries[i], entries[j]);
            }
        }
    }
}

#[test]
fn only_printf_and_concat_have_unknown_arity() {
    let names = get_standard_library_names();
    let mut unknown: Vec<String> = Vec::new();
    for entry in names.names() {
        if let StandardLibraryName::Function { fn_name, parameter_list_length: None } = entry {
            unknown.push(fn_name.clone());
        }
    }
    unknown.sort();
    assert_eq!(unknown, vec![String::from("concat"), String::from("printf")]);
}

#[test]
fn functions_have_one_arity_each() {
    let names = get_standard_library_names();
    for (name, arity) in listed_functions() {
        for other in [None, Some(0), Some(1), Some(2), Some(3), Some(4)] {
            assert_eq!(names.contains(&function(name, other)), other == arity);
        }
    }
}

#[test]
fn units_are_variables_and_not_functions() {
    let names = get_standard_library_names();
    assert!(names.contains(&variable("wr.unit")));
    assert!(names.contains(&variable("rd.unit")));
    for arity in [None, Some(0), Some(1), Some(2)] {
        assert!(!names.contains(&function("wr.unit", arity)));
        assert!(!names.contains(&function("rd.unit", arity)));
    }
}

#[test]
fn functions_are_not_variables() {
    let names = get_standard_library_names();
    for (name, _) in listed_functions() {
        assert!(!names.contains(&variable(name)));
    }
    assert!(!names.contains(&variable("unit")));
    assert!(!names.contains(&function("puts", Some(1))));
    assert!(!names.contains(&function("Printf", None)));
    assert!(!names.contains(&function("", None)));
}

#[test]
fn standard_library_built_twice_is_the_same() {
    let first = get_standard_library_names();
    let second = get_standard_library_names();
    assert_eq!(first, second);
    assert!(first.is_subset(&second));
    assert!(second.is_subset(&first));
    for entry in first.names() {
        assert!(second.contains(entry));
    }
}

#[test]
fn names_compare_by_kind_spelling_and_arity() {
    assert_eq!(function("f", Some(1)), function("f", Some(1)));
    assert_ne!(function("f", Some(1)), function("f", Some(2)));
    assert_ne!(function("f", Some(1)), function("f", None));
    assert_ne!(function("f", None), function("g", None));
    assert_ne!(function("f", None), variable("f"));
    assert_eq!(variable("v"), variable("v"));
    assert_ne!(variable("v"), variable("w"));
    assert_eq!(function("f", None), function("f", None));
}

#[test]
fn empty_set_holds_nothing() {
    let set = StandardLibraryNames::new();
    assert_eq!(set.len(), 0);
    assert!(!set.contains(&variable("wr.unit")));
    assert!(set.names().is_empty());
}

#[test]
fn insert_tells_whether_the_name_was_new() {
    let mut set = StandardLibraryNames::new();
    assert!(set.insert(function("f", Some(1))));
    assert!(!set.insert(function("f", Some(1))));
    assert_eq!(set.len(), 1);
    assert!(set.insert(function("f", Some(2))));
    assert!(set.insert(variable("f")));
    assert_eq!(set.len(), 3);
    assert!(set.contains(&function("f", Some(1))));
    assert!(set.contains(&function("f", Some(2))));
    assert!(set.contains(&variable("f")));
    assert!(!set.contains(&function("f", None)));
}

#[test]
fn insert_keeps_the_order_of_arrival() {
    let mut set = StandardLibraryNames::new();
    set.insert(variable("b"));
    set.insert(variable("a"));
    set.insert(variable("b"));
    assert_eq!(set.names(), &vec![variable("b"), variable("a")]);
}

#[test]
fn sets_are_equal_whatever_the_order() {
    let mut first = StandardLibraryNames::new();
    first.insert(variable("a"));
    first.insert(function("b", None));
    let mut second = StandardLibraryNames::new();
    second.insert(function("b", None));
    second.insert(variable("a"));
    assert_eq!(first, second);
    second.insert(variable("c"));
    assert_ne!(first, second);
    assert!(first.is_subset(&second));
    assert!(!second.is_subset(&first));
}

#[test]
fn sets_of_equal_size_can_differ() {
    let mut first = StandardLibraryNames::new();
    first.insert(variable("a"));
    let mut second = StandardLibraryNames::new();
    second.insert(variable("b"));
    assert_ne!(first, second);
    assert!(!first.is_subset(&second));
    assert!(StandardLibraryNames::new().is_subset(&first));
}
