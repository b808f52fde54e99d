use rmcp::tool_attr::{
    doc_description, extract_doc_line, is_parameters_wrapper, parameters_arg, path_is_ident, resolve_tool_attribute, tool_attr_fn_name,
    trim_text, AttributeModel, DescriptionSource, FnArgModel, NameSource, PathModel, PathSegmentModel, SchemaSource,
    TypeModel,
};

fn path(idents: &[&str]) -> PathModel {
    PathModel {
        leading_colon: false,
        segments: idents.iter().map(|i| PathSegmentModel { ident: i.to_string(), has_arguments: false }).collect(),
    }
}

fn doc(text: &str) -> AttributeModel {
    AttributeModel { path: path(&["doc"]), string_value: Some(text.to_string()) }
}

#[test]
fn trim_removes_unicode_white_space() {
    assert_eq!(trim_text("  hello \n"), "hello");
    assert_eq!(trim_text("\u{3000}a b\u{a0}"), "a b");
    assert_eq!(trim_text("   "), "");
    assert_eq!(trim_text(""), "");
    for s in [" x ", "\t\ty\r\n", "\u{2003}z\u{2029}", "no-space"] {
        assert_eq!(trim_text(s), s.trim());
    }
}

#[test]
fn path_is_ident_needs_a_lone_bare_segment() {
    assert!(path_is_ident(&path(&["Parameters"]), "Parameters"));
    assert!(!path_is_ident(&path(&["a", "Parameters"]), "Parameters"));
    let mut p = path(&["Parameters"]);
    p.segments[0].has_arguments = true;
    assert!(!path_is_ident(&p, "Parameters"));
    let mut p = path(&["Parameters"]);
    p.leading_colon = true;
    assert!(!path_is_ident(&p, "Parameters"));
}

#[test]
fn doc_lines_are_trimmed_and_blank_ones_dropped() {
    assert_eq!(extract_doc_line(&doc("  Adds two numbers ")), Some("Adds two numbers".to_string()));
    assert_eq!(extract_doc_line(&doc("   ")), None);
    let not_doc = AttributeModel { path: path(&["allow"]), string_value: Some("x".to_string()) };
    assert_eq!(extract_doc_line(&not_doc), None);
    let no_value = AttributeModel { path: path(&["doc"]), string_value: None };
    assert_eq!(extract_doc_line(&no_value), None);
}

#[test]
fn description_joins_doc_lines() {
    let attrs = vec![doc(" first"), doc(""), AttributeModel { path: path(&["inline"]), string_value: None }, doc("second ")];
    assert_eq!(doc_description(&attrs), "first\nsecond");
    assert_eq!(doc_description(&vec![]), "");
}

#[test]
fn parameters_argument_is_found() {
    let args = vec![
        FnArgModel::Receiver,
        FnArgModel::Typed(TypeModel::Other),
        FnArgModel::Typed(TypeModel::Path(path(&["Parameters"]))),
        FnArgModel::Typed(TypeModel::Path(path(&["Parameters"]))),
    ];
    assert_eq!(parameters_arg(&args), Some(2));
    assert_eq!(parameters_arg(&vec![FnArgModel::Receiver]), None);
}

#[test]
fn resolution_defaults() {
    let attrs = vec![doc("Sums two numbers")];
    let args = vec![FnArgModel::Typed(TypeModel::Path(path(&["Parameters"])))];
    let plan = resolve_tool_attribute(false, false, false, false, "sum", &attrs, &args);
    assert!(matches!(plan.name, NameSource::FunctionName(n) if n == "sum"));
    assert!(matches!(plan.description, DescriptionSource::DocComments(d) if d == "Sums two numbers"));
    assert!(matches!(plan.input_schema, SchemaSource::ParametersOf(0)));
    assert!(!plan.annotations_given);
    let plan = resolve_tool_attribute(true, true, false, true, "sum", &attrs, &vec![]);
    assert!(matches!(plan.name, NameSource::Given));
    assert!(matches!(plan.description, DescriptionSource::Given));
    assert!(matches!(plan.input_schema, SchemaSource::EmptyObject));
    assert!(plan.annotations_given);
    assert_eq!(tool_attr_fn_name("sum"), "sum_tool_attr");
}

#[test]
fn parameters_wrapper_with_generic_arguments_is_found() {
    let mut generic = path(&["Parameters"]);
    generic.segments[0].has_arguments = true;
    assert!(is_parameters_wrapper(&generic));
    assert!(!is_parameters_wrapper(&path(&["rmcp", "Parameters"])));
    let mut rooted = path(&["Parameters"]);
    rooted.leading_colon = true;
    assert!(!is_parameters_wrapper(&rooted));
    let args = vec![FnArgModel::Receiver, FnArgModel::Typed(TypeModel::Path(generic))];
    assert_eq!(parameters_arg(&args), Some(1));
    let attrs = vec![doc(" Sum two numbers"), doc(""), doc("   of i32 ")];
    let plan = resolve_tool_attribute(false, false, false, false, "sum", &attrs, &args);
    assert!(matches!(plan.input_schema, SchemaSource::ParametersOf(1)));
    assert!(matches!(plan.description, DescriptionSource::DocComments(d) if d == "Sum two numbers\nof i32"));
}
