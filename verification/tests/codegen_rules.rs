use common_error::codegen::{
    generate, CauseKind, FieldDef, UnionDef, VariantDef, Violation,
};
use common_error::external::ExternalError;
use common_error::format::{render_debug_trace, render_user_message};
use common_error::location::SourceLocation;
use common_error::node::CauseLink;
use common_error::status_code::StatusCode;

fn field(name: &str, is_error: bool) -> FieldDef {
    FieldDef {
        name: name.to_string(),
        is_error,
    }
}

fn variant(name: &str, template: Option<&str>, displays: &[&str], fields: Vec<FieldDef>) -> VariantDef {
    VariantDef {
        name: name.to_string(),
        template: template.map(|t| t.to_string()),
        displays: displays.iter().map(|d| d.to_string()).collect(),
        fields,
    }
}

fn union_of(variants: Vec<VariantDef>) -> UnionDef {
    UnionDef {
        name: "Error".to_string(),
        variants,
    }
}

#[test]
fn generate_accepts_a_well_shaped_union() {
    let def = union_of(vec![
        variant(
            "ReadOptProf",
            Some("Failed to read OPT_PROF"),
            &[],
            vec![field("error", true)],
        ),
        variant("ProfilingNotEnabled", Some("Memory profiling is not enabled"), &[], vec![]),
        variant(
            "BuildTempPath",
            Some("Failed to build temp file from given path"),
            &["path"],
            vec![field("path", false), field("location", false)],
        ),
        variant(
            "Internal",
            Some("Internal error"),
            &[],
            vec![field("source", true)],
        ),
    ]);

    let plan = generate(&def).unwrap();
    assert_eq!(plan.variants.len(), 4);
    assert_eq!(plan.variants[0].cause, CauseKind::External);
    assert!(!plan.variants[0].has_location);
    assert_eq!(plan.variants[1].cause, CauseKind::Absent);
    assert_eq!(plan.variants[2].cause, CauseKind::Absent);
    assert!(plan.variants[2].has_location);
    assert_eq!(plan.variants[2].template, "Failed to build temp file from given path");
    assert_eq!(plan.variants[3].cause, CauseKind::Internal);
}

#[test]
fn generate_rejects_a_variant_without_a_display_template() {
    let def = union_of(vec![
        variant("Fine", Some("fine"), &[], vec![]),
        variant("Silent", None, &[], vec![]),
    ]);

    let err = generate(&def).unwrap_err();
    assert_eq!(err.kind, Violation::MissingDisplay);
    assert_eq!(err.variant, 1);
}

#[test]
fn generate_rejects_two_nested_error_fields() {
    let def = union_of(vec![variant(
        "Torn",
        Some("torn between two causes"),
        &[],
        vec![field("source", true), field("error", true)],
    )]);

    let err = generate(&def).unwrap_err();
    assert_eq!(err.kind, Violation::MultipleNestedErrors);
    assert_eq!(err.variant, 0);
}

#[test]
fn generate_rejects_a_nested_error_with_an_ambiguous_name() {
    let def = union_of(vec![variant(
        "Vague",
        Some("vaguely caused"),
        &[],
        vec![field("cause", true)],
    )]);

    let err = generate(&def).unwrap_err();
    assert_eq!(err.kind, Violation::UntaggedNestedError);
    assert_eq!(err.variant, 0);
}

#[test]
fn generate_rejects_a_template_that_redisplays_a_reserved_field() {
    let def = union_of(vec![variant(
        "Chatty",
        Some("failed at {location}"),
        &["location"],
        vec![field("location", false)],
    )]);

    let err = generate(&def).unwrap_err();
    assert_eq!(err.kind, Violation::DisplaysReservedField);
    assert_eq!(err.variant, 0);
}

#[test]
fn generated_variant_with_external_cause_and_location_renders_both() {
    let def = union_of(vec![variant(
        "OpenTempFile",
        Some("Failed to open temp file"),
        &[],
        vec![field("error", true), field("location", false)],
    )]);

    let plan = generate(&def).unwrap();
    assert_eq!(plan.variants[0].cause, CauseKind::External);
    assert!(plan.variants[0].has_location);

    let node = plan.variants[0].instantiate(
        StatusCode::StorageUnavailable,
        plan.variants[0].template.clone(),
        CauseLink::External(ExternalError::new("no such file".to_string())),
        Some(SourceLocation::new("jemalloc.rs".to_string(), 57, 14)),
    );

    // The cause is external, so the chain ends here.
    assert!(node.next().is_none());

    let mut buf: Vec<String> = Vec::new();
    node.debug_fmt(0, &mut buf);
    assert_eq!(buf.len(), 1);
    assert!(buf[0].contains("Failed to open temp file"));
    assert!(buf[0].contains("jemalloc.rs:57:14"));

    assert_eq!(
        render_debug_trace(&node),
        "Failed to open temp file. Caused by: no such file. at: jemalloc.rs:57:14"
    );
    assert_eq!(
        render_user_message(&node),
        "Failed to open temp file: no such file"
    );
}

#[test]
fn generated_internal_variant_chains_its_source() {
    let def = union_of(vec![
        variant("Leaf", Some("leaf failure"), &[], vec![]),
        variant("Wrap", Some("wrapping failure"), &[], vec![field("source", true)]),
    ]);

    let plan = generate(&def).unwrap();
    let leaf = plan.variants[0].instantiate(
        StatusCode::InvalidArguments,
        plan.variants[0].template.clone(),
        CauseLink::Root,
        None,
    );
    let wrap = plan.variants[1].instantiate(
        StatusCode::InvalidArguments,
        plan.variants[1].template.clone(),
        CauseLink::Internal(Box::new(leaf)),
        None,
    );

    assert!(wrap.next().is_some());
    assert_eq!(wrap.last().message(), "leaf failure");
    // The user message surfaces the root cause of the chain.
    assert_eq!(render_user_message(&wrap), "leaf failure");
    assert_eq!(
        render_debug_trace(&wrap),
        "wrapping failure. Caused by: leaf failure."
    );
}
