use common_error::ext::{BoxedError, ErrorExt, PlainError, StackError};
use common_error::external::ExternalError;
use common_error::format::{render_debug_trace, render_user_message, DebugFormat};
use common_error::location::SourceLocation;
use common_error::mock::MockError;
use common_error::node::{CauseLink, ErrorNode, TaggedError};
use common_error::status_code::StatusCode;

fn tagged(
    status: StatusCode,
    message: &str,
    location: Option<SourceLocation>,
    cause: CauseLink,
) -> ErrorNode {
    ErrorNode::Tagged(TaggedError {
        status,
        message: message.to_string(),
        location,
        cause,
    })
}

#[test]
fn test_debug_format() {
    let err = tagged(StatusCode::Unknown, "This is a leaf error", None, CauseLink::Root);

    let msg = DebugFormat::new(&err).format();
    assert_eq!("This is a leaf error.", msg);

    let err = tagged(
        StatusCode::Unknown,
        "This is a leaf with location",
        Some(SourceLocation::new("ext.rs".to_string(), 84, 10)),
        CauseLink::Root,
    );

    let msg = DebugFormat::new(&err).format();
    assert!(msg.starts_with("This is a leaf with location."));

    let leaf = tagged(StatusCode::Unknown, "This is a leaf error", None, CauseLink::Root);
    let err = tagged(
        StatusCode::Internal,
        "Internal error",
        None,
        CauseLink::Internal(Box::new(leaf)),
    );

    let msg = DebugFormat::new(&err).format();
    assert!(msg.contains("Internal error. Caused by: This is a leaf error."));
}

#[test]
fn plain_error_renders_message_and_one_line_stack() {
    let err = PlainError::new("disk full".to_string(), StatusCode::StorageUnavailable);
    assert_eq!(err.output_msg(), "disk full");

    let mut buf: Vec<String> = Vec::new();
    err.debug_fmt(0, &mut buf);
    assert_eq!(buf, vec!["0: disk full".to_string()]);
}

#[test]
fn internal_node_masks_user_message_and_renders_full_trace() {
    let leaf = tagged(StatusCode::Unknown, "This is a leaf error", None, CauseLink::Root);
    let err = tagged(
        StatusCode::Internal,
        "Internal error",
        None,
        CauseLink::Internal(Box::new(leaf)),
    );

    assert_eq!(render_user_message(&err), "Internal error: 1");
    assert_eq!(
        render_debug_trace(&err),
        "Internal error. Caused by: This is a leaf error."
    );
}

#[test]
fn unknown_node_masks_user_message() {
    let err = PlainError::new("secret detail".to_string(), StatusCode::Unknown);
    assert_eq!(err.output_msg(), "Internal error: 0");
}

#[test]
fn unmasked_node_with_external_cause_joins_messages() {
    let root = ExternalError::new("connection refused".to_string());
    let outer = ExternalError::wrap("pool exhausted".to_string(), root);
    let err = tagged(
        StatusCode::StorageUnavailable,
        "Failed to query users",
        None,
        CauseLink::External(outer),
    );

    assert_eq!(
        render_user_message(&err),
        "Failed to query users: connection refused"
    );
}

#[test]
fn unmasked_node_with_empty_message_surfaces_external_root_alone() {
    let root = ExternalError::new("connection refused".to_string());
    let err = tagged(
        StatusCode::StorageUnavailable,
        "",
        None,
        CauseLink::External(root),
    );

    assert_eq!(render_user_message(&err), "connection refused");
}

#[test]
fn chain_walks_to_root_and_numbers_layers() {
    let leaf = ErrorNode::Plain(PlainError::new(
        "root cause".to_string(),
        StatusCode::InvalidArguments,
    ));
    let mid = tagged(
        StatusCode::Internal,
        "middle layer",
        None,
        CauseLink::Internal(Box::new(leaf)),
    );
    let top = tagged(
        StatusCode::Internal,
        "top layer",
        None,
        CauseLink::Internal(Box::new(mid)),
    );

    let last = top.last();
    assert!(last.next().is_none());
    assert_eq!(last.message(), "root cause");

    let mut buf: Vec<String> = Vec::new();
    top.debug_fmt(0, &mut buf);
    assert_eq!(
        buf,
        vec![
            "0: top layer".to_string(),
            "1: middle layer".to_string(),
            "2: root cause".to_string(),
        ]
    );
}

#[test]
fn deep_chain_renders_two_digit_layers() {
    let mut node = ErrorNode::Plain(PlainError::new(
        "layer ten".to_string(),
        StatusCode::InvalidArguments,
    ));
    for _ in 0..10 {
        node = tagged(
            StatusCode::Internal,
            "wrapper",
            None,
            CauseLink::Internal(Box::new(node)),
        );
    }

    let mut buf: Vec<String> = Vec::new();
    node.debug_fmt(0, &mut buf);
    assert_eq!(buf.len(), 11);
    assert_eq!(buf[10], "10: layer ten");
}

#[test]
fn boxing_preserves_status_location_and_debug_output() {
    let inner = tagged(
        StatusCode::StorageUnavailable,
        "disk gone",
        Some(SourceLocation::new("store.rs".to_string(), 42, 7)),
        CauseLink::Root,
    );

    let mut inner_buf: Vec<String> = Vec::new();
    inner.debug_fmt(0, &mut inner_buf);
    let inner_status = inner.status_code();
    let inner_loc = inner.location_opt();
    let inner_user = render_user_message(&inner);

    let boxed = BoxedError::new(inner);
    assert_eq!(boxed.status_code(), inner_status);
    let boxed_loc = boxed.location_opt();
    assert_eq!(boxed_loc.is_some(), inner_loc.is_some());
    assert_eq!(boxed_loc.unwrap().render(), inner_loc.unwrap().render());

    let mut boxed_buf: Vec<String> = Vec::new();
    boxed.debug_fmt(0, &mut boxed_buf);
    assert_eq!(boxed_buf, inner_buf);
    assert_eq!(boxed.output_msg(), inner_user);
}

#[test]
fn boxed_error_chains_like_its_inner_node() {
    let leaf = ErrorNode::Plain(PlainError::new(
        "root cause".to_string(),
        StatusCode::InvalidArguments,
    ));
    let boxed = BoxedError::new(leaf);
    let node = boxed.into_node();
    let err = tagged(
        StatusCode::Internal,
        "outer",
        None,
        CauseLink::Internal(Box::new(node)),
    );

    assert_eq!(err.last().message(), "root cause");

    let mut buf: Vec<String> = Vec::new();
    err.debug_fmt(0, &mut buf);
    assert_eq!(
        buf,
        vec!["0: outer".to_string(), "1: root cause".to_string()]
    );
}

#[test]
fn mock_error_copies_status_upward_and_stays_terminal() {
    let leaf = MockError::new(StatusCode::InvalidArguments);
    let wrapped = MockError::with_source(leaf);
    assert_eq!(wrapped.code, StatusCode::InvalidArguments);
    assert_eq!(wrapped.status_code(), StatusCode::InvalidArguments);
    assert!(wrapped.next().is_none());

    let mut buf: Vec<String> = Vec::new();
    wrapped.debug_fmt(0, &mut buf);
    assert!(buf.is_empty());

    assert_eq!(wrapped.message(), "InvalidArguments");
    assert_eq!(wrapped.output_msg(), "InvalidArguments: InvalidArguments");
    assert_eq!(wrapped.trace(), "InvalidArguments. Caused by: InvalidArguments.");
}

#[test]
fn status_codes_have_stable_numbers_and_names() {
    assert_eq!(StatusCode::Unknown.as_u32(), 0);
    assert_eq!(StatusCode::Internal.as_u32(), 1);
    assert_eq!(StatusCode::InvalidArguments.as_u32(), 2);
    assert_eq!(StatusCode::Unsupported.as_u32(), 3);
    assert_eq!(StatusCode::StorageUnavailable.as_u32(), 4);

    assert_eq!(StatusCode::from_u32(4), Some(StatusCode::StorageUnavailable));
    assert_eq!(StatusCode::from_u32(99), None);

    assert_eq!(StatusCode::StorageUnavailable.name(), "StorageUnavailable");
    assert_eq!(StatusCode::default(), StatusCode::Unknown);

    assert!(StatusCode::Unknown.is_masked());
    assert!(StatusCode::Internal.is_masked());
    assert!(!StatusCode::StorageUnavailable.is_masked());
}

#[test]
fn source_location_renders_file_line_column() {
    let loc = SourceLocation::new("src/store/users.rs".to_string(), 120, 9);
    assert_eq!(loc.render(), "src/store/users.rs:120:9");
}

#[test]
fn empty_message_without_cause_renders_the_empty_string() {
    let err = PlainError::new(String::new(), StatusCode::Unsupported);
    assert_eq!(err.output_msg(), "");

    let node = tagged(StatusCode::Unsupported, "", None, CauseLink::Root);
    assert_eq!(render_user_message(&node), "");
    assert_eq!(render_debug_trace(&node), ".");
}

#[test]
fn error_headers_carry_the_wire_names() {
    assert_eq!(common_error::GREPTIME_DB_HEADER_ERROR_CODE, "x-greptime-err-code");
    assert_eq!(common_error::GREPTIME_DB_HEADER_ERROR_MSG, "x-greptime-err-msg");
}

fn assert_transferable<T: Send + Sync>() {}

#[test]
fn nodes_and_boxes_transfer_between_threads() {
    assert_transferable::<ErrorNode>();
    assert_transferable::<BoxedError>();
    assert_transferable::<PlainError>();
    assert_transferable::<MockError>();
}

#[test]
fn downcast_accessors_identify_the_concrete_kind() {
    let node = ErrorNode::Plain(PlainError::new(
        "oops".to_string(),
        StatusCode::Unsupported,
    ));
    assert!(node.as_plain().is_some());
    assert!(node.as_mock().is_none());
    assert!(node.as_tagged().is_none());
    assert!(node.as_boxed().is_none());
    assert_eq!(node.as_plain().unwrap().msg, "oops");
}
