use graph_todo::api::{
    Collection, ErrorResponse, ErrorResponseError, ErrorResponseErrorInnerError, OData, Response,
};
use graph_todo::error::Error;
use graph_todo::{graph_url, GRAPH_BASE_URI};

fn failure_report(code: &str, message: &str) -> ErrorResponse {
    ErrorResponse {
        error: ErrorResponseError {
            code: code.to_string(),
            message: message.to_string(),
            inner_error: ErrorResponseErrorInnerError {
                date: "2020-11-01T10:00:00".to_string(),
                request_id: "r-1".to_string(),
                client_request_id: "c-1".to_string(),
            },
        },
    }
}

#[test]
fn error_shape_decodes_to_error() {
    let r = Response::<u32>::decode(
        Err("missing field `displayName`".to_string()),
        Ok(failure_report("X", "Y")),
    );
    match r {
        Ok(Response::Error(e)) => {
            assert_eq!(e.error.code, "X");
            assert_eq!(e.error.message, "Y");
            assert_eq!(e.error.inner_error.request_id, "r-1");
            assert_eq!(e.error.inner_error.client_request_id, "c-1");
            assert_eq!(e.error.inner_error.date, "2020-11-01T10:00:00");
        }
        _ => panic!("a failure report was not read as one"),
    }
}

#[test]
fn success_shape_decodes_to_success() {
    let r = Response::<u32>::decode(Ok(7), Err("missing field `error`".to_string()));
    assert!(matches!(r, Ok(Response::Success(7))));
}

#[test]
fn success_wins_where_both_shapes_fit() {
    let r = Response::<u32>::decode(Ok(7), Ok(failure_report("X", "Y")));
    assert!(matches!(r, Ok(Response::Success(7))));
}

#[test]
fn neither_shape_is_a_decode_error_naming_the_first_failure() {
    let r = Response::<u32>::decode(
        Err("displayName: missing".to_string()),
        Err("error: missing".to_string()),
    );
    match r {
        Err(Error::DecodeError(why)) => assert_eq!(why, "displayName: missing"),
        _ => panic!("a document of neither shape was accepted"),
    }
}

#[test]
fn page_without_items_member_is_empty() {
    let odata = OData { context: Some("ctx".to_string()), next_link: Some("p2".to_string()) };
    let page = Collection::<u32>::from_parts(None, odata);
    assert!(page.value.is_empty());
    assert_eq!(page.odata.next_link, Some("p2".to_string()));
    assert_eq!(page.odata.context, Some("ctx".to_string()));
}

#[test]
fn page_keeps_items_in_server_order() {
    let odata = OData { context: None, next_link: None };
    let page = Collection::from_parts(Some(vec![3, 1, 2]), odata);
    assert_eq!(page.value, vec![3, 1, 2]);
    assert_eq!(page.odata.next_link, None);
}

#[test]
fn graph_url_prefixes_the_service_root() {
    assert_eq!(GRAPH_BASE_URI, "https://graph.microsoft.com/beta");
    assert_eq!(graph_url("/me"), "https://graph.microsoft.com/beta/me");
    assert_eq!(graph_url(""), "https://graph.microsoft.com/beta");
    assert_eq!(
        graph_url("/me/todo/lists/abc/tasks"),
        "https://graph.microsoft.com/beta/me/todo/lists/abc/tasks"
    );
}

#[test]
fn error_message_and_kind() {
    let t = Error::TransportError("connection refused".to_string());
    let d = Error::DecodeError("value: not a list".to_string());
    assert!(t.is_transport());
    assert!(!d.is_transport());
    assert_eq!(t.message(), "connection refused");
    assert_eq!(d.message(), "value: not a list");
}

#[test]
fn pick_counts_from_one() {
    let odata = OData { context: None, next_link: None };
    let page = Collection::from_parts(Some(vec![10, 20, 30]), odata);
    assert_eq!(page.pick(0), None);
    assert_eq!(page.pick(1), Some(&10));
    assert_eq!(page.pick(3), Some(&30));
    assert_eq!(page.pick(4), None);
    assert_eq!(page.pick(u32::MAX), None);
}
