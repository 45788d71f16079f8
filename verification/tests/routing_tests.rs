use file_info::error::Error;
use file_info::routing::{dispatch, index_name, reject_unmapped, Method, RouteDecision};

#[test]
fn get_root_is_the_file_info_route() {
    let path = String::from("/");
    assert_eq!(dispatch(Method::Get, &path), RouteDecision::FileInfo);
}

#[test]
fn any_other_path_is_forbidden() {
    for p in ["/files", "/search", "//", "", "/ "] {
        let path = String::from(p);
        assert_eq!(dispatch(Method::Get, &path), RouteDecision::Forbidden);
    }
}

#[test]
fn any_other_method_on_root_is_forbidden() {
    let path = String::from("/");
    for m in [
        Method::Head,
        Method::Post,
        Method::Put,
        Method::Delete,
        Method::Connect,
        Method::Options,
        Method::Trace,
        Method::Patch,
    ] {
        assert_eq!(dispatch(m, &path), RouteDecision::Forbidden);
    }
}

#[test]
fn unmapped_requests_get_forbidden_with_empty_body() {
    let (status, body) = reject_unmapped();
    assert_eq!(status, 403);
    assert!(body.is_empty());
}

#[test]
fn network_selector_picks_the_index() {
    assert_eq!(index_name(true), "mainnet_files");
    assert_eq!(index_name(false), "testnet_files");
}

#[test]
fn every_error_class_maps_to_internal_server_error() {
    for e in [
        Error::IOError,
        Error::StoreConnectionBroken,
        Error::ChainTransportError,
        Error::MissingOnchainRecord,
    ] {
        assert_eq!(e.status_code(), 500);
    }
}

#[test]
fn error_messages_are_the_diagnostic_texts() {
    assert_eq!(Error::IOError.message(), "IO error");
    assert_eq!(
        Error::StoreConnectionBroken.message(),
        "Connection to internal database is broken"
    );
    assert_eq!(Error::ChainTransportError.message(), "Chain connection failure");
    assert_eq!(Error::MissingOnchainRecord.message(), "Bad metadata processing");
}
