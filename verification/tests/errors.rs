use sugarfunge_integration::error::{classify, ApiError, ContentType, RawFailure};

#[test]
fn classification_is_the_fixed_mapping() {
    assert_eq!(classify(RawFailure::BodyRejected), ApiError::InvalidRequest);
    assert_eq!(classify(RawFailure::TransportFailed), ApiError::TransportError);
    assert_eq!(
        classify(RawFailure::DeploymentMissing(String::from("no record"))),
        ApiError::ContractError(String::from("no record"))
    );
    assert_eq!(
        classify(RawFailure::NodeRejected(String::from("reverted"))),
        ApiError::MethodError(String::from("reverted"))
    );
    assert_eq!(classify(RawFailure::UpstreamFailed), ApiError::MoralisError);
}

#[test]
fn resolution_failure_is_not_a_method_error() {
    let e = classify(RawFailure::DeploymentMissing(String::from("missing")));
    assert!(matches!(e, ApiError::ContractError(_)));
    assert!(!matches!(e, ApiError::MethodError(_)));
}

#[test]
fn error_names_match_their_kinds() {
    assert_eq!(ApiError::MoralisError.name(), "Unknown");
    assert_eq!(ApiError::InvalidRequest.name(), "InvalidRequest");
    assert_eq!(ApiError::ContractError(String::new()).name(), "ContractError");
    assert_eq!(ApiError::MethodError(String::new()).name(), "MethodError");
    assert_eq!(ApiError::TransportError.name(), "TransportError");
}

#[test]
fn status_codes_are_client_or_server_errors() {
    assert_eq!(ApiError::InvalidRequest.status_code(), 400);
    assert_eq!(ApiError::MoralisError.status_code(), 500);
    assert_eq!(ApiError::ContractError(String::new()).status_code(), 500);
    assert_eq!(ApiError::MethodError(String::new()).status_code(), 500);
    assert_eq!(ApiError::TransportError.status_code(), 500);
}

#[test]
fn messages_quote_the_lower_layer_detail() {
    assert_eq!(ApiError::MoralisError.message(), "Moralis API data fetch failed");
    assert_eq!(ApiError::InvalidRequest.message(), "Invalid request");
    assert_eq!(
        ApiError::ContractError(String::from("no deployment")).message(),
        "Locating deployed contract failed: no deployment"
    );
    assert_eq!(
        ApiError::MethodError(String::from("revert")).message(),
        "Contract method failed: revert"
    );
    assert_eq!(ApiError::TransportError.message(), "Create transport failed");
}

#[test]
fn error_response_carries_status_label_and_message() {
    let r = ApiError::InvalidRequest.error_response();
    assert_eq!(r.code, 400);
    assert_eq!(r.error, "InvalidRequest");
    assert_eq!(r.message, "Invalid request");
    let r = ApiError::ContractError(String::from("x")).error_response();
    assert_eq!(r.code, 500);
    assert_eq!(r.error, "ContractError");
    assert_eq!(r.message, "Locating deployed contract failed: x");
}

#[test]
fn json_content_type_name() {
    assert_eq!(ContentType::JSON.as_str(), "application/json");
}
