//! The closed error taxonomy of the service.
//!
//! Every failure of a lower layer is classified into one `ApiError` kind
//! before it is surfaced: a malformed request body, a transport that could
//! not be constructed, a contract with no deployment record, a call the node
//! rejected, or an upstream indexing-API failure.  Each kind carries a fixed
//! label, a fixed HTTP status and a message; nothing else ever crosses the
//! component boundary.

use vstd::prelude::*;
use vstd::string::*;

verus! {

/// One of the closed set of error kinds the service reports.
///
/// `ContractError` and `MethodError` carry the lower layer's own description
/// so it can be quoted in the message.
#[derive(Debug, Clone, PartialEq)]
pub enum ApiError {
    MoralisError,
    InvalidRequest,
    ContractError(String),
    MethodError(String),
    TransportError,
}

/// A failure as a lower layer hands it over, before classification.
#[derive(Debug, Clone, PartialEq)]
pub enum RawFailure {
    /// The request body could not be read as the expected shape.
    BodyRejected,
    /// The RPC transport could not be constructed.
    TransportFailed,
    /// A named contract has no deployment record on the active network.
    DeploymentMissing(String),
    /// The node rejected a built call, including an on-chain revert.
    NodeRejected(String),
    /// The read-only indexing API failed or returned a non-success status.
    UpstreamFailed,
}

/// The error kind that classification assigns to each raw failure.
pub open spec fn spec_classify(f: RawFailure) -> ApiError {
    match f {
        RawFailure::BodyRejected => ApiError::InvalidRequest,
        RawFailure::TransportFailed => ApiError::TransportError,
        RawFailure::DeploymentMissing(d) => ApiError::ContractError(d),
        RawFailure::NodeRejected(d) => ApiError::MethodError(d),
        RawFailure::UpstreamFailed => ApiError::MoralisError,
    }
}

/// Maps a lower-layer failure into the closed set of error kinds.
pub fn classify(f: RawFailure) -> (e: ApiError)
    ensures
        e == spec_classify(f),
{
    match f {
        RawFailure::BodyRejected => ApiError::InvalidRequest,
        RawFailure::TransportFailed => ApiError::TransportError,
        RawFailure::DeploymentMissing(d) => ApiError::ContractError(d),
        RawFailure::NodeRejected(d) => ApiError::MethodError(d),
        RawFailure::UpstreamFailed => ApiError::MoralisError,
    }
}

/// The fixed label of each error kind.
pub open spec fn spec_error_name(e: ApiError) -> Seq<char> {
    match e {
        ApiError::MoralisError => "Unknown"@,
        ApiError::InvalidRequest => "InvalidRequest"@,
        ApiError::ContractError(_) => "ContractError"@,
        ApiError::MethodError(_) => "MethodError"@,
        ApiError::TransportError => "TransportError"@,
    }
}

/// The fixed HTTP status of each error kind: a client error for a malformed
/// request, a server error otherwise.
pub open spec fn spec_error_status(e: ApiError) -> u16 {
    if e is InvalidRequest {
        400u16
    } else {
        500u16
    }
}

/// The human-readable message of each error kind; for contract and method
/// failures it quotes the lower layer's description.
pub open spec fn spec_error_message(e: ApiError) -> Seq<char> {
    match e {
        ApiError::MoralisError => "Moralis API data fetch failed"@,
        ApiError::InvalidRequest => "Invalid request"@,
        ApiError::ContractError(d) => "Locating deployed contract failed: "@ + d@,
        ApiError::MethodError(d) => "Contract method failed: "@ + d@,
        ApiError::TransportError => "Create transport failed"@,
    }
}

impl ApiError {
    /// The fixed label of this error kind.
    pub fn name(&self) -> (r: String)
        ensures
            r@ == spec_error_name(*self),
    {
        match self {
            ApiError::MoralisError => String::from_str("Unknown"),
            ApiError::InvalidRequest => String::from_str("InvalidRequest"),
            ApiError::ContractError(_) => String::from_str("ContractError"),
            ApiError::MethodError(_) => String::from_str("MethodError"),
            ApiError::TransportError => String::from_str("TransportError"),
        }
    }

    /// The HTTP status this error kind is reported with.
    pub fn status_code(&self) -> (r: u16)
        ensures
            r == spec_error_status(*self),
    {
        match self {
            ApiError::InvalidRequest => 400,
            _ => 500,
        }
    }

    /// The human-readable message of this error kind.
    pub fn message(&self) -> (r: String)
        ensures
            r@ == spec_error_message(*self),
    {
        match self {
            ApiError::MoralisError => String::from_str("Moralis API data fetch failed"),
            ApiError::InvalidRequest => String::from_str("Invalid request"),
            ApiError::ContractError(d) => String::from_str(
                "Locating deployed contract failed: ",
            ).concat(d.as_str()),
            ApiError::MethodError(d) => String::from_str("Contract method failed: ").concat(
                d.as_str(),
            ),
            ApiError::TransportError => String::from_str("Create transport failed"),
        }
    }

    /// The structured failure payload returned to clients: status code,
    /// fixed label, message.
    pub fn error_response(&self) -> (r: ErrorResponse)
        ensures
            r.code == spec_error_status(*self),
            r.error@ == spec_error_name(*self),
            r.message@ == spec_error_message(*self),
    {
        ErrorResponse { code: self.status_code(), error: self.name(), message: self.message() }
    }
}

/// The body of a failure response.
#[derive(Debug, Clone, PartialEq)]
pub struct ErrorResponse {
    pub code: u16,
    pub error: String,
    pub message: String,
}

/// The content types the service produces.
#[derive(Debug, Clone, PartialEq)]
pub enum ContentType {
    JSON,
}

impl ContentType {
    /// The MIME name of this content type.
    pub fn as_str(&self) -> (r: &'static str)
        ensures
            r@ == "application/json"@,
    {
        match *self {
            ContentType::JSON => "application/json",
        }
    }
}

} // verus!
