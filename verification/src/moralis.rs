//! The read-only indexing-API proxy's request shapes and URLs.
//!
//! Queries are forwarded to the indexing API unmodified; the only logic is
//! defaulting the query parameters and building each endpoint's URL from
//! the configured base, the unescaped path pieces, and the numeric path
//! segments.  The upstream answer passes through when its status is
//! success and is classified as an upstream failure otherwise.

use vstd::prelude::*;
use vstd::string::*;
use crate::error::ApiError;
use crate::text::{dec_chars, push_decimal};

verus! {

/// Query options common to every indexing-API lookup.
#[derive(Debug, Clone, PartialEq)]
pub struct QueryParams {
    pub chain: Option<String>,
    pub format: Option<String>,
    pub offset: Option<u64>,
    pub limit: Option<u64>,
}

/// The mathematical value of a [`QueryParams`].
#[verifier::ext_equal]
pub struct QueryParamsView {
    pub chain: Option<Seq<char>>,
    pub format: Option<Seq<char>>,
    pub offset: Option<u64>,
    pub limit: Option<u64>,
}

impl View for QueryParams {
    type V = QueryParamsView;

    open spec fn view(&self) -> QueryParamsView {
        QueryParamsView {
            chain: match &self.chain {
                Some(c) => Some(c@),
                None => None,
            },
            format: match &self.format {
                Some(f) => Some(f@),
                None => None,
            },
            offset: self.offset,
            limit: self.limit,
        }
    }
}

/// An account-keyed lookup.
#[derive(Debug, Clone, PartialEq)]
pub struct Address {
    pub address: String,
    pub options: QueryParams,
}

/// A token-contract-keyed lookup.
#[derive(Debug, Clone, PartialEq)]
pub struct Token {
    pub token_address: String,
    pub options: QueryParams,
}

/// A transaction-hash-keyed lookup.
#[derive(Debug, Clone, PartialEq)]
pub struct Transaction {
    pub tx: String,
    pub options: QueryParams,
}

/// Every absent option filled with its default: chain `rinkeby`, format
/// `decimal`, offset `0`, limit `10`; present options pass through.
pub open spec fn spec_check_query_params(p: QueryParamsView) -> QueryParamsView {
    QueryParamsView {
        chain: Some(
            match p.chain {
                Some(c) => c,
                None => "rinkeby"@,
            },
        ),
        format: Some(
            match p.format {
                Some(f) => f,
                None => "decimal"@,
            },
        ),
        offset: Some(
            match p.offset {
                Some(o) => o,
                None => 0u64,
            },
        ),
        limit: Some(
            match p.limit {
                Some(l) => l,
                None => 10u64,
            },
        ),
    }
}

/// Fills absent query options with their defaults.
pub fn check_query_params(params: &QueryParams) -> (r: QueryParams)
    ensures
        r@ == spec_check_query_params(params@),
{
    let r = QueryParams {
        chain: match &params.chain {
            Some(chain) => Some(chain.clone()),
            None => Some(String::from_str("rinkeby")),
        },
        format: match &params.format {
            Some(format) => Some(format.clone()),
            None => Some(String::from_str("decimal")),
        },
        offset: match &params.offset {
            Some(offset) => Some(*offset),
            None => Some(0),
        },
        limit: match &params.limit {
            Some(limit) => Some(*limit),
            None => Some(10),
        },
    };
    proof {
        assert(r@ =~= spec_check_query_params(params@));
    }
    r
}

/// What unescaping makes of a piece of path text; the result depends on
/// the text alone.
pub uninterp spec fn unescaped_text(s: Seq<char>) -> Seq<char>;

/// Relies on `snailquote::unescape`: it interprets shell-style quoting and
/// escapes in the given text, computing from the text alone, and reports
/// text it cannot interpret as an error.
#[verifier::external_body]
fn unescape_text(s: &str) -> (r: Option<String>)
    ensures
        r matches Some(t) ==> t@ == unescaped_text(s@),
{
    match snailquote::unescape(s) {
        Ok(t) => Some(t),
        Err(_) => None,
    }
}

/// The URL of an account's token holdings.
pub fn get_nfts_url(base: &str, address: &str) -> (r: Result<String, ApiError>)
    ensures
        r matches Ok(u) ==> u@ == base@ + unescaped_text(address@) + "/nft"@,
        r is Err ==> r == Err::<String, ApiError>(ApiError::InvalidRequest),
{
    match unescape_text(address) {
        Some(a) => Ok(String::from_str(base).concat(a.as_str()).concat("/nft")),
        None => Err(ApiError::InvalidRequest),
    }
}

/// The URL of an account's holdings under one token contract.
pub fn get_contract_nfts_url(base: &str, address: &str, token_address: &str) -> (r: Result<
    String,
    ApiError,
>)
    ensures
        r matches Ok(u) ==> u@ == base@ + unescaped_text(address@) + "/nft/"@ + unescaped_text(
            token_address@,
        ),
        r is Err ==> r == Err::<String, ApiError>(ApiError::InvalidRequest),
{
    let a = match unescape_text(address) {
        Some(a) => a,
        None => {
            return Err(ApiError::InvalidRequest);
        },
    };
    let t = match unescape_text(token_address) {
        Some(t) => t,
        None => {
            return Err(ApiError::InvalidRequest);
        },
    };
    Ok(String::from_str(base).concat(a.as_str()).concat("/nft/").concat(t.as_str()))
}

/// The URL of an account's token transfers.
pub fn get_nft_transfers_url(base: &str, address: &str) -> (r: Result<String, ApiError>)
    ensures
        r matches Ok(u) ==> u@ == base@ + "nft/"@ + unescaped_text(address@) + "/transfers"@,
        r is Err ==> r == Err::<String, ApiError>(ApiError::InvalidRequest),
{
    match unescape_text(address) {
        Some(a) => Ok(
            String::from_str(base).concat("nft/").concat(a.as_str()).concat("/transfers"),
        ),
        None => Err(ApiError::InvalidRequest),
    }
}

/// The URL of the token transfers in one block.
pub fn get_nft_transfers_by_block_url(base: &str, block: u64) -> (r: String)
    ensures
        r@ == base@ + "block/"@ + dec_chars(block as nat) + "/nft/transfers"@,
{
    let mut u = String::from_str(base);
    u.append("block/");
    push_decimal(&mut u, block);
    u.append("/nft/transfers");
    u
}

/// The URL of all token ids under one token contract.
pub fn get_all_token_ids_url(base: &str, token_address: &str) -> (r: Result<String, ApiError>)
    ensures
        r matches Ok(u) ==> u@ == base@ + "nft/"@ + unescaped_text(token_address@),
        r is Err ==> r == Err::<String, ApiError>(ApiError::InvalidRequest),
{
    match unescape_text(token_address) {
        Some(t) => Ok(String::from_str(base).concat("nft/").concat(t.as_str())),
        None => Err(ApiError::InvalidRequest),
    }
}

/// The URL of one token contract's transfers.
pub fn get_contract_nft_transfers_url(base: &str, token_address: &str) -> (r: Result<
    String,
    ApiError,
>)
    ensures
        r matches Ok(u) ==> u@ == base@ + "nft/"@ + unescaped_text(token_address@) + "/transfers"@,
        r is Err ==> r == Err::<String, ApiError>(ApiError::InvalidRequest),
{
    match unescape_text(token_address) {
        Some(t) => Ok(
            String::from_str(base).concat("nft/").concat(t.as_str()).concat("/transfers"),
        ),
        None => Err(ApiError::InvalidRequest),
    }
}

/// The URL of one token contract's metadata.
pub fn get_nft_metadata_url(base: &str, token_address: &str) -> (r: Result<String, ApiError>)
    ensures
        r matches Ok(u) ==> u@ == base@ + "nft/"@ + unescaped_text(token_address@) + "/metadata"@,
        r is Err ==> r == Err::<String, ApiError>(ApiError::InvalidRequest),
{
    match unescape_text(token_address) {
        Some(t) => Ok(String::from_str(base).concat("nft/").concat(t.as_str()).concat("/metadata")),
        None => Err(ApiError::InvalidRequest),
    }
}

/// The URL of one token contract's owners.
pub fn get_nft_owners_url(base: &str, token_address: &str) -> (r: Result<String, ApiError>)
    ensures
        r matches Ok(u) ==> u@ == base@ + "nft/"@ + unescaped_text(token_address@) + "/owners"@,
        r is Err ==> r == Err::<String, ApiError>(ApiError::InvalidRequest),
{
    match unescape_text(token_address) {
        Some(t) => Ok(String::from_str(base).concat("nft/").concat(t.as_str()).concat("/owners")),
        None => Err(ApiError::InvalidRequest),
    }
}

/// The URL of one token id's metadata.
pub fn get_token_id_metadata_url(base: &str, token_address: &str, id: u64) -> (r: Result<
    String,
    ApiError,
>)
    ensures
        r matches Ok(u) ==> u@ == base@ + "nft/"@ + unescaped_text(token_address@) + "/"@
            + dec_chars(id as nat),
        r is Err ==> r == Err::<String, ApiError>(ApiError::InvalidRequest),
{
    match unescape_text(token_address) {
        Some(t) => {
            let mut u = String::from_str(base);
            u.append("nft/");
            u.append(t.as_str());
            u.append("/");
            push_decimal(&mut u, id);
            Ok(u)
        },
        None => Err(ApiError::InvalidRequest),
    }
}

/// The URL of one token id's owners.
pub fn get_token_id_owners_url(base: &str, token_address: &str, id: u64) -> (r: Result<
    String,
    ApiError,
>)
    ensures
        r matches Ok(u) ==> u@ == base@ + "nft/"@ + unescaped_text(token_address@) + "/"@
            + dec_chars(id as nat) + "/owners"@,
        r is Err ==> r == Err::<String, ApiError>(ApiError::InvalidRequest),
{
    match unescape_text(token_address) {
        Some(t) => {
            let mut u = String::from_str(base);
            u.append("nft/");
            u.append(t.as_str());
            u.append("/");
            push_decimal(&mut u, id);
            u.append("/owners");
            Ok(u)
        },
        None => Err(ApiError::InvalidRequest),
    }
}

/// The URL of one transaction's detail.
pub fn get_transaction_url(base: &str, tx: &str) -> (r: Result<String, ApiError>)
    ensures
        r matches Ok(u) ==> u@ == base@ + "transaction/"@ + unescaped_text(tx@),
        r is Err ==> r == Err::<String, ApiError>(ApiError::InvalidRequest),
{
    match unescape_text(tx) {
        Some(t) => Ok(String::from_str(base).concat("transaction/").concat(t.as_str())),
        None => Err(ApiError::InvalidRequest),
    }
}

/// Classifies the upstream API's answer: a success status passes the body
/// through, anything else is the upstream failure.
pub fn moralis_response_outcome(status: u16, body: String) -> (r: Result<String, ApiError>)
    ensures
        status == 200 ==> (r matches Ok(b) && b@ == body@),
        status != 200 ==> r == Err::<String, ApiError>(ApiError::MoralisError),
{
    if status == 200 {
        Ok(body)
    } else {
        Err(ApiError::MoralisError)
    }
}

} // verus!
