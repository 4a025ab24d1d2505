use sugarfunge_integration::error::ApiError;
use sugarfunge_integration::moralis::{
    check_query_params, get_all_token_ids_url, get_contract_nft_transfers_url,
    get_contract_nfts_url, get_nft_metadata_url, get_nft_owners_url, get_nft_transfers_by_block_url,
    get_nft_transfers_url, get_nfts_url, get_token_id_metadata_url, get_token_id_owners_url,
    get_transaction_url, moralis_response_outcome, QueryParams,
};

const BASE: &str = "https://api.example/v2/";

#[test]
fn absent_query_params_take_their_defaults() {
    let p = QueryParams { chain: None, format: None, offset: None, limit: None };
    let r = check_query_params(&p);
    assert_eq!(r.chain, Some(String::from("rinkeby")));
    assert_eq!(r.format, Some(String::from("decimal")));
    assert_eq!(r.offset, Some(0));
    assert_eq!(r.limit, Some(10));
}

#[test]
fn present_query_params_pass_through() {
    let p = QueryParams {
        chain: Some(String::from("mainnet")),
        format: Some(String::from("hex")),
        offset: Some(40),
        limit: Some(25),
    };
    let r = check_query_params(&p);
    assert_eq!(r.chain, Some(String::from("mainnet")));
    assert_eq!(r.format, Some(String::from("hex")));
    assert_eq!(r.offset, Some(40));
    assert_eq!(r.limit, Some(25));
}

#[test]
fn account_urls_unescape_the_address() {
    // quoted input: unescaping strips the quotes, so handing the text back
    // unchanged would fail this
    let url = get_nfts_url(BASE, "\"0xabc\"").expect("unescapes");
    assert_eq!(url, "https://api.example/v2/0xabc/nft");
    let url = get_nfts_url(BASE, "0xabc").expect("plain text passes through");
    assert_eq!(url, "https://api.example/v2/0xabc/nft");
}

#[test]
fn invalid_escapes_are_invalid_requests() {
    match get_nfts_url(BASE, "\"\\q\"") {
        Err(ApiError::InvalidRequest) => {}
        _ => panic!("expected InvalidRequest"),
    }
}

#[test]
fn contract_and_transfer_urls() {
    let url = get_contract_nfts_url(BASE, "0xabc", "0xdef").expect("unescapes");
    assert_eq!(url, "https://api.example/v2/0xabc/nft/0xdef");
    let url = get_nft_transfers_url(BASE, "'0xabc'").expect("unescapes");
    assert_eq!(url, "https://api.example/v2/nft/0xabc/transfers");
    let url = get_contract_nft_transfers_url(BASE, "0xdef").expect("unescapes");
    assert_eq!(url, "https://api.example/v2/nft/0xdef/transfers");
}

#[test]
fn block_number_is_rendered_in_decimal() {
    let url = get_nft_transfers_by_block_url(BASE, 1234567890);
    assert_eq!(url, "https://api.example/v2/block/1234567890/nft/transfers");
    let url = get_nft_transfers_by_block_url(BASE, 0);
    assert_eq!(url, "https://api.example/v2/block/0/nft/transfers");
}

#[test]
fn token_urls() {
    let url = get_all_token_ids_url(BASE, "0xdef").expect("unescapes");
    assert_eq!(url, "https://api.example/v2/nft/0xdef");
    let url = get_nft_metadata_url(BASE, "0xdef").expect("unescapes");
    assert_eq!(url, "https://api.example/v2/nft/0xdef/metadata");
    let url = get_nft_owners_url(BASE, "0xdef").expect("unescapes");
    assert_eq!(url, "https://api.example/v2/nft/0xdef/owners");
}

#[test]
fn token_id_urls_render_the_id_in_decimal() {
    let url = get_token_id_metadata_url(BASE, "0xdef", 7).expect("unescapes");
    assert_eq!(url, "https://api.example/v2/nft/0xdef/7");
    let url = get_token_id_owners_url(BASE, "0xdef", 42).expect("unescapes");
    assert_eq!(url, "https://api.example/v2/nft/0xdef/42/owners");
}

#[test]
fn transaction_url() {
    let url = get_transaction_url(BASE, "0x123abc").expect("unescapes");
    assert_eq!(url, "https://api.example/v2/transaction/0x123abc");
}

#[test]
fn upstream_success_passes_the_body_through() {
    assert_eq!(
        moralis_response_outcome(200, String::from("{\"total\":1}")),
        Ok(String::from("{\"total\":1}"))
    );
}

#[test]
fn upstream_failure_is_classified() {
    assert_eq!(
        moralis_response_outcome(404, String::from("missing")),
        Err(ApiError::MoralisError)
    );
    assert_eq!(
        moralis_response_outcome(500, String::new()),
        Err(ApiError::MoralisError)
    );
}
