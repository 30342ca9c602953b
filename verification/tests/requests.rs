use cashu_client::address::{locate, MAX_TEXT};
use cashu_client::client::HttpClient;
use cashu_client::error::Error;
use cashu_client::json::Json;
use cashu_client::payload::{BlindedMessage, BlindedMessages, Proof, SplitRequest};
use cashu_client::request::{
    addressed, assemble, write_blinded_message, write_proof, Method, Operation, Request,
};

const MINT: &str = "https://mint.example.com";
const KEY_ONE: &str = "0279be667ef9dcbbac55a06295ce870b07029bfcdb2dce28d959f2815b16f81798";
const KEY_TWO: &str = "02c6047f9441ed7d6d3045406e95c07cd85c778e4b8cef3ca7abac09b95c709ee5";

fn model(value: &serde_json::Value) -> Json {
    match value {
        serde_json::Value::Null => Json::Null,
        serde_json::Value::Bool(b) => Json::Bool(*b),
        serde_json::Value::Number(n) => match n.as_u64() {
            Some(n) => Json::Number(n),
            None => Json::Literal(n.to_string()),
        },
        serde_json::Value::String(s) => Json::Text(s.clone()),
        serde_json::Value::Array(items) => Json::Array(items.iter().map(model).collect()),
        serde_json::Value::Object(members) => {
            Json::Object(members.iter().map(|(name, value)| (name.clone(), model(value))).collect())
        }
    }
}

fn object(members: Vec<(&str, Json)>) -> Json {
    Json::Object(members.into_iter().map(|(name, value)| (name.to_string(), value)).collect())
}

fn text(text: &str) -> Json {
    Json::Text(text.to_string())
}

fn message(amount: u64, key: &str) -> BlindedMessage {
    BlindedMessage { amount, blinded_secret: key.to_string() }
}

fn message_json(amount: u64, key: &str) -> Json {
    object(vec![("amount", Json::Number(amount)), ("B_", text(key))])
}

fn a_proof(amount: u64, secret: &str, key: &str, keyset_id: &str) -> Proof {
    Proof {
        amount,
        secret: secret.to_string(),
        signature: key.to_string(),
        keyset_id: keyset_id.to_string(),
    }
}

fn proof_json(amount: u64, secret: &str, key: &str, keyset_id: &str) -> Json {
    object(vec![
        ("amount", Json::Number(amount)),
        ("secret", text(secret)),
        ("C", text(key)),
        ("id", text(keyset_id)),
    ])
}

fn no_address() -> Error {
    Error::Transport("the mint address cannot take the request".to_string())
}

#[test]
fn keys_are_requested_with_get() {
    assert_eq!(
        HttpClient::new().get_mint_keys_request(MINT),
        Ok(Request {
            method: Method::Get,
            url: "https://mint.example.com/keys".to_string(),
            body: None,
        })
    );
}

#[test]
fn keysets_are_requested_with_get() {
    assert_eq!(
        HttpClient::new().get_mint_keysets_request(MINT),
        Ok(Request {
            method: Method::Get,
            url: "https://mint.example.com/keysets".to_string(),
            body: None,
        })
    );
}

#[test]
fn a_payment_request_is_requested_with_the_amount_in_the_query() {
    assert_eq!(
        HttpClient::new().get_request_mint_request(MINT, 1000),
        Ok(Request {
            method: Method::Get,
            url: "https://mint.example.com/mint?amount=1000".to_string(),
            body: None,
        })
    );
}

#[test]
fn the_amounts_at_both_ends_are_written_in_decimal() {
    let client = HttpClient::new();
    assert_eq!(
        client.get_request_mint_request(MINT, 0).map(|request| request.url),
        Ok("https://mint.example.com/mint?amount=0".to_string())
    );
    assert_eq!(
        client.get_request_mint_request(MINT, u64::MAX).map(|request| request.url),
        Ok("https://mint.example.com/mint?amount=18446744073709551615".to_string())
    );
}

#[test]
fn a_mint_is_posted_with_the_hash_in_the_query_and_the_outputs_in_the_body() {
    let batch = BlindedMessages {
        id: "kept by the caller".to_string(),
        blinded_messages: vec![message(2, KEY_TWO), message(1, KEY_ONE)],
    };
    assert_eq!(
        HttpClient::new().post_mint_request(MINT, batch, "abc"),
        Ok(Request {
            method: Method::Post,
            url: "https://mint.example.com/mint?hash=abc".to_string(),
            body: Some(object(vec![(
                "outputs",
                Json::Array(vec![message_json(2, KEY_TWO), message_json(1, KEY_ONE)]),
            )])),
        })
    );
}

#[test]
fn a_hash_is_encoded_for_the_query() {
    let batch = BlindedMessages { id: String::new(), blinded_messages: vec![] };
    assert_eq!(
        HttpClient::new().post_mint_request(MINT, batch, "a b&c=d/\u{e9}").map(|r| r.url),
        Ok("https://mint.example.com/mint?hash=a+b%26c%3Dd%2F%C3%A9".to_string())
    );
}

#[test]
fn a_fee_check_is_posted_with_the_payment_request() {
    assert_eq!(
        HttpClient::new().post_check_fees_request(MINT, "lnbc10n1"),
        Ok(Request {
            method: Method::Post,
            url: "https://mint.example.com/checkfees".to_string(),
            body: Some(object(vec![("pr", text("lnbc10n1"))])),
        })
    );
}

#[test]
fn a_melt_is_posted_with_proofs_payment_request_and_outputs() {
    let request = HttpClient::new().post_melt_request(
        MINT,
        vec![a_proof(4, "s1", KEY_ONE, "k"), a_proof(1, "s2", KEY_TWO, "k")],
        "lnbc10n1",
        Some(vec![message(1, KEY_TWO)]),
    );
    assert_eq!(
        request,
        Ok(Request {
            method: Method::Post,
            url: "https://mint.example.com/melt".to_string(),
            body: Some(object(vec![
                (
                    "proofs",
                    Json::Array(vec![
                        proof_json(4, "s1", KEY_ONE, "k"),
                        proof_json(1, "s2", KEY_TWO, "k"),
                    ]),
                ),
                ("pr", text("lnbc10n1")),
                ("outputs", Json::Array(vec![message_json(1, KEY_TWO)])),
            ])),
        })
    );
}

#[test]
fn a_melt_without_outputs_has_no_such_member() {
    let request = HttpClient::new().post_melt_request(MINT, vec![], "lnbc10n1", None);
    assert_eq!(
        request.map(|request| request.body),
        Ok(Some(object(vec![("proofs", Json::Array(vec![])), ("pr", text("lnbc10n1"))])))
    );
}

#[test]
fn a_melt_with_no_outputs_at_all_still_has_the_member() {
    let request = HttpClient::new().post_melt_request(MINT, vec![], "lnbc10n1", Some(vec![]));
    assert_eq!(
        request.map(|request| request.body),
        Ok(Some(object(vec![
            ("proofs", Json::Array(vec![])),
            ("pr", text("lnbc10n1")),
            ("outputs", Json::Array(vec![])),
        ])))
    );
}

#[test]
fn a_split_is_posted_with_proofs_and_outputs() {
    let split = SplitRequest {
        proofs: vec![a_proof(8, "s", KEY_ONE, "k")],
        outputs: vec![message(4, KEY_ONE), message(4, KEY_TWO)],
    };
    assert_eq!(
        HttpClient::new().post_split_request(MINT, split),
        Ok(Request {
            method: Method::Post,
            url: "https://mint.example.com/split".to_string(),
            body: Some(object(vec![
                ("proofs", Json::Array(vec![proof_json(8, "s", KEY_ONE, "k")])),
                ("outputs", Json::Array(vec![message_json(4, KEY_ONE), message_json(4, KEY_TWO)])),
            ])),
        })
    );
}

#[test]
fn a_spendability_check_is_posted_with_the_proofs() {
    assert_eq!(
        HttpClient::new().post_check_spendable_request(MINT, vec![a_proof(2, "s", KEY_TWO, "k")]),
        Ok(Request {
            method: Method::Post,
            url: "https://mint.example.com/check".to_string(),
            body: Some(object(vec![(
                "proofs",
                Json::Array(vec![proof_json(2, "s", KEY_TWO, "k")]),
            )])),
        })
    );
}

#[test]
fn mint_info_is_requested_with_get() {
    assert_eq!(
        HttpClient::new().get_mint_info_request(MINT),
        Ok(Request {
            method: Method::Get,
            url: "https://mint.example.com/info".to_string(),
            body: None,
        })
    );
}

#[test]
fn the_segment_is_added_below_the_path_of_the_address() {
    let client = HttpClient::new();
    assert_eq!(
        client.get_mint_keys_request("https://mint.example.com/").map(|request| request.url),
        Ok("https://mint.example.com/keys".to_string())
    );
    assert_eq!(
        client.get_mint_keys_request("https://mint.example.com/cashu/api").map(|r| r.url),
        Ok("https://mint.example.com/cashu/api/keys".to_string())
    );
    assert_eq!(
        client.get_mint_keys_request("https://mint.example.com/cashu/api/").map(|r| r.url),
        Ok("https://mint.example.com/cashu/api/keys".to_string())
    );
    assert_eq!(
        client.get_request_mint_request("http://localhost:3338/v0", 21).map(|r| r.url),
        Ok("http://localhost:3338/v0/mint?amount=21".to_string())
    );
}

#[test]
fn an_address_that_is_no_url_is_a_transport_error() {
    let client = HttpClient::new();
    assert_eq!(client.get_mint_keys_request("not an address"), Err(no_address()));
    assert_eq!(client.get_mint_keys_request(""), Err(no_address()));
    assert_eq!(client.get_request_mint_request("mint.example.com/", 1), Err(no_address()));
    assert_eq!(client.post_check_fees_request("//mint", "lnbc1"), Err(no_address()));
}

#[test]
fn an_address_that_cannot_be_a_base_is_a_transport_error() {
    let client = HttpClient::new();
    assert_eq!(client.get_mint_info_request("mailto:mint@example.com"), Err(no_address()));
    assert_eq!(client.get_mint_keysets_request("data:text/plain,mint"), Err(no_address()));
}

#[test]
fn an_address_that_is_too_long_is_a_transport_error() {
    let long = format!("https://mint.example.com/{}", "a".repeat(MAX_TEXT));
    assert_eq!(HttpClient::new().get_mint_keys_request(&long), Err(no_address()));
    let fits = format!("https://mint.example.com/{}", "a".repeat(MAX_TEXT - 25));
    assert_eq!(fits.len(), MAX_TEXT);
    assert_eq!(
        HttpClient::new().get_mint_keys_request(&fits).map(|request| request.url.len()),
        Ok(MAX_TEXT + 5)
    );
}

#[test]
fn a_hash_that_is_too_long_is_a_transport_error() {
    let batch = BlindedMessages { id: String::new(), blinded_messages: vec![] };
    let hash = "h".repeat(MAX_TEXT + 1);
    assert_eq!(HttpClient::new().post_mint_request(MINT, batch, &hash), Err(no_address()));
}

#[test]
fn locate_adds_segment_and_query() {
    assert_eq!(locate(MINT, "keys", None), Some("https://mint.example.com/keys".to_string()));
    assert_eq!(
        locate("https://mint.example.com/?a=1#top", "mint", Some(("amount", "2"))),
        Some("https://mint.example.com/mint?a=1&amount=2#top".to_string())
    );
    assert_eq!(
        locate(MINT, "a/b c", None),
        Some("https://mint.example.com/a%2Fb%20c".to_string())
    );
    assert_eq!(locate("mint", "keys", None), None);
}

#[test]
fn assemble_follows_the_table_of_operations() {
    let table = [
        (Operation::GetKeys, Method::Get, "keys"),
        (Operation::GetKeysets, Method::Get, "keysets"),
        (Operation::RequestMint, Method::Get, "mint"),
        (Operation::PostMint, Method::Post, "mint"),
        (Operation::CheckFees, Method::Post, "checkfees"),
        (Operation::PostMelt, Method::Post, "melt"),
        (Operation::PostSplit, Method::Post, "split"),
        (Operation::CheckSpendable, Method::Post, "check"),
        (Operation::GetMintInfo, Method::Get, "info"),
    ];
    for (operation, method, segment) in table {
        assert_eq!(operation.method(), method);
        assert_eq!(operation.segment(), segment);
        assert_eq!(
            assemble(MINT, operation, None, None),
            Ok(Request { method, url: format!("https://mint.example.com/{}", segment), body: None })
        );
    }
}

#[test]
fn what_is_written_reads_as_the_same_json() {
    let written = write_blinded_message(&message(2, KEY_TWO));
    let parsed: serde_json::Value =
        serde_json::from_str(&format!("{{\"amount\":2,\"B_\":\"{}\"}}", KEY_TWO)).unwrap();
    assert_eq!(written.field("amount"), model(&parsed).field("amount"));
    assert_eq!(written.field("B_"), model(&parsed).field("B_"));
    let written = write_proof(&a_proof(1, "secret", KEY_ONE, "I2yN+iRYfkzT"));
    assert_eq!(written, proof_json(1, "secret", KEY_ONE, "I2yN+iRYfkzT"));
}

#[test]
fn a_request_without_an_address_is_a_transport_error() {
    assert_eq!(addressed(None, Operation::PostMelt, Some(Json::Null)), Err(no_address()));
    assert_eq!(
        addressed(Some("https://mint.example.com/melt".to_string()), Operation::PostMelt, None),
        Ok(Request {
            method: Method::Post,
            url: "https://mint.example.com/melt".to_string(),
            body: None,
        })
    );
}

#[test]
fn a_copy_of_a_request_is_the_same_request() {
    let split = SplitRequest {
        proofs: vec![a_proof(8, "s", KEY_ONE, "k")],
        outputs: vec![message(4, KEY_ONE), message(4, KEY_TWO)],
    };
    let request = HttpClient::new().post_split_request(MINT, split).unwrap();
    assert_eq!(request.clone(), request);
    let nested = Json::Array(vec![
        Json::Null,
        Json::Bool(true),
        Json::Literal("-1.5".to_string()),
        object(vec![("a", Json::Array(vec![Json::Number(1), text("b")]))]),
    ]);
    assert_eq!(nested.clone(), nested);
}
