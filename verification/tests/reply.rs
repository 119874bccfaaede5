use wallet_balance::reply::{
    balance_in, read_balance, read_document, settle, Balance, FetchError, Reply,
};

fn document(text: &str) -> serde_json::Value {
    serde_json::from_str(text).unwrap()
}

fn body(text: &str) -> Reply {
    Reply::Body(text.as_bytes().to_vec())
}

fn no_balance(wallet: &str) -> Result<Balance, FetchError> {
    Err(FetchError::NoBalance {
        wallet: String::from(wallet),
    })
}

fn not_json(wallet: &str) -> Result<Balance, FetchError> {
    Err(FetchError::NotJson {
        wallet: String::from(wallet),
    })
}

#[test]
fn balance_is_found_under_result_value() {
    assert_eq!(balance_in(&document(r#"{"result":{"value":100}}"#)), Some(100));
}

#[test]
fn other_members_of_the_envelope_are_ignored() {
    let doc = document(
        r#"{"jsonrpc":"2.0","result":{"context":{"slot":341197053},"value":2039280},"id":1}"#,
    );
    assert_eq!(balance_in(&doc), Some(2_039_280));
}

#[test]
fn zero_and_the_largest_balance_are_found() {
    assert_eq!(balance_in(&document(r#"{"result":{"value":0}}"#)), Some(0));
    assert_eq!(
        balance_in(&document(r#"{"result":{"value":18446744073709551615}}"#)),
        Some(u64::MAX)
    );
}

#[test]
fn missing_result_is_no_balance() {
    assert_eq!(balance_in(&document(r#"{"id":1}"#)), None);
    assert_eq!(balance_in(&document(r#"{}"#)), None);
    assert_eq!(
        balance_in(&document(r#"{"error":{"code":-32602,"message":"Invalid param"}}"#)),
        None
    );
}

#[test]
fn missing_value_is_no_balance() {
    assert_eq!(balance_in(&document(r#"{"result":{}}"#)), None);
    assert_eq!(balance_in(&document(r#"{"result":{"context":{"slot":1}}}"#)), None);
}

#[test]
fn value_outside_result_is_no_balance() {
    assert_eq!(balance_in(&document(r#"{"value":5}"#)), None);
    assert_eq!(balance_in(&document(r#"{"result":{"inner":{"value":5}}}"#)), None);
}

#[test]
fn result_that_is_no_object_is_no_balance() {
    assert_eq!(balance_in(&document(r#"{"result":7}"#)), None);
    assert_eq!(balance_in(&document(r#"{"result":null}"#)), None);
    assert_eq!(balance_in(&document(r#"{"result":[{"value":5}]}"#)), None);
    assert_eq!(balance_in(&document(r#"{"result":"value"}"#)), None);
}

#[test]
fn document_that_is_no_object_is_no_balance() {
    assert_eq!(balance_in(&document("5")), None);
    assert_eq!(balance_in(&document("null")), None);
    assert_eq!(balance_in(&document(r#"[{"result":{"value":5}}]"#)), None);
}

#[test]
fn negative_value_is_no_balance() {
    assert_eq!(balance_in(&document(r#"{"result":{"value":-1}}"#)), None);
    assert_eq!(balance_in(&document(r#"{"result":{"value":-100}}"#)), None);
}

#[test]
fn value_that_is_no_integer_is_no_balance() {
    assert_eq!(balance_in(&document(r#"{"result":{"value":1.5}}"#)), None);
    assert_eq!(balance_in(&document(r#"{"result":{"value":100.0}}"#)), None);
    assert_eq!(balance_in(&document(r#"{"result":{"value":1e3}}"#)), None);
    assert_eq!(balance_in(&document(r#"{"result":{"value":"100"}}"#)), None);
    assert_eq!(balance_in(&document(r#"{"result":{"value":true}}"#)), None);
    assert_eq!(balance_in(&document(r#"{"result":{"value":null}}"#)), None);
    assert_eq!(balance_in(&document(r#"{"result":{"value":[100]}}"#)), None);
    assert_eq!(balance_in(&document(r#"{"result":{"value":{"value":100}}}"#)), None);
}

#[test]
fn value_beyond_the_unsigned_range_is_no_balance() {
    assert_eq!(
        balance_in(&document(r#"{"result":{"value":18446744073709551616}}"#)),
        None
    );
}

#[test]
fn keys_are_matched_exactly() {
    assert_eq!(balance_in(&document(r#"{"Result":{"value":5}}"#)), None);
    assert_eq!(balance_in(&document(r#"{"result":{"Value":5}}"#)), None);
    assert_eq!(balance_in(&document(r#"{"result ":{"value":5}}"#)), None);
}

#[test]
fn settle_keeps_the_wallet_and_the_amount() {
    assert_eq!(
        settle("A", Some(100)),
        Ok(Balance {
            wallet: String::from("A"),
            lamports: 100,
        })
    );
    assert_eq!(
        settle("A", Some(0)),
        Ok(Balance {
            wallet: String::from("A"),
            lamports: 0,
        })
    );
}

#[test]
fn settle_without_an_amount_names_the_wallet() {
    assert_eq!(settle("A", None), no_balance("A"));
}

#[test]
fn valid_body_gives_the_balance() {
    assert_eq!(
        read_balance("A", &body(r#"{"jsonrpc":"2.0","result":{"value":100},"id":1}"#)),
        Ok(Balance {
            wallet: String::from("A"),
            lamports: 100,
        })
    );
}

#[test]
fn whitespace_around_the_document_is_accepted() {
    assert_eq!(
        read_balance("A", &body("  \n{ \"result\" : { \"value\" : 7 } }\n")),
        Ok(Balance {
            wallet: String::from("A"),
            lamports: 7,
        })
    );
}

#[test]
fn body_without_the_balance_is_a_failure_for_that_wallet() {
    assert_eq!(read_balance("X", &body(r#"{"result":{}}"#)), no_balance("X"));
    assert_eq!(read_balance("X", &body(r#"{"id":1}"#)), no_balance("X"));
}

#[test]
fn negative_or_non_numeric_balance_is_a_failure_not_a_crash() {
    assert_eq!(read_balance("X", &body(r#"{"result":{"value":-5}}"#)), no_balance("X"));
    assert_eq!(read_balance("X", &body(r#"{"result":{"value":"abc"}}"#)), no_balance("X"));
    assert_eq!(read_balance("X", &body(r#"{"result":{"value":2.5}}"#)), no_balance("X"));
    assert_eq!(read_balance("X", &body(r#"{"result":{"value":null}}"#)), no_balance("X"));
}

#[test]
fn body_that_is_not_json_is_a_failure_for_that_wallet() {
    assert_eq!(read_balance("X", &body("<html>busy</html>")), not_json("X"));
    assert_eq!(read_balance("X", &body("")), not_json("X"));
    assert_eq!(read_balance("X", &body(r#"{"result":{"value":1}"#)), not_json("X"));
    assert_eq!(read_balance("X", &Reply::Body(vec![0xff, 0xfe, 0x00])), not_json("X"));
}

#[test]
fn anything_after_the_document_makes_it_not_json() {
    assert_eq!(
        read_balance("X", &body(r#"{"result":{"value":1}} {"result":{"value":2}}"#)),
        not_json("X")
    );
}

#[test]
fn last_of_repeated_keys_counts() {
    assert_eq!(
        read_balance("A", &body(r#"{"result":{"value":1},"result":{"value":2}}"#)),
        Ok(Balance {
            wallet: String::from("A"),
            lamports: 2,
        })
    );
}

#[test]
fn failed_exchange_keeps_the_reason_and_the_wallet() {
    assert_eq!(
        read_balance("X", &Reply::Failed(String::from("connection refused"))),
        Err(FetchError::Transport {
            wallet: String::from("X"),
            reason: String::from("connection refused"),
        })
    );
}

#[test]
fn same_reply_reads_the_same_for_any_wallet() {
    let reply = body(r#"{"result":{"value":9}}"#);
    assert_eq!(
        read_balance("A", &reply),
        Ok(Balance {
            wallet: String::from("A"),
            lamports: 9,
        })
    );
    assert_eq!(
        read_balance("B", &reply),
        Ok(Balance {
            wallet: String::from("B"),
            lamports: 9,
        })
    );
}

#[test]
fn messages_name_the_wallet() {
    let transport = FetchError::Transport {
        wallet: String::from("X"),
        reason: String::from("timed out"),
    };
    assert_eq!(transport.message(), "Request failed for X: timed out");
    let not_json = FetchError::NotJson {
        wallet: String::from("X"),
    };
    assert_eq!(not_json.message(), "Failed to decode response for X");
    let no_balance = FetchError::NoBalance {
        wallet: String::from("X"),
    };
    assert_eq!(no_balance.message(), "Failed to parse balance for X");
}

#[test]
fn read_document_gives_the_balance_of_a_document_that_has_one() {
    assert_eq!(
        read_document("A", serde_json::from_str(r#"{"result":{"value":12}}"#)),
        Ok(Balance {
            wallet: String::from("A"),
            lamports: 12,
        })
    );
}

#[test]
fn read_document_tells_a_failed_reading_from_a_missing_balance() {
    assert_eq!(read_document("X", serde_json::from_str("{")), not_json("X"));
    assert_eq!(read_document("X", serde_json::from_str("{}")), no_balance("X"));
    assert_eq!(
        read_document("X", serde_json::from_slice(b"{\"result\":{\"value\":-1}}")),
        no_balance("X")
    );
}
