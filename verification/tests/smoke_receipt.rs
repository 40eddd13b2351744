use huali_mascot::smoke_receipt::{auth_smoke_receipt_fields, merge_smoke_receipt, ReceiptValue};

fn keys(fields: &[(String, ReceiptValue)]) -> Vec<&str> {
    fields.iter().map(|(key, _)| key.as_str()).collect()
}

fn parsed(bytes: &[u8]) -> serde_json::Value {
    serde_json::from_slice(bytes).expect("receipt is JSON")
}

const CALLBACK: &str =
    "huali-ai-mascot://auth-callback?state=s1&token=secret-token&userId=&smokeNonce=n-1";

#[test]
fn callback_receipt_records_presence_flags_only() {
    let fields = auth_smoke_receipt_fields(CALLBACK, None, None);
    assert_eq!(
        keys(&fields),
        vec!["callbackReceived", "hasState", "hasToken", "hasUserId"]
    );
    assert!(matches!(fields[0].1, ReceiptValue::Flag(true)));
    assert!(matches!(fields[1].1, ReceiptValue::Flag(true)));
    assert!(matches!(fields[2].1, ReceiptValue::Flag(true)));
    // An empty user id counts as absent.
    assert!(matches!(fields[3].1, ReceiptValue::Flag(false)));
}

#[test]
fn forwarding_is_recorded_only_when_it_happened() {
    assert_eq!(auth_smoke_receipt_fields(CALLBACK, Some(false), None).len(), 4);
    let fields = auth_smoke_receipt_fields(CALLBACK, Some(true), None);
    assert_eq!(fields[4].0, "forwardedToRunningInstance");
    assert!(matches!(fields[4].1, ReceiptValue::Flag(true)));
}

#[test]
fn renderer_outcome_is_recorded_with_its_receipt_flag() {
    let fields = auth_smoke_receipt_fields(CALLBACK, None, Some("error:expired"));
    assert_eq!(
        keys(&fields),
        vec![
            "callbackReceived",
            "hasState",
            "hasToken",
            "hasUserId",
            "rendererReceived",
            "rendererOutcome"
        ]
    );
    assert!(matches!(&fields[5].1, ReceiptValue::Text(outcome) if outcome == "error:expired"));
}

#[test]
fn merging_keeps_other_keys_and_replaces_recorded_ones() {
    let existing = br#"{"sessionCommitted":true,"hasToken":false,"extra":[1,2]}"#;
    let fields = auth_smoke_receipt_fields(CALLBACK, Some(true), Some("success"));
    let merged = merge_smoke_receipt(existing, &fields);
    let receipt = parsed(&merged);
    assert_eq!(receipt["sessionCommitted"], true);
    assert_eq!(receipt["extra"], parsed(b"[1,2]"));
    assert_eq!(receipt["hasToken"], true);
    assert_eq!(receipt["hasUserId"], false);
    assert_eq!(receipt["forwardedToRunningInstance"], true);
    assert_eq!(receipt["rendererOutcome"], "success");
    let text = String::from_utf8(merged).expect("UTF-8");
    assert!(!text.contains("secret-token"));
    assert!(!text.contains("s1"));
}

#[test]
fn unreadable_or_non_object_receipts_start_over() {
    let fields = vec![
        ("reminderTypesQueued".to_owned(), ReceiptValue::Count(3)),
        ("sessionRestoredAfterRestart".to_owned(), ReceiptValue::Flag(false)),
    ];
    for existing in [&b""[..], &b"not json"[..], &b"[1,2,3]"[..]] {
        let merged = merge_smoke_receipt(existing, &fields);
        let receipt = parsed(&merged);
        let object = receipt.as_object().expect("object");
        assert_eq!(object.len(), 2);
        assert_eq!(receipt["reminderTypesQueued"], 3);
        assert_eq!(receipt["sessionRestoredAfterRestart"], false);
    }
}

#[test]
fn a_later_field_replaces_an_earlier_one() {
    let fields = vec![
        ("notificationCompact".to_owned(), ReceiptValue::Flag(true)),
        ("notificationCompact".to_owned(), ReceiptValue::Flag(false)),
    ];
    let merged = merge_smoke_receipt(b"{}", &fields);
    assert_eq!(parsed(&merged)["notificationCompact"], false);
}
