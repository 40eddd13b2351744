use huali_mascot::callback_diagnostics::desktop_auth_callback_diagnostics;
use huali_mascot::auth_callback::{
    desktop_auth_callback_has_value, desktop_auth_callback_query_value,
    find_desktop_auth_callback, is_http_url, normalize_desktop_auth_callback_argument,
    renderer_receipt_accepted, valid_release_smoke_value, PendingDesktopAuthCallback,
};

#[test]
fn callback_argument_accepts_windows_quotes_whitespace_and_case() {
    let args = vec![
        "HualiAIDesktopAssistant.exe".to_owned(),
        "  \"HUALI-AI-MASCOT://AUTH-CALLBACK?state=one&token=two&userId=three\"  ".to_owned(),
    ];

    assert_eq!(
        find_desktop_auth_callback(&args).as_deref(),
        Some("HUALI-AI-MASCOT://AUTH-CALLBACK?state=one&token=two&userId=three")
    );
}

#[test]
fn unrelated_second_launch_does_not_overwrite_a_pending_callback() {
    let mut pending = PendingDesktopAuthCallback::default();
    let callback = vec![
        "HualiAIDesktopAssistant.exe".to_owned(),
        "huali-ai-mascot://auth-callback?state=one&token=two&userId=three".to_owned(),
    ];
    let unrelated = vec![
        "HualiAIDesktopAssistant.exe".to_owned(),
        "--show".to_owned(),
    ];

    assert!(pending.capture(&callback).is_some());
    assert!(pending.capture(&unrelated).is_none());
    let captured = pending
        .take()
        .expect("pending callback should be preserved");
    assert_eq!(captured.callback_url, callback.get(1).cloned());
    assert_eq!(captured.argument_count, 2);
}

#[test]
fn distinct_callbacks_are_delivered_in_order_instead_of_overwriting_each_other() {
    let mut pending = PendingDesktopAuthCallback::default();
    let first = vec![
        "HualiAIDesktopAssistant.exe".to_owned(),
        "huali-ai-mascot://auth-callback?state=old&token=one&userId=user".to_owned(),
    ];
    let second = vec![
        "HualiAIDesktopAssistant.exe".to_owned(),
        "huali-ai-mascot://auth-callback?state=current&token=two&userId=user".to_owned(),
    ];

    pending.capture(&first);
    pending.capture(&second);

    assert_eq!(
        pending.take().and_then(|item| item.callback_url),
        first.get(1).cloned()
    );
    assert_eq!(
        pending.take().and_then(|item| item.callback_url),
        second.get(1).cloned()
    );
    assert!(pending.take().is_none());
}

#[test]
fn repeated_callback_is_queued_once_and_queue_keeps_the_newest_eight() {
    let mut pending = PendingDesktopAuthCallback::default();
    let url = |n: u32| format!("huali-ai-mascot://auth-callback?state={n}");
    let args = |n: u32| vec!["app.exe".to_owned(), url(n)];
    pending.capture(&args(0));
    pending.capture(&args(0));
    assert_eq!(pending.pending.len(), 1);
    for n in 1..10 {
        pending.capture(&args(n));
    }
    assert_eq!(pending.pending.len(), 8);
    for n in 2..10 {
        assert_eq!(pending.take().and_then(|item| item.callback_url), Some(url(n)));
    }
    assert!(pending.take().is_none());
}

#[test]
fn normalization_rejects_other_schemes_and_short_arguments() {
    assert_eq!(normalize_desktop_auth_callback_argument("--show"), None);
    assert_eq!(normalize_desktop_auth_callback_argument("huali-ai-mascot://auth"), None);
    assert_eq!(normalize_desktop_auth_callback_argument(""), None);
    assert_eq!(normalize_desktop_auth_callback_argument("\"\"\"  "), None);
    assert_eq!(
        normalize_desktop_auth_callback_argument("huali-ai-mascöt://auth-callback?x=1"),
        None
    );
    assert_eq!(
        normalize_desktop_auth_callback_argument("\u{3000}\"\"huali-ai-mascot://auth-callback\"\t\n"),
        Some("huali-ai-mascot://auth-callback".to_owned())
    );
    assert_eq!(
        normalize_desktop_auth_callback_argument(" \" huali-ai-mascot://auth-callback.extra \" "),
        Some("huali-ai-mascot://auth-callback.extra".to_owned())
    );
    let args = vec!["a".to_owned(), "b".to_owned()];
    assert_eq!(find_desktop_auth_callback(&args), None);
    assert_eq!(find_desktop_auth_callback(&[]), None);
}

#[test]
fn query_values_are_taken_raw_from_the_first_matching_pair() {
    let url = "huali-ai-mascot://auth-callback.extra?state=complete-state&token=complete-token&userId=employee-10002#frag&x=1";
    assert_eq!(desktop_auth_callback_query_value(url, "state"), Some("complete-state"));
    assert_eq!(desktop_auth_callback_query_value(url, "token"), Some("complete-token"));
    assert_eq!(desktop_auth_callback_query_value(url, "userId"), Some("employee-10002"));
    assert_eq!(desktop_auth_callback_query_value(url, "x"), None);
    assert_eq!(desktop_auth_callback_query_value(url, "userName"), None);
    let odd = "scheme://a?flag&name=&name=second&a=b=c&&last=";
    assert_eq!(desktop_auth_callback_query_value(odd, "flag"), None);
    assert_eq!(desktop_auth_callback_query_value(odd, "name"), Some(""));
    assert_eq!(desktop_auth_callback_query_value(odd, "a"), Some("b=c"));
    assert_eq!(desktop_auth_callback_query_value(odd, "last"), Some(""));
    assert_eq!(desktop_auth_callback_query_value("no-query", "a"), None);
    assert!(desktop_auth_callback_has_value(url, "state"));
    assert!(!desktop_auth_callback_has_value(odd, "name"));
    assert!(!desktop_auth_callback_has_value(odd, "missing"));
}

#[test]
fn release_smoke_values_are_short_ascii_tokens() {
    assert!(valid_release_smoke_value("nonce-123-ABC"));
    assert!(valid_release_smoke_value(&"a".repeat(64)));
    assert!(!valid_release_smoke_value(&"a".repeat(65)));
    assert!(!valid_release_smoke_value(""));
    assert!(!valid_release_smoke_value("with space"));
    assert!(!valid_release_smoke_value("ünicode"));
    assert!(!valid_release_smoke_value("under_score"));
}

#[test]
fn only_http_and_https_urls_are_opened() {
    assert!(is_http_url("http://example.com"));
    assert!(is_http_url("https://example.com/workbench"));
    assert!(is_http_url("http://"));
    assert!(!is_http_url("HTTP://example.com"));
    assert!(!is_http_url("ftp://example.com"));
    assert!(!is_http_url("https:/"));
    assert!(!is_http_url(""));
}

#[test]
fn renderer_receipts_need_a_callback_and_a_known_outcome() {
    let callback = "huali-ai-mascot://auth-callback?state=one&token=two";
    assert!(renderer_receipt_accepted(callback, "success"));
    assert!(renderer_receipt_accepted(callback, "error:expired"));
    assert!(renderer_receipt_accepted(callback, "error:missing-identity"));
    assert!(renderer_receipt_accepted(" \"HUALI-AI-MASCOT://AUTH-CALLBACK\" ", "success"));
    assert!(!renderer_receipt_accepted(callback, "Success"));
    assert!(!renderer_receipt_accepted(callback, "error"));
    assert!(!renderer_receipt_accepted(callback, ""));
    assert!(!renderer_receipt_accepted("https://example.com/auth-callback", "success"));
    assert!(!renderer_receipt_accepted("", "success"));
}

#[test]
fn native_callback_diagnostics_preserve_the_prefix_remainder_and_raw_values() {
    let callback_url = "huali-ai-mascot://auth-callback.extra?state=complete-state&token=complete-token&userId=employee-10002";
    let diagnostics = desktop_auth_callback_diagnostics(callback_url);

    assert_eq!(diagnostics.callback_url, callback_url);
    assert_eq!(diagnostics.length, callback_url.chars().count());
    assert!(diagnostics.prefix_matches);
    assert_eq!(diagnostics.prefix_boundary, ".");
    assert_eq!(diagnostics.prefix_remainder_before_query, ".extra");
    assert_eq!(
        desktop_auth_callback_query_value(callback_url, "state"),
        Some("complete-state")
    );
    assert_eq!(
        desktop_auth_callback_query_value(callback_url, "token"),
        Some("complete-token")
    );
    assert_eq!(
        desktop_auth_callback_query_value(callback_url, "userId"),
        Some("employee-10002")
    );
}

#[test]
fn callback_diagnostics_split_query_and_fragment_and_hex_encode_the_bytes() {
    let diagnostics = desktop_auth_callback_diagnostics("HUALI-AI-MASCOT://AUTH-CALLBACK?a=1#frag?x");
    assert!(diagnostics.prefix_matches);
    assert_eq!(diagnostics.before_query, "HUALI-AI-MASCOT://AUTH-CALLBACK");
    assert_eq!(diagnostics.raw_query, "a=1");
    assert_eq!(diagnostics.fragment, "frag?x");
    assert_eq!(diagnostics.prefix_boundary, "?");
    assert_eq!(diagnostics.prefix_remainder_before_query, "");

    // A '?' inside the fragment does not start a query.
    let diagnostics = desktop_auth_callback_diagnostics("x#y?z");
    assert_eq!(diagnostics.before_query, "x");
    assert_eq!(diagnostics.raw_query, "");
    assert_eq!(diagnostics.fragment, "y?z");
    assert!(!diagnostics.prefix_matches);
    assert_eq!(diagnostics.prefix_boundary, "");

    let diagnostics = desktop_auth_callback_diagnostics("Aé\n");
    assert_eq!(diagnostics.utf8_hex, "41c3a90a");
    assert_eq!(diagnostics.length, 3);
}

#[test]
fn callback_diagnostics_follow_byte_offsets_after_the_prefix() {
    // 30 two-byte characters: byte 31 falls inside a character.
    let odd: String = "é".repeat(30);
    let diagnostics = desktop_auth_callback_diagnostics(&odd);
    assert!(!diagnostics.prefix_matches);
    assert_eq!(diagnostics.prefix_boundary, "");
    assert_eq!(diagnostics.prefix_remainder_before_query, "");

    // 31 one-byte characters then a multi-byte one: the boundary is that character.
    let url = format!("{}é?q=1", "x".repeat(31));
    let diagnostics = desktop_auth_callback_diagnostics(&url);
    assert_eq!(diagnostics.prefix_boundary, "é");
    assert_eq!(diagnostics.prefix_remainder_before_query, "é");
}
