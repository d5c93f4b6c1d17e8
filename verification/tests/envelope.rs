use solana_api::envelope::ApiResponse;

#[test]
fn ok_wraps_the_payload() {
    let r = ApiResponse::ok(7u32);
    assert!(r.success);
    assert_eq!(r.data, Some(7u32));
    assert_eq!(r.error, None);
}

#[test]
fn ok_keeps_a_text_payload() {
    let r = ApiResponse::ok(String::from("payload"));
    assert!(r.success);
    assert_eq!(r.data.as_deref(), Some("payload"));
    assert!(r.error.is_none());
}

#[test]
fn err_carries_the_message() {
    let r: ApiResponse<u32> = ApiResponse::err("Invalid mint pubkey");
    assert!(!r.success);
    assert_eq!(r.data, None);
    assert_eq!(r.error.as_deref(), Some("Invalid mint pubkey"));
}

#[test]
fn err_with_an_empty_message() {
    let r: ApiResponse<()> = ApiResponse::err("");
    assert!(!r.success);
    assert!(r.data.is_none());
    assert_eq!(r.error.as_deref(), Some(""));
}

#[test]
fn err_keeps_text_beyond_ascii() {
    let r: ApiResponse<()> = ApiResponse::err("clé invalide ✗");
    assert_eq!(r.error.as_deref(), Some("clé invalide ✗"));
}
