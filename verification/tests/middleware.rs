use axum::http::{HeaderMap, HeaderValue};
use eywa_axum::middleware::{
    extract_correlation_id, extract_language, header_correlation_id, RequestContext, UserId,
};
use uuid::Uuid;

#[test]
fn test_extract_correlation_id_from_header() {
    let mut headers = HeaderMap::new();
    let uuid = Uuid::new_v4();
    headers.insert(
        "x-correlation-id",
        HeaderValue::from_str(&uuid.to_string()).unwrap(),
    );

    let result = extract_correlation_id(&headers);
    assert_eq!(Uuid::from_u128(result), uuid);
}

#[test]
fn test_extract_correlation_id_generate_new() {
    let headers = HeaderMap::new();

    let result = extract_correlation_id(&headers);
    // Should generate a valid UUID
    assert_eq!(
        Uuid::from_u128(result).get_version(),
        Some(uuid::Version::Random)
    );
}

#[test]
fn test_extract_language_from_header() {
    let mut headers = HeaderMap::new();
    headers.insert("accept-language", HeaderValue::from_static("it-IT"));

    let result = extract_language(&headers);
    assert_eq!(result, "it-IT");
}

#[test]
fn test_extract_language_default() {
    let headers = HeaderMap::new();

    let result = extract_language(&headers);
    assert_eq!(result, "en");
}

#[test]
fn test_request_context_default() {
    let ctx = RequestContext::default();
    assert_eq!(ctx.language, "en");
    assert!(ctx.user_id.is_none());
    assert_eq!(
        Uuid::from_u128(ctx.correlation_id).get_version().unwrap(),
        uuid::Version::Random
    );
}

fn id_of(text: &str) -> u128 {
    Uuid::parse_str(text).unwrap().as_u128()
}

#[test]
fn valid_correlation_header_is_used_verbatim() {
    let mut headers = HeaderMap::new();
    headers.insert(
        "x-correlation-id",
        HeaderValue::from_static("550e8400-e29b-41d4-a716-446655440000"),
    );
    let id = extract_correlation_id(&headers);
    assert_eq!(id, 0x550e8400_e29b_41d4_a716_446655440000u128);
    assert_eq!(header_correlation_id(&headers), Some(id));
}

#[test]
fn other_accepted_forms_name_the_same_identifier() {
    let expected = id_of("550e8400-e29b-41d4-a716-446655440000");
    for text in [
        "550e8400e29b41d4a716446655440000",
        "550E8400-E29B-41D4-A716-446655440000",
        "{550e8400-e29b-41d4-a716-446655440000}",
        "urn:uuid:550e8400-e29b-41d4-a716-446655440000",
    ] {
        let mut headers = HeaderMap::new();
        headers.insert("x-correlation-id", HeaderValue::from_str(text).unwrap());
        assert_eq!(extract_correlation_id(&headers), expected);
    }
}

#[test]
fn malformed_correlation_header_is_treated_as_absent() {
    for text in ["not-a-uuid", "", "550e8400-e29b-41d4-a716-44665544000", "550e8400-e29b-41d4-a716-44665544000g"] {
        let mut headers = HeaderMap::new();
        headers.insert("x-correlation-id", HeaderValue::from_str(text).unwrap());
        assert_eq!(header_correlation_id(&headers), None);
        let id = extract_correlation_id(&headers);
        assert_eq!(
            Uuid::from_u128(id).get_version(),
            Some(uuid::Version::Random)
        );
        assert_eq!(Uuid::from_u128(id).get_variant(), uuid::Variant::RFC4122);
    }
}

#[test]
fn correlation_header_that_is_not_text_is_treated_as_absent() {
    let mut headers = HeaderMap::new();
    headers.insert(
        "x-correlation-id",
        HeaderValue::from_bytes(b"550e8400-e29b-41d4-a716-44665544\xff000").unwrap(),
    );
    assert_eq!(header_correlation_id(&headers), None);
}

#[test]
fn generated_correlation_ids_differ_between_requests() {
    let headers = HeaderMap::new();
    let mut seen = Vec::new();
    for _ in 0..64 {
        let id = extract_correlation_id(&headers);
        assert!(!seen.contains(&id));
        seen.push(id);
    }
}

#[test]
fn first_of_several_header_values_is_read() {
    let mut headers = HeaderMap::new();
    headers.append("accept-language", HeaderValue::from_static("fr"));
    headers.append("accept-language", HeaderValue::from_static("de"));
    assert_eq!(extract_language(&headers), "fr");
}

#[test]
fn header_names_match_without_regard_to_case_of_the_request() {
    let mut headers = HeaderMap::new();
    headers.insert(
        axum::http::HeaderName::from_bytes(b"Accept-Language").unwrap(),
        HeaderValue::from_static("pt-BR"),
    );
    assert_eq!(extract_language(&headers), "pt-BR");
}

#[test]
fn language_is_taken_raw_without_normalisation() {
    let mut headers = HeaderMap::new();
    headers.insert(
        "accept-language",
        HeaderValue::from_static("it-IT,it;q=0.9, en;q=0.8"),
    );
    assert_eq!(extract_language(&headers), "it-IT,it;q=0.9, en;q=0.8");

    let mut empty = HeaderMap::new();
    empty.insert("accept-language", HeaderValue::from_static(""));
    assert_eq!(extract_language(&empty), "");
}

#[test]
fn language_in_another_script_is_taken_raw() {
    let mut headers = HeaderMap::new();
    headers.insert(
        "accept-language",
        HeaderValue::from_bytes("é-FR".as_bytes()).unwrap(),
    );
    assert_eq!(extract_language(&headers), "é-FR");

    let mut other = HeaderMap::new();
    other.insert(
        "accept-language",
        HeaderValue::from_bytes("日本語, en;q=0.5\ttab".as_bytes()).unwrap(),
    );
    assert_eq!(extract_language(&other), "日本語, en;q=0.5\ttab");
    let ctx = RequestContext::from_headers(&other);
    assert_eq!(ctx.language, "日本語, en;q=0.5\ttab");
}

#[test]
fn language_that_is_not_text_falls_back_to_default() {
    let mut headers = HeaderMap::new();
    headers.insert(
        "accept-language",
        HeaderValue::from_bytes(b"it-\xe9").unwrap(),
    );
    assert_eq!(extract_language(&headers), "en");
}

#[test]
fn assemble_takes_the_fresh_identifiers_it_is_given() {
    let headers = HeaderMap::new();
    let ctx = RequestContext::assemble(&headers, 11, 22);
    assert_eq!(ctx.correlation_id, 11);
    assert_eq!(ctx.request_id, 22);
    assert!(ctx.user_id.is_none());
    assert_eq!(ctx.language, "en");

    let mut with_id = HeaderMap::new();
    with_id.insert(
        "x-correlation-id",
        HeaderValue::from_static("00000000-0000-0000-0000-00000000002a"),
    );
    with_id.insert("accept-language", HeaderValue::from_static("it-IT"));
    let ctx = RequestContext::assemble(&with_id, 11, 22);
    assert_eq!(ctx.correlation_id, 42);
    assert_eq!(ctx.request_id, 22);
    assert_eq!(ctx.language, "it-IT");
}

#[test]
fn request_id_is_fresh_and_independent_of_the_correlation_id() {
    let mut headers = HeaderMap::new();
    headers.insert(
        "x-correlation-id",
        HeaderValue::from_static("550e8400-e29b-41d4-a716-446655440000"),
    );
    let first = RequestContext::from_headers(&headers);
    let second = RequestContext::from_headers(&headers);
    assert_eq!(first.correlation_id, second.correlation_id);
    assert_ne!(first.request_id, second.request_id);
    assert_ne!(first.request_id, first.correlation_id);
    assert_eq!(
        Uuid::from_u128(first.request_id).get_version(),
        Some(uuid::Version::Random)
    );
    assert!(first.user_id.is_none());
}

#[test]
fn canonical_text_of_an_identifier() {
    let ctx = RequestContext::assemble(
        &HeaderMap::new(),
        0x0123_4567_89ab_cdef_0123_4567_89ab_cdefu128,
        0,
    );
    assert_eq!(ctx.correlation_text(), "01234567-89ab-cdef-0123-456789abcdef");
    let zero = RequestContext::assemble(&HeaderMap::new(), 0, 0);
    assert_eq!(zero.correlation_text(), "00000000-0000-0000-0000-000000000000");
    let ones = RequestContext::assemble(&HeaderMap::new(), u128::MAX, 0);
    assert_eq!(ones.correlation_text(), "ffffffff-ffff-ffff-ffff-ffffffffffff");
}

#[test]
fn echo_returns_the_canonical_header_verbatim() {
    let text = "550e8400-e29b-41d4-a716-446655440000";
    let mut request = HeaderMap::new();
    request.insert("x-correlation-id", HeaderValue::from_static(text));
    let ctx = RequestContext::from_headers(&request);

    let mut response = HeaderMap::new();
    response.insert("content-type", HeaderValue::from_static("application/json"));
    assert!(ctx.echo(&request, &mut response));
    assert_eq!(response.get("x-correlation-id").unwrap(), text);
    assert_eq!(response.get("content-type").unwrap(), "application/json");
    assert_eq!(response.len(), 2);
}

#[test]
fn echo_of_a_generated_canonical_text_is_byte_for_byte_the_request_header() {
    let uuid = Uuid::new_v4();
    let mut request = HeaderMap::new();
    request.insert(
        "x-correlation-id",
        HeaderValue::from_str(&uuid.to_string()).unwrap(),
    );
    let ctx = RequestContext::from_headers(&request);
    assert_eq!(Uuid::from_u128(ctx.correlation_id), uuid);
    let mut response = HeaderMap::new();
    assert!(ctx.echo(&request, &mut response));
    assert_eq!(
        response.get("x-correlation-id").unwrap().as_bytes(),
        uuid.to_string().as_bytes()
    );
}

#[test]
fn echo_of_every_accepted_form_is_the_input_verbatim() {
    let expected = id_of("550e8400-e29b-41d4-a716-446655440000");
    for text in [
        "550E8400-E29B-41D4-A716-446655440000",
        "550e8400e29b41d4a716446655440000",
        "550E8400E29B41D4A716446655440000",
        "{550e8400-e29b-41d4-a716-446655440000}",
        "urn:uuid:550e8400-e29b-41d4-a716-446655440000",
        "URN:UUID:550e8400-E29B-41d4-a716-446655440000",
    ] {
        let mut request = HeaderMap::new();
        request.insert("x-correlation-id", HeaderValue::from_str(text).unwrap());
        let ctx = RequestContext::from_headers(&request);
        assert_eq!(ctx.correlation_id, expected);
        let mut response = HeaderMap::new();
        assert!(ctx.echo(&request, &mut response));
        let echoed = response.get("x-correlation-id").unwrap();
        assert_eq!(echoed, text);
        assert_eq!(id_of(echoed.to_str().unwrap()), expected);
    }
}

#[test]
fn echo_replaces_what_downstream_put_there() {
    let ctx = RequestContext::assemble(&HeaderMap::new(), 42, 7);
    let mut response = HeaderMap::new();
    response.append("x-correlation-id", HeaderValue::from_static("stale"));
    response.append("x-correlation-id", HeaderValue::from_static("staler"));
    response.append("set-cookie", HeaderValue::from_static("a=1"));
    response.append("set-cookie", HeaderValue::from_static("b=2"));
    assert!(ctx.echo(&HeaderMap::new(), &mut response));
    let values: Vec<_> = response.get_all("x-correlation-id").iter().collect();
    assert_eq!(values.len(), 1);
    assert_eq!(values[0], "00000000-0000-0000-0000-00000000002a");
    let cookies: Vec<_> = response.get_all("set-cookie").iter().collect();
    assert_eq!(cookies, vec!["a=1", "b=2"]);
    assert_eq!(response.len(), 3);
}

#[test]
fn echo_of_a_generated_identifier_parses_back() {
    let request = HeaderMap::new();
    let ctx = RequestContext::from_headers(&request);
    let mut response = HeaderMap::new();
    assert!(ctx.echo(&request, &mut response));
    let echoed = response.get("x-correlation-id").unwrap().to_str().unwrap();
    assert_eq!(echoed.len(), 36);
    assert_eq!(id_of(echoed), ctx.correlation_id);
    assert_eq!(echoed, ctx.correlation_text());
    assert_eq!(
        Uuid::parse_str(echoed).unwrap().get_version(),
        Some(uuid::Version::Random)
    );
    assert_eq!(
        ctx.correlation_header_value().as_bytes(),
        ctx.correlation_text().as_bytes()
    );
}

#[test]
fn echo_after_a_malformed_header_is_the_fresh_identifier_not_the_input() {
    for text in ["not-a-uuid", "", "550e8400-e29b-41d4-a716-44665544000"] {
        let mut request = HeaderMap::new();
        request.insert("x-correlation-id", HeaderValue::from_str(text).unwrap());
        let ctx = RequestContext::from_headers(&request);
        let mut response = HeaderMap::new();
        assert!(ctx.echo(&request, &mut response));
        let echoed = response.get("x-correlation-id").unwrap().to_str().unwrap();
        assert_ne!(echoed, text);
        assert_eq!(echoed, ctx.correlation_text());
        assert_eq!(
            Uuid::parse_str(echoed).unwrap().get_version(),
            Some(uuid::Version::Random)
        );
    }
    let mut request = HeaderMap::new();
    request.insert(
        "x-correlation-id",
        HeaderValue::from_bytes(b"550e8400-e29b-41d4-a716-44665544\xff000").unwrap(),
    );
    let ctx = RequestContext::from_headers(&request);
    let mut response = HeaderMap::new();
    assert!(ctx.echo(&request, &mut response));
    assert_eq!(
        response.get("x-correlation-id").unwrap(),
        ctx.correlation_text().as_str()
    );
}

#[test]
fn echoes_of_two_requests_without_header_differ() {
    let request = HeaderMap::new();
    let first = RequestContext::from_headers(&request);
    let second = RequestContext::from_headers(&request);
    let mut one = HeaderMap::new();
    let mut other = HeaderMap::new();
    assert!(first.echo(&request, &mut one));
    assert!(second.echo(&request, &mut other));
    assert_ne!(
        one.get("x-correlation-id").unwrap(),
        other.get("x-correlation-id").unwrap()
    );
}

fn map_with_names(count: usize) -> HeaderMap {
    let mut map = HeaderMap::new();
    for i in 0..count {
        let name = axum::http::HeaderName::from_bytes(format!("h{}", i).as_bytes()).unwrap();
        assert!(map.try_insert(name, HeaderValue::from_static("v")).is_ok());
    }
    map
}

#[test]
fn response_with_room_always_gets_the_header() {
    let ctx = RequestContext::assemble(&HeaderMap::new(), 42, 7);
    for count in [0usize, 1, 7, 100, 6553] {
        let mut response = map_with_names(count);
        assert!(ctx.echo(&HeaderMap::new(), &mut response));
        assert_eq!(response.keys_len(), count + 1);
        assert_eq!(
            response.get("x-correlation-id").unwrap(),
            "00000000-0000-0000-0000-00000000002a"
        );
        assert_eq!(response.get("h0").is_some(), count > 0);
    }
}

#[test]
fn full_map_refuses_the_header_and_stays_as_it_was() {
    let mut response = HeaderMap::new();
    let mut count = 0usize;
    loop {
        let name =
            axum::http::HeaderName::from_bytes(format!("h{}", count).as_bytes()).unwrap();
        if response.try_insert(name, HeaderValue::from_static("v")).is_err() {
            break;
        }
        count += 1;
        assert!(count <= 32768);
    }
    assert!(count >= 6554);
    let ctx = RequestContext::assemble(&HeaderMap::new(), 42, 7);
    assert!(!ctx.echo(&HeaderMap::new(), &mut response));
    assert_eq!(response.keys_len(), count);
    assert_eq!(response.len(), count);
    assert!(response.get("x-correlation-id").is_none());
    assert_eq!(response.get("h0").unwrap(), "v");
}

#[test]
fn user_id_is_set_in_place_by_a_later_stage() {
    let mut ctx = RequestContext::assemble(&HeaderMap::new(), 1, 2);
    ctx.set_user_id(UserId(99));
    assert_eq!(ctx.user_id.map(|user| user.0), Some(99));
    assert_eq!(ctx.correlation_id, 1);
    assert_eq!(ctx.request_id, 2);
    assert_eq!(ctx.language, "en");
}
