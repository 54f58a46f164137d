use rustfm_scrobble::http::{
    append_decimal, HttpMethod, HttpRequest, HttpResponse, QueryString, Transfer,
};

fn request(method: HttpMethod, query: Option<&str>, body: Option<&str>) -> HttpRequest {
    HttpRequest {
        url: "https://example.org/2.0/".to_string(),
        query: query.map(|text| text.to_string()),
        body: body.map(|text| text.to_string()),
        method,
    }
}

fn decimal(n: i64) -> String {
    let mut text = String::new();
    append_decimal(&mut text, n);
    text
}

#[test]
fn query_string_starts_empty() {
    assert_eq!(QueryString::new().build(), "");
}

#[test]
fn query_string_joins_in_key_order() {
    let mut query = QueryString::new();
    query.add("track", "A");
    query.add("artist", "B");
    query.add("timestamp", 100);
    assert_eq!(query.build(), "artist=B&timestamp=100&track=A");
}

#[test]
fn query_string_of_one_parameter_has_no_separator() {
    let mut query = QueryString::new();
    query.add("a", "1");
    assert_eq!(query.build(), "a=1");
}

#[test]
fn query_string_add_replaces_a_value() {
    let mut query = QueryString::new();
    query.add("a", "1").add("a", "2").add("b", String::from("3"));
    assert_eq!(query.build(), "a=2&b=3");
}

#[test]
fn query_string_add_opt_skips_missing_values() {
    let mut query = QueryString::new();
    query.add_opt("album", None).add_opt("track", Some("A".to_string()));
    query.add_opt("track", None);
    assert_eq!(query.build(), "track=A");
}

#[test]
fn query_string_escapes_nothing() {
    let mut query = QueryString::new();
    query.add("a b", "c&d=e");
    query.add("", "");
    assert_eq!(query.build(), "=&a b=c&d=e");
}

#[test]
fn post_with_query_sends_the_encoded_query_as_data() {
    let transfer = request(HttpMethod::POST, Some("artist=A B&track=é"), Some("ignored")).transfer();
    assert_eq!(
        transfer,
        Transfer {
            method: HttpMethod::POST,
            url: "https://example.org/2.0/".to_string(),
            data: "artist=A%20B&track=%C3%A9".to_string(),
        }
    );
}

#[test]
fn post_query_encoding_escapes_the_query_set() {
    let transfer = request(HttpMethod::POST, Some(" \"#<>\n\u{7f}~!$&'()*+,/:;=?@[]%"), None).transfer();
    assert_eq!(transfer.data, "%20%22%23%3C%3E%0A%7F~!$&'()*+,/:;=?@[]%");
}

#[test]
fn post_without_query_sends_the_body() {
    let transfer = request(HttpMethod::POST, None, Some("{\"a\": 1}")).transfer();
    assert_eq!(transfer.url, "https://example.org/2.0/");
    assert_eq!(transfer.data, "{\"a\": 1}");
    let empty = request(HttpMethod::POST, None, None).transfer();
    assert_eq!(empty.data, "");
}

#[test]
fn get_puts_the_query_into_the_address() {
    let transfer = request(HttpMethod::GET, Some("a=1 2"), None).transfer();
    assert_eq!(transfer.method, HttpMethod::GET);
    assert_eq!(transfer.url, "https://example.org/2.0/?a=1 2");
    assert_eq!(transfer.data, "");
    let plain = request(HttpMethod::GET, None, None).transfer();
    assert_eq!(plain.url, "https://example.org/2.0/");
}

#[test]
fn put_sends_the_body_and_puts_the_query_into_the_address() {
    let transfer = request(HttpMethod::PUT, Some("a=1"), Some("body")).transfer();
    assert_eq!(transfer.method, HttpMethod::PUT);
    assert_eq!(transfer.url, "https://example.org/2.0/?a=1");
    assert_eq!(transfer.data, "body");
}

#[test]
fn response_of_a_failed_transfer_has_no_code() {
    let response = HttpResponse::from_transfer(Some(200), Err("Timeout was reached".to_string()));
    assert_eq!(response, HttpResponse { code: None, data: Err("Timeout was reached".to_string()) });
}

#[test]
fn response_of_a_transfer_reads_utf8() {
    let response = HttpResponse::from_transfer(Some(200), Ok("{\"é\":1}".as_bytes().to_vec()));
    assert_eq!(response, HttpResponse { code: Some(200), data: Ok("{\"é\":1}".to_string()) });
    let no_code = HttpResponse::from_transfer(None, Ok(Vec::new()));
    assert_eq!(no_code, HttpResponse { code: None, data: Ok(String::new()) });
}

#[test]
fn response_of_a_transfer_rejects_bytes_that_are_no_utf8() {
    let response = HttpResponse::from_transfer(Some(200), Ok(vec![0x7b, 0xff, 0x7d]));
    assert_eq!(
        response,
        HttpResponse { code: Some(200), data: Err("invalid utf-8: corrupt contents".to_string()) }
    );
}

#[test]
fn unwrap_gives_the_body() {
    let response = HttpResponse { code: Some(200), data: Ok("body".to_string()) };
    assert_eq!(response.unwrap(), "body");
}

#[test]
fn code_number_is_minus_one_without_code() {
    assert_eq!(HttpResponse { code: None, data: Ok(String::new()) }.code_number(), -1);
    assert_eq!(HttpResponse { code: Some(0), data: Ok(String::new()) }.code_number(), 0);
    assert_eq!(HttpResponse { code: Some(404), data: Ok(String::new()) }.code_number(), 404);
    assert_eq!(
        HttpResponse { code: Some(0x7fff_ffff), data: Ok(String::new()) }.code_number(),
        i32::MAX
    );
    assert_eq!(
        HttpResponse { code: Some(0x8000_0000), data: Ok(String::new()) }.code_number(),
        i32::MIN
    );
    assert_eq!(HttpResponse { code: Some(u32::MAX), data: Ok(String::new()) }.code_number(), -1);
}

#[test]
fn response_as_text() {
    let ok = HttpResponse { code: Some(200), data: Ok("{}".to_string()) };
    assert_eq!(ok.to_text(), "Code: 200\nResponse: {}");
    let failed = HttpResponse { code: None, data: Err("no route".to_string()) };
    assert_eq!(failed.to_text(), "Code: -1\nERROR: no route");
    let odd = HttpResponse { code: Some(503), data: Err(String::new()) };
    assert_eq!(odd.to_text(), "Code: 503\nERROR: ");
}

#[test]
fn decimal_text_of_integers() {
    assert_eq!(decimal(0), "0");
    assert_eq!(decimal(7), "7");
    assert_eq!(decimal(10), "10");
    assert_eq!(decimal(500), "500");
    assert_eq!(decimal(-1), "-1");
    assert_eq!(decimal(-120), "-120");
    assert_eq!(decimal(i64::MAX), "9223372036854775807");
    assert_eq!(decimal(i64::MIN), "-9223372036854775808");
    let mut text = "x".to_string();
    append_decimal(&mut text, 42);
    assert_eq!(text, "x42");
}
