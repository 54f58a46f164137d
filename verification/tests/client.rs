use rustfm_scrobble::client::{read_response, ApiOperation, ClientError, LastFmClient};
use rustfm_scrobble::http::{HttpMethod, HttpRequest, HttpResponse};
use rustfm_scrobble::params::Params;
use rustfm_scrobble::responses::values::CorrectableString;
use rustfm_scrobble::responses::SessionResponse;
use rustfm_scrobble::signature::sign;

const URL: &str = "https://ws.audioscrobbler.com/2.0/?format=json";

fn params_of(pairs: &[(&str, &str)]) -> Params {
    let mut params = Params::new();
    for (key, value) in pairs {
        params.insert(key.to_string(), value.to_string());
    }
    params
}

fn valid_client() -> LastFmClient {
    let mut client = LastFmClient::new("k1".to_string(), "s1".to_string());
    client.set_user_credentials("u".to_string(), "p".to_string());
    client
}

fn authenticated_client() -> LastFmClient {
    let mut client = valid_client();
    client.authenticate_with_session_key("SK".to_string());
    client
}

fn answer(code: u32, body: &str) -> HttpResponse {
    HttpResponse { code: Some(code), data: Ok(body.to_string()) }
}

fn post(query: &str) -> HttpRequest {
    HttpRequest {
        url: URL.to_string(),
        query: Some(query.to_string()),
        body: None,
        method: HttpMethod::POST,
    }
}

const SESSION: &str = "{\"session\":{\"subscriber\":0,\"name\":\"u\",\"key\":\"NEW\"}}";
const SCROBBLE: &str = "{\"scrobbles\":{\"scrobble\":{\"track\":{\"#text\":\"A\"},\
                        \"artist\":{\"#text\":\"B\"},\"timestamp\":\"100\"}}}";

#[test]
fn operations_have_their_method_names() {
    assert_eq!(ApiOperation::AuthWebSession.to_string(), "auth.getSession");
    assert_eq!(ApiOperation::AuthMobileSession.to_string(), "auth.getMobileSession");
    assert_eq!(ApiOperation::NowPlaying.to_string(), "track.updateNowPlaying");
    assert_eq!(ApiOperation::Scrobble.to_string(), "track.scrobble");
}

#[test]
fn new_client_is_not_authenticated() {
    let client = LastFmClient::new("k1".to_string(), "s1".to_string());
    assert!(!client.is_valid());
    assert!(!client.is_authenticated());
    assert_eq!(client.session_key(), None);
}

#[test]
fn session_key_injection_authenticates_a_valid_client() {
    let client = authenticated_client();
    assert!(client.is_authenticated());
    assert_eq!(client.session_key(), Some("SK".to_string()));
}

#[test]
fn new_credentials_end_the_session_of_a_client() {
    let mut client = authenticated_client();
    client.set_user_credentials("v".to_string(), "q".to_string());
    assert_eq!(client.session_key(), None);
    assert!(!client.is_authenticated());
    let mut other = authenticated_client();
    other.set_user_token("T".to_string());
    assert_eq!(other.session_key(), None);
}

#[test]
fn signed_request_carries_method_and_signature() {
    let client = valid_client();
    let params = params_of(&[("track", "A"), ("artist", "B")]);
    let sig = sign(&params, "track.scrobble", "s1");
    let request = client.send_request(ApiOperation::Scrobble, params);
    assert_eq!(
        request,
        post(&format!("api_sig={}&artist=B&method=track.scrobble&track=A", sig))
    );
}

#[test]
fn signed_request_overwrites_a_given_signature() {
    let client = valid_client();
    let plain = client.send_request(ApiOperation::Scrobble, params_of(&[("track", "A")]));
    let given = client.send_request(
        ApiOperation::Scrobble,
        params_of(&[("track", "A"), ("api_sig", "x"), ("method", "y")]),
    );
    assert_eq!(plain, given);
}

#[test]
fn password_authentication_request() {
    let client = valid_client();
    let request = client.authenticate_with_password().unwrap();
    assert_eq!(
        request,
        post(
            "api_key=k1&api_sig=d74dc316256f4abc881b66cb28503e3f\
             &method=auth.getMobileSession&password=p&username=u"
        )
    );
}

#[test]
fn token_authentication_request() {
    let mut client = valid_client();
    client.set_user_token("T".to_string());
    let request = client.authenticate_with_token().unwrap();
    assert_eq!(
        request,
        post(
            "api_key=k1&api_sig=785053b262f59bec1d1d5e47354750bd\
             &method=auth.getSession&password=p&token=T&username=u"
        )
    );
}

#[test]
fn authentication_needs_valid_credentials() {
    let client = LastFmClient::new("k1".to_string(), "s1".to_string());
    assert_eq!(client.authenticate_with_password(), Err(ClientError::InvalidCredentials));
    assert_eq!(client.authenticate_with_token(), Err(ClientError::InvalidCredentials));
    let mut injected = LastFmClient::new("k1".to_string(), "s1".to_string());
    injected.authenticate_with_session_key("SK".to_string());
    assert_eq!(injected.authenticate_with_password(), Err(ClientError::InvalidCredentials));
}

#[test]
fn data_calls_need_a_session() {
    let params = params_of(&[("track", "A"), ("artist", "B")]);
    for client in [LastFmClient::new("k1".to_string(), "s1".to_string()), valid_client()] {
        assert_eq!(client.send_now_playing(&params), Err(ClientError::NotAuthenticated));
        assert_eq!(client.send_scrobble(&params), Err(ClientError::NotAuthenticated));
        assert_eq!(client.send_batch_scrobbles(&params), Err(ClientError::NotAuthenticated));
        assert_eq!(
            client.send_authenticated_request(ApiOperation::Scrobble, &params),
            Err(ClientError::NotAuthenticated)
        );
    }
    let mut injected = LastFmClient::new("k1".to_string(), "s1".to_string());
    injected.authenticate_with_session_key("SK".to_string());
    assert_eq!(injected.send_scrobble(&params), Err(ClientError::NotAuthenticated));
}

#[test]
fn scrobble_request_of_an_authenticated_client() {
    let client = authenticated_client();
    let params = params_of(&[("track", "A"), ("artist", "B"), ("timestamp", "100")]);
    let request = client.send_scrobble(&params).unwrap();
    assert_eq!(
        request,
        post(
            "api_key=k1&api_sig=b530d0a33dacec7616a7dc1e729aa130&artist=B\
             &method=track.scrobble&sk=SK&timestamp=100&track=A"
        )
    );
    assert_eq!(client.send_batch_scrobbles(&params).unwrap(), request);
    assert_eq!(
        client.send_authenticated_request(ApiOperation::Scrobble, &params).unwrap(),
        request
    );
}

#[test]
fn now_playing_request_of_an_authenticated_client() {
    let client = authenticated_client();
    let params = params_of(&[("track", "A B"), ("artist", "Björk")]);
    let request = client.send_now_playing(&params).unwrap();
    assert_eq!(
        request,
        post(
            "api_key=k1&api_sig=04aa5902ab1145e32e2c1aa87e3cf23d&artist=Björk\
             &method=track.updateNowPlaying&sk=SK&track=A B"
        )
    );
    assert_eq!(
        request.transfer().data,
        "api_key=k1&api_sig=04aa5902ab1145e32e2c1aa87e3cf23d&artist=Bj%C3%B6rk\
         &method=track.updateNowPlaying&sk=SK&track=A%20B"
    );
}

#[test]
fn caller_parameters_win_over_base_parameters() {
    let client = authenticated_client();
    let params = params_of(&[("sk", "mine"), ("track", "A")]);
    let expected = params_of(&[("api_key", "k1"), ("sk", "mine"), ("track", "A")]);
    let sig = sign(&expected, "track.scrobble", "s1");
    let request = client.send_scrobble(&params).unwrap();
    assert_eq!(
        request,
        post(&format!("api_key=k1&api_sig={}&method=track.scrobble&sk=mine&track=A", sig))
    );
}

#[test]
fn batch_request_forwards_indexed_fields() {
    let client = authenticated_client();
    let params = params_of(&[("track[0]", "A"), ("track[1]", "C"), ("artist[0]", "B"), ("artist[1]", "D")]);
    let query = client.send_batch_scrobbles(&params).unwrap().query.unwrap();
    assert!(query.contains("&artist[0]=B&artist[1]=D&method=track.scrobble&sk=SK&track[0]=A&track[1]=C"));
}

#[test]
fn answers_are_read_by_status() {
    assert_eq!(read_response(answer(200, "body")), Ok("body".to_string()));
    assert_eq!(read_response(answer(403, "body")), Err("Non Success status (403)".to_string()));
    assert_eq!(read_response(answer(0, "body")), Err("Non Success status (0)".to_string()));
    assert_eq!(
        read_response(HttpResponse { code: None, data: Ok("body".to_string()) }),
        Err("Non Success status (500)".to_string())
    );
    assert_eq!(
        read_response(HttpResponse { code: None, data: Err("timeout".to_string()) }),
        Err("Non Success status (500)".to_string())
    );
    assert_eq!(
        read_response(HttpResponse { code: Some(200), data: Err("bad bytes".to_string()) }),
        Err("Failed to read response body".to_string())
    );
    assert_eq!(
        read_response(answer(u32::MAX, "")),
        Err("Non Success status (4294967295)".to_string())
    );
}

#[test]
fn successful_authentication_stores_the_session() {
    let mut client = valid_client();
    let session = client.receive_session(ApiOperation::AuthMobileSession, answer(200, SESSION));
    assert_eq!(
        session,
        Ok(SessionResponse { key: "NEW".to_string(), subscriber: 0, name: "u".to_string() })
    );
    assert_eq!(client.session_key(), Some("NEW".to_string()));
    assert!(client.is_authenticated());
}

#[test]
fn failed_authentication_sets_no_session() {
    let mut client = valid_client();
    assert_eq!(
        client.receive_session(ApiOperation::AuthMobileSession, answer(403, SESSION)),
        Err(ClientError::AuthenticationFailed("Non Success status (403)".to_string()))
    );
    assert_eq!(client.session_key(), None);
    assert_eq!(
        client.receive_session(
            ApiOperation::AuthWebSession,
            HttpResponse { code: None, data: Err("timeout".to_string()) }
        ),
        Err(ClientError::AuthenticationFailed("Non Success status (500)".to_string()))
    );
    assert_eq!(
        client.receive_session(
            ApiOperation::AuthWebSession,
            HttpResponse { code: Some(200), data: Err("bad".to_string()) }
        ),
        Err(ClientError::AuthenticationFailed("Failed to read response body".to_string()))
    );
    assert_eq!(client.session_key(), None);
    assert_eq!(client, valid_client());
}

#[test]
fn undecodable_authentication_answer_is_a_decode_failure() {
    let mut client = valid_client();
    assert_eq!(
        client.receive_session(ApiOperation::AuthMobileSession, answer(200, "{\"error\":4}")),
        Err(ClientError::DecodeFailed(ApiOperation::AuthMobileSession))
    );
    assert_eq!(
        client.receive_session(ApiOperation::AuthWebSession, answer(200, "<html>")),
        Err(ClientError::DecodeFailed(ApiOperation::AuthWebSession))
    );
    assert_eq!(client.session_key(), None);
}

#[test]
fn failed_authentication_keeps_an_earlier_session() {
    let mut client = authenticated_client();
    let failed = client.receive_session(ApiOperation::AuthMobileSession, answer(500, ""));
    assert!(failed.is_err());
    assert_eq!(client.session_key(), Some("SK".to_string()));
}

#[test]
fn scrobble_answer_is_decoded() {
    let client = authenticated_client();
    let result = client.receive_scrobble(answer(200, SCROBBLE)).unwrap();
    assert_eq!(result.track, CorrectableString { text: "A".to_string(), changed: false });
    assert_eq!(result.artist, CorrectableString { text: "B".to_string(), changed: false });
    assert_eq!(result.timestamp, "100");
}

#[test]
fn failed_data_calls_are_request_failures() {
    let client = authenticated_client();
    assert_eq!(
        client.receive_scrobble(answer(503, SCROBBLE)),
        Err(ClientError::RequestFailed(
            ApiOperation::Scrobble,
            "Non Success status (503)".to_string()
        ))
    );
    assert_eq!(
        client.receive_batch_scrobbles(answer(400, "")),
        Err(ClientError::RequestFailed(
            ApiOperation::Scrobble,
            "Non Success status (400)".to_string()
        ))
    );
    assert_eq!(
        client.receive_now_playing(HttpResponse { code: None, data: Err("timeout".to_string()) }),
        Err(ClientError::RequestFailed(
            ApiOperation::NowPlaying,
            "Non Success status (500)".to_string()
        ))
    );
    assert_eq!(client.session_key(), Some("SK".to_string()));
}

#[test]
fn undecodable_data_answers_are_decode_failures() {
    let client = authenticated_client();
    assert_eq!(
        client.receive_now_playing(answer(200, SCROBBLE)),
        Err(ClientError::DecodeFailed(ApiOperation::NowPlaying))
    );
    assert_eq!(
        client.receive_scrobble(answer(200, "")),
        Err(ClientError::DecodeFailed(ApiOperation::Scrobble))
    );
    assert_eq!(
        client.receive_batch_scrobbles(answer(200, SCROBBLE)),
        Err(ClientError::DecodeFailed(ApiOperation::Scrobble))
    );
}

#[test]
fn now_playing_and_batch_answers_are_decoded() {
    let client = authenticated_client();
    let echo = client
        .receive_now_playing(answer(
            200,
            "{\"nowplaying\":{\"artist\":{\"#text\":\"B\"},\"track\":{\"#text\":\"A\"}}}",
        ))
        .unwrap();
    assert_eq!(echo.track.text, "A");
    assert_eq!(echo.artist.text, "B");
    let batch = client
        .receive_batch_scrobbles(answer(
            200,
            "{\"scrobbles\":{\"scrobble\":[\
             {\"track\":{\"#text\":\"A\"},\"artist\":{\"#text\":\"B\"},\"timestamp\":\"100\"},\
             {\"track\":{\"#text\":\"C\"},\"artist\":{\"#text\":\"D\"},\"timestamp\":\"200\"}],\
             \"@attr\":{\"accepted\":2,\"ignored\":0}}}",
        ))
        .unwrap();
    assert_eq!(batch.scrobbles.len(), 2);
    assert_eq!(batch.accepted, 2);
    assert_eq!(batch.ignored, 0);
    assert_eq!(batch.scrobbles.get(0).unwrap().track.text, "A");
    assert_eq!(batch.scrobbles.get(1).unwrap().track.text, "C");
}

#[test]
fn errors_in_words() {
    assert_eq!(ClientError::InvalidCredentials.message(), "Invalid credentials");
    assert_eq!(ClientError::NotAuthenticated.message(), "Not authenticated");
    assert_eq!(
        ClientError::AuthenticationFailed("Non Success status (403)".to_string()).message(),
        "Authentication failed: Non Success status (403)"
    );
    assert_eq!(
        ClientError::RequestFailed(ApiOperation::NowPlaying, "x".to_string()).message(),
        "Now playing request failed: x"
    );
    assert_eq!(
        ClientError::RequestFailed(ApiOperation::Scrobble, "x".to_string()).message(),
        "Scrobble request failed: x"
    );
    assert_eq!(
        ClientError::DecodeFailed(ApiOperation::AuthMobileSession).message(),
        "Authentication response could not be decoded"
    );
}
