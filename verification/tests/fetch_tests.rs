use wakatime_status::fetch::classify_response;
use wakatime_status::fetch::FetchOutcome;

#[test]
fn ok_response_yields_its_body() {
    let r = classify_response(Ok((200, String::from("{\"data\":{\"status\":\"ok\"}}"))));
    assert_eq!(
        r,
        FetchOutcome::Response(String::from("{\"data\":{\"status\":\"ok\"}}"))
    );
}

#[test]
fn server_error_status_is_ignored() {
    let r = classify_response(Ok((500, String::from("error"))));
    assert_eq!(r, FetchOutcome::Response(String::from("error")));
}

#[test]
fn transport_failure_yields_network_error() {
    let r = classify_response(Err(String::from("connection refused")));
    assert_eq!(
        r,
        FetchOutcome::NetworkError(String::from("connection refused"))
    );
}
