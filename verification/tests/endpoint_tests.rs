use wakatime_status::endpoint::endpoint_url;

#[test]
fn endpoint_without_trailing_slash() {
    assert_eq!(
        endpoint_url("https://api.example.com"),
        "https://api.example.com/users/current/statusbar/today"
    );
}

#[test]
fn endpoint_with_trailing_slash() {
    assert_eq!(
        endpoint_url("https://api.example.com/"),
        "https://api.example.com/users/current/statusbar/today"
    );
}

#[test]
fn endpoint_with_many_trailing_slashes() {
    assert_eq!(
        endpoint_url("https://api.example.com///"),
        "https://api.example.com/users/current/statusbar/today"
    );
}

#[test]
fn endpoint_of_empty_base() {
    assert_eq!(endpoint_url(""), "/users/current/statusbar/today");
}
