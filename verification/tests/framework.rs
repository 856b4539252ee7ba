use quotebot::framework::startup;
use quotebot::framework::Data;

#[test]
fn startup_builds_the_context_with_a_trimmed_credential() {
    let data = startup(7, Some(" tok \n".to_string())).ok().unwrap();
    assert_eq!(data.start_time, 7);
    assert_eq!(data.token, "tok");
}

#[test]
fn startup_without_credential_yields_no_context() {
    let r = startup(7, None);
    assert_eq!(r.err().unwrap().message, "Failed to read token from docker.");
}

#[test]
fn data_holds_start_time_and_token() {
    let data = Data::new(123, "secret".to_string());
    assert_eq!(data.start_time, 123);
    assert_eq!(data.token, "secret");
}
