use notion::error::{DecodeFailure, Error};
use notion::text::{join, to_decimal};

#[test]
fn decimal_of_small_and_large_numbers() {
    assert_eq!(to_decimal(0), "0");
    assert_eq!(to_decimal(7), "7");
    assert_eq!(to_decimal(10), "10");
    assert_eq!(to_decimal(42), "42");
    assert_eq!(to_decimal(100), "100");
    assert_eq!(to_decimal(1009), "1009");
    assert_eq!(to_decimal(4294967295), "4294967295");
}

#[test]
fn decimal_agrees_with_the_standard_numeral() {
    let mut n: u32 = 1;
    for _ in 0..200 {
        assert_eq!(to_decimal(n), n.to_string());
        n = n.wrapping_mul(2654435761).wrapping_add(12345);
    }
}

#[test]
fn join_puts_the_tail_after_the_head() {
    assert_eq!(join("/block/", "abc"), "/block/abc");
    assert_eq!(join("", ""), "");
    assert_eq!(join("a", ""), "a");
}

#[test]
fn messages_describe_each_failure() {
    assert_eq!(Error::InvalidCredential.message(), "invalid token");
    assert_eq!(Error::MissingCredential.message(), "no token found");
    assert_eq!(Error::TransportInit.message(), "transport could not be configured");
    assert_eq!(
        Error::Transport { message: String::from("connection reset") }.message(),
        "transport failure: connection reset"
    );
    assert_eq!(
        Error::RemoteRejection { status: 404, body: String::from("{\"message\":\"not found\"}") }
            .message(),
        "request rejected with status 404: {\"message\":\"not found\"}"
    );
    assert_eq!(
        Error::Decode { failure: DecodeFailure::Syntax }.message(),
        "response body is not JSON"
    );
    assert_eq!(
        Error::Decode { failure: DecodeFailure::Schema }.message(),
        "response body does not match the expected schema"
    );
}

#[test]
fn only_construction_failures_are_configuration_errors() {
    assert!(Error::InvalidCredential.is_configuration());
    assert!(Error::MissingCredential.is_configuration());
    assert!(Error::TransportInit.is_configuration());
    assert!(!Error::Transport { message: String::new() }.is_configuration());
    assert!(!Error::RemoteRejection { status: 400, body: String::new() }.is_configuration());
    assert!(!Error::Decode { failure: DecodeFailure::Schema }.is_configuration());
}
