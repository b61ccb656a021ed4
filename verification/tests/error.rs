use release_installer::error::{push_decimal, InstallError};

#[test]
fn decimal_of_zero_is_one_digit() {
    let mut text = String::new();
    push_decimal(&mut text, 0);
    assert_eq!(text, "0");
}

#[test]
fn decimal_is_appended() {
    let mut text = String::from("n=");
    push_decimal(&mut text, 1234567890);
    assert_eq!(text, "n=1234567890");
    push_decimal(&mut text, 7);
    assert_eq!(text, "n=12345678907");
}

#[test]
fn decimal_of_the_largest_number() {
    let mut text = String::new();
    push_decimal(&mut text, u64::MAX);
    assert_eq!(text, "18446744073709551615");
    assert_eq!(text, u64::MAX.to_string());
}

#[test]
fn decimal_keeps_inner_zeros() {
    let mut text = String::new();
    push_decimal(&mut text, 1000);
    push_decimal(&mut text, 10);
    push_decimal(&mut text, 909);
    assert_eq!(text, "100010909");
}

#[test]
fn message_of_a_refused_status_holds_the_status() {
    assert_eq!(
        InstallError::NotSuccessStatus { status: 404 }.message(),
        "request failed with status 404"
    );
    assert_eq!(
        InstallError::NotSuccessStatus { status: 500 }.message(),
        "request failed with status 500"
    );
}

#[test]
fn message_of_each_other_kind() {
    assert_eq!(
        InstallError::NetworkError { detail: "connection refused".to_string() }.message(),
        "network error: connection refused"
    );
    assert_eq!(InstallError::MalformedResponse.message(), "the release reply could not be read");
    assert_eq!(InstallError::NoAssetsAvailable.message(), "no assets found in the latest release");
    assert_eq!(
        InstallError::TransferIncomplete { received: 9, expected: Some(10) }.message(),
        "transfer incomplete: 9 of 10 bytes stored"
    );
    assert_eq!(
        InstallError::TransferIncomplete { received: 12, expected: None }.message(),
        "transfer incomplete: 12 bytes stored"
    );
    assert_eq!(InstallError::CorruptArchive.message(), "the archive could not be read");
    assert_eq!(
        InstallError::FilesystemError { path: "test/../x".to_string() }.message(),
        "cannot create test/../x"
    );
}
