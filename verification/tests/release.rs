use release_installer::error::InstallError;
use release_installer::release::{
    install_query, release_query, resolve, AssetDescriptor, ReleaseDescriptor,
};
use release_installer::status::{check_outcome, is_success_status, RequestOutcome};

fn answered(status: u16) -> RequestOutcome {
    RequestOutcome::Answered { status }
}

fn unreachable(detail: &str) -> RequestOutcome {
    RequestOutcome::TransportFailed { detail: detail.to_string() }
}

fn asset(name: &str, url: &str) -> AssetDescriptor {
    AssetDescriptor { name: name.to_string(), download_url: url.to_string() }
}

#[test]
fn query_names_the_latest_release_of_the_repository() {
    let query = release_query("R2Northstar/Northstar");
    assert_eq!(query.url, "https://api.github.com/repos/R2Northstar/Northstar/releases/latest");
    assert_eq!(query.user_agent, "reqwest");
}

#[test]
fn query_of_an_empty_repository_keeps_both_ends() {
    assert_eq!(release_query("").url, "https://api.github.com/repos//releases/latest");
}

#[test]
fn success_is_the_range_200_to_299() {
    assert!(!is_success_status(0));
    assert!(!is_success_status(199));
    assert!(is_success_status(200));
    assert!(is_success_status(204));
    assert!(is_success_status(299));
    assert!(!is_success_status(300));
    assert!(!is_success_status(404));
    assert!(!is_success_status(500));
    assert!(!is_success_status(u16::MAX));
}

#[test]
fn a_refused_status_is_carried_by_the_error() {
    assert_eq!(check_outcome(answered(200)), Ok(()));
    assert_eq!(check_outcome(answered(299)), Ok(()));
    assert_eq!(check_outcome(answered(404)), Err(InstallError::NotSuccessStatus { status: 404 }));
    assert_eq!(check_outcome(answered(500)), Err(InstallError::NotSuccessStatus { status: 500 }));
    assert_eq!(check_outcome(answered(199)), Err(InstallError::NotSuccessStatus { status: 199 }));
    assert_eq!(check_outcome(answered(300)), Err(InstallError::NotSuccessStatus { status: 300 }));
}

#[test]
fn a_failed_transport_is_a_network_error() {
    assert_eq!(
        check_outcome(unreachable("dns error")),
        Err(InstallError::NetworkError { detail: "dns error".to_string() })
    );
}

#[test]
fn resolver_reports_a_failed_transport() {
    assert_eq!(
        resolve(unreachable("connection reset"), None),
        Err(InstallError::NetworkError { detail: "connection reset".to_string() })
    );
    let release = ReleaseDescriptor { assets: vec![asset("one.zip", "u")] };
    assert_eq!(
        resolve(unreachable(""), Some(release)),
        Err(InstallError::NetworkError { detail: String::new() })
    );
}

#[test]
fn resolver_takes_the_first_asset_in_order() {
    let release = ReleaseDescriptor {
        assets: vec![
            asset("Northstar.zip", "https://example.invalid/Northstar.zip"),
            asset("Aardvark.zip", "https://example.invalid/Aardvark.zip"),
            asset("Northstar-linux.zip", "https://example.invalid/linux.zip"),
        ],
    };
    assert_eq!(
        resolve(answered(200), Some(release)),
        Ok(asset("Northstar.zip", "https://example.invalid/Northstar.zip"))
    );
}

#[test]
fn resolver_takes_the_only_asset() {
    let release = ReleaseDescriptor { assets: vec![asset("one.zip", "u")] };
    assert_eq!(resolve(answered(299), Some(release)), Ok(asset("one.zip", "u")));
}

#[test]
fn resolver_reports_a_release_without_assets() {
    let release = ReleaseDescriptor { assets: Vec::new() };
    assert_eq!(resolve(answered(200), Some(release)), Err(InstallError::NoAssetsAvailable));
}

#[test]
fn resolver_reports_a_body_of_the_wrong_shape() {
    assert_eq!(resolve(answered(200), None), Err(InstallError::MalformedResponse));
}

#[test]
fn resolver_reports_the_status_before_anything_else() {
    let refused = |status| Err(InstallError::NotSuccessStatus { status });
    assert_eq!(resolve(answered(404), None), refused(404));
    let release = ReleaseDescriptor { assets: vec![asset("one.zip", "u")] };
    assert_eq!(resolve(answered(500), Some(release)), refused(500));
    let empty = ReleaseDescriptor { assets: Vec::new() };
    assert_eq!(resolve(answered(301), Some(empty)), refused(301));
}

#[test]
fn nothing_is_asked_for_while_the_launcher_is_there() {
    assert_eq!(install_query(true, "R2Northstar/Northstar"), None);
}

#[test]
fn a_missing_launcher_asks_for_the_latest_release() {
    assert_eq!(
        install_query(false, "R2Northstar/Northstar"),
        Some(release_query("R2Northstar/Northstar"))
    );
}
