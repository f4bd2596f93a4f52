use tls_listener::policy::ClientAuthMode;

#[test]
fn no_anchors_means_no_client_auth() {
    assert_eq!(ClientAuthMode::resolve(false, false), ClientAuthMode::NoAuthentication);
    assert_eq!(ClientAuthMode::resolve(false, true), ClientAuthMode::NoAuthentication);
}

#[test]
fn anchors_without_the_flag_mean_optional() {
    assert_eq!(ClientAuthMode::resolve(true, false), ClientAuthMode::OptionalAuthenticated);
}

#[test]
fn anchors_with_the_flag_mean_mandatory() {
    assert_eq!(ClientAuthMode::resolve(true, true), ClientAuthMode::MandatoryAuthenticated);
}

#[test]
fn resolution_is_repeatable() {
    for anchors in [false, true] {
        for mandatory in [false, true] {
            assert_eq!(
                ClientAuthMode::resolve(anchors, mandatory),
                ClientAuthMode::resolve(anchors, mandatory)
            );
        }
    }
}
