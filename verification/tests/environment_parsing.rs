use checkout_client::Environment;

#[test]
fn parses_production_names() {
    assert_eq!(Environment::from_str("PROD"), Ok(Environment::Production));
    assert_eq!(Environment::from_str("production"), Ok(Environment::Production));
    assert_eq!(Environment::from_str("Prod"), Ok(Environment::Production));
}

#[test]
fn parses_sandbox_names() {
    assert_eq!(Environment::from_str("sandbox"), Ok(Environment::Sandbox));
    assert_eq!(Environment::from_str("dev"), Ok(Environment::Sandbox));
    assert_eq!(Environment::from_str("development"), Ok(Environment::Sandbox));
    assert_eq!(Environment::from_str("SandBox"), Ok(Environment::Sandbox));
}

#[test]
fn ignores_surrounding_whitespace() {
    assert_eq!(Environment::from_str("  prod \n"), Ok(Environment::Production));
    assert_eq!(Environment::from_str("\tDEV "), Ok(Environment::Sandbox));
}

#[test]
fn ignores_unicode_whitespace() {
    // The whole White_Space set counts as surrounding whitespace, as
    // `str::trim` would remove it: vertical tab, form feed, NEL,
    // no-break space, en quad, ideographic space.
    assert_eq!(Environment::from_str("prod\u{000B}"), Ok(Environment::Production));
    assert_eq!(Environment::from_str("\u{000C}production"), Ok(Environment::Production));
    assert_eq!(Environment::from_str("\u{0085}dev\u{00A0}"), Ok(Environment::Sandbox));
    assert_eq!(Environment::from_str("\u{2000}sandbox\u{3000}"), Ok(Environment::Sandbox));
    // Whitespace inside the name still fails.
    let err = Environment::from_str("pro\u{00A0}d").unwrap_err();
    assert_eq!(err.0, "pro\u{00A0}d");
}

#[test]
fn rejects_unknown_names_and_keeps_the_input() {
    let err = Environment::from_str("staging").unwrap_err();
    assert_eq!(err.0, "staging");
    let err = Environment::from_str("").unwrap_err();
    assert_eq!(err.0, "");
    let err = Environment::from_str(" Prod uction ").unwrap_err();
    assert_eq!(err.0, " Prod uction ");
}

#[test]
fn environment_urls_are_fixed() {
    assert_eq!(Environment::Sandbox.api_url(), "https://api.sandbox.checkout.com");
    assert_eq!(Environment::Production.api_url(), "https://api.checkout.com");
    assert_eq!(Environment::Sandbox.access_url(), "https://access.sandbox.checkout.com");
    assert_eq!(Environment::Production.access_url(), "https://access.checkout.com");
}

#[test]
fn environment_names_print() {
    assert_eq!(Environment::Production.as_str(), "production");
    assert_eq!(Environment::Sandbox.as_str(), "sandbox");
}
