use eywa_axum::EywaConfig;

#[test]
fn run_mode_defaults_to_development() {
    assert_eq!(EywaConfig::run_mode(None), "development");
    assert_eq!(EywaConfig::run_mode(Some("production".to_string())), "production");
    assert_eq!(EywaConfig::run_mode(Some(String::new())), "");
}

#[test]
fn sources_are_layered_defaults_mode_local() {
    assert_eq!(
        EywaConfig::sources("development"),
        vec!["config/default", "config/development", "config/local"]
    );
    assert_eq!(
        EywaConfig::sources("staging"),
        vec!["config/default", "config/staging", "config/local"]
    );
}
