use clients::config::Config;
use clients::config::ConfigError;

#[test]
fn config_accepts_complete_settings() {
    let c = Config::new(
        "https://www.ncdc.noaa.gov/cdo-web/api/v2".to_string(),
        "demo-token".to_string(),
        3,
        5,
    )
    .expect("complete settings");
    assert_eq!(c.base_url, "https://www.ncdc.noaa.gov/cdo-web/api/v2");
    assert_eq!(c.api_key, "demo-token");
    assert_eq!(c.retries, 3);
    assert_eq!(c.workers, 5);
}

#[test]
fn config_rejects_missing_base_url() {
    let r = Config::new(String::new(), "key".to_string(), 3, 5);
    assert_eq!(r.unwrap_err(), ConfigError::MissingBaseUrl);
}

#[test]
fn config_rejects_missing_api_key() {
    let r = Config::new("https://api".to_string(), String::new(), 3, 5);
    assert_eq!(r.unwrap_err(), ConfigError::MissingApiKey);
}

#[test]
fn config_rejects_zero_workers() {
    let r = Config::new("https://api".to_string(), "key".to_string(), 3, 0);
    assert_eq!(r.unwrap_err(), ConfigError::NoWorkers);
}
