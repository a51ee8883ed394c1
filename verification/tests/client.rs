use std::time::Duration;
use vmod_cloudbucket::client::{client, InitError, Redirect};

fn make(follow: i64, http: Option<&str>, https: Option<&str>) -> Result<client, InitError> {
    client::new(
        "cb",
        "media",
        "eu-west-1",
        follow,
        Some(Duration::from_secs(3)),
        None,
        true,
        false,
        true,
        false,
        true,
        http,
        https,
    )
}

#[test]
fn settings_are_those_that_were_asked_for() {
    let c = make(10, None, None).unwrap();
    assert_eq!(c.name, "cb");
    assert_eq!(c.be.name, "cb");
    assert_eq!(c.be.aws_s3_client.bucket, "media");
    assert_eq!(c.be.aws_s3_client.region, "eu-west-1");
    assert!(c.settings.gzip);
    assert!(!c.settings.deflate);
    assert!(c.settings.brotli);
    assert!(!c.settings.accept_invalid_certs);
    assert!(c.settings.accept_invalid_hostnames);
    assert_eq!(c.settings.timeout, Some(Duration::from_secs(3)));
    assert_eq!(c.settings.connect_timeout, None);
    assert!(c.settings.http_proxy.is_none());
    assert!(c.settings.https_proxy.is_none());
    assert!(matches!(c.settings.redirect, Redirect::Limited(10)));
}

#[test]
fn redirections_need_a_positive_limit() {
    for follow in [0, -1, i64::MIN] {
        assert!(matches!(make(follow, None, None).unwrap().settings.redirect, Redirect::Never));
    }
    assert!(matches!(make(1, None, None).unwrap().settings.redirect, Redirect::Limited(1)));
}

#[test]
fn proxies_are_taken_each_for_its_scheme() {
    let settings = make(0, Some("http://one:3128"), Some("http://two:3128")).unwrap().settings;
    let http = format!("{:?}", settings.http_proxy.unwrap());
    let https = format!("{:?}", settings.https_proxy.unwrap());
    assert!(http.contains("Http(") && http.contains("one"), "{}", http);
    assert!(https.contains("Https(") && https.contains("two"), "{}", https);
}

#[test]
fn unusable_http_proxy_is_reported() {
    let e = make(0, Some("http://["), None).unwrap_err();
    assert_eq!(e.message, "reqwest: couldn't initialize cb's HTTP proxy");
    assert!(e.cause.is_builder());
}

#[test]
fn unusable_https_proxy_is_reported() {
    let e = make(0, Some("http://one:3128"), Some("")).unwrap_err();
    assert_eq!(e.message, "reqwest: couldn't initialize cb's HTTPS proxy");
}

#[test]
fn http_proxy_is_looked_at_first() {
    let e = make(0, Some("http://["), Some("http://[")).unwrap_err();
    assert_eq!(e.message, "reqwest: couldn't initialize cb's HTTP proxy");
}

#[test]
fn client_that_cannot_be_built_is_named() {
    let cause = make(0, Some("http://["), None).unwrap_err().cause;
    assert_eq!(InitError::of_client("cb", cause).message, "reqwest: couldn't initialize cb");
}

#[test]
fn proxies_are_put_into_the_settings() {
    let plain = make(2, None, None).unwrap().settings;
    let proxy = reqwest::Proxy::http("http://one:3128");
    let settings = plain.with_proxies("cb", Some(proxy), None).unwrap();
    assert!(settings.http_proxy.is_some());
    assert!(settings.https_proxy.is_none());
    assert!(settings.gzip);
    let broken = reqwest::Proxy::https("http://[");
    let e = settings.with_proxies("other", None, Some(broken)).unwrap_err();
    assert_eq!(e.message, "reqwest: couldn't initialize other's HTTPS proxy");
}
