use nspic::auth::{checkLogin, createToken, makeCookie, tokenCookieName, validateSession, LoginCheck};
use nspic::config::Configuration;
use nspic::data::Manager;
use nspic::error::Error;
use nspic::sqlite_connection::Source;

#[test]
fn tokenIsTwentyTwoUrlSafeCharacters() {
    let t = createToken();
    assert_eq!(t.len(), 22);
    for c in t.chars() {
        assert!(c.is_ascii_alphanumeric() || c == '+' || c == '/');
    }
}

#[test]
fn twoTokensDiffer() {
    assert_ne!(createToken(), createToken());
}

#[test]
fn cookieCarriesTokenAndLifetime() {
    assert_eq!(
        makeCookie(String::from("abc"), 60),
        "nspic-token=abc; Max-Age=60; Path=/"
    );
    assert_eq!(
        makeCookie(String::from("t"), 2592000),
        "nspic-token=t; Max-Age=2592000; Path=/"
    );
    assert_eq!(tokenCookieName(), "nspic-token");
}

#[test]
fn loginWithoutHeaderAsksForCredentials() {
    let password = String::from("nspic");
    assert_eq!(checkLogin(&None, &password), LoginCheck::NoCredential);
}

#[test]
fn loginRequiresBasicAuthentication() {
    let password = String::from("nspic");
    let r = checkLogin(&Some(String::from("Bearer abcdef")), &password);
    assert_eq!(r, LoginCheck::NotBasic);
    let r = checkLogin(&Some(String::from("Basi")), &password);
    assert_eq!(r, LoginCheck::NotBasic);
}

#[test]
fn loginAcceptsTheConfiguredPassword() {
    let password = String::from("nspic");
    // base64 of "user:nspic"
    let r = checkLogin(&Some(String::from("Basic dXNlcjpuc3BpYw==")), &password);
    assert_eq!(r, LoginCheck::Authorized);
}

#[test]
fn loginRefusesAWrongCredential() {
    let password = String::from("nspic");
    let r = checkLogin(&Some(String::from("Basic dXNlcjpvdGhlcg==")), &password);
    assert_eq!(r, LoginCheck::BadCredential);
    let r = checkLogin(&Some(String::from("Basic ")), &password);
    assert_eq!(r, LoginCheck::BadCredential);
}

#[test]
fn validateSessionWithoutTokenIsUnauthorized() {
    let mut manager = Manager::new(Source::Memory);
    manager.connect().unwrap();
    manager.init().unwrap();
    let config = Configuration::default();
    assert_eq!(validateSession(&None, &mut manager, &config).unwrap(), false);
}

#[test]
fn validateSessionAcceptsAFreshToken() {
    let mut manager = Manager::new(Source::Memory);
    manager.connect().unwrap();
    manager.init().unwrap();
    let config = Configuration::default();
    let token = createToken();
    manager.createSession(&token).unwrap();
    let r = validateSession(&Some(token), &mut manager, &config).unwrap();
    assert!(r);
}

#[test]
fn validateSessionEvictsAnExpiredToken() {
    let mut manager = Manager::new(Source::Memory);
    manager.connect().unwrap();
    manager.init().unwrap();
    let config = Configuration::default();
    // authenticated far in the past: swept before the lookup
    manager.createSessionAt("stale", 100).unwrap();
    let r = validateSession(&Some(String::from("stale")), &mut manager, &config);
    assert!(matches!(r, Err(Error::NotFound(_))));
    assert!(matches!(manager.hasSession("stale"), Err(Error::NotFound(_))));
}

#[test]
fn validateSessionRefusesAnUnknownToken() {
    let mut manager = Manager::new(Source::Memory);
    manager.connect().unwrap();
    manager.init().unwrap();
    let config = Configuration::default();
    let r = validateSession(&Some(String::from("never-issued")), &mut manager, &config);
    assert!(r.is_err());
}
