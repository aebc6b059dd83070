//! Passkey ceremonies with a software authenticator in the browser's place.
use scraping_defense::json::Json;
use scraping_defense::outside::random_uuid;
use scraping_defense::passkeys::{
    begin_authentication, begin_registration, check_authentication_state,
    check_registration_state, complete_authentication, complete_registration, match_passkey,
    read_passkeys, PasskeyService, PasskeySettings,
};
use serde_json::Value;
use webauthn_authenticator_rs::softpasskey::SoftPasskey;
use webauthn_authenticator_rs::WebauthnAuthenticator;
use webauthn_rs::prelude::Url;

fn value(document: &Json) -> Value {
    match document {
        Json::Null => Value::Null,
        Json::Bool(b) => Value::from(*b),
        Json::Unsigned(n) => Value::from(*n),
        Json::Signed(n) => Value::from(*n),
        Json::Decimal(s) => serde_json::from_str(s).expect("a number"),
        Json::Text(s) => Value::from(s.as_str()),
        Json::Array(items) => Value::Array(items.iter().map(value).collect()),
        Json::Object(members) => Value::Object(
            members.entries.iter().map(|(name, item)| (name.clone(), value(item))).collect(),
        ),
    }
}

fn service(origin: &str) -> PasskeyService {
    PasskeyService::from_settings(&PasskeySettings {
        origin: Some(origin.into()),
        id: Some("localhost".into()),
        name: None,
        allow_subdomains: None,
        allow_any_port: None,
        additional_origins: None,
        challenge_ttl_seconds: None,
        session_ttl_seconds: None,
    })
    .expect("a relying party")
}

const ORIGIN: &str = "https://localhost:8443";

type Browser = WebauthnAuthenticator<SoftPasskey>;

fn register(service: &PasskeyService, browser: &mut Browser, known: &Vec<String>) -> (String, String) {
    let started = begin_registration(service, &random_uuid(), "admin", known)
        .expect("a registration challenge");
    assert!(check_registration_state(&started.state).is_ok());
    assert!(check_authentication_state(&started.state).is_err());
    let options = serde_json::from_value(value(&started.options)).expect("creation options");
    let answer = browser
        .do_registration(Url::parse(ORIGIN).unwrap(), options)
        .expect("an answer of the browser");
    let credential = serde_json::to_string(&answer).unwrap();
    let other = begin_registration(service, &random_uuid(), "admin", known).unwrap();
    let refused = complete_registration(service, &credential, &other.state).unwrap_err();
    assert_eq!(refused.status, 400);
    complete_registration(service, &credential, &started.state).expect("a proved passkey")
}

#[test]
fn native_registration_and_authentication_verify_real_signatures() {
    let service = service(ORIGIN);
    let mut browser = WebauthnAuthenticator::new(SoftPasskey::new(true));
    let (id, passkey) = register(&service, &mut browser, &Vec::new());
    let passkeys = vec![passkey.clone()];
    assert_eq!(read_passkeys(&passkeys).unwrap(), vec![id.clone()]);

    let started = begin_authentication(&service, &passkeys).expect("an authentication challenge");
    assert!(check_authentication_state(&started.state).is_ok());
    let kept: Value = serde_json::from_str(&started.state).unwrap();
    assert_eq!(
        kept["ast"]["challenge"],
        value(&started.options)["publicKey"]["challenge"],
    );
    assert!(kept["ast"]["challenge"].is_string());
    let options = serde_json::from_value(value(&started.options)).expect("request options");
    let answer = browser
        .do_authentication(Url::parse(ORIGIN).unwrap(), options)
        .expect("an answer of the browser");
    let credential = serde_json::to_string(&answer).unwrap();

    let (used, updated) =
        complete_authentication(&service, &credential, &started.state, &passkeys)
            .expect("a proved authentication");
    assert_eq!(used, id);
    assert_ne!(updated, passkey);
    let counter = |text: &str| {
        let passkey: Value = serde_json::from_str(text).unwrap();
        passkey["cred"]["counter"].as_u64().unwrap()
    };
    assert!(counter(&updated) > counter(&passkey));
    assert!(counter(&updated) > 0);
    assert_eq!(read_passkeys(&vec![updated]).unwrap(), vec![id]);

    let again = begin_authentication(&service, &passkeys).unwrap();
    let replayed = complete_authentication(&service, &credential, &again.state, &passkeys);
    assert_eq!(
        replayed.unwrap_err().body.get_text("message"),
        Some("WebAuthn authentication response was not valid"),
    );
    let unknown = complete_authentication(&service, &credential, &started.state, &Vec::new());
    assert_eq!(
        unknown.unwrap_err().body.get_text("message"),
        Some("authentication used an unknown credential"),
    );
}

#[test]
fn known_passkeys_are_excluded_from_registration() {
    let service = service(ORIGIN);
    let mut browser = WebauthnAuthenticator::new(SoftPasskey::new(true));
    let (id, passkey) = register(&service, &mut browser, &Vec::new());
    let started = begin_registration(&service, &random_uuid(), "admin", &vec![passkey.clone()])
        .expect("a registration challenge");
    let options = value(&started.options);
    assert_eq!(options["publicKey"]["rp"]["id"], Value::from("localhost"));
    assert_eq!(options["publicKey"]["user"]["name"], Value::from("admin"));
    assert_eq!(options["publicKey"]["user"]["displayName"], Value::from("admin"));
    let excluded = &options["publicKey"]["excludeCredentials"];
    assert_eq!(Value::from(excluded[0]["id"].clone()).to_string(), id);
    assert_eq!(excluded.as_array().unwrap().len(), 1);
    let user_id = "67e55044-10b1-426f-9247-bb680e5fe0c8";
    let first = value(&begin_registration(&service, user_id, "admin", &Vec::new()).unwrap().options);
    assert_eq!(first["publicKey"]["user"]["id"], Value::from("Z-VQRBCxQm-SR7toDl_gyA"));
    assert!(first["publicKey"].get("excludeCredentials").is_none());
    let asked = value(&begin_authentication(&service, &vec![passkey.clone()]).unwrap().options);
    assert_eq!(asked["publicKey"]["rpId"], Value::from("localhost"));
    let allowed = asked["publicKey"]["allowCredentials"].as_array().unwrap();
    assert_eq!(allowed.len(), 1);
    assert_eq!(allowed[0]["id"].to_string(), id);
    assert_eq!(begin_registration(&service, user_id, "", &Vec::new()).unwrap_err().status, 400);
    assert!(match_passkey(&vec![passkey], "{}").is_none());
}

#[test]
fn answers_for_another_origin_are_refused() {
    let here = service(ORIGIN);
    let elsewhere = service("https://localhost:9443");
    let mut browser = WebauthnAuthenticator::new(SoftPasskey::new(true));
    let started = begin_registration(&here, &random_uuid(), "admin", &Vec::new()).unwrap();
    let options = serde_json::from_value(value(&started.options)).unwrap();
    let answer = browser.do_registration(Url::parse(ORIGIN).unwrap(), options).unwrap();
    let credential = serde_json::to_string(&answer).unwrap();
    let refused = complete_registration(&elsewhere, &credential, &started.state).unwrap_err();
    assert_eq!(refused.status, 400);
    assert!(complete_registration(&here, &credential, &started.state).is_ok());
}
