use warpgate::instance_ca::{AdminPermission, Api, CertificateStep, Parameters};
use warpgate::migration::{DbBackend, Migration};
use warpgate::model::WarpgateError;
use warpgate::text::{
    contains_text, eq_ignore_case, join_texts, parse_number, split_text, trimmed, without_leading,
};

#[test]
fn the_certificate_is_for_those_who_may_edit_the_configuration() {
    assert_eq!(Api::required_permission(), AdminPermission::ConfigEdit);
    let api = Api;
    let refused = api.api_get_certificate(Err(WarpgateError::Service("no".to_owned())));
    assert!(matches!(refused, CertificateStep::Refused(WarpgateError::Service(_))));
    let allowed: Result<(), WarpgateError> = Ok(());
    assert!(matches!(api.api_get_certificate(allowed), CertificateStep::LoadParameters));

    let parameters: Result<Parameters, WarpgateError> =
        Ok(Parameters { ca_certificate_pem: "PEM".to_owned() });
    assert_eq!(api.on_parameters(parameters).unwrap().certificate_pem, "PEM");
    assert!(api
        .on_parameters(Err(WarpgateError::Service("db".to_owned())))
        .is_err());
}

#[test]
fn each_database_is_repaired_in_its_own_words() {
    let migration = Migration;
    assert_eq!(
        migration.up(DbBackend::Postgres),
        "UPDATE users \
         SET credential_policy = REPLACE(credential_policy::text, '\"public_key\"', '\"publickey\"')::jsonb \
         WHERE credential_policy::text LIKE '%\"public_key\"%'"
    );
    assert_eq!(
        migration.up(DbBackend::MySql),
        "UPDATE users \
         SET credential_policy = REPLACE(credential_policy, '\"public_key\"', '\"publickey\"') \
         WHERE CAST(credential_policy AS CHAR) LIKE '%\"public_key\"%'"
    );
    assert_eq!(
        migration.up(DbBackend::Sqlite),
        "UPDATE users \
         SET credential_policy = REPLACE(credential_policy, '\"public_key\"', '\"publickey\"') \
         WHERE credential_policy LIKE '%\"public_key\"%'"
    );
    assert_eq!(migration.down(DbBackend::Sqlite), None);
}

#[test]
fn text_helpers() {
    assert!(eq_ignore_case("WebSocket", "websocket"));
    assert!(!eq_ignore_case("web", "websocket"));
    assert_eq!(trimmed(" \t a b \n"), "a b");
    assert_eq!(split_text("a,,b", ','), vec!["a", "", "b"]);
    assert_eq!(split_text("", ','), vec![""]);
    assert_eq!(join_texts(&vec!["a".to_owned(), "b".to_owned()], ", "), "a, b");
    assert!(contains_text("xabcx", "abc"));
    assert!(contains_text("x", ""));
    assert!(!contains_text("ab", "abc"));
    assert_eq!(without_leading("//a/b", '/'), "a/b");
    assert_eq!(parse_number("0042"), Some(42));
    assert_eq!(parse_number("+7"), "+7".parse::<u64>().ok());
    assert_eq!(parse_number(""), None);
    assert_eq!(parse_number("18446744073709551615"), Some(u64::MAX));
    assert_eq!(parse_number("18446744073709551616"), None);
}
