use axum_sqlx_tx::Error;

#[test]
fn missing_extension_in_words() {
    let error: Error<()> = Error::MissingExtension;
    assert_eq!(
        error.message().as_deref(),
        Some("required extension not registered; did you add the axum_sqlx_tx::Layer middleware?")
    );
}

#[test]
fn overlapping_extractors_in_words() {
    let error: Error<()> = Error::OverlappingExtractors;
    assert_eq!(
        error.message().as_deref(),
        Some("axum_sqlx_tx::Tx extractor used multiple times in the same handler/middleware")
    );
}

#[test]
fn a_database_error_speaks_for_itself() {
    let error = Error::Database {
        error: "connection refused",
    };
    assert_eq!(error.message(), None);
    assert_eq!(error.into_database(), Some("connection refused"));
}

#[test]
fn only_database_errors_have_a_cause() {
    assert_eq!(Error::<u8>::MissingExtension.into_database(), None);
    assert_eq!(Error::<u8>::OverlappingExtractors.into_database(), None);
}

#[test]
fn every_error_is_an_internal_server_error() {
    assert_eq!(Error::<()>::MissingExtension.status(), 500);
    assert_eq!(Error::<()>::OverlappingExtractors.status(), 500);
    assert_eq!(Error::Database { error: 3 }.status(), 500);
}
