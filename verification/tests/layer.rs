use axum_sqlx_tx::layer::{is_client_error, is_server_error};
use axum_sqlx_tx::{commits, conclude, reply, Acquire, Extension, Reply};

fn begun(extension: &mut Extension<(), u32>, tx: u32) {
    match extension.acquire::<()>() {
        Ok(Acquire::Begin(pending)) => drop(pending.begun::<()>(Ok(tx))),
        _ => unreachable!(),
    }
}

#[test]
fn success_and_redirection_commit() {
    for status in [200, 201, 204, 299, 300, 301, 303, 308, 399] {
        assert!(commits(status), "{status}");
    }
}

#[test]
fn informational_responses_commit() {
    for status in [100, 101, 199] {
        assert!(commits(status), "{status}");
    }
}

#[test]
fn client_and_server_errors_do_not_commit() {
    for status in [400, 404, 418, 499, 500, 503, 599] {
        assert!(!commits(status), "{status}");
    }
}

#[test]
fn the_classes_of_errors_end_where_they_should() {
    assert!(!is_client_error(399));
    assert!(is_client_error(400));
    assert!(is_client_error(499));
    assert!(!is_client_error(500));

    assert!(!is_server_error(499));
    assert!(is_server_error(500));
    assert!(is_server_error(599));
    assert!(!is_server_error(600));

    // whatever is beyond the errors commits
    assert!(commits(600));
    assert!(commits(999));
    assert!(commits(0));
    assert!(commits(u16::MAX));
}

#[test]
fn concluding_a_success_hands_out_the_transaction() {
    let mut extension = Extension::new(());
    begun(&mut extension, 11);
    assert_eq!(conclude(extension, 200), Some(11));
}

#[test]
fn concluding_an_error_hands_out_nothing() {
    let mut extension = Extension::new(());
    begun(&mut extension, 11);
    assert_eq!(conclude(extension, 404), None);

    let mut extension = Extension::new(());
    begun(&mut extension, 11);
    assert_eq!(conclude(extension, 500), None);
}

#[test]
fn concluding_an_untouched_request_hands_out_nothing() {
    assert_eq!(conclude(Extension::<(), u32>::new(()), 200), None);
    assert_eq!(conclude(Extension::<(), u32>::new(()), 500), None);
}

#[test]
fn concluding_while_the_transaction_is_held_hands_out_nothing() {
    let mut extension = Extension::<(), u32>::new(());
    let held = extension.acquire::<()>();
    assert_eq!(conclude(extension, 200), None);
    drop(held);
}

#[test]
fn a_commit_that_went_well_forwards_the_response() {
    assert!(matches!(reply::<&str>(Ok(())), Reply::Forward));
}

#[test]
fn a_commit_that_failed_fails_the_request() {
    assert!(matches!(
        reply(Err("deferred constraint")),
        Reply::Fail {
            error: "deferred constraint"
        }
    ));
}
