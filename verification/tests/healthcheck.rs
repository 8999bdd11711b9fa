use azure_common::client::build_client;
use azure_common::error::{ClassifiedError, HealthcheckError, HealthcheckFailure};
use azure_common::healthcheck::{build_healthcheck, Healthcheck};
use azure_common::status::StatusCode;
use std::sync::Arc;

fn probe(container_name: &str) -> Healthcheck {
    let client = build_client(None, Some("logsaccount".to_string()), "events".to_string());
    match client {
        Ok(handle) => build_healthcheck(container_name.to_string(), handle),
        Err(_) => panic!("no handle"),
    }
}

fn answered(status: u16) -> Result<(), HealthcheckFailure> {
    probe("events").conclude(Err(ClassifiedError::Transport(status)))
}

#[test]
fn a_probe_that_succeeds_passes() {
    assert!(probe("events").conclude(Ok(())).is_ok());
}

#[test]
fn forbidden_means_invalid_credentials() {
    assert!(matches!(
        answered(403),
        Err(HealthcheckFailure::Diagnosed(HealthcheckError::InvalidCredentials))
    ));
}

#[test]
fn not_found_names_the_container() {
    let verdict = probe("audit-logs").conclude(Err(ClassifiedError::Transport(404)));
    match verdict {
        Err(HealthcheckFailure::Diagnosed(HealthcheckError::UnknownContainer { container })) => {
            assert_eq!(container, "audit-logs")
        }
        _ => panic!("wrong verdict"),
    }
}

#[test]
fn another_status_is_reported_with_its_number() {
    match answered(500) {
        Err(HealthcheckFailure::Diagnosed(HealthcheckError::Unknown { status })) => {
            assert_eq!(status.as_u16(), 500)
        }
        _ => panic!("wrong verdict"),
    }
    match answered(429) {
        Err(HealthcheckFailure::Diagnosed(HealthcheckError::Unknown { status })) => {
            assert_eq!(status.as_u16(), 429)
        }
        _ => panic!("wrong verdict"),
    }
    match answered(200) {
        Err(HealthcheckFailure::Diagnosed(HealthcheckError::Unknown { status })) => {
            assert_eq!(status.as_u16(), 200)
        }
        _ => panic!("wrong verdict"),
    }
}

#[test]
fn a_number_that_is_no_status_is_passed_on_as_it_came() {
    for raw in [0u16, 42, 99, 1000, 40300, u16::MAX] {
        match answered(raw) {
            Err(HealthcheckFailure::Other(ClassifiedError::Transport(status))) => assert_eq!(status, raw),
            _ => panic!("wrong verdict"),
        }
    }
}

#[test]
fn the_first_and_last_status_codes_are_still_named() {
    for raw in [100u16, 999] {
        match answered(raw) {
            Err(HealthcheckFailure::Diagnosed(HealthcheckError::Unknown { status })) => {
                assert_eq!(status.as_u16(), raw)
            }
            _ => panic!("wrong verdict"),
        }
    }
}

#[test]
fn a_failure_without_a_status_is_passed_on() {
    let verdict = probe("events").conclude(Err(ClassifiedError::Other("dns lookup failed".to_string())));
    match verdict {
        Err(HealthcheckFailure::Other(ClassifiedError::Other(text))) => assert_eq!(text, "dns lookup failed"),
        _ => panic!("wrong verdict"),
    }
}

#[test]
fn check_passes_a_failure_of_the_storage_client_on() {
    let no_status = azure_core::error::Error::message(azure_core::error::ErrorKind::Io, "connection refused");
    let verdict = probe("events").check(|_| Err(ClassifiedError::classify(&no_status)));
    match verdict {
        Err(HealthcheckFailure::Other(ClassifiedError::Other(text))) => assert_eq!(text, "connection refused"),
        _ => panic!("wrong verdict"),
    }
    let odd_status = azure_core::error::ErrorKind::http_response(0, None).into_error();
    let verdict = probe("events").check(|_| Err(ClassifiedError::classify(&odd_status)));
    assert!(matches!(
        verdict,
        Err(HealthcheckFailure::Other(ClassifiedError::Transport(0)))
    ));
}

#[test]
fn the_probe_keeps_the_handle_it_was_given() {
    let handle = match build_client(None, Some("logsaccount".to_string()), "events".to_string()) {
        Ok(handle) => handle,
        Err(_) => panic!("no handle"),
    };
    let check = build_healthcheck("events".to_string(), Arc::clone(&handle));
    assert!(Arc::ptr_eq(check.client(), &handle));
}

#[test]
fn check_asks_once_and_judges_the_answer() {
    let asked = std::cell::Cell::new(0u32);
    let handle = match build_client(None, Some("logsaccount".to_string()), "events".to_string()) {
        Ok(handle) => handle,
        Err(_) => panic!("no handle"),
    };
    let verdict = build_healthcheck("events".to_string(), Arc::clone(&handle)).check(|container| {
        asked.set(asked.get() + 1);
        assert!(Arc::ptr_eq(&container, &handle));
        Err(ClassifiedError::Transport(404))
    });
    assert_eq!(asked.get(), 1);
    match verdict {
        Err(HealthcheckFailure::Diagnosed(HealthcheckError::UnknownContainer { container })) => {
            assert_eq!(container, "events")
        }
        _ => panic!("wrong verdict"),
    }
}

#[test]
fn check_passes_when_the_store_answers_well() {
    assert!(probe("events").check(|_| Ok(())).is_ok());
}

#[test]
fn check_reports_refused_credentials() {
    let verdict = probe("events").check(|_| Err(ClassifiedError::Transport(403)));
    assert!(matches!(
        verdict,
        Err(HealthcheckFailure::Diagnosed(HealthcheckError::InvalidCredentials))
    ));
}

#[test]
fn findings_explain_themselves() {
    assert_eq!(HealthcheckError::InvalidCredentials.message(), "Invalid connection string specified");
    assert_eq!(
        HealthcheckError::UnknownContainer { container: "audit-logs".to_string() }.message(),
        "Container: \"audit-logs\" not found"
    );
    assert_eq!(
        HealthcheckError::UnknownContainer { container: "a\"b\\c".to_string() }.message(),
        "Container: \"a\\\"b\\\\c\" not found"
    );
    assert_eq!(
        HealthcheckError::Unknown { status: StatusCode::from_u16(500).unwrap() }.message(),
        "Unknown status code: 500 Internal Server Error"
    );
    assert_eq!(
        HealthcheckError::Unknown { status: StatusCode::from_u16(429).unwrap() }.message(),
        "Unknown status code: 429 Too Many Requests"
    );
    assert_eq!(
        HealthcheckError::Unknown { status: StatusCode::from_u16(799).unwrap() }.message(),
        "Unknown status code: 799 <unknown status code>"
    );
}

#[test]
fn finding_messages_are_written_around_what_they_are_given() {
    assert_eq!(HealthcheckError::not_found("\"events\""), "Container: \"events\" not found");
    assert_eq!(HealthcheckError::not_found(""), "Container:  not found");
    assert_eq!(HealthcheckError::unknown_status("418 I'm a teapot"), "Unknown status code: 418 I'm a teapot");
    assert_eq!(HealthcheckError::unknown_status(""), "Unknown status code: ");
}
