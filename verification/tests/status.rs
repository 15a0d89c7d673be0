use server_watch::error::FetchError;
use server_watch::status::{status_from_keyword, ServerStatus};

#[test]
fn keyword_good_maps_to_good() {
    assert_eq!(status_from_keyword("good"), Ok(ServerStatus::Good));
}

#[test]
fn keyword_busy_maps_to_busy() {
    assert_eq!(status_from_keyword("busy"), Ok(ServerStatus::Busy));
}

#[test]
fn keyword_full_maps_to_full() {
    assert_eq!(status_from_keyword("full"), Ok(ServerStatus::Full));
}

#[test]
fn keyword_maintenance_maps_to_maintenance() {
    assert_eq!(status_from_keyword("maintenance"), Ok(ServerStatus::Maintenance));
}

#[test]
fn unknown_keyword_is_an_error_carrying_the_keyword() {
    let r = status_from_keyword("locked");
    assert_eq!(r, Err(FetchError::UnknownStatus(String::from("locked"))));
    match r {
        Err(e) => assert_eq!(e.message(), "unknown status: locked"),
        Ok(_) => panic!("expected an error"),
    }
}

#[test]
fn keyword_match_is_exact() {
    assert!(status_from_keyword("Good").is_err());
    assert!(status_from_keyword("good ").is_err());
    assert!(status_from_keyword("").is_err());
}

#[test]
fn labels_name_the_variants() {
    assert_eq!(ServerStatus::Good.label(), "Good");
    assert_eq!(ServerStatus::Busy.label(), "Busy");
    assert_eq!(ServerStatus::Full.label(), "Full");
    assert_eq!(ServerStatus::Maintenance.label(), "Maintenance");
}
