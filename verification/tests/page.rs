use server_watch::error::FetchError;
use server_watch::page::{extract_status, status_from_html, ServerEntry};
use server_watch::status::ServerStatus;

const PREFIX: &str = "ags-ServerStatus-content-responses-response-server-status--";

fn entry(texts: &[&str], status_classes: Option<&[&str]>) -> ServerEntry {
    ServerEntry {
        texts: texts.iter().map(|t| t.to_string()).collect(),
        status_classes: status_classes.map(|cs| cs.iter().map(|c| c.to_string()).collect()),
    }
}

#[test]
fn no_entries_is_server_not_found() {
    let entries: Vec<ServerEntry> = Vec::new();
    assert_eq!(extract_status(&entries, "Trixion"), Err(FetchError::ServerNotFound));
}

#[test]
fn no_matching_entry_is_server_not_found() {
    let entries = vec![
        entry(&["Aldebaran"], Some(&[&format!("{PREFIX}good")])),
        entry(&["Regulus", "extra text"], Some(&[&format!("{PREFIX}good")])),
    ];
    assert_eq!(extract_status(&entries, "Trixion"), Err(FetchError::ServerNotFound));
}

#[test]
fn entry_text_is_matched_after_trimming() {
    let entries = vec![entry(&["\n  Trixion  \n"], Some(&[&format!("{PREFIX}busy")]))];
    assert_eq!(extract_status(&entries, "Trixion"), Ok(ServerStatus::Busy));
}

#[test]
fn matching_entry_without_status_node_is_status_missing() {
    let entries = vec![entry(&["Trixion"], None)];
    let r = extract_status(&entries, "Trixion");
    assert_eq!(r, Err(FetchError::StatusNodeMissing));
    assert_eq!(r.unwrap_err().message(), "missing status wrapper for selected server");
}

#[test]
fn status_node_without_prefixed_class_is_keyword_missing() {
    let entries = vec![entry(&["Trixion"], Some(&["some-other-class", "another"]))];
    let r = extract_status(&entries, "Trixion");
    assert_eq!(r, Err(FetchError::KeywordMissing));
    assert_eq!(r.unwrap_err().message(), "missing status on wrapper for selected server");
}

#[test]
fn prefixed_class_yields_the_status() {
    let entries = vec![entry(
        &["Trixion"],
        Some(&["decorative", &format!("{PREFIX}maintenance")]),
    )];
    assert_eq!(extract_status(&entries, "Trixion"), Ok(ServerStatus::Maintenance));
}

#[test]
fn unknown_keyword_surfaces_as_unknown_status() {
    let entries = vec![entry(&["Trixion"], Some(&[&format!("{PREFIX}degraded")]))];
    let r = extract_status(&entries, "Trixion");
    assert_eq!(r, Err(FetchError::UnknownStatus(String::from("degraded"))));
    assert_eq!(r.unwrap_err().message(), "unknown status: degraded");
}

#[test]
fn first_matching_entry_wins() {
    let entries = vec![
        entry(&["Trixion"], None),
        entry(&["Trixion"], Some(&[&format!("{PREFIX}good")])),
    ];
    assert_eq!(extract_status(&entries, "Trixion"), Err(FetchError::StatusNodeMissing));
}

#[test]
fn first_prefixed_class_wins() {
    let entries = vec![entry(
        &["Trixion"],
        Some(&[&format!("{PREFIX}full"), &format!("{PREFIX}good")]),
    )];
    assert_eq!(extract_status(&entries, "Trixion"), Ok(ServerStatus::Full));
}

#[test]
fn empty_server_name_only_matches_blank_text() {
    let entries = vec![entry(&["   "], Some(&[&format!("{PREFIX}good")]))];
    assert_eq!(extract_status(&entries, ""), Ok(ServerStatus::Good));
}

fn page(server: &str, status_classes: &str) -> String {
    format!(
        "<html><body><div class=\"ags-ServerStatus-content-responses\">\
         <div class=\"ags-ServerStatus-content-responses-response-server\">\
         <span> {} </span><div class=\"{}\"></div></div>\
         </div></body></html>",
        server, status_classes
    )
}

#[test]
fn html_with_good_server_resolves_to_good() {
    let html = page("Trixion", &format!("ags-ServerStatus-content-responses-response-server-status {PREFIX}good"));
    assert_eq!(status_from_html(&html, "Trixion"), Ok(ServerStatus::Good));
}

#[test]
fn html_without_the_server_is_server_not_found() {
    let html = page("Aldebaran", &format!("ags-ServerStatus-content-responses-response-server-status {PREFIX}good"));
    assert_eq!(status_from_html(&html, "Trixion"), Err(FetchError::ServerNotFound));
}

#[test]
fn html_status_node_without_prefix_is_keyword_missing() {
    let html = page("Trixion", "ags-ServerStatus-content-responses-response-server-status");
    assert_eq!(status_from_html(&html, "Trixion"), Err(FetchError::KeywordMissing));
}

#[test]
fn html_without_status_node_is_status_missing() {
    let html = "<html><body>\
                <div class=\"ags-ServerStatus-content-responses-response-server\">\
                <span>Trixion</span></div>\
                </body></html>";
    assert_eq!(status_from_html(html, "Trixion"), Err(FetchError::StatusNodeMissing));
}

#[test]
fn html_maintenance_server_resolves_to_maintenance() {
    let html = page(
        "Trixion",
        &format!("ags-ServerStatus-content-responses-response-server-status {PREFIX}maintenance"),
    );
    assert_eq!(status_from_html(&html, "Trixion"), Ok(ServerStatus::Maintenance));
}
