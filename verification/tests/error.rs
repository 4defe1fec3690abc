use briefcase::error::{BriefcaseError, IoFailure};

#[test]
fn io_message_shows_the_detail() {
    let error = BriefcaseError::Io(IoFailure { not_found: false, detail: "disk full".to_string() });
    assert_eq!(error.message(), "IO error: disk full");
}

#[test]
fn invalid_entry_message_shows_the_name() {
    let error = BriefcaseError::InvalidEntry("2bad".to_string());
    assert_eq!(error.message(), "Invalid entry name: 2bad");
}

#[test]
fn entry_not_found_message_shows_the_name() {
    let error = BriefcaseError::EntryNotFound("x".to_string());
    assert_eq!(error.message(), "Entry not found: x");
}

#[test]
fn store_not_found_message() {
    assert_eq!(BriefcaseError::StoreNotFound.message(), "Store not found");
}

#[test]
fn message_with_empty_name_ends_after_the_colon() {
    assert_eq!(BriefcaseError::InvalidEntry(String::new()).message(), "Invalid entry name: ");
}

#[test]
fn io_failure_converts_to_io_error() {
    let failure = IoFailure { not_found: true, detail: "gone".to_string() };
    let error = BriefcaseError::from(failure.clone());
    assert_eq!(error, BriefcaseError::Io(failure));
}
