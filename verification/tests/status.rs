use std::convert::TryFrom;
use ticket_store::status::{ParseStatusError, Status};

#[test]
fn test_try_from_string() {
    let status = Status::try_from("ToDO".to_string()).unwrap();
    assert_eq!(status, Status::ToDo);

    let status = Status::try_from("inproGress".to_string()).unwrap();
    assert_eq!(status, Status::InProgress);

    let status = Status::try_from("Done".to_string()).unwrap();
    assert_eq!(status, Status::Done);
}

#[test]
fn test_try_from_str() {
    let status = Status::try_from("ToDO").unwrap();
    assert_eq!(status, Status::ToDo);

    let status = Status::try_from("inproGress").unwrap();
    assert_eq!(status, Status::InProgress);

    let status = Status::try_from("Done").unwrap();
    assert_eq!(status, Status::Done);
}

#[test]
fn test_try_from_invalid() {
    let status = Status::try_from("Invalid");
    assert!(status.is_err());
}

#[test]
fn reads_every_mix_of_cases() {
    assert_eq!(Status::try_from("todo").unwrap(), Status::ToDo);
    assert_eq!(Status::try_from("TODO").unwrap(), Status::ToDo);
    assert_eq!(Status::try_from("InProgress").unwrap(), Status::InProgress);
    assert_eq!(Status::try_from("INPROGRESS").unwrap(), Status::InProgress);
    assert_eq!(Status::try_from("dOnE").unwrap(), Status::Done);
}

#[test]
fn rejects_what_is_close_to_a_name() {
    assert!(Status::try_from("").is_err());
    assert!(Status::try_from("to do").is_err());
    assert!(Status::try_from(" done").is_err());
    assert!(Status::try_from("done ").is_err());
    assert!(Status::try_from("in_progress").is_err());
    assert!(Status::try_from("todos").is_err());
}

#[test]
fn the_error_holds_the_text_as_it_was_given() {
    let error: ParseStatusError = Status::try_from("Invalid").unwrap_err();
    assert_eq!(error.invalid_status(), "Invalid");

    let error = Status::try_from("BLOCKED".to_string()).unwrap_err();
    assert_eq!(error.invalid_status(), "BLOCKED");
}

#[test]
fn the_message_names_the_text_and_the_statuses() {
    let error = Status::try_from("Invalid").unwrap_err();
    assert_eq!(
        error.message(),
        "`Invalid` is not a valid status. Use one of: ToDo, InProgress, Done"
    );

    let error = Status::try_from(String::new()).unwrap_err();
    assert_eq!(
        error.message(),
        "`` is not a valid status. Use one of: ToDo, InProgress, Done"
    );
}

#[test]
fn from_lowercase_reads_lowercase_names_only() {
    assert_eq!(Status::from_lowercase(&"todo".to_string()), Some(Status::ToDo));
    assert_eq!(
        Status::from_lowercase(&"inprogress".to_string()),
        Some(Status::InProgress)
    );
    assert_eq!(Status::from_lowercase(&"done".to_string()), Some(Status::Done));
    assert_eq!(Status::from_lowercase(&"Done".to_string()), None);
    assert_eq!(Status::from_lowercase(&"ToDo".to_string()), None);
    assert_eq!(Status::from_lowercase(&String::new()), None);
}

#[test]
fn letters_beyond_ascii_are_lowered_too() {
    // The Kelvin sign lowers to the letter k, which makes no status name.
    assert!(Status::try_from("\u{212a}").is_err());
    assert_eq!(
        Status::try_from("D\u{4f}NE").unwrap(),
        Status::Done
    );
}
