use cargo_error::{CargoError, ErrorKind};

#[test]
fn label_of_invalid_command() {
    assert_eq!(ErrorKind::InvalidCommand.label(), "Spawning the cargo subommand failed.");
}

#[test]
fn label_of_command_failed() {
    assert_eq!(ErrorKind::CommandFailed.label(), "The cargo subcommand returned an error.");
}

#[test]
fn label_of_invalid_output() {
    assert_eq!(ErrorKind::InvalidOutput.label(), "Parsing the cargo subcommand's output failed.");
}

#[test]
fn kind_renders_as_its_label() {
    let kinds = [ErrorKind::InvalidCommand, ErrorKind::CommandFailed, ErrorKind::InvalidOutput];
    for kind in kinds {
        assert_eq!(kind.to_string(), kind.label());
    }
    assert_eq!(
        ErrorKind::InvalidOutput.to_string(),
        String::from("Parsing the cargo subcommand's output failed.")
    );
}

#[test]
fn labels_are_distinct() {
    assert_ne!(ErrorKind::InvalidCommand.label(), ErrorKind::CommandFailed.label());
    assert_ne!(ErrorKind::InvalidCommand.label(), ErrorKind::InvalidOutput.label());
    assert_ne!(ErrorKind::CommandFailed.label(), ErrorKind::InvalidOutput.label());
}

#[test]
fn kinds_compare_and_copy() {
    let kind = ErrorKind::CommandFailed;
    let copy = kind;
    assert_eq!(kind, copy);
    assert_ne!(kind, ErrorKind::InvalidCommand);
    assert_ne!(kind, ErrorKind::InvalidOutput);
    assert_eq!(format!("{:?}", kind), "CommandFailed");
}

#[test]
fn new_keeps_the_kind() {
    assert_eq!(CargoError::new(ErrorKind::InvalidCommand).kind(), ErrorKind::InvalidCommand);
    assert_eq!(CargoError::new(ErrorKind::CommandFailed).kind(), ErrorKind::CommandFailed);
    assert_eq!(CargoError::new(ErrorKind::InvalidOutput).kind(), ErrorKind::InvalidOutput);
}

#[test]
fn new_has_no_context_and_no_cause() {
    let error = CargoError::new(ErrorKind::CommandFailed);
    assert!(error.context().is_none());
    assert!(error.cause().is_none());
    assert!(error.causes().is_empty());
}

#[test]
fn kind_survives_context_and_cause() {
    let inner = CargoError::new(ErrorKind::InvalidOutput);
    let error = CargoError::new(ErrorKind::InvalidCommand)
        .set_context("spawning")
        .set_cause(cargo_error::Cause::Cargo(inner));
    assert_eq!(error.kind(), ErrorKind::InvalidCommand);
}

fn is_send_sync_static<T: Send + Sync + 'static>() -> bool {
    true
}

#[test]
fn errors_can_cross_threads() {
    assert!(is_send_sync_static::<CargoError>());
    assert!(is_send_sync_static::<cargo_error::Cause>());
    assert!(is_send_sync_static::<ErrorKind>());
}

#[test]
fn errors_can_be_debug_printed() {
    let error = CargoError::new(ErrorKind::InvalidCommand).set_context("spawning");
    let shown = format!("{:?}", error);
    assert!(shown.contains("InvalidCommand"));
    assert!(shown.contains("spawning"));
}
