//! The command builder: required pieces, the optional working directory,
//! and the take-on-build behaviour.

use bitfield::command::{BuildError, Command};

#[test]
fn builds_without_current_dir() {
    let command = Command::builder()
        .executable("cargo".to_owned())
        .args(vec!["build".to_owned(), "--release".to_owned()])
        .env(Vec::new())
        .build()
        .unwrap();
    assert!(command.current_dir.is_none());
    assert_eq!(command.executable, "cargo");
    assert_eq!(command.args, vec!["build".to_owned(), "--release".to_owned()]);
    assert!(command.env.is_empty());
}

#[test]
fn builds_with_current_dir() {
    let command = Command::builder()
        .executable("cargo".to_owned())
        .args(vec!["build".to_owned(), "--release".to_owned()])
        .env(Vec::new())
        .current_dir("..".to_owned())
        .build()
        .unwrap();
    assert!(command.current_dir.is_some());
    assert_eq!(command.current_dir.unwrap(), "..");
}

#[test]
fn missing_pieces_are_reported_in_order() {
    assert_eq!(Command::builder().build().unwrap_err(), BuildError::MissingExecutable);
    assert_eq!(
        Command::builder().executable("ls".to_owned()).build().unwrap_err(),
        BuildError::MissingArgs
    );
    assert_eq!(
        Command::builder().executable("ls".to_owned()).args(Vec::new()).build().unwrap_err(),
        BuildError::MissingEnv
    );
}

#[test]
fn error_messages_name_the_missing_piece() {
    assert_eq!(BuildError::MissingExecutable.message(), "executable not set");
    assert_eq!(BuildError::MissingArgs.message(), "args not set");
    assert_eq!(BuildError::MissingEnv.message(), "env not set");
}

#[test]
fn build_takes_the_pieces() {
    let mut b = Command::builder();
    b.executable("ls".to_owned()).args(Vec::new()).env(Vec::new());
    assert!(b.build().is_ok());
    // The pieces were taken, so a second build starts from nothing.
    assert_eq!(b.build().unwrap_err(), BuildError::MissingExecutable);
}
