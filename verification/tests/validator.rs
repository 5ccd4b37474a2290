use qemu_test_runner::patch_validator::{PatchValidator, ValidationError};
use qemu_test_runner::{IoFailure, IoKind};

fn not_found() -> IoFailure {
    IoFailure {
        kind: IoKind::NotFound,
        message: "No such file or directory (os error 2)".into(),
    }
}

#[test]
fn check_filename_accepts_the_form() {
    assert!(PatchValidator::check_filename("ab123456.patch"));
    assert!(PatchValidator::check_filename("zz000000.patch"));
    assert!(PatchValidator::check_filename("aa999999.patch"));
}

#[test]
fn check_filename_rejects_other_forms() {
    assert!(!PatchValidator::check_filename("asdf"));
    assert!(!PatchValidator::check_filename(""));
    assert!(!PatchValidator::check_filename("ab123456.patcc"));
    assert!(!PatchValidator::check_filename("11111111.patch"));
    assert!(!PatchValidator::check_filename("ab1234567.patch"));
    assert!(!PatchValidator::check_filename("AB123456.patch"));
    assert!(!PatchValidator::check_filename("ab12345a.patch"));
    assert!(!PatchValidator::check_filename("ab123456_patch"));
    assert!(!PatchValidator::check_filename("a\u{e9}12345.patch"));
    assert!(!PatchValidator::check_filename("ab12345\u{663}.patch"));
}

#[test]
fn validate() {
    let mut validator = PatchValidator::default();

    let dir_path = "/tmp/run/aa111111.patch";
    validator
        .validate(dir_path, Some("aa111111.patch"), Ok(false))
        .expect_err("directory should not pass");

    validator
        .validate("/tmp/run/aa222222.patch", Some("aa222222.patch"), Err(not_found()))
        .expect_err("non-existent path should not pass");

    validator
        .validate("/", None, Ok(false))
        .expect_err("no filename should not pass");

    validator
        .validate("/tmp/run/aa333333.pat", Some("aa333333.pat"), Ok(true))
        .expect_err("invalid filename should not pass");

    let file_1_path = "/tmp/run/aa444444.patch";
    let file_2_path = "/tmp/run/dir/aa444444.patch";
    let patch = validator
        .validate(file_1_path, Some("aa444444.patch"), Ok(true))
        .expect("valid path should pass");
    assert_eq!(patch.path(), file_1_path);
    assert_eq!(patch.id(), "aa444444");
    let error = validator
        .validate(file_2_path, Some("aa444444.patch"), Ok(true))
        .expect_err("duplicate id should not pass");
    assert!(matches!(error, ValidationError::AlreadySeen(p) if p == file_1_path));
}

#[test]
fn each_rejection_has_its_error() {
    let mut validator = PatchValidator::new();
    assert!(matches!(
        validator.validate("..", None, Ok(true)),
        Err(ValidationError::NoFilename)
    ));
    assert!(matches!(
        validator.validate("x/ab123456.patcc", Some("ab123456.patcc"), Ok(true)),
        Err(ValidationError::InvalidFilename)
    ));
    assert!(matches!(
        validator.validate("x/ab123456.patch", Some("ab123456.patch"), Err(not_found())),
        Err(ValidationError::Io(IoFailure { kind: IoKind::NotFound, .. }))
    ));
    assert!(matches!(
        validator.validate("x/ab123456.patch", Some("ab123456.patch"), Ok(false)),
        Err(ValidationError::NotAFile)
    ));
    assert!(validator
        .validate("x/ab123456.patch", Some("ab123456.patch"), Ok(true))
        .is_ok());
    assert!(matches!(
        validator.validate("y/ab123456.patch", Some("ab123456.patch"), Ok(true)),
        Err(ValidationError::AlreadySeen(first)) if first == "x/ab123456.patch"
    ));
}

#[test]
fn the_name_is_checked_before_the_file() {
    let mut validator = PatchValidator::new();
    assert!(matches!(
        validator.validate("x/nope", Some("nope"), Err(not_found())),
        Err(ValidationError::InvalidFilename)
    ));
    assert!(matches!(
        validator.validate("x", None, Err(not_found())),
        Err(ValidationError::NoFilename)
    ));
}

#[test]
fn a_rejected_path_is_not_remembered() {
    let mut validator = PatchValidator::new();
    assert!(validator
        .validate("a/ab123456.patch", Some("ab123456.patch"), Ok(false))
        .is_err());
    let patch = validator
        .validate("b/ab123456.patch", Some("ab123456.patch"), Ok(true))
        .expect("the name was not taken yet");
    assert_eq!(patch.path(), "b/ab123456.patch");
}

#[test]
fn second_line_with_the_same_name_is_rejected() {
    let mut validator = PatchValidator::new();
    let first = validator.validate("aa123456.patch", Some("aa123456.patch"), Ok(true));
    let second = validator.validate("ab/aa123456.patch", Some("aa123456.patch"), Ok(true));
    assert!(first.is_ok());
    assert!(matches!(second, Err(ValidationError::AlreadySeen(p)) if p == "aa123456.patch"));
}

#[test]
fn error_messages() {
    assert_eq!(ValidationError::NoFilename.message(), "no filename");
    assert_eq!(
        ValidationError::InvalidFilename.message(),
        "invalid filename, expected format ab123456.patch"
    );
    assert_eq!(ValidationError::NotAFile.message(), "not a file");
    assert_eq!(
        ValidationError::AlreadySeen("a/b.patch".into()).message(),
        "id already seen before: a/b.patch"
    );
    assert_eq!(
        ValidationError::Io(not_found()).message(),
        "No such file or directory (os error 2)"
    );
}
