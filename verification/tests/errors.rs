use bevy_cs_managed::error::Error;

#[test]
fn status_codes_name_their_errors() {
    assert!(matches!(Error::from(1), Error::ClassNotFound));
    assert!(matches!(Error::from(2), Error::MethodNotFound));
    assert!(matches!(Error::from(3), Error::FieldNotFound));
    assert!(matches!(Error::from(4), Error::PropertyNotFound));
    assert!(matches!(Error::from(5), Error::ReadonlyField));
    assert!(matches!(Error::from(6), Error::MissingGetter));
    assert!(matches!(Error::from(7), Error::MissingSetter));
    assert!(matches!(Error::from(8), Error::MissingRequiredArgument));
    assert!(matches!(Error::from(9), Error::PathNotFound));
    assert!(matches!(Error::from(10), Error::AssemblyNotLoaded));
    assert!(matches!(Error::from(11), Error::ClassNotRegistered));
}

#[test]
fn unmapped_status_codes_collapse_to_unknown() {
    assert!(matches!(Error::from(12), Error::UnknownManaged));
    assert!(matches!(Error::from(1000), Error::UnknownManaged));
    assert!(matches!(Error::from(i32::MAX), Error::UnknownManaged));
    assert!(matches!(Error::from(0), Error::UnknownManaged));
    assert!(matches!(Error::from(-1), Error::UnknownManaged));
}

#[test]
fn only_a_positive_status_is_a_failure() {
    assert!(Error::check(0).is_ok());
    assert!(Error::check(-1).is_ok());
    assert!(Error::check(i32::MIN).is_ok());
    assert!(matches!(Error::check(1), Err(Error::ClassNotFound)));
    assert!(matches!(Error::check(7), Err(Error::MissingSetter)));
    assert!(matches!(Error::check(12), Err(Error::UnknownManaged)));
    assert!(matches!(Error::check(i32::MAX), Err(Error::UnknownManaged)));
}

#[test]
fn every_error_has_its_text() {
    assert_eq!(Error::AssemblyNotLoaded.message(), "attempt to use assembly that was NOT loaded");
    assert_eq!(
        Error::ClassNotRegistered.message(),
        "script class is not registered with the runtime"
    );
    assert_eq!(Error::PathNotFound.message(), "path not found");
    assert_eq!(Error::ClassNotFound.message(), "class not found");
    assert_eq!(Error::MethodNotFound.message(), "method not found");
    assert_eq!(Error::FieldNotFound.message(), "field not found");
    assert_eq!(Error::PropertyNotFound.message(), "property not found");
    assert_eq!(Error::ReadonlyField.message(), "field is readonly");
    assert_eq!(Error::MissingGetter.message(), "property is missing a getter");
    assert_eq!(Error::MissingSetter.message(), "property is missing a setter");
    assert_eq!(
        Error::MissingRequiredArgument.message(),
        "missing required argument: was `null`"
    );
    assert_eq!(Error::UnknownManaged.message(), "an unknown managed c# error occured");
}

#[test]
fn native_errors_carry_their_text() {
    assert_eq!(Error::Io("file gone".to_string()).message(), "file gone");
    assert_eq!(
        Error::Json("expected value at line 1 column 1".to_string()).message(),
        "expected value at line 1 column 1"
    );
}
