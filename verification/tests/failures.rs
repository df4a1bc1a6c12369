use coercible_errors::{
    chain_err, into_ok, lift, lift_other, CoercibleWith, ErrorKind, Failure, MyError, Never,
    OkResult,
};

#[test]
fn new_failure_has_one_layer() {
    let error = MyError::new(ErrorKind::Consumer);
    assert!(matches!(error.kind(), ErrorKind::Consumer));
    assert!(error.cause().is_none());
    assert_eq!(error.description(), "failed while consuming");
}

#[test]
fn failure_from_a_reason_keeps_the_reason() {
    let error = MyError::from_msg("disk on fire");
    assert!(matches!(error.kind(), ErrorKind::Msg(reason) if reason == "disk on fire"));
    assert!(error.cause().is_none());
    assert_eq!(error.description(), "disk on fire");
}

#[test]
fn range_check_failure_names_its_reason() {
    let error = MyError::too_wide();
    assert!(matches!(error.kind(), ErrorKind::Msg(_)));
    assert!(error.cause().is_none());
    assert_eq!(error.description(), "value exceeds destination width");
}

#[test]
fn kinds_describe_themselves() {
    assert_eq!(ErrorKind::Producer.description(), "failed while producing");
    assert_eq!(ErrorKind::Consumer.description(), "failed while consuming");
    assert_eq!(ErrorKind::Msg(String::from("why")).description(), "why");
    assert_eq!(ErrorKind::Msg(String::new()).description(), "");
}

#[test]
fn with_chain_wraps_the_cause() {
    let inner = MyError::from_msg("inner");
    let middle = MyError::with_chain(inner, ErrorKind::Consumer);
    let outer = MyError::with_chain(middle, ErrorKind::Producer);
    assert!(matches!(outer.kind(), ErrorKind::Producer));
    assert_eq!(
        outer.descriptions(),
        vec!["failed while producing", "failed while consuming", "inner"]
    );
    let below = outer.cause().unwrap();
    assert!(matches!(below.kind(), ErrorKind::Consumer));
    let bottom = below.cause().unwrap();
    assert!(matches!(bottom.kind(), ErrorKind::Msg(reason) if reason == "inner"));
    assert!(bottom.cause().is_none());
}

#[test]
fn widening_a_concrete_failure_keeps_it() {
    let error = MyError::with_chain(MyError::too_wide(), ErrorKind::Producer);
    let widened: MyError = error.widen();
    assert_eq!(
        widened.descriptions(),
        vec!["failed while producing", "value exceeds destination width"]
    );
}

#[test]
fn embedding_keeps_the_layers() {
    let own = <MyError as CoercibleWith<Never, MyError>>::embed(MyError::from_msg("own"));
    assert_eq!(own.descriptions(), vec!["own"]);
    let own = <MyError as CoercibleWith<MyError, MyError>>::embed(MyError::from_msg("own"));
    assert_eq!(own.descriptions(), vec!["own"]);
    let other = <Never as CoercibleWith<MyError, MyError>>::embed_other(MyError::from_msg("other"));
    assert_eq!(other.descriptions(), vec!["other"]);
    let other = <MyError as CoercibleWith<MyError, MyError>>::embed_other(MyError::with_chain(
        MyError::from_msg("other"),
        ErrorKind::Consumer,
    ));
    assert_eq!(other.descriptions(), vec!["failed while consuming", "other"]);
}

#[test]
fn lift_keeps_success() {
    let never_never: OkResult<u16> = lift::<u16, Never, Never, MyError>(Ok(7));
    assert_eq!(into_ok(never_never), 7);
    let never_error: Result<u16, MyError> = lift::<u16, Never, MyError, MyError>(Ok(8));
    assert_eq!(never_error.unwrap(), 8);
    let error_never: Result<u16, MyError> = lift::<u16, MyError, Never, MyError>(Ok(9));
    assert_eq!(error_never.unwrap(), 9);
    let error_error: Result<u16, MyError> = lift::<u16, MyError, MyError, MyError>(Ok(10));
    assert_eq!(error_error.unwrap(), 10);
}

#[test]
fn lift_other_keeps_success() {
    let never_never: OkResult<u16> = lift_other::<u16, Never, Never, MyError>(Ok(7));
    assert_eq!(into_ok(never_never), 7);
    let never_error: Result<u16, MyError> = lift_other::<u16, Never, MyError, MyError>(Ok(8));
    assert_eq!(never_error.unwrap(), 8);
    let error_never: Result<u16, MyError> = lift_other::<u16, MyError, Never, MyError>(Ok(9));
    assert_eq!(error_never.unwrap(), 9);
    let error_error: Result<u16, MyError> = lift_other::<u16, MyError, MyError, MyError>(Ok(10));
    assert_eq!(error_error.unwrap(), 10);
}

#[test]
fn lift_keeps_failure_without_annotation() {
    let failed: Result<u16, MyError> = Err(MyError::from_msg("first"));
    let lifted = lift::<u16, MyError, Never, MyError>(failed);
    assert_eq!(lifted.unwrap_err().descriptions(), vec!["first"]);
    let failed: Result<u16, MyError> = Err(MyError::from_msg("second"));
    let lifted = lift_other::<u16, Never, MyError, MyError>(failed);
    assert_eq!(lifted.unwrap_err().descriptions(), vec!["second"]);
    let failed: Result<(), MyError> =
        Err(MyError::with_chain(MyError::from_msg("third"), ErrorKind::Producer));
    let lifted = lift_other::<(), MyError, MyError, MyError>(failed);
    assert_eq!(lifted.unwrap_err().descriptions(), vec!["failed while producing", "third"]);
}

#[test]
fn chain_err_keeps_success() {
    let infallible: OkResult<u16> = Ok(3);
    assert_eq!(chain_err(infallible, ErrorKind::Producer).unwrap(), 3);
    let fallible: Result<u16, MyError> = Ok(4);
    assert_eq!(chain_err(fallible, ErrorKind::Consumer).unwrap(), 4);
}

#[test]
fn chain_err_wraps_failure_in_one_layer() {
    let failed: Result<u16, MyError> = Err(MyError::too_wide());
    let chained = chain_err(failed, ErrorKind::Producer).unwrap_err();
    assert!(matches!(chained.kind(), ErrorKind::Producer));
    assert_eq!(
        chained.descriptions(),
        vec!["failed while producing", "value exceeds destination width"]
    );
    let again: Result<u16, MyError> = Err(chained);
    let chained = chain_err(again, ErrorKind::Consumer).unwrap_err();
    assert_eq!(
        chained.descriptions(),
        vec![
            "failed while consuming",
            "failed while producing",
            "value exceeds destination width"
        ]
    );
}

#[test]
fn into_ok_gives_the_value() {
    let result: OkResult<u16> = Ok(42);
    assert_eq!(into_ok(result), 42);
    let unit: OkResult<()> = Ok(());
    into_ok(unit);
}

#[test]
fn descriptions_follow_the_causes() {
    let error = MyError::with_chain(
        MyError::with_chain(MyError::from_msg("root"), ErrorKind::Consumer),
        ErrorKind::Producer,
    );
    let mut walked = vec![error.description()];
    let mut current = &error;
    while let Some(inner) = current.cause() {
        walked.push(inner.description());
        current = inner;
    }
    assert_eq!(error.descriptions(), walked);
    assert_eq!(walked, vec!["failed while producing", "failed while consuming", "root"]);
    assert_eq!(MyError::new(ErrorKind::Producer).descriptions(), vec!["failed while producing"]);
}
