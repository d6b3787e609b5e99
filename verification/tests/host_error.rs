use casper_node_logic::host_error::{
    result_from_code, Error, HOST_ERROR_INVALID_DATA, HOST_ERROR_INVALID_INPUT, HOST_ERROR_MESSAGE_PAYLOAD_TOO_LONG,
    HOST_ERROR_NOT_FOUND, HOST_ERROR_SUCCEED, HOST_ERROR_TOO_MANY_TOPICS,
};

#[test]
fn test_from_i32_not_found() {
    let error = Error::from(HOST_ERROR_NOT_FOUND);
    assert_eq!(error, Error::NotFound);
}

#[test]
fn test_from_i32_invalid_data() {
    let error = Error::from(HOST_ERROR_INVALID_DATA);
    assert_eq!(error, Error::InvalidData);
}

#[test]
fn test_from_i32_invalid_input() {
    let error = Error::from(HOST_ERROR_INVALID_INPUT);
    assert_eq!(error, Error::InvalidInput);
}

#[test]
fn test_from_i32_other() {
    let error = Error::from(4);
    assert_eq!(error, Error::Other(4));
}

#[test]
fn other_codes_are_kept() {
    assert_eq!(Error::from(HOST_ERROR_TOO_MANY_TOPICS), Error::TooManyTopics);
    assert_eq!(Error::from(HOST_ERROR_MESSAGE_PAYLOAD_TOO_LONG), Error::PayloadTooLong);
    assert_eq!(Error::from(-3), Error::Other(-3));
}

#[test]
fn success_code_is_ok() {
    assert_eq!(result_from_code(HOST_ERROR_SUCCEED), Ok(()));
    assert_eq!(result_from_code(HOST_ERROR_NOT_FOUND), Err(Error::NotFound));
    assert_eq!(result_from_code(77), Err(Error::Other(77)));
}
