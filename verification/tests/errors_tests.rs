use elefren::ApiError;
use elefren::Error;

#[test]
fn from_api_error() {
    let err: ApiError = ApiError { error: None, error_description: None };
    let err: Error = Error::from(err);
    assert!(match err {
        Error::Api(..) => true,
        _ => false,
    });
}

#[test]
fn api_error_keeps_its_fields() {
    let err = ApiError { error: Some("oops".to_string()), error_description: None };
    match Error::from(err) {
        Error::Api(api) => assert_eq!(api.error.as_deref(), Some("oops")),
        other => panic!("expected an api error, got {:?}", other),
    }
}
