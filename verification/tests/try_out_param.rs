use dxproxy::com_error::ComError;
use dxproxy::com_error::E_INVALIDARG;
use dxproxy::com_error::E_POINTER;
use dxproxy::try_out_param::try_out_param;

#[test]
fn test_try_out_param_success() {
    // try_out_param returns the value when successful
    let result = try_out_param(|out: &mut Option<i32>| {
        *out = Some(42);
        Ok(())
    });
    assert!(result.is_ok());
    assert_eq!(result.unwrap(), 42);
}

#[test]
fn test_try_out_param_not_set() {
    // try_out_param returns E_POINTER when the out param was not set
    let result = try_out_param::<i32, _>(|_out| {
        // Not setting the out parameter
        Ok(())
    });
    assert!(result.is_err());
    assert_eq!(result.unwrap_err().code(), E_POINTER);
}

#[test]
fn test_try_out_param_propagates_error() {
    // try_out_param propagates errors from the function
    let error_code = E_INVALIDARG;
    let result = try_out_param::<i32, _>(|_out| Err(ComError::from_code(error_code)));
    assert!(result.is_err());
    assert_eq!(result.unwrap_err().code(), error_code);
}

#[test]
fn test_try_out_param_error_wins_over_value() {
    // A failing function's error is surfaced even if it set the out param
    let result = try_out_param(|out: &mut Option<i32>| {
        *out = Some(7);
        Err(ComError::from_code(E_INVALIDARG))
    });
    assert_eq!(result.unwrap_err().code(), E_INVALIDARG);
}
