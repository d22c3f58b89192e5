use poem_ext::panic_handler::PanicHandler;
use poem_ext::responses::{ErrorResponse, InternalServerError};

#[test]
fn test_panic_handler() {
    let response = PanicHandler.get_response();
    assert_eq!(response, ErrorResponse::InternalServerError(InternalServerError));
    assert_eq!(response.status(), 500);
    assert_eq!(response.error(), "internal_server_error");
}
