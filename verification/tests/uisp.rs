use uisp_login::api_error::ApiError;
use uisp_login::uisp::{HttpMethod, UISP};

fn client() -> UISP {
    UISP::new("https://uisp.example/nms/api/v2.1".to_string(), "SECRET-REDACTED".to_string())
}

#[test]
fn client_keeps_what_it_was_made_with() {
    let uisp = client();
    assert_eq!(uisp.get_base_url(), "https://uisp.example/nms/api/v2.1");
    assert_eq!(uisp.get_api_token(), "SECRET-REDACTED");
}

#[test]
fn device_list_url_is_the_device_collection() {
    assert_eq!(client().get_device_list_url(), "https://uisp.example/nms/api/v2.1/devices");
}

#[test]
fn redirect_url_names_the_device() {
    assert_eq!(
        client().get_redirect_url("dev-42".to_string()),
        "https://uisp.example/nms/api/v2.1/devices/dev-42/iplink/redirect"
    );
    assert_eq!(
        client().get_redirect_url(String::new()),
        "https://uisp.example/nms/api/v2.1/devices//iplink/redirect"
    );
}

#[test]
fn device_list_request_is_an_authenticated_get() {
    let request = client().device_list_request();
    assert_eq!(request.method, HttpMethod::Get);
    assert_eq!(request.url, "https://uisp.example/nms/api/v2.1/devices");
    assert_eq!(request.header_name, "x-auth-token");
    assert_eq!(request.header_value, "SECRET-REDACTED");
}

#[test]
fn login_request_is_an_authenticated_post() {
    let request = client().login_request("dev-42".to_string());
    assert_eq!(request.method, HttpMethod::Post);
    assert_eq!(request.url, "https://uisp.example/nms/api/v2.1/devices/dev-42/iplink/redirect");
    assert_eq!(request.header_name, "x-auth-token");
    assert_eq!(request.header_value, "SECRET-REDACTED");
}

#[test]
fn new_error_keeps_code_and_message() {
    let error = ApiError::new(418, "teapot".to_string());
    assert_eq!(error.status_code, 418);
    assert_eq!(error.message, "teapot");
    assert_eq!(error.to_string(), "teapot");
}

#[test]
fn device_not_found_is_a_404_that_names_the_address() {
    let error = ApiError::uisp_device_not_found("10.10.10.10".to_string());
    assert_eq!(error.status_code, 404);
    assert_eq!(error.message, "UISP Didn't find a device with the IP 10.10.10.10");
}

#[test]
fn internal_error_is_a_500() {
    let error = ApiError::internal_error();
    assert_eq!(error.status_code, 500);
    assert_eq!(error.message, "Internal Server Error");
}

#[test]
fn backend_errors_are_500_with_the_backend_words() {
    let error = ApiError::redis_error("connection reset");
    assert_eq!(error.status_code, 500);
    assert_eq!(error.message, "Redis error: connection reset");
    let error = ApiError::request_error("dns failure");
    assert_eq!(error.status_code, 500);
    assert_eq!(error.message, "Request error: dns failure");
}

#[test]
fn error_response_has_the_status_and_the_message() {
    let response = ApiError::uisp_device_not_found("10.10.10.10".to_string()).error_response();
    assert_eq!(response.status, 404);
    assert_eq!(response.content_type, "text/html; charset=utf-8");
    assert_eq!(response.body, "UISP Didn't find a device with the IP 10.10.10.10");

    let response = ApiError::internal_error().error_response();
    assert_eq!(response.status, 500);
    assert_eq!(response.body, "Internal Server Error");
}

#[test]
fn error_response_of_a_code_that_is_no_http_status_is_a_500() {
    for code in [0u16, 99, 1000, u16::MAX] {
        let response = ApiError::new(code, "odd".to_string()).error_response();
        assert_eq!(response.status, 500);
        assert_eq!(response.body, "odd");
    }
    for code in [100u16, 200, 404, 999] {
        assert_eq!(ApiError::new(code, "fine".to_string()).error_response().status, code);
    }
}
