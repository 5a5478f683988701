use cognito_auth::handler::{greeting, hello_response};

#[test]
fn test_generic_http_handler() {
    let response = hello_response(None);
    assert_eq!(response.status, 200);
    assert_eq!(response.body, "Hello world, this is an AWS Lambda HTTP request");
}

#[test]
fn test_http_handler_with_query_string() {
    let response = hello_response(Some("new-lambda-project"));
    assert_eq!(response.status, 200);
    assert_eq!(
        response.body,
        "Hello new-lambda-project, this is an AWS Lambda HTTP request"
    );
}

#[test]
fn response_is_html() {
    assert_eq!(hello_response(Some("x")).content_type, "text/html");
}

#[test]
fn greeting_of_empty_name() {
    assert_eq!(greeting(Some("")), "Hello , this is an AWS Lambda HTTP request");
}
