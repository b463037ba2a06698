use common::builder::{Body, Client, Empty, Headers, NoHeader, NoOwner, Request, RequestBuilder, Response};
use http::StatusCode;

#[derive(Clone, Debug, PartialEq)]
struct Greeting(String);

impl Body for Greeting {}

#[derive(Clone, Debug, PartialEq)]
struct Trace(u32);

impl Headers for Trace {}

#[test]
fn builder_without_headers() {
    let client = Client::new(3u8);
    assert_eq!(client.provider, 3);
    let builder: RequestBuilder<'_, u8, NoOwner, NoHeader, Greeting, (), ()> =
        client.request(Greeting("hi".to_string()));
    let (request, owner, provider) = builder.owner("alice").route();
    assert_eq!(request.body, Greeting("hi".to_string()));
    assert!(matches!(request.headers, Empty));
    assert_eq!(owner, "alice");
    assert_eq!(*provider, 3);
}

#[test]
fn builder_with_headers() {
    let client = Client::new("p".to_string());
    let (request, owner, provider) = client
        .request::<Greeting, (), ()>(Greeting("yo".to_string()))
        .headers(Trace(9))
        .owner("bob")
        .route();
    assert_eq!(request.body, Greeting("yo".to_string()));
    assert_eq!(request.headers, Trace(9));
    assert_eq!(owner, "bob");
    assert_eq!(provider, "p");
}

#[test]
fn builder_new_then_owner_then_headers() {
    let client = Client::new(0u16);
    let builder =
        RequestBuilder::<u16, NoOwner, NoHeader, Greeting, (), ()>::new(&client, Greeting("a".to_string()));
    let (request, owner, _) = builder.owner("carol").headers(Trace(1)).route();
    assert_eq!(request.body, Greeting("a".to_string()));
    assert_eq!(request.headers, Trace(1));
    assert_eq!(owner, "carol");
}

#[test]
fn builder_request_from_body() {
    let request: Request<Greeting> = Request::from(Greeting("b".to_string()));
    assert_eq!(request.body, Greeting("b".to_string()));
    assert!(matches!(request.headers, Empty));
}

#[test]
fn builder_response_from_body() {
    let response: Response<Vec<u8>> = Response::from(vec![1, 2]);
    assert_eq!(response.status, StatusCode::OK);
    assert!(response.headers.is_none());
    assert_eq!(response.len(), 2);
}
