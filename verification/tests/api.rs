use common::api::{Client, Headers, NoHeaders, NoOwner, Request, Response, Router};
use http::StatusCode;

#[derive(Clone, Debug, PartialEq)]
struct Auth(String);

impl Headers for Auth {}

#[test]
fn router_without_headers() {
    let client = Client::new(7u32);
    let router: Router<'_, u32, NoOwner, NoHeaders, String, String, ()> =
        client.request("hello".to_string());
    let (request, owner, provider) = router.owner("alice").route();
    assert_eq!(request.body, "hello");
    assert_eq!(owner, "alice");
    assert_eq!(*provider, 7);
}

#[test]
fn router_owner_then_headers() {
    let client = Client::new("provider".to_string());
    let (request, owner, provider) = client
        .request::<Vec<u8>, String, ()>(vec![1, 2, 3])
        .owner("bob")
        .headers(Auth("token".to_string()))
        .route();
    assert_eq!(request.body, vec![1, 2, 3]);
    assert_eq!(request.headers, Auth("token".to_string()));
    assert_eq!(owner, "bob");
    assert_eq!(provider, "provider");
}

#[test]
fn router_headers_then_owner() {
    let client = Client::new(1i64);
    let (request, owner, provider) = client
        .request::<u64, u64, ()>(99)
        .headers(Auth("h".to_string()))
        .owner("carol")
        .route();
    assert_eq!(request.body, 99);
    assert_eq!(request.headers, Auth("h".to_string()));
    assert_eq!(owner, "carol");
    assert_eq!(*provider, 1);
}

#[test]
fn router_new_matches_request() {
    let client = Client::new(());
    let router = Router::<(), NoOwner, NoHeaders, i32, i32, ()>::new(&client, 5);
    let (request, owner, _) = router.owner("dave").route();
    assert_eq!(request.body, 5);
    assert_eq!(owner, "dave");
}

#[test]
fn request_from_body() {
    let request: Request<String> = Request::from("body".to_string());
    assert_eq!(request.body, "body");
}

#[test]
fn response_from_body_is_ok() {
    let response: Response<String> = Response::from("done".to_string());
    assert_eq!(response.status, StatusCode::OK);
    assert!(response.headers.is_none());
    assert_eq!(response.body, "done");
    assert_eq!(response.len(), 4);
    assert_eq!(&*response, "done");
}

#[test]
fn response_with_status_and_headers() {
    let response: Response<String, Auth> =
        Response { status: StatusCode::OK, headers: None, body: "x".to_string() };
    let response = response.with_status(StatusCode::CREATED);
    assert_eq!(response.status, StatusCode::CREATED);
    assert!(response.headers.is_none());
    let response = response.with_headers(Auth("a".to_string()));
    assert_eq!(response.headers, Some(Auth("a".to_string())));
    assert_eq!(response.status, StatusCode::CREATED);
    assert_eq!(response.body, "x");
}

#[test]
fn response_updates_commute() {
    let base: Response<u8, Auth> = Response { status: StatusCode::OK, headers: None, body: 1 };
    let a = base.clone().with_status(StatusCode::NOT_FOUND).with_headers(Auth("h".to_string()));
    let b = base.with_headers(Auth("h".to_string())).with_status(StatusCode::NOT_FOUND);
    assert_eq!(a.status, b.status);
    assert_eq!(a.headers, b.headers);
    assert_eq!(a.body, b.body);
}
