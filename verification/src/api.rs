//! # API
//!
//! The entry point to the public API. A [`Client`] hands out a [`Router`],
//! whose type parameters record whether the owner (tenant) and the headers
//! have been set. Once the owner is set the router yields what the request
//! handler receives: the request, the owner and the client's provider.

use std::marker::PhantomData;
use vstd::prelude::*;

verus! {

/// A provider is any value that can be shared between threads.
pub trait Provider: Send + Sync {}

impl<T> Provider for T where T: Send + Sync {}

/// Build an API client to execute the request.
#[derive(Clone, Debug)]
pub struct Client<P: Provider> {
    /// The provider to use while handling of the request.
    provider: P,
}

impl<P: Provider> Client<P> {
    /// The provider held by the client.
    pub closed spec fn spec_provider(&self) -> P {
        self.provider
    }

    /// Create a new `Client`.
    pub fn new(provider: P) -> (client: Self)
        ensures
            client.spec_provider() == provider,
    {
        Self { provider }
    }
}

impl<P: Provider> Client<P> {
    /// Create a new [`Router`] with no owner and no headers.
    pub fn request<B: Body, U: Body, E>(&self, body: B) -> (router: Router<
        '_,
        P,
        NoOwner,
        NoHeaders,
        B,
        U,
        E,
    >)
        ensures
            router == Router::<P, NoOwner, NoHeaders, B, U, E>::spec_new(self, body),
            router.spec_client() == self,
            router.spec_owner() == NoOwner,
            router.spec_request() == (Request { headers: NoHeaders, body }),
    {
        Router::new(self, body)
    }
}

/// A type-safe request router that uses the type system to ensure required
/// fields are set before execution.
#[derive(Debug)]
pub struct Router<'a, P, O, H, B, U, E> where P: Provider, H: Headers, B: Body {
    client: &'a Client<P>,
    owner: O,
    request: Request<B, H>,
    _phantom: PhantomData<(U, E)>,
}

/// The router has no owner set.
#[derive(Clone, Debug)]
pub struct NoOwner;

/// The router has an owner set.
#[derive(Clone, Debug)]
pub struct OwnerSet<'a>(&'a str);

impl<'a> OwnerSet<'a> {
    /// The owner (tenant) that was set.
    pub closed spec fn spec_name(&self) -> &'a str {
        self.0
    }
}

impl<'a, P, O, H, B, U, E> Router<'a, P, O, H, B, U, E> where P: Provider, H: Headers, B: Body {
    /// The client the router was created from.
    pub closed spec fn spec_client(&self) -> &'a Client<P> {
        self.client
    }

    /// The owner marker: [`NoOwner`] or [`OwnerSet`].
    pub closed spec fn spec_owner(&self) -> O {
        self.owner
    }

    /// The request that will be handed to the handler.
    pub closed spec fn spec_request(&self) -> Request<B, H> {
        self.request
    }
}

impl<'a, P, B, U, E> Router<'a, P, NoOwner, NoHeaders, B, U, E> where P: Provider, B: Body, U: Body {
    /// The router that `new` returns.
    pub closed spec fn spec_new(client: &'a Client<P>, body: B) -> Self {
        Router {
            client,
            owner: NoOwner,
            request: Request { body, headers: NoHeaders },
            _phantom: PhantomData,
        }
    }

    /// Create a new `Router` instance.
    pub fn new(client: &'a Client<P>, body: B) -> (router: Self)
        ensures
            router == Self::spec_new(client, body),
            router.spec_client() == client,
            router.spec_owner() == NoOwner,
            router.spec_request() == (Request { headers: NoHeaders, body }),
    {
        Self {
            client,
            owner: NoOwner,
            request: Request { body, headers: NoHeaders },
            _phantom: PhantomData,
        }
    }
}

impl<'a, P, H, B, U, E> Router<'a, P, NoOwner, H, B, U, E> where
    P: Provider,
    H: Headers,
    B: Body,
    U: Body,
 {
    /// The router that `owner` returns.
    pub closed spec fn spec_with_owner<'o>(self, owner: &'o str) -> Router<
        'a,
        P,
        OwnerSet<'o>,
        H,
        B,
        U,
        E,
    > {
        Router {
            client: self.client,
            owner: OwnerSet(owner),
            request: self.request,
            _phantom: PhantomData,
        }
    }

    /// Set the owner (tenant).
    pub fn owner<'o>(self, owner: &'o str) -> (router: Router<'a, P, OwnerSet<'o>, H, B, U, E>)
        ensures
            router == self.spec_with_owner(owner),
            router.spec_client() == self.spec_client(),
            router.spec_owner().spec_name() == owner,
            router.spec_request() == self.spec_request(),
    {
        Router {
            client: self.client,
            owner: OwnerSet(owner),
            request: self.request,
            _phantom: PhantomData,
        }
    }
}

impl<'a, P, O, B, U, E> Router<'a, P, O, NoHeaders, B, U, E> where P: Provider, B: Body, U: Body {
    /// The router that `headers` returns.
    pub closed spec fn spec_with_headers<H: Headers>(self, headers: H) -> Router<
        'a,
        P,
        O,
        H,
        B,
        U,
        E,
    > {
        Router {
            client: self.client,
            owner: self.owner,
            request: Request { body: self.request.body, headers },
            _phantom: PhantomData,
        }
    }

    /// Set request headers.
    pub fn headers<H: Headers>(self, headers: H) -> (router: Router<'a, P, O, H, B, U, E>)
        ensures
            router == self.spec_with_headers(headers),
            router.spec_client() == self.spec_client(),
            router.spec_owner() == self.spec_owner(),
            router.spec_request() == (Request { headers, body: self.spec_request().body }),
    {
        Router {
            client: self.client,
            owner: self.owner,
            request: Request { body: self.request.body, headers },
            _phantom: PhantomData,
        }
    }
}

impl<'a, P, H, B, U, E> Router<'a, P, OwnerSet<'a>, H, B, U, E> where
    P: Provider,
    H: Headers,
    B: Body,
    U: Body,
 {
    /// What `route` hands back.
    pub closed spec fn spec_route(self) -> (Request<B, H>, &'a str, &'a P) {
        (self.request, self.owner.0, &self.client.provider)
    }

    /// Route the request: hand back what the request's handler is called
    /// with, namely the request, the owner and the client's provider.
    pub fn route(self) -> (parts: (Request<B, H>, &'a str, &'a P))
        ensures
            parts == self.spec_route(),
            parts.0 == self.spec_request(),
            parts.1 == self.spec_owner().spec_name(),
            *parts.2 == self.spec_client().spec_provider(),
    {
        (self.request, self.owner.0, &self.client.provider)
    }
}

/// Setting the owner and setting the headers commute: whichever is set
/// first, the router that results is the same.
pub proof fn lemma_owner_headers_commute<'a, 'o, P, B, U, E, H>(
    router: Router<'a, P, NoOwner, NoHeaders, B, U, E>,
    owner: &'o str,
    headers: H,
) where P: Provider, B: Body, U: Body, H: Headers
    ensures
        router.spec_with_owner(owner).spec_with_headers(headers) == router.spec_with_headers(
            headers,
        ).spec_with_owner(owner),
{
}

/// A request routed from a client reaches its handler with the body it was
/// created with, the headers that were set (or [`NoHeaders`]), the owner
/// that was set and the client's provider.
pub proof fn lemma_route_delivers<'a, P, B, U, E, H>(
    client: &'a Client<P>,
    body: B,
    owner: &'a str,
    headers: H,
) where P: Provider, B: Body, U: Body, H: Headers
    ensures
        ({
            let parts = Router::<P, NoOwner, NoHeaders, B, U, E>::spec_new(
                client,
                body,
            ).spec_with_owner(owner).spec_with_headers(headers).spec_route();
            &&& parts.0 == (Request { headers, body })
            &&& parts.1 == owner
            &&& *parts.2 == client.spec_provider()
        }),
        ({
            let parts = Router::<P, NoOwner, NoHeaders, B, U, E>::spec_new(
                client,
                body,
            ).spec_with_owner(owner).spec_route();
            &&& parts.0 == (Request { headers: NoHeaders, body })
            &&& parts.1 == owner
            &&& *parts.2 == client.spec_provider()
        }),
{
}

/// Setting the status and setting the headers of a response commute, and
/// each leaves the rest of the response as it was.
pub proof fn lemma_response_updates_commute<B: Body, H: Headers>(
    response: Response<B, H>,
    status: http::StatusCode,
    headers: H,
)
    ensures
        (Response { status, ..Response { headers: Some(headers), ..response } }) == (Response {
            headers: Some(headers),
            ..Response { status, ..response }
        }),
        (Response { status, ..response }).body == response.body,
        (Response { headers: Some(headers), ..response }).body == response.body,
{
}

/// The `Headers` trait is used to restrict the types able to implement
/// request headers.
pub trait Headers: Clone + core::fmt::Debug + Send + Sync {}

/// Empty headers for use by handlers that do not require headers.
#[derive(Clone, Debug)]
pub struct NoHeaders;

impl Headers for NoHeaders {}

/// The `Body` trait is used to restrict the types able to implement
/// request body. It is implemented by all `xxxRequest` types.
pub trait Body: Clone + core::fmt::Debug + Send + Sync {}

impl<T> Body for T where T: Clone + core::fmt::Debug + Send + Sync {}

/// A request to process.
#[derive(Clone, Debug)]
pub struct Request<B, H = NoHeaders> where H: Headers, B: Body {
    /// Headers associated with this request.
    pub headers: H,
    /// The request to process.
    pub body: B,
}

impl<B: Body> From<B> for Request<B> {
    fn from(body: B) -> (request: Self)
        ensures
            request == (Request { body, headers: NoHeaders }),
    {
        Self { body, headers: NoHeaders }
    }
}

impl<B: Body> vstd::std_specs::convert::FromSpecImpl<B> for Request<B> {
    open spec fn obeys_from_spec() -> bool {
        true
    }

    open spec fn from_spec(body: B) -> Self {
        Request { body, headers: NoHeaders }
    }
}

/// An HTTP status code, as the `http` crate defines it.
#[verifier::external_type_specification]
#[verifier::external_body]
pub struct ExStatusCode(http::StatusCode);

/// `http::StatusCode` derives `Clone` together with `Copy`: a clone is the
/// status code it was made from.
pub assume_specification[ <http::StatusCode as Clone>::clone ](status: &http::StatusCode) -> (copy:
    http::StatusCode)
    ensures
        copy == *status,
;

/// The status code that `http::StatusCode::from_u16` makes of `code`.
pub uninterp spec fn status_code_of(code: u16) -> http::StatusCode;

/// Calls `http::StatusCode::from_u16`, which accepts exactly the codes from
/// 100 to 999; the result is the status code with that number (so
/// `status_code(200)` is `StatusCode::OK`).
#[verifier::external_body]
pub(crate) fn status_code(code: u16) -> (status: http::StatusCode)
    requires
        100 <= code <= 999,
    ensures
        status == status_code_of(code),
{
    http::StatusCode::from_u16(code).unwrap()
}

/// The number of the success status code, `200 OK`.
pub const STATUS_OK: u16 = 200;

/// Top-level response data structure common to all handlers.
#[derive(Clone, Debug)]
pub struct Response<B, H = NoHeaders> where H: Headers, B: Body {
    /// Response HTTP status code.
    pub status: http::StatusCode,
    /// Response HTTP headers, if any.
    pub headers: Option<H>,
    /// The endpoint-specific response.
    pub body: B,
}

impl<T: Body> From<T> for Response<T> {
    fn from(body: T) -> (response: Self)
        ensures
            response == (Response::<T> { status: status_code_of(STATUS_OK), headers: None, body }),
    {
        Self { status: status_code(STATUS_OK), headers: None, body }
    }
}

impl<T: Body> vstd::std_specs::convert::FromSpecImpl<T> for Response<T> {
    open spec fn obeys_from_spec() -> bool {
        true
    }

    open spec fn from_spec(body: T) -> Self {
        Response { status: status_code_of(STATUS_OK), headers: None, body }
    }
}

impl<B: Body, H: Headers> Response<B, H> {
    /// Create a success response with a specific status code.
    pub fn with_status(self, status: http::StatusCode) -> (response: Self)
        ensures
            response == (Response { status, ..self }),
    {
        let mut response = self;
        response.status = status;
        response
    }

    /// Add headers to the response.
    pub fn with_headers(self, headers: H) -> (response: Self)
        ensures
            response == (Response { headers: Some(headers), ..self }),
    {
        let mut response = self;
        response.headers = Some(headers);
        response
    }
}

impl<T: Body> core::ops::Deref for Response<T> {
    type Target = T;

    fn deref(&self) -> (body: &T)
        ensures
            *body == self.body,
    {
        &self.body
    }
}

} // verus!
