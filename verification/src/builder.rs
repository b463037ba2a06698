//! # Request builder
//!
//! The request-builder flavour of the API entry point: a [`Client`] creates a
//! [`RequestBuilder`] whose type parameters record whether the owner and the
//! headers were set. A builder with an owner yields the [`Request`] that is
//! handed to the handler, together with the owner and the client's provider.

use crate::api::{status_code, status_code_of, STATUS_OK};
use std::marker::PhantomData;
use vstd::prelude::*;

verus! {

/// Build an API `Client` to execute the request.
#[derive(Clone, Debug)]
pub struct Client<P: Send + Sync> {
    /// The provider to use while handling of the request.
    pub provider: P,
}

impl<P: Send + Sync> Client<P> {
    /// Create a new `Client`.
    pub fn new(provider: P) -> (client: Self)
        ensures
            client.provider == provider,
    {
        Self { provider }
    }

    /// Create a new `Request` with no headers.
    pub fn request<B: Body, U, E>(&self, body: B) -> (builder: RequestBuilder<
        '_,
        P,
        NoOwner,
        NoHeader,
        B,
        U,
        E,
    >)
        ensures
            builder == RequestBuilder::<P, NoOwner, NoHeader, B, U, E>::spec_new(self, body),
            builder.spec_client() == self,
            builder.spec_owner() == NoOwner,
            builder.spec_headers() == NoHeader,
            builder.spec_body() == body,
    {
        RequestBuilder::new(self, body)
    }
}

/// Request builder.
#[derive(Debug)]
pub struct RequestBuilder<'a, P, O, H, B, U, E> where P: Send + Sync, B: Body {
    client: &'a Client<P>,
    owner: O,
    headers: H,
    body: B,
    _phantom: PhantomData<(U, E)>,
}

/// The request has no headers.
#[derive(Clone, Debug)]
pub struct NoHeader;

/// The request has headers.
#[derive(Clone, Debug)]
pub struct HeaderSet<H: Headers>(H);

impl<H: Headers> HeaderSet<H> {
    /// The headers that were set.
    pub closed spec fn spec_headers(&self) -> H {
        self.0
    }
}

/// The request has no owner set.
#[derive(Clone, Debug)]
pub struct NoOwner;

/// The request has a owner set.
#[derive(Clone, Debug)]
pub struct OwnerSet<'a>(&'a str);

impl<'a> OwnerSet<'a> {
    /// The owner (tenant) that was set.
    pub closed spec fn spec_name(&self) -> &'a str {
        self.0
    }
}

impl<'a, P, O, H, B, U, E> RequestBuilder<'a, P, O, H, B, U, E> where P: Send + Sync, B: Body {
    /// The client the builder was created from.
    pub closed spec fn spec_client(&self) -> &'a Client<P> {
        self.client
    }

    /// The owner marker: [`NoOwner`] or [`OwnerSet`].
    pub closed spec fn spec_owner(&self) -> O {
        self.owner
    }

    /// The headers marker: [`NoHeader`] or [`HeaderSet`].
    pub closed spec fn spec_headers(&self) -> H {
        self.headers
    }

    /// The request body.
    pub closed spec fn spec_body(&self) -> B {
        self.body
    }
}

impl<'a, P, B, U, E> RequestBuilder<'a, P, NoOwner, NoHeader, B, U, E> where P: Send + Sync, B: Body {
    /// The builder that `new` returns.
    pub closed spec fn spec_new(client: &'a Client<P>, body: B) -> Self {
        RequestBuilder { client, owner: NoOwner, headers: NoHeader, body, _phantom: PhantomData }
    }

    /// Create a new `Request` instance.
    pub fn new(client: &'a Client<P>, body: B) -> (builder: Self)
        ensures
            builder == Self::spec_new(client, body),
            builder.spec_client() == client,
            builder.spec_owner() == NoOwner,
            builder.spec_headers() == NoHeader,
            builder.spec_body() == body,
    {
        Self { client, owner: NoOwner, headers: NoHeader, body, _phantom: PhantomData }
    }
}

impl<'a, P, H, B, U, E> RequestBuilder<'a, P, NoOwner, H, B, U, E> where P: Send + Sync, B: Body {
    /// The builder that `owner` returns.
    pub closed spec fn spec_with_owner<'o>(self, owner: &'o str) -> RequestBuilder<
        'a,
        P,
        OwnerSet<'o>,
        H,
        B,
        U,
        E,
    > {
        RequestBuilder {
            client: self.client,
            owner: OwnerSet(owner),
            headers: self.headers,
            body: self.body,
            _phantom: PhantomData,
        }
    }

    /// Set the owner of the request.
    pub fn owner<'o>(self, owner: &'o str) -> (builder: RequestBuilder<'a, P, OwnerSet<'o>, H, B, U, E>)
        ensures
            builder == self.spec_with_owner(owner),
            builder.spec_client() == self.spec_client(),
            builder.spec_owner().spec_name() == owner,
            builder.spec_headers() == self.spec_headers(),
            builder.spec_body() == self.spec_body(),
    {
        RequestBuilder {
            client: self.client,
            headers: self.headers,
            owner: OwnerSet(owner),
            body: self.body,
            _phantom: PhantomData,
        }
    }
}

impl<'a, P, O, B, U, E> RequestBuilder<'a, P, O, NoHeader, B, U, E> where P: Send + Sync, B: Body {
    /// The builder that `headers` returns.
    pub closed spec fn spec_with_headers<H: Headers>(self, headers: H) -> RequestBuilder<
        'a,
        P,
        O,
        HeaderSet<H>,
        B,
        U,
        E,
    > {
        RequestBuilder {
            client: self.client,
            owner: self.owner,
            headers: HeaderSet(headers),
            body: self.body,
            _phantom: PhantomData,
        }
    }

    /// Set the headers for the request.
    pub fn headers<H: Headers>(self, headers: H) -> (builder: RequestBuilder<
        'a,
        P,
        O,
        HeaderSet<H>,
        B,
        U,
        E,
    >)
        ensures
            builder == self.spec_with_headers(headers),
            builder.spec_client() == self.spec_client(),
            builder.spec_owner() == self.spec_owner(),
            builder.spec_headers().spec_headers() == headers,
            builder.spec_body() == self.spec_body(),
    {
        RequestBuilder {
            client: self.client,
            owner: self.owner,
            headers: HeaderSet(headers),
            body: self.body,
            _phantom: PhantomData,
        }
    }
}

impl<'a, 'o, P, B, U, E> RequestBuilder<'a, P, OwnerSet<'o>, NoHeader, B, U, E> where
    P: Send + Sync,
    B: Body,
 {
    /// What `route` hands back: the request made from the body (with empty
    /// headers), the owner and the client's provider.
    pub closed spec fn spec_route(self) -> (Request<B, Empty>, &'o str, &'a P) {
        (Request { body: self.body, headers: Empty }, self.owner.0, &self.client.provider)
    }

    /// Prepare the request for processing: the request made from the body,
    /// the owner it is processed for and the provider its handler uses.
    pub fn route(self) -> (parts: (Request<B, Empty>, &'o str, &'a P))
        ensures
            parts == self.spec_route(),
            parts.0 == (Request { body: self.spec_body(), headers: Empty }),
            parts.1 == self.spec_owner().spec_name(),
            *parts.2 == self.spec_client().provider,
    {
        let request: Request<B, Empty> = Request::from(self.body);
        (request, self.owner.0, &self.client.provider)
    }
}

impl<'a, 'o, P, H, B, U, E> RequestBuilder<'a, P, OwnerSet<'o>, HeaderSet<H>, B, U, E> where
    P: Send + Sync,
    B: Body,
    H: Headers,
 {
    /// What `route` hands back: the request made from the body and the
    /// headers, the owner and the client's provider.
    pub closed spec fn spec_route(self) -> (Request<B, H>, &'o str, &'a P) {
        (Request { body: self.body, headers: self.headers.0 }, self.owner.0, &self.client.provider)
    }

    /// Prepare the request for processing: the request made from the body
    /// and the headers, the owner it is processed for and the provider its
    /// handler uses. The builder is consumed, so its headers are moved into
    /// the request as they are, not cloned.
    pub fn route(self) -> (parts: (Request<B, H>, &'o str, &'a P))
        ensures
            parts == self.spec_route(),
            parts.0 == (Request {
                body: self.spec_body(),
                headers: self.spec_headers().spec_headers(),
            }),
            parts.1 == self.spec_owner().spec_name(),
            *parts.2 == self.spec_client().provider,
    {
        let request = Request { body: self.body, headers: self.headers.0 };
        (request, self.owner.0, &self.client.provider)
    }
}

/// A request to process.
#[derive(Clone, Debug)]
pub struct Request<B, H = Empty> where B: Body, H: Headers {
    /// The request to process.
    pub body: B,
    /// Headers associated with this request.
    pub headers: H,
}

impl<B: Body> From<B> for Request<B> {
    fn from(body: B) -> (request: Self)
        ensures
            request == (Request { body, headers: Empty }),
    {
        Self { body, headers: Empty }
    }
}

impl<B: Body> vstd::std_specs::convert::FromSpecImpl<B> for Request<B> {
    open spec fn obeys_from_spec() -> bool {
        true
    }

    open spec fn from_spec(body: B) -> Self {
        Request { body, headers: Empty }
    }
}

/// Top-level response data structure common to all handlers.
#[derive(Clone, Debug)]
pub struct Response<O, H = Empty> where H: Headers {
    /// Response HTTP status code.
    pub status: http::StatusCode,
    /// Response HTTP headers, if any.
    pub headers: Option<H>,
    /// The endpoint-specific response.
    pub body: O,
}

impl<T> From<T> for Response<T> {
    fn from(body: T) -> (response: Self)
        ensures
            response == (Response::<T> { status: status_code_of(STATUS_OK), headers: None, body }),
    {
        Self { status: status_code(STATUS_OK), headers: None, body }
    }
}

impl<T> vstd::std_specs::convert::FromSpecImpl<T> for Response<T> {
    open spec fn obeys_from_spec() -> bool {
        true
    }

    open spec fn from_spec(body: T) -> Self {
        Response { status: status_code_of(STATUS_OK), headers: None, body }
    }
}

impl<T> core::ops::Deref for Response<T> {
    type Target = T;

    fn deref(&self) -> (body: &T)
        ensures
            *body == self.body,
    {
        &self.body
    }
}

/// Setting the owner and setting the headers commute: whichever is set
/// first, the builder that results is the same.
pub proof fn lemma_owner_headers_commute<'a, 'o, P, B, U, E, H>(
    builder: RequestBuilder<'a, P, NoOwner, NoHeader, B, U, E>,
    owner: &'o str,
    headers: H,
) where P: Send + Sync, B: Body, H: Headers
    ensures
        builder.spec_with_owner(owner).spec_with_headers(headers) == builder.spec_with_headers(
            headers,
        ).spec_with_owner(owner),
{
}

/// A request built from a client reaches its handler with the body it was
/// created with, the headers that were set (or [`Empty`]), the owner that
/// was set and the client's provider.
pub proof fn lemma_route_delivers<'a, 'o, P, B, U, E, H>(
    client: &'a Client<P>,
    body: B,
    owner: &'o str,
    headers: H,
) where P: Send + Sync, B: Body, H: Headers
    ensures
        ({
            let parts = RequestBuilder::<P, NoOwner, NoHeader, B, U, E>::spec_new(
                client,
                body,
            ).spec_with_owner(owner).spec_with_headers(headers).spec_route();
            &&& parts.0 == (Request { body, headers })
            &&& parts.1 == owner
            &&& *parts.2 == client.provider
        }),
        ({
            let parts = RequestBuilder::<P, NoOwner, NoHeader, B, U, E>::spec_new(
                client,
                body,
            ).spec_with_owner(owner).spec_route();
            &&& parts.0 == (Request { body, headers: Empty })
            &&& parts.1 == owner
            &&& *parts.2 == client.provider
        }),
{
}

/// The `Body` trait is used to restrict the types able to implement
/// request body. It is implemented by all `xxxRequest` types.
pub trait Body: Clone + core::fmt::Debug + Send + Sync {}

/// The `Headers` trait is used to restrict the types able to implement
/// request headers.
pub trait Headers: Clone + core::fmt::Debug + Send + Sync {}

/// Empty headers for use by handlers that do not require headers.
#[derive(Clone, Debug)]
pub struct Empty;

impl Headers for Empty {}

} // verus!
