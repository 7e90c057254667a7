//! Plain values for one HTTP exchange: the request that the library prepares and
//! the response that comes back for it.

use vstd::prelude::*;

verus! {

/// The verb of an HTTP request.
#[derive(Clone, Copy, Debug, PartialEq, Eq, Structural)]
pub enum HttpMethod {
    Get,
    Head,
    Post,
    Put,
    Delete,
}

/// A prepared HTTP request: verb, full URL, headers in order, and body.
#[derive(Debug, PartialEq, Eq)]
pub struct HttpRequest {
    pub method: HttpMethod,
    pub url: String,
    pub headers: Vec<(String, String)>,
    pub body: String,
}

/// What an `HttpRequest` says, as mathematical values.
pub struct HttpRequestView {
    pub method: HttpMethod,
    pub url: Seq<char>,
    pub headers: Seq<(Seq<char>, Seq<char>)>,
    pub body: Seq<char>,
}

impl View for HttpRequest {
    type V = HttpRequestView;

    open spec fn view(&self) -> HttpRequestView {
        HttpRequestView {
            method: self.method,
            url: self.url@,
            headers: self.headers.deep_view(),
            body: self.body@,
        }
    }
}

impl Clone for HttpRequest {
    fn clone(&self) -> (copy: Self)
        ensures
            copy@ == self@,
    {
        let mut headers: Vec<(String, String)> = Vec::new();
        let mut i: usize = 0;
        while i < self.headers.len()
            invariant
                i <= self.headers.len(),
                headers.len() == i,
                forall|j: int|
                    0 <= j < i ==> (#[trigger] headers[j]).deep_view()
                        == self.headers[j].deep_view(),
            decreases self.headers.len() - i,
        {
            let header = &self.headers[i];
            headers.push((header.0.clone(), header.1.clone()));
            i += 1;
        }
        assert(headers.deep_view() =~= self.headers.deep_view());
        HttpRequest { method: self.method, url: self.url.clone(), headers, body: self.body.clone() }
    }
}

/// A response as received: the status code and the body, not yet interpreted.
#[derive(Debug, PartialEq, Eq)]
pub struct HttpResponse {
    pub status: u16,
    pub body: String,
}

/// What an `HttpResponse` says, as mathematical values.
pub struct HttpResponseView {
    pub status: u16,
    pub body: Seq<char>,
}

impl View for HttpResponse {
    type V = HttpResponseView;

    open spec fn view(&self) -> HttpResponseView {
        HttpResponseView { status: self.status, body: self.body@ }
    }
}

impl Clone for HttpResponse {
    fn clone(&self) -> (copy: Self)
        ensures
            copy@ == self@,
    {
        HttpResponse { status: self.status, body: self.body.clone() }
    }
}

/// How an exchange ended: with a response, or with the transport's description of
/// why none arrived.
pub type ExchangeResult = Result<HttpResponse, String>;

/// The view of an `ExchangeResult`.
pub open spec fn exchange_view(exchange: ExchangeResult) -> Result<HttpResponseView, Seq<char>> {
    match exchange {
        Ok(response) => Ok(response@),
        Err(description) => Err(description@),
    }
}

} // verus!
