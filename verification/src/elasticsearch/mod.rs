//! The endpoint of a search cluster and the error that its requests report.

use vstd::prelude::*;
use crate::elasticsearch::profile_query::ElasticsearchProfileQueryRequest;
use crate::http::{ExchangeResult, HttpRequest};
use crate::zdbquery::ZDBQuery;

pub mod profile_query;

verus! {

/// The endpoint of an Elasticsearch cluster: its base address, such as
/// `http://localhost:9200`, written without a trailing slash.
#[derive(Debug)]
pub struct Elasticsearch {
    base_url: String,
}

impl View for Elasticsearch {
    type V = Seq<char>;

    /// The base address.
    closed spec fn view(&self) -> Seq<char> {
        self.base_url@
    }
}

impl Elasticsearch {
    /// The endpoint at the given base address.
    pub fn new(base_url: &str) -> (elasticsearch: Self)
        ensures
            elasticsearch@ == base_url@,
    {
        Elasticsearch { base_url: base_url.to_owned() }
    }

    /// The base address of the cluster.
    pub fn base_url(&self) -> (url: String)
        ensures
            url@ == self@,
    {
        self.base_url.clone()
    }

    /// A profiling search for `query` at this endpoint.
    pub fn profile_query(&self, query: ZDBQuery) -> (request: ElasticsearchProfileQueryRequest)
        ensures
            request.base_url() == self@,
            request.fragment() == query@,
    {
        ElasticsearchProfileQueryRequest::new(self, query)
    }

    /// Performs one HTTP exchange and has its response read.
    ///
    /// `exchange` is handed `request`, once. If it reports a transport failure, the
    /// result is an error without a status that carries the transport's description.
    /// If it returns a response, whatever its status, `response_handler` is handed
    /// the status and the body, and what it returns is the result.
    pub fn execute_request<X, H, T>(request: HttpRequest, exchange: X, response_handler: H) -> (result:
        Result<T, ElasticsearchError>)
        where X: FnOnce(HttpRequest) -> ExchangeResult, H: FnOnce(u16, String) -> Result<T, ElasticsearchError>
        requires
            call_requires(exchange, (request,)),
            forall|outcome: ExchangeResult|
                #[trigger] call_ensures(exchange, (request,), outcome) && outcome is Ok
                    ==> call_requires(
                    response_handler,
                    (outcome->Ok_0.status, outcome->Ok_0.body),
                ),
        ensures
            exists|outcome: ExchangeResult|
                #[trigger] call_ensures(exchange, (request,), outcome) && match outcome {
                    Ok(response) => call_ensures(
                        response_handler,
                        (response.status, response.body),
                        result,
                    ),
                    Err(description) => result is Err && result->Err_0@ == (ElasticsearchErrorView {
                        status: None,
                        message: description@,
                    }),
                },
    {
        match exchange(request) {
            Ok(response) => response_handler(response.status, response.body),
            Err(description) => Err(ElasticsearchError(None, description)),
        }
    }
}

impl Clone for Elasticsearch {
    fn clone(&self) -> (copy: Self)
        ensures
            copy@ == self@,
    {
        Elasticsearch { base_url: self.base_url.clone() }
    }
}

/// Why a request failed: the HTTP status that was observed, if the exchange got as
/// far as a response, and a message.
#[derive(Debug, PartialEq, Eq)]
pub struct ElasticsearchError(pub Option<u16>, pub String);

/// What an `ElasticsearchError` says, as mathematical values.
pub struct ElasticsearchErrorView {
    pub status: Option<u16>,
    pub message: Seq<char>,
}

impl ElasticsearchError {
    /// The HTTP status that was observed, if there was a response.
    pub fn status(&self) -> (status: Option<u16>)
        ensures
            status == self@.status,
    {
        self.0
    }

    /// The message.
    pub fn message(&self) -> (message: &str)
        ensures
            message@ == self@.message,
    {
        self.1.as_str()
    }
}

impl Clone for ElasticsearchError {
    fn clone(&self) -> (copy: Self)
        ensures
            copy@ == self@,
    {
        ElasticsearchError(self.0, self.1.clone())
    }
}

impl View for ElasticsearchError {
    type V = ElasticsearchErrorView;

    open spec fn view(&self) -> ElasticsearchErrorView {
        ElasticsearchErrorView { status: self.0, message: self.1@ }
    }
}

} // verus!
