//! The profiling search request: one `POST` to `_search` that asks the cluster how
//! it would run a query, and the reading of what comes back.

use vstd::prelude::*;
use vstd::string::StringExecFns;
use crate::elasticsearch::{Elasticsearch, ElasticsearchError, ElasticsearchErrorView};
use crate::http::{exchange_view, ExchangeResult, HttpMethod, HttpRequest, HttpRequestView, HttpResponseView};
use crate::json::{error_text, json_error_text, json_parsed, json_text, parse, to_text};
use crate::zdbquery::ZDBQuery;

verus! {

/// The address of a profiling search: the search endpoint under the base address,
/// asking for no hits and for the `profile` section of the answer alone.
pub open spec fn profile_url(base_url: Seq<char>) -> Seq<char> {
    base_url + "/_search?size=0&filter_path=profile"@
}

/// The body of a profiling search: a JSON object with `profile` set and the
/// query-language fragment, given as JSON text, under `query`.
pub open spec fn profile_body(fragment: Seq<char>) -> Seq<char> {
    "{\"profile\":true,\"query\":"@ + fragment + "}"@
}

/// The request of a profiling search for a fragment at a base address.
pub open spec fn profile_request(base_url: Seq<char>, fragment: serde_json::Value) -> HttpRequestView {
    HttpRequestView {
        method: HttpMethod::Post,
        url: profile_url(base_url),
        headers: seq![("content-type"@, "application/json"@)],
        body: profile_body(json_text(fragment)),
    }
}

/// What a response means: the document that its body denotes, whatever the status,
/// or an error with the status and the parser's description.
pub open spec fn response_outcome(response: HttpResponseView) -> Result<
    serde_json::Value,
    ElasticsearchErrorView,
> {
    match json_parsed(response.body) {
        Ok(document) => Ok(document),
        Err(error) => Err(
            ElasticsearchErrorView {
                status: Some(response.status),
                message: json_error_text(error),
            },
        ),
    }
}

/// What an exchange means: a transport failure is an error without a status that
/// carries the transport's description; a response is read by `response_outcome`.
pub open spec fn exchange_outcome(exchange: Result<HttpResponseView, Seq<char>>) -> Result<
    serde_json::Value,
    ElasticsearchErrorView,
> {
    match exchange {
        Ok(response) => response_outcome(response),
        Err(description) => Err(ElasticsearchErrorView { status: None, message: description }),
    }
}

/// The view of a request's result.
pub open spec fn result_view(result: Result<serde_json::Value, ElasticsearchError>) -> Result<
    serde_json::Value,
    ElasticsearchErrorView,
> {
    match result {
        Ok(document) => Ok(document),
        Err(error) => Err(error@),
    }
}

/// A profiling search for one query at one endpoint.
#[derive(Debug)]
pub struct ElasticsearchProfileQueryRequest {
    elasticsearch: Elasticsearch,
    query: ZDBQuery,
}

impl ElasticsearchProfileQueryRequest {
    /// The base address of the endpoint that the request goes to.
    pub closed spec fn base_url(&self) -> Seq<char> {
        self.elasticsearch@
    }

    /// The query-language fragment of the request's query, if it has one.
    pub closed spec fn fragment(&self) -> Option<serde_json::Value> {
        self.query@
    }

    /// The HTTP request that executing this request issues.
    pub open spec fn request_view(&self) -> HttpRequestView
        recommends
            self.fragment() is Some,
    {
        profile_request(self.base_url(), self.fragment()->Some_0)
    }

    /// A request for `query` at `elasticsearch`. It keeps its own copy of the
    /// endpoint and does no I/O.
    pub fn new(elasticsearch: &Elasticsearch, query: ZDBQuery) -> (request: Self)
        ensures
            request.base_url() == elasticsearch@,
            request.fragment() == query@,
    {
        ElasticsearchProfileQueryRequest { elasticsearch: elasticsearch.clone(), query }
    }

    /// The address that the request is sent to.
    pub fn url(&self) -> (url: String)
        ensures
            url@ == profile_url(self.base_url()),
    {
        let mut url = String::new();
        url.append(self.elasticsearch.base_url().as_str());
        url.append("/_search");
        url.append("?size=0");
        url.append("&filter_path=profile");
        proof {
            reveal_strlit("/_search");
            reveal_strlit("?size=0");
            reveal_strlit("&filter_path=profile");
            reveal_strlit("/_search?size=0&filter_path=profile");
            assert("/_search"@ + "?size=0"@ + "&filter_path=profile"@
                =~= "/_search?size=0&filter_path=profile"@);
            assert(url@ =~= self.base_url() + ("/_search"@ + "?size=0"@
                + "&filter_path=profile"@));
        }
        url
    }

    /// The body that the request is sent with. The query must hold a fragment.
    pub fn body(&self) -> (body: String)
        requires
            self.fragment() is Some,
        ensures
            body@ == profile_body(json_text(self.fragment()->Some_0)),
    {
        let fragment = self.query.query_dsl().expect("no query dsl");
        let mut body = String::from_str("{\"profile\":true,\"query\":");
        body.append(to_text(fragment).unwrap().as_str());
        body.append("}");
        body
    }

    /// The HTTP request that executing this request issues. The query must hold a
    /// fragment.
    pub fn request(&self) -> (request: HttpRequest)
        requires
            self.fragment() is Some,
        ensures
            request@ == self.request_view(),
    {
        let mut headers: Vec<(String, String)> = Vec::new();
        headers.push((String::from_str("content-type"), String::from_str("application/json")));
        let request = HttpRequest {
            method: HttpMethod::Post,
            url: self.url(),
            headers,
            body: self.body(),
        };
        assert(request.headers.deep_view() =~= seq![("content-type"@, "application/json"@)]);
        request
    }

    /// Reads a response: the body parsed as JSON, whatever the status, or an error
    /// with the status and the parser's description.
    pub fn parse_response(status: u16, body: String) -> (result: Result<
        serde_json::Value,
        ElasticsearchError,
    >)
        ensures
            result_view(result) == response_outcome(HttpResponseView { status, body: body@ }),
    {
        match parse(body.as_str()) {
            Ok(document) => Ok(document),
            Err(error) => Err(ElasticsearchError(Some(status), error_text(&error))),
        }
    }

    /// Reads how the exchange ended: a transport failure is an error without a
    /// status that carries the transport's description; a response is read by
    /// `parse_response`.
    pub fn interpret(exchange: ExchangeResult) -> (result: Result<
        serde_json::Value,
        ElasticsearchError,
    >)
        ensures
            result_view(result) == exchange_outcome(exchange_view(exchange)),
    {
        match exchange {
            Ok(response) => Self::parse_response(response.status, response.body),
            Err(description) => Err(ElasticsearchError(None, description)),
        }
    }

    /// Executes the request: hands `exchange` the HTTP request, once, and reads
    /// what it returns. Nothing is retried. The query must hold a fragment.
    pub fn execute<X>(&self, exchange: X) -> (result: Result<serde_json::Value, ElasticsearchError>)
        where X: FnOnce(HttpRequest) -> ExchangeResult
        requires
            self.fragment() is Some,
            forall|request: HttpRequest|
                request@ == self.request_view() ==> call_requires(exchange, (request,)),
        ensures
            exists|request: HttpRequest, outcome: ExchangeResult|
                request@ == self.request_view()
                && #[trigger] call_ensures(exchange, (request,), outcome)
                && result_view(result) == exchange_outcome(exchange_view(outcome)),
    {
        Elasticsearch::execute_request(self.request(), exchange, Self::parse_response)
    }
}

/// A transport failure is reported as it was described, without a status.
pub proof fn lemma_transport_failure_has_no_status(description: Seq<char>)
    ensures
        exchange_outcome(Err(description)) == Err::<serde_json::Value, ElasticsearchErrorView>(
            ElasticsearchErrorView { status: None, message: description },
        ),
{
}

/// A response whose body is not JSON is an error that carries exactly the
/// response's status and the parser's description of the body.
pub proof fn lemma_unreadable_body_keeps_status(response: HttpResponseView)
    ensures
        json_parsed(response.body) is Err ==> exchange_outcome(Ok(response)) == Err::<
            serde_json::Value,
            ElasticsearchErrorView,
        >(
            ElasticsearchErrorView {
                status: Some(response.status),
                message: json_error_text(json_parsed(response.body)->Err_0),
            },
        ),
{
}

/// The status of a response does not decide how it is read: two responses with
/// the same body are the same document, or both errors with the same message.
pub proof fn lemma_status_does_not_decide(first: HttpResponseView, second: HttpResponseView)
    requires
        first.body == second.body,
    ensures
        response_outcome(first) is Ok <==> response_outcome(second) is Ok,
        response_outcome(first) is Ok ==> response_outcome(first) == response_outcome(second)
            && response_outcome(first) == Ok::<serde_json::Value, ElasticsearchErrorView>(
            json_parsed(first.body)->Ok_0,
        ),
        response_outcome(first) is Err ==> response_outcome(first)->Err_0.message
            == response_outcome(second)->Err_0.message,
{
}

/// A request holds nothing but its endpoint and its query, and executing it
/// changes neither: requests for the same base address and fragment issue the same
/// HTTP request, and each one's result is decided by the outcome of its own
/// exchange alone, whatever the other was given and whichever was executed first.
pub proof fn lemma_equal_requests_agree(
    first: ElasticsearchProfileQueryRequest,
    second: ElasticsearchProfileQueryRequest,
    first_exchange: ExchangeResult,
    second_exchange: ExchangeResult,
)
    requires
        first.base_url() == second.base_url(),
        first.fragment() == second.fragment(),
    ensures
        first.request_view() == second.request_view(),
        exchange_view(first_exchange) == exchange_view(second_exchange) ==> exchange_outcome(
            exchange_view(first_exchange),
        ) == exchange_outcome(exchange_view(second_exchange)),
{
}

} // verus!
