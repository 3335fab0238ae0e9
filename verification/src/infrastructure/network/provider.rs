//! Describing the request to an endpoint.

use vstd::prelude::*;
use vstd::string::*;
use crate::infrastructure::text::{trim_end, trim_end_matches, trim_start, trim_start_matches};
use super::http_method::HttpMethod;
use super::target::TargetType;
use super::task::{NetworkTask, NetworkTaskView};

verus! {

/// The URL of an endpoint: the server's address and the path, joined by
/// exactly one slash.
pub open spec fn request_url(base_url: Seq<char>, path: Seq<char>) -> Seq<char> {
    trim_end(base_url, '/') + "/"@ + trim_start(path, '/')
}

/// Joins the server's address and the path of an endpoint.
pub fn join_url(base_url: &str, path: &str) -> (url: String)
    ensures
        url@ == request_url(base_url@, path@),
{
    let mut url = trim_end_matches(base_url, '/').to_owned();
    url.append("/");
    url.append(trim_start_matches(path, '/'));
    url
}

/// A request, described: what to send where.
#[derive(Debug, Clone)]
pub struct HttpRequest {
    pub method: HttpMethod,
    pub url: String,
    pub headers: Vec<(String, String)>,
    pub task: NetworkTask,
}

/// The mathematical model of an [`HttpRequest`].
pub struct HttpRequestView {
    pub method: HttpMethod,
    pub url: Seq<char>,
    pub headers: Seq<(Seq<char>, Seq<char>)>,
    pub task: NetworkTaskView,
}

impl View for HttpRequest {
    type V = HttpRequestView;

    open spec fn view(&self) -> HttpRequestView {
        HttpRequestView {
            method: self.method,
            url: self.url@,
            headers: self.headers.deep_view(),
            task: self.task@,
        }
    }
}

/// The request to the endpoint `target` describes.
pub open spec fn request_to<T: TargetType>(target: &T) -> HttpRequestView {
    HttpRequestView {
        method: target.method_spec(),
        url: request_url(target.base_url_spec(), target.path_spec()),
        headers: match target.headers_spec() {
            Some(headers) => headers,
            None => Seq::empty(),
        },
        task: target.task_spec(),
    }
}

/// Describes requests, and carries the plugins that watch them being sent.
pub struct NetworkProvider<P> {
    plugins: Vec<P>,
}

impl<P> NetworkProvider<P> {
    /// The plugins of this provider, in the order they are notified.
    pub closed spec fn plugins_spec(&self) -> Seq<P> {
        self.plugins@
    }

    pub fn new(plugins: Vec<P>) -> (provider: Self)
        ensures
            provider.plugins_spec() == plugins@,
    {
        Self { plugins }
    }

    pub fn plugins(&self) -> (plugins: &Vec<P>)
        ensures
            plugins@ == self.plugins_spec(),
    {
        &self.plugins
    }

    /// Describes the request to `target`.
    pub fn send_request<T: TargetType>(&self, target: &T) -> (request: HttpRequest)
        ensures
            request@ == request_to(target),
    {
        let path = target.path();
        let url = join_url(target.base_url(), path.as_str());
        let headers = match target.headers() {
            Some(headers) => headers,
            None => Vec::new(),
        };
        let request = HttpRequest { method: target.method(), url, headers, task: target.task() };
        assert(request@.headers =~= request_to(target).headers);
        request
    }
}

} // verus!
