//! Endpoints.

use vstd::prelude::*;
use super::http_method::HttpMethod;
use super::task::{NetworkTask, NetworkTaskView};

verus! {

/// The model of optional headers.
pub open spec fn headers_view(headers: Option<Vec<(String, String)>>) -> Option<
    Seq<(Seq<char>, Seq<char>)>,
> {
    match headers {
        Some(headers) => Some(headers.deep_view()),
        None => None,
    }
}

/// An endpoint: everything needed to describe one request to it.
///
/// The `spec` functions name what the methods return. An implementation
/// written in Verus defines them and proves its methods against them; for any
/// other implementation they stay unknown.
pub trait TargetType {
    /// The address of the server.
    open spec fn base_url_spec(&self) -> Seq<char> {
        arbitrary()
    }

    /// The path of the endpoint below the server's address.
    open spec fn path_spec(&self) -> Seq<char> {
        arbitrary()
    }

    /// The method of the request.
    open spec fn method_spec(&self) -> HttpMethod {
        arbitrary()
    }

    /// What the request carries.
    open spec fn task_spec(&self) -> NetworkTaskView {
        arbitrary()
    }

    /// The headers of the request, if it sets any. An endpoint sets none
    /// unless it says otherwise.
    open spec fn headers_spec(&self) -> Option<Seq<(Seq<char>, Seq<char>)>> {
        None
    }

    fn base_url(&self) -> (url: &str)
        ensures
            url@ == self.base_url_spec(),
    ;

    fn path(&self) -> (path: String)
        ensures
            path@ == self.path_spec(),
    ;

    fn method(&self) -> (method: HttpMethod)
        ensures
            method == self.method_spec(),
    ;

    fn task(&self) -> (task: NetworkTask)
        ensures
            task@ == self.task_spec(),
    ;

    fn headers(&self) -> (headers: Option<Vec<(String, String)>>)
        ensures
            headers_view(headers) == self.headers_spec(),
    ;
}

} // verus!
