//! The endpoints of the media server.

use vstd::prelude::*;
use vstd::string::*;
use crate::infrastructure::network::http_method::HttpMethod;
use crate::infrastructure::network::target::TargetType;
use crate::infrastructure::network::task::{NetworkTask, NetworkTaskView};

verus! {

/// The endpoints of the media server.
pub enum EmbyAPI {
    /// The profile of one user.
    GetUser { user_id: String, api_key: String },
}

/// The headers every request to the media server carries.
pub open spec fn emby_headers() -> Seq<(Seq<char>, Seq<char>)> {
    seq![
        ("accept"@, "application/json"@),
        ("origin"@, "<EMBY_DOMAIN>"@),
        ("referer"@, "<EMBY_DOMAIN>/"@),
        (
            "user-agent"@,
            "Mozilla/5.0 (Macintosh; Intel Mac OS X 10_15_7) AppleWebKit/537.36 (KHTML, like Gecko) Chrome/133.0.0.0 Safari/537.36"@,
        ),
    ]
}

impl TargetType for EmbyAPI {
    open spec fn base_url_spec(&self) -> Seq<char> {
        "<EMBY_DOMAIN>"@
    }

    open spec fn path_spec(&self) -> Seq<char> {
        match self {
            EmbyAPI::GetUser { user_id, .. } => "emby/Users/"@ + user_id@,
        }
    }

    open spec fn method_spec(&self) -> HttpMethod {
        HttpMethod::Get
    }

    open spec fn task_spec(&self) -> NetworkTaskView {
        match self {
            EmbyAPI::GetUser { api_key, .. } => NetworkTaskView::RequestParameters(
                seq![("api_key"@, api_key@)],
            ),
        }
    }

    open spec fn headers_spec(&self) -> Option<Seq<(Seq<char>, Seq<char>)>> {
        Some(emby_headers())
    }

    fn base_url(&self) -> (url: &str) {
        "<EMBY_DOMAIN>"
    }

    fn path(&self) -> (path: String) {
        match self {
            EmbyAPI::GetUser { user_id, .. } => {
                let mut path = "emby/Users/".to_owned();
                path.append(user_id.as_str());
                path
            },
        }
    }

    fn method(&self) -> (method: HttpMethod) {
        HttpMethod::Get
    }

    fn task(&self) -> (task: NetworkTask) {
        match self {
            EmbyAPI::GetUser { api_key, .. } => {
                let mut parameters: Vec<(String, String)> = Vec::new();
                parameters.push(("api_key".to_owned(), api_key.clone()));
                assert(parameters.deep_view() =~= seq![("api_key"@, api_key@)]);
                NetworkTask::RequestParameters(parameters)
            },
        }
    }

    fn headers(&self) -> (headers: Option<Vec<(String, String)>>) {
        let mut headers: Vec<(String, String)> = Vec::new();
        headers.push(("accept".to_owned(), "application/json".to_owned()));
        headers.push(("origin".to_owned(), "<EMBY_DOMAIN>".to_owned()));
        headers.push(("referer".to_owned(), "<EMBY_DOMAIN>/".to_owned()));
        headers.push(
            (
                "user-agent".to_owned(),
                "Mozilla/5.0 (Macintosh; Intel Mac OS X 10_15_7) AppleWebKit/537.36 (KHTML, like Gecko) Chrome/133.0.0.0 Safari/537.36".to_owned(),
            ),
        );
        assert(headers.deep_view() =~= emby_headers());
        Some(headers)
    }
}

} // verus!
