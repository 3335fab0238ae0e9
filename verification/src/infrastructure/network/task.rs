//! What a request carries.

use vstd::prelude::*;

verus! {

/// What a request carries.
#[derive(Debug, Clone, PartialEq, Eq)]
pub enum NetworkTask {
    /// Nothing beyond method and URL.
    RequestPlain,
    /// A JSON document as the body, as its text.
    RequestJson(String),
    /// Query parameters, each a key and a value.
    RequestParameters(Vec<(String, String)>),
}

/// The mathematical model of a [`NetworkTask`].
pub enum NetworkTaskView {
    RequestPlain,
    RequestJson(Seq<char>),
    RequestParameters(Seq<(Seq<char>, Seq<char>)>),
}

impl View for NetworkTask {
    type V = NetworkTaskView;

    open spec fn view(&self) -> NetworkTaskView {
        match self {
            NetworkTask::RequestPlain => NetworkTaskView::RequestPlain,
            NetworkTask::RequestJson(document) => NetworkTaskView::RequestJson(document@),
            NetworkTask::RequestParameters(parameters) => NetworkTaskView::RequestParameters(
                parameters.deep_view(),
            ),
        }
    }
}

} // verus!
