//! Requests as `curl` command lines.

use vstd::prelude::*;
use vstd::string::*;
use super::plugin::{
    binary_body_text, binary_text, escape, escaped, RequestBody, RequestBodyView, RequestSummary,
    RequestSummaryView,
};

verus! {

/// How the body of a request is shown: text with its quotes escaped, other
/// bytes as a hexadecimal dump, and a body that is still to be produced as
/// `Unknown Content`.
pub open spec fn body_text(body: RequestBodyView) -> Seq<char> {
    match body {
        RequestBodyView::Text(text) => escaped(text, false),
        RequestBodyView::Binary(bytes) => binary_text(bytes),
        RequestBodyView::Stream => "Unknown Content"@,
    }
}

/// One `-H "<name>: <value>" ` per header, the value with its quotes escaped.
pub open spec fn header_flags(headers: Seq<(Seq<char>, Seq<char>)>) -> Seq<char>
    decreases headers.len(),
{
    if headers.len() == 0 {
        Seq::empty()
    } else {
        header_flags(headers.drop_last()) + "-H \""@ + headers.last().0 + ": "@ + escaped(
            headers.last().1,
            false,
        ) + "\" "@
    }
}

/// ` -d '<body>'` for a body that shows as something, nothing otherwise.
pub open spec fn data_flag(body: Option<RequestBodyView>) -> Seq<char> {
    match body {
        Some(body) => if body_text(body).len() == 0 {
            Seq::empty()
        } else {
            " -d '"@ + body_text(body) + "'"@
        },
        None => Seq::empty(),
    }
}

/// The command line that repeats a request:
/// `curl -X <method> '<url>' <header flags><data flag>`.
pub open spec fn curl_command(request: RequestSummaryView) -> Seq<char> {
    "curl -X "@ + request.method + " '"@ + request.url + "' "@ + header_flags(request.headers)
        + data_flag(request.body)
}

/// Shows each request as a `curl` command line.
pub struct CurlPlugin;

impl CurlPlugin {
    /// The message for a request that is about to be sent.
    pub fn on_request(&self, request: &RequestSummary) -> (message: String)
        ensures
            message@ == "Sending request: "@ + curl_command(request@),
    {
        let mut message = "Sending request: ".to_owned();
        message.append(Self::request_to_curl(request).as_str());
        message
    }

    /// The message for a response, given its status as text.
    pub fn on_response(&self, status: &str) -> (message: String)
        ensures
            message@ == "Received response with status: "@ + status@,
    {
        let mut message = "Received response with status: ".to_owned();
        message.append(status);
        message
    }

    /// The message for a request that failed, given the error as text.
    pub fn on_error(&self, error: &str) -> (message: String)
        ensures
            message@ == "Request occurred Error: "@ + error@,
    {
        let mut message = "Request occurred Error: ".to_owned();
        message.append(error);
        message
    }

    /// Writes the command line that repeats `request`.
    pub fn request_to_curl(request: &RequestSummary) -> (command: String)
        ensures
            command@ == curl_command(request@),
    {
        let mut command = "curl -X ".to_owned();
        command.append(request.method.as_str());
        command.append(" '");
        command.append(request.url.as_str());
        command.append("' ");
        let ghost start = command@;
        let ghost headers = request.headers.deep_view();
        let mut i: usize = 0;
        assert(start + header_flags(headers.take(0)) =~= start);
        while i < request.headers.len()
            invariant
                i <= request.headers.len(),
                headers == request.headers.deep_view(),
                command@ == start + header_flags(headers.take(i as int)),
            decreases request.headers.len() - i,
        {
            command.append("-H \"");
            command.append(request.headers[i].0.as_str());
            command.append(": ");
            command.append(escape(request.headers[i].1.as_str(), false).as_str());
            command.append("\" ");
            proof {
                let next = headers.take(i as int + 1);
                assert(next.drop_last() =~= headers.take(i as int));
                assert(next.last() == headers[i as int]);
                assert(command@ =~= start + header_flags(next));
            }
            i += 1;
        }
        assert(headers.take(request.headers.len() as int) =~= headers);
        match &request.body {
            Some(body) => {
                let shown = match body {
                    RequestBody::Text(text) => escape(text.as_str(), false),
                    RequestBody::Binary(bytes) => binary_body_text(bytes),
                    RequestBody::Stream => "Unknown Content".to_owned(),
                };
                if shown.as_str().unicode_len() > 0 {
                    command.append(" -d '");
                    command.append(shown.as_str());
                    command.append("'");
                }
            },
            None => {},
        }
        assert(command@ =~= curl_command(request@));
        command
    }
}

} // verus!
