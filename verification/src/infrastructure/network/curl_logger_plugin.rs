//! Requests as `curl` command lines in the application's log.

use vstd::prelude::*;
use vstd::string::*;
use crate::infrastructure::logger::internal_logger::{record_view, LogRecord};
use crate::infrastructure::logger::level::LogLevel;
use crate::infrastructure::logger::logger::Logger;
use super::plugin::{
    binary_body_text, binary_text, escape, escaped, RequestBody, RequestBodyView, RequestSummary,
    RequestSummaryView,
};

verus! {

/// How the body of a request is shown in the log: text with each double quote
/// behind a backslash and each single quote behind two, other bytes as a
/// hexadecimal dump with its quotes escaped, and a body that is still to be
/// produced as `Unknown Content`.
pub open spec fn logged_body_text(body: RequestBodyView) -> Seq<char> {
    match body {
        RequestBodyView::Text(text) => escaped(text, true),
        RequestBodyView::Binary(bytes) => escaped(binary_text(bytes), false),
        RequestBodyView::Stream => "Unknown Content"@,
    }
}

/// One ` -H "<name>: <value>"` per header.
pub open spec fn logged_header_flags(headers: Seq<(Seq<char>, Seq<char>)>) -> Seq<char>
    decreases headers.len(),
{
    if headers.len() == 0 {
        Seq::empty()
    } else {
        logged_header_flags(headers.drop_last()) + " -H \""@ + headers.last().0 + ": "@
            + headers.last().1 + "\""@
    }
}

/// ` -d '<body>'` for a body that shows as something, nothing otherwise.
pub open spec fn logged_data_flag(body: Option<RequestBodyView>) -> Seq<char> {
    match body {
        Some(body) => if logged_body_text(body).len() == 0 {
            Seq::empty()
        } else {
            " -d '"@ + logged_body_text(body) + "'"@
        },
        None => Seq::empty(),
    }
}

/// The command line that repeats a request, as the log shows it:
/// `curl -X <method> '<url>'<header flags><data flag>`.
pub open spec fn logged_curl_command(request: RequestSummaryView) -> Seq<char> {
    "curl -X "@ + request.method + " '"@ + request.url + "'"@ + logged_header_flags(
        request.headers,
    ) + logged_data_flag(request.body)
}

/// Shows each request as a `curl` command line in the application's log,
/// under the domain `[NETWORK]`.
pub struct CurlLoggerPlugin;

impl CurlLoggerPlugin {
    /// Logs a request that is about to be sent, at level `Info`.
    pub fn on_request(&self, logger: &mut Logger, request: &RequestSummary) -> (record: Option<
        LogRecord,
    >)
        ensures
            final(logger)@ == old(logger)@.tagged("[NETWORK]"@),
            record_view(record) == final(logger)@.record(
                LogLevel::Info,
                "Sending request: "@ + logged_curl_command(request@),
            ),
    {
        let mut message = "Sending request: ".to_owned();
        message.append(Self::request_to_curl(request).as_str());
        logger.info("[NETWORK]".to_owned(), message.as_str())
    }

    /// Logs a response, given its status as text, at level `Info`.
    pub fn on_response(&self, logger: &mut Logger, status: &str) -> (record: Option<LogRecord>)
        ensures
            final(logger)@ == old(logger)@.tagged("[NETWORK]"@),
            record_view(record) == final(logger)@.record(
                LogLevel::Info,
                "Received response with status: "@ + status@,
            ),
    {
        let mut message = "Received response with status: ".to_owned();
        message.append(status);
        logger.info("[NETWORK]".to_owned(), message.as_str())
    }

    /// Logs a request that failed, given the error as text, at level `Error`.
    pub fn on_error(&self, logger: &mut Logger, error: &str) -> (record: Option<LogRecord>)
        ensures
            final(logger)@ == old(logger)@.tagged("[NETWORK]"@),
            record_view(record) == final(logger)@.record(
                LogLevel::Error,
                "Request occurred Error: "@ + error@,
            ),
    {
        let mut message = "Request occurred Error: ".to_owned();
        message.append(error);
        logger.error("[NETWORK]".to_owned(), message.as_str())
    }

    /// Writes the command line that repeats `request`.
    pub fn request_to_curl(request: &RequestSummary) -> (command: String)
        ensures
            command@ == logged_curl_command(request@),
    {
        let mut command = "curl -X ".to_owned();
        command.append(request.method.as_str());
        command.append(" '");
        command.append(request.url.as_str());
        command.append("'");
        let ghost start = command@;
        let ghost headers = request.headers.deep_view();
        let mut i: usize = 0;
        assert(start + logged_header_flags(headers.take(0)) =~= start);
        while i < request.headers.len()
            invariant
                i <= request.headers.len(),
                headers == request.headers.deep_view(),
                command@ == start + logged_header_flags(headers.take(i as int)),
            decreases request.headers.len() - i,
        {
            command.append(" -H \"");
            command.append(request.headers[i].0.as_str());
            command.append(": ");
            command.append(request.headers[i].1.as_str());
            command.append("\"");
            proof {
                let next = headers.take(i as int + 1);
                assert(next.drop_last() =~= headers.take(i as int));
                assert(next.last() == headers[i as int]);
                assert(command@ =~= start + logged_header_flags(next));
            }
            i += 1;
        }
        assert(headers.take(request.headers.len() as int) =~= headers);
        match &request.body {
            Some(body) => {
                let shown = match body {
                    RequestBody::Text(text) => escape(text.as_str(), true),
                    RequestBody::Binary(bytes) => escape(binary_body_text(bytes).as_str(), false),
                    RequestBody::Stream => "Unknown Content".to_owned(),
                };
                if shown.as_str().unicode_len() > 0 {
                    command.append(" -d '");
                    command.append(shown.as_str());
                    command.append("'");
                }
            },
            None => {},
        }
        assert(command@ =~= logged_curl_command(request@));
        command
    }
}

} // verus!
