//! A call of an endpoint with its headers.

use vstd::hash_map::StringHashMap;
use vstd::prelude::*;
use vstd::string::*;
use super::http_method::HttpMethod;
use super::task::NetworkTask;

verus! {

/// The browser a call made by [`create_api`] names as its user agent, written
/// over three continued lines.
pub open spec fn browser() -> Seq<char> {
    "\nMozilla/5.0 (Macintosh; Intel Mac OS X 10_15_7) \\\nAppleWebKit/537.36 (KHTML, like Gecko) \\\nChrome/133.0.0.0 Safari/537.36\n            "@
}

/// One call of an endpoint, with headers set by name.
pub struct Api {
    pub base_url: String,
    pub path: String,
    pub method: HttpMethod,
    pub task: NetworkTask,
    pub headers: StringHashMap<String>,
}

impl Api {
    /// A call without headers.
    pub fn new(base_url: String, path: String, method: HttpMethod, task: NetworkTask) -> (api: Self)
        ensures
            api.base_url == base_url,
            api.path == path,
            api.method == method,
            api.task == task,
            api.headers@ == Map::<Seq<char>, String>::empty(),
    {
        Api { base_url, path, method, task, headers: StringHashMap::new() }
    }

    /// Sets the header `key` to `value`, replacing what it held.
    pub fn set_header(&mut self, key: &str, value: &str)
        ensures
            final(self).headers@.dom() == old(self).headers@.dom().insert(key@),
            final(self).headers@[key@]@ == value@,
            forall|other: Seq<char>|
                other != key@ && old(self).headers@.contains_key(other) ==> final(self).headers@[other]
                    == old(self).headers@[other],
            final(self).base_url == old(self).base_url,
            final(self).path == old(self).path,
            final(self).method == old(self).method,
            final(self).task == old(self).task,
    {
        self.headers.insert(key.to_owned(), value.to_owned());
    }
}

/// A call of an endpoint that says it sends JSON and names a browser: the
/// headers `Content-Type` and `User-Agent` are set, and no other.
pub fn create_api(base_url: &str, path: &str, method: HttpMethod, task: NetworkTask) -> (api: Api)
    ensures
        api.base_url@ == base_url@,
        api.path@ == path@,
        api.method == method,
        api.task == task,
        api.headers@.dom() == set!["Content-Type"@, "User-Agent"@],
        api.headers@["Content-Type"@]@ == "application/json"@,
        api.headers@["User-Agent"@]@ == browser(),
{
    let mut api = Api::new(base_url.to_owned(), path.to_owned(), method, task);
    api.set_header("Content-Type", "application/json");
    api.set_header(
        "User-Agent",
        "\nMozilla/5.0 (Macintosh; Intel Mac OS X 10_15_7) \\\nAppleWebKit/537.36 (KHTML, like Gecko) \\\nChrome/133.0.0.0 Safari/537.36\n            ",
    );
    proof {
        reveal_strlit("Content-Type");
        reveal_strlit("User-Agent");
        assert("Content-Type"@.len() != "User-Agent"@.len());
        assert(api.headers@.dom() =~= set!["Content-Type"@, "User-Agent"@]);
    }
    api
}

} // verus!
