//! Search query classifier: decides what string is handed to the audio
//! search backend for a raw user query.

use vstd::prelude::*;
use vstd::string::StringExecFns;

use crate::text::starts_with;
use crate::text::starts_with_str;
use crate::text::copy_str;

verus! {

/// The query is a direct URL and is passed through unchanged.
pub open spec fn is_direct_url(s: Seq<char>) -> bool {
    starts_with(s, "http://"@) || starts_with(s, "https://"@)
}

/// The query already names a search engine.
pub open spec fn has_engine_prefix(s: Seq<char>) -> bool {
    ||| starts_with(s, "ytsearch:"@)
    ||| starts_with(s, "ytmsearch:"@)
    ||| starts_with(s, "scsearch:"@)
    ||| starts_with(s, "spsearch:"@)
}

/// What the backend is asked to resolve: URLs and engine-prefixed queries
/// pass through; anything else gets the default engine prefix.
pub open spec fn search_query_spec(s: Seq<char>) -> Seq<char> {
    if is_direct_url(s) || has_engine_prefix(s) {
        s
    } else {
        "ytsearch:"@ + s
    }
}

/// Normalizes a raw user search string into the backend query string.
pub fn get_search_query(search: &str) -> (r: String)
    ensures
        r@ == search_query_spec(search@),
{
    if starts_with_str(search, "http://") || starts_with_str(search, "https://") {
        copy_str(search)
    } else if !starts_with_str(search, "ytsearch:") && !starts_with_str(search, "ytmsearch:")
        && !starts_with_str(search, "scsearch:") && !starts_with_str(search, "spsearch:") {
        let mut out = copy_str("ytsearch:");
        out.append(search);
        out
    } else {
        copy_str(search)
    }
}

} // verus!
