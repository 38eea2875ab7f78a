//! The program fetcher's decidable part: the URL a program's JSON document
//! lives at, and what to do with the upstream response status. The single
//! GET itself happens outside the library.

use vstd::prelude::*;

use crate::urls::{make_url, spec_make_url, UrlParts};

verus! {

/// What the feed handler does with the upstream response: only a 200 has its
/// body parsed as a program document; any other status is answered with an
/// empty 404, without touching the body.
pub enum FeedFetchStep {
    ParseBody,
    NotFound,
}

pub fn feed_fetch_step(status: u16) -> (r: FeedFetchStep)
    ensures
        r is ParseBody <==> status == 200,
{
    if status == 200 {
        FeedFetchStep::ParseBody
    } else {
        FeedFetchStep::NotFound
    }
}

/// The upstream path of a program's JSON document, for an opaque program
/// identifier.
pub fn program_json_path(program: &str) -> (r: String)
    ensures
        r@ == "programmi/"@ + program@ + ".json"@,
{
    let mut out = String::from_str("programmi/");
    out.append(program);
    out.append(".json");
    proof {
        assert(out@ =~= "programmi/"@ + program@ + ".json"@);
    }
    out
}

/// The full URL of a program's JSON document on the upstream content host.
pub fn program_json_url(base: &UrlParts, program: &str) -> (r: String)
    ensures
        r@ == spec_make_url(base.origin@, "programmi/"@ + program@ + ".json"@),
{
    let path = program_json_path(program);
    make_url(base, path.as_str())
}

} // verus!
