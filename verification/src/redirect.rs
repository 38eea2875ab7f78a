//! The audio redirect resolver: a bounded state machine that follows HTTP 302
//! redirects on behalf of the client until a terminal response is reached,
//! plus the header hygiene applied to the final 200 response. The machine
//! decides; the HTTP loop around it fetches and feeds each response back.

use vstd::prelude::*;

verus! {

broadcast use vstd::seq_lib::group_filter_ensures;

/// How many requests one resolution may issue. The bound exists to keep a
/// redirect loop from becoming unbounded work per request: it trades away
/// legitimately deep redirect chains for a hard cap.
pub const MAX_REDIRECTS: u8 = 3;

/// The serialization of `s` parsed as an absolute URL, or nothing if it does
/// not parse. The parsing rules take pages to state; the name stands for the
/// result, which depends on the input string alone.
pub uninterp spec fn parsed_url(s: Seq<char>) -> Option<Seq<char>>;

/// Relies on `url::Url::parse`: it accepts exactly the absolute URL strings
/// (a relative reference fails with a parse error), deterministically in the
/// input, and the parsed URL serializes back to a normalized string. The
/// error case carries the parse error's message.
#[verifier::external_body]
fn parse_absolute_url(s: &str) -> (r: Result<String, String>)
    ensures
        r matches Ok(u) ==> parsed_url(s@) == Some(u@),
        r is Err <==> parsed_url(s@) is None,
{
    match url::Url::parse(s) {
        Ok(u) => Ok(String::from(u)),
        Err(e) => Err(format!("{}", e)),
    }
}

/// The resolver's state between two requests: the URL to fetch next and how
/// many fetches may still be issued (the one for `current_url` included).
pub struct AudioResolver {
    pub current_url: String,
    pub fetches_left: u8,
}

/// What the resolver decides after seeing one upstream response.
pub enum ResolveOutcome {
    /// Fetch the resolver's new current URL and feed the response back.
    Redirect(AudioResolver),
    /// The upstream answered 200: stream its body back with filtered headers.
    /// This is the only success terminal state.
    Serve,
    /// Terminal failure: answer the client with this status and body.
    Fail { status: u16, body: String },
}

impl AudioResolver {
    pub open spec fn wf(&self) -> bool {
        1 <= self.fetches_left <= MAX_REDIRECTS
    }

    /// Start resolving the raw `url` query parameter. A parameter that does
    /// not parse as an absolute URL is rejected up front with the parse
    /// error's message; otherwise the resolver starts at the parsed URL with
    /// the full fetch budget.
    pub fn new(url_param: &str) -> (r: Result<AudioResolver, String>)
        ensures
            r matches Ok(res) ==> parsed_url(url_param@) matches Some(u) && res.current_url@ == u
                && res.fetches_left == MAX_REDIRECTS && res.wf(),
            r is Err <==> parsed_url(url_param@) is None,
    {
        match parse_absolute_url(url_param) {
            Ok(u) => Ok(AudioResolver { current_url: u, fetches_left: MAX_REDIRECTS }),
            Err(e) => Err(e),
        }
    }

    /// Decide on one upstream response for the current URL: serve a 200,
    /// follow a 302 whose `Location` parses (while budget remains — each
    /// redirect consumes one fetch, so chains are bounded), and fail
    /// everything else exactly as the client should see it.
    pub fn on_response(self, status: u16, location: Option<&str>) -> (r: ResolveOutcome)
        requires
            self.wf(),
        ensures
            status == 200 ==> r is Serve,
            status == 302 && location is None ==> (r matches ResolveOutcome::Fail {
                status: st,
                body,
            } && st == 500 && body@ == "received 302 but no Location header found"@),
            status == 302 ==> (location matches Some(l) ==> (parsed_url(l@) is None ==> (r
                matches ResolveOutcome::Fail { status: st, body } && st == 500))),
            status == 302 && self.fetches_left > 1 ==> (location matches Some(l) ==> (parsed_url(
                l@,
            ) matches Some(u) ==> (r matches ResolveOutcome::Redirect(next) && next.current_url@
                == u && next.fetches_left == self.fetches_left - 1 && next.wf()))),
            status == 302 && self.fetches_left == 1 ==> (location matches Some(l) ==> (parsed_url(
                l@,
            ) is Some ==> (r matches ResolveOutcome::Fail {
                status: st,
                body,
            } && st == 500 && body@ == "too many redirects!"@))),
            status != 200 && status != 302 ==> (r matches ResolveOutcome::Fail {
                status: st,
                body,
            } && st == status && body@ == "received unexpected status code"@),
    {
        if status == 200 {
            ResolveOutcome::Serve
        } else if status == 302 {
            match location {
                None => ResolveOutcome::Fail {
                    status: 500,
                    body: String::from_str("received 302 but no Location header found"),
                },
                Some(l) => match parse_absolute_url(l) {
                    Err(e) => ResolveOutcome::Fail { status: 500, body: e },
                    Ok(u) => {
                        if self.fetches_left > 1 {
                            ResolveOutcome::Redirect(
                                AudioResolver {
                                    current_url: u,
                                    fetches_left: self.fetches_left - 1,
                                },
                            )
                        } else {
                            ResolveOutcome::Fail {
                                status: 500,
                                body: String::from_str("too many redirects!"),
                            }
                        }
                    },
                },
            }
        } else {
            ResolveOutcome::Fail {
                status,
                body: String::from_str("received unexpected status code"),
            }
        }
    }
}

proof fn lemma_chain_decreases(chain: Seq<AudioResolver>, i: int)
    requires
        0 <= i < chain.len(),
        forall|j: int| 0 < j < chain.len() ==> (#[trigger] chain[j]).fetches_left < chain[
            j - 1
        ].fetches_left,
    ensures
        chain[i].fetches_left <= chain[0].fetches_left - i,
    decreases i,
{
    if i > 0 {
        lemma_chain_decreases(chain, i - 1);
    }
}

/// Redirect chains are hard-bounded. `on_response` only ever hands back a
/// resolver with strictly fewer fetches left, and every resolver state keeps
/// between 1 and `MAX_REDIRECTS` of them, so a run of consecutive resolver
/// states — and with it the work done for one audio request — can never be
/// longer than `MAX_REDIRECTS`.
pub proof fn lemma_redirect_chain_bounded(chain: Seq<AudioResolver>)
    requires
        chain.len() > 0,
        forall|i: int| 0 <= i < chain.len() ==> (#[trigger] chain[i]).wf(),
        forall|i: int| 0 < i < chain.len() ==> (#[trigger] chain[i]).fetches_left < chain[
            i - 1
        ].fetches_left,
    ensures
        chain.len() <= MAX_REDIRECTS,
{
    lemma_chain_decreases(chain, chain.len() - 1);
}

pub open spec fn char_lower(c: char) -> int {
    if 65 <= c as u32 && c as u32 <= 90 {
        c as u32 + 32
    } else {
        c as u32 as int
    }
}

/// Case-insensitive (ASCII) equality of two header names.
pub open spec fn matches_ci(n: Seq<char>, lit: Seq<char>) -> bool {
    n.len() == lit.len() && (forall|i: int|
        0 <= i < n.len() ==> char_lower(#[trigger] n[i]) == char_lower(lit[i]))
}

/// The fixed exclusion set applied to the final response's headers, compared
/// case-insensitively: these hop-specific names are never forwarded.
pub open spec fn spec_excluded_header(n: Seq<char>) -> bool {
    ||| matches_ci(n, "host"@)
    ||| matches_ci(n, "origin"@)
    ||| matches_ci(n, "src-fetch-mode"@)
    ||| matches_ci(n, "src-fetch-site"@)
}

fn eq_ignore_ascii_case(a: &str, b: &str) -> (r: bool)
    ensures
        r == matches_ci(a@, b@),
{
    let an = a.unicode_len();
    let bn = b.unicode_len();
    if an != bn {
        return false;
    }
    let mut i: usize = 0;
    while i < an
        invariant
            i <= an,
            an == a@.len(),
            an == b@.len(),
            forall|j: int| 0 <= j < i ==> char_lower(#[trigger] a@[j]) == char_lower(b@[j]),
        decreases an - i,
    {
        let ca = a.get_char(i) as u32;
        let cb = b.get_char(i) as u32;
        let la = if 65 <= ca && ca <= 90 {
            ca + 32
        } else {
            ca
        };
        let lb = if 65 <= cb && cb <= 90 {
            cb + 32
        } else {
            cb
        };
        if la != lb {
            return false;
        }
        i = i + 1;
    }
    true
}

/// Whether a response header is in the exclusion set (see
/// `spec_excluded_header`).
pub fn is_excluded_header(name: &str) -> (r: bool)
    ensures
        r == spec_excluded_header(name@),
{
    eq_ignore_ascii_case(name, "host") || eq_ignore_ascii_case(name, "origin")
        || eq_ignore_ascii_case(name, "src-fetch-mode") || eq_ignore_ascii_case(
        name,
        "src-fetch-site",
    )
}

/// The predicate a forwarded header name must satisfy.
pub open spec fn keep_header_pred() -> spec_fn(String) -> bool {
    |n: String| !spec_excluded_header(n@)
}

/// The header names of the final 200 response that are forwarded to the
/// client: all of them, in order, except the exclusion set.
pub fn filter_header_names(names: &Vec<String>) -> (r: Vec<String>)
    ensures
        r@ == names@.filter(keep_header_pred()),
{
    let mut out: Vec<String> = Vec::new();
    let mut i: usize = 0;
    while i < names.len()
        invariant
            i <= names@.len(),
            out@ == names@.subrange(0, i as int).filter(keep_header_pred()),
        decreases names@.len() - i,
    {
        let name = &names[i];
        if !is_excluded_header(name.as_str()) {
            out.push(name.clone());
        }
        i = i + 1;
        proof {
            let pre = names@.subrange(0, i - 1);
            let cur = names@.subrange(0, i as int);
            assert(cur =~= pre + seq![names@[i - 1]]);
            Seq::filter_distributes_over_add(pre, seq![names@[i - 1]], keep_header_pred());
            reveal_with_fuel(Seq::filter, 2);
            assert(seq![names@[i - 1]].drop_last() =~= Seq::<String>::empty());
        }
    }
    proof {
        assert(names@.subrange(0, names@.len() as int) =~= names@);
    }
    out
}

} // verus!
