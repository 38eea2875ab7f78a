//! URL utilities: absolutizing a relative path against a base URL, joining a
//! base path with a sub-path using slash-aware concatenation, and building the
//! proxied audio enclosure URL.

use vstd::prelude::*;

verus! {

/// The components of an absolute base URL that the feed logic works with:
/// the origin (scheme, host and port, e.g. `https://host`) and the path.
/// Query and fragment play no part in feed construction and are not carried.
#[derive(Clone)]
pub struct UrlParts {
    pub origin: String,
    pub path: String,
}

/// A path with a leading slash: hierarchical URLs always serialize their path
/// with one, whether or not the caller supplied it.
pub open spec fn with_leading_slash(p: Seq<char>) -> Seq<char> {
    if p.len() > 0 && p[0] == '/' {
        p
    } else {
        seq!['/'] + p
    }
}

/// What `make_url` returns: the base's origin with `path` as the whole path.
pub open spec fn spec_make_url(origin: Seq<char>, path: Seq<char>) -> Seq<char> {
    origin + with_leading_slash(path)
}

/// Absolutize `path` against `base_url`: the path component of the base is
/// replaced outright (overwrite semantics, not a join), and the resulting
/// absolute URL is returned as a string.
pub fn make_url(base_url: &UrlParts, path: &str) -> (r: String)
    ensures
        r@ == spec_make_url(base_url.origin@, path@),
{
    let mut out = base_url.origin.clone();
    if path.unicode_len() == 0 || path.get_char(0) != '/' {
        out.append("/");
        proof {
            reveal_strlit("/");
            assert(out@ =~= base_url.origin@ + seq!['/']);
        }
    }
    out.append(path);
    proof {
        assert(out@ =~= spec_make_url(base_url.origin@, path@));
    }
    out
}

/// `p` with one trailing slash removed, if it has one.
pub open spec fn strip_trailing_slash(p: Seq<char>) -> Seq<char> {
    if p.len() > 0 && p.last() == '/' {
        p.drop_last()
    } else {
        p
    }
}

/// `p` with one leading slash removed, if it has one.
pub open spec fn strip_leading_slash(p: Seq<char>) -> Seq<char> {
    if p.len() > 0 && p[0] == '/' {
        p.drop_first()
    } else {
        p
    }
}

/// What joining two path segments yields: at most one trailing slash of the
/// base and one leading slash of the sub-path are dropped, and the two sides
/// meet at exactly one separating slash.
pub open spec fn spec_join_path(base: Seq<char>, sub: Seq<char>) -> Seq<char> {
    strip_trailing_slash(base) + seq!['/'] + strip_leading_slash(sub)
}

/// Produce a URL whose path is the base's path and `path` concatenated with
/// exactly one separating slash, whether or not either side already has a
/// leading or trailing slash.
pub fn concat_url_path_with_slash(base: &UrlParts, path: &str) -> (r: UrlParts)
    ensures
        r.origin@ == base.origin@,
        r.path@ == spec_join_path(base.path@, path@),
{
    let base_path: &str = base.path.as_str();
    let bl = base_path.unicode_len();
    let head: &str = if bl > 0 && base_path.get_char(bl - 1) == '/' {
        base_path.substring_char(0, bl - 1)
    } else {
        base_path
    };
    let sl = path.unicode_len();
    let tail: &str = if sl > 0 && path.get_char(0) == '/' {
        path.substring_char(1, sl)
    } else {
        path
    };
    let mut joined = String::from_str(head);
    joined.append("/");
    joined.append(tail);
    proof {
        reveal_strlit("/");
        assert(head@ =~= strip_trailing_slash(base.path@));
        assert(tail@ =~= strip_leading_slash(path@));
        assert(joined@ =~= spec_join_path(base.path@, path@));
    }
    UrlParts { origin: base.origin.clone(), path: joined }
}

/// What the proxied enclosure URL looks like: the public base joined with
/// `/audio`, then `?url=` and the raw audio URL.
///
/// The raw value is embedded verbatim, without percent-encoding: podcast
/// clients resolve the resulting links as-is, and feeds already in the wild
/// depend on the unescaped form. An audio URL that itself contains `&` or
/// another reserved query character therefore corrupts the query string; this
/// is a deliberate compatibility choice, not an oversight.
pub open spec fn spec_make_audio_url(origin: Seq<char>, base_path: Seq<char>, url_param: Seq<char>) -> Seq<char> {
    origin + with_leading_slash(spec_join_path(base_path, "/audio"@)) + "?url="@ + url_param
}

/// Build the URL under which a proxied audio enclosure is served: `base` with
/// `/audio` joined onto its path and the raw audio URL as the `url` query
/// parameter (unescaped; see `spec_make_audio_url`).
pub fn make_audio_url(base: &UrlParts, url_param: &str) -> (r: String)
    ensures
        r@ == spec_make_audio_url(base.origin@, base.path@, url_param@),
{
    let audio = concat_url_path_with_slash(base, "/audio");
    let mut out = make_url(&UrlParts { origin: audio.origin, path: String::new() }, audio.path.as_str());
    out.append("?url=");
    out.append(url_param);
    proof {
        assert(out@ =~= spec_make_audio_url(base.origin@, base.path@, url_param@));
    }
    out
}

/// Joining is insensitive to how the two sides spell the boundary: for a base
/// with no trailing slash and a sub-path with no leading slash, adding either
/// slash (or both) changes nothing, and the join is the two sides around
/// exactly one separating slash.
pub proof fn lemma_join_path_single_slash(base: Seq<char>, sub: Seq<char>)
    requires
        base.len() == 0 || base.last() != '/',
        sub.len() == 0 || sub[0] != '/',
    ensures
        spec_join_path(base, sub) == base + seq!['/'] + sub,
        spec_join_path(base + seq!['/'], sub) == base + seq!['/'] + sub,
        spec_join_path(base, seq!['/'] + sub) == base + seq!['/'] + sub,
        spec_join_path(base + seq!['/'], seq!['/'] + sub) == base + seq!['/'] + sub,
{
    assert((base + seq!['/']).drop_last() =~= base);
    assert((seq!['/'] + sub).drop_first() =~= sub);
    assert(spec_join_path(base, sub) =~= base + seq!['/'] + sub);
    assert(spec_join_path(base + seq!['/'], sub) =~= base + seq!['/'] + sub);
    assert(spec_join_path(base, seq!['/'] + sub) =~= base + seq!['/'] + sub);
    assert(spec_join_path(base + seq!['/'], seq!['/'] + sub) =~= base + seq!['/'] + sub);
}

} // verus!
