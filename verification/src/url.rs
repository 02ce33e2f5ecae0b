//! Upstream addresses: the batch authority and the realtime endpoint that a
//! base URL stands for.

use crate::text::all_trailing_slashes_go;
use crate::text::is_slashes;
use crate::text::strip_prefix;
use crate::text::trim_end_slashes;
use crate::text::without_trailing_slashes;
use vstd::prelude::*;
use vstd::string::StringExecFns;

verus! {

/// Whether the base URL is reached without TLS: it says `http://`.
pub open spec fn is_plain(base: Seq<char>) -> bool {
    "http://"@.is_prefix_of(base)
}

/// The base URL without its scheme, if it has one.
pub open spec fn without_scheme(base: Seq<char>) -> Seq<char> {
    if "https://"@.is_prefix_of(base) {
        base.skip("https://"@.len() as int)
    } else if "http://"@.is_prefix_of(base) {
        base.skip("http://"@.len() as int)
    } else {
        base
    }
}

/// The `host[:port]` of a base URL: what is left without the scheme and the
/// trailing slashes.
pub open spec fn authority(base: Seq<char>) -> Seq<char> {
    without_trailing_slashes(without_scheme(base))
}

/// The realtime endpoint of a base URL, for a model.
pub open spec fn realtime_endpoint(base: Seq<char>, model: Seq<char>) -> Seq<char> {
    (if is_plain(base) {
        "ws"@
    } else {
        "wss"@
    }) + "://"@ + authority(base) + "/v1/audio/transcriptions/realtime?model="@ + model
}

/// No text starts with both schemes.
proof fn schemes_are_disjoint(base: Seq<char>)
    ensures
        !("https://"@.is_prefix_of(base) && is_plain(base)),
{
    reveal_strlit("https://");
    reveal_strlit("http://");
    if "https://"@.is_prefix_of(base) && is_plain(base) {
        assert("https://"@[4] == base.subrange(0, "https://"@.len() as int)[4]);
        assert("http://"@[4] == base.subrange(0, "http://"@.len() as int)[4]);
    }
}

/// Split a base URL into `(is_https, authority)`, where authority is
/// `host[:port]`. A bare host (no scheme) is treated as HTTPS.
#[must_use]
pub fn parse_base(base: &str) -> (r: (bool, String))
    ensures
        r.0 == !is_plain(base@),
        r.0 == !"http://"@.is_prefix_of(base@),
        r.1@ == authority(base@),
{
    proof {
        schemes_are_disjoint(base@);
    }
    if let Some(rest) = strip_prefix(base, "https://") {
        (true, trim_end_slashes(rest).to_string())
    } else if let Some(rest) = strip_prefix(base, "http://") {
        (false, trim_end_slashes(rest).to_string())
    } else {
        (true, trim_end_slashes(base).to_string())
    }
}

/// Convert an `http(s)://host` base URL into the realtime `ws(s)://` endpoint.
/// Defaults to `wss://` when no scheme is present.
#[must_use]
pub fn ws_url(base_url: &str, model: &str) -> (r: String)
    ensures
        r@ == realtime_endpoint(base_url@, model@),
{
    let host = if let Some(rest) = strip_prefix(base_url, "https://") {
        rest
    } else if let Some(rest) = strip_prefix(base_url, "http://") {
        rest
    } else {
        base_url
    };
    let scheme = if strip_prefix(base_url, "http://").is_some() {
        "ws"
    } else {
        "wss"
    };
    let mut url = scheme.to_string();
    url.append("://");
    url.append(trim_end_slashes(host));
    url.append("/v1/audio/transcriptions/realtime?model=");
    url.append(model);
    url
}

/// Taking the trailing slashes off leaves none.
proof fn no_trailing_slash_is_left(s: Seq<char>)
    ensures
        without_trailing_slashes(s).len() > 0 ==> without_trailing_slashes(s).last() != '/',
    decreases s.len(),
{
    if s.len() > 0 && s.last() == '/' {
        no_trailing_slash_is_left(s.drop_last());
    }
}

/// An authority never ends in a slash.
pub proof fn authority_has_no_trailing_slash(base: Seq<char>)
    ensures
        authority(base).len() > 0 ==> authority(base).last() != '/',
{
    no_trailing_slash_is_left(without_scheme(base));
}

/// A bare host stands for the same upstream as the host behind `https://`.
pub proof fn bare_host_means_https(host: Seq<char>)
    requires
        !"https://"@.is_prefix_of(host),
        !"http://"@.is_prefix_of(host),
    ensures
        is_plain(host) == is_plain("https://"@ + host),
        authority(host) == authority("https://"@ + host),
{
    let full = "https://"@ + host;
    assert(full.subrange(0, "https://"@.len() as int) =~= "https://"@);
    assert(full.skip("https://"@.len() as int) =~= host);
    schemes_are_disjoint(full);
}

/// The scheme decides on TLS and nothing else: behind `https://` and behind
/// `http://` the same host is the same authority.
pub proof fn scheme_decides_only_tls(host: Seq<char>)
    ensures
        !is_plain("https://"@ + host),
        is_plain("http://"@ + host),
        authority("https://"@ + host) == without_trailing_slashes(host),
        authority("http://"@ + host) == without_trailing_slashes(host),
{
    let secure = "https://"@ + host;
    assert(secure.subrange(0, "https://"@.len() as int) =~= "https://"@);
    assert(secure.skip("https://"@.len() as int) =~= host);
    schemes_are_disjoint(secure);
    let plain = "http://"@ + host;
    assert(plain.subrange(0, "http://"@.len() as int) =~= "http://"@);
    assert(plain.skip("http://"@.len() as int) =~= host);
    schemes_are_disjoint(plain);
}

/// A slash appended to a base URL changes nothing, unless it completes a
/// scheme (`http:/` or `https:/`).
pub proof fn trailing_slash_is_ignored(base: Seq<char>)
    requires
        base != "http:/"@,
        base != "https:/"@,
    ensures
        is_plain(base.push('/')) == is_plain(base),
        authority(base.push('/')) == authority(base),
{
    reveal_strlit("http:/");
    reveal_strlit("https:/");
    reveal_strlit("http://");
    reveal_strlit("https://");
    let longer = base.push('/');
    prefix_survives_slash("https://"@, "https:/"@, base);
    prefix_survives_slash("http://"@, "http:/"@, base);
    let rest = without_scheme(base);
    assert(without_scheme(longer) =~= rest.push('/'));
    assert(rest.push('/').drop_last() =~= rest);
}

/// A text that is not the scheme short of its last slash starts with the scheme
/// if and only if it does so with a slash appended.
proof fn prefix_survives_slash(scheme: Seq<char>, short: Seq<char>, base: Seq<char>)
    requires
        scheme =~= short.push('/'),
        base != short,
    ensures
        scheme.is_prefix_of(base.push('/')) == scheme.is_prefix_of(base),
{
    let longer = base.push('/');
    let n = scheme.len() as int;
    if scheme.is_prefix_of(longer) {
        if n == longer.len() {
            assert(longer.subrange(0, n) =~= longer);
            assert(base =~= longer.drop_last());
            assert(short =~= scheme.drop_last());
        } else {
            assert(longer.subrange(0, n) =~= base.subrange(0, n));
        }
    }
    if scheme.is_prefix_of(base) {
        assert(longer.subrange(0, n) =~= base.subrange(0, n));
    }
}

/// The realtime endpoint lies on the authority that batch requests go to, and
/// is encrypted when they are.
pub proof fn realtime_endpoint_matches_batch(base: Seq<char>, model: Seq<char>)
    ensures
        realtime_endpoint(base, model) == (if !is_plain(base) {
            "wss://"@
        } else {
            "ws://"@
        }) + authority(base) + "/v1/audio/transcriptions/realtime?model="@ + model,
{
    reveal_strlit("ws");
    reveal_strlit("wss");
    reveal_strlit("://");
    reveal_strlit("ws://");
    reveal_strlit("wss://");
    assert("wss"@ + "://"@ =~= "wss://"@);
    assert("ws"@ + "://"@ =~= "ws://"@);
}

/// Whether a base URL is a scheme, that host and slashes. The scheme is `http://`
/// exactly where the host is reached without TLS; a base URL that starts with
/// neither scheme has none. The host does not end in a slash.
pub open spec fn names_host(base: Seq<char>, plain: bool, host: Seq<char>) -> bool {
    &&& exists|scheme: Seq<char>, slashes: Seq<char>|
        {
            &&& base == #[trigger] (scheme + host + slashes)
            &&& is_slashes(slashes)
            &&& scheme == "http://"@ || scheme == "https://"@ || scheme.len() == 0
            &&& plain <==> scheme == "http://"@
            &&& scheme.len() == 0 ==> !"http://"@.is_prefix_of(base)
                && !"https://"@.is_prefix_of(base)
        }
    &&& host.len() > 0 ==> host.last() != '/'
}

/// The authority is the host that the base URL names, and TLS is left out
/// exactly where its scheme says so.
pub proof fn a_base_url_is_scheme_authority_and_slashes(base: Seq<char>)
    ensures
        names_host(base, is_plain(base), authority(base)),
        is_plain(base) <==> "http://"@.is_prefix_of(base),
{
    reveal_strlit("http://");
    reveal_strlit("https://");
    schemes_are_disjoint(base);
    let scheme = if "https://"@.is_prefix_of(base) {
        "https://"@
    } else if "http://"@.is_prefix_of(base) {
        "http://"@
    } else {
        Seq::empty()
    };
    assert("https://"@.len() == 8 && "http://"@.len() == 7);
    let rest = without_scheme(base);
    assert(base =~= scheme + rest) by {
        assert(base.subrange(0, scheme.len() as int) =~= scheme);
        assert(rest =~= base.skip(scheme.len() as int));
    }
    all_trailing_slashes_go(rest);
    let n = authority(base).len() as int;
    let slashes = rest.skip(n);
    assert(rest.subrange(0, n) + slashes =~= rest);
    assert(base =~= scheme + authority(base) + slashes);
}

} // verus!
