//! Where the window may navigate: the application's own origins, and
//! nowhere else. A news link must not carry the privileged window, where
//! `invoke` is reachable, off to a remote site.

use vstd::prelude::*;
use crate::log::is_named;
use crate::text::{append, dec, owned, push_decimal};

verus! {

/// What the check reads of a URL.
#[derive(Debug, Clone, PartialEq, Eq)]
pub struct UrlParts {
    /// The origin, serialized as ASCII: `null` for a scheme the URL
    /// standard does not know, such as `tauri`.
    pub origin: String,
    pub scheme: String,
    pub host: Option<String>,
    /// The port, when it is not the scheme's default.
    pub port: Option<u16>,
}

/// The origins that are the application itself: the asset protocol's on
/// Linux and macOS, on Windows (two forms), and the development server's.
pub open spec fn origins() -> Seq<Seq<char>> {
    seq![
        "tauri://localhost"@,
        "http://tauri.localhost"@,
        "https://tauri.localhost"@,
        "http://localhost:1420"@
    ]
}

/// The origin written back from its parts: scheme, host, and port if any.
pub open spec fn recomposed(scheme: Seq<char>, host: Seq<char>, port: Option<u16>) -> Seq<char> {
    scheme + "://"@ + host + match port {
        Some(p) => seq![':'] + dec(p as nat),
        None => Seq::empty(),
    }
}

/// Is navigating there allowed? Its origin is one of the application's,
/// or, since a `tauri` URL's origin reads `null`, its recomposed origin is.
pub open spec fn is_allowed(u: UrlParts) -> bool {
    origins().contains(u.origin@) || match u.host {
        Some(h) => origins().contains(recomposed(u.scheme@, h@, u.port)),
        None => false,
    }
}

/// Is `text` one of the application's origins?
fn is_origin(text: &str) -> (r: bool)
    ensures
        r == origins().contains(text@),
{
    let r = is_named(text, "tauri://localhost") || is_named(text, "http://tauri.localhost")
        || is_named(text, "https://tauri.localhost") || is_named(text, "http://localhost:1420");
    proof {
        if origins().contains(text@) {
            let i: int = choose|i: int| 0 <= i < origins().len() && origins()[i] == text@;
            assert(0 <= i < 4);
        }
        if r {
            if text@ == "tauri://localhost"@ {
                assert(origins()[0] == text@);
            } else if text@ == "http://tauri.localhost"@ {
                assert(origins()[1] == text@);
            } else if text@ == "https://tauri.localhost"@ {
                assert(origins()[2] == text@);
            } else {
                assert(origins()[3] == text@);
            }
        }
    }
    r
}

/// Is navigating to this URL one the application allows?
pub fn allowed(url: &UrlParts) -> (r: bool)
    ensures
        r == is_allowed(*url),
{
    if is_origin(url.origin.as_str()) {
        return true;
    }
    match &url.host {
        Some(host) => {
            let mut origin = owned(url.scheme.as_str());
            append(&mut origin, "://");
            append(&mut origin, host.as_str());
            match url.port {
                Some(p) => {
                    append(&mut origin, ":");
                    push_decimal(&mut origin, p as u64);
                },
                None => {},
            }
            proof {
                reveal_strlit(":");
            }
            assert(origin@ =~= recomposed(url.scheme@, host@, url.port));
            is_origin(origin.as_str())
        },
        None => false,
    }
}

/// Each of the application's origins is allowed: the asset protocol's on
/// Linux and macOS, both forms on Windows, and the development server's. A
/// URL whose origin is one of them may be navigated to.
pub proof fn law_every_application_origin_is_allowed(u: UrlParts)
    requires
        u.origin@ == "tauri://localhost"@ || u.origin@ == "http://tauri.localhost"@
            || u.origin@ == "https://tauri.localhost"@ || u.origin@ == "http://localhost:1420"@,
    ensures
        is_allowed(u),
{
    if u.origin@ == "tauri://localhost"@ {
        assert(origins()[0] == u.origin@);
    } else if u.origin@ == "http://tauri.localhost"@ {
        assert(origins()[1] == u.origin@);
    } else if u.origin@ == "https://tauri.localhost"@ {
        assert(origins()[2] == u.origin@);
    } else {
        assert(origins()[3] == u.origin@);
    }
}

/// A URL of the asset protocol, whose origin reads `null`, is allowed by
/// its scheme and host: `tauri://localhost` is the application.
pub proof fn law_the_asset_protocol_is_allowed_by_its_host(u: UrlParts)
    requires
        u.scheme@ == "tauri"@,
        u.host matches Some(h) && h@ == "localhost"@,
        u.port is None,
    ensures
        is_allowed(u),
{
    let h = u.host->Some_0;
    reveal_strlit("tauri");
    reveal_strlit("localhost");
    reveal_strlit("://");
    reveal_strlit("tauri://localhost");
    assert(recomposed(u.scheme@, h@, u.port) =~= "tauri://localhost"@);
    assert(origins()[0] == recomposed(u.scheme@, h@, u.port));
}

/// Nowhere else: a URL with no host whose origin is none of the
/// application's four is refused.
pub proof fn law_a_foreign_origin_without_host_is_refused(u: UrlParts)
    requires
        u.host is None,
        u.origin@ != "tauri://localhost"@,
        u.origin@ != "http://tauri.localhost"@,
        u.origin@ != "https://tauri.localhost"@,
        u.origin@ != "http://localhost:1420"@,
    ensures
        !is_allowed(u),
{
}

} // verus!
