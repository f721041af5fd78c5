//! What each gateway route answers or forwards.
//!
//! The proxy routes do no work of their own: each turns the parameters that
//! the router captured into a [`ProxyTarget`], the CLI key and path that the
//! proxy core forwards with, plus the provider-id header when the route names
//! a provider.

use vstd::prelude::*;

use crate::decimal::{decimal, decimal_string, decimal_value, law_decimal_injective, law_decimal_reads_back};
use crate::header::{header_value_accepts, law_decimal_is_valid_header_value};
use crate::paths::{forwarded_path, forwarded_path_spec, openai_v1_path, openai_v1_path_spec};

verus! {

/// The body of the health report.
pub struct HealthResponse {
    pub status: String,
    pub app: String,
    pub version: String,
    pub ts: u64,
}

/// The health report: status `ok`, the application name, its version and the
/// Unix time in seconds at which the report was made.
pub fn health(version: &str, ts: u64) -> (r: HealthResponse)
    ensures
        r.status@ == seq!['o', 'k'],
        r.app@ == seq!['a', 'i', 'o', '-', 'c', 'o', 'd', 'i', 'n', 'g', '-', 'h', 'u', 'b'],
        r.version@ == version@,
        r.ts == ts,
{
    proof {
        reveal_strlit("ok");
        reveal_strlit("aio-coding-hub");
    }
    HealthResponse {
        status: String::from_str("ok"),
        app: String::from_str("aio-coding-hub"),
        version: String::from_str(version),
        ts,
    }
}

/// The text answered at `/`.
pub fn root() -> (r: &'static str)
    ensures
        r@ == "AIO Coding Hub is running"@,
{
    "AIO Coding Hub is running"
}

/// What the proxy core is asked to do for a request: which CLI it belongs
/// to, the path to forward upstream, and the provider id to pin it to, as
/// the text of the provider-id header, when the route names one.
pub struct ProxyTarget {
    pub cli_key: String,
    pub forwarded_path: String,
    pub provider_id_header: Option<String>,
}

/// A [`ProxyTarget`] as values: CLI key, forwarded path, provider-id header.
pub type ProxyTargetView = (Seq<char>, Seq<char>, Option<Seq<char>>);

impl View for ProxyTarget {
    type V = ProxyTargetView;

    open spec fn view(&self) -> ProxyTargetView {
        (
            self.cli_key@,
            self.forwarded_path@,
            match self.provider_id_header {
                Some(h) => Some(h@),
                None => None,
            },
        )
    }
}

/// The CLI key under which the OpenAI-compatible `/v1` routes are proxied.
pub open spec fn codex_cli_key() -> Seq<char> {
    seq!['c', 'o', 'd', 'e', 'x']
}

/// `/:cli_key/*path`: the request goes to `cli_key` with the captured path.
pub open spec fn cli_target(cli_key: Seq<char>, path: Seq<char>) -> ProxyTargetView {
    (cli_key, forwarded_path_spec(path), None)
}

/// `/:cli_key/_aio/provider/:provider_id/*path`: as the CLI route, pinned to
/// the provider through the decimal text of its id.
pub open spec fn cli_provider_target(
    cli_key: Seq<char>,
    provider_id: int,
    path: Seq<char>,
) -> ProxyTargetView {
    (cli_key, forwarded_path_spec(path), Some(decimal(provider_id)))
}

/// `/v1/*path`: the request goes to the codex CLI under `/v1`.
pub open spec fn openai_v1_target(path: Seq<char>) -> ProxyTargetView {
    (codex_cli_key(), openai_v1_path_spec(path), None)
}

/// `/v1`: the request goes to the codex CLI at `/v1` itself.
pub open spec fn openai_v1_root_target() -> ProxyTargetView {
    (codex_cli_key(), seq!['/', 'v', '1'], None)
}

fn codex_key() -> (r: String)
    ensures
        r@ == codex_cli_key(),
{
    proof {
        reveal_strlit("codex");
    }
    String::from_str("codex")
}

/// The target of `/:cli_key/*path`.
pub fn proxy_cli_any(cli_key: String, path: String) -> (r: ProxyTarget)
    ensures
        r@ == cli_target(cli_key@, path@),
        r.cli_key@ == cli_key@,
        path@.len() == 0 ==> r.forwarded_path@ == seq!['/'],
        path@.len() > 0 ==> r.forwarded_path@ == seq!['/'] + path@,
        r.provider_id_header is None,
{
    let forwarded = forwarded_path(path.as_str());
    ProxyTarget { cli_key, forwarded_path: forwarded, provider_id_header: None }
}

/// The target of `/:cli_key/_aio/provider/:provider_id/*path`. The header
/// is set only if its text is a valid header value, which the decimal text
/// of an id always is.
pub fn proxy_cli_with_provider_any(cli_key: String, provider_id: i64, path: String) -> (r:
    ProxyTarget)
    ensures
        r@ == cli_provider_target(cli_key@, provider_id as int, path@),
        r.cli_key@ == cli_key@,
        path@.len() == 0 ==> r.forwarded_path@ == seq!['/'],
        path@.len() > 0 ==> r.forwarded_path@ == seq!['/'] + path@,
        r.provider_id_header matches Some(h) && h@ == decimal(provider_id as int)
            && decimal_value(h@) == provider_id,
{
    let text = decimal_string(provider_id);
    proof {
        law_decimal_is_valid_header_value(provider_id as int);
        law_decimal_reads_back(provider_id as int);
    }
    let header = if header_value_accepts(text.as_str()) {
        Some(text)
    } else {
        None
    };
    let forwarded = forwarded_path(path.as_str());
    ProxyTarget { cli_key, forwarded_path: forwarded, provider_id_header: header }
}

/// The target of `/v1/*path`.
pub fn proxy_openai_v1_any(path: String) -> (r: ProxyTarget)
    ensures
        r@ == openai_v1_target(path@),
        r.cli_key@ == seq!['c', 'o', 'd', 'e', 'x'],
        path@.len() == 0 ==> r.forwarded_path@ == seq!['/', 'v', '1'],
        path@.len() > 0 ==> r.forwarded_path@ == seq!['/', 'v', '1', '/'] + path@,
        r.provider_id_header is None,
{
    let forwarded = openai_v1_path(path.as_str());
    ProxyTarget { cli_key: codex_key(), forwarded_path: forwarded, provider_id_header: None }
}

/// The target of `/v1`.
pub fn proxy_openai_v1_root() -> (r: ProxyTarget)
    ensures
        r@ == openai_v1_root_target(),
        r.cli_key@ == seq!['c', 'o', 'd', 'e', 'x'],
        r.forwarded_path@ == seq!['/', 'v', '1'],
        r.provider_id_header is None,
{
    proof {
        reveal_strlit("/v1");
    }
    ProxyTarget {
        cli_key: codex_key(),
        forwarded_path: String::from_str("/v1"),
        provider_id_header: None,
    }
}

/// The `/v1` routes are the CLI route of the codex CLI with the capture put
/// under `v1`: `/v1/*path` forwards what `/codex/v1/*path` would.
pub proof fn law_openai_v1_is_codex_cli_route(path: Seq<char>)
    ensures
        path.len() == 0 ==> openai_v1_target(path) == cli_target(codex_cli_key(), seq!['v', '1']),
        path.len() > 0 ==> openai_v1_target(path) == cli_target(
            codex_cli_key(),
            seq!['v', '1', '/'] + path,
        ),
{
    if path.len() > 0 {
        assert(openai_v1_path_spec(path) =~= forwarded_path_spec(seq!['v', '1', '/'] + path));
    } else {
        assert(openai_v1_path_spec(path) =~= forwarded_path_spec(seq!['v', '1']));
    }
}

/// `/v1` forwards exactly what `/v1/*path` forwards for an empty capture.
pub proof fn law_openai_v1_root_matches_empty_capture()
    ensures
        openai_v1_root_target() == openai_v1_target(Seq::empty()),
{
}

/// The provider route is the CLI route plus the provider-id header, and that
/// header is always a valid header value.
pub proof fn law_provider_route_pins_cli_route(cli_key: Seq<char>, provider_id: int, path: Seq<char>)
    ensures
        cli_provider_target(cli_key, provider_id, path).0 == cli_target(cli_key, path).0,
        cli_provider_target(cli_key, provider_id, path).1 == cli_target(cli_key, path).1,
        cli_provider_target(cli_key, provider_id, path).2 == Some(decimal(provider_id)),
        crate::header::valid_header_text(decimal(provider_id)),
{
    law_decimal_is_valid_header_value(provider_id);
}

/// Requests pinned to different providers carry different header values.
pub proof fn law_provider_header_identifies_provider(
    cli_key: Seq<char>,
    a: int,
    b: int,
    path: Seq<char>,
)
    requires
        cli_provider_target(cli_key, a, path).2 == cli_provider_target(cli_key, b, path).2,
    ensures
        a == b,
{
    law_decimal_injective(a, b);
}

/// The CLI route hands the request to exactly the captured CLI key, with no
/// provider header, and forwards `/` followed by the whole captured path
/// (`/` alone for an empty capture): dropping the leading `/` gives the
/// capture back.
pub proof fn law_cli_route_forwards_capture_to_its_key(cli_key: Seq<char>, path: Seq<char>)
    ensures
        cli_target(cli_key, path).0 == cli_key,
        cli_target(cli_key, path).2 is None,
        path.len() == 0 ==> cli_target(cli_key, path).1 == seq!['/'],
        path.len() > 0 ==> cli_target(cli_key, path).1 == seq!['/'] + path,
        path.len() > 0 ==> cli_target(cli_key, path).1.len() == path.len() + 1,
        path.len() > 0 ==> cli_target(cli_key, path).1.drop_first() == path,
{
    if path.len() > 0 {
        assert((seq!['/'] + path).drop_first() =~= path);
    }
}

/// The pinned-provider route hands the request to exactly the captured CLI
/// key, forwards `/` followed by the whole captured path (`/` for an empty
/// capture), and carries a header text that reads back as the provider id.
pub proof fn law_provider_route_forwards_capture_to_its_key(
    cli_key: Seq<char>,
    provider_id: int,
    path: Seq<char>,
)
    ensures
        cli_provider_target(cli_key, provider_id, path).0 == cli_key,
        path.len() == 0 ==> cli_provider_target(cli_key, provider_id, path).1 == seq!['/'],
        path.len() > 0 ==> cli_provider_target(cli_key, provider_id, path).1 == seq!['/'] + path,
        path.len() > 0 ==> cli_provider_target(cli_key, provider_id, path).1.len() == path.len()
            + 1,
        path.len() > 0 ==> cli_provider_target(cli_key, provider_id, path).1.drop_first() == path,
        cli_provider_target(cli_key, provider_id, path).2 matches Some(h) && decimal_value(h)
            == provider_id,
{
    law_decimal_reads_back(provider_id);
    if path.len() > 0 {
        assert((seq!['/'] + path).drop_first() =~= path);
    }
}

/// `/v1/*path` hands the request to the codex CLI with no provider header
/// and forwards `/v1/` followed by the whole captured path (`/v1` for an
/// empty capture).
pub proof fn law_openai_v1_route_forwards_under_v1(path: Seq<char>)
    ensures
        openai_v1_target(path).0 == seq!['c', 'o', 'd', 'e', 'x'],
        openai_v1_target(path).2 is None,
        path.len() == 0 ==> openai_v1_target(path).1 == seq!['/', 'v', '1'],
        path.len() > 0 ==> openai_v1_target(path).1 == seq!['/', 'v', '1', '/'] + path,
        path.len() > 0 ==> openai_v1_target(path).1.len() == path.len() + 4,
        path.len() > 0 ==> openai_v1_target(path).1.skip(4) == path,
{
    if path.len() > 0 {
        assert((seq!['/', 'v', '1', '/'] + path).skip(4) =~= path);
    }
}

/// `/v1` hands the request to the codex CLI at `/v1` with no provider header.
pub proof fn law_openai_v1_root_forwards_v1()
    ensures
        openai_v1_root_target() == (seq!['c', 'o', 'd', 'e', 'x'], seq!['/', 'v', '1'], Option::<
            Seq<char>,
        >::None),
{
}

} // verus!
