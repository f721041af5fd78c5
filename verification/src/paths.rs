//! How a captured wildcard path becomes the path that is forwarded upstream.

use vstd::prelude::*;

verus! {

/// The path forwarded for a CLI route: `/` alone for an empty capture,
/// otherwise `/` followed by the captured rest of the request path.
pub open spec fn forwarded_path_spec(path: Seq<char>) -> Seq<char> {
    if path.len() == 0 {
        seq!['/']
    } else {
        seq!['/'] + path
    }
}

/// The path forwarded for the OpenAI-compatible `/v1` routes: `/v1` for an
/// empty capture, otherwise `/v1/` followed by the captured rest.
pub open spec fn openai_v1_path_spec(path: Seq<char>) -> Seq<char> {
    if path.len() == 0 {
        seq!['/', 'v', '1']
    } else {
        seq!['/', 'v', '1', '/'] + path
    }
}

/// Builds the upstream path for a CLI route from the captured wildcard.
pub fn forwarded_path(path: &str) -> (r: String)
    ensures
        r@ == forwarded_path_spec(path@),
        path@.len() == 0 ==> r@ == seq!['/'],
        path@.len() > 0 ==> r@ == seq!['/'] + path@,
{
    proof {
        reveal_strlit("/");
    }
    if path.is_empty() {
        String::from_str("/")
    } else {
        String::from_str("/").concat(path)
    }
}

/// Builds the upstream path for the `/v1` routes from the captured wildcard.
pub fn openai_v1_path(path: &str) -> (r: String)
    ensures
        r@ == openai_v1_path_spec(path@),
        path@.len() == 0 ==> r@ == seq!['/', 'v', '1'],
        path@.len() > 0 ==> r@ == seq!['/', 'v', '1', '/'] + path@,
{
    proof {
        reveal_strlit("/v1");
        reveal_strlit("/v1/");
    }
    if path.is_empty() {
        String::from_str("/v1")
    } else {
        String::from_str("/v1/").concat(path)
    }
}

/// A CLI route forwards an absolute path from which the capture is read back:
/// the path is `/` for an empty capture, and `/` followed by the capture
/// otherwise.
pub proof fn law_forwarded_path_keeps_capture(path: Seq<char>)
    ensures
        forwarded_path_spec(path).len() >= 1,
        forwarded_path_spec(path)[0] == '/',
        path.len() == 0 ==> forwarded_path_spec(path) == seq!['/'],
        path.len() > 0 ==> forwarded_path_spec(path).drop_first() == path,
{
    if path.len() > 0 {
        assert(forwarded_path_spec(path).drop_first() =~= path);
    }
}

/// The `/v1` routes forward `/v1` for an empty capture, otherwise `/v1/`
/// followed by the whole capture, which is read back by dropping the prefix.
pub proof fn law_openai_v1_path_keeps_capture(path: Seq<char>)
    ensures
        path.len() == 0 ==> openai_v1_path_spec(path) == seq!['/', 'v', '1'],
        path.len() > 0 ==> openai_v1_path_spec(path) == seq!['/', 'v', '1', '/'] + path,
        openai_v1_path_spec(path).take(3) == seq!['/', 'v', '1'],
        path.len() > 0 ==> openai_v1_path_spec(path).skip(4) == path,
{
    assert(openai_v1_path_spec(path).take(3) =~= seq!['/', 'v', '1']);
    if path.len() > 0 {
        assert(openai_v1_path_spec(path).skip(4) =~= path);
    }
}

} // verus!
