//! The gateway's route table: which paths and methods reach which handler.

use vstd::prelude::*;

verus! {

/// The HTTP methods a route accepts.
#[derive(Clone, Copy, Debug, PartialEq, Eq, Structural)]
pub enum RouteMethod {
    Get,
    Any,
}

/// The handler a route leads to.
#[derive(Clone, Copy, Debug, PartialEq, Eq, Structural)]
pub enum RouteHandler {
    Root,
    Health,
    CliWithProvider,
    OpenAiV1Root,
    OpenAiV1,
    Cli,
}

/// One route: its path pattern (`:name` captures a segment, `*name` the
/// rest of the path), its methods and its handler.
pub struct RouteSpec {
    pub pattern: &'static str,
    pub method: RouteMethod,
    pub handler: RouteHandler,
}

impl View for RouteSpec {
    type V = (Seq<char>, RouteMethod, RouteHandler);

    open spec fn view(&self) -> (Seq<char>, RouteMethod, RouteHandler) {
        (self.pattern@, self.method, self.handler)
    }
}

/// The routes in the order they are registered.
pub open spec fn route_table_spec() -> Seq<(Seq<char>, RouteMethod, RouteHandler)> {
    seq![
        ("/"@, RouteMethod::Get, RouteHandler::Root),
        ("/health"@, RouteMethod::Get, RouteHandler::Health),
        ("/:cli_key/_aio/provider/:provider_id/*path"@, RouteMethod::Any, RouteHandler::CliWithProvider),
        ("/v1"@, RouteMethod::Any, RouteHandler::OpenAiV1Root),
        ("/v1/*path"@, RouteMethod::Any, RouteHandler::OpenAiV1),
        ("/:cli_key/*path"@, RouteMethod::Any, RouteHandler::Cli),
    ]
}

/// The gateway's routes, in registration order.
pub fn route_table() -> (r: Vec<RouteSpec>)
    ensures
        r@.len() == route_table_spec().len(),
        forall|i: int| 0 <= i < r@.len() ==> #[trigger] r@[i]@ == route_table_spec()[i],
        r@.len() == 6,
        r@[0].pattern@ == "/"@ && r@[0].method == RouteMethod::Get && r@[0].handler
            == RouteHandler::Root,
        r@[1].pattern@ == "/health"@ && r@[1].method == RouteMethod::Get && r@[1].handler
            == RouteHandler::Health,
        r@[2].pattern@ == "/:cli_key/_aio/provider/:provider_id/*path"@ && r@[2].method
            == RouteMethod::Any && r@[2].handler == RouteHandler::CliWithProvider,
        r@[3].pattern@ == "/v1"@ && r@[3].method == RouteMethod::Any && r@[3].handler
            == RouteHandler::OpenAiV1Root,
        r@[4].pattern@ == "/v1/*path"@ && r@[4].method == RouteMethod::Any && r@[4].handler
            == RouteHandler::OpenAiV1,
        r@[5].pattern@ == "/:cli_key/*path"@ && r@[5].method == RouteMethod::Any && r@[5].handler
            == RouteHandler::Cli,
{
    let mut r: Vec<RouteSpec> = Vec::new();
    r.push(RouteSpec { pattern: "/", method: RouteMethod::Get, handler: RouteHandler::Root });
    r.push(
        RouteSpec { pattern: "/health", method: RouteMethod::Get, handler: RouteHandler::Health },
    );
    r.push(
        RouteSpec {
            pattern: "/:cli_key/_aio/provider/:provider_id/*path",
            method: RouteMethod::Any,
            handler: RouteHandler::CliWithProvider,
        },
    );
    r.push(
        RouteSpec { pattern: "/v1", method: RouteMethod::Any, handler: RouteHandler::OpenAiV1Root },
    );
    r.push(
        RouteSpec { pattern: "/v1/*path", method: RouteMethod::Any, handler: RouteHandler::OpenAiV1 },
    );
    r.push(
        RouteSpec { pattern: "/:cli_key/*path", method: RouteMethod::Any, handler: RouteHandler::Cli },
    );
    r
}

proof fn lemma_route_pattern_lengths()
    ensures
        route_table_spec()[0].0.len() == 1,
        route_table_spec()[1].0.len() == 7,
        route_table_spec()[2].0.len() == 42,
        route_table_spec()[3].0.len() == 3,
        route_table_spec()[4].0.len() == 9,
        route_table_spec()[5].0.len() == 15,
{
    reveal_strlit("/");
    reveal_strlit("/health");
    reveal_strlit("/:cli_key/_aio/provider/:provider_id/*path");
    reveal_strlit("/v1");
    reveal_strlit("/v1/*path");
    reveal_strlit("/:cli_key/*path");
}

/// No two routes share a path pattern, so the table is a valid router.
pub proof fn law_route_patterns_distinct(i: int, j: int)
    requires
        0 <= i < route_table_spec().len(),
        0 <= j < route_table_spec().len(),
        i != j,
    ensures
        route_table_spec()[i].0 != route_table_spec()[j].0,
{
    lemma_route_pattern_lengths();
}

/// Each handler is reached through exactly one route.
pub proof fn law_each_handler_routed_once(h: RouteHandler)
    ensures
        exists|i: int| 0 <= i < route_table_spec().len() && #[trigger] route_table_spec()[i].2 == h,
        forall|i: int, j: int|
            0 <= i < route_table_spec().len() && 0 <= j < route_table_spec().len()
                && #[trigger] route_table_spec()[i].2 == h && #[trigger] route_table_spec()[j].2 == h
                ==> i == j,
{
    let t = route_table_spec();
    let w: int = match h {
        RouteHandler::Root => 0,
        RouteHandler::Health => 1,
        RouteHandler::CliWithProvider => 2,
        RouteHandler::OpenAiV1Root => 3,
        RouteHandler::OpenAiV1 => 4,
        RouteHandler::Cli => 5,
    };
    assert(t[w].2 == h);
}

} // verus!
