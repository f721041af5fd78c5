# aio_gateway

The routing decisions of the AIO Coding Hub local gateway, verified with Verus.

- `src/paths.rs`: the path forwarded upstream for the CLI routes and the
  OpenAI-compatible `/v1` routes.
- `src/decimal.rs`: decimal text of a provider id, with its uniqueness law.
- `src/header.rs`: the provider-id header and the check that its text is a
  valid HTTP header value (through axum's `HeaderValue::from_str`).
- `src/routes.rs`: the health report, the root text and the proxy target of
  each proxy route, with the laws that relate the routes.
- `src/router.rs`: the route table in registration order.
- `app/lib.rs`: the axum handlers and router built from the table; the proxy
  core is supplied by the caller through the `GatewayProxy` trait.
