# burley

A caching forward HTTP proxy. Plain HTTP `GET` responses that may be stored
(status 200, a body within the store's limit, no `Set-Cookie`, no `no-store`
directive in `Cache-Control`) are kept in memory by URL and served again with
`x-burley-cache: hit`; everything else is forwarded and tagged `miss`.
`CONNECT` requests are tunnelled.

- `src/` is the verified library: the storing rule (`policy`, `cache_control`),
  header maps seen as the fields they hold (`headers`), the response store
  (`store`), the decisions of the proxy path (`proxy`), start-up settings
  (`cli`), TLS material read from PEM (`tls`), request log fields
  (`request_log`) and the error type (`error`).
- `app/` is the program around it: command line, logging and metrics set-up,
  listeners, upstream requests and tunnels.
- `tests/` exercises the library.
