# rpxy_failover

Failover rules of a reverse proxy, written and proved in Verus.

- `src/failover.rs`: the failover configuration of a route, its validation, and the
  classification of response statuses.
- `src/context.rs`: which upstreams a request has tried and how many retries it has used.
- `src/health_check/`: when consecutive observations change the health of an upstream.
- `src/sets.rs`: the `ahash` sets underneath, with the operations that are trusted.
- `src/decimal.rs`: decimal notation, for error messages.
- `src/globals.rs`: route options as configured.
- `app/`: the health state behind a lock, for tasks to share.
