# lighter_client

Verified core of a client for the Lighter exchange, written in Verus.

The library in `src/` performs no I/O. It turns orders, cancellations, withdrawals and REST calls
into request values, and turns what the signer or the API answers into the next request or the
final result. Each function carries a contract over a mathematical view of its types.

- `client`, `builder`, `options`: settings, credentials and entry points
- `order_model`, `order`: what an order is, how it is built, what it asks of the signer
- `run`: batches and brackets, which go out one order after the other
- `cancel`, `submission`: cancellation, withdrawal and what a transaction gave
- `rest`, `account`, `handles`, `params`: REST calls and paged listings
- `clock`, `decimal`, `types`, `errors`: identifiers, rendering and plain values
- `laws`: what holds of the library as a whole

`app/` is the asynchronous client around it, generic over the signer, the transport and the cache
of auth headers. Slippage tolerances are floating point there and bit patterns in the library.
