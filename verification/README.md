# broker_client

The client of a modified publish/subscribe protocol spoken over a websocket
with a message broker, which stands between the application and a
transaction service.

- `src/` is the verified library: the session's typestate
  (`client`), the messages sent to the broker (`messages`, `client`), the
  broker's address (`address`), how each frame read from the broker is
  answered (`frames`), each exchange with the broker as a step function
  from phase and event to next phase and action (`exchange`, `client`), the errors and their texts (`errors`), and which
  tickers make up the last minute of the ticker history (`ticker`).
- `app/` is the program around it: the websocket transport, JSON encoding,
  the floating-point summary of a minute of tickers, and `main`.
- `tests/` runs the library on concrete values.
