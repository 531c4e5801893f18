# metrics-exporter-sentry-v2

A recorder for the [`metrics`](https://crates.io/crates/metrics) facade that
ships metrics to Sentry's trace-connected metrics product, as `trace_metric`
envelope items. Its core is verified with Verus.

## Layout

* `src/` is the verified library. It turns metric operations into buffered
  items, items into JSON, and batches into envelopes, and it decides when a
  batch is sent, which operations are dropped, and which of those are logged.
  Its functions return the envelope to send or the warning to log. What holds
  over every sequence of operations, and of everything that goes on the wire,
  stands in `src/laws.rs` and `src/wire_laws.rs`.
* `app/` is the `metrics::Recorder` around it: the lock, the Sentry client and
  its active span, the flush task (a Tokio task or an OS thread) and the log.
* `tests/` runs the library with the real `metrics`, `sentry` and `serde_json`.

## Options

| Option            | Default | Behavior                                                        |
| ----------------- | ------- | --------------------------------------------------------------- |
| `max_buffer_size` | 100     | Flush as soon as the buffer reaches this many queued items.     |
| `flush_interval`  | 10s     | Force-flush every interval (whether or not the buffer is full). |
| `default_unit`    | `none`  | Unit of metrics that don't declare a `metrics::Unit`.           |

## Type mapping

| Operation                       | On the wire                                    |
| ------------------------------- | ---------------------------------------------- |
| `Counter::increment(n)`         | `{"type": "counter", "value": n}`, a delta     |
| `Counter::absolute(n)`          | dropped, one warning per metric                |
| `Gauge::set(v)`                 | `{"type": "gauge", "value": v}`, absolute      |
| `Gauge::increment`, `decrement` | dropped, one warning per metric                |
| `Histogram::record(v)`          | `{"type": "distribution", "value": v}`         |

A metric carries the trace id and the span id of the span that is active when it
is written; a child span has its own span id. Labels are sent as `string`-typed attributes. A double that is infinite or not
a number is sent as `0.0`.
