//! # metrics-exporter-sentry-v2
//!
//! The verified core of a metrics recorder that ships metrics to Sentry's
//! **trace-connected metrics** product via `trace_metric` envelope items. Each
//! metric is correlated to a Sentry trace via the `trace_id` and `span_id` of
//! the active span, which the caller reads and hands in.
//!
//! * [`recorder`] and [`handles`]: the recorder and the counters, gauges and
//!   histograms that write to it. Operations return the envelope to send, if
//!   there is one, or the warning to log.
//! * [`buffer`] and [`envelope`]: metric items, their JSON form, and the bytes
//!   of an envelope.
//! * [`runtime`]: the decisions of the background flush task.
//! * [`json`], [`keys`], [`units`], [`clock`], [`trace`]: what the outside
//!   crates hold and compute, as the contracts speak of it.
//! * [`laws`] and [`wire_laws`]: what holds of all of it together.
//!
//! ## Wire format
//!
//! * The `value` of a `counter` is a **delta** (the increment), not a running
//!   total. A cumulative write cannot be expressed and is dropped with a
//!   one-shot warning.
//! * The `value` of a `gauge` is an **absolute value**. Increments and
//!   decrements are dropped with a one-shot warning.
//! * Attributes are sent as the typed wrapper
//!   `{"value": ..., "type": "string"|"integer"|"double"|"boolean"}`.
//!
//! Doubles reach the library as the JSON numbers that stand for them, with
//! `None` for a double that is infinite or not a number.
pub mod buffer;
pub mod clock;
pub mod envelope;
pub mod handles;
pub mod json;
pub mod keys;
pub mod laws;
pub mod recorder;
pub mod runtime;
pub mod trace;
pub mod units;
pub mod wire_laws;

pub use crate::handles::{SentryCounter, SentryGauge, SentryHistogram};
pub use crate::recorder::{SentryRecorder, SentryRecorderBuilder};
