//! Observability: an explicitly constructed, verified metrics handle that
//! components record into, and a wall-clock duration recorder. The handle
//! is an append-only record of what happened — event-processing counts and
//! durations by engine and event kind, series-size gauges, error counts by
//! component — which the hosting program exports through whatever metrics
//! endpoint it wires up; the export is external to correctness.

use vstd::prelude::*;

verus! {

/// One processed event: which engine, which event kind, how long the fold
/// took.
pub struct EventRecord {
    pub engine: String,
    pub event_kind: String,
    pub duration_ns: u64,
}

/// One gauge observation of an engine's candle-series size.
pub struct SizeRecord {
    pub engine: String,
    pub size: usize,
}

/// The injected metrics handle: every recording appends, nothing is ever
/// rewritten, so any counter or histogram an exporter derives from it is
/// reproducible.
pub struct BotMetrics {
    events: Vec<EventRecord>,
    sizes: Vec<SizeRecord>,
    errors: Vec<String>,
}

impl BotMetrics {
    /// The event-processing records so far, oldest first.
    pub closed spec fn events(&self) -> Seq<EventRecord> {
        self.events@
    }

    /// The series-size observations so far, oldest first.
    pub closed spec fn sizes(&self) -> Seq<SizeRecord> {
        self.sizes@
    }

    /// The component names of the errors counted so far, oldest first.
    pub closed spec fn errors(&self) -> Seq<String> {
        self.errors@
    }

    /// A fresh handle with nothing recorded.
    pub fn new() -> (r: Self)
        ensures
            r.events() == Seq::<EventRecord>::empty(),
            r.sizes() == Seq::<SizeRecord>::empty(),
            r.errors() == Seq::<String>::empty(),
    {
        let r = BotMetrics { events: Vec::new(), sizes: Vec::new(), errors: Vec::new() };
        proof {
            assert(r.events() =~= Seq::<EventRecord>::empty());
            assert(r.sizes() =~= Seq::<SizeRecord>::empty());
            assert(r.errors() =~= Seq::<String>::empty());
        }
        r
    }

    /// Counts one processed event and its fold duration, labelled by
    /// engine and event kind.
    pub fn record_event_processing(&mut self, engine: &str, event_type: &str, duration_ns: u64)
        ensures
            final(self).events().len() == old(self).events().len() + 1,
            final(self).events().take(old(self).events().len() as int) == old(self).events(),
            ({
                let rec = final(self).events().last();
                rec.engine@ == engine@ && rec.event_kind@ == event_type@ && rec.duration_ns
                    == duration_ns
            }),
            final(self).sizes() == old(self).sizes(),
            final(self).errors() == old(self).errors(),
    {
        self.events.push(
            EventRecord { engine: engine.to_owned(), event_kind: event_type.to_owned(), duration_ns },
        );
        proof {
            assert(self.events().take(old(self).events().len() as int) =~= old(self).events());
        }
    }

    /// Observes one engine's current candle-series size.
    pub fn record_candle_series_size(&mut self, engine: &str, size: usize)
        ensures
            final(self).sizes().len() == old(self).sizes().len() + 1,
            final(self).sizes().take(old(self).sizes().len() as int) == old(self).sizes(),
            final(self).sizes().last().engine@ == engine@,
            final(self).sizes().last().size == size,
            final(self).events() == old(self).events(),
            final(self).errors() == old(self).errors(),
    {
        self.sizes.push(SizeRecord { engine: engine.to_owned(), size });
        proof {
            assert(self.sizes().take(old(self).sizes().len() as int) =~= old(self).sizes());
        }
    }

    /// Counts one error against a component.
    pub fn record_error(&mut self, component: &str)
        ensures
            final(self).errors().len() == old(self).errors().len() + 1,
            final(self).errors().take(old(self).errors().len() as int) == old(self).errors(),
            final(self).errors().last()@ == component@,
            final(self).events() == old(self).events(),
            final(self).sizes() == old(self).sizes(),
    {
        self.errors.push(component.to_owned());
        proof {
            assert(self.errors().take(old(self).errors().len() as int) =~= old(self).errors());
        }
    }

    /// Read access for the exporting program: the recorded events.
    pub fn event_records(&self) -> (r: &Vec<EventRecord>)
        ensures
            r@ == self.events(),
    {
        &self.events
    }

    /// Read access for the exporting program: the recorded sizes.
    pub fn size_records(&self) -> (r: &Vec<SizeRecord>)
        ensures
            r@ == self.sizes(),
    {
        &self.sizes
    }

    /// Read access for the exporting program: the recorded errors.
    pub fn error_records(&self) -> (r: &Vec<String>)
        ensures
            r@ == self.errors(),
    {
        &self.errors
    }
}

#[verifier::external_type_specification]
#[verifier::external_body]
pub struct ExInstant(std::time::Instant);

/// Relies on `std::time::Instant::now`: an opaque reading of the
/// monotonic clock. Nothing is promised of its value.
#[verifier::external_body]
fn instant_now() -> std::time::Instant {
    std::time::Instant::now()
}

/// Relies on `std::time::Instant::elapsed`: the nanoseconds since
/// `start`, saturated into `u64`. The clock decides the value; nothing is
/// promised of it.
#[verifier::external_body]
fn elapsed_nanos(start: &std::time::Instant) -> u64 {
    u64::try_from(start.elapsed().as_nanos()).unwrap_or(u64::MAX)
}

/// Measures how long one fold takes, for the event-processing histogram.
pub struct DurationRecorder {
    begun: std::time::Instant,
}

impl DurationRecorder {
    /// Starts timing now.
    pub fn start() -> Self {
        DurationRecorder { begun: instant_now() }
    }

    /// Nanoseconds elapsed since [`DurationRecorder::start`], as the
    /// monotonic clock reports them.
    pub fn end(self) -> u64 {
        elapsed_nanos(&self.begun)
    }
}

} // verus!
