//! The two metric primitives this library composes: monotonic counters and
//! point-in-time gauges.
//!
//! A value of either type is a named series, created when the surrounding
//! node is configured and declared to the backend by the registration pass.
//! The view of a primitive is its name; the registry's model is keyed by
//! those names, so a contract over the model pins down exactly which series
//! a call declares or updates.

use vstd::prelude::*;

use crate::registry::MetricsRegistry;

verus! {

/// A monotonically non-decreasing series, identified by its name.
pub struct Counter {
    name: String,
}

impl View for Counter {
    type V = Seq<char>;

    closed spec fn view(&self) -> Seq<char> {
        self.name@
    }
}

impl Counter {
    /// A counter series under the given name, not yet declared to the backend.
    pub fn new(name: String) -> (r: Counter)
        ensures
            r@ == name@,
    {
        Counter { name }
    }

    /// The name the backend knows this counter by.
    pub fn name(&self) -> (r: &str)
        ensures
            r@ == self@,
    {
        self.name.as_str()
    }

    /// Declares this counter to the backend. Counters need no explicit
    /// baseline: the primitive starts at zero by convention.
    pub fn register(&self, registry: &mut MetricsRegistry)
        ensures
            final(registry)@.counters == old(registry)@.counters.insert(self@),
            final(registry)@.gauges == old(registry)@.gauges,
            final(registry)@.gauge_values == old(registry)@.gauge_values,
    {
        registry.declare_counter(self.name.as_str());
    }
}

/// A point-in-time series that can be set to a current value, identified by
/// its name.
pub struct Gauge {
    name: String,
}

impl View for Gauge {
    type V = Seq<char>;

    closed spec fn view(&self) -> Seq<char> {
        self.name@
    }
}

impl Gauge {
    /// A gauge series under the given name, not yet declared to the backend.
    pub fn new(name: String) -> (r: Gauge)
        ensures
            r@ == name@,
    {
        Gauge { name }
    }

    /// The name the backend knows this gauge by.
    pub fn name(&self) -> (r: &str)
        ensures
            r@ == self@,
    {
        self.name.as_str()
    }

    /// Declares this gauge to the backend. Declaring does not choose a value:
    /// a gauge's baseline is only defined once it is explicitly set.
    pub fn register(&self, registry: &mut MetricsRegistry)
        ensures
            final(registry)@.counters == old(registry)@.counters,
            final(registry)@.gauges == old(registry)@.gauges.insert(self@),
            final(registry)@.gauge_values == old(registry)@.gauge_values,
    {
        registry.declare_gauge(self.name.as_str());
    }

    /// Sets this gauge's current reading to `value`.
    pub fn set(&self, registry: &mut MetricsRegistry, value: u32)
        ensures
            final(registry)@.counters == old(registry)@.counters,
            final(registry)@.gauges == old(registry)@.gauges,
            final(registry)@.gauge_values == old(registry)@.gauge_values.insert(self@, value as int),
    {
        registry.set_gauge(self.name.as_str(), value);
    }
}

} // verus!
