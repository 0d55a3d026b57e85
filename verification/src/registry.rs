//! The connection to the metrics backend, together with a ghost model of the
//! declarations this library makes through it.
//!
//! The backend (the `metrics` crate's recorder in effect for the current
//! thread or process) keeps the real counter and gauge series. It is driven
//! only through the three trusted calls below; each of them records, in the
//! ghost [`RegistryView`], exactly the declaration or update it performs, so
//! that the contracts of the registration pass can say precisely which
//! metrics a pass declares and which gauges it initializes.

use vstd::prelude::*;
use vstd::multiset::Multiset;

verus! {

/// What this library has asked of the metrics backend so far: the counter and
/// gauge names it has declared, and the value each gauge was last set to.
///
/// A name occurs in `counters` (or `gauges`) once per declaration call, so a
/// repeated declaration of the same name is visible as a multiplicity of two.
/// The backend's reaction to such a repeat is its own affair; the model only
/// counts the calls.
pub struct RegistryView {
    /// Counter names declared so far, one occurrence per declaration call.
    pub counters: Multiset<Seq<char>>,
    /// Gauge names declared so far, one occurrence per declaration call.
    pub gauges: Multiset<Seq<char>>,
    /// The value each gauge was last set to, keyed by gauge name.
    pub gauge_values: Map<Seq<char>, int>,
}

/// A handle on the metrics backend, carrying the ghost record of every
/// declaration made through it.
///
/// At run time this holds no data: the real state lives in the recorder that
/// the surrounding process has installed. A fresh handle starts with an empty
/// record, so its view describes what was declared through this handle, not
/// whatever the process may have declared elsewhere.
pub struct MetricsRegistry {
    model: Ghost<RegistryView>,
}

impl View for MetricsRegistry {
    type V = RegistryView;

    closed spec fn view(&self) -> RegistryView {
        self.model@
    }
}

impl MetricsRegistry {
    /// A handle whose record is empty: nothing has been declared through it yet.
    pub fn new() -> (r: MetricsRegistry)
        ensures
            r@.counters == Multiset::<Seq<char>>::empty(),
            r@.gauges == Multiset::<Seq<char>>::empty(),
            r@.gauge_values == Map::<Seq<char>, int>::empty(),
    {
        let ghost view = RegistryView {
            counters: Multiset::empty(),
            gauges: Multiset::empty(),
            gauge_values: Map::empty(),
        };
        MetricsRegistry { model: Ghost(view) }
    }

    /// Declares a counter under `name` to the recorder in effect.
    ///
    /// Relies on `metrics::with_recorder` and
    /// `metrics::Recorder::register_counter`: the recorder in effect creates
    /// (or re-fetches) the counter series named `name`; the returned handle is
    /// not kept, since this library only declares the series.
    #[verifier::external_body]
    pub(crate) fn declare_counter(&mut self, name: &str)
        ensures
            final(self)@.counters == old(self)@.counters.insert(name@),
            final(self)@.gauges == old(self)@.gauges,
            final(self)@.gauge_values == old(self)@.gauge_values,
    {
        let key = metrics::Key::from_name(name.to_owned());
        let metadata = metrics::Metadata::new("network", metrics::Level::INFO, None);
        let _ = metrics::with_recorder(|recorder| recorder.register_counter(&key, &metadata));
    }

    /// Declares a gauge under `name` to the recorder in effect.
    ///
    /// Relies on `metrics::with_recorder` and
    /// `metrics::Recorder::register_gauge`, in the same way as
    /// [`Self::declare_counter`].
    #[verifier::external_body]
    pub(crate) fn declare_gauge(&mut self, name: &str)
        ensures
            final(self)@.counters == old(self)@.counters,
            final(self)@.gauges == old(self)@.gauges.insert(name@),
            final(self)@.gauge_values == old(self)@.gauge_values,
    {
        let key = metrics::Key::from_name(name.to_owned());
        let metadata = metrics::Metadata::new("network", metrics::Level::INFO, None);
        let _ = metrics::with_recorder(|recorder| recorder.register_gauge(&key, &metadata));
    }

    /// Sets the gauge named `name` to `value`.
    ///
    /// Relies on `metrics::Recorder::register_gauge` (to address the gauge
    /// handle, as the `metrics` macros do on every update) and on
    /// `metrics::Gauge::set`, which stores the given value as the gauge's
    /// current reading.
    #[verifier::external_body]
    pub(crate) fn set_gauge(&mut self, name: &str, value: u32)
        ensures
            final(self)@.counters == old(self)@.counters,
            final(self)@.gauges == old(self)@.gauges,
            final(self)@.gauge_values == old(self)@.gauge_values.insert(name@, value as int),
    {
        let key = metrics::Key::from_name(name.to_owned());
        let metadata = metrics::Metadata::new("network", metrics::Level::INFO, None);
        let gauge = metrics::with_recorder(|recorder| recorder.register_gauge(&key, &metadata));
        gauge.set(value);
    }
}

} // verus!
