//! Topic identity for broadcast traffic.
//!
//! A topic is identified by the textual form of its hash, as the gossip layer
//! derives it. Topics compare by that content, never by reference, so they
//! can serve as the keys of the per-topic broadcast metrics mapping.

use vstd::prelude::*;

verus! {

/// The identity of a broadcast topic: the textual form of its hash.
pub struct Topic {
    hash: String,
}

impl View for Topic {
    type V = Seq<char>;

    closed spec fn view(&self) -> Seq<char> {
        self.hash@
    }
}

impl Topic {
    /// A topic identity from the textual form of its hash.
    pub fn from_raw(hash: String) -> (t: Topic)
        ensures
            t@ == hash@,
    {
        Topic { hash }
    }

    /// The textual form of this topic's hash.
    pub fn as_str(&self) -> (r: &str)
        ensures
            r@ == self@,
    {
        self.hash.as_str()
    }
}

impl PartialEq for Topic {
    fn eq(&self, other: &Topic) -> bool {
        self.hash == other.hash
    }
}

impl vstd::std_specs::cmp::PartialEqSpecImpl for Topic {
    open spec fn obeys_eq_spec() -> bool {
        true
    }

    open spec fn eq_spec(&self, other: &Topic) -> bool {
        self@ == other@
    }
}

} // verus!
