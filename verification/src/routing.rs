//! The table of pending replies: which sink waits at which address.
//!
//! A sink stands for a caller's end of a reply channel. The table does not
//! hold the channel itself, only the number that its owner knows it by, and
//! whether it takes one response or many.

use vstd::hash_map::StringHashMap;
use vstd::prelude::*;

verus! {

/// How many responses a sink takes.
#[derive(Debug, Clone, Copy, PartialEq, Eq, Structural)]
pub enum SinkKind {
    /// One response; the sink then leaves the table.
    Once,
    /// Every response, until the sink is removed.
    Stream,
}

/// A reply destination: the number its owner knows it by, and its kind.
#[derive(Debug, Clone, Copy, PartialEq, Eq, Structural)]
pub struct Sink {
    pub id: u64,
    pub kind: SinkKind,
}

/// The sink that waits at `address`, if there is one.
pub open spec fn entry_of(routes: Map<Seq<char>, Sink>, address: Seq<char>) -> Option<Sink> {
    if routes.contains_key(address) {
        Some(routes[address])
    } else {
        None
    }
}

/// The table after a response for `address` has been handed to the sink
/// that waits there: a single-use sink is gone, everything else stays.
pub open spec fn after_delivery(routes: Map<Seq<char>, Sink>, address: Seq<char>) -> Map<
    Seq<char>,
    Sink,
> {
    match entry_of(routes, address) {
        Some(sink) => if sink.kind is Once {
            routes.remove(address)
        } else {
            routes
        },
        None => routes,
    }
}

/// The pending replies of one connection, by address.
///
/// An address has at most one sink at a time.
pub struct RoutingTable {
    entries: StringHashMap<Sink>,
}

impl View for RoutingTable {
    type V = Map<Seq<char>, Sink>;

    closed spec fn view(&self) -> Map<Seq<char>, Sink> {
        self.entries@
    }
}

impl RoutingTable {
    /// A table in which nobody waits.
    pub fn new() -> (table: RoutingTable)
        ensures
            table@ == Map::<Seq<char>, Sink>::empty(),
    {
        RoutingTable { entries: StringHashMap::new() }
    }

    /// The sink that waits at `address`, if there is one.
    pub fn get(&self, address: &str) -> (found: Option<Sink>)
        ensures
            found == entry_of(self@, address@),
    {
        match self.entries.get(address) {
            Some(sink) => Some(*sink),
            None => None,
        }
    }

    /// Puts `sink` at `address`. A sink that waited there is replaced and
    /// returned.
    pub fn register(&mut self, address: String, sink: Sink) -> (replaced: Option<Sink>)
        ensures
            final(self)@ == old(self)@.insert(address@, sink),
            replaced == entry_of(old(self)@, address@),
    {
        let replaced = self.get(address.as_str());
        self.entries.insert(address, sink);
        replaced
    }

    /// Takes the entry for `address` out of the table and returns the sink
    /// that waited there, if any.
    pub fn remove(&mut self, address: &str) -> (removed: Option<Sink>)
        ensures
            final(self)@ == old(self)@.remove(address@),
            removed == entry_of(old(self)@, address@),
    {
        let removed = self.get(address);
        self.entries.remove(address);
        removed
    }

    /// Finds the sink that a response for `address` goes to. A single-use
    /// sink leaves the table with this call; a multi-use sink stays. Where
    /// nobody waits, the answer is nothing and the table is unchanged.
    pub fn route(&mut self, address: &str) -> (sink: Option<Sink>)
        ensures
            sink == entry_of(old(self)@, address@),
            final(self)@ == after_delivery(old(self)@, address@),
    {
        let found = self.get(address);
        match found {
            Some(sink) => {
                match sink.kind {
                    SinkKind::Once => {
                        self.entries.remove(address);
                    },
                    SinkKind::Stream => {},
                }
            },
            None => {},
        }
        found
    }

    /// Empties the table.
    pub fn clear(&mut self)
        ensures
            final(self)@ == Map::<Seq<char>, Sink>::empty(),
    {
        self.entries.clear();
    }
}

} // verus!
