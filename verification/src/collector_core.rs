//! The contract of a collector and the registry of the collectors of a run.

use crate::record::Asset;
use crate::text::texts;
use vstd::prelude::*;

verus! {

/// Why a collector found nothing.
#[derive(Debug)]
pub struct DiscoveryError {
    pub message: String,
}

/// A collector discovers the resources of one service and hands them over
/// as records.
pub trait Collector: Send + Sync {
    /// The name that the collector declares. A collector that says nothing
    /// of its name may declare any.
    open spec fn label(&self) -> Seq<char> {
        arbitrary()
    }

    /// Whether a discovery over `regions` may end in `outcome`. A collector
    /// that says nothing of its outcomes may end in any.
    open spec fn discovers(
        &self,
        regions: Seq<Seq<char>>,
        mock: bool,
        outcome: Result<Vec<Asset>, DiscoveryError>,
    ) -> bool {
        true
    }

    fn name(&self) -> (s: &'static str)
        ensures
            s@ == self.label(),
    ;

    /// Discovers the resources in `regions`. With `mock` set it makes no
    /// outside call and returns fixed records.
    fn discover(&self, regions: &[String], mock: bool) -> (outcome: Result<
        Vec<Asset>,
        DiscoveryError,
    >)
        ensures
            self.discovers(texts(regions@), mock, outcome),
    ;
}

/// A registered collector.
pub struct Entry {
    pub collector: Box<dyn Collector>,
}

/// The collectors of a run, in the order of their registration.
pub struct Registry {
    pub entries: Vec<Entry>,
}

/// A list of entries with one more at its end.
fn with_entry(entries: Vec<Entry>, entry: Entry) -> (r: Vec<Entry>)
    ensures
        r@ == entries@.push(entry),
{
    let mut entries = entries;
    entries.push(entry);
    entries
}

impl Registry {
    /// The registry without collectors.
    pub fn new() -> (r: Registry)
        ensures
            r.entries@.len() == 0,
    {
        Registry { entries: Vec::new() }
    }

    /// The number of collectors.
    pub fn len(&self) -> (n: usize)
        ensures
            n == self.entries@.len(),
    {
        self.entries.len()
    }

    /// Adds an entry at the end of the registry.
    pub fn push(&mut self, entry: Entry)
        ensures
            final(self).entries@ == old(self).entries@.push(entry),
    {
        let mut taken: Vec<Entry> = Vec::new();
        std::mem::swap(&mut taken, &mut self.entries);
        let grown = with_entry(taken, entry);
        self.entries = grown;
    }
}

/// Adds a collector at the end of the registry. The collectors registered
/// before stay as they are.
pub fn register(registry: &mut Registry, collector: Box<dyn Collector>)
    ensures
        final(registry).entries@ == old(registry).entries@.push((Entry { collector })),
{
    registry.push(Entry { collector });
}

/// The collectors of the registry, in the order of their registration.
pub fn get_all(registry: &Registry) -> (all: &Vec<Entry>)
    ensures
        all@ == registry.entries@,
{
    &registry.entries
}

} // verus!
