//! Price bars and the ordered series that the cache stores.

use vstd::prelude::*;

verus! {

/// One price bar of a symbol.
///
/// `timestamp` counts seconds since the Unix epoch. The four prices are
/// carried as IEEE 754 binary64 bit patterns: the cache stores and returns
/// them and never computes with them.
#[derive(Clone, Copy, Debug, PartialEq, Eq, Structural)]
pub struct QuoteRecord {
    pub timestamp: u64,
    pub open: u64,
    pub high: u64,
    pub low: u64,
    pub close: u64,
    pub volume: u64,
}

/// Every bar is strictly later than all bars before it, so no timestamp
/// occurs twice.
pub open spec fn strictly_ascending(records: Seq<QuoteRecord>) -> bool {
    forall|i: int, j: int|
        0 <= i < j < records.len() ==> records[i].timestamp < records[j].timestamp
}

/// The bars of one symbol, strictly ascending by timestamp.
#[derive(Debug, PartialEq, Eq)]
pub struct QuoteSeries {
    records: Vec<QuoteRecord>,
}

impl View for QuoteSeries {
    type V = Seq<QuoteRecord>;

    closed spec fn view(&self) -> Seq<QuoteRecord> {
        self.records@
    }
}

impl QuoteSeries {
    /// What holds of every series: its bars are strictly ascending.
    #[verifier::type_invariant]
    pub open spec fn ordered(&self) -> bool {
        strictly_ascending(self@)
    }

    /// Accepts `records` as a series if and only if they are strictly
    /// ascending by timestamp.
    pub fn new(records: Vec<QuoteRecord>) -> (series: Option<QuoteSeries>)
        ensures
            series is Some <==> strictly_ascending(records@),
            series matches Some(s) ==> s@ == records@,
    {
        let n = records.len();
        let mut i: usize = 1;
        while i < n
            invariant
                1 <= i,
                n == records.len(),
                forall|a: int, b: int|
                    0 <= a < b < i && b < n ==> records[a].timestamp < records[b].timestamp,
            decreases n - i,
        {
            if records[i - 1].timestamp >= records[i].timestamp {
                return None;
            }
            assert forall|a: int, b: int| 0 <= a < b < i + 1 && b < n implies records[a].timestamp
                < records[b].timestamp by {
                if b == i && a < i - 1 {
                    assert(records[a].timestamp < records[i - 1].timestamp);
                }
            }
            i += 1;
        }
        Some(QuoteSeries { records })
    }

    /// The number of bars.
    pub fn len(&self) -> (n: usize)
        ensures
            n == self@.len(),
    {
        self.records.len()
    }

    /// The bars in order.
    pub fn records(&self) -> (records: &Vec<QuoteRecord>)
        ensures
            records@ == self@,
            strictly_ascending(records@),
    {
        proof {
            use_type_invariant(self);
        }
        &self.records
    }
}

impl Clone for QuoteSeries {
    fn clone(&self) -> (copy: Self)
        ensures
            copy@ == self@,
    {
        proof {
            use_type_invariant(self);
        }
        let records = self.records.clone();
        assert(records@ =~= self.records@);
        QuoteSeries { records }
    }
}

} // verus!
