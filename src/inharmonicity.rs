//! Per-key measurements of partials and the profile that keys them by piano key.
use std::collections::BTreeMap;
use vstd::prelude::*;

use crate::Bits32;

verus! {

/// Bit pattern of the single-precision positive infinity; patterns from 1 up to it
/// are exactly the values greater than zero.
pub const POSITIVE_INFINITY_BITS: u32 = 0x7f80_0000;

/// Least number of usable partials for which the inharmonicity regression is made.
pub const MIN_REGRESSION_POINTS: usize = 3;

/// One measured partial of a note.
#[derive(Clone, Copy, Debug, PartialEq, Eq, Structural)]
pub struct Partial {
    /// The partial number: 1 for the fundamental, 2 and up for the overtones.
    pub number: u32,
    /// The measured frequency in Hz.
    pub frequency: Bits32,
}

/// The measured partials of one piano key.
#[derive(Clone, Debug)]
pub struct KeyMeasurement {
    /// The piano key index, 0 to 87.
    pub key_index: u8,
    /// The partials, the fundamental first.
    pub partials: Vec<Partial>,
    /// The inharmonicity coefficient B, once computed.
    pub calculated_b: Option<Bits32>,
}

/// The value carried by `bits` is greater than zero.
pub open spec fn is_positive(bits: u32) -> bool {
    0 < bits <= POSITIVE_INFINITY_BITS
}

/// A partial enters the regression: its number and its frequency are greater than zero.
pub open spec fn is_usable(p: Partial) -> bool {
    p.number > 0 && is_positive(p.frequency)
}

/// The partials of `s` that enter the regression, in order.
pub open spec fn usable_partials(s: Seq<Partial>) -> Seq<Partial> {
    s.filter(|p: Partial| is_usable(p))
}

impl KeyMeasurement {
    /// The partials on which the regression for B is made: those whose number and
    /// frequency are greater than zero, in order. With fewer than three of them the
    /// regression is underdetermined and there are none to give.
    pub fn regression_points(&self) -> (r: Option<Vec<Partial>>)
        ensures
            match r {
                Some(points) => {
                    &&& points@ == usable_partials(self.partials@)
                    &&& points@.len() >= MIN_REGRESSION_POINTS
                },
                None => usable_partials(self.partials@).len() < MIN_REGRESSION_POINTS,
            },
    {
        let mut points: Vec<Partial> = Vec::new();
        let mut i: usize = 0;
        while i < self.partials.len()
            invariant
                i <= self.partials@.len(),
                points@ == usable_partials(self.partials@.subrange(0, i as int)),
            decreases self.partials@.len() - i,
        {
            let p = self.partials[i];
            proof {
                let pred = |q: Partial| is_usable(q);
                assert(self.partials@.subrange(0, i + 1) =~= self.partials@.subrange(
                    0,
                    i as int,
                ).push(p));
                self.partials@.subrange(0, i as int).lemma_filter_push(p, pred);
            }
            if p.number > 0 && 0 < p.frequency && p.frequency <= POSITIVE_INFINITY_BITS {
                points.push(p);
            }
            i = i + 1;
        }
        assert(self.partials@.subrange(0, self.partials@.len() as int) =~= self.partials@);
        if points.len() < MIN_REGRESSION_POINTS {
            None
        } else {
            Some(points)
        }
    }
}

/// The measurements of a piano, at most one per key, ordered by key index.
#[derive(Clone, Debug)]
pub struct InharmonicityProfile {
    /// The measurement of each measured key.
    pub measurements: BTreeMap<u8, KeyMeasurement>,
}

impl InharmonicityProfile {
    /// A profile with no measurement.
    pub fn new() -> (r: InharmonicityProfile)
        ensures
            r.measurements@ == Map::<u8, KeyMeasurement>::empty(),
    {
        InharmonicityProfile { measurements: BTreeMap::new() }
    }

    /// Stores `measurement` under its key, replacing what that key held.
    pub fn record(&mut self, measurement: KeyMeasurement)
        ensures
            final(self).measurements@ == old(self).measurements@.insert(
                measurement.key_index,
                measurement,
            ),
    {
        broadcast use vstd::laws_cmp::group_laws_cmp;

        let key = measurement.key_index;
        self.measurements.insert(key, measurement);
    }

    /// Number of keys measured.
    pub fn len(&self) -> (r: usize)
        ensures
            r == self.measurements@.len(),
    {
        broadcast use vstd::laws_cmp::group_laws_cmp;
        broadcast use vstd::std_specs::btree::axiom_spec_btree_map_len;

        self.measurements.len()
    }
}

impl Default for InharmonicityProfile {
    fn default() -> (r: InharmonicityProfile)
        ensures
            r.measurements@ == Map::<u8, KeyMeasurement>::empty(),
    {
        InharmonicityProfile::new()
    }
}

} // verus!
