//! Shared scalar types, limits and the string-set used for attribute matching.

use vstd::prelude::*;

verus! {

/// A point in time, in whole seconds.
pub type Timestamp = u64;

/// A span of time, in whole seconds.
pub type Duration = u64;

/// A location index, resolved through the transport-cost capability.
pub type Location = usize;

/// A cost value in fixed-point milli-units: one cost unit is `COST_SCALE`.
pub type Cost = u64;

/// Fixed-point scale of [`Cost`]: cost values carry three decimal places.
pub const COST_SCALE: u64 = 1000;

/// Upper bound on timestamps, service durations and travel durations that
/// schedule arithmetic is required to stay within, so that chained arrival
/// estimates cannot overflow a `u64`.
pub const MAX_TIME: u64 = 0x1000_0000_0000;

/// Most activities a tour may hold for schedule estimation to stay in bounds.
pub const MAX_ACTIVITIES: usize = 0x1_0000;

/// Longest attribute list a tag set accepts, keeping penalty arithmetic in bounds.
pub const MAX_ATTR_LIST: usize = 0x100_0000;

/// A closed time interval in which an activity may be served.
#[derive(Clone, Copy, Debug, PartialEq, Eq, Structural)]
pub struct TimeWindow {
    pub start: Timestamp,
    pub end: Timestamp,
}

impl TimeWindow {
    pub fn new(start: Timestamp, end: Timestamp) -> (r: TimeWindow)
        ensures
            r.start == start,
            r.end == end,
    {
        TimeWindow { start, end }
    }
}

/// The committed arrival and departure times of an activity.
#[derive(Clone, Copy, Debug, PartialEq, Eq, Structural)]
pub struct Schedule {
    pub arrival: Timestamp,
    pub departure: Timestamp,
}

impl Schedule {
    pub fn new(arrival: Timestamp, departure: Timestamp) -> (r: Schedule)
        ensures
            r.arrival == arrival,
            r.departure == departure,
    {
        Schedule { arrival, departure }
    }
}

/// A recoverable failure reported once, at feature construction time.
#[derive(Debug)]
pub struct GenericError {
    pub message: String,
}

/// First-occurrence deduplication of a sequence of tags.
pub open spec fn dedup_tags(s: Seq<Seq<char>>) -> Seq<Seq<char>>
    decreases s.len(),
{
    if s.len() == 0 {
        Seq::empty()
    } else {
        let d = dedup_tags(s.drop_last());
        if d.contains(s.last()) {
            d
        } else {
            d.push(s.last())
        }
    }
}

/// A small set of attribute tags with set semantics: insertion order is kept,
/// duplicates are dropped, and membership is decided by string contents.
#[derive(Debug)]
pub struct TagSet {
    items: Vec<String>,
}

impl View for TagSet {
    type V = Seq<Seq<char>>;

    closed spec fn view(&self) -> Seq<Seq<char>> {
        self.items@.map_values(|s: String| s@)
    }
}

impl TagSet {
    #[verifier::type_invariant]
    spec fn inv(self) -> bool {
        &&& self.items@.len() <= MAX_ATTR_LIST
        &&& forall|i: int, j: int|
            0 <= i < j < self.items@.len() ==> self.items@[i]@ != self.items@[j]@
    }

    pub fn new() -> (r: TagSet)
        ensures
            r@ == Seq::<Seq<char>>::empty(),
    {
        let r = TagSet { items: Vec::new() };
        proof {
            assert(r@ =~= Seq::<Seq<char>>::empty());
        }
        r
    }

    pub fn len(&self) -> (r: usize)
        ensures
            r == self@.len(),
            r <= MAX_ATTR_LIST,
    {
        proof {
            use_type_invariant(self);
        }
        self.items.len()
    }

    pub fn is_empty(&self) -> (r: bool)
        ensures
            r == (self@.len() == 0),
    {
        self.items.len() == 0
    }

    pub fn get(&self, i: usize) -> (r: &String)
        requires
            i < self@.len(),
        ensures
            r@ == self@[i as int],
    {
        &self.items[i]
    }

    pub fn contains(&self, tag: &String) -> (r: bool)
        ensures
            r == self@.contains(tag@),
    {
        let mut i: usize = 0;
        while i < self.items.len()
            invariant
                i <= self.items.len(),
                forall|k: int| 0 <= k < i ==> self.items@[k]@ != tag@,
            decreases self.items.len() - i,
        {
            if self.items[i] == *tag {
                proof {
                    assert(self@[i as int] == tag@);
                }
                return true;
            }
            i = i + 1;
        }
        proof {
            assert(forall|k: int| 0 <= k < self@.len() ==> self@[k] != tag@);
        }
        false
    }

    pub fn insert(&mut self, tag: String)
        requires
            old(self)@.len() < MAX_ATTR_LIST,
        ensures
            final(self)@ == if old(self)@.contains(tag@) {
                old(self)@
            } else {
                old(self)@.push(tag@)
            },
    {
        proof {
            use_type_invariant(&*self);
        }
        if !self.contains(&tag) {
            let ghost before = self.items@;
            let mut items: Vec<String> = Vec::new();
            core::mem::swap(&mut items, &mut self.items);
            items.push(tag);
            proof {
                let bview = before.map_values(|s: String| s@);
                assert(forall|k: int| 0 <= k < before.len() ==> #[trigger] before[k]@ == bview[k]);
                assert(forall|i: int, j: int|
                    0 <= i < j < items@.len() ==> #[trigger] items@[i]@ != #[trigger] items@[j]@);
            }
            self.items = items;
            proof {
                assert(self@ =~= before.map_values(|s: String| s@).push(tag@));
            }
        }
    }

    /// Builds a tag set from a list, keeping the first occurrence of each tag.
    pub fn from_vec(items: Vec<String>) -> (r: TagSet)
        requires
            items@.len() <= MAX_ATTR_LIST,
        ensures
            r@ == dedup_tags(items@.map_values(|s: String| s@)),
    {
        let ghost all = items@.map_values(|s: String| s@);
        let mut r = TagSet::new();
        let mut i: usize = 0;
        while i < items.len()
            invariant
                i <= items.len(),
                items@.len() <= MAX_ATTR_LIST,
                all == items@.map_values(|s: String| s@),
                r@ == dedup_tags(all.subrange(0, i as int)),
            decreases items.len() - i,
        {
            proof {
                assert(r@.len() <= i) by {
                    lemma_dedup_tags_len(all.subrange(0, i as int));
                }
            }
            let tag = items[i].clone();
            r.insert(tag);
            proof {
                let prefix = all.subrange(0, i as int + 1);
                assert(prefix.drop_last() =~= all.subrange(0, i as int));
                assert(prefix.last() == all[i as int]);
            }
            i = i + 1;
        }
        proof {
            assert(all.subrange(0, items@.len() as int) =~= all);
        }
        r
    }
}

impl Clone for TagSet {
    fn clone(&self) -> (r: Self)
        ensures
            r@ == self@,
    {
        proof {
            use_type_invariant(self);
        }
        let mut out: Vec<String> = Vec::new();
        let mut i: usize = 0;
        while i < self.items.len()
            invariant
                i <= self.items.len(),
                out@.len() == i,
                forall|k: int| 0 <= k < i ==> out@[k]@ == self.items@[k]@,
                self.inv(),
            decreases self.items.len() - i,
        {
            out.push(self.items[i].clone());
            i = i + 1;
        }
        let r = TagSet { items: out };
        proof {
            assert(r@ =~= self@);
        }
        r
    }
}

/// Bounds on a product of bounded non-negative factors.
pub proof fn lemma_mul_bounds(a: int, b: int, amax: int, bmax: int)
    requires
        0 <= a <= amax,
        0 <= b <= bmax,
    ensures
        0 <= a * b <= amax * bmax,
{
    assert(0 <= a * b <= amax * bmax) by (nonlinear_arith)
        requires
            0 <= a <= amax,
            0 <= b <= bmax,
    ;
}

/// A quotient of a non-negative value by a positive divisor is non-negative
/// and no larger than the dividend.
pub proof fn lemma_div_bounds(a: int, d: int)
    requires
        0 <= a,
        0 < d,
    ensures
        0 <= a / d <= a,
{
    assert(0 <= a / d <= a) by (nonlinear_arith)
        requires
            0 <= a,
            0 < d,
    ;
}

/// The deduplicated sequence is never longer than its source.
pub proof fn lemma_dedup_tags_len(s: Seq<Seq<char>>)
    ensures
        dedup_tags(s).len() <= s.len(),
    decreases s.len(),
{
    if s.len() > 0 {
        lemma_dedup_tags_len(s.drop_last());
    }
}

} // verus!
