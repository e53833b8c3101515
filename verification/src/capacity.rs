//! Named capacity dimensions: a mapping between dimension names and the
//! positions of a demand vector, used when a fleet declares its capacity
//! dimensions by name and jobs state their demand against those names.

use vstd::prelude::*;

verus! {

/// The position a name resolves to: the last position carrying that name,
/// or `-1` when no position does.
pub open spec fn last_index_of(names: Seq<Seq<char>>, name: Seq<char>) -> int
    decreases names.len(),
{
    if names.len() == 0 {
        -1
    } else if names.last() == name {
        names.len() - 1
    } else {
        last_index_of(names.drop_last(), name)
    }
}

/// The value of demand slot `i` after the first `k` named entries were
/// applied in order: the last entry naming slot `i` wins, and an untouched
/// slot stays zero.
pub open spec fn spec_resolved_slot(
    names: Seq<Seq<char>>,
    named: Seq<(Seq<char>, i32)>,
    k: int,
    i: int,
) -> i32
    decreases k,
{
    if k <= 0 {
        0
    } else if last_index_of(names, named[k - 1].0) == i {
        named[k - 1].1
    } else {
        spec_resolved_slot(names, named, k - 1, i)
    }
}

/// A mapping between capacity dimension names and their demand-vector
/// positions: each name stands for its position in the declared order.
#[derive(Debug)]
pub struct CapacityDimensionMapping {
    names: Vec<String>,
}

impl View for CapacityDimensionMapping {
    type V = Seq<Seq<char>>;

    closed spec fn view(&self) -> Seq<Seq<char>> {
        self.names@.map_values(|s: String| s@)
    }
}

impl CapacityDimensionMapping {
    /// Creates a mapping from a list of dimension names, in declared order.
    pub fn from_names(names: &[String]) -> (r: Self)
        ensures
            r@ == names@.map_values(|s: String| s@),
    {
        let mut owned: Vec<String> = Vec::new();
        let mut i: usize = 0;
        while i < names.len()
            invariant
                i <= names@.len(),
                owned@.len() == i,
                forall|k: int| 0 <= k < i ==> owned@[k]@ == #[trigger] names@[k]@,
            decreases names.len() - i,
        {
            owned.push(vstd::slice::slice_index_get(names, i).clone());
            i = i + 1;
        }
        let r = CapacityDimensionMapping { names: owned };
        proof {
            assert(r@ =~= names@.map_values(|s: String| s@));
        }
        r
    }

    /// The position `name` resolves to, if any: the last declared position
    /// carrying that name.
    fn lookup(&self, name: &String) -> (r: Option<usize>)
        ensures
            (match r {
                Some(i) => i < self@.len() && last_index_of(self@, name@) == i,
                None => last_index_of(self@, name@) == -1,
            }),
    {
        let mut j: usize = self.names.len();
        proof {
            assert(self@.subrange(0, self@.len() as int) =~= self@);
        }
        while j > 0
            invariant
                j <= self.names@.len(),
                last_index_of(self@, name@) == last_index_of(self@.subrange(0, j as int), name@),
            decreases j,
        {
            proof {
                let prefix = self@.subrange(0, j as int);
                assert(prefix.last() == self@[j as int - 1]);
                assert(prefix.drop_last() =~= self@.subrange(0, j as int - 1));
            }
            if self.names[j - 1] == *name {
                proof {
                    assert(last_index_of(self@.subrange(0, j as int), name@) == j - 1);
                }
                return Some(j - 1);
            }
            j = j - 1;
        }
        proof {
            assert(self@.subrange(0, 0) =~= Seq::<Seq<char>>::empty());
        }
        None
    }

    /// Resolves a named demand to a positional demand vector: one slot per
    /// declared dimension, the last entry naming a slot wins, an unnamed slot
    /// stays zero, and entries naming no declared dimension are ignored.
    #[verifier::loop_isolation(false)]
    pub fn resolve_demand(&self, named: &Vec<(String, i32)>) -> (r: Vec<i32>)
        ensures
            r@.len() == self@.len(),
            forall|i: int|
                0 <= i < self@.len() ==> r@[i] == spec_resolved_slot(
                    self@,
                    named@.map_values(|p: (String, i32)| (p.0@, p.1)),
                    named@.len() as int,
                    i,
                ),
    {
        let ghost namedv = named@.map_values(|p: (String, i32)| (p.0@, p.1));
        let n = self.names.len();
        let mut result: Vec<i32> = Vec::new();
        let mut i: usize = 0;
        while i < n
            invariant
                i <= n,
                result@.len() == i,
                forall|s: int| 0 <= s < i ==> result@[s] == 0,
            decreases n - i,
        {
            result.push(0);
            i = i + 1;
        }
        let mut k: usize = 0;
        while k < named.len()
            invariant
                k <= named@.len(),
                result@.len() == self@.len(),
                forall|s: int|
                    0 <= s < self@.len() ==> result@[s] == spec_resolved_slot(
                        self@,
                        namedv,
                        k as int,
                        s,
                    ),
            decreases named.len() - k,
        {
            let entry = &named[k];
            proof {
                assert(namedv[k as int] == (entry.0@, entry.1));
            }
            match self.lookup(&entry.0) {
                Some(idx) => {
                    result.set(idx, entry.1);
                },
                None => {},
            }
            k = k + 1;
        }
        result
    }

    /// The declared dimension names, in order.
    pub fn names(&self) -> (r: &[String])
        ensures
            r@.map_values(|s: String| s@) == self@,
    {
        self.names.as_slice()
    }
}

impl Clone for CapacityDimensionMapping {
    fn clone(&self) -> (r: Self)
        ensures
            r@ == self@,
    {
        let mut owned: Vec<String> = Vec::new();
        let mut i: usize = 0;
        while i < self.names.len()
            invariant
                i <= self.names@.len(),
                owned@.len() == i,
                forall|k: int| 0 <= k < i ==> owned@[k]@ == #[trigger] self.names@[k]@,
            decreases self.names.len() - i,
        {
            owned.push(self.names[i].clone());
            i = i + 1;
        }
        let r = CapacityDimensionMapping { names: owned };
        proof {
            assert(r@ =~= self@);
        }
        r
    }
}

} // verus!
