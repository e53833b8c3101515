//! The transport-cost capability: travel durations between locations.
//!
//! The capability is consumed as data — a duration matrix indexed by
//! location — so that every query is deterministic for a given pair of
//! locations, as the evaluation contract demands.  Entries are bounded by
//! [`MAX_TIME`] so that chained arrival estimates cannot overflow.

use vstd::prelude::*;

use crate::common::Duration;
use crate::common::GenericError;
use crate::common::Location;
use crate::common::MAX_TIME;

verus! {

/// A travel-duration matrix.  A query outside the matrix reads as zero.
#[derive(Debug)]
pub struct TransportCosts {
    durations: Vec<Vec<Duration>>,
}

impl TransportCosts {
    #[verifier::type_invariant]
    spec fn inv(self) -> bool {
        forall|i: int, j: int|
            0 <= i < self.durations@.len() && 0 <= j < self.durations@[i]@.len()
                ==> #[trigger] self.durations@[i]@[j] <= MAX_TIME
    }

    /// The travel duration from `from` to `to`: the matrix entry, or zero
    /// outside the matrix.
    pub closed spec fn spec_duration(self, from: int, to: int) -> Duration {
        if 0 <= from < self.durations@.len() && 0 <= to < self.durations@[from]@.len() {
            self.durations@[from]@[to]
        } else {
            0
        }
    }

    /// Builds the capability from a duration matrix, refusing one whose
    /// entries could overflow schedule arithmetic.
    pub fn new(durations: Vec<Vec<Duration>>) -> (r: Result<TransportCosts, GenericError>)
        ensures
            (r matches Ok(t) ==> {
                &&& t.spec_rows() == durations@.len()
                &&& forall|i: int, j: int|
                    0 <= i < durations@.len() && 0 <= j < durations@[i]@.len()
                        ==> #[trigger] t.spec_duration(i, j) == durations@[i]@[j]
            }),
            (r is Ok <==> forall|i: int, j: int|
                0 <= i < durations@.len() && 0 <= j < durations@[i]@.len()
                    ==> #[trigger] durations@[i]@[j] <= MAX_TIME),
    {
        let mut i: usize = 0;
        while i < durations.len()
            invariant
                i <= durations@.len(),
                forall|a: int, b: int|
                    0 <= a < i && 0 <= b < durations@[a]@.len()
                        ==> #[trigger] durations@[a]@[b] <= MAX_TIME,
            decreases durations.len() - i,
        {
            let row = &durations[i];
            let mut j: usize = 0;
            while j < row.len()
                invariant
                    j <= row@.len(),
                    row == &durations@[i as int],
                    i < durations@.len(),
                    forall|b: int| 0 <= b < j ==> #[trigger] row@[b] <= MAX_TIME,
                decreases row.len() - j,
            {
                if row[j] > MAX_TIME {
                    return Err(
                        GenericError {
                            message: String::from_str("travel duration above supported bound"),
                        },
                    );
                }
                j = j + 1;
            }
            i = i + 1;
        }
        Ok(TransportCosts { durations })
    }

    /// How many rows the matrix holds.
    pub closed spec fn spec_rows(self) -> nat {
        self.durations@.len()
    }

    /// The travel duration from `from` to `to`.
    pub fn duration(&self, from: Location, to: Location) -> (r: Duration)
        ensures
            r == self.spec_duration(from as int, to as int),
            r <= MAX_TIME,
    {
        proof {
            use_type_invariant(self);
        }
        if from < self.durations.len() {
            let row = &self.durations[from];
            if to < row.len() {
                row[to]
            } else {
                0
            }
        } else {
            0
        }
    }
}

} // verus!
