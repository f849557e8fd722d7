use vstd::prelude::*;

verus! {

/// Fewest entries that must stay strictly positive after thresholding for a
/// candidate to be projected rather than replaced by the uniform allocation.
pub const MIN_POSITIVE_ENTRIES: usize = 11;

/// Passes of the cap-and-redistribute loop after which it counts as not converging.
pub const MAX_CAP_PASSES: usize = 2000;

/// How one entry of a thresholded candidate stands.
#[derive(Clone, Copy, Debug, PartialEq, Eq, Structural)]
pub enum Standing {
    /// The entry is not a number.
    NotANumber,
    /// The entry is exactly zero.
    Zero,
    /// The entry is strictly positive, however small.
    Positive,
}

/// Number of strictly positive entries in `s`.
pub open spec fn count_positive(s: Seq<Standing>) -> nat
    decreases s.len(),
{
    if s.len() == 0 {
        0
    } else {
        count_positive(s.drop_last()) + if s.last() is Positive {
            1nat
        } else {
            0nat
        }
    }
}

/// A candidate is degenerate when one of its entries is not a number, when all
/// of them are zero, or when too few of them are strictly positive.
pub open spec fn degenerate(s: Seq<Standing>) -> bool {
    ||| exists|i: int| 0 <= i < s.len() && #[trigger] s[i] is NotANumber
    ||| forall|i: int| 0 <= i < s.len() ==> #[trigger] s[i] is Zero
    ||| count_positive(s) < MIN_POSITIVE_ENTRIES
}

proof fn lemma_all_zero_has_no_positive(s: Seq<Standing>)
    requires
        forall|i: int| 0 <= i < s.len() ==> #[trigger] s[i] is Zero,
    ensures
        count_positive(s) == 0,
    decreases s.len(),
{
    if s.len() > 0 {
        let t = s.drop_last();
        assert forall|i: int| 0 <= i < t.len() implies #[trigger] t[i] is Zero by {
            assert(t[i] == s[i]);
        }
        lemma_all_zero_has_no_positive(t);
        assert(s.last() is Zero);
    }
}

/// Whether the thresholded candidate `entries` must be replaced by the uniform
/// allocation instead of being projected.
pub fn is_degenerate(entries: &Vec<Standing>) -> (r: bool)
    ensures
        r == degenerate(entries@),
{
    let mut positive: usize = 0;
    let mut any_nan = false;
    let mut all_zero = true;
    let mut i: usize = 0;
    while i < entries.len()
        invariant
            i <= entries.len(),
            positive == count_positive(entries@.take(i as int)),
            positive <= i,
            any_nan == exists|j: int| 0 <= j < i && #[trigger] entries@[j] is NotANumber,
            all_zero == forall|j: int| 0 <= j < i ==> #[trigger] entries@[j] is Zero,
        decreases entries.len() - i,
    {
        let prefix = Ghost(entries@.take(i as int + 1));
        assert(prefix@.drop_last() =~= entries@.take(i as int));
        assert(prefix@.last() == entries@[i as int]);
        match entries[i] {
            Standing::NotANumber => {
                any_nan = true;
                all_zero = false;
            },
            Standing::Zero => {},
            Standing::Positive => {
                positive = positive + 1;
                all_zero = false;
            },
        }
        i = i + 1;
    }
    assert(entries@.take(entries.len() as int) =~= entries@);
    any_nan || all_zero || positive < MIN_POSITIVE_ENTRIES
}

/// A candidate with an entry that is not a number, one whose entries are all
/// zero, and one with fewer strictly positive entries than the minimum are all
/// replaced by the uniform allocation; an all-zero candidate has no positive
/// entry.
pub proof fn lemma_degenerate_candidates_fall_back(s: Seq<Standing>)
    ensures
        (exists|i: int| 0 <= i < s.len() && #[trigger] s[i] is NotANumber) ==> degenerate(s),
        (forall|i: int| 0 <= i < s.len() ==> #[trigger] s[i] is Zero) ==> count_positive(s) == 0
            && degenerate(s),
        count_positive(s) < MIN_POSITIVE_ENTRIES ==> degenerate(s),
{
    if forall|i: int| 0 <= i < s.len() ==> #[trigger] s[i] is Zero {
        lemma_all_zero_has_no_positive(s);
    }
}

/// A candidate with no entry that is not a number and exactly the minimum
/// number of strictly positive entries is projected, not replaced.
pub proof fn lemma_minimum_positive_is_projected(s: Seq<Standing>)
    requires
        forall|i: int| 0 <= i < s.len() ==> !(#[trigger] s[i] is NotANumber),
        count_positive(s) == MIN_POSITIVE_ENTRIES,
    ensures
        !degenerate(s),
{
    if forall|i: int| 0 <= i < s.len() ==> #[trigger] s[i] is Zero {
        lemma_all_zero_has_no_positive(s);
    }
}

/// A defect found while projecting a candidate that was not degenerate.
#[derive(Clone, Copy, Debug, PartialEq, Eq, Structural)]
pub enum ProjectionDefect {
    /// The cap-and-redistribute loop ran past its pass limit.
    NonConvergence,
    /// The projected entries do not sum to one within tolerance.
    SumMismatch,
    /// The largest projected entry exceeds the cap beyond tolerance.
    CapExceeded,
    /// The smallest nonzero projected entry lies below the floor beyond tolerance.
    FloorBreached,
}

/// What one pass of the cap-and-redistribute loop does with an entry, once
/// every entry has been scaled so that the largest equals the cap.
#[derive(Clone, Copy, Debug, PartialEq, Eq, Structural)]
pub enum Role {
    /// The entry is set to exactly the cap.
    Pinned,
    /// The entry is zero and stays zero.
    Untouched,
    /// The entry receives its proportional share of the deficit.
    Flexible,
}

/// An entry within tolerance of the cap is pinned; otherwise a zero entry is
/// left alone; every other entry is flexible.
pub open spec fn role_spec(at_cap: bool, is_zero: bool) -> Role {
    if at_cap {
        Role::Pinned
    } else if is_zero {
        Role::Untouched
    } else {
        Role::Flexible
    }
}

/// The role of an entry in a redistribution pass, given whether it lies
/// within tolerance of the cap and whether it is zero.
pub fn role_of(at_cap: bool, is_zero: bool) -> (r: Role)
    ensures
        r == role_spec(at_cap, is_zero),
{
    if at_cap {
        Role::Pinned
    } else if is_zero {
        Role::Untouched
    } else {
        Role::Flexible
    }
}

/// Counts the passes of the cap-and-redistribute loop and stops it once it
/// has run past `MAX_CAP_PASSES`.
pub struct CapGuard {
    passes: usize,
}

impl CapGuard {
    /// Passes recorded so far, counting the one that was refused.
    pub closed spec fn spent(&self) -> nat {
        self.passes as nat
    }

    pub fn new() -> (g: CapGuard)
        ensures
            g.spent() == 0,
    {
        CapGuard { passes: 0 }
    }

    pub fn passes(&self) -> (r: usize)
        ensures
            r == self.spent(),
    {
        self.passes
    }

    /// Records one more pass. The pass is allowed while no more than
    /// `MAX_CAP_PASSES` passes have been recorded; the one after that is
    /// refused as a non-convergence defect, and so is every later one.
    pub fn record_pass(&mut self) -> (r: Result<(), ProjectionDefect>)
        ensures
            r is Ok <==> old(self).spent() < MAX_CAP_PASSES,
            r is Err ==> r == Err::<(), ProjectionDefect>(ProjectionDefect::NonConvergence),
            final(self).spent() == if old(self).spent() < MAX_CAP_PASSES {
                old(self).spent() + 1int
            } else {
                MAX_CAP_PASSES + 1
            },
    {
        if self.passes < MAX_CAP_PASSES {
            self.passes = self.passes + 1;
            Ok(())
        } else {
            self.passes = MAX_CAP_PASSES + 1;
            Err(ProjectionDefect::NonConvergence)
        }
    }
}

/// The verdict on a projected allocation from the outcome of its three
/// checks, taken in order: sum, cap, floor.
pub open spec fn verdict(sum_ok: bool, cap_ok: bool, floor_ok: bool) -> Result<(), ProjectionDefect> {
    if !sum_ok {
        Err(ProjectionDefect::SumMismatch)
    } else if !cap_ok {
        Err(ProjectionDefect::CapExceeded)
    } else if !floor_ok {
        Err(ProjectionDefect::FloorBreached)
    } else {
        Ok(())
    }
}

/// Accepts a projected allocation only when its entries sum to one, its
/// largest entry respects the cap and its smallest nonzero entry respects the
/// floor, each within tolerance; otherwise names the first check that failed.
pub fn check_projection(sum_ok: bool, cap_ok: bool, floor_ok: bool) -> (r: Result<
    (),
    ProjectionDefect,
>)
    ensures
        r == verdict(sum_ok, cap_ok, floor_ok),
        r is Ok <==> sum_ok && cap_ok && floor_ok,
{
    if !sum_ok {
        Err(ProjectionDefect::SumMismatch)
    } else if !cap_ok {
        Err(ProjectionDefect::CapExceeded)
    } else if !floor_ok {
        Err(ProjectionDefect::FloorBreached)
    } else {
        Ok(())
    }
}

} // verus!
