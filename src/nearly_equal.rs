use vstd::prelude::*;

verus! {

/// Compare values for equality within a tolerance.
///
/// Composite values compare part by part: two values are nearly equal exactly
/// when every pair of corresponding parts is.
pub trait NearlyEqual: Sized {
    /// Whether `nearly_equal` describes what `nearly_equals` returns for this
    /// type. It holds for the impls proved in this crate and for composites of
    /// such types; an impl that leaves it at its default promises nothing.
    open spec fn obeys_nearly_equal() -> bool {
        false
    }

    /// Whether `self` and `rhs` are close enough to count as equal. Without
    /// `obeys_nearly_equal` it carries no meaning.
    open spec fn nearly_equal(self, rhs: Self) -> bool {
        false
    }

    fn nearly_equals(self, rhs: Self) -> (r: bool)
        ensures
            Self::obeys_nearly_equal() ==> r == self.nearly_equal(rhs),
    ;
}

impl<T: NearlyEqual> NearlyEqual for Option<T> {
    open spec fn obeys_nearly_equal() -> bool {
        T::obeys_nearly_equal()
    }

    /// Two options are nearly equal when both are absent, or both hold values
    /// that are nearly equal.
    open spec fn nearly_equal(self, rhs: Self) -> bool {
        match (self, rhs) {
            (Some(a), Some(b)) => a.nearly_equal(b),
            (None, None) => true,
            _ => false,
        }
    }

    fn nearly_equals(self, rhs: Self) -> (r: bool)
        ensures
            T::obeys_nearly_equal() ==> r == self.nearly_equal(rhs),
            self is None && rhs is None ==> r,
            self is Some != rhs is Some ==> !r,
    {
        match (self, rhs) {
            (Some(a), Some(b)) => a.nearly_equals(b),
            (None, None) => true,
            _ => false,
        }
    }
}

impl<T: NearlyEqual + Copy, const N: usize> NearlyEqual for [T; N] {
    open spec fn obeys_nearly_equal() -> bool {
        T::obeys_nearly_equal()
    }

    /// Two arrays are nearly equal when they are nearly equal at every
    /// position.
    open spec fn nearly_equal(self, rhs: Self) -> bool {
        forall|i: int| 0 <= i < N ==> #[trigger] self[i].nearly_equal(rhs[i])
    }

    fn nearly_equals(self, rhs: Self) -> (r: bool)
        ensures
            T::obeys_nearly_equal() ==> r == self.nearly_equal(rhs),
            N == 0 ==> r,
    {
        let mut i: usize = 0;
        while i < N
            invariant
                i <= N,
                T::obeys_nearly_equal() ==> forall|k: int|
                    0 <= k < i ==> #[trigger] self[k].nearly_equal(rhs[k]),
            decreases N - i,
        {
            if !self[i].nearly_equals(rhs[i]) {
                return false;
            }
            i = i + 1;
        }
        true
    }
}

} // verus!
