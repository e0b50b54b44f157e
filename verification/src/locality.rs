use vstd::prelude::*;

verus! {

/// Which parts of a comparison a type implements with custom logic: only the "local" part (data
/// stored in the value itself), only the "non-local" part (data reached through indirection), or
/// both.
#[derive(Clone, Copy, PartialEq, Eq, Debug, Structural)]
pub enum Locality {
    PureLocal,
    PureNonLocal,
    Both,
}

impl Locality {
    /// Whether a type with this locality has a local part: every locality but `PureNonLocal`.
    pub open spec fn spec_has_local(self) -> bool {
        self != Locality::PureNonLocal
    }

    /// Whether a type with this locality has a non-local part: every locality but `PureLocal`.
    pub open spec fn spec_has_non_local(self) -> bool {
        self != Locality::PureLocal
    }

    /// Whether the local comparison applies to this locality.
    pub fn has_local(&self) -> (has: bool)
        ensures
            has == self.spec_has_local(),
    {
        match self {
            Locality::PureNonLocal => false,
            _ => true,
        }
    }

    /// Whether the non-local comparison applies to this locality.
    pub fn has_non_local(&self) -> (has: bool)
        ensures
            has == self.spec_has_non_local(),
    {
        match self {
            Locality::PureLocal => false,
            _ => true,
        }
    }

    /// Marks code that only makes sense for a locality with a local part (the `local_*`
    /// comparison methods). The check is the precondition: a caller has to show that the
    /// locality has a local part, and the call then does nothing.
    pub fn debug_reachable_for_local(&self)
        requires
            self.spec_has_local(),
    {
    }

    /// Marks code that only makes sense for a locality with a non-local part (the
    /// `non_local_*` comparison methods). The check is the precondition: a caller has to show
    /// that the locality has a non-local part, and the call then does nothing.
    pub fn debug_reachable_for_non_local(&self)
        requires
            self.spec_has_non_local(),
    {
    }
}

/// Marks code that must never run: a `local_*` comparison of a type without a local part. It
/// checks reachability exactly as `Locality::PureNonLocal.debug_reachable_for_local()` does, so
/// it requires what that call requires, which no locality value can give: a verified caller has
/// to show that the call is unreachable.
pub fn debug_fail_unreachable_for_local()
    requires
        Locality::PureNonLocal.spec_has_local(),
{
    Locality::PureNonLocal.debug_reachable_for_local()
}

/// Marks code that must never run: a `non_local_*` comparison of a type without a non-local
/// part. It checks reachability exactly as `Locality::PureLocal.debug_reachable_for_non_local()`
/// does, so it requires what that call requires, which no locality value can give: a verified
/// caller has to show that the call is unreachable.
pub fn debug_fail_unreachable_for_non_local()
    requires
        Locality::PureLocal.spec_has_non_local(),
{
    Locality::PureLocal.debug_reachable_for_non_local()
}

/// Every locality has at least one part to compare: the local one, the non-local one, or both.
pub proof fn lemma_some_part_is_compared(locality: Locality)
    ensures
        locality.spec_has_local() || locality.spec_has_non_local(),
{
}

/// A locality has both parts exactly when it is `Both`; it has only the local part exactly when
/// it is `PureLocal`, and only the non-local part exactly when it is `PureNonLocal`.
pub proof fn lemma_parts_name_the_locality(locality: Locality)
    ensures
        (locality.spec_has_local() && locality.spec_has_non_local()) <==> locality
            == Locality::Both,
        (locality.spec_has_local() && !locality.spec_has_non_local()) <==> locality
            == Locality::PureLocal,
        (!locality.spec_has_local() && locality.spec_has_non_local()) <==> locality
            == Locality::PureNonLocal,
{
}

/// Two localities with the same parts are the same locality.
pub proof fn lemma_parts_determine_locality(a: Locality, b: Locality)
    requires
        a.spec_has_local() == b.spec_has_local(),
        a.spec_has_non_local() == b.spec_has_non_local(),
    ensures
        a == b,
{
}

} // verus!
