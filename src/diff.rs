use vstd::prelude::*;

use crate::entry::EntryModel;
use crate::set::EntrySet;

verus! {

/// The state recorded after a run that removed `to_remove` and installed `to_install`.
pub open spec fn committed_state(
    recorded: Set<EntryModel>,
    to_install: Set<EntryModel>,
    to_remove: Set<EntryModel>,
) -> Set<EntryModel> {
    recorded.difference(to_remove).union(to_install)
}

/// What separates the recorded packages from the desired ones.
#[derive(Debug)]
pub struct Diff {
    pub to_install: EntrySet,
    pub to_remove: EntrySet,
}

impl Diff {
    pub open spec fn wf(&self) -> bool {
        self.to_install.wf() && self.to_remove.wf()
    }

    /// Nothing to install and nothing to remove.
    pub fn is_empty(&self) -> (r: bool)
        requires
            self.wf(),
        ensures
            r == (self.to_install@ == Set::<EntryModel>::empty() && self.to_remove@
                == Set::<EntryModel>::empty()),
    {
        self.to_install.is_empty() && self.to_remove.is_empty()
    }
}

/// The packages to install (desired, not recorded) and to remove (recorded, not desired).
pub fn compute_diff(desired: &EntrySet, recorded: &EntrySet) -> (r: Diff)
    requires
        desired.wf(),
        recorded.wf(),
    ensures
        r.wf(),
        r.to_install@ == desired@.difference(recorded@),
        r.to_remove@ == recorded@.difference(desired@),
{
    Diff { to_install: desired.difference(recorded), to_remove: recorded.difference(desired) }
}

/// The recorded packages less those removed, with those installed.
pub fn next_state(recorded: &EntrySet, diff: &Diff) -> (r: EntrySet)
    requires
        recorded.wf(),
        diff.wf(),
    ensures
        r.wf(),
        r@ == committed_state(recorded@, diff.to_install@, diff.to_remove@),
{
    let kept = recorded.difference(&diff.to_remove);
    kept.union(&diff.to_install)
}

/// The diff holds nothing already recorded to install, nothing desired to
/// remove, and applying it to the recorded set gives exactly the desired set.
pub proof fn lemma_diff_correct(desired: Set<EntryModel>, recorded: Set<EntryModel>)
    ensures
        desired.difference(recorded).intersect(recorded) == Set::<EntryModel>::empty(),
        recorded.difference(desired).intersect(desired) == Set::<EntryModel>::empty(),
        committed_state(recorded, desired.difference(recorded), recorded.difference(desired))
            == desired,
{
    assert(desired.difference(recorded).intersect(recorded) =~= Set::<EntryModel>::empty());
    assert(recorded.difference(desired).intersect(desired) =~= Set::<EntryModel>::empty());
    assert(committed_state(recorded, desired.difference(recorded), recorded.difference(desired))
        =~= desired);
}

/// The diff is empty exactly when the desired and recorded sets are equal.
pub proof fn lemma_empty_diff_iff_equal(desired: Set<EntryModel>, recorded: Set<EntryModel>)
    ensures
        (desired.difference(recorded) == Set::<EntryModel>::empty() && recorded.difference(
            desired,
        ) == Set::<EntryModel>::empty()) <==> desired == recorded,
{
    if desired.difference(recorded) == Set::<EntryModel>::empty() && recorded.difference(desired)
        == Set::<EntryModel>::empty() {
        assert forall|x: EntryModel| desired.contains(x) <==> recorded.contains(x) by {
            if desired.contains(x) && !recorded.contains(x) {
                assert(desired.difference(recorded).contains(x));
            }
            if recorded.contains(x) && !desired.contains(x) {
                assert(recorded.difference(desired).contains(x));
            }
        }
        assert(desired =~= recorded);
    }
    if desired == recorded {
        assert(desired.difference(recorded) =~= Set::<EntryModel>::empty());
    }
}

/// Once the state of a run has been committed, a second run against the same
/// desired set finds nothing to install and nothing to remove.
pub proof fn lemma_second_diff_empty(desired: Set<EntryModel>, recorded: Set<EntryModel>)
    ensures
        ({
            let after = committed_state(
                recorded,
                desired.difference(recorded),
                recorded.difference(desired),
            );
            &&& desired.difference(after) == Set::<EntryModel>::empty()
            &&& after.difference(desired) == Set::<EntryModel>::empty()
        }),
{
    lemma_diff_correct(desired, recorded);
    lemma_empty_diff_iff_equal(
        desired,
        committed_state(recorded, desired.difference(recorded), recorded.difference(desired)),
    );
}

} // verus!
