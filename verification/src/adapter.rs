//! Selection of the interface adapter for a declared version.
//!
//! Every adapter variant has a minimum supported version, its threshold. A
//! declared version binds to the variant with the greatest threshold that
//! does not exceed it, and to none when every threshold exceeds it.

use vstd::prelude::*;
use crate::semver::SemanticVersion;

verus! {

/// The supported interface versions, one variant per guest wire contract.
#[derive(Debug, Clone, Copy, PartialEq, Eq, Structural)]
pub enum Adapter {
    /// The baseline interface, bound from version `0.0.1` on.
    V001,
}

/// Whether `choice` is the selection among `thresholds` for `version`:
/// `None` when no threshold is at most `version`; otherwise the position of
/// a threshold at most `version` that no other such threshold exceeds, the
/// earliest one among equals.
pub open spec fn is_selection(
    thresholds: Seq<SemanticVersion>,
    version: SemanticVersion,
    choice: Option<int>,
) -> bool {
    match choice {
        None => forall|j: int|
            0 <= j < thresholds.len() ==> !(#[trigger] thresholds[j]).spec_le(version),
        Some(i) => {
            &&& 0 <= i < thresholds.len()
            &&& thresholds[i].spec_le(version)
            &&& forall|j: int|
                0 <= j < thresholds.len() && (#[trigger] thresholds[j]).spec_le(version)
                    ==> thresholds[j].spec_le(thresholds[i])
            &&& forall|j: int| 0 <= j < i ==> #[trigger] thresholds[j] != thresholds[i]
        },
    }
}

/// The adapter bound to a declared version, if any.
pub open spec fn adapter_for(version: SemanticVersion) -> Option<Adapter> {
    if Adapter::V001.spec_min_version().spec_le(version) {
        Some(Adapter::V001)
    } else {
        None
    }
}

/// Finds the greatest threshold that does not exceed `version`.
pub fn select_threshold(thresholds: &Vec<SemanticVersion>, version: &SemanticVersion) -> (r:
    Option<usize>)
    ensures
        is_selection(
            thresholds@,
            *version,
            match r {
                Some(i) => Some(i as int),
                None => None,
            },
        ),
{
    let mut best: Option<usize> = None;
    let mut pos: usize = 0;
    while pos < thresholds.len()
        invariant
            pos <= thresholds.len(),
            is_selection(
                thresholds@.take(pos as int),
                *version,
                match best {
                    Some(i) => Some(i as int),
                    None => None,
                },
            ),
        decreases thresholds.len() - pos,
    {
        let candidate = thresholds[pos];
        let ghost seen = thresholds@.take(pos as int);
        let ghost next = thresholds@.take(pos as int + 1);
        proof {
            assert(forall|j: int| 0 <= j < pos ==> next[j] == seen[j]);
            assert(next[pos as int] == candidate);
        }
        if candidate.le(version) {
            let better = match best {
                Some(i) => thresholds[i].lt(&candidate),
                None => true,
            };
            if better {
                best = Some(pos);
            }
        }
        pos = pos + 1;
    }
    proof {
        assert(thresholds@.take(pos as int) =~= thresholds@);
    }
    best
}

impl Adapter {
    /// The threshold of a variant.
    pub open spec fn spec_min_version(self) -> SemanticVersion {
        match self {
            Adapter::V001 => SemanticVersion { major: 0, minor: 0, patch: 1 },
        }
    }

    /// The lowest version that binds to this variant.
    pub fn min_version(&self) -> (v: SemanticVersion)
        ensures
            v == self.spec_min_version(),
    {
        match self {
            Adapter::V001 => SemanticVersion::new(0, 0, 1),
        }
    }

    /// The variants in ascending order of threshold.
    pub fn all() -> (variants: Vec<Adapter>)
        ensures
            variants@ == seq![Adapter::V001],
    {
        vec![Adapter::V001]
    }

    /// Binds a declared version to the variant with the greatest threshold
    /// that does not exceed it. Returns `None` when the version lies below
    /// every threshold.
    pub fn for_version(version: &SemanticVersion) -> (r: Option<Adapter>)
        ensures
            r == adapter_for(*version),
    {
        let variants = Adapter::all();
        let mut thresholds: Vec<SemanticVersion> = Vec::new();
        let mut pos: usize = 0;
        while pos < variants.len()
            invariant
                pos <= variants.len(),
                thresholds@.len() == pos,
                forall|j: int|
                    0 <= j < pos ==> #[trigger] thresholds@[j] == variants@[j].spec_min_version(),
            decreases variants.len() - pos,
        {
            thresholds.push(variants[pos].min_version());
            pos = pos + 1;
        }
        match select_threshold(&thresholds, version) {
            Some(i) => {
                assert(thresholds@[i as int].spec_le(*version));
                Some(variants[i])
            },
            None => {
                assert(!thresholds@[0].spec_le(*version));
                None
            },
        }
    }
}

/// Selection is deterministic: a list of thresholds and a version have one
/// selection.
pub proof fn lemma_selection_unique(
    thresholds: Seq<SemanticVersion>,
    version: SemanticVersion,
    first: Option<int>,
    second: Option<int>,
)
    requires
        is_selection(thresholds, version, first),
        is_selection(thresholds, version, second),
    ensures
        first == second,
{
    if first is Some && second is Some {
        let i = first->0;
        let j = second->0;
        assert(thresholds[i].spec_le(thresholds[j]));
        assert(thresholds[j].spec_le(thresholds[i]));
        assert(thresholds[i] == thresholds[j]);
        if i < j {
            assert(thresholds[i] != thresholds[j]);
        }
        if j < i {
            assert(thresholds[j] != thresholds[i]);
        }
    } else if first is Some {
        assert(thresholds[first->0].spec_le(version));
    } else if second is Some {
        assert(thresholds[second->0].spec_le(version));
    }
}

/// Selection is monotonic: a version that binds keeps every higher version
/// bound, to a threshold that is at least as high.
pub proof fn lemma_selection_monotonic(
    thresholds: Seq<SemanticVersion>,
    lower: SemanticVersion,
    higher: SemanticVersion,
    of_lower: Option<int>,
    of_higher: Option<int>,
)
    requires
        lower.spec_le(higher),
        is_selection(thresholds, lower, of_lower),
        is_selection(thresholds, higher, of_higher),
    ensures
        of_lower matches Some(i) ==> of_higher matches Some(k) && thresholds[i].spec_le(
            thresholds[k],
        ),
{
    if of_lower is Some {
        let i = of_lower->0;
        assert(thresholds[i].spec_le(higher));
    }
}

/// A version binds to an adapter exactly when it is at least the lowest
/// threshold, and the bound adapter's threshold does not exceed it.
pub proof fn lemma_adapter_for(version: SemanticVersion)
    ensures
        adapter_for(version) is Some <==> (SemanticVersion {
            major: 0,
            minor: 0,
            patch: 1,
        }).spec_le(version),
        adapter_for(version) matches Some(a) ==> a.spec_min_version().spec_le(version),
        adapter_for(SemanticVersion { major: 0, minor: 0, patch: 1 }) == Some(Adapter::V001),
        adapter_for(SemanticVersion { major: 0, minor: 0, patch: 0 }) is None,
{
}

/// The adapter bound to a version is the selection among the thresholds of
/// all variants.
pub proof fn lemma_adapter_is_selection(version: SemanticVersion)
    ensures
        is_selection(
            seq![Adapter::V001.spec_min_version()],
            version,
            match adapter_for(version) {
                Some(Adapter::V001) => Some(0int),
                None => None,
            },
        ),
{
}

/// Binding is monotonic: whatever binds a version binds every higher one.
pub proof fn lemma_adapter_monotonic(lower: SemanticVersion, higher: SemanticVersion)
    requires
        lower.spec_le(higher),
    ensures
        adapter_for(lower) matches Some(a) ==> adapter_for(higher) matches Some(b)
            && a.spec_min_version().spec_le(b.spec_min_version()),
{
}

} // verus!
