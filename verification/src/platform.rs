//! Choice of the entry of an image index that fits a target platform.

use crate::manifest::{
    entries_view, ImageIndex, ManifestEntry, ManifestEntryView, PlatformSpec, PlatformView,
};
use crate::text::opt_str_view;
use vstd::prelude::*;

verus! {

/// An entry fits a target when it states a platform with the target's
/// operating system and architecture.
pub open spec fn fits(e: ManifestEntryView, target: PlatformView) -> bool {
    match e.platform {
        Some(p) => p.os == target.os && p.architecture == target.architecture,
        None => false,
    }
}

/// An entry fits a target exactly when it fits and states the target's
/// variant (or none, where the target states none).
pub open spec fn fits_exactly(e: ManifestEntryView, target: PlatformView) -> bool {
    match e.platform {
        Some(p) => p.os == target.os && p.architecture == target.architecture && p.variant
            == target.variant,
        None => false,
    }
}

/// Entry `i` is the choice for a target: it is the first entry that fits
/// exactly, or no entry fits exactly and it is the first entry that fits.
pub open spec fn is_choice(entries: Seq<ManifestEntryView>, target: PlatformView, i: int) -> bool {
    &&& 0 <= i < entries.len()
    &&& fits(entries[i], target)
    &&& if fits_exactly(entries[i], target) {
        forall|j: int| 0 <= j < i ==> !fits_exactly(#[trigger] entries[j], target)
    } else {
        &&& forall|j: int| 0 <= j < entries.len() ==> !fits_exactly(#[trigger] entries[j], target)
        &&& forall|j: int| 0 <= j < i ==> !fits(#[trigger] entries[j], target)
    }
}

/// No entry fits the target.
pub open spec fn none_fits(entries: Seq<ManifestEntryView>, target: PlatformView) -> bool {
    forall|j: int| 0 <= j < entries.len() ==> !fits(#[trigger] entries[j], target)
}

/// The choice for a target is unique: resolution is deterministic.
pub proof fn lemma_choice_unique(
    entries: Seq<ManifestEntryView>,
    target: PlatformView,
    i: int,
    k: int,
)
    requires
        is_choice(entries, target, i),
        is_choice(entries, target, k),
    ensures
        i == k,
{
}

/// A choice exists exactly when some entry fits: resolution fails only when
/// the index holds no manifest for the target platform.
pub proof fn lemma_choice_exists_iff_some_fits(
    entries: Seq<ManifestEntryView>,
    target: PlatformView,
)
    ensures
        none_fits(entries, target) <==> forall|i: int| !is_choice(entries, target, i),
{
    if !none_fits(entries, target) {
        let i = first_such(entries, target, false);
        let e = first_such(entries, target, true);
        lemma_first_such(entries, target, false);
        lemma_first_such(entries, target, true);
        if e < entries.len() {
            assert(is_choice(entries, target, e));
        } else {
            assert(is_choice(entries, target, i));
        }
    }
}

/// Index of the first entry that fits (exactly, where `exact`); the length
/// of the list where none does.
pub open spec fn first_such(entries: Seq<ManifestEntryView>, target: PlatformView, exact: bool) -> int
    decreases entries.len(),
{
    if entries.len() == 0 {
        0
    } else if (exact && fits_exactly(entries[0], target)) || (!exact && fits(entries[0], target)) {
        0
    } else {
        1 + first_such(entries.subrange(1, entries.len() as int), target, exact)
    }
}

/// `first_such` is in range, hits an entry of its kind where it is below
/// the length, and no earlier entry is of that kind.
pub proof fn lemma_first_such(entries: Seq<ManifestEntryView>, target: PlatformView, exact: bool)
    ensures
        0 <= first_such(entries, target, exact) <= entries.len(),
        first_such(entries, target, exact) < entries.len() ==> (if exact {
            fits_exactly(entries[first_such(entries, target, exact)], target)
        } else {
            fits(entries[first_such(entries, target, exact)], target)
        }),
        forall|j: int|
            0 <= j < first_such(entries, target, exact) ==> (if exact {
                !fits_exactly(#[trigger] entries[j], target)
            } else {
                !fits(#[trigger] entries[j], target)
            }),
    decreases entries.len(),
{
    if entries.len() == 0 {
    } else if (exact && fits_exactly(entries[0], target)) || (!exact && fits(entries[0], target)) {
    } else {
        let rest = entries.subrange(1, entries.len() as int);
        lemma_first_such(rest, target, exact);
        let f = first_such(rest, target, exact);
        assert forall|j: int| 0 <= j < 1 + f implies (if exact {
            !fits_exactly(#[trigger] entries[j], target)
        } else {
            !fits(#[trigger] entries[j], target)
        }) by {
            if j > 0 {
                assert(rest[j - 1] == entries[j]);
            }
        }
        if f < rest.len() {
            assert(rest[f] == entries[1 + f]);
        }
    }
}

/// Whether two optional strings are equal.
fn same_opt_string(a: &Option<String>, b: &Option<String>) -> (r: bool)
    ensures
        r == (opt_str_view(*a) == opt_str_view(*b)),
{
    match a {
        Some(x) => match b {
            Some(y) => *x == *y,
            None => false,
        },
        None => b.is_none(),
    }
}

impl ManifestEntry {
    /// Whether this entry states a platform with the target's operating
    /// system and architecture.
    pub fn fits(&self, target: &PlatformSpec) -> (r: bool)
        ensures
            r == fits(self@, target@),
    {
        match &self.platform {
            Some(p) => p.os == target.os && p.architecture == target.architecture,
            None => false,
        }
    }

    /// Whether this entry fits the target and states the target's variant.
    pub fn fits_exactly(&self, target: &PlatformSpec) -> (r: bool)
        ensures
            r == fits_exactly(self@, target@),
    {
        match &self.platform {
            Some(p) => p.os == target.os && p.architecture == target.architecture
                && same_opt_string(&p.variant, &target.variant),
            None => false,
        }
    }
}

impl ImageIndex {
    /// Position of the entry to use for a target platform: the first entry
    /// with the target's operating system, architecture and variant; failing
    /// that, the first entry with the target's operating system and
    /// architecture. `None` exactly when no entry has the target's operating
    /// system and architecture.
    pub fn select_platform(&self, target: &PlatformSpec) -> (r: Option<usize>)
        ensures
            match r {
                Some(i) => is_choice(self@.manifests, target@, i as int),
                None => none_fits(self@.manifests, target@),
            },
    {
        let ghost entries = self@.manifests;
        let mut first_fit: Option<usize> = None;
        let mut i: usize = 0;
        while i < self.manifests.len()
            invariant
                i <= self.manifests.len(),
                entries == entries_view(self.manifests@),
                forall|j: int| 0 <= j < i ==> !fits_exactly(#[trigger] entries[j], target@),
                match first_fit {
                    Some(f) => f < i && fits(entries[f as int], target@) && forall|j: int|
                        0 <= j < f ==> !fits(#[trigger] entries[j], target@),
                    None => forall|j: int| 0 <= j < i ==> !fits(#[trigger] entries[j], target@),
                },
            decreases self.manifests.len() - i,
        {
            assert(entries[i as int] == self.manifests[i as int]@);
            if self.manifests[i].fits_exactly(target) {
                return Some(i);
            }
            if first_fit.is_none() && self.manifests[i].fits(target) {
                first_fit = Some(i);
            }
            i = i + 1;
        }
        first_fit
    }

    /// Digest of the entry to use for a target platform, chosen as
    /// [`ImageIndex::select_platform`] does.
    pub fn resolve_platform(&self, target: &PlatformSpec) -> (r: Option<String>)
        ensures
            match r {
                Some(d) => exists|i: int|
                    is_choice(self@.manifests, target@, i) && d@ == (
                    #[trigger] self@.manifests[i]).digest,
                None => none_fits(self@.manifests, target@),
            },
    {
        match self.select_platform(target) {
            Some(i) => {
                assert(self@.manifests[i as int] == self.manifests[i as int]@);
                Some(self.manifests[i].digest.clone())
            },
            None => None,
        }
    }
}

} // verus!
