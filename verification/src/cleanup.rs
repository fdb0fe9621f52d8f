//! The interrupt-safe cleanup registry.
//!
//! Temporary resources register themselves here for the span of their use.
//! When the process is interrupted, one sweep collects every live path for
//! best-effort deletion; the sweep runs at most once however many signals
//! arrive, and a resource released normally is never swept. The registry is
//! plain state under a single lock held by the caller; the sweep logic is
//! callable directly, without a real signal environment.
use vstd::prelude::*;

use crate::text::push_deep;

verus! {

/// The conventional exit status of a process that ends because it was
/// interrupted: after the sweep the process terminates with this status
/// rather than propagating an error.
pub const INTERRUPT_EXIT_STATUS: i32 = 130;

/// Relies on `uuid::Uuid::new_v4`: a freshly generated random identifier.
/// Nothing can be promised of a random value.
#[verifier::external_body]
fn random_id() -> u128 {
    uuid::Uuid::new_v4().as_u128()
}

/// Tracks the temporary paths that are live right now, and whether the
/// one-time sweep has already run.
pub struct CleanupRegistry {
    entries: Vec<(u128, String)>,
    swept: bool,
}

/// The live registrations: identifier and path, in registration order.
pub closed spec fn spec_live(r: CleanupRegistry) -> Seq<(u128, Seq<char>)> {
    Seq::new(r.entries@.len(), |i: int| (r.entries@[i].0, r.entries@[i].1@))
}

/// Whether the one-time sweep has already run.
pub closed spec fn spec_swept(r: CleanupRegistry) -> bool {
    r.swept
}

/// The paths of a sequence of registrations, in order.
pub open spec fn spec_paths(live: Seq<(u128, Seq<char>)>) -> Seq<Seq<char>> {
    live.map_values(|e: (u128, Seq<char>)| e.1)
}

/// The registrations left after releasing an identifier: the first entry
/// carrying it is removed; the rest stay.
pub open spec fn spec_release(live: Seq<(u128, Seq<char>)>, id: u128) -> Seq<(u128, Seq<char>)>
    decreases live.len(),
{
    if live.len() == 0 {
        live
    } else if live[0].0 == id {
        live.drop_first()
    } else {
        seq![live[0]] + spec_release(live.drop_first(), id)
    }
}

/// What one sweep does: if the registry was already swept it returns no
/// paths and changes nothing; otherwise it returns every live path, empties
/// the registry, and marks it swept. The result is (returned paths,
/// remaining registrations, swept flag).
pub open spec fn spec_sweep_result(live: Seq<(u128, Seq<char>)>, swept: bool) -> (
    Seq<Seq<char>>,
    Seq<(u128, Seq<char>)>,
    bool,
) {
    if swept {
        (Seq::<Seq<char>>::empty(), live, swept)
    } else {
        (spec_paths(live), Seq::<(u128, Seq<char>)>::empty(), true)
    }
}

/// Temporary files are deleted exactly once: the first sweep returns each
/// live path exactly once (the returned sequence is exactly the registered
/// paths, in order), and any sweep after it — however many interrupts
/// arrive — returns nothing.
pub proof fn lemma_sweep_exactly_once(live: Seq<(u128, Seq<char>)>, swept: bool)
    ensures
        !swept ==> spec_sweep_result(live, swept).0 == spec_paths(live),
        spec_sweep_result(
            spec_sweep_result(live, swept).1,
            spec_sweep_result(live, swept).2,
        ).0 == Seq::<Seq<char>>::empty(),
{
    if !swept {
        assert(spec_paths(Seq::<(u128, Seq<char>)>::empty()) =~= Seq::<Seq<char>>::empty());
    }
}

impl CleanupRegistry {
    /// A fresh registry: nothing live, not yet swept.
    pub fn new() -> (r: CleanupRegistry)
        ensures
            spec_live(r) == Seq::<(u128, Seq<char>)>::empty(),
            !spec_swept(r),
    {
        let r = CleanupRegistry { entries: Vec::new(), swept: false };
        proof {
            assert(spec_live(r) =~= Seq::<(u128, Seq<char>)>::empty());
        }
        r
    }

    /// The number of live registrations.
    pub fn live_count(&self) -> (r: usize)
        ensures
            r == spec_live(*self).len(),
    {
        self.entries.len()
    }

    /// Whether the one-time sweep has already run.
    pub fn is_swept(&self) -> (r: bool)
        ensures
            r == spec_swept(*self),
    {
        self.swept
    }

    /// Registers a temporary path for the span of its use and hands back the
    /// identifier to release it with.
    pub fn register(&mut self, path: String) -> (id: u128)
        ensures
            spec_live(*final(self)) == spec_live(*old(self)).push((id, path@)),
            spec_swept(*final(self)) == spec_swept(*old(self)),
    {
        let id = random_id();
        self.entries.push((id, path));
        proof {
            assert(spec_live(*self) =~= spec_live(*old(self)).push((id, path@)));
        }
        id
    }

    /// Releases a registration when its resource's scope ends normally: the
    /// first entry carrying the identifier is removed.
    pub fn release(&mut self, id: u128)
        ensures
            spec_live(*final(self)) == spec_release(spec_live(*old(self)), id),
            spec_swept(*final(self)) == spec_swept(*old(self)),
    {
        let len = self.entries.len();
        for i in 0..len
            invariant
                len == self.entries@.len(),
                *self == *old(self),
                forall|j: int| 0 <= j < i ==> (#[trigger] self.entries@[j]).0 != id,
        {
            if self.entries[i].0 == id {
                proof {
                    lemma_release_at(spec_live(*self), id, i as int);
                }
                self.entries.remove(i);
                proof {
                    assert(spec_live(*self) =~= spec_live(*old(self)).remove(i as int));
                }
                return ;
            }
        }
        proof {
            lemma_release_absent(spec_live(*self), id);
        }
    }

    /// Sweeps the registry: the first sweep returns every live path (for
    /// best-effort deletion) and empties the registry; later sweeps return
    /// nothing and change nothing.
    pub fn sweep(&mut self) -> (paths: Vec<String>)
        ensures
            (paths.deep_view(), spec_live(*final(self)), spec_swept(*final(self)))
                == spec_sweep_result(spec_live(*old(self)), spec_swept(*old(self))),
    {
        if self.swept {
            let paths: Vec<String> = Vec::new();
            proof {
                assert(paths.deep_view() =~= Seq::<Seq<char>>::empty());
            }
            return paths;
        }
        self.swept = true;
        let mut paths: Vec<String> = Vec::new();
        let len = self.entries.len();
        for i in 0..len
            invariant
                len == self.entries@.len(),
                self.entries@ == old(self).entries@,
                paths.deep_view() == spec_paths(spec_live(*old(self))).take(i as int),
        {
            push_deep(&mut paths, self.entries[i].1.clone());
            proof {
                assert(spec_paths(spec_live(*old(self)))[i as int] == self.entries@[i as int].1@);
                assert(paths.deep_view() =~= spec_paths(spec_live(*old(self))).take(i + 1));
            }
        }
        self.entries = Vec::new();
        proof {
            assert(spec_paths(spec_live(*old(self))).take(
                spec_paths(spec_live(*old(self))).len() as int,
            ) =~= spec_paths(spec_live(*old(self))));
            assert(spec_live(*self) =~= Seq::<(u128, Seq<char>)>::empty());
        }
        paths
    }
}

proof fn lemma_release_at(live: Seq<(u128, Seq<char>)>, id: u128, i: int)
    requires
        0 <= i < live.len(),
        live[i].0 == id,
        forall|j: int| 0 <= j < i ==> (#[trigger] live[j]).0 != id,
    ensures
        spec_release(live, id) == live.remove(i),
    decreases i,
{
    if i == 0 {
        assert(live.remove(0) =~= live.drop_first());
    } else {
        lemma_release_at(live.drop_first(), id, i - 1);
        assert(live.drop_first().remove(i - 1) =~= live.remove(i).drop_first());
        assert(live.remove(i)[0] == live[0]);
        assert(seq![live[0]] + live.remove(i).drop_first() =~= live.remove(i));
    }
}

proof fn lemma_release_absent(live: Seq<(u128, Seq<char>)>, id: u128)
    requires
        forall|j: int| 0 <= j < live.len() ==> (#[trigger] live[j]).0 != id,
    ensures
        spec_release(live, id) == live,
    decreases live.len(),
{
    if live.len() > 0 {
        lemma_release_absent(live.drop_first(), id);
        assert(seq![live[0]] + live.drop_first() =~= live);
    }
}

} // verus!
