//! What a look at the file system found, handed in by the caller.

use vstd::prelude::*;

verus! {

/// A path together with what a look at the file system found: whether
/// anything exists there.
#[derive(Clone, Debug, PartialEq, Eq)]
pub struct PathProbe {
    /// The path that was looked at.
    pub path: String,
    /// Whether anything was there.
    pub exists: bool,
}

/// A `PathProbe` with its path as a sequence of characters.
pub struct PathProbeView {
    pub path: Seq<char>,
    pub exists: bool,
}

impl View for PathProbe {
    type V = PathProbeView;

    open spec fn view(&self) -> PathProbeView {
        PathProbeView { path: self.path@, exists: self.exists }
    }
}

/// The views of a sequence of probes, in the same order.
pub open spec fn probe_views(probes: Seq<PathProbe>) -> Seq<PathProbeView> {
    probes.map_values(|probe: PathProbe| probe@)
}

/// The first of the probed paths that exists.
pub open spec fn first_existing(probes: Seq<PathProbeView>) -> Option<Seq<char>>
    decreases probes.len(),
{
    if probes.len() == 0 {
        None
    } else if probes.first().exists {
        Some(probes.first().path)
    } else {
        first_existing(probes.drop_first())
    }
}

/// `first_existing` is the path of the earliest probe that found something,
/// and is `None` exactly where no probe found anything.
pub proof fn lemma_first_existing(probes: Seq<PathProbeView>)
    ensures
        match first_existing(probes) {
            Some(path) => exists|at: int|
                {
                    &&& 0 <= at < probes.len()
                    &&& #[trigger] probes[at].exists
                    &&& probes[at].path == path
                    &&& forall|j: int| 0 <= j < at ==> !probes[j].exists
                },
            None => forall|j: int| 0 <= j < probes.len() ==> !probes[j].exists,
        },
    decreases probes.len(),
{
    if probes.len() > 0 {
        if !probes.first().exists {
            let rest = probes.drop_first();
            lemma_first_existing(rest);
            match first_existing(rest) {
                Some(path) => {
                    let at = choose|at: int|
                        {
                            &&& 0 <= at < rest.len()
                            &&& #[trigger] rest[at].exists
                            &&& rest[at].path == path
                            &&& forall|j: int| 0 <= j < at ==> !rest[j].exists
                        };
                    assert forall|j: int| 0 <= j < at + 1 implies !probes[j].exists by {
                        if j > 0 {
                            assert(rest[j - 1] == probes[j]);
                        }
                    }
                },
                None => {
                    assert forall|j: int| 0 <= j < probes.len() implies !probes[j].exists by {
                        if j > 0 {
                            assert(rest[j - 1] == probes[j]);
                        }
                    }
                },
            }
        }
    }
}

/// The first of the probed paths that exists: the path of a probe that found
/// something, before which no probe found anything. `None` means that no
/// probe found anything.
pub fn first_existing_path(probes: &Vec<PathProbe>) -> (r: Option<String>)
    ensures
        r.deep_view() == first_existing(probe_views(probes@)),
        match r {
            Some(path) => exists|at: int|
                {
                    &&& 0 <= at < probes.len()
                    &&& #[trigger] probes[at].exists
                    &&& probes[at].path@ == path@
                    &&& forall|j: int| 0 <= j < at ==> !probes[j].exists
                },
            None => forall|j: int| 0 <= j < probes.len() ==> !probes[j].exists,
        },
{
    let mut i: usize = 0;
    assert(probe_views(probes@).skip(0) =~= probe_views(probes@));
    while i < probes.len()
        invariant
            i <= probes.len(),
            first_existing(probe_views(probes@)) == first_existing(
                probe_views(probes@).skip(i as int),
            ),
            forall|j: int| 0 <= j < i ==> !probes[j].exists,
        decreases probes.len() - i,
    {
        if probes[i].exists {
            return Some(probes[i].path.clone());
        }
        assert(probe_views(probes@).skip(i as int).drop_first() =~= probe_views(probes@).skip(
            i + 1,
        ));
        i += 1;
    }
    None
}

} // verus!
