//! Whole resolution attempts: the resolver fed a sequence of events, and what
//! it guarantees of the attempt and of the cache directory.
use crate::error::ErrorView;
use crate::platform::{arch_supported, asset_name_spec, tagged_name_spec, Architecture, Os};
use crate::release::{asset_position, ReleaseView};
use crate::resolver::{
    accepts_spec, initial_spec, next_spec, wf_view, ActionView, EntryView, EventView,
    InstallStatus, Phase, ResolverView,
};
use vstd::prelude::*;

verus! {

/// Feeds `events` to the resolver in state `s`: the state at the end and the
/// actions, one for each event.
pub open spec fn run(s: ResolverView, events: Seq<EventView>) -> (ResolverView, Seq<ActionView>)
    decreases events.len(),
{
    if events.len() == 0 {
        (s, Seq::empty())
    } else {
        let (t, a) = next_spec(s, events[0]);
        let (u, rest) = run(t, events.drop_first());
        (u, seq![a] + rest)
    }
}

/// Names of the entries `es[from..]`.
pub open spec fn listed_from(es: Seq<EntryView>, from: int) -> Set<Seq<char>> {
    Set::new(|n: Seq<char>| exists|i: int| from <= i < es.len() && #[trigger] es[i].name == n)
}

/// What the reported outcome `e` did to the names in the cache directory: a
/// removal takes the entry away, a download extracts the release's executable
/// under its raw name, a rename moves it to its tagged name.
pub open spec fn dir_after(s: ResolverView, dir: Set<Seq<char>>, e: EventView) -> Set<Seq<char>> {
    match e {
        EventView::Removed(Ok(())) => dir.remove(s.entries[s.next].name),
        EventView::Downloaded(Ok(())) => dir.insert(s.raw),
        EventView::Renamed(Ok(())) => dir.remove(s.raw).insert(s.tagged),
        _ => dir,
    }
}

/// The host answers what was asked, and a listing names every entry there is.
pub open spec fn honest(s: ResolverView, dir: Set<Seq<char>>, events: Seq<EventView>) -> bool
    decreases events.len(),
{
    events.len() == 0 || {
        &&& accepts_spec(s.phase, events[0])
        &&& (events[0] matches EventView::Listed(Ok(es)) ==> dir.subset_of(listed_from(es, 0)))
        &&& honest(next_spec(s, events[0]).0, dir_after(s, dir, events[0]), events.drop_first())
    }
}

/// The cache directory after the host has worked through `events`.
pub open spec fn dir_run(s: ResolverView, dir: Set<Seq<char>>, events: Seq<EventView>) -> Set<
    Seq<char>,
>
    decreases events.len(),
{
    if events.len() == 0 {
        dir
    } else {
        dir_run(next_spec(s, events[0]).0, dir_after(s, dir, events[0]), events.drop_first())
    }
}

/// The events of a run up to and including the cache check, after the
/// executable was not found on the path.
pub open spec fn up_to_cache_check(release: ReleaseView, hit: bool) -> Seq<EventView> {
    seq![
        EventView::PathLookedUp(None),
        EventView::ReleaseFetched(Ok(release)),
        EventView::CacheChecked(Ok(hit)),
    ]
}

/// State of the cache directory along the installation that follows a miss.
pub open spec fn install_inv(s: ResolverView, dir: Set<Seq<char>>) -> bool {
    &&& wf_view(s)
    &&& match s.phase {
        Phase::AwaitListing => true,
        Phase::Evicting => dir.subset_of(listed_from(s.entries, s.next)),
        Phase::AwaitDownloadStatus | Phase::AwaitDownload => dir == Set::<Seq<char>>::empty(),
        Phase::AwaitRename => dir == set![s.raw],
        Phase::AwaitExecutable | Phase::AwaitIdleStatus => dir == set![s.tagged],
        _ => false,
    }
}

proof fn lemma_install_step(s: ResolverView, dir: Set<Seq<char>>, e: EventView)
    requires
        install_inv(s, dir),
        accepts_spec(s.phase, e),
        e matches EventView::Listed(Ok(es)) ==> dir.subset_of(listed_from(es, 0)),
    ensures
        ({
            let t = next_spec(s, e).0;
            &&& t.tagged == s.tagged
            &&& (t.phase == Phase::Finished || install_inv(t, dir_after(s, dir, e)))
            &&& (next_spec(s, e).1 matches ActionView::Finish(Ok(p)) ==> p == s.tagged
                && dir_after(s, dir, e) == set![p])
        }),
{
    let t = next_spec(s, e).0;
    let d = dir_after(s, dir, e);
    match e {
        EventView::Listed(Ok(es)) => {
            if es.len() == 0 {
                assert(dir =~= Set::<Seq<char>>::empty()) by {
                    assert forall|n: Seq<char>| dir.contains(n) implies false by {
                        assert(listed_from(es, 0).contains(n));
                    }
                }
            }
        },
        EventView::Removed(Ok(())) => {
            let gone = s.entries[s.next].name;
            assert(d.subset_of(listed_from(s.entries, s.next + 1))) by {
                assert forall|n: Seq<char>| d.contains(n) implies listed_from(
                    s.entries,
                    s.next + 1,
                ).contains(n) by {
                    assert(listed_from(s.entries, s.next).contains(n));
                    let i = choose|i: int| s.next <= i < s.entries.len() && #[trigger] s.entries[i].name == n;
                    assert(i != s.next);
                }
            }
            if s.next + 1 >= s.entries.len() {
                assert(d =~= Set::<Seq<char>>::empty()) by {
                    assert forall|n: Seq<char>| d.contains(n) implies false by {
                        assert(listed_from(s.entries, s.next + 1).contains(n));
                    }
                }
            }
        },
        EventView::Renamed(Ok(())) => {
            assert(d =~= set![s.tagged]);
        },
        _ => {},
    }
}

proof fn lemma_install_run(s: ResolverView, dir: Set<Seq<char>>, events: Seq<EventView>)
    requires
        install_inv(s, dir),
        honest(s, dir, events),
        events.len() > 0,
    ensures
        run(s, events).1.last() matches ActionView::Finish(Ok(p)) ==> p == s.tagged && dir_run(
            s,
            dir,
            events,
        ) == set![p],
    decreases events.len(),
{
    reveal_with_fuel(honest, 2);
    let e = events[0];
    let (t, a) = next_spec(s, e);
    let d = dir_after(s, dir, e);
    let rest = events.drop_first();
    lemma_install_step(s, dir, e);
    if rest.len() == 0 {
        assert(run(t, rest).1 =~= Seq::<ActionView>::empty());
        assert(run(s, events).1 =~= seq![a]);
        assert(dir_run(t, d, rest) == d);
        assert(dir_run(s, dir, events) == d);
    } else {
        assert(accepts_spec(t.phase, rest[0]));
        assert(t.phase != Phase::Finished);
        lemma_install_run(t, d, rest);
        assert(run(s, events).1.last() == run(t, rest).1.last());
        assert(dir_run(s, dir, events) == dir_run(t, d, rest));
    }
}

/// After a cache miss, a resolution that succeeds leaves the cache directory
/// holding exactly one entry: the executable under its version-tagged name,
/// which is the path returned.
pub proof fn lemma_miss_leaves_only_tagged(
    os: Os,
    arch: Architecture,
    release: ReleaseView,
    dir: Set<Seq<char>>,
    rest: Seq<EventView>,
)
    requires
        honest(initial_spec(os, arch).0, dir, up_to_cache_check(release, false) + rest),
    ensures
        ({
            let s0 = initial_spec(os, arch).0;
            let events = up_to_cache_check(release, false) + rest;
            run(s0, events).1.last() matches ActionView::Finish(Ok(p)) ==> {
                &&& p == tagged_name_spec(release.version, os)
                &&& dir_run(s0, dir, events) == set![p]
            }
        }),
{
    reveal_with_fuel(run, 4);
    reveal_with_fuel(honest, 4);
    reveal_with_fuel(dir_run, 4);
    let s0 = initial_spec(os, arch).0;
    let events = up_to_cache_check(release, false) + rest;
    let e1 = events.drop_first();
    let e2 = e1.drop_first();
    let e3 = e2.drop_first();
    assert(e3 =~= rest);
    let s1 = next_spec(s0, events[0]).0;
    let s2 = next_spec(s1, e1[0]).0;
    let s3 = next_spec(s2, e2[0]).0;
    assert(events[0] == EventView::PathLookedUp(None));
    assert(e1[0] == EventView::ReleaseFetched(Ok(release)));
    assert(e2[0] == EventView::CacheChecked(Ok(false)));
    assert(s3.phase == Phase::AwaitListing);
    if rest.len() > 0 {
        lemma_install_run(s3, dir, rest);
        assert(run(s0, events).1.last() == run(s3, rest).1.last());
        assert(dir_run(s0, dir, events) == dir_run(s3, dir, rest));
    } else {
        assert(run(s3, rest).1 =~= Seq::<ActionView>::empty());
        assert(run(s0, events).1.last() == ActionView::ListCache);
    }
}

/// With the executable cached under the latest version, resolution returns
/// the cached path without downloading, and two resolutions that see the same
/// version return the same path.
pub proof fn lemma_warm_cache_is_stable(
    os: Os,
    arch: Architecture,
    first: ReleaseView,
    second: ReleaseView,
)
    requires
        first.version == second.version,
    ensures
        ({
            let a1 = run(initial_spec(os, arch).0, up_to_cache_check(first, true)).1;
            let a2 = run(initial_spec(os, arch).0, up_to_cache_check(second, true)).1;
            &&& a1.last() == ActionView::Finish(Ok(tagged_name_spec(first.version, os)))
            &&& a1.last() == a2.last()
            &&& forall|i: int| 0 <= i < a1.len() ==> !(#[trigger] a1[i] is Download)
            &&& forall|i: int| 0 <= i < a2.len() ==> !(#[trigger] a2[i] is Download)
        }),
{
    let s0 = initial_spec(os, arch).0;
    reveal_with_fuel(run, 4);
    let ev1 = up_to_cache_check(first, true);
    let ev2 = up_to_cache_check(second, true);
    assert(ev1.drop_first().drop_first().drop_first() =~= Seq::<EventView>::empty());
    assert(ev2.drop_first().drop_first().drop_first() =~= Seq::<EventView>::empty());
    let a1 = run(s0, ev1).1;
    let a2 = run(s0, ev2).1;
    assert(a1 =~= seq![
        ActionView::FetchLatestRelease,
        ActionView::CheckCache(tagged_name_spec(first.version, os)),
        ActionView::Finish(Ok(tagged_name_spec(first.version, os))),
    ]);
    assert(a2 =~= seq![
        ActionView::FetchLatestRelease,
        ActionView::CheckCache(tagged_name_spec(second.version, os)),
        ActionView::Finish(Ok(tagged_name_spec(second.version, os))),
    ]);
}

/// Every event answers the action that the resolver waits on.
pub open spec fn accepted(s: ResolverView, events: Seq<EventView>) -> bool
    decreases events.len(),
{
    events.len() == 0 || {
        &&& accepts_spec(s.phase, events[0])
        &&& accepted(next_spec(s, events[0]).0, events.drop_first())
    }
}

/// No download, rename or change of mode happens, and installation, once
/// announced, ends with `AssetNotFound(name)`.
pub open spec fn installs_nothing(actions: Seq<ActionView>, name: Seq<char>) -> bool {
    &&& forall|i: int|
        0 <= i < actions.len() ==> !(#[trigger] actions[i] is Download) && !(actions[i] is Rename)
            && !(actions[i] is MakeExecutable)
    &&& forall|i: int|
        0 <= i < actions.len() - 1 && #[trigger] actions[i] == ActionView::SetStatus(
            InstallStatus::Downloading,
        ) ==> actions[i + 1] == ActionView::Finish(Err(ErrorView::AssetNotFound(name)))
}

/// State along a run whose release lacks the expected asset.
spec fn missing_inv(s: ResolverView, name: Seq<char>) -> bool {
    &&& wf_view(s)
    &&& s.source == Err::<Seq<char>, ErrorView>(ErrorView::AssetNotFound(name))
    &&& match s.phase {
        Phase::AwaitCacheCheck | Phase::AwaitListing | Phase::Evicting
        | Phase::AwaitDownloadStatus | Phase::Finished => true,
        _ => false,
    }
}

proof fn lemma_missing_run(s: ResolverView, events: Seq<EventView>, name: Seq<char>)
    requires
        missing_inv(s, name),
        accepted(s, events),
    ensures
        installs_nothing(run(s, events).1, name),
    decreases events.len(),
{
    reveal_with_fuel(run, 2);
    reveal_with_fuel(accepted, 2);
    if events.len() == 0 {
        assert(run(s, events).1 =~= Seq::<ActionView>::empty());
    } else {
        let (t, a) = next_spec(s, events[0]);
        let rest = events.drop_first();
        let acts = run(s, events).1;
        let r = run(t, rest).1;
        assert(acts =~= seq![a] + r);
        assert(missing_inv(t, name));
        lemma_missing_run(t, rest, name);
        assert forall|i: int| 0 <= i < acts.len() implies !(#[trigger] acts[i] is Download)
            && !(acts[i] is Rename) && !(acts[i] is MakeExecutable) by {
            if i > 0 {
                assert(acts[i] == r[i - 1]);
            }
        }
        assert forall|i: int|
            0 <= i < acts.len() - 1 && #[trigger] acts[i] == ActionView::SetStatus(
                InstallStatus::Downloading,
            ) implies acts[i + 1] == ActionView::Finish(Err(ErrorView::AssetNotFound(name))) by {
            if i > 0 {
                assert(acts[i] == r[i - 1]);
                assert(acts[i + 1] == r[i]);
            } else {
                assert(t.phase == Phase::AwaitDownloadStatus);
                assert(rest.len() > 0);
                assert(acts[1] == r[0]);
            }
        }
    }
}

/// When the latest release has no asset under the expected name, resolution
/// never downloads, renames or marks anything executable, and an installation
/// that starts fails with `AssetNotFound` for that name.
pub proof fn lemma_missing_asset_installs_nothing(
    os: Os,
    arch: Architecture,
    release: ReleaseView,
    rest: Seq<EventView>,
)
    requires
        arch_supported(arch),
        asset_position(release.assets, asset_name_spec(os, arch)) is None,
        accepted(
            initial_spec(os, arch).0,
            seq![EventView::PathLookedUp(None), EventView::ReleaseFetched(Ok(release))] + rest,
        ),
    ensures
        installs_nothing(
            run(
                initial_spec(os, arch).0,
                seq![EventView::PathLookedUp(None), EventView::ReleaseFetched(Ok(release))] + rest,
            ).1,
            asset_name_spec(os, arch),
        ),
{
    reveal_with_fuel(run, 3);
    reveal_with_fuel(accepted, 3);
    let name = asset_name_spec(os, arch);
    let s0 = initial_spec(os, arch).0;
    let events = seq![EventView::PathLookedUp(None), EventView::ReleaseFetched(Ok(release))] + rest;
    let e1 = events.drop_first();
    assert(e1.drop_first() =~= rest);
    assert(events[0] == EventView::PathLookedUp(None));
    assert(e1[0] == EventView::ReleaseFetched(Ok(release)));
    let s1 = next_spec(s0, events[0]).0;
    let s2 = next_spec(s1, e1[0]).0;
    assert(missing_inv(s2, name));
    lemma_missing_run(s2, rest, name);
    let acts = run(s0, events).1;
    let r = run(s2, rest).1;
    assert(acts =~= seq![ActionView::FetchLatestRelease, ActionView::CheckCache(s2.tagged)] + r);
    assert forall|i: int| 0 <= i < acts.len() implies !(#[trigger] acts[i] is Download)
        && !(acts[i] is Rename) && !(acts[i] is MakeExecutable) by {
        if i > 1 {
            assert(acts[i] == r[i - 2]);
        }
    }
    assert forall|i: int|
        0 <= i < acts.len() - 1 && #[trigger] acts[i] == ActionView::SetStatus(
            InstallStatus::Downloading,
        ) implies acts[i + 1] == ActionView::Finish(Err(ErrorView::AssetNotFound(name))) by {
        if i > 1 {
            assert(acts[i] == r[i - 2]);
            assert(acts[i + 1] == r[i - 1]);
        }
    }
}

/// Evicting an empty cache directory succeeds: installation starts at once.
pub proof fn lemma_empty_eviction_succeeds(s: ResolverView)
    requires
        s.phase == Phase::AwaitListing,
    ensures
        next_spec(s, EventView::Listed(Ok(Seq::empty()))).1 == ActionView::SetStatus(
            InstallStatus::Downloading,
        ),
        next_spec(s, EventView::Listed(Ok(Seq::empty()))).0.phase == Phase::AwaitDownloadStatus,
{
}

} // verus!
