//! The rows of the Languages and Databases pages: one per catalogue entry,
//! in catalogue order, then one per installed version outside the catalogue,
//! and what each row may claim about its install.
use vstd::prelude::*;
use crate::databases::{MariadbDatadirStateDto, MysqlDatadirStateDto};
use crate::text::{list_contains, views};

verus! {

/// The plan of one row: its major, which installed runtime it shows (its
/// index among the installed ones), whether this build offers the major,
/// and whether it is the recommended one.
#[derive(Debug, Clone)]
pub struct RowPlan {
    pub major: String,
    pub runtime: Option<usize>,
    pub cataloged: bool,
    pub recommended: bool,
}

/// The view of a row plan.
pub open spec fn plan_view(p: RowPlan) -> (Seq<char>, Option<usize>, bool, bool) {
    (p.major@, p.runtime, p.cataloged, p.recommended)
}

/// The first installed runtime whose major is `major`, by index.
pub open spec fn first_with(installed: Seq<Seq<char>>, major: Seq<char>) -> Option<usize>
    decreases installed.len(),
{
    if installed.len() == 0 {
        None
    } else {
        match first_with(installed.drop_last(), major) {
            Some(i) => Some(i),
            None => if installed.last() == major {
                Some((installed.len() - 1) as usize)
            } else {
                None
            },
        }
    }
}

/// The catalogue's rows: each catalogue major, in order, with the first
/// installed runtime of that major; the last catalogue entry is the
/// recommended one.
pub open spec fn catalogue_rows(
    catalogue: Seq<Seq<char>>,
    installed: Seq<Seq<char>>,
    newest: Seq<char>,
) -> Seq<(Seq<char>, Option<usize>, bool, bool)>
    decreases catalogue.len(),
{
    if catalogue.len() == 0 {
        Seq::empty()
    } else {
        let m = catalogue.last();
        catalogue_rows(catalogue.drop_last(), installed, newest).push(
            (m, first_with(installed, m), true, m == newest),
        )
    }
}

/// The rows for installed runtimes outside the catalogue, in install order,
/// each showing that runtime itself.
pub open spec fn outside_rows(catalogue: Seq<Seq<char>>, installed: Seq<Seq<char>>) -> Seq<
    (Seq<char>, Option<usize>, bool, bool),
>
    decreases installed.len(),
{
    if installed.len() == 0 {
        Seq::empty()
    } else {
        let rest = outside_rows(catalogue, installed.drop_last());
        if !catalogue.contains(installed.last()) {
            rest.push((installed.last(), Some((installed.len() - 1) as usize), false, false))
        } else {
            rest
        }
    }
}

/// Law: the catalogue's rows are one per catalogue entry, in catalogue
/// order; each is cataloged, shows the first installed runtime of its major,
/// and is recommended exactly when its major is `newest`, whatever is
/// installed.
pub proof fn law_catalogue_rows_follow_the_catalogue(
    catalogue: Seq<Seq<char>>,
    installed: Seq<Seq<char>>,
    newest: Seq<char>,
)
    ensures
        catalogue_rows(catalogue, installed, newest).len() == catalogue.len(),
        forall|i: int|
            0 <= i < catalogue.len() ==> {
                let row = #[trigger] catalogue_rows(catalogue, installed, newest)[i];
                &&& row.0 == catalogue[i]
                &&& row.1 == first_with(installed, catalogue[i])
                &&& row.2
                &&& (row.3 <==> catalogue[i] == newest)
            },
    decreases catalogue.len(),
{
    if catalogue.len() > 0 {
        law_catalogue_rows_follow_the_catalogue(catalogue.drop_last(), installed, newest);
        assert forall|i: int| 0 <= i < catalogue.len() - 1 implies catalogue.drop_last()[i]
            == catalogue[i] by {}
    }
}

/// Law: the rows after the catalogue's are exactly the installed runtimes
/// whose major is not in the catalogue: each such row names its runtime,
/// neither cataloged nor recommended, and every installed runtime outside
/// the catalogue has one.
pub proof fn law_outside_rows_are_the_installs_outside_the_catalogue(
    catalogue: Seq<Seq<char>>,
    installed: Seq<Seq<char>>,
)
    requires
        installed.len() <= usize::MAX,
    ensures
        forall|j: int|
            0 <= j < outside_rows(catalogue, installed).len() ==> {
                let row = #[trigger] outside_rows(catalogue, installed)[j];
                &&& row.1 matches Some(i) && 0 <= i < installed.len() && row.0 == installed[i as int]
                    && !catalogue.contains(installed[i as int])
                &&& !row.2
                &&& !row.3
            },
        forall|i: int|
            0 <= i < installed.len() && !catalogue.contains(#[trigger] installed[i]) ==> outside_rows(
                catalogue,
                installed,
            ).contains((installed[i], Some(i as usize), false, false)),
    decreases installed.len(),
{
    if installed.len() > 0 {
        let front = installed.drop_last();
        law_outside_rows_are_the_installs_outside_the_catalogue(catalogue, front);
        let rest = outside_rows(catalogue, front);
        let all = outside_rows(catalogue, installed);
        assert forall|j: int| 0 <= j < all.len() implies {
            let row = #[trigger] all[j];
            &&& row.1 matches Some(i) && 0 <= i < installed.len() && row.0 == installed[i as int]
                && !catalogue.contains(installed[i as int])
            &&& !row.2
            &&& !row.3
        } by {
            if !catalogue.contains(installed.last()) {
                assert(all == rest.push((installed.last(), Some((installed.len() - 1) as usize), false, false)));
            } else {
                assert(all == rest);
            }
            if j < rest.len() {
                assert(all[j] == rest[j]);
                let row = rest[j];
                assert(row.1 matches Some(i) && 0 <= i < front.len() && row.0 == front[i as int]
                    && !catalogue.contains(front[i as int]));
                let i = row.1->0;
                assert(front[i as int] == installed[i as int]);
            } else {
                assert(!catalogue.contains(installed.last()));
                assert(all[j] == (installed.last(), Some((installed.len() - 1) as usize), false, false));
            }
        }
        assert forall|i: int|
            0 <= i < installed.len() && !catalogue.contains(#[trigger] installed[i]) implies outside_rows(
            catalogue,
            installed,
        ).contains((installed[i], Some(i as usize), false, false)) by {
            if i < installed.len() - 1 {
                assert(front[i] == installed[i]);
                let k = choose|k: int|
                    0 <= k < rest.len() && rest[k] == (front[i], Some(i as usize), false, false);
                if !catalogue.contains(installed.last()) {
                    assert(outside_rows(catalogue, installed)[k] == rest[k]);
                } else {
                    assert(outside_rows(catalogue, installed)[k] == rest[k]);
                }
            } else {
                let all = outside_rows(catalogue, installed);
                assert(all[all.len() - 1] == (installed[i], Some(i as usize), false, false));
            }
        }
    }
}

/// The index of the first of `installed` whose text is `major`.
fn first_index(installed: &[String], major: &str) -> (r: Option<usize>)
    ensures
        r == first_with(views(installed@), major@),
{
    let mut k: usize = 0;
    while k < installed.len()
        invariant
            0 <= k <= installed@.len(),
            first_with(views(installed@.take(k as int)), major@) is None,
        decreases installed.len() - k,
    {
        assert(views(installed@.take(k + 1)).drop_last() =~= views(installed@.take(k as int)));
        assert(views(installed@.take(k + 1)).last() == installed@[k as int]@);
        assert(views(installed@.take(k + 1)).len() == k + 1);
        if crate::text::str_eq(installed[k].as_str(), major) {
            proof {
                assert(views(installed@.take(k + 1)) =~= views(installed@).take(k + 1));
                lemma_first_with_prefix(views(installed@), major@, k + 1);
            }
            return Some(k);
        }
        k += 1;
    }
    assert(installed@.take(installed@.len() as int) =~= installed@);
    None
}

/// `first_with` over a prefix that already has an answer gives that answer
/// over the whole.
proof fn lemma_first_with_prefix(installed: Seq<Seq<char>>, major: Seq<char>, n: int)
    requires
        0 <= n <= installed.len(),
        first_with(installed.take(n), major) is Some,
    ensures
        first_with(installed, major) == first_with(installed.take(n), major),
    decreases installed.len() - n,
{
    if n < installed.len() {
        assert(installed.take(n + 1).drop_last() =~= installed.take(n));
        lemma_first_with_prefix(installed, major, n + 1);
    } else {
        assert(installed.take(n) =~= installed);
    }
}

/// Plans the page's rows: one per catalogue major, in catalogue order (with
/// the first installed runtime of that major, if any, and the last catalogue
/// entry recommended), then one per installed runtime outside the catalogue,
/// in install order, so a version installed by hand or dropped by a later
/// catalogue never vanishes from the page.
pub fn row_plan(catalogue: &[String], installed: &[String]) -> (r: Vec<RowPlan>)
    ensures
        r@.map_values(|p: RowPlan| plan_view(p)) == catalogue_rows(
            views(catalogue@),
            views(installed@),
            if catalogue@.len() > 0 {
                catalogue@.last()@
            } else {
                Seq::empty()
            },
        ) + outside_rows(views(catalogue@), views(installed@)),
        r@.len() >= catalogue@.len(),
        forall|i: int|
            0 <= i < catalogue@.len() ==> {
                let row = #[trigger] r@[i];
                &&& row.major@ == catalogue@[i]@
                &&& row.cataloged
                &&& row.runtime == first_with(views(installed@), catalogue@[i]@)
                &&& (row.recommended <==> catalogue@[i]@ == catalogue@.last()@)
            },
        forall|j: int|
            catalogue@.len() <= j < r@.len() ==> {
                let row = #[trigger] r@[j];
                &&& !row.cataloged
                &&& !row.recommended
                &&& row.runtime matches Some(k) && k < installed@.len() && row.major@
                    == installed@[k as int]@ && !views(catalogue@).contains(installed@[k as int]@)
            },
{
    let mut rows: Vec<RowPlan> = Vec::new();
    let ghost newest = if catalogue@.len() > 0 {
        catalogue@.last()@
    } else {
        Seq::empty()
    };
    let has_newest = catalogue.len() > 0;
    let mut k: usize = 0;
    while k < catalogue.len()
        invariant
            0 <= k <= catalogue@.len(),
            has_newest == (catalogue@.len() > 0),
            newest == (if catalogue@.len() > 0 {
                catalogue@.last()@
            } else {
                Seq::empty()
            }),
            rows@.map_values(|p: RowPlan| plan_view(p)) == catalogue_rows(
                views(catalogue@.take(k as int)),
                views(installed@),
                newest,
            ),
        decreases catalogue.len() - k,
    {
        let ghost before = rows@.map_values(|p: RowPlan| plan_view(p));
        assert(views(catalogue@.take(k + 1)) =~= views(catalogue@.take(k as int)).push(
            catalogue@[k as int]@,
        ));
        assert(views(catalogue@.take(k + 1)).drop_last() =~= views(catalogue@.take(k as int)));
        let major = &catalogue[k];
        assert(catalogue@[catalogue@.len() - 1] == catalogue@.last());
        let recommended = crate::text::str_eq(major.as_str(), catalogue[catalogue.len() - 1].as_str());
        rows.push(
            RowPlan {
                major: major.clone(),
                runtime: first_index(installed, major.as_str()),
                cataloged: true,
                recommended,
            },
        );
        assert(rows@.map_values(|p: RowPlan| plan_view(p)) =~= before.push(
            plan_view(rows@.last()),
        ));
        k += 1;
    }
    assert(catalogue@.take(catalogue@.len() as int) =~= catalogue@);
    let ghost head = rows@.map_values(|p: RowPlan| plan_view(p));
    let mut j: usize = 0;
    while j < installed.len()
        invariant
            0 <= j <= installed@.len(),
            rows@.map_values(|p: RowPlan| plan_view(p)) == head + outside_rows(
                views(catalogue@),
                views(installed@.take(j as int)),
            ),
        decreases installed.len() - j,
    {
        let ghost before = rows@.map_values(|p: RowPlan| plan_view(p));
        assert(views(installed@.take(j + 1)) =~= views(installed@.take(j as int)).push(
            installed@[j as int]@,
        ));
        assert(views(installed@.take(j + 1)).drop_last() =~= views(installed@.take(j as int)));
        assert(views(installed@.take(j + 1)).last() == installed@[j as int]@);
        if !list_contains(catalogue, installed[j].as_str()) {
            rows.push(
                RowPlan {
                    major: installed[j].clone(),
                    runtime: Some(j),
                    cataloged: false,
                    recommended: false,
                },
            );
            assert(rows@.map_values(|p: RowPlan| plan_view(p)) =~= before.push(
                plan_view(rows@.last()),
            ));
        }
        j += 1;
    }
    assert(installed@.take(installed@.len() as int) =~= installed@);
    proof {
        let vc = views(catalogue@);
        let vi = views(installed@);
        let cat = catalogue_rows(vc, vi, newest);
        let out = outside_rows(vc, vi);
        let plans = rows@.map_values(|p: RowPlan| plan_view(p));
        law_catalogue_rows_follow_the_catalogue(vc, vi, newest);
        law_outside_rows_are_the_installs_outside_the_catalogue(vc, vi);
        assert(plans.len() == rows@.len());
        assert forall|i: int| 0 <= i < catalogue@.len() implies {
            let row = #[trigger] rows@[i];
            &&& row.major@ == catalogue@[i]@
            &&& row.cataloged
            &&& row.runtime == first_with(views(installed@), catalogue@[i]@)
            &&& (row.recommended <==> catalogue@[i]@ == catalogue@.last()@)
        } by {
            assert(plans[i] == plan_view(rows@[i]));
            assert(plans[i] == cat[i]);
            assert(vc[i] == catalogue@[i]@);
        }
        assert forall|j: int| catalogue@.len() <= j < rows@.len() implies {
            let row = #[trigger] rows@[j];
            &&& !row.cataloged
            &&& !row.recommended
            &&& row.runtime matches Some(k) && k < installed@.len() && row.major@
                == installed@[k as int]@ && !views(catalogue@).contains(installed@[k as int]@)
        } by {
            assert(plans[j] == plan_view(rows@[j]));
            assert(plans[j] == out[j - catalogue@.len()]);
            let k = rows@[j].runtime->0;
            assert(vi[k as int] == installed@[k as int]@);
        }
    }
    rows
}

/// A row's more precise version: the one its own packaged install recorded;
/// otherwise the one `full_versions` gives for `major` (the first entry for
/// it); otherwise unknown. Never the major itself echoed back.
pub open spec fn full_version_of(
    packaged: Option<Seq<char>>,
    full_versions: Seq<(Seq<char>, Seq<char>)>,
    major: Seq<char>,
) -> Option<Seq<char>>
    decreases full_versions.len(),
{
    match packaged {
        Some(v) => Some(v),
        None => if full_versions.len() == 0 {
            None
        } else if full_versions[0].0 == major {
            Some(full_versions[0].1)
        } else {
            full_version_of(None, full_versions.skip(1), major)
        },
    }
}

/// The view of a version map.
pub open spec fn pairs_view(s: Seq<(String, String)>) -> Seq<(Seq<char>, Seq<char>)> {
    s.map_values(|p: (String, String)| (p.0@, p.1@))
}

/// The version `full_versions` gives for `major` (its first entry for it).
fn lookup_version(full_versions: &[(String, String)], major: &str) -> (r: Option<String>)
    ensures
        match r {
            Some(v) => full_version_of(None, pairs_view(full_versions@), major@) == Some(v@),
            None => full_version_of(None, pairs_view(full_versions@), major@) is None,
        },
{
    let mut k: usize = 0;
    assert(pairs_view(full_versions@).skip(0) =~= pairs_view(full_versions@));
    while k < full_versions.len()
        invariant
            0 <= k <= full_versions@.len(),
            full_version_of(None, pairs_view(full_versions@), major@) == full_version_of(
                None,
                pairs_view(full_versions@).skip(k as int),
                major@,
            ),
        decreases full_versions.len() - k,
    {
        let ghost rest = pairs_view(full_versions@).skip(k as int);
        assert(rest[0] == (full_versions@[k as int].0@, full_versions@[k as int].1@));
        if crate::text::str_eq(full_versions[k].0.as_str(), major) {
            let v = full_versions[k].1.clone();
            return Some(v);
        }
        assert(rest.skip(1) =~= pairs_view(full_versions@).skip(k + 1));
        k += 1;
    }
    None
}

/// A row's more precise version: see [`full_version_of`].
pub fn full_version(packaged: Option<String>, full_versions: &[(String, String)], major: &str) -> (r:
    Option<String>)
    ensures
        match r {
            Some(v) => full_version_of(
                match packaged {
                    Some(p) => Some(p@),
                    None => None,
                },
                pairs_view(full_versions@),
                major@,
            ) == Some(v@),
            None => full_version_of(
                match packaged {
                    Some(p) => Some(p@),
                    None => None,
                },
                pairs_view(full_versions@),
                major@,
            ) is None,
        },
{
    match packaged {
        Some(v) => Some(v),
        None => lookup_version(full_versions, major),
    }
}

/// A MySQL row names a socket and a service only once the major is both
/// installed and its datadir genuinely initialized: only then is there a
/// supervisor row behind it.
pub fn mysql_row_registered(installed: bool, state: &MysqlDatadirStateDto) -> (r: bool)
    ensures
        r == (installed && state is Initialized),
{
    installed && match state {
        MysqlDatadirStateDto::Initialized => true,
        _ => false,
    }
}

/// The MariaDB row's gate: installed, and the datadir initialized (at
/// whatever version).
pub fn mariadb_row_registered(installed: bool, state: &MariadbDatadirStateDto) -> (r: bool)
    ensures
        r == (installed && state is Initialized),
{
    installed && match state {
        MariadbDatadirStateDto::Initialized { .. } => true,
        _ => false,
    }
}

/// What a seeded rescan keeps and adds: the unidentified candidates that
/// do not hold the seed's binary (`kept[i]` for `unidentified[i]`), and
/// whether the seed's runtime joins the discovered ones (only when discovery
/// found no runtime of its major on its own).
pub fn seed_decision(
    unidentified: &[String],
    seed_binary: &str,
    discovered_majors: &[String],
    seed_major: &str,
) -> (r: (Vec<bool>, bool))
    ensures
        r.0@.len() == unidentified@.len(),
        forall|i: int|
            0 <= i < unidentified@.len() ==> r.0@[i] == !crate::logs::path_starts_with(
                seed_binary@,
                #[trigger] unidentified@[i]@,
            ),
        r.1 == !views(discovered_majors@).contains(seed_major@),
{
    let mut kept: Vec<bool> = Vec::new();
    let mut k: usize = 0;
    while k < unidentified.len()
        invariant
            0 <= k <= unidentified@.len(),
            kept@.len() == k,
            forall|i: int|
                0 <= i < k ==> kept@[i] == !crate::logs::path_starts_with(
                    seed_binary@,
                    #[trigger] unidentified@[i]@,
                ),
        decreases unidentified.len() - k,
    {
        kept.push(!crate::logs::starts_with_path(seed_binary, unidentified[k].as_str()));
        k += 1;
    }
    (kept, !list_contains(discovered_majors, seed_major))
}

} // verus!
