//! Reconciling the supervisor's service rows with what a rescan found on
//! disk: which rows to add, which to forget.
use vstd::prelude::*;
use crate::text::{
    chars_of, concat, copy_range, list_contains, matches_at, matches_at_exec, string_from_chars,
    views,
};

verus! {

/// Emitted when a service row was removed: the id alone, since there is no
/// state left to describe.
#[derive(Debug, Clone)]
pub struct ServiceUnregisteredEvent {
    pub id: String,
}

/// The prefix of every php-fpm pool's supervisor id.
pub const PHP_FPM_ID_PREFIX: &'static str = "php-fpm-";

/// The prefix of every MySQL server's supervisor id.
pub const MYSQL_ID_PREFIX: &'static str = "mysql-";

/// The supervisor id of the MySQL server for `major`.
pub fn mysql_service_id(major: &str) -> (r: String)
    ensures
        r@ == MYSQL_ID_PREFIX@ + major@,
{
    concat(MYSQL_ID_PREFIX, major)
}

/// The majors of `found` that are not in `before`, in the order found.
pub open spec fn new_majors(before: Seq<Seq<char>>, found: Seq<Seq<char>>) -> Seq<Seq<char>>
    decreases found.len(),
{
    if found.len() == 0 {
        found
    } else {
        let rest = new_majors(before, found.drop_last());
        if before.contains(found.last()) {
            rest
        } else {
            rest.push(found.last())
        }
    }
}

/// Which majors in `found` were not already in `before`: the ones a rescan
/// registers a row for. One already known, in whatever state, is left alone,
/// so a failed row keeps its diagnostics.
pub fn newly_installed_majors(before: &[String], found: &[String]) -> (r: Vec<String>)
    ensures
        views(r@) == new_majors(views(before@), views(found@)),
{
    let mut out: Vec<String> = Vec::new();
    let mut k: usize = 0;
    while k < found.len()
        invariant
            0 <= k <= found@.len(),
            views(out@) == new_majors(views(before@), views(found@.take(k as int))),
        decreases found.len() - k,
    {
        let ghost prefix = views(found@.take(k as int));
        assert(views(found@.take(k + 1)) =~= prefix.push(found@[k as int]@));
        assert(views(found@.take(k + 1)).drop_last() =~= prefix);
        if !list_contains(before, found[k].as_str()) {
            out.push(found[k].clone());
            assert(views(out@) =~= new_majors(views(before@), prefix).push(found@[k as int]@));
        }
        k += 1;
    }
    assert(found@.take(found@.len() as int) =~= found@);
    out
}

/// `id` is a row of the family `prefix` whose major is not in `found`.
pub open spec fn is_vanished(id: Seq<char>, prefix: Seq<char>, found: Seq<Seq<char>>) -> bool {
    matches_at(id, prefix, 0) && !found.contains(id.skip(prefix.len() as int))
}

/// The ids of `registered` that [`is_vanished`], in order.
pub open spec fn vanished_ids(registered: Seq<Seq<char>>, prefix: Seq<char>, found: Seq<Seq<char>>) -> Seq<
    Seq<char>,
>
    decreases registered.len(),
{
    if registered.len() == 0 {
        registered
    } else {
        let rest = vanished_ids(registered.drop_last(), prefix, found);
        if is_vanished(registered.last(), prefix, found) {
            rest.push(registered.last())
        } else {
            rest
        }
    }
}

/// `id` without `prefix`, when `id` starts with it (`str::strip_prefix`).
pub fn strip_prefix(id: &str, prefix: &str) -> (r: Option<String>)
    ensures
        match r {
            Some(rest) => matches_at(id@, prefix@, 0) && rest@ == id@.skip(prefix@.len() as int),
            None => !matches_at(id@, prefix@, 0),
        },
{
    let c = chars_of(id);
    let p = chars_of(prefix);
    if matches_at_exec(c.as_slice(), p.as_slice(), 0) {
        let rest = copy_range(c.as_slice(), p.len(), c.len());
        assert(rest@ =~= id@.skip(prefix@.len() as int));
        Some(string_from_chars(rest.as_slice()))
    } else {
        None
    }
}

/// Which of `registered`'s ids belong to the family `prefix` and name a
/// major that is not in `found`: rows for a version gone from disk. The
/// major is what follows the prefix exactly, so another family's rows (or
/// `nginx`) never match.
pub fn vanished_service_ids(registered: &[String], prefix: &str, found: &[String]) -> (r: Vec<
    String,
>)
    ensures
        views(r@) == vanished_ids(views(registered@), prefix@, views(found@)),
{
    let mut out: Vec<String> = Vec::new();
    let mut k: usize = 0;
    while k < registered.len()
        invariant
            0 <= k <= registered@.len(),
            views(out@) == vanished_ids(views(registered@.take(k as int)), prefix@, views(found@)),
        decreases registered.len() - k,
    {
        let ghost before = views(registered@.take(k as int));
        assert(views(registered@.take(k + 1)) =~= before.push(registered@[k as int]@));
        assert(views(registered@.take(k + 1)).drop_last() =~= before);
        let gone = match strip_prefix(registered[k].as_str(), prefix) {
            Some(major) => !list_contains(found, major.as_str()),
            None => false,
        };
        if gone {
            out.push(registered[k].clone());
            assert(views(out@) =~= vanished_ids(before, prefix@, views(found@)).push(
                registered@[k as int]@,
            ));
        }
        k += 1;
    }
    assert(registered@.take(registered@.len() as int) =~= registered@);
    out
}

/// A major is newly installed exactly when the rescan found it and it was
/// not known before; so no major is ever both newly installed and vanished.
pub proof fn law_new_majors_are_exactly_the_unknown_found_ones(
    before: Seq<Seq<char>>,
    found: Seq<Seq<char>>,
    m: Seq<char>,
)
    ensures
        new_majors(before, found).contains(m) <==> found.contains(m) && !before.contains(m),
    decreases found.len(),
{
    if found.len() > 0 {
        law_new_majors_are_exactly_the_unknown_found_ones(before, found.drop_last(), m);
        let rest = new_majors(before, found.drop_last());
        if found.contains(m) && !found.drop_last().contains(m) {
            assert(found.last() == m) by {
                let i = choose|i: int| 0 <= i < found.len() && found[i] == m;
                if i < found.len() - 1 {
                    assert(found.drop_last()[i] == m);
                }
            }
        }
        if found.drop_last().contains(m) {
            let i = choose|i: int| 0 <= i < found.drop_last().len() && found.drop_last()[i] == m;
            assert(found[i] == m);
        }
        if !before.contains(found.last()) {
            assert(rest.push(found.last()).last() == found.last());
            if rest.push(found.last()).contains(m) {
                let i = choose|i: int| 0 <= i < rest.push(found.last()).len() && rest.push(
                    found.last(),
                )[i] == m;
                if i < rest.len() {
                    assert(rest[i] == m);
                }
            }
            if rest.contains(m) {
                let i = choose|i: int| 0 <= i < rest.len() && rest[i] == m;
                assert(rest.push(found.last())[i] == m);
            }
        }
    }
}

/// An id is forgotten exactly when it is a registered row of the family
/// `prefix` whose major the rescan did not find: rows of other families are
/// never touched, and a rescan that finds every registered major forgets
/// nothing.
pub proof fn law_only_vanished_rows_of_the_family_are_forgotten(
    registered: Seq<Seq<char>>,
    prefix: Seq<char>,
    found: Seq<Seq<char>>,
    id: Seq<char>,
)
    ensures
        vanished_ids(registered, prefix, found).contains(id) <==> registered.contains(id)
            && is_vanished(id, prefix, found),
    decreases registered.len(),
{
    if registered.len() > 0 {
        law_only_vanished_rows_of_the_family_are_forgotten(
            registered.drop_last(),
            prefix,
            found,
            id,
        );
        let rest = vanished_ids(registered.drop_last(), prefix, found);
        let last = registered.last();
        if registered.contains(id) && !registered.drop_last().contains(id) {
            assert(last == id) by {
                let i = choose|i: int| 0 <= i < registered.len() && registered[i] == id;
                if i < registered.len() - 1 {
                    assert(registered.drop_last()[i] == id);
                }
            }
        }
        if registered.drop_last().contains(id) {
            let i = choose|i: int|
                0 <= i < registered.drop_last().len() && registered.drop_last()[i] == id;
            assert(registered[i] == id);
        }
        if is_vanished(last, prefix, found) {
            assert(rest.push(last).last() == last);
            if rest.push(last).contains(id) {
                let i = choose|i: int| 0 <= i < rest.push(last).len() && rest.push(last)[i] == id;
                if i < rest.len() {
                    assert(rest[i] == id);
                }
            }
            if rest.contains(id) {
                let i = choose|i: int| 0 <= i < rest.len() && rest[i] == id;
                assert(rest.push(last)[i] == id);
            }
        }
    }
}

/// A rescan never both registers and forgets the same version: a major it
/// registers was found, and a row it forgets names a major that was not.
pub proof fn law_no_major_is_both_registered_and_forgotten(
    before: Seq<Seq<char>>,
    found: Seq<Seq<char>>,
    registered: Seq<Seq<char>>,
    prefix: Seq<char>,
    m: Seq<char>,
)
    requires
        new_majors(before, found).contains(m),
    ensures
        !vanished_ids(registered, prefix, found).contains(prefix + m),
{
    law_new_majors_are_exactly_the_unknown_found_ones(before, found, m);
    law_only_vanished_rows_of_the_family_are_forgotten(registered, prefix, found, prefix + m);
    assert((prefix + m).skip(prefix.len() as int) =~= m);
}

// ---------------------------------------------------------------------------
// MySQL and MariaDB rows
// ---------------------------------------------------------------------------

/// The majors of `found` whose row a MySQL rescan registers: those with no
/// row yet (by supervisor id) and an initialized datadir, in order. Each
/// entry of `found` is a major and whether its datadir is initialized.
pub open spec fn mysql_majors_to_register(
    found: Seq<(Seq<char>, bool)>,
    registered: Seq<Seq<char>>,
) -> Seq<Seq<char>>
    decreases found.len(),
{
    if found.len() == 0 {
        Seq::empty()
    } else {
        let rest = mysql_majors_to_register(found.drop_last(), registered);
        let (major, initialized) = found.last();
        if !registered.contains(MYSQL_ID_PREFIX@ + major) && initialized {
            rest.push(major)
        } else {
            rest
        }
    }
}

/// Law: a MySQL rescan registers a major exactly when some found install of
/// it has an initialized datadir and no `mysql-<major>` row exists yet,
/// however many other majors qualify; nothing else is registered.
pub proof fn law_every_unregistered_initialized_major_is_registered(
    found: Seq<(Seq<char>, bool)>,
    registered: Seq<Seq<char>>,
    m: Seq<char>,
)
    ensures
        mysql_majors_to_register(found, registered).contains(m) <==> (exists|i: int|
            0 <= i < found.len() && #[trigger] found[i] == (m, true))
            && !registered.contains("mysql-"@ + m),
    decreases found.len(),
{
    if found.len() > 0 {
        let front = found.drop_last();
        law_every_unregistered_initialized_major_is_registered(front, registered, m);
        let rest = mysql_majors_to_register(front, registered);
        let all = mysql_majors_to_register(found, registered);
        let (major, initialized) = found.last();
        assert(MYSQL_ID_PREFIX@ == "mysql-"@);
        if !registered.contains(MYSQL_ID_PREFIX@ + major) && initialized {
            assert(all == rest.push(major));
        } else {
            assert(all == rest);
        }
        if all.contains(m) {
            let k = choose|k: int| 0 <= k < all.len() && all[k] == m;
            if k < rest.len() {
                assert(rest[k] == all[k]);
                let i = choose|i: int| 0 <= i < front.len() && #[trigger] front[i] == (m, true);
                assert(found[i] == front[i]);
            } else {
                assert(found[found.len() - 1] == (m, true));
            }
        }
        if (exists|i: int| 0 <= i < found.len() && #[trigger] found[i] == (m, true))
            && !registered.contains("mysql-"@ + m) {
            let i = choose|i: int| 0 <= i < found.len() && #[trigger] found[i] == (m, true);
            if i < found.len() - 1 {
                assert(front[i] == found[i]);
                assert(rest.contains(m));
                let k = choose|k: int| 0 <= k < rest.len() && rest[k] == m;
                assert(all[k] == rest[k]);
            } else {
                assert(all[all.len() - 1] == m);
            }
        }
    }
}

/// A list of found majors, each with whether its datadir is initialized, as
/// character sequences.
pub open spec fn found_view(found: Seq<(String, bool)>) -> Seq<(Seq<char>, bool)> {
    found.map_values(|f: (String, bool)| (f.0@, f.1))
}

/// Which of the found MySQL majors get a supervisor row: a major already
/// registered is left alone (a live row's diagnostics survive a rescan), and
/// one whose datadir is not initialized has nothing to start. Each entry of
/// `found` is a major and whether its datadir is initialized.
pub fn mysql_registrations(found: &[(String, bool)], registered: &[String]) -> (r: Vec<String>)
    ensures
        views(r@) == mysql_majors_to_register(found_view(found@), views(registered@)),
{
    let mut out: Vec<String> = Vec::new();
    let mut k: usize = 0;
    while k < found.len()
        invariant
            0 <= k <= found@.len(),
            views(out@) == mysql_majors_to_register(
                found_view(found@.take(k as int)),
                views(registered@),
            ),
        decreases found.len() - k,
    {
        let ghost before = found_view(found@.take(k as int));
        assert(found_view(found@.take(k + 1)) =~= before.push((found@[k as int].0@, found@[k as int].1)));
        assert(found_view(found@.take(k + 1)).drop_last() =~= before);
        let entry = &found[k];
        let id = mysql_service_id(entry.0.as_str());
        if !list_contains(registered, id.as_str()) && entry.1 {
            out.push(entry.0.clone());
            assert(views(out@) =~= mysql_majors_to_register(before, views(registered@)).push(
                found@[k as int].0@,
            ));
        }
        k += 1;
    }
    assert(found@.take(found@.len() as int) =~= found@);
    out
}

/// What a MariaDB rescan does to the one MariaDB row.
#[derive(Debug, Clone, Copy, PartialEq, Eq, Structural)]
pub enum RowChange {
    Register,
    Unregister,
    Leave,
}

/// What a MariaDB rescan does to its row, given whether an install was
/// found and whether the row is already registered. `datadir_initialized`
/// is asked only when it matters: an install was found and has no row yet.
/// A found install with no row and an initialized datadir is registered; a
/// registered row whose install is gone is unregistered; anything else is
/// left as it is.
pub fn mariadb_row_change<F: Fn() -> bool>(
    found: bool,
    registered: bool,
    datadir_initialized: F,
) -> (r: RowChange)
    requires
        call_requires(datadir_initialized, ()),
    ensures
        r == RowChange::Register ==> found && !registered && call_ensures(
            datadir_initialized,
            (),
            true,
        ),
        found && !registered && r != RowChange::Register ==> r == RowChange::Leave
            && call_ensures(datadir_initialized, (), false),
        r == RowChange::Unregister <==> !found && registered,
{
    if found && !registered {
        if datadir_initialized() {
            RowChange::Register
        } else {
            RowChange::Leave
        }
    } else if !found && registered {
        RowChange::Unregister
    } else {
        RowChange::Leave
    }
}

} // verus!
