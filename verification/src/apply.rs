//! Applying the generated config: the plan's wire shape, which services to
//! restart afterwards, and what the restart achieved.
use vstd::prelude::*;
use crate::error::{ErrorView, IpcError};
use crate::text::{concat, list_contains, nat_text, u16_text, views};

verus! {

/// How a generated file changes when the plan is applied.
#[derive(Debug, Clone, Copy, PartialEq, Eq, Structural)]
pub enum ChangeKind {
    Added,
    Modified,
    Removed,
}

/// The wire spelling of `k`, which the diff dialog switches on.
pub open spec fn change_kind_text(k: ChangeKind) -> Seq<char> {
    match k {
        ChangeKind::Added => "added"@,
        ChangeKind::Modified => "modified"@,
        ChangeKind::Removed => "removed"@,
    }
}

/// The stable wire string for `k`: `added`, `modified` or `removed`.
pub fn change_kind_str(k: ChangeKind) -> (r: &'static str)
    ensures
        r@ == change_kind_text(k),
{
    match k {
        ChangeKind::Added => "added",
        ChangeKind::Modified => "modified",
        ChangeKind::Removed => "removed",
    }
}

/// One file the plan would change.
#[derive(Debug, Clone)]
pub struct FileChangeDto {
    pub path: String,
    /// "added" | "modified" | "removed"
    pub kind: String,
    pub diff: String,
}

/// What Apply would change across the whole generated config.
#[derive(Debug, Clone)]
pub struct ApplyPlanDto {
    pub changes: Vec<FileChangeDto>,
}

/// A service Apply stopped and could not bring back, with a sentence the UI
/// can show as-is.
#[derive(Debug, Clone)]
pub struct ServiceProblemDto {
    pub id: String,
    pub reason: String,
}

/// What an Apply achieved.
#[derive(Debug, Clone)]
pub struct ApplyOutcomeDto {
    pub applied: u32,
    /// Stopped and successfully started again on the new config.
    pub restarted: Vec<String>,
    /// Affected, but not running, so the new config takes effect when they
    /// next start.
    pub not_started: Vec<String>,
    /// Were running and could not be brought back: the user has to act.
    pub needs_attention: Vec<ServiceProblemDto>,
}

/// The outcome of an Apply whose plan changes nothing: nothing written,
/// nothing stopped, nothing started.
pub fn nothing_to_apply() -> (r: ApplyOutcomeDto)
    ensures
        r.applied == 0,
        r.restarted@.len() == 0,
        r.not_started@.len() == 0,
        r.needs_attention@.len() == 0,
{
    ApplyOutcomeDto {
        applied: 0,
        restarted: Vec::new(),
        not_started: Vec::new(),
        needs_attention: Vec::new(),
    }
}

/// What an Apply does once its plan is known.
pub enum ApplyStart<B> {
    /// The plan changes nothing: answer this outcome, and write, stop and
    /// start nothing.
    Done(ApplyOutcomeDto),
    /// Validate the new config with this nginx binary, then commit it.
    Validate(B),
}

/// Decides how an Apply whose plan has `changes` changed files goes on: an
/// empty plan ends at once with [`nothing_to_apply`] (so a repeated click
/// never stops and starts the stack), otherwise the config is validated with
/// `nginx_bin`, and with no nginx binary on the machine the Apply is refused.
pub fn apply_start<B>(changes: usize, nginx_bin: Option<B>) -> (r: Result<ApplyStart<B>, IpcError>)
    ensures
        changes == 0 ==> (r matches Ok(ApplyStart::Done(o)) && o.applied == 0 && o.restarted@.len()
            == 0 && o.not_started@.len() == 0 && o.needs_attention@.len() == 0),
        changes > 0 ==> match nginx_bin {
            Some(b) => r matches Ok(ApplyStart::Validate(v)) && v == b,
            None => r matches Err(e) && e@ == (ErrorView::Core {
                message: "no nginx binary was found on this machine"@,
            }),
        },
{
    if changes == 0 {
        return Ok(ApplyStart::Done(nothing_to_apply()));
    }
    match nginx_bin {
        Some(b) => Ok(ApplyStart::Validate(b)),
        None => Err(
            IpcError::Core { message: String::from_str("no nginx binary was found on this machine") },
        ),
    }
}

/// How many files were applied, as the wire's `u32`: the count itself, or
/// `u32::MAX` when it does not fit.
pub fn applied_count(n: usize) -> (r: u32)
    ensures
        r == (if n <= u32::MAX { n as u32 } else { u32::MAX }),
{
    if n <= 0xFFFF_FFFFusize {
        n as u32
    } else {
        u32::MAX
    }
}

/// The supervisor id of the php-fpm pool for `major`.
pub open spec fn php_fpm_id(major: Seq<char>) -> Seq<char> {
    "php-fpm-"@ + major
}

/// The services an Apply may have to restart, in restart order: every
/// php-fpm pool, then nginx (nginx connects to the pools' sockets).
pub open spec fn restart_order(majors: Seq<Seq<char>>) -> Seq<Seq<char>> {
    majors.map_values(|m: Seq<char>| php_fpm_id(m)).push("nginx"@)
}

/// The ids of the services an Apply affects, pools before nginx.
pub fn restart_ids(php_majors: &[String]) -> (r: Vec<String>)
    ensures
        views(r@) == restart_order(views(php_majors@)),
{
    let mut ids: Vec<String> = Vec::new();
    let mut k: usize = 0;
    while k < php_majors.len()
        invariant
            0 <= k <= php_majors@.len(),
            views(ids@) == views(php_majors@.take(k as int)).map_values(
                |m: Seq<char>| php_fpm_id(m),
            ),
        decreases php_majors.len() - k,
    {
        let ghost before = views(php_majors@.take(k as int));
        let ghost old_ids = views(ids@);
        let id = concat("php-fpm-", php_majors[k].as_str());
        ids.push(id);
        assert(views(ids@) =~= old_ids.push(php_fpm_id(php_majors@[k as int]@)));
        assert(views(php_majors@.take(k + 1)) =~= before.push(php_majors@[k as int]@));
        assert(before.push(php_majors@[k as int]@).map_values(|m: Seq<char>| php_fpm_id(m))
            =~= before.map_values(|m: Seq<char>| php_fpm_id(m)).push(
            php_fpm_id(php_majors@[k as int]@),
        ));
        k += 1;
    }
    assert(php_majors@.take(php_majors@.len() as int) =~= php_majors@);
    ids.push(String::from_str("nginx"));
    assert(views(ids@) =~= restart_order(views(php_majors@)));
    ids
}

/// A service as the supervisor's snapshot shows it: its id, and whether it
/// is running.
#[derive(Debug, Clone)]
pub struct ServiceSnapshot {
    pub id: String,
    pub running: bool,
}

/// The snapshot shows `id` running.
pub open spec fn shown_running(snapshot: Seq<ServiceSnapshot>, id: Seq<char>) -> bool {
    exists|j: int| 0 <= j < snapshot.len() && #[trigger] snapshot[j].id@ == id && snapshot[j].running
}

/// The ids of `ids` the snapshot shows running (`running`), or not
/// (`!running`), in their order.
pub open spec fn ids_by_state(ids: Seq<Seq<char>>, snapshot: Seq<ServiceSnapshot>, running: bool) -> Seq<
    Seq<char>,
>
    decreases ids.len(),
{
    if ids.len() == 0 {
        ids
    } else {
        let rest = ids_by_state(ids.drop_last(), snapshot, running);
        if shown_running(snapshot, ids.last()) == running {
            rest.push(ids.last())
        } else {
            rest
        }
    }
}

/// Whether the snapshot shows `id` running.
fn is_running(snapshot: &[ServiceSnapshot], id: &str) -> (r: bool)
    ensures
        r == shown_running(snapshot@, id@),
{
    let mut k: usize = 0;
    while k < snapshot.len()
        invariant
            0 <= k <= snapshot@.len(),
            forall|j: int| 0 <= j < k ==> !(snapshot@[j].id@ == id@ && snapshot@[j].running),
        decreases snapshot.len() - k,
    {
        if snapshot[k].running && crate::text::str_eq(snapshot[k].id.as_str(), id) {
            return true;
        }
        k += 1;
    }
    false
}

/// Law: the services an Apply restarts are exactly the ids the snapshot
/// shows running, and the ones it leaves for their next start exactly the
/// others; every id lands in one of the two, each in the order of `ids`.
pub proof fn law_only_running_services_are_restarted(
    ids: Seq<Seq<char>>,
    snapshot: Seq<ServiceSnapshot>,
)
    ensures
        ids_by_state(ids, snapshot, true).len() + ids_by_state(ids, snapshot, false).len()
            == ids.len(),
        forall|x: Seq<char>|
            #[trigger] ids_by_state(ids, snapshot, true).contains(x) ==> ids.contains(x) && exists|
                j: int,
            | 0 <= j < snapshot.len() && #[trigger] snapshot[j].id@ == x && snapshot[j].running,
        forall|x: Seq<char>|
            #[trigger] ids_by_state(ids, snapshot, false).contains(x) ==> ids.contains(x) && !exists|
                j: int,
            | 0 <= j < snapshot.len() && #[trigger] snapshot[j].id@ == x && snapshot[j].running,
        forall|i: int|
            0 <= i < ids.len() ==> if exists|j: int|
                0 <= j < snapshot.len() && #[trigger] snapshot[j].id@ == ids[i]
                    && snapshot[j].running {
                ids_by_state(ids, snapshot, true).contains(#[trigger] ids[i])
            } else {
                ids_by_state(ids, snapshot, false).contains(ids[i])
            },
    decreases ids.len(),
{
    if ids.len() > 0 {
        let front = ids.drop_last();
        law_only_running_services_are_restarted(front, snapshot);
        let up = ids_by_state(ids, snapshot, true);
        let down = ids_by_state(ids, snapshot, false);
        let up0 = ids_by_state(front, snapshot, true);
        let down0 = ids_by_state(front, snapshot, false);
        let last = ids.last();
        if shown_running(snapshot, last) {
            assert(up == up0.push(last));
            assert(down == down0);
        } else {
            assert(up == up0);
            assert(down == down0.push(last));
        }
        assert forall|x: Seq<char>| #[trigger] up.contains(x) implies ids.contains(x) && exists|j: int|
            0 <= j < snapshot.len() && #[trigger] snapshot[j].id@ == x && snapshot[j].running by {
            if up0.contains(x) {
                let k = choose|k: int| 0 <= k < front.len() && front[k] == x;
                assert(ids[k] == x);
            } else {
                assert(x == last);
                assert(ids[ids.len() - 1] == x);
            }
        }
        assert forall|x: Seq<char>| #[trigger] down.contains(x) implies ids.contains(x) && !exists|j: int|
            0 <= j < snapshot.len() && #[trigger] snapshot[j].id@ == x && snapshot[j].running by {
            if down0.contains(x) {
                let k = choose|k: int| 0 <= k < front.len() && front[k] == x;
                assert(ids[k] == x);
            } else {
                assert(x == last);
                assert(ids[ids.len() - 1] == x);
            }
        }
        assert forall|i: int| 0 <= i < ids.len() implies if exists|j: int|
            0 <= j < snapshot.len() && #[trigger] snapshot[j].id@ == ids[i] && snapshot[j].running {
            up.contains(#[trigger] ids[i])
        } else {
            down.contains(ids[i])
        } by {
            if i < ids.len() - 1 {
                assert(front[i] == ids[i]);
                if exists|j: int|
                    0 <= j < snapshot.len() && #[trigger] snapshot[j].id@ == ids[i] && snapshot[j].running {
                    assert(up0.contains(front[i]));
                    let k = choose|k: int| 0 <= k < up0.len() && up0[k] == front[i];
                    assert(up[k] == up0[k]);
                } else {
                    assert(down0.contains(front[i]));
                    let k = choose|k: int| 0 <= k < down0.len() && down0[k] == front[i];
                    assert(down[k] == down0[k]);
                }
            } else {
                if shown_running(snapshot, last) {
                    assert(up[up.len() - 1] == last);
                } else {
                    assert(down[down.len() - 1] == last);
                }
            }
        }
    }
}

/// Splits `ids` into the ones the snapshot shows running, which an Apply
/// restarts, and the rest, whose new config takes effect when they next
/// start. Each keeps the order of `ids`.
pub fn split_by_running(ids: &[String], snapshot: &[ServiceSnapshot]) -> (r: (Vec<String>, Vec<String>))
    ensures
        views(r.0@) == ids_by_state(views(ids@), snapshot@, true),
        views(r.1@) == ids_by_state(views(ids@), snapshot@, false),
{
    let mut running: Vec<String> = Vec::new();
    let mut idle: Vec<String> = Vec::new();
    let mut k: usize = 0;
    while k < ids.len()
        invariant
            0 <= k <= ids@.len(),
            views(running@) == ids_by_state(views(ids@.take(k as int)), snapshot@, true),
            views(idle@) == ids_by_state(views(ids@.take(k as int)), snapshot@, false),
        decreases ids.len() - k,
    {
        let ghost before = views(ids@.take(k as int));
        assert(views(ids@.take(k + 1)).drop_last() =~= before);
        assert(views(ids@.take(k + 1)).last() == ids@[k as int]@);
        if is_running(snapshot, ids[k].as_str()) {
            running.push(ids[k].clone());
            assert(views(running@) =~= ids_by_state(before, snapshot@, true).push(ids@[k as int]@));
        } else {
            idle.push(ids[k].clone());
            assert(views(idle@) =~= ids_by_state(before, snapshot@, false).push(ids@[k as int]@));
        }
        k += 1;
    }
    assert(ids@.take(ids@.len() as int) =~= ids@);
    (running, idle)
}

// ---------------------------------------------------------------------------
// What the restart achieved
// ---------------------------------------------------------------------------

/// The reason given for a service that did not stop in time.
pub open spec fn straggler_reason() -> Seq<char> {
    "did not stop within 10s, so it was left alone — stop it and start it again to pick up the new config"@
}

/// The reason given for a service that stopped and failed to start with
/// `error`.
pub open spec fn failed_start_reason(error: Seq<char>) -> Seq<char> {
    "stopped, but could not be started again: "@ + error
}

/// A reported problem: the service's id and the reason.
pub open spec fn problem_view(p: ServiceProblemDto) -> (Seq<char>, Seq<char>) {
    (p.id@, p.reason@)
}

/// What the restart of `running` achieves, given `stragglers` (which are
/// never started) and `results`, the answer each start gave: the services
/// restarted, and the problems, each in the order of `running`.
pub open spec fn restart_spec(
    running: Seq<Seq<char>>,
    stragglers: Seq<Seq<char>>,
    results: Seq<Result<(), String>>,
) -> (Seq<Seq<char>>, Seq<(Seq<char>, Seq<char>)>)
    decreases running.len(),
{
    if running.len() == 0 {
        (Seq::empty(), Seq::empty())
    } else {
        let (restarted, problems) = restart_spec(
            running.drop_last(),
            stragglers,
            results.drop_last(),
        );
        let id = running.last();
        if stragglers.contains(id) {
            (restarted, problems.push((id, straggler_reason())))
        } else {
            match results.last() {
                Ok(()) => (restarted.push(id), problems),
                Err(e) => (restarted, problems.push((id, failed_start_reason(e@)))),
            }
        }
    }
}

/// Law: a restart accounts for every service that was running, each once.
/// A straggler is reported as left alone; any other service is either
/// restarted, when its start answered `Ok`, or reported with its start's
/// error; and nothing else is restarted or reported. One failed start never
/// hides another.
pub proof fn law_every_running_service_is_accounted_for(
    running: Seq<Seq<char>>,
    stragglers: Seq<Seq<char>>,
    results: Seq<Result<(), String>>,
)
    requires
        results.len() == running.len(),
    ensures
        restart_spec(running, stragglers, results).0.len() + restart_spec(
            running,
            stragglers,
            results,
        ).1.len() == running.len(),
        forall|i: int|
            0 <= i < running.len() ==> {
                let (restarted, problems) = restart_spec(running, stragglers, results);
                if stragglers.contains(#[trigger] running[i]) {
                    problems.contains(
                        (
                            running[i],
                            "did not stop within 10s, so it was left alone — stop it and start it again to pick up the new config"@,
                        ),
                    )
                } else {
                    match results[i] {
                        Ok(()) => restarted.contains(running[i]),
                        Err(e) => problems.contains(
                            (running[i], "stopped, but could not be started again: "@ + e@),
                        ),
                    }
                }
            },
        forall|x: Seq<char>|
            #[trigger] restart_spec(running, stragglers, results).0.contains(x) ==> exists|i: int|
                0 <= i < running.len() && #[trigger] running[i] == x && !stragglers.contains(x)
                    && results[i] is Ok,
    decreases running.len(),
{
    if running.len() > 0 {
        let front = running.drop_last();
        let fres = results.drop_last();
        law_every_running_service_is_accounted_for(front, stragglers, fres);
        let (r0, p0) = restart_spec(front, stragglers, fres);
        let (r, p) = restart_spec(running, stragglers, results);
        let n = running.len() - 1;
        let id = running.last();
        assert forall|i: int| 0 <= i < running.len() implies {
            let (restarted, problems) = restart_spec(running, stragglers, results);
            if stragglers.contains(#[trigger] running[i]) {
                problems.contains(
                    (
                        running[i],
                        "did not stop within 10s, so it was left alone — stop it and start it again to pick up the new config"@,
                    ),
                )
            } else {
                match results[i] {
                    Ok(()) => restarted.contains(running[i]),
                    Err(e) => problems.contains(
                        (running[i], "stopped, but could not be started again: "@ + e@),
                    ),
                }
            }
        } by {
            if i < n {
                assert(front[i] == running[i]);
                assert(fres[i] == results[i]);
                assert forall|t: (Seq<char>, Seq<char>)| p0.contains(t) implies p.contains(t) by {
                    let k = choose|k: int| 0 <= k < p0.len() && p0[k] == t;
                    assert(p[k] == p0[k]);
                }
                assert forall|t: Seq<char>| r0.contains(t) implies r.contains(t) by {
                    let k = choose|k: int| 0 <= k < r0.len() && r0[k] == t;
                    assert(r[k] == r0[k]);
                }
            } else {
                assert(running[i] == id);
                if stragglers.contains(id) {
                    assert(p[p.len() - 1] == (id, straggler_reason()));
                } else {
                    match results[i] {
                        Ok(()) => {
                            assert(r[r.len() - 1] == id);
                        },
                        Err(e) => {
                            assert(p[p.len() - 1] == (id, failed_start_reason(e@)));
                        },
                    }
                }
            }
        }
        assert forall|x: Seq<char>| #[trigger] r.contains(x) implies exists|i: int|
            0 <= i < running.len() && #[trigger] running[i] == x && !stragglers.contains(x)
                && results[i] is Ok by {
            let k = choose|k: int| 0 <= k < r.len() && r[k] == x;
            if k < r0.len() {
                assert(r[k] == r0[k]);
                assert(r0.contains(x));
                let i = choose|i: int|
                    0 <= i < front.len() && #[trigger] front[i] == x && !stragglers.contains(x)
                        && fres[i] is Ok;
                assert(running[i] == front[i]);
                assert(results[i] == fres[i]);
            } else {
                assert(running[n] == x);
            }
        }
    }
}

/// `restarted` and `problems` are what restarting `running` achieves, when
/// `results` are the answers of `start`: one per service, each a possible
/// answer of `start` for that service unless it is a straggler.
pub open spec fn restart_explained<F: Fn(&String) -> Result<(), String>>(
    running: Seq<String>,
    stragglers: Seq<String>,
    start: F,
    results: Seq<Result<(), String>>,
    restarted: Seq<String>,
    problems: Seq<ServiceProblemDto>,
) -> bool {
    &&& results.len() == running.len()
    &&& forall|i: int|
        0 <= i < running.len() && !views(stragglers).contains(running[i]@) ==> call_ensures(
            start,
            (&running[i],),
            #[trigger] results[i],
        )
    &&& views(restarted) == restart_spec(views(running), views(stragglers), results).0
    &&& problems.map_values(|p: ServiceProblemDto| problem_view(p)) == restart_spec(
        views(running),
        views(stragglers),
        results,
    ).1
}

/// Decides, for each service that was running, what the restart achieved.
/// A straggler (one that did not stop in time) is never started and is
/// reported; every other service is started once, in order, and reported
/// restarted or, with the start's error, as a problem. One service's failure
/// never hides the fate of the others: every service is visited.
pub fn restart_outcome<F: Fn(&String) -> Result<(), String>>(
    running: &[String],
    stragglers: &[String],
    start: F,
) -> (r: (Vec<String>, Vec<ServiceProblemDto>))
    requires
        forall|i: int| 0 <= i < running@.len() ==> call_requires(start, (&running@[i],)),
    ensures
        exists|results: Seq<Result<(), String>>|
            #[trigger] restart_explained(running@, stragglers@, start, results, r.0@, r.1@),
{
    let mut restarted: Vec<String> = Vec::new();
    let mut needs_attention: Vec<ServiceProblemDto> = Vec::new();
    let ghost mut results: Seq<Result<(), String>> = Seq::empty();
    let mut k: usize = 0;
    assert(views(running@.take(0)) =~= Seq::<Seq<char>>::empty());
    assert(views(restarted@) =~= Seq::<Seq<char>>::empty());
    assert(needs_attention@.map_values(|p: ServiceProblemDto| problem_view(p)) =~= Seq::<
        (Seq<char>, Seq<char>),
    >::empty());
    while k < running.len()
        invariant
            0 <= k <= running@.len(),
            forall|i: int| 0 <= i < running@.len() ==> call_requires(start, (&running@[i],)),
            restart_explained(
                running@.take(k as int),
                stragglers@,
                start,
                results,
                restarted@,
                needs_attention@,
            ),
        decreases running.len() - k,
    {
        let ghost prev_results = results;
        let ghost prev_problems = needs_attention@.map_values(|p: ServiceProblemDto| problem_view(p));
        let ghost prev_restarted = views(restarted@);
        let ghost upto = running@.take(k as int);
        let ghost next = running@.take(k + 1);
        let ghost sv = views(stragglers@);
        assert(next.drop_last() =~= upto);
        assert(views(next).drop_last() =~= views(upto));
        assert(views(next).last() == running@[k as int]@);
        let id = &running[k];
        if list_contains(stragglers, id.as_str()) {
            needs_attention.push(
                ServiceProblemDto {
                    id: id.clone(),
                    reason: String::from_str(
                        "did not stop within 10s, so it was left alone — stop it and start it again to pick up the new config",
                    ),
                },
            );
            proof {
                results = results.push(Ok(()));
                assert(results.drop_last() =~= prev_results);
                assert(needs_attention@.map_values(|p: ServiceProblemDto| problem_view(p))
                    =~= prev_problems.push((id@, straggler_reason())));
            }
        } else {
            let answer = start(id);
            match &answer {
                Ok(()) => {
                    restarted.push(id.clone());
                    assert(views(restarted@) =~= prev_restarted.push(id@));
                    assert(needs_attention@.map_values(|p: ServiceProblemDto| problem_view(p))
                        =~= prev_problems);
                },
                Err(e) => {
                    needs_attention.push(
                        ServiceProblemDto {
                            id: id.clone(),
                            reason: concat("stopped, but could not be started again: ", e.as_str()),
                        },
                    );
                    assert(needs_attention@.map_values(|p: ServiceProblemDto| problem_view(p))
                        =~= prev_problems.push((id@, failed_start_reason(e@))));
                },
            }
            proof {
                results = results.push(answer);
                assert(results.drop_last() =~= prev_results);
            }
        }
        k += 1;
        assert forall|i: int|
            0 <= i < next.len() && !sv.contains(next[i]@) implies call_ensures(
            start,
            (&next[i],),
            #[trigger] results[i],
        ) by {
            if i < next.len() - 1 {
                assert(next[i] == upto[i]);
                assert(results[i] == prev_results[i]);
            }
        }
    }
    assert(running@.take(running@.len() as int) =~= running@);
    let r = (restarted, needs_attention);
    assert(restart_explained(running@, stragglers@, start, results, r.0@, r.1@));
    r
}

// ---------------------------------------------------------------------------
// Opening a site
// ---------------------------------------------------------------------------

/// `http://<domain>:<port>`: the scheme is fixed and prepended, never taken
/// from the stored value.
pub open spec fn site_url_text(domain: Seq<char>, port: u16) -> Seq<char> {
    "http://"@ + domain + ":"@ + nat_text(port as nat)
}

/// The URL that opens the site served at `domain` on `port` (the port every
/// applied site listens on).
pub fn site_url(domain: &str, port: u16) -> (r: String)
    ensures
        r@ == site_url_text(domain@, port),
{
    let mut r = concat("http://", domain);
    r.append(":");
    r.append(u16_text(port).as_str());
    r
}

} // verus!
