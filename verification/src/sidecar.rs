//! The prefetch sidecar: a second download that runs on servers which the
//! active job leaves idle, or on a few connections borrowed from busy ones.
use vstd::prelude::*;

use crate::job::{Job, JobState};
use crate::text::{add_text, add_texts, listed, same};

verus! {

/// A server, as far as decisions read it.
#[derive(Debug)]
pub struct ServerConf {
    pub host: String,
    pub enabled: bool,
    /// How many connections the account allows.
    pub connections: u32,
    /// The size of a paid block, where the account is one.
    pub block_bytes: Option<u64>,
    /// How much of it is spent.
    pub spent: u64,
}

/// A server of the active job, and whether it serves that job.
#[derive(Debug)]
pub struct HostShare {
    pub host: String,
    /// Whether it moved a hundredth or more of the bytes.
    pub busy: bool,
}

/// The bytes that a block account has left.
#[derive(Debug)]
pub struct Left {
    pub host: String,
    pub bytes: u64,
}

/// A second download that runs beside the active job.
#[derive(Debug)]
pub struct Sidecar {
    pub nzo_id: String,
    /// The bytes decoded so far.
    pub progress: u64,
    /// Whether it is to stop, also before it has begun.
    pub cancelled: bool,
    /// Whether it runs on connections borrowed from busy servers. It then
    /// claims no idle capacity, and slow jobs are still deferred.
    pub borrowed: bool,
}

/// Where a sidecar runs.
#[derive(Debug)]
pub struct Plan {
    /// The hosts that it may download from.
    pub fleet: Vec<String>,
    /// How many connections it may have at each, where it borrows them.
    pub caps: Vec<u64>,
    /// The hosts that it must not touch.
    pub excluded: Vec<String>,
    /// What the block accounts have left.
    pub budgets: Vec<Left>,
}

/// Whether a block account has nothing left.
pub open spec fn is_spent(s: ServerConf) -> bool {
    s.block_bytes matches Some(b) && b > 0 && s.spent >= b
}

/// The hosts of the block accounts that have nothing left, in order.
pub open spec fn spent_of(servers: Seq<ServerConf>) -> Seq<Seq<char>>
    decreases servers.len(),
{
    if servers.len() == 0 {
        Seq::empty()
    } else if is_spent(servers.last()) {
        spent_of(servers.drop_last()).push(servers.last().host@)
    } else {
        spent_of(servers.drop_last())
    }
}

/// The hosts of the block accounts that have nothing left, in order.
pub fn spent_hosts(servers: &Vec<ServerConf>) -> (r: Vec<String>)
    ensures
        r.deep_view() == spent_of(servers@),
{
    let mut r: Vec<String> = Vec::new();
    let mut i: usize = 0;
    assert(r.deep_view() =~= spent_of(servers@.take(0)));
    while i < servers.len()
        invariant
            i <= servers@.len(),
            r.deep_view() == spent_of(servers@.take(i as int)),
        decreases servers@.len() - i,
    {
        let s: &ServerConf = &servers[i];
        assert(servers@.take(i + 1).drop_last() =~= servers@.take(i as int));
        assert(servers@.take(i + 1).last() == s);
        let out: bool = match s.block_bytes {
            Some(b) => b > 0 && s.spent >= b,
            None => false,
        };
        if out {
            add_text(&mut r, s.host.as_str());
        }
        i = i + 1;
    }
    assert(servers@.take(servers@.len() as int) =~= servers@);
    r
}

/// The hosts that stand in neither of two lists, in order.
pub open spec fn without(
    hosts: Seq<Seq<char>>,
    a: Seq<Seq<char>>,
    b: Seq<Seq<char>>,
) -> Seq<Seq<char>>
    decreases hosts.len(),
{
    if hosts.len() == 0 {
        Seq::empty()
    } else if !a.contains(hosts.last()) && !b.contains(hosts.last()) {
        without(hosts.drop_last(), a, b).push(hosts.last())
    } else {
        without(hosts.drop_last(), a, b)
    }
}

/// The hosts that stand in neither of two lists, in order.
pub fn take_without(hosts: &Vec<String>, a: &Vec<String>, b: &Vec<String>) -> (r: Vec<String>)
    ensures
        r.deep_view() == without(hosts.deep_view(), a.deep_view(), b.deep_view()),
{
    let mut r: Vec<String> = Vec::new();
    let mut i: usize = 0;
    let ghost all = hosts.deep_view();
    assert(r.deep_view() =~= without(all.take(0), a.deep_view(), b.deep_view()));
    while i < hosts.len()
        invariant
            i <= hosts@.len(),
            all == hosts.deep_view(),
            r.deep_view() == without(all.take(i as int), a.deep_view(), b.deep_view()),
        decreases hosts@.len() - i,
    {
        assert(all.take(i + 1).drop_last() =~= all.take(i as int));
        assert(all.take(i + 1).last() == hosts@[i as int]@);
        if !listed(a, hosts[i].as_str()) && !listed(b, hosts[i].as_str()) {
            add_text(&mut r, hosts[i].as_str());
        }
        i = i + 1;
    }
    assert(all.take(all.len() as int) =~= all);
    r
}

/// The first server with a host name.
pub open spec fn conf_of(servers: Seq<ServerConf>, host: Seq<char>) -> Option<ServerConf>
    decreases servers.len(),
{
    if servers.len() == 0 {
        None
    } else if servers[0].host@ == host {
        Some(servers[0])
    } else {
        conf_of(servers.skip(1), host)
    }
}

/// The first server with a host name.
pub fn find_conf<'a>(servers: &'a Vec<ServerConf>, host: &str) -> (r: Option<&'a ServerConf>)
    ensures
        match r {
            Some(s) => conf_of(servers@, host@) == Some(*s),
            None => conf_of(servers@, host@) is None,
        },
{
    let mut i: usize = 0;
    assert(servers@.skip(0) =~= servers@);
    while i < servers.len()
        invariant
            i <= servers@.len(),
            conf_of(servers@, host@) == conf_of(servers@.skip(i as int), host@),
        decreases servers@.len() - i,
    {
        assert(servers@.skip(i as int)[0] == servers@[i as int]);
        if same(servers[i].host.as_str(), host) {
            return Some(&servers[i]);
        }
        assert(servers@.skip(i as int).skip(1) =~= servers@.skip(i + 1));
        i = i + 1;
    }
    None
}

/// How many connections are borrowed from an account: one or two, out of
/// what the active job leaves free; one where it leaves nothing.
pub open spec fn slice_of(account: u32, global: u64) -> int {
    let acct = if account < 1 {
        1
    } else {
        account as int
    };
    let used = if global < 1 {
        1
    } else if global < acct {
        global as int
    } else {
        acct
    };
    if acct - used < 1 {
        1
    } else if acct - used > 2 {
        2
    } else {
        acct - used
    }
}

/// How many connections are borrowed from an account.
pub fn borrow_slice(account: u32, global: u64) -> (r: u64)
    ensures
        r == slice_of(account, global),
        1 <= r <= 2,
{
    let acct: u64 = if account < 1 {
        1
    } else {
        account as u64
    };
    let global: u64 = if global < 1 {
        1
    } else {
        global
    };
    let used: u64 = if global < acct {
        global
    } else {
        acct
    };
    let free: u64 = acct - used;
    if free < 1 {
        1
    } else if free > 2 {
        2
    } else {
        free
    }
}

/// Where the active job leaves connections free, the two downloads together
/// stay within the account.
pub proof fn a_borrowed_slice_fits_the_account(account: u32, global: u64)
    requires
        1 <= global < account,
    ensures
        global + slice_of(account, global) <= account,
{
}

/// The hosts that the configuration knows, in order.
pub open spec fn known_of(hosts: Seq<Seq<char>>, servers: Seq<ServerConf>) -> Seq<Seq<char>>
    decreases hosts.len(),
{
    if hosts.len() == 0 {
        Seq::empty()
    } else if conf_of(servers, hosts.last()) is Some {
        known_of(hosts.drop_last(), servers).push(hosts.last())
    } else {
        known_of(hosts.drop_last(), servers)
    }
}

/// The busy hosts that do not stand in a list, in order.
pub open spec fn busy_but(shares: Seq<HostShare>, keep: Seq<Seq<char>>) -> Seq<Seq<char>>
    decreases shares.len(),
{
    if shares.len() == 0 {
        Seq::empty()
    } else if shares.last().busy && !keep.contains(shares.last().host@) {
        busy_but(shares.drop_last(), keep).push(shares.last().host@)
    } else {
        busy_but(shares.drop_last(), keep)
    }
}

fn take_busy(shares: &Vec<HostShare>, keep: &Vec<String>) -> (r: Vec<String>)
    ensures
        r.deep_view() == busy_but(shares@, keep.deep_view()),
{
    let mut r: Vec<String> = Vec::new();
    let mut i: usize = 0;
    assert(r.deep_view() =~= busy_but(shares@.take(0), keep.deep_view()));
    while i < shares.len()
        invariant
            i <= shares@.len(),
            r.deep_view() == busy_but(shares@.take(i as int), keep.deep_view()),
        decreases shares@.len() - i,
    {
        assert(shares@.take(i + 1).drop_last() =~= shares@.take(i as int));
        assert(shares@.take(i + 1).last() == shares@[i as int]);
        if shares[i].busy && !listed(keep, shares[i].host.as_str()) {
            add_text(&mut r, shares[i].host.as_str());
        }
        i = i + 1;
    }
    assert(shares@.take(shares@.len() as int) =~= shares@);
    r
}

/// What a block account has left: nothing where it is none, or is spent.
pub open spec fn left_of(s: ServerConf) -> Option<u64> {
    match s.block_bytes {
        Some(b) => if b > s.spent {
            Some((b - s.spent) as u64)
        } else {
            None
        },
        None => None,
    }
}

/// What the block accounts have left, in order.
pub open spec fn budgets_of(servers: Seq<ServerConf>) -> Seq<(Seq<char>, u64)>
    decreases servers.len(),
{
    if servers.len() == 0 {
        Seq::empty()
    } else {
        match left_of(servers.last()) {
            Some(n) => budgets_of(servers.drop_last()).push((servers.last().host@, n)),
            None => budgets_of(servers.drop_last()),
        }
    }
}

/// The lines of a budget.
pub open spec fn lefts(l: Seq<Left>) -> Seq<(Seq<char>, u64)> {
    l.map_values(|x: Left| (x.host@, x.bytes))
}

/// What the block accounts have left, in order.
pub fn budgets(servers: &Vec<ServerConf>) -> (r: Vec<Left>)
    ensures
        lefts(r@) == budgets_of(servers@),
{
    let mut r: Vec<Left> = Vec::new();
    let mut i: usize = 0;
    assert(lefts(r@) =~= budgets_of(servers@.take(0)));
    while i < servers.len()
        invariant
            i <= servers@.len(),
            lefts(r@) == budgets_of(servers@.take(i as int)),
        decreases servers@.len() - i,
    {
        let s: &ServerConf = &servers[i];
        assert(servers@.take(i + 1).drop_last() =~= servers@.take(i as int));
        assert(servers@.take(i + 1).last() == s);
        match s.block_bytes {
            Some(b) => if b > s.spent {
                let ghost was = r@;
                r.push(Left { host: s.host.as_str().to_owned(), bytes: b - s.spent });
                assert(lefts(r@) =~= lefts(was).push((s.host@, (b - s.spent) as u64)));
            },
            None => {},
        }
        i = i + 1;
    }
    assert(servers@.take(servers@.len() as int) =~= servers@);
    r
}

/// The hosts that a sidecar may download from.
pub open spec fn fleet_of(
    fleet: Seq<Seq<char>>,
    servers: Seq<ServerConf>,
    refused: Seq<Seq<char>>,
    borrow: bool,
) -> Seq<Seq<char>> {
    let kept = without(fleet, refused, spent_of(servers));
    if borrow {
        known_of(kept, servers)
    } else {
        kept
    }
}

/// The hosts that a sidecar must not touch.
pub open spec fn excluded_of(
    fleet: Seq<Seq<char>>,
    servers: Seq<ServerConf>,
    shares: Seq<HostShare>,
    refused: Seq<Seq<char>>,
    borrow: bool,
) -> Seq<Seq<char>> {
    busy_but(
        shares,
        if borrow {
            fleet_of(fleet, servers, refused, borrow)
        } else {
            Seq::empty()
        },
    ) + spent_of(servers) + refused
}

/// Where a sidecar runs: on the hosts it was offered, without those that
/// refused to serve and the block accounts that have nothing left; nowhere,
/// where that leaves none. One that borrows takes one or two connections of
/// each host that is configured. It keeps away from every other busy host.
/// `servers` is empty where the configuration cannot be read.
pub fn plan(
    fleet: &Vec<String>,
    servers: &Vec<ServerConf>,
    shares: &Vec<HostShare>,
    refused: &Vec<String>,
    global: u64,
    borrow: bool,
) -> (r: Option<Plan>)
    ensures
        ({
            let f = fleet_of(fleet.deep_view(), servers@, refused.deep_view(), borrow);
            match r {
                None => f.len() == 0,
                Some(p) => {
                    &&& f.len() > 0
                    &&& p.fleet.deep_view() == f
                    &&& p.excluded.deep_view() == excluded_of(
                        fleet.deep_view(),
                        servers@,
                        shares@,
                        refused.deep_view(),
                        borrow,
                    )
                    &&& lefts(p.budgets@) == budgets_of(servers@)
                    &&& if borrow {
                        &&& p.caps@.len() == f.len()
                        &&& forall|i: int|
                            0 <= i < f.len() ==> #[trigger] p.caps@[i] == slice_of(
                                conf_of(servers@, f[i])->0.connections,
                                global,
                            )
                    } else {
                        p.caps@.len() == 0
                    }
                },
            }
        }),
{
    let blocked: Vec<String> = spent_hosts(servers);
    let kept: Vec<String> = take_without(fleet, refused, &blocked);
    let mut hosts: Vec<String> = Vec::new();
    let mut caps: Vec<u64> = Vec::new();
    if borrow {
        let ghost all = kept.deep_view();
        let mut i: usize = 0;
        assert(hosts.deep_view() =~= known_of(all.take(0), servers@));
        while i < kept.len()
            invariant
                i <= kept@.len(),
                all == kept.deep_view(),
                hosts.deep_view() == known_of(all.take(i as int), servers@),
                caps@.len() == hosts.deep_view().len(),
                forall|j: int|
                    0 <= j < caps@.len() ==> #[trigger] caps@[j] == slice_of(
                        conf_of(servers@, hosts.deep_view()[j])->0.connections,
                        global,
                    ),
            decreases kept@.len() - i,
        {
            assert(all.take(i + 1).drop_last() =~= all.take(i as int));
            assert(all.take(i + 1).last() == kept@[i as int]@);
            match find_conf(servers, kept[i].as_str()) {
                Some(s) => {
                    let ghost was = hosts.deep_view();
                    let ghost old_caps = caps@;
                    add_text(&mut hosts, kept[i].as_str());
                    caps.push(borrow_slice(s.connections, global));
                    assert forall|j: int| 0 <= j < caps@.len() implies #[trigger] caps@[j]
                        == slice_of(
                        conf_of(servers@, hosts.deep_view()[j])->0.connections,
                        global,
                    ) by {
                        if j < old_caps.len() {
                            assert(old_caps[j] == caps@[j]);
                            assert(hosts.deep_view()[j] == was[j]);
                        }
                    }
                },
                None => {},
            }
            i = i + 1;
        }
        assert(all.take(all.len() as int) =~= all);
    } else {
        hosts = kept;
    }
    if hosts.len() == 0 {
        return None;
    }
    let mut excluded: Vec<String> = if borrow {
        take_busy(shares, &hosts)
    } else {
        let none: Vec<String> = Vec::new();
        assert(none.deep_view() =~= Seq::empty());
        take_busy(shares, &none)
    };
    add_texts(&mut excluded, &blocked);
    add_texts(&mut excluded, refused);
    Some(Plan { fleet: hosts, caps, excluded, budgets: budgets(servers) })
}

proof fn without_is_sound(hosts: Seq<Seq<char>>, a: Seq<Seq<char>>, b: Seq<Seq<char>>, i: int)
    requires
        0 <= i < without(hosts, a, b).len(),
    ensures
        !a.contains(without(hosts, a, b)[i]),
        !b.contains(without(hosts, a, b)[i]),
        hosts.contains(without(hosts, a, b)[i]),
    decreases hosts.len(),
{
    let rest = hosts.drop_last();
    let w = without(hosts, a, b);
    if i < without(rest, a, b).len() {
        without_is_sound(rest, a, b, i);
        let k = choose|k: int| 0 <= k < rest.len() && rest[k] == w[i];
        assert(hosts[k] == w[i]);
    } else {
        assert(hosts[hosts.len() - 1] == w[i]);
    }
}

proof fn known_is_sound(hosts: Seq<Seq<char>>, servers: Seq<ServerConf>, i: int)
    requires
        0 <= i < known_of(hosts, servers).len(),
    ensures
        conf_of(servers, known_of(hosts, servers)[i]) is Some,
        hosts.contains(known_of(hosts, servers)[i]),
    decreases hosts.len(),
{
    let rest = hosts.drop_last();
    let w = known_of(hosts, servers);
    if i < known_of(rest, servers).len() {
        known_is_sound(rest, servers, i);
        let k = choose|k: int| 0 <= k < rest.len() && rest[k] == w[i];
        assert(hosts[k] == w[i]);
    } else {
        assert(hosts[hosts.len() - 1] == w[i]);
    }
}

proof fn busy_is_complete(shares: Seq<HostShare>, keep: Seq<Seq<char>>, i: int)
    requires
        0 <= i < shares.len(),
        shares[i].busy,
        !keep.contains(shares[i].host@),
    ensures
        busy_but(shares, keep).contains(shares[i].host@),
    decreases shares.len(),
{
    let b = busy_but(shares, keep);
    if i == shares.len() - 1 {
        assert(b[b.len() - 1] == shares[i].host@);
    } else {
        let rest = busy_but(shares.drop_last(), keep);
        busy_is_complete(shares.drop_last(), keep, i);
        let k = choose|k: int| 0 <= k < rest.len() && rest[k] == shares[i].host@;
        assert(b[k] == rest[k]);
    }
}

/// A sidecar runs on none of the hosts that refused, and on no spent block
/// account.
pub proof fn a_sidecar_keeps_to_the_hosts_it_may_use(
    fleet: Seq<Seq<char>>,
    servers: Seq<ServerConf>,
    refused: Seq<Seq<char>>,
    borrow: bool,
    i: int,
)
    requires
        0 <= i < fleet_of(fleet, servers, refused, borrow).len(),
    ensures
        ({
            let h = fleet_of(fleet, servers, refused, borrow)[i];
            &&& fleet.contains(h)
            &&& !refused.contains(h)
            &&& !spent_of(servers).contains(h)
            &&& borrow ==> conf_of(servers, h) is Some
        }),
{
    let kept = without(fleet, refused, spent_of(servers));
    if borrow {
        known_is_sound(kept, servers, i);
        let h = known_of(kept, servers)[i];
        let k = choose|k: int| 0 <= k < kept.len() && kept[k] == h;
        without_is_sound(fleet, refused, spent_of(servers), k);
    } else {
        without_is_sound(fleet, refused, spent_of(servers), i);
    }
}

/// Every busy host that was not lent is excluded, and so is every host that
/// refused.
pub proof fn a_busy_host_is_lent_or_excluded(
    fleet: Seq<Seq<char>>,
    servers: Seq<ServerConf>,
    shares: Seq<HostShare>,
    refused: Seq<Seq<char>>,
    borrow: bool,
    i: int,
)
    requires
        0 <= i < shares.len(),
        shares[i].busy || refused.contains(shares[i].host@),
    ensures
        ({
            let h = shares[i].host@;
            ||| excluded_of(fleet, servers, shares, refused, borrow).contains(h)
            ||| borrow && fleet_of(fleet, servers, refused, borrow).contains(h)
        }),
{
    let h = shares[i].host@;
    let keep = if borrow {
        fleet_of(fleet, servers, refused, borrow)
    } else {
        Seq::empty()
    };
    let busy = busy_but(shares, keep);
    let spent = spent_of(servers);
    let all = excluded_of(fleet, servers, shares, refused, borrow);
    assert(all == busy + spent + refused);
    if refused.contains(h) {
        let k = choose|k: int| 0 <= k < refused.len() && refused[k] == h;
        assert(all[busy.len() + spent.len() + k] == h);
    } else if !keep.contains(h) {
        busy_is_complete(shares, keep, i);
        let k = choose|k: int| 0 <= k < busy.len() && busy[k] == h;
        assert(all[k] == h);
    }
}

/// A slot that is taken stays with the sidecar that took it first.
pub fn claim(slot: Option<Sidecar>, new: Sidecar) -> (r: (Option<Sidecar>, bool))
    ensures
        r.1 == (slot is None),
        r.0 == (if slot is None {
            Some(new)
        } else {
            slot
        }),
{
    match slot {
        Some(s) => (Some(s), false),
        None => (Some(new), true),
    }
}

/// Whether a slot holds the sidecar of a job.
pub open spec fn slot_holds(slot: Option<Sidecar>, nzo_id: Seq<char>) -> bool {
    slot matches Some(s) && s.nzo_id@ == nzo_id
}

/// Whether a slot holds the sidecar of a job.
pub fn holds(slot: &Option<Sidecar>, nzo_id: &str) -> (r: bool)
    ensures
        r == slot_holds(*slot, nzo_id@),
{
    match slot {
        Some(s) => same(s.nzo_id.as_str(), nzo_id),
        None => false,
    }
}

/// Gives a slot back once its sidecar has ended; another one's is left alone.
pub fn release(slot: Option<Sidecar>, nzo_id: &str) -> (r: Option<Sidecar>)
    ensures
        r == (if slot_holds(slot, nzo_id@) {
            None
        } else {
            slot
        }),
{
    if holds(&slot, nzo_id) {
        None
    } else {
        slot
    }
}

/// What becomes of the job: completed where the sidecar fetched all of it.
/// Where it did not, that says nothing of the job: it stays as it is, and what was
/// fetched is kept.
pub fn finish(job: &mut Job, fetched_all: bool, progress: u64, now: i64)
    ensures
        *final(job) == (if fetched_all {
            Job {
                state: JobState::Completed,
                fetched: true,
                downloaded_bytes: progress,
                finished_unix: Some(now),
                ..*old(job)
            }
        } else {
            *old(job)
        }),
{
    if fetched_all {
        job.state = JobState::Completed;
        job.fetched = true;
        job.downloaded_bytes = progress;
        job.finished_unix = Some(now);
    }
}

// ---- laws -----------------------------------------------------------------

/// A host stands in the list of spent ones for every paid block that has
/// nothing left, and for no other server: one without a block, and one of
/// which anything is left, is not spent.
pub proof fn which_accounts_are_spent(servers: Seq<ServerConf>, s: ServerConf)
    ensures
        spent_of(Seq::empty()) == Seq::<Seq<char>>::empty(),
        s.block_bytes is Some && s.block_bytes->0 > 0 && s.spent >= s.block_bytes->0 ==> spent_of(
            servers.push(s),
        ) == spent_of(servers).push(s.host@),
        s.block_bytes is None || s.block_bytes->0 == 0 || s.spent < s.block_bytes->0 ==> spent_of(
            servers.push(s),
        ) == spent_of(servers),
{
    assert(servers.push(s).drop_last() =~= servers);
}

proof fn without_is_complete(
    hosts: Seq<Seq<char>>,
    a: Seq<Seq<char>>,
    b: Seq<Seq<char>>,
    h: Seq<char>,
)
    requires
        hosts.contains(h),
        !a.contains(h),
        !b.contains(h),
    ensures
        without(hosts, a, b).contains(h),
    decreases hosts.len(),
{
    let rest = hosts.drop_last();
    let w = without(hosts, a, b);
    let before = without(rest, a, b);
    if hosts.last() == h {
        assert(w[w.len() - 1] == h);
    } else {
        let k = choose|k: int| 0 <= k < hosts.len() && hosts[k] == h;
        assert(rest[k] == h);
        without_is_complete(rest, a, b, h);
        let m = choose|m: int| 0 <= m < before.len() && before[m] == h;
        assert(w[m] == h);
    }
}

proof fn known_is_complete(hosts: Seq<Seq<char>>, servers: Seq<ServerConf>, h: Seq<char>)
    requires
        hosts.contains(h),
        conf_of(servers, h) is Some,
    ensures
        known_of(hosts, servers).contains(h),
    decreases hosts.len(),
{
    let rest = hosts.drop_last();
    let w = known_of(hosts, servers);
    let before = known_of(rest, servers);
    if hosts.last() == h {
        assert(w[w.len() - 1] == h);
    } else {
        let k = choose|k: int| 0 <= k < hosts.len() && hosts[k] == h;
        assert(rest[k] == h);
        known_is_complete(rest, servers, h);
        let m = choose|m: int| 0 <= m < before.len() && before[m] == h;
        assert(w[m] == h);
    }
}

/// A sidecar runs on a host exactly where it was offered, did not refuse, is
/// no spent block, and, where connections are borrowed, is configured; it runs
/// at all exactly where there is such a host. Borrowed connections are one or
/// two of each host, others are not bounded. Whatever refused or is spent is
/// excluded.
pub proof fn where_a_sidecar_runs(
    fleet: &Vec<String>,
    servers: &Vec<ServerConf>,
    shares: &Vec<HostShare>,
    refused: &Vec<String>,
    global: u64,
    borrow: bool,
    r: Option<Plan>,
    h: Seq<char>,
)
    requires
        call_ensures(plan, (fleet, servers, shares, refused, global, borrow), r),
    ensures
        fleet.deep_view().contains(h) && !refused.deep_view().contains(h) && !spent_of(
            servers@,
        ).contains(h) && (borrow ==> conf_of(servers@, h) is Some) ==> r is Some
            && r->0.fleet.deep_view().contains(h),
        r is Some && r->0.fleet.deep_view().contains(h) ==> fleet.deep_view().contains(h)
            && !refused.deep_view().contains(h) && !spent_of(servers@).contains(h) && (borrow
            ==> conf_of(servers@, h) is Some),
        r is Some ==> r->0.fleet@.len() > 0,
        r is Some && borrow ==> r->0.caps@.len() == r->0.fleet@.len() && forall|i: int|
            0 <= i < r->0.caps@.len() ==> 1 <= #[trigger] r->0.caps@[i] <= 2,
        r is Some && !borrow ==> r->0.caps@.len() == 0,
        r is Some && refused.deep_view().contains(h) ==> r->0.excluded.deep_view().contains(h),
        r is Some && spent_of(servers@).contains(h) ==> r->0.excluded.deep_view().contains(h),
{
    let all = fleet.deep_view();
    let no = refused.deep_view();
    let spent = spent_of(servers@);
    let f = fleet_of(all, servers@, no, borrow);
    if all.contains(h) && !no.contains(h) && !spent.contains(h) && (borrow ==> conf_of(
        servers@,
        h,
    ) is Some) {
        without_is_complete(all, no, spent, h);
        if borrow {
            known_is_complete(without(all, no, spent), servers@, h);
        }
        assert(f.contains(h));
    }
    if f.contains(h) {
        let i = choose|i: int| 0 <= i < f.len() && f[i] == h;
        a_sidecar_keeps_to_the_hosts_it_may_use(all, servers@, no, borrow, i);
    }
    if let Some(p) = r {
        assert(p.fleet.deep_view().len() == p.fleet@.len());
        let out = p.excluded.deep_view();
        let keep = if borrow {
            f
        } else {
            Seq::empty()
        };
        let busy = busy_but(shares@, keep);
        assert(out == busy + spent + no);
        if no.contains(h) {
            let k = choose|k: int| 0 <= k < no.len() && no[k] == h;
            assert(out[busy.len() + spent.len() + k] == h);
        }
        if spent.contains(h) {
            let k = choose|k: int| 0 <= k < spent.len() && spent[k] == h;
            assert(out[busy.len() + k] == h);
        }
        if borrow {
            assert forall|i: int| 0 <= i < p.caps@.len() implies 1 <= #[trigger] p.caps@[i]
                <= 2 by {
                assert(p.caps@[i] == slice_of(conf_of(servers@, f[i])->0.connections, global));
            }
        }
    }
}

/// One connection is borrowed where the account has one to spare or none, two
/// where it has more.
pub proof fn how_many_connections_are_borrowed(account: u32, global: u64, r: u64)
    requires
        call_ensures(borrow_slice, (account, global), r),
    ensures
        global >= account ==> r == 1,
        global >= 1 && global + 1 == account ==> r == 1,
        global >= 1 && global + 2 <= account ==> r == 2,
{
}

/// The configuration of a host is that of the first server of its name.
pub proof fn the_first_server_of_a_name_counts(s: ServerConf, rest: Seq<ServerConf>, host: Seq<char>)
    ensures
        conf_of(seq![s] + rest, s.host@) == Some(s),
        host != s.host@ ==> conf_of(seq![s] + rest, host) == conf_of(rest, host),
        conf_of(Seq::empty(), host) is None,
{
    assert((seq![s] + rest).skip(1) =~= rest);
    assert((seq![s] + rest)[0] == s);
}

/// What a paid block has left is what is not spent of it; an account without
/// one, and a spent one, has no line.
pub proof fn what_a_block_has_left(servers: Seq<ServerConf>, s: ServerConf)
    ensures
        s.block_bytes is Some && s.block_bytes->0 > s.spent ==> budgets_of(servers.push(s))
            == budgets_of(servers).push((s.host@, (s.block_bytes->0 - s.spent) as u64)),
        s.block_bytes is None || s.block_bytes->0 <= s.spent ==> budgets_of(servers.push(s))
            == budgets_of(servers),
        budgets_of(Seq::empty()) == Seq::<(Seq<char>, u64)>::empty(),
{
    assert(servers.push(s).drop_last() =~= servers);
}

/// A slot that is free is taken, one that is taken is not.
pub proof fn a_slot_is_taken_once(slot: Option<Sidecar>, new: Sidecar, r: (Option<Sidecar>, bool))
    requires
        call_ensures(claim, (slot, new), r),
    ensures
        r.1 <==> slot is None,
        r.1 ==> r.0 == Some(new),
        !r.1 ==> r.0 == slot,
{
}

/// A slot is given back by its own job alone.
pub proof fn a_slot_is_given_back_by_its_own_job(
    slot: Option<Sidecar>,
    nzo_id: &str,
    r: Option<Sidecar>,
)
    requires
        call_ensures(release, (slot, nzo_id), r),
    ensures
        slot is Some && slot->0.nzo_id@ == nzo_id@ ==> r is None,
        slot is Some && slot->0.nzo_id@ != nzo_id@ ==> r == slot,
        slot is None ==> r is None,
{
}

/// A slot holds the job whose sidecar it is of.
pub proof fn which_job_a_slot_holds(slot: &Option<Sidecar>, nzo_id: &str, r: bool)
    requires
        call_ensures(holds, (slot, nzo_id), r),
    ensures
        *slot is None ==> !r,
        *slot is Some ==> (r <==> slot->0.nzo_id@ == nzo_id@),
{
}

/// A sidecar completes its job only where it fetched all of it.
pub proof fn a_sidecar_completes_what_it_fetched(
    j: &mut Job,
    fetched_all: bool,
    progress: u64,
    now: i64,
    r: (),
)
    requires
        call_ensures(finish, (j, fetched_all, progress, now), r),
    ensures
        !fetched_all ==> *final(j) == *old(j),
        fetched_all ==> final(j).state == JobState::Completed && final(j).fetched
            && final(j).downloaded_bytes == progress && final(j).finished_unix == Some(now)
            && final(j).nzo_id == old(j).nzo_id && final(j).fail_message == old(j).fail_message,
{
}

} // verus!
