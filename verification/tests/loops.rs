use std::collections::HashMap;

use nzbfast_serve::book::Book;
use nzbfast_serve::daemon::FeedHealth;
use nzbfast_serve::health::{
    answers, article_ids, chosen, download_idle, stands_down, Avail, PostFile, Prober, Running,
};
use nzbfast_serve::index_pass::{
    age_days, auto_trim, chore_due, compact_asked, compact_step, cooling, deep_after, deep_of,
    drops_old, enabled_hosts, fills_gaps, hands_over, instant_arrivals, instant_recheck,
    may_publish, reached, reclassified, refresh_counts, sampler_budget, sampler_cap_cooldown,
    sampler_stands_down, scan_nap, scan_par, scan_recheck, scan_step, tip_chunk, tip_deadline,
    tip_group, tip_nap, tip_next, tip_piece, tip_start, tip_step, Chore, ChunkStep, Chunks,
    CompactStep, CompactVerdict, ConnectError, Parked, PassFacts, PassStep, Refresh, ScanPlan, ScanRun, ScanStep,
    TipPiece, TipStep, WatchHit,
};
use nzbfast_serve::job::{downloading, id_with, Health, Job, JobState, Media, Mismatch};
use nzbfast_serve::media::{
    contradictions, is_live, last_reading, latch_media, media_claim_name, media_settled,
    MediaProber, MEDIA_SLOW,
};
use nzbfast_serve::predb_feed::{
    hold_line, leg_budget, leg_gate, leg_window, listen_step, next_leg, prune_due, prune_stamp,
    put_back, Budget, Gate, IrcStop, Ladder, Leg, Listen, PENDING_MAX,
};
use nzbfast_serve::rss::{
    item_fetched, item_step, keep_health, loggable, origin, poll_due, poll_later, ItemStep,
    SeenGuids, SEEN_MAX,
};
use nzbfast_serve::schedule::{minutes_passed, pick_schedule, ScheduleText};
use nzbfast_serve::sidecar::{
    borrow_slice, claim, finish, holds, plan, release, spent_hosts, HostShare, ServerConf, Sidecar,
};
use nzbfast_serve::stall::StallEvent;
use nzbfast_serve::stream::{parked_of, play_now};
use nzbfast_serve::tune::{
    advice, billed, epoch_deltas, epoch_seen, hint_text, judged, line_is_idle, measured,
    measured_hosts, most_granted, next_probe, probe_cap, record, show_hint, standing, tune_hint,
    tune_next, under_pressure, Band, HintNews, Knee, Measured, PoolEvent, Rung, Standing,
    TuneClock, TuneFacts, TuneStep, Tuned,
};
use nzbfast_serve::upkeep::{
    announced_version, base_rtt, bench_due, catalog_tick, enrichment_sources, last_bench,
    media_tick, queueing_delay, speed_tick, trim_worth_saying, trip_ms, tuned, watchlist_pass,
    Asked, SpeedTick, Trim, Trip,
};
use nzbfast_serve::value::{object, text, uint, Value};
use nzbfast_serve::watch::{
    id_of_digest, pass_interval, rearm, watch_fail_id, watch_fail_ingested, watch_fail_kind, After,
    Look, Next, Pick, Sig, Watch, ALREADY_DONE, ALREADY_QUEUED, KEPT, TRUNCATED, UNSAVED,
};
use nzbfast_serve::watchdog::{
    defer_due, dog_next, keep_refusals, may_prefetch, observed, others_waiting, pool_bytes,
    stall_mark, states, tick_secs, top, total_of, worth_a_look, DogFacts, DogStep, HostBytes,
    Refusal, Refused, ServerLive, Watchdog,
};
use nzbfast_serve::worker::{
    at_least_one, disk_is_low, failure_text, impossible_text, is_pointer, ledger_reopens,
    recheck_due, settle, settle_pointer, settle_preflight, settle_recheck, start, still_runnable,
    work_next, Failure, Guard, Hold, Landed, Note, Pass, Sampled, Settled, WorkFacts, WorkStep,
};

const SECOND: u64 = 1_000_000_000;

fn texts(list: &[&str]) -> Vec<String> {
    list.iter().map(|s| s.to_string()).collect()
}

fn job(id: &str, state: JobState) -> Job {
    Job {
        nzo_id: id.to_string(),
        name: format!("job-{id}"),
        nzb_sha: format!("sha-{id}"),
        state,
        priority: 0,
        queued_at: None,
        idle_at_add: false,
        paused: false,
        tombstone: false,
        suspended: false,
        deferred: false,
        demote: false,
        defer_count: 0,
        defer_reason: String::new(),
        library: false,
        fetched: false,
        finalizing: false,
        total_bytes: 0,
        downloaded_bytes: 0,
        fail_message: String::new(),
        fail_detail: String::new(),
        health: None,
        media: None,
        media_rejudge: false,
        identity_name: String::new(),
        bad_blocks: None,
        verify_blocks: 0,
        archive_shape: String::new(),
        inner_crc: 0,
        finished_unix: None,
    }
}

fn server(host: &str, connections: u32, block: Option<u64>, spent: u64) -> ServerConf {
    ServerConf { host: host.to_string(), enabled: true, connections, block_bytes: block, spent }
}

// ---- the pre feed ---------------------------------------------------------

#[test]
fn a_refused_connection_waits_for_hours() {
    let mut l = Ladder::new();
    assert_eq!(l.ended(0, IrcStop::Transient), Some(30));
    assert_eq!(l.ended(0, IrcStop::Transient), Some(60));
    assert_eq!(l.ended(0, IrcStop::Rejected), Some(3_600));
    assert_eq!(l.ended(0, IrcStop::Rejected), Some(7_200));
    assert_eq!(l.ended(0, IrcStop::Rejected), Some(14_400));
    assert_eq!(l.ended(0, IrcStop::Rejected), Some(21_600));
    assert_eq!(l.ended(0, IrcStop::Rejected), Some(21_600));
    assert_eq!(l.ended(0, IrcStop::Cancelled), None);
    // One that had settled starts over.
    assert_eq!(l.ended(300, IrcStop::Transient), Some(30));
    assert_eq!(l.ended(299, IrcStop::Rejected), Some(3_600));
}

#[test]
fn lines_are_held_within_a_bound() {
    let mut pending = vec![0u32; PENDING_MAX - 1];
    hold_line(&mut pending, 7);
    hold_line(&mut pending, 8);
    assert_eq!(pending.len(), PENDING_MAX);
    assert_eq!(pending[PENDING_MAX - 1], 7);
    let mut pending = vec![9u32, 9];
    put_back(vec![1, 2, 3], &mut pending);
    assert_eq!(pending, vec![1, 2, 3, 9, 9]);
    let mut pending = vec![9u32; PENDING_MAX - 1];
    put_back(vec![1, 2, 3], &mut pending);
    assert_eq!(pending.len(), PENDING_MAX);
    assert_eq!((pending[0], pending[1]), (1, 9));
}

#[test]
fn legs_stand_down_for_a_pause() {
    assert_eq!(leg_gate(Leg::Sweep, true, false, false), Gate::Run);
    assert_eq!(leg_gate(Leg::Sweep, false, false, false), Gate::End);
    assert_eq!(leg_gate(Leg::Backlog, true, true, true), Gate::End);
    assert_eq!(leg_gate(Leg::SplitMerge, true, true, true), Gate::Skip);
    assert_eq!(leg_gate(Leg::CorrSweep, true, false, false), Gate::Skip);
    assert_eq!(leg_gate(Leg::CorrSweep, true, false, true), Gate::Run);
    let mut leg = Some(Leg::Sweep);
    let mut n = 0;
    while let Some(l) = leg {
        n += 1;
        leg = next_leg(l);
    }
    assert_eq!(n, 7);
    assert_eq!(leg_budget(Leg::CorrBacklog), Budget::Rows(400));
    assert_eq!(leg_budget(Leg::SplitMerge), Budget::Seconds(1));
    assert!(prune_due(4_000, 400, true) && !prune_due(3_999, 400, true));
    assert!(!prune_due(4_000, 400, false));
    assert_eq!(prune_stamp(10_000, false), 10_000);
    assert_eq!(prune_stamp(10_000, true), 7_000);
    assert_eq!(listen_step(false, 3), Listen::Off(15));
    assert_eq!(listen_step(true, 0), Listen::NoChannel(60));
    assert_eq!(leg_window(Leg::Backlog), Some(90 * 86_400));
    assert_eq!(leg_window(Leg::CorrBacklog), Some(366 * 86_400));
    assert_eq!(leg_window(Leg::CorrCatchup), None);
    assert_eq!(listen_step(true, 1), Listen::Connect);
}

// ---- the schedule ---------------------------------------------------------

#[test]
fn minutes_are_caught_up_on_around_the_week() {
    assert_eq!(minutes_passed(10, 13), vec![11, 12, 13]);
    assert_eq!(minutes_passed(10_078, 1), vec![10_079, 0, 1]);
    assert_eq!(minutes_passed(5, 5), Vec::<u32>::new());
    // Set back, or far ahead: the schedule starts from now.
    assert_eq!(minutes_passed(10, 9), Vec::<u32>::new());
    assert_eq!(minutes_passed(0, 480).len(), 480);
    assert_eq!(minutes_passed(0, 481).len(), 0);
    assert!(matches!(pick_schedule(Some(String::new()), true), ScheduleText::Nothing));
    assert!(matches!(pick_schedule(Some("x".to_string()), true), ScheduleText::Text(_)));
    assert!(matches!(pick_schedule(None, true), ScheduleText::FromFile));
    assert!(matches!(pick_schedule(None, false), ScheduleText::Nothing));
}

// ---- the watch folder -----------------------------------------------------

#[test]
fn a_message_tells_whether_the_release_is_in_hand() {
    let kept = format!("{KEPT}: busy");
    for (msg, kind, ingested) in [
        (TRUNCATED, "truncated", false),
        (ALREADY_QUEUED, "queued", true),
        (ALREADY_DONE, "done", true),
        (UNSAVED, "unsaved", true),
        (kept.as_str(), "kept", true),
        ("not an nzb", "rejected", false),
    ] {
        assert_eq!(watch_fail_kind(msg), kind);
        assert_eq!(watch_fail_ingested(kind), ingested, "{kind}");
    }
}

#[test]
fn a_listed_file_is_named_by_the_digest_of_its_path() {
    assert_eq!(watch_fail_id(b""), "e3b0c44298fc1c14");
    assert_eq!(watch_fail_id(b"abc"), "ba7816bf8f01cfea");
    assert_eq!(id_of_digest(&vec![0, 1, 15, 16, 255, 170, 9, 10, 77]), "00010f10ffaa090a");
}

const SIG: Sig = Sig { mtime: 5, len: 100 };

fn pick(name: &str) -> Pick {
    Pick { name: name.to_string(), folder: "in".to_string(), at: 1 }
}

#[test]
fn a_whole_file_is_taken_in_at_once() {
    let mut w = Watch::new();
    assert_eq!(w.look("/w/a.txt", Some("txt"), Some(SIG)), Look::Skip);
    assert_eq!(w.look("/w/a.NZB", Some("NZB"), Some(SIG)), Look::Read { settled: false });
    assert_eq!(w.read("/w/a.NZB", SIG, false, true), Next::GoOn);
    assert_eq!(w.check("/w/a.NZB", SIG, Some(SIG), "s", &vec![], &vec![]), Next::GoOn);
    assert_eq!(w.queued("/w/a.NZB", SIG, "s", pick("a"), Ok(true), false), After::Remove);
    w.removed("/w/a.NZB", SIG, Ok(()));
    w.end_pass();
    // Dropped again, it has to hold still once more.
    assert_eq!(w.look("/w/a.NZB", Some("nzb"), Some(SIG)), Look::Read { settled: false });
    assert_eq!(w.picked.len(), 1);
}

#[test]
fn an_unfinished_file_is_listed_once_it_holds_still() {
    let mut w = Watch::new();
    assert_eq!(w.look("/w/a.nzb", Some("nzb"), Some(SIG)), Look::Read { settled: false });
    assert_eq!(w.read("/w/a.nzb", SIG, false, false), Next::Skip);
    assert!(w.failed.get("/w/a.nzb").is_none());
    w.end_pass();
    assert_eq!(w.look("/w/a.nzb", Some("nzb"), Some(SIG)), Look::Read { settled: true });
    assert_eq!(w.read("/w/a.nzb", SIG, true, false), Next::Skip);
    assert_eq!(w.failed.get("/w/a.nzb").unwrap().msg, TRUNCATED);
    // Saved again, and whole.
    let sig = Sig { mtime: 9, len: 120 };
    assert_eq!(w.read("/w/a.nzb", sig, false, true), Next::GoOn);
    assert_eq!(w.read("/w/a.nzb", SIG, false, true), Next::Skip);
}

#[test]
fn a_file_that_is_queued_or_done_is_not_fetched_twice() {
    let mut w = Watch::new();
    let queue = vec![job("q", JobState::Queued)];
    let history = vec![job("f", JobState::Failed), job("d", JobState::Completed)];
    let changed = Some(Sig { mtime: 6, len: 100 });
    assert_eq!(w.check("/w/a", SIG, changed, "sha-q", &queue, &history), Next::Skip);
    assert!(w.failed.get("/w/a").is_none());
    assert_eq!(w.check("/w/a", SIG, Some(SIG), "sha-q", &queue, &history), Next::Skip);
    let f = w.failed.get("/w/a").unwrap();
    assert_eq!((f.msg.as_str(), f.id.as_str()), (ALREADY_QUEUED, "q"));
    assert_eq!(w.check("/w/b", SIG, Some(SIG), "sha-d", &queue, &history), Next::Skip);
    assert_eq!(w.failed.get("/w/b").unwrap().id, "d");
    // A failed download may be tried again.
    assert_eq!(w.check("/w/c", SIG, Some(SIG), "sha-f", &queue, &history), Next::GoOn);
    assert_eq!(id_with(&history, "sha-f", false), Some("f".to_string()));
    assert_eq!(id_with(&history, "sha-f", true), None);
}

#[test]
fn a_file_goes_only_once_the_queue_is_saved() {
    let mut w = Watch::new();
    assert_eq!(w.queued("/w/a", SIG, "s", pick("a"), Ok(false), false), After::Leave);
    assert_eq!(w.failed.get("/w/a").unwrap().msg, UNSAVED);
    let no = Err("bad nzb".to_string());
    assert_eq!(w.queued("/w/b", SIG, "s", pick("b"), no, false), After::Leave);
    assert_eq!(w.failed.get("/w/b").unwrap().msg, "bad nzb");
    assert_eq!(w.queued("/w/c", SIG, "s", pick("c"), Ok(true), true), After::SaveSeen);
    assert_eq!(w.look("/w/c", Some("nzb"), Some(SIG)), Look::Skip);
    w.removed("/w/d", SIG, Err("read-only".to_string()));
    assert_eq!(w.failed.get("/w/d").unwrap().msg, format!("{KEPT}: read-only"));
    // What is gone from the folder is forgotten.
    assert!(w.forget(&texts(&["/w/a"])));
    assert!(w.failed.has("/w/a") && !w.failed.has("/w/b") && !w.seen.has("/w/c"));
    assert!(!w.forget(&texts(&["/w/a"])));
}

#[test]
fn a_kept_file_is_known_after_a_restart() {
    let mut w = Watch::new();
    let odd = "/w/\u{e9} \"b\".nzb";
    for path in ["/w/a.nzb", odd] {
        assert_eq!(w.queued(path, SIG, "s", pick("a"), Ok(true), true), After::SaveSeen);
    }
    let bytes = w.saved();
    let mut again = Watch::load(Some(&bytes));
    assert_eq!(again.seen.lines.len(), 2);
    let s = again.seen.get(odd).unwrap();
    assert_eq!((s.sig, s.sha.as_str()), (SIG, "s"));
    assert_eq!(again.look("/w/a.nzb", Some("nzb"), Some(SIG)), Look::Skip);
    // Saved anew by its owner, it is looked at again.
    let changed = Some(Sig { mtime: SIG.mtime + 1, len: SIG.len });
    assert_eq!(again.look("/w/a.nzb", Some("nzb"), changed), Look::Read { settled: false });
}

#[test]
fn a_table_of_kept_files_counts_where_it_can_be_read() {
    let w = Watch::load(Some(br#"{"/w/a":[5,100,"x"],"/w/a":[6,7,"y"]}"#));
    let s = w.seen.get("/w/a").unwrap();
    assert_eq!((s.sig, s.sha.as_str()), (Sig { mtime: 6, len: 7 }, "y"));
    assert_eq!(w.saved(), br#"{"/w/a":[6,7,"y"]}"#);
    assert!(Watch::load(Some(br#"{"/w/a":[5,"x"]}"#)).seen.lines.is_empty());
    assert!(Watch::load(Some(b"nope")).seen.lines.is_empty());
    let none = Watch::load(None);
    assert!(none.seen.lines.is_empty() && none.picked.is_empty());
    assert_eq!(none.saved(), b"{}");
}

#[test]
fn kept_files_are_known_by_their_list() {
    let line = |path: &str, n: u64| (path.to_string(), n, 100, "x".to_string());
    let w = Watch::from_list(&vec![line("/w/a", 1), line("/w/b", 2), line("/w/a", 3)]);
    assert_eq!(w.seen.get("/w/a").unwrap().sig, Sig { mtime: 3, len: 100 });
    assert_eq!(w.seen.lines.len(), 2);
    assert!(w.failed.lines.is_empty() && w.prev.lines.is_empty());
}

#[test]
fn eight_pickups_are_remembered() {
    let mut w = Watch::new();
    for i in 0..10 {
        w.queued("/w/a", SIG, "s", pick(&i.to_string()), Ok(true), false);
    }
    assert_eq!(w.picked.len(), 8);
    assert_eq!(w.picked[0].name, "2");
    assert_eq!(rearm(&None, &Some("/w".to_string()), false), (true, true));
    assert_eq!(rearm(&Some("/w".to_string()), &Some("/w".to_string()), false), (true, false));
    assert_eq!(rearm(&Some("/w".to_string()), &Some("/w".to_string()), true), (false, false));
    assert_eq!(rearm(&Some("/w".to_string()), &None, true), (true, true));
    assert_eq!((pass_interval(0), pass_interval(5), pass_interval(9_999)), (1, 5, 3_600));
}

#[test]
fn a_book_holds_each_name_once() {
    let mut b: Book<i64> = Book::new();
    b.put("a", 1);
    b.put("b", 2);
    b.put("a", 3);
    assert_eq!(b.lines.len(), 2);
    assert_eq!(b.get("a"), Some(&3));
    b.expire(2);
    assert!(b.has("a") && !b.has("b"));
    b.remove("a");
    assert!(b.get("a").is_none());
}

// ---- the sidecar ----------------------------------------------------------

fn share(host: &str, busy: bool) -> HostShare {
    HostShare { host: host.to_string(), busy }
}

#[test]
fn a_sidecar_runs_on_idle_servers() {
    let servers =
        vec![server("busy", 20, None, 0), server("idle", 10, None, 0), server("out", 5, Some(9), 9),
            server("block", 5, Some(9), 4)];
    let shares = vec![share("busy", true), share("idle", false), share("out", false)];
    let fleet = texts(&["idle", "out", "bad"]);
    let p = plan(&fleet, &servers, &shares, &texts(&["bad"]), 8, false).unwrap();
    assert_eq!(p.fleet, vec!["idle"]);
    assert!(p.caps.is_empty());
    assert_eq!(p.excluded, vec!["busy", "out", "bad"]);
    assert_eq!((p.budgets.len(), p.budgets[0].host.as_str(), p.budgets[0].bytes), (1, "block", 5));
    assert!(plan(&texts(&["bad"]), &servers, &shares, &texts(&["bad"]), 8, false).is_none());
    assert_eq!(spent_hosts(&servers), vec!["out"]);
}

#[test]
fn a_sidecar_borrows_a_slice_of_busy_servers() {
    let servers = vec![server("a", 20, None, 0), server("b", 9, None, 0), server("c", 8, None, 0)];
    let shares = vec![share("a", true), share("b", true), share("c", true), share("d", true)];
    let fleet = texts(&["a", "b", "d"]);
    let p = plan(&fleet, &servers, &shares, &vec![], 8, true).unwrap();
    // A host that is not configured is no part of it.
    assert_eq!(p.fleet, vec!["a", "b"]);
    assert_eq!(p.caps, vec![2, 1]);
    assert_eq!(p.excluded, vec!["c", "d"]);
    assert!(plan(&fleet, &vec![], &shares, &vec![], 8, true).is_none());
    assert_eq!((borrow_slice(8, 8), borrow_slice(9, 8), borrow_slice(50, 8)), (1, 1, 2));
}

fn sidecar(id: &str, borrowed: bool) -> Sidecar {
    Sidecar { nzo_id: id.to_string(), progress: 0, cancelled: false, borrowed }
}

#[test]
fn the_first_sidecar_keeps_its_slot() {
    let (slot, mine) = claim(None, sidecar("a", false));
    assert!(mine);
    let (slot, mine) = claim(slot, sidecar("b", false));
    assert!(!mine && holds(&slot, "a"));
    let slot = release(slot, "b");
    assert!(holds(&slot, "a"));
    assert!(release(slot, "a").is_none());
    let mut j = job("a", JobState::Queued);
    finish(&mut j, false, 5, 9);
    assert_eq!((j.state, j.downloaded_bytes), (JobState::Queued, 0));
    finish(&mut j, true, 5, 9);
    assert_eq!((j.state, j.fetched, j.downloaded_bytes), (JobState::Completed, true, 5));
    assert_eq!(j.finished_unix, Some(9));
}

// ---- the watchdog ---------------------------------------------------------

fn live(host: &str, connected: u64, bytes: u64, refused: bool) -> ServerLive {
    ServerLive {
        host: host.to_string(),
        connected,
        bytes,
        refusal: if refused {
            Some(Refused { permanent: true, line: "502 no".to_string() })
        } else {
            None
        },
    }
}

#[test]
fn a_refusal_is_remembered_until_the_server_serves() {
    let mut book: Book<Refusal> = Book::new();
    keep_refusals(&mut book, &vec![live("a", 0, 0, true), live("b", 1, 0, false)], 7);
    assert_eq!(book.get("a").unwrap().at, 7);
    // A new job starts without a refusal, and without a connection.
    keep_refusals(&mut book, &vec![live("a", 0, 0, false)], 8);
    assert!(book.has("a"));
    keep_refusals(&mut book, &vec![live("a", 1, 0, false)], 9);
    assert!(!book.has("a"));
    let servers = vec![live("a", 3, 10, false), live("b", 0, 5, true)];
    assert_eq!(states(&servers), "a 3 conn, b refused");
    assert_eq!(states(&vec![]), "pool not up yet");
    assert_eq!(pool_bytes(&servers), 15);
    let ev = Some(StallEvent::Opened { idle_secs: 10, since: 4 });
    assert_eq!(stall_mark(&ev, Some("j".to_string()), None), Some(("j".to_string(), 4)));
    let was = Some(("j".to_string(), 4));
    assert_eq!(stall_mark(&None, None, was.clone()), was);
    assert_eq!(stall_mark(&Some(StallEvent::Cleared { idle_secs: 1 }), None, was), None);
}

fn bytes(list: &[(&str, u64)]) -> Vec<HostBytes> {
    list.iter().map(|(h, b)| HostBytes { host: h.to_string(), bytes: *b }).collect()
}

#[test]
fn the_window_gives_what_each_host_moved() {
    let mut w = Watchdog::new();
    assert!(!w.sample(0, vec![], 30));
    assert!(w.sample(SECOND, bytes(&[("a", 100), ("b", 5)]), 30));
    assert!(w.sample(20 * SECOND, bytes(&[("a", 150), ("b", 5), ("c", 7)]), 30));
    let d: Vec<(String, u64)> = w.deltas().into_iter().map(|h| (h.host, h.bytes)).collect();
    assert_eq!(
        d,
        vec![("a".to_string(), 50), ("b".to_string(), 0), ("c".to_string(), 7)]
    );
    assert_eq!(w.first_at(), SECOND);
    assert!(w.sample(32 * SECOND, bytes(&[("a", 160)]), 30));
    assert_eq!(w.first_at(), 20 * SECOND);
    assert_eq!(total_of(&bytes(&[("a", 3), ("b", 4)])), 7);
    assert_eq!(top(&bytes(&[("a", 4), ("b", 4), ("c", 1)])), 1);
    assert_eq!((tick_secs(1), tick_secs(12), tick_secs(90)), (1, 2, 5));
}

#[test]
fn the_job_that_owns_the_pool_is_watched() {
    let mut w = Watchdog::new();
    let mut queue = vec![job("a", JobState::Downloading), job("b", JobState::Downloading)];
    assert_eq!(w.enter(true, true, Some("b"), &queue), Some(1));
    assert_eq!(w.cur.as_deref(), Some("b"));
    w.sample(SECOND, bytes(&[("a", 1)]), 30);
    w.tried("x");
    assert_eq!(w.enter(true, true, Some("b"), &queue), Some(1));
    assert_eq!((w.win.len(), w.attempted.len()), (1, 1));
    // Another job starts from nothing.
    assert_eq!(w.enter(true, true, Some("a"), &queue), Some(0));
    assert_eq!((w.win.len(), w.attempted.len()), (0, 0));
    queue[0].demote = true;
    assert_eq!(w.enter(true, true, Some("a"), &queue), None);
    assert_eq!(w.enter(true, false, Some("a"), &queue), None);
    assert_eq!(w.cur, None);
    assert_eq!(w.enter(false, true, Some("b"), &queue), None);
    assert_eq!(observed(&queue, true, Some("b")), Some(1));
    queue[1].suspended = true;
    assert_eq!(observed(&queue, true, Some("b")), None);
}

#[test]
fn the_next_job_starts_on_idle_or_borrowed_servers() {
    let mut w = Watchdog::new();
    let shares = vec![share("a", true), share("b", false), share("c", false)];
    let f = w.fleet(&shares, &texts(&["c"]));
    assert_eq!((f.hosts, f.borrow, f.note), (texts(&["b"]), false, false));
    let f = w.fleet(&shares, &texts(&["b", "c"]));
    assert_eq!((f.hosts, f.borrow, f.note), (texts(&["a"]), true, true));
    let f = w.fleet(&shares, &texts(&["b", "c"]));
    assert!(!f.note);
    let mut queue = vec![
        job("a", JobState::Downloading),
        job("b", JobState::Queued),
        job("c", JobState::Queued),
        job("d", JobState::Queued),
    ];
    queue[2].priority = 1;
    queue[3].priority = 1;
    assert_eq!(w.next_job(&queue), Some(2));
    w.tried("c");
    assert_eq!(w.next_job(&queue), Some(3));
    queue[3].deferred = true;
    assert_eq!(w.next_job(&queue), Some(1));
    assert!(may_prefetch(true, false, 0, false) && !may_prefetch(true, false, 5, false));
    assert!(worth_a_look(10, 2, false, 45, 45) && !worth_a_look(10, 2, false, 44, 45));
    assert!(!worth_a_look(0, 2, false, 45, 45) && worth_a_look(0, 1, true, 45, 45));
}

#[test]
fn a_crawling_job_moves_to_the_back() {
    let mut queue = vec![job("a", JobState::Downloading), job("b", JobState::Queued)];
    let none: Option<Sidecar> = None;
    let due = |total, hosts, defers, sc: &Option<Sidecar>, q: &Vec<Job>| {
        defer_due(total, hosts, defers, sc, q, true, 1_000_000, true)
    };
    assert!(due(10, 2, 0, &none, &queue));
    assert!(!due(0, 2, 0, &none, &queue));
    assert!(!due(10, 1, 0, &none, &queue));
    assert!(!due(10, 2, 3, &none, &queue));
    assert!(!due(10, 2, 0, &Some(sidecar("b", false)), &queue));
    assert!(due(10, 2, 0, &Some(sidecar("b", true)), &queue));
    assert!(!defer_due(10, 2, 0, &none, &queue, true, 999_999, true));
    queue[1].paused = true;
    assert!(!others_waiting(&queue) && !due(10, 2, 0, &none, &queue));
    let mut w = Watchdog::new();
    w.sample(SECOND, bytes(&[("a", 1)]), 30);
    w.defer(&mut queue[0], "slow");
    assert!(queue[0].demote && queue[0].defer_reason == "slow" && w.win.is_empty());
}

// ---- the worker -----------------------------------------------------------

#[test]
fn guards_hold_the_queue_and_say_so_once() {
    let mut g = Guard::new();
    let free = |g: &mut Guard, n| g.step(100, Some(n), false, false, 0, None);
    assert_eq!(free(&mut g, 50), (Pass::Wait(5), Note::Disk));
    assert_eq!(free(&mut g, 60), (Pass::Wait(5), Note::Nothing));
    assert_eq!(g.shown.unwrap().have, 60);
    assert_eq!(free(&mut g, 100), (Pass::Pick { only_force: false }, Note::Cleared));
    assert_eq!(g, Guard::new());
    // A probe that did not answer holds nothing.
    assert_eq!(g.step(100, None, false, false, 0, None).0, Pass::Pick { only_force: false });
    // Offline outranks everything, forced jobs as well.
    assert_eq!(g.step(0, None, true, false, 0, None), (Pass::Wait(1), Note::Nothing));
    let spent = g.step(0, None, false, false, 10, Some(10));
    assert_eq!(spent, (Pass::Pick { only_force: true }, Note::Quota));
    assert_eq!(g.reason, Some(Hold::Quota));
    // While the queue is paused, what held it is not over.
    let paused = g.step(0, None, false, true, 0, None);
    assert_eq!(paused, (Pass::Pick { only_force: true }, Note::Nothing));
    assert_eq!(g.step(0, None, false, false, 0, None).1, Note::Cleared);
    assert!(ledger_reopens(5, None, b'd') && !ledger_reopens(0, None, b'd'));
    assert!(ledger_reopens(0, Some(b'm'), b'd') && !ledger_reopens(5, Some(b'd'), b'd'));
}

#[test]
fn a_job_starts_if_it_still_waits() {
    let mut j = job("a", JobState::Queued);
    assert!(still_runnable(&j));
    assert_eq!(start(&mut j, 9), None);
    assert_eq!(j.state, JobState::Downloading);
    assert!(!still_runnable(&j));
    j.queued_at = Some(7);
    assert_eq!(start(&mut j, 7 + 9 * SECOND), None);
    j.idle_at_add = true;
    j.queued_at = Some(7);
    assert_eq!(start(&mut j, 7 + 2 * SECOND), None);
    j.queued_at = Some(7);
    assert_eq!(start(&mut j, 8 + 2 * SECOND), Some(2 * SECOND + 1));
    // The stamp is gone with the first start.
    assert_eq!(start(&mut j, 9 + 9 * SECOND), None);
    assert_eq!((at_least_one(0), at_least_one(7)), (1, 7));
    assert!(disk_is_low(9, Some(8)) && !disk_is_low(9, Some(9)) && !disk_is_low(9, None));
    assert!(downloading(&vec![job("a", JobState::Downloading)]));
    assert!(!downloading(&vec![j_failed()]));
}

fn j_failed() -> Job {
    job("f", JobState::Failed)
}

#[test]
fn playing_a_pointer_brings_it_to_the_front() {
    let mut p = job("p", JobState::Completed);
    p.library = true;
    p.paused = true;
    let kind = parked_of(&p);
    assert!(kind.library && kind.completed && !kind.fetched && !kind.tombstone);
    let mut history = vec![job("x", JobState::Completed), p, job("y", JobState::Failed)];
    let mut queue = vec![job("a", JobState::Queued)];
    play_now(&mut history, &mut queue, 1);
    let ids: Vec<&str> = history.iter().map(|j| j.nzo_id.as_str()).collect();
    assert_eq!(ids, vec!["x", "y"]);
    assert_eq!((queue.len(), queue[0].nzo_id.as_str()), (2, "p"));
    assert_eq!((queue[0].state, queue[0].priority, queue[0].paused), (JobState::Queued, 2, false));
    assert!(!is_pointer(&queue[0]));
}

#[test]
fn a_pointer_is_settled_by_a_sample() {
    let mut j = job("a", JobState::Downloading);
    j.library = true;
    assert!(is_pointer(&j));
    assert!(settle_pointer(&mut j, Sampled::Fine, 5));
    assert_eq!((j.state, j.finished_unix), (JobState::Completed, Some(5)));
    assert!(recheck_due(&j));
    assert!(!settle_recheck(&mut j, &Sampled::Unknown("net".to_string())));
    assert!(settle_recheck(&mut j, &Sampled::Impossible("gone".to_string())));
    assert_eq!(j.fail_message, "content no longer retrievable");
    j.priority = 2;
    assert!(!is_pointer(&j));
    let mut j = job("b", JobState::Downloading);
    assert!(!settle_pointer(&mut j, Sampled::Unknown("net".to_string()), 5));
    assert_eq!((j.state, j.fail_message.as_str()), (JobState::Failed, "net"));
    let mut j = job("c", JobState::Downloading);
    let log = || "a log".to_string();
    assert!(!settle_preflight(&mut j, Sampled::Unknown("net".to_string()), log(), 5));
    assert_eq!((j.state, j.fail_detail.as_str()), (JobState::Downloading, ""));
    assert!(settle_preflight(&mut j, Sampled::Impossible(impossible_text(12, 3)), log(), 5));
    assert_eq!(j.fail_detail, "a log");
    assert_eq!(
        j.fail_message,
        "pre-flight: articles missing beyond repair - an estimated 12 payload segment(s) unavailable vs 3 recovery block(s) in the NZB"
    );
}

fn landed() -> Landed {
    Landed {
        fetched_bytes: 10,
        resumed_bytes: 5,
        checked: 0,
        bad: 0,
        shape: None,
        crc: None,
        now: 99,
    }
}

fn failure(error: &str) -> Failure {
    Failure {
        error: error.to_string(),
        unavailable: false,
        clause: None,
        disk_full: false,
        need_gb: String::new(),
        detail: "its log".to_string(),
    }
}

#[test]
fn a_paused_job_goes_back_with_what_is_on_disk() {
    let mut j = job("a", JobState::Downloading);
    j.suspended = true;
    assert_eq!(settle(&mut j, Some(failure("aborted")), landed()), Settled::Requeued);
    assert_eq!((j.state, j.suspended, j.downloaded_bytes), (JobState::Queued, false, 15));
    // One that finished all the same is filed.
    j.suspended = true;
    assert_eq!(settle(&mut j, None, landed()), Settled::Filed { hooks: true });
    assert_eq!((j.state, j.fetched, j.downloaded_bytes), (JobState::Completed, true, 10));
}

#[test]
fn a_failed_job_says_why_and_keeps_what_was_proved() {
    let mut j = job("a", JobState::Downloading);
    j.bad_blocks = Some(0);
    j.verify_blocks = 7;
    j.archive_shape = "rar5".to_string();
    j.demote = true;
    j.health = Some(Health {
        bucket: "short".to_string(),
        reason: String::new(),
        checked_at: 0,
        probes: 1,
        waived: false,
    });
    let f = Failure {
        unavailable: true,
        clause: Some("; it was short before".to_string()),
        disk_full: true,
        need_gb: "4.2".to_string(),
        ..failure("430 no such article")
    };
    assert!(failure_text(&f, false).starts_with("430 no such article; free about 4.2 GB"));
    assert_eq!(settle(&mut j, Some(f), landed()), Settled::Filed { hooks: false });
    assert!(j.fail_message.starts_with("430 no such article; it was short before; free about"));
    assert_eq!((j.bad_blocks, j.verify_blocks, j.archive_shape.as_str()), (Some(0), 7, "rar5"));
    assert_eq!((j.finished_unix, j.fail_detail.as_str()), (Some(99), "its log"));
    let l = Landed { checked: 3, bad: 1, shape: Some("7z".to_string()), crc: Some(8), ..landed() };
    settle(&mut j, None, l);
    assert_eq!((j.bad_blocks, j.verify_blocks, j.archive_shape.as_str()), (Some(1), 3, "7z"));
    assert_eq!(j.inner_crc, 8);
}

// ---- the index ------------------------------------------------------------

#[test]
fn a_pass_runs_while_either_source_may() {
    let both = ScanPlan { groups: true, spots: true };
    assert_eq!(scan_step(true, true), ScanStep::Wait(5));
    assert_eq!(scan_step(false, false), ScanStep::Scan(both));
    assert_eq!(scan_recheck(both, true, true), ScanStep::Wait(1));
    let spots = ScanPlan { groups: false, spots: true };
    assert_eq!(scan_recheck(both, true, false), ScanStep::Scan(spots));
    assert_eq!(scan_recheck(spots, false, false), ScanStep::Scan(spots));
    assert!(hands_over(both, true) && !hands_over(spots, true));
    assert_eq!((scan_par(0, 5), scan_par(3, 5), scan_par(99, 20), scan_par(4, 0)), (1, 3, 8, 1));
    assert_eq!((deep_of(0), deep_of(7)), (None, Some(7)));
    assert_eq!((deep_after(0, 7, true), deep_after(9, 7, true), deep_after(0, 7, false)), (7, 9, 0));
    assert!(fills_gaps(1, true, 1, false) && !fills_gaps(0, true, 1, false));
    assert!(chore_due(Chore::Retention, 3_600, 0) && !chore_due(Chore::Retention, 3_599, 0));
    assert!(!chore_due(Chore::Statistics, 3_600, 0) && chore_due(Chore::Statistics, 86_400, 0));
    assert_eq!(auto_trim(Some((1, 2)), Some(0), 9), Some((1, 2)));
    assert_eq!(auto_trim(Some((1, 2)), None, 9), Some((1, 2)));
    assert_eq!(auto_trim(Some((1, 2)), Some(4), 9), Some((9, 4)));
    assert!(drops_old(true, 1) && !drops_old(true, 0) && !drops_old(false, 1));
    assert!(refresh_counts(Refresh::Failed, false) && !refresh_counts(Refresh::Done, true));
    assert!(!refresh_counts(Refresh::Unfinished, false));
    assert_eq!((reclassified(None), reclassified(Some(0)), reclassified(Some(3))),
        ((true, false), (false, false), (false, true)));
    assert!(may_publish(4, 4) && !may_publish(4, 5));
    assert_eq!((scan_nap(0, false, 900), scan_nap(0, true, 900), scan_nap(2, false, 5)), (15, 900, 30));
}

#[test]
fn compaction_makes_way_for_a_download() {
    assert!(compact_asked(true, false) && !compact_asked(true, true));
    assert_eq!(compact_step(CompactVerdict::Busy, true, 9_999), CompactStep::Nothing);
    let full = CompactVerdict::NoRoom { need: 2, free: 1 };
    assert_eq!(compact_step(full, true, 3_600), CompactStep::SayNoRoom);
    assert_eq!(compact_step(full, true, 3_599), CompactStep::Nothing);
    assert_eq!(compact_step(CompactVerdict::Go, true, 0), CompactStep::Chunks);
    assert_eq!(compact_step(CompactVerdict::Go, false, 0), CompactStep::Rewrite);
    let mut c = Chunks::new(Some(100));
    assert_eq!(c.look(0), ChunkStep::Run);
    assert_eq!(c.ran(Some(60)), ChunkStep::Run);
    assert_eq!(c.look(1), ChunkStep::Stop);
    assert!(c.stood_down && c.again());
    let mut c = Chunks::new(Some(100));
    // Pages that cannot be moved end it.
    assert_eq!(c.ran(Some(100)), ChunkStep::Stop);
    assert!(!c.again() && c.done == 1);
    assert_eq!(c.ran(None), ChunkStep::Stop);
    assert!(c.again());
    assert!(Chunks::new(None).again());
    assert_eq!(Chunks::new(Some(0)).look(0), ChunkStep::Stop);
}

#[test]
fn arrivals_wait_until_they_are_complete() {
    let hit = |id, complete| WatchHit { id, name: format!("r{id}"), complete };
    let mut pending: HashMap<i64, i64> = HashMap::new();
    assert_eq!(instant_arrivals(&mut pending, &vec![hit(1, false), hit(2, true)], 10), vec!["r2"]);
    assert_eq!(pending.get(&1), Some(&10));
    // The first sighting counts.
    assert!(instant_arrivals(&mut pending, &vec![hit(1, false)], 50).is_empty());
    assert_eq!(pending.get(&1), Some(&10));
    assert_eq!(instant_arrivals(&mut pending, &vec![hit(1, true)], 60), vec!["r1"]);
    assert!(pending.is_empty());
    let parked = |id, first, complete| Parked { id, first, complete, name: Some(format!("r{id}")) };
    pending.insert(1, 0);
    pending.insert(2, 80);
    pending.insert(3, 90);
    let list = vec![parked(1, 0, true), parked(2, 80, true), parked(3, 90, false)];
    assert_eq!(instant_recheck(&mut pending, &list, 100, 100), vec!["r2"]);
    assert_eq!(pending.len(), 1);
    assert!(pending.contains_key(&3));
}

#[test]
fn a_paused_tick_ends_and_a_late_one_leaves_the_group() {
    assert_eq!(tip_piece(11, 20, false, false), TipPiece::Ask(20));
    assert_eq!(tip_piece(1, 30_000, false, false), TipPiece::Ask(20_000));
    assert_eq!(tip_piece(11, 20, false, true), TipPiece::Stop);
    assert_eq!(tip_piece(11, 20, true, true), TipPiece::Leave);
    assert_eq!(tip_piece(21, 20, false, true), TipPiece::Leave);
}

#[test]
fn the_newest_posts_are_followed_without_a_gap() {
    assert_eq!(tip_step(0, 3, false, false), TipStep::HangUp(30));
    assert_eq!(tip_step(20, 3, true, false), TipStep::HangUp(5));
    assert_eq!(tip_step(3, 3, false, true), TipStep::Wait(3));
    assert_eq!(tip_step(20, 3, false, true), TipStep::Wait(5));
    assert_eq!(tip_step(20, 3, false, false), TipStep::Go);
    assert_eq!((tip_deadline(20), tip_deadline(90)), (20, 30));
    let order: Vec<usize> = (0..3).map(|o| tip_group(1, o, 3)).collect();
    assert_eq!(order, vec![1, 2, 0]);
    assert_eq!((tip_next(1, 3), tip_next(2, 3)), (2, 0));
    // There were more groups when the last tick ended.
    assert_eq!((tip_group(7, 0, 3), tip_group(7, 2, 3), tip_next(7, 3)), (1, 0, 2));
    assert_eq!(tip_start(0, 100), None);
    assert_eq!(tip_start(100, 100), None);
    assert_eq!(tip_start(100, 500_101), None);
    assert_eq!(tip_start(100, 500_100), Some(101));
    assert_eq!(tip_chunk(101, 500_100), 20_100);
    assert_eq!(tip_chunk(101, 150), 150);
    assert_eq!((tip_nap(true, 20), tip_nap(false, 20)), (1, 20));
}

#[test]
fn a_full_account_is_left_alone_for_a_while() {
    assert_eq!(sampler_cap_cooldown(ConnectError::Capacity, false), Some(900));
    assert_eq!(sampler_cap_cooldown(ConnectError::Permanent, false), None);
    assert_eq!(sampler_cap_cooldown(ConnectError::Permanent, true), Some(900));
    assert_eq!(sampler_cap_cooldown(ConnectError::Other, true), None);
    let mut b: Book<u64> = Book::new();
    reached(&mut b, "h", Some(ConnectError::Capacity), false, 100);
    assert!(cooling(&b, "h", 999) && !cooling(&b, "h", 1_000) && !cooling(&b, "x", 0));
    reached(&mut b, "h", None, false, 500);
    assert!(!cooling(&b, "h", 600));
    assert!(sampler_stands_down(0, false, false, false) && sampler_stands_down(3, false, false, true));
    assert!(!sampler_stands_down(3, false, false, false));
    assert_eq!((sampler_budget(0), sampler_budget(1), sampler_budget(300)), (0, 1, 5));
    assert_eq!((age_days(100, 200), age_days(86_400 * 3 + 5, 0)), (0, 3));
    let mut off = server("off", 1, None, 0);
    off.enabled = false;
    assert_eq!(enabled_hosts(&vec![server("on", 1, None, 0), off]), vec!["on"]);
}

// ---- tuning ---------------------------------------------------------------

const CLOCK: TuneClock = TuneClock { stale: 604_800, suspect_stale: 21_600, schema: 2 };

fn reading(connections: u64, checked: u64) -> Tuned {
    Tuned {
        connections,
        granted: connections,
        asked: connections,
        checked,
        manual: false,
        suspect: false,
        limit: 20,
        v: 2,
        pending: false,
    }
}

#[test]
fn the_server_that_is_least_known_is_measured() {
    let servers = vec![server("block", 20, Some(5), 0), server("a", 20, None, 0), server("b", 20, None, 0)];
    let ceilings = vec![20, 20, 20];
    let mut known: Book<Tuned> = Book::new();
    let mut tried: Book<u64> = Book::new();
    let now = 1_000_000;
    assert_eq!(next_probe(&servers, &ceilings, &known, &tried, CLOCK, now), Some(1));
    tried.put("a", now - 21_600);
    assert_eq!(next_probe(&servers, &ceilings, &known, &tried, CLOCK, now), Some(2));
    // A low reading that was confirmed settles.
    known.put("b", reading(8, now - 600_000));
    assert_eq!(next_probe(&servers, &ceilings, &known, &tried, CLOCK, now), None);
    known.put("b", Tuned { suspect: true, ..reading(8, now - 21_601) });
    assert_eq!(next_probe(&servers, &ceilings, &known, &tried, CLOCK, now), Some(2));
    known.put("b", Tuned { v: 1, ..reading(10, now - 21_601) });
    assert_eq!(next_probe(&servers, &ceilings, &known, &tried, CLOCK, now), Some(2));
    known.put("b", Tuned { v: 1, ..reading(11, now - 21_601) });
    assert_eq!(next_probe(&servers, &ceilings, &known, &tried, CLOCK, now), None);
    assert_eq!((probe_cap(0), probe_cap(20), probe_cap(90)), (30, 40, 100));
    assert!(line_is_idle(false, false) && !line_is_idle(false, true));
}

#[test]
fn a_measurement_counts_unless_it_was_disturbed() {
    let knee = Knee { connections: 8, asked: 16 };
    assert_eq!(measured(false, Some(knee), None, 5), Measured::Disturbed);
    assert_eq!(measured(true, None, None, 5), Measured::NoData);
    let manual = Tuned { manual: true, ..reading(9, 5) };
    assert_eq!(measured(true, Some(knee), Some(&manual), 5), Measured::UserRan);
    assert_eq!(measured(true, Some(knee), Some(&manual), 6), Measured::Record(knee));
    let t = record(knee, 12, 6, true, 20, 2);
    assert_eq!((t.connections, t.asked, t.granted, t.checked, t.suspect), (8, 16, 12, 6, true));
    assert_eq!(standing(8, 20, true), Standing::Unproven);
    assert_eq!(standing(8, 20, false), Standing::Below);
    assert_eq!(standing(20, 20, false), Standing::At);
    assert_eq!(standing(21, 20, false), Standing::Above);
    let rungs = vec![
        Rung { connections: 4, granted: 4, bytes: 10 },
        Rung { connections: 8, granted: 6, bytes: 20 },
    ];
    assert_eq!((billed(&rungs), most_granted(&rungs)), (30, 6));
}

#[test]
fn the_servers_are_judged_against_the_line() {
    let servers = vec![server("a", 20, None, 0), server("b", 20, None, 0), server("c", 5, Some(1), 0)];
    let hosts = measured_hosts(&servers);
    assert_eq!(hosts, vec!["a", "b"]);
    let mut known: Book<Tuned> = Book::new();
    known.put("a", Tuned { asked: 32, ..reading(21, 0) });
    assert!(!judged(100, &hosts, &known));
    known.put("b", reading(8, 0));
    assert!(judged(100, &hosts, &known) && !judged(0, &hosts, &known));
    let tips = advice(&hosts, &known);
    assert_eq!(
        tips,
        vec!["a granted only 21 of the 32 connections asked for - the account tier may cap it"]
    );
    assert_eq!(advice(&texts(&["b"]), &known), vec!["a second provider adds parallel headroom"]);
    known.put("a", reading(21, 0));
    assert_eq!(
        advice(&hosts, &known),
        vec!["a faster provider (or one more) is the likely lever"]
    );
    assert_eq!(
        hint_text(Band::Under, "400", "40", "1000", &texts(&["x", "y"])),
        "providers measured ~400 Mbps together, 40% of the ~1000 Mbps line - well short. x; y"
    );
    assert!(hint_text(Band::Over, "9", "9", "9", &vec![]).contains("the setting looks low"));
    let mut cur = String::new();
    assert_eq!(show_hint(&mut cur, "h"), HintNews::New);
    assert_eq!(show_hint(&mut cur, "h"), HintNews::Same);
    assert_eq!(show_hint(&mut cur, &hint_text(Band::Within, "", "", "", &vec![])), HintNews::Cleared);
    assert_eq!(cur, "");
    let mut shown = "old".to_string();
    let hint = |cur: &mut String, line: u64, band: Band| {
        tune_hint(cur, line, &servers, &known, band, "400", "40", "1000")
    };
    assert_eq!(hint(&mut shown, 100, Band::Under), HintNews::New);
    assert!(shown.ends_with("a faster provider (or one more) is the likely lever"));
    assert_eq!(hint(&mut shown, 100, Band::Under), HintNews::Same);
    assert_eq!(hint(&mut shown, 0, Band::Under), HintNews::Cleared);
    assert!(shown.is_empty());
    assert_eq!(hint(&mut shown, 100, Band::Within), HintNews::Same);
}

#[test]
fn an_epoch_is_read_off_two_samples() {
    let d = epoch_deltas(&bytes(&[("a", 10), ("b", 5), ("c", 1)]), &bytes(&[("a", 4), ("x", 1)]));
    assert_eq!(d.len(), 1);
    assert_eq!((d[0].host.as_str(), d[0].bytes), ("a", 6));
    let ev = |kind: &str, at_ms| PoolEvent { kind: kind.to_string(), host: "a".to_string(), at_ms };
    let events = vec![ev("cap", 900), ev("up", 2_000)];
    assert!(under_pressure(&events, "a", 1_900, 1_000));
    assert!(!under_pressure(&events, "a", 1_901, 1_000));
    assert!(!under_pressure(&events, "b", 1_000, 1_000));
    let seen = epoch_seen(5, false, false, true, 8, 8);
    assert!(seen.busy && seen.capacity_pressure && seen.fleet_met && !seen.rate_limited);
    assert!(!epoch_seen(5, true, false, false, 7, 8).busy);
}

// ---- feeds ----------------------------------------------------------------

#[test]
fn judged_items_are_saved_and_loaded() {
    let mut s = SeenGuids::load(None);
    assert!(s.take_dirty().is_none());
    s.insert("a\"b");
    s.insert("ü");
    s.insert("a\"b");
    let saved = s.take_dirty().unwrap();
    assert_eq!(saved, "[\"a\\\"b\",\"ü\"]".as_bytes());
    assert!(s.take_dirty().is_none());
    let t = SeenGuids::load(Some(&saved));
    assert_eq!(t.order, vec!["a\"b", "ü"]);
    assert!(t.contains("ü") && !t.contains("x") && !t.dirty);
    assert!(SeenGuids::load(Some(b"{}")).order.is_empty());
}

#[test]
fn the_oldest_items_are_forgotten_first() {
    let n = 300;
    let mut s = SeenGuids::from_list(Vec::new());
    s.order = (0..SEEN_MAX - n).map(|i| i.to_string()).collect();
    for i in 0..n {
        s.insert(&format!("n{i}"));
    }
    assert_eq!(s.order.len(), SEEN_MAX);
    s.insert("last");
    assert_eq!((s.order.len(), s.order[0].as_str()), (SEEN_MAX, "1"));
    assert!(s.contains("last") && s.contains("n0"));
}

#[test]
fn an_item_that_could_not_be_fetched_is_tried_again() {
    let mut s = SeenGuids::load(None);
    assert_eq!(item_step(&mut s, "g", true), ItemStep::Fetch);
    item_fetched(&mut s, "g", false);
    assert_eq!(item_step(&mut s, "g", true), ItemStep::Fetch);
    item_fetched(&mut s, "g", true);
    assert_eq!(item_step(&mut s, "g", true), ItemStep::Skip);
    assert_eq!(item_step(&mut s, "r", false), ItemStep::Reject);
    assert_eq!(item_step(&mut s, "r", true), ItemStep::Skip);
    let mut due: Book<u64> = Book::new();
    assert!(poll_due(&due, "u", 0));
    poll_later(&mut due, "u", 100, 5);
    assert!(!poll_due(&due, "u", 159) && poll_due(&due, "u", 160));
    assert_eq!(loggable("https://x/get?apikey=k&i=1"), "https://x/get");
    assert_eq!(loggable("https://x/get"), "https://x/get");
    assert_eq!(origin("https://x/rss"), "rss:https://x/rss");
    let h = |url: &str| FeedHealth {
        url: url.to_string(),
        last_poll: 0,
        last_error: None,
        items_seen: 0,
    };
    let kept = keep_health(vec![h("a"), h("b"), h("c")], &texts(&["c", "a"]));
    let urls: Vec<String> = kept.into_iter().map(|h| h.url).collect();
    assert_eq!(urls, vec!["a", "c"]);
}

// ---- post health ----------------------------------------------------------

fn health(probes: u32, checked_at: i64, waived: bool) -> Health {
    Health {
        bucket: "ok".to_string(),
        reason: "all there".to_string(),
        checked_at,
        probes,
        waived,
    }
}

#[test]
fn a_waiting_job_is_looked_at_once_and_again() {
    let mut p = Prober::new();
    let mut queue = vec![job("a", JobState::Queued), job("b", JobState::Queued)];
    assert_eq!(p.pick(&queue, 1_000, 100, 3), Some(0));
    p.cannot_sample("a");
    assert_eq!(p.pick(&queue, 1_000, 100, 3), Some(1));
    p.settle(&mut queue[1], None, 1_000, 15);
    assert_eq!(p.blind_until.get("b"), Some(&1_300));
    assert_eq!(p.pick(&queue, 1_299, 100, 3), None);
    p.tidy(&queue, 1_300);
    assert_eq!(p.pick(&queue, 1_300, 100, 3), Some(1));
    p.settle(&mut queue[1], Some(health(1, 1_300, false)), 1_300, 15);
    assert_eq!(p.pick(&queue, 1_399, 100, 3), None);
    assert_eq!(p.pick(&queue, 1_400, 100, 3), Some(1));
    // What the user decided stays.
    queue[1].health.as_mut().unwrap().waived = true;
    p.settle(&mut queue[1], Some(health(2, 1_400, false)), 1_400, 15);
    assert!(queue[1].health.as_ref().unwrap().waived);
    // No answer counts as a look, and leaves the verdict.
    p.settle(&mut queue[1], None, 1_500, 15);
    let h = queue[1].health.as_ref().unwrap();
    assert_eq!((h.probes, h.checked_at, h.reason.as_str()), (3, 1_500, "all there"));
    p.tidy(&vec![], 1_500);
    assert!(!p.unsampleable.has("a"));
}

#[test]
fn nothing_is_sampled_beside_a_download() {
    let mut r = Running { started_at: None, sidecar: None };
    assert!(download_idle(&r) && !stands_down(true, false, &r));
    r.sidecar = Some(sidecar("a", true));
    assert!(!download_idle(&r));
    r.sidecar = None;
    r.started_at = Some(5);
    assert!(!download_idle(&r) && stands_down(true, false, &r));
}

#[test]
fn articles_are_picked_from_what_every_download_fetches() {
    let file = |recovery, age_days, ids: &[&str]| PostFile { recovery, age_days, ids: texts(ids) };
    let files = vec![file(false, 9, &["a", "b"]), file(true, 1, &["p"]), file(false, 4, &["c"])];
    let (ids, age) = article_ids(&files).unwrap();
    assert_eq!(ids, vec!["<a>", "<b>", "<c>"]);
    assert_eq!(age, 4);
    assert!(article_ids(&vec![file(true, 1, &["p"])]).is_none());
    assert_eq!(article_ids(&vec![file(false, u32::MAX, &["a"])]).unwrap().1, 0);
    assert_eq!(chosen(&ids, &vec![2, 0]), vec!["<c>", "<a>"]);
    assert_eq!(answers(3, &vec![true, false]), vec![Avail::Have, Avail::Missing, Avail::Unknown]);
}

// ---- media ----------------------------------------------------------------

fn media(complete: bool, any: bool, facts: &str) -> Media {
    Media { complete, any, facts: facts.to_string(), mismatch: Vec::new() }
}

#[test]
fn a_reading_is_kept_unless_it_says_less() {
    let mut j = job("a", JobState::Downloading);
    assert_eq!(media_claim_name(&j), "job-a");
    j.identity_name = "Real.Name".to_string();
    assert_eq!(media_claim_name(&j), "Real.Name");
    assert!(!media_settled(&j));
    assert!(latch_media(&mut j, media(false, true, "2160p")));
    assert!(!media_settled(&j));
    assert!(!latch_media(&mut j, media(false, true, "2160p")));
    assert!(!latch_media(&mut j, media(false, false, "")));
    let mut m = media(true, true, "2160p HEVC");
    m.mismatch = vec![
        Mismatch { claimed: "1080p".to_string(), actual: "2160p".to_string() },
        Mismatch { claimed: "x264".to_string(), actual: "HEVC".to_string() },
    ];
    assert_eq!(contradictions(&m), "1080p claimed, 2160p found; x264 claimed, HEVC found");
    assert!(latch_media(&mut j, m));
    assert!(media_settled(&j));
    j.media_rejudge = true;
    assert!(!media_settled(&j));
    last_reading(&mut j);
    assert!(media_settled(&j));
}

#[test]
fn a_job_is_read_while_it_runs_and_once_after() {
    let mut p = MediaProber::new(0);
    p.follow(Some("a"), 10);
    assert_eq!(p.watching.as_deref(), Some("a"));
    assert!(p.ask(false, 10, 5) && !p.ask(false, 14, 5) && p.ask(false, 15, 5));
    assert!(!p.ask(true, 99, 5));
    for _ in 0..10 {
        let due = p.due;
        assert!(p.ask(false, due, 5));
    }
    assert_eq!(p.tries, 12);
    let due = p.due;
    assert!(p.ask(false, due, 5));
    assert_eq!(p.due, due + MEDIA_SLOW);
    p.follow(Some("b"), 50);
    assert_eq!((p.finals.len(), p.finals[0].id.as_str(), p.tries), (1, "a", 0));
    p.readmit("a", 60);
    p.readmit("c", 60);
    assert_eq!(p.finals.len(), 2);
    let mut history = vec![job("a", JobState::Completed), job("c", JobState::Failed)];
    history[0].finalizing = true;
    assert_eq!(p.ready(&history), Some(1));
    history[1].media = Some(media(true, true, "x"));
    assert_eq!(p.ready(&history), None);
    p.sweep(&history);
    assert_eq!(p.finals.len(), 1);
    history[0].finalizing = false;
    assert_eq!(p.ready(&history), Some(0));
    assert_eq!(p.take(0), "a");
    p.readmit("d", 100);
    p.expire(100 + 1_800 * SECOND - 1);
    assert_eq!(p.finals.len(), 1);
    p.expire(100 + 1_800 * SECOND);
    assert!(p.finals.is_empty());
    assert!(is_live(&vec![job("b", JobState::Downloading)], "b"));
    assert!(!is_live(&vec![job("b", JobState::Queued)], "b"));
}

// ---- the small loops ------------------------------------------------------

#[test]
fn memory_is_given_back_after_a_minute_of_rest() {
    let mut t = Trim::new();
    assert!(!t.step(false, 0) && !t.step(false, 100 * SECOND));
    assert!(!t.step(true, 200 * SECOND));
    assert!(!t.step(false, 210 * SECOND));
    assert!(!t.step(false, 269 * SECOND));
    assert!(t.step(false, 270 * SECOND));
    assert!(!t.step(false, 999 * SECOND));
    assert!(trim_worth_saying(67_108_864, 0) && !trim_worth_saying(67_108_863, 0));
}

#[test]
fn the_shortest_round_trip_of_ten_minutes_counts() {
    let mut w: Vec<Trip> = Vec::new();
    assert_eq!(base_rtt(&mut w, SECOND, 30), 30);
    assert_eq!(base_rtt(&mut w, 2 * SECOND, 50), 30);
    assert_eq!(base_rtt(&mut w, 602 * SECOND, 60), 50);
    assert_eq!(w.len(), 2);
    assert_eq!((queueing_delay(70, 50), queueing_delay(40, 50)), (20, 0));
}

#[test]
fn the_speed_moves_only_while_something_downloads() {
    let slow = Asked::Answered { smoothed: 70, base: 50 };
    assert_eq!(speed_tick(slow, true), SpeedTick { step: Some(20), nap: 1 });
    assert_eq!(speed_tick(slow, false), SpeedTick { step: None, nap: 1 });
    assert_eq!(speed_tick(Asked::Lost, true), SpeedTick { step: Some(u64::MAX), nap: 2 });
    assert_eq!(speed_tick(Asked::Lost, false), SpeedTick { step: None, nap: 2 });
    assert_eq!(speed_tick(Asked::NoConnection, true), SpeedTick { step: None, nap: 5 });
    assert_eq!(speed_tick(Asked::NoServer, true), SpeedTick { step: None, nap: 30 });
    assert_eq!(speed_tick(Asked::Off, true), SpeedTick { step: None, nap: 5 });
    assert_eq!(speed_tick(Asked::HungUp, true), SpeedTick { step: None, nap: 2 });
    assert_eq!((trip_ms(0), trip_ms(7)), (1, 7));
}

#[test]
fn ticks_follow_what_is_switched_on() {
    assert_eq!((tuned(None, 45, 1), tuned(Some("0"), 45, 1), tuned(Some("x"), 45, 1)), (45, 1, 45));
    assert_eq!((media_tick(None), media_tick(Some("10")), media_tick(Some("90"))), (5_000, 50, 90));
    let t = catalog_tick(true, None, true, 300);
    assert!(t.fetch && t.sample && !t.sweep && t.nap == 300);
    let t = catalog_tick(true, Some(86_399), false, 300);
    assert!(!t.fetch && t.sweep && t.nap == 3_600);
    let t = catalog_tick(false, None, true, 300);
    assert!(!t.fetch && !t.sample && t.sweep);
    assert!(bench_due(1, 3_600, 0, false) && !bench_due(1, 3_599, 0, false));
    assert!(!bench_due(0, 3_600, 0, false) && !bench_due(1, 3_600, 0, true));
    let entry = |ts| object(vec![("ts".to_string(), uint(ts))]);
    assert_eq!(last_bench(&vec![entry(4), entry(9)]), Some(9));
    assert_eq!(last_bench(&vec![entry(4), Value::Null]), None);
    assert_eq!(announced_version(&object(vec![("version".to_string(), text("2.0"))])), "2.0");
    assert_eq!(announced_version(&Value::Null), "?");
    assert!(watchlist_pass(true, true).runs && !watchlist_pass(true, true).calendar);
    assert!(!watchlist_pass(true, false).runs && watchlist_pass(false, false).calendar);
    assert_eq!(enrichment_sources(true, false), "TMDB");
    assert!(enrichment_sources(false, false).contains("keyless"));
}

fn work_facts() -> WorkFacts {
    WorkFacts {
        pass: Pass::Pick { only_force: false },
        picked: true,
        held: false,
        runnable: true,
        pause_indexing: true,
        pointer: false,
        preflight: false,
        stopped: false,
    }
}

fn round(f: WorkFacts, n: usize) -> Vec<WorkStep> {
    let mut steps = vec![WorkStep::Guard];
    for _ in 0..n {
        steps.push(work_next(steps[steps.len() - 1], f));
    }
    steps
}

#[test]
fn a_round_of_the_worker_runs_to_its_tail() {
    assert_eq!(
        round(work_facts(), 14),
        vec![
            WorkStep::Guard,
            WorkStep::Pick { only_force: false },
            WorkStep::CheckHolder,
            WorkStep::Begin,
            WorkStep::HoldIndexing,
            WorkStep::AwaitIndexing,
            WorkStep::ClaimCounters,
            WorkStep::ExcludeSpent,
            WorkStep::ClearSlots,
            WorkStep::Fetch,
            WorkStep::StandDown,
            WorkStep::AwaitTail,
            WorkStep::StopSidecar,
            WorkStep::Bill,
            WorkStep::HandTail,
        ]
    );
    assert_eq!(work_next(WorkStep::HandTail, work_facts()), WorkStep::Guard);
}

#[test]
fn a_round_of_the_worker_can_end_early() {
    let none = WorkFacts { picked: false, ..work_facts() };
    assert_eq!(work_next(WorkStep::Pick { only_force: true }, none), WorkStep::Rest(500));
    let full = WorkFacts { pass: Pass::Wait(5), ..work_facts() };
    assert_eq!(work_next(WorkStep::Guard, full), WorkStep::Rest(5_000));
    let held = WorkFacts { held: true, runnable: false, ..work_facts() };
    assert_eq!(work_next(WorkStep::CheckHolder, held), WorkStep::StopHolder);
    assert_eq!(work_next(WorkStep::StopHolder, held), WorkStep::RecheckPicked);
    assert_eq!(work_next(WorkStep::RecheckPicked, held), WorkStep::Guard);
    let pointer = WorkFacts { pointer: true, preflight: true, ..work_facts() };
    assert_eq!(work_next(WorkStep::ClaimCounters, pointer), WorkStep::SamplePointer);
    let gone = WorkFacts { preflight: true, stopped: true, ..work_facts() };
    assert_eq!(work_next(WorkStep::ClaimCounters, gone), WorkStep::Preflight);
    assert_eq!(work_next(WorkStep::Preflight, gone), WorkStep::FileImpossible);
    let fine = WorkFacts { preflight: true, ..work_facts() };
    assert_eq!(work_next(WorkStep::Preflight, fine), WorkStep::ExcludeSpent);
}

#[test]
fn the_watchdog_observes_at_every_tick() {
    let f = DogFacts { entered: true, sampled: true, long_enough: true, worth: true };
    assert_eq!(dog_next(DogStep::Rest, f), DogStep::Observe);
    assert_eq!(dog_next(DogStep::Observe, f), DogStep::Enter);
    assert_eq!(dog_next(DogStep::Enter, f), DogStep::Sample);
    assert_eq!(dog_next(DogStep::Sample, f), DogStep::Weigh);
    assert_eq!(dog_next(DogStep::Weigh, f), DogStep::Prefetch);
    assert_eq!(dog_next(DogStep::Prefetch, f), DogStep::Judge);
    assert_eq!(dog_next(DogStep::Judge, f), DogStep::Rest);
    assert_eq!(dog_next(DogStep::Enter, DogFacts { entered: false, ..f }), DogStep::Rest);
    assert_eq!(dog_next(DogStep::Sample, DogFacts { long_enough: false, ..f }), DogStep::Rest);
    assert_eq!(dog_next(DogStep::Weigh, DogFacts { worth: false, ..f }), DogStep::Rest);
}

#[test]
fn a_measurement_is_billed_before_it_is_judged() {
    let k = Knee { connections: 20, asked: 24 };
    let f = TuneFacts {
        wanted: true,
        idle: true,
        chosen: true,
        permit: true,
        climbed: true,
        contested: true,
        outcome: Measured::Record(k),
    };
    let mut s = TuneStep::Rest;
    let mut seen = Vec::new();
    for _ in 0..9 {
        s = tune_next(s, f);
        seen.push(s);
    }
    assert_eq!(
        seen,
        vec![
            TuneStep::Choose,
            TuneStep::TakePermit,
            TuneStep::Ladder,
            TuneStep::Remeasure,
            TuneStep::Bill,
            TuneStep::Judge,
            TuneStep::Record(k),
            TuneStep::Hint,
            TuneStep::Rest,
        ]
    );
    let busy = TuneFacts { idle: false, ..f };
    assert_eq!(tune_next(TuneStep::Rest, busy), TuneStep::Rest);
    let taken = TuneFacts { permit: false, ..f };
    assert_eq!(tune_next(TuneStep::TakePermit, taken), TuneStep::Rest);
    let smooth = TuneFacts { contested: false, ..f };
    assert_eq!(tune_next(TuneStep::Ladder, smooth), TuneStep::Bill);
    let disturbed = TuneFacts { outcome: Measured::Disturbed, ..f };
    assert_eq!(tune_next(TuneStep::Judge, disturbed), TuneStep::Rest);
}

fn pass_facts() -> PassFacts {
    PassFacts {
        groups_paused: false,
        spots_paused: false,
        reclassify: true,
        groups: 2,
        gap_budget: 3,
        coverage: true,
        maintenance_ok: true,
        now: 1_000_000,
        retention_at: 0,
        statistics_at: 0,
        interval: 900,
    }
}

fn steps_of(f: PassFacts, n: usize) -> Vec<PassStep> {
    let mut run = ScanRun::new();
    let mut seen = vec![run.step];
    for _ in 0..n {
        run.next(&f);
        seen.push(run.step);
    }
    seen
}

#[test]
fn a_pass_goes_through_all_that_is_due() {
    assert_eq!(
        steps_of(pass_facts(), 13),
        vec![
            PassStep::Ask,
            PassStep::AwaitTurn,
            PassStep::Recheck,
            PassStep::Spots,
            PassStep::Reclassify,
            PassStep::Groups,
            PassStep::GiveDeepBack,
            PassStep::SeedTitles,
            PassStep::FillGaps,
            PassStep::Retention,
            PassStep::Statistics,
            PassStep::Evict,
            PassStep::Nap(900),
            PassStep::Ask,
        ]
    );
}

#[test]
fn a_pass_over_spots_alone_waits_out_its_interval() {
    let f = PassFacts { groups_paused: true, reclassify: false, groups: 0, interval: 1, ..pass_facts() };
    assert_eq!(
        steps_of(f, 7),
        vec![
            PassStep::Ask,
            PassStep::AwaitTurn,
            PassStep::Recheck,
            PassStep::Spots,
            PassStep::Groups,
            PassStep::GiveDeepBack,
            PassStep::Evict,
            PassStep::Nap(30),
        ]
    );
    let off = PassFacts { spots_paused: true, ..f };
    assert_eq!(steps_of(off, 2), vec![PassStep::Ask, PassStep::Rest(5), PassStep::Ask]);
}

#[test]
fn chores_wait_until_the_index_may_be_worked_on() {
    let f = PassFacts { maintenance_ok: false, coverage: false, ..pass_facts() };
    let seen = steps_of(f, 9);
    assert_eq!(seen[7], PassStep::SeedTitles);
    assert_eq!(seen[8], PassStep::Evict);
    // Once begun, they are done one after the other.
    let mut run = ScanRun {
        plan: ScanPlan { groups: true, spots: false },
        coverage: false,
        step: PassStep::Retention,
    };
    run.next(&f);
    assert_eq!(run.step, PassStep::Statistics);
}

#[test]
fn an_interrupted_pass_gives_way_at_once() {
    let mut run = ScanRun {
        plan: ScanPlan { groups: true, spots: false },
        coverage: true,
        step: PassStep::GiveDeepBack,
    };
    run.next(&PassFacts { groups_paused: true, ..pass_facts() });
    assert_eq!(run.step, PassStep::Ask);
}
