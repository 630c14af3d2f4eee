use nzbfast_serve::script::{
    drain_into, drain_to_nowhere, script_step, BoundedTail, ScriptStep, SCRIPT_ERR_TAIL,
};
use nzbfast_serve::storecut::{arm_cut, cut_here, disarm, on_park_gap, park_gap, StoreCut};
use nzbfast_serve::stream::{
    byte_range, fill_live_probe, finished_media_path, head_start, is_media_name, pick_media,
    plan_range, probe_step, promote_playhead, refuse, stall_step, stream_runway, stream_step, strm_line,
    wait_step, Coverage, EntryKind, LiveRangeReader, MediaWalk, Output, ParkedJob, Probe,
    ProbeStep, StallStep, StreamStep, WaitStep,
};
use nzbfast_serve::value::{text, uint};

const FILE: u64 = 100_000_000;

/// A player that asks for the LAST bytes of the file gets the last bytes of
/// the file.
#[test]
fn a_tail_request_serves_the_tail() {
    assert_eq!(byte_range("bytes=-65536", FILE), Some((FILE - 65_536, FILE)));
    assert_eq!(byte_range("bytes=-1", FILE), Some((FILE - 1, FILE)));
}

/// Asking for more tail than there is file is the whole file, not a
/// wrapped-around start offset near u64::MAX.
#[test]
fn a_tail_longer_than_the_file_is_the_whole_file() {
    assert_eq!(byte_range("bytes=-4096", 1_000), Some((0, 1_000)));
    assert_eq!(byte_range(&format!("bytes=-{}", u64::MAX), 1_000), Some((0, 1_000)));
}

/// The seek forms that every player uses.
#[test]
fn seek_ranges_still_work() {
    assert_eq!(byte_range("bytes=0-99999", FILE), Some((0, 100_000)));
    assert_eq!(byte_range("bytes=20000000-20050000", FILE), Some((20_000_000, 20_050_001)));
    assert_eq!(byte_range("bytes=500-", 1_000), Some((500, 1_000)));
    // An end past the file clamps to the file.
    assert_eq!(byte_range("bytes=990-99999", 1_000), Some((990, 1_000)));
}

/// Anything that cannot be honoured is "no range".
#[test]
fn unusable_ranges_are_no_range_at_all() {
    for v in [
        "bytes=-0",        // zero-length tail
        "bytes=-",         // no number either side
        "bytes=-abc",      // unparseable tail
        "bytes=1000-",     // starts at EOF
        "bytes=1000-2000", // starts past EOF
        "bytes=abc-1",     // unparseable start
        "megabytes=0-1",   // not a byte range
        "0-99",            // no unit
    ] {
        assert_eq!(byte_range(v, 1_000), None, "{v}");
    }
    // A zero-length file has no span to hand out, tail or otherwise.
    assert_eq!(byte_range("bytes=-10", 0), None);
    assert_eq!(byte_range("bytes=0-9", 0), None);
}

/// Whatever comes back is a non-empty span inside the file.
#[test]
fn every_accepted_range_fits_the_file() {
    for v in [
        "bytes=-65536",
        "bytes=-99999999999",
        "bytes=0-",
        "bytes=0-0",
        "bytes=999-1000000",
        "bytes=1-2",
    ] {
        if let Some((start, end)) = byte_range(v, 1_000) {
            assert!(start < end && end <= 1_000, "{v} -> {start}..{end}");
        }
    }
}

#[test]
fn a_part_is_answered_with_its_place() {
    let p = plan_range(&Some("bytes=500-".to_string()), "film.mkv", 1_000);
    assert_eq!((p.start, p.end, p.status, p.length), (500, 1_000, 206, 500));
    assert_eq!(p.content_range.as_deref(), Some("bytes 500-999/1000"));
    let p = plan_range(&None, "film.mp4", 1_000);
    assert_eq!((p.start, p.end, p.status, p.length), (0, 1_000, 200, 1_000));
    assert_eq!(p.content_range, None);
}

#[test]
fn the_largest_media_file_is_the_feature() {
    assert!(is_media_name("Film.MKV"));
    assert!(!is_media_name("film.nfo"));
    let out = |name: &str, size: u64| Output { name: name.to_string(), size };
    let list = vec![out("a.nfo", 900), out("a.mkv", 500), out("b.mp4", 500), out("c.avi", 10)];
    assert_eq!(pick_media(&list), Some(1));
    assert_eq!(pick_media(&vec![out("a.txt", 1)]), None);
    let largest = Some("/d/b.mkv".to_string());
    assert_eq!(finished_media_path(false, None, largest.clone()), largest);
}

#[test]
fn a_walk_keeps_the_largest_media_file() {
    let mut w = MediaWalk::new("/d");
    let (dir, depth) = w.next_folder().unwrap();
    assert_eq!((dir.as_str(), depth), ("/d", 0));
    w.visit("/d/s", "s", EntryKind::Folder, depth);
    w.visit("/d/a.mkv", "a.mkv", EntryKind::File(10), depth);
    w.visit("/d/b.txt", "b.txt", EntryKind::File(99), depth);
    let (dir, depth) = w.next_folder().unwrap();
    assert_eq!((dir.as_str(), depth), ("/d/s", 1));
    w.visit("/d/s/c.mkv", "c.mkv", EntryKind::File(20), depth);
    assert!(w.next_folder().is_none());
    assert_eq!(w.best, Some((20, "/d/s/c.mkv".to_string())));
}

#[test]
fn without_a_key_nothing_starts_and_nothing_is_handed_out() {
    let pointer = ParkedJob { library: true, fetched: false, completed: true, tombstone: false };
    let done = ParkedJob { library: false, fetched: true, completed: true, tombstone: false };
    assert_eq!(stream_step(true, Some(pointer), false, true), StreamStep::Start);
    let step = stream_step(true, Some(pointer), false, false);
    assert_eq!(step, StreamStep::NeedsKeyToStart);
    assert_eq!(refuse(step, false).status, 401);
    assert_eq!(refuse(step, true).status, 429);
    assert_eq!(stream_step(true, Some(done), false, false), StreamStep::NeedsKeyToPlay);
    assert_eq!(stream_step(true, Some(done), false, true), StreamStep::ServeFinished);
    assert_eq!(stream_step(true, None, false, true), StreamStep::Unknown);
    assert_eq!(stream_step(false, None, false, false), StreamStep::ServeLive);
}

#[test]
fn a_request_waits_for_its_own_media() {
    assert_eq!(wait_step(true, true, true, 0), WaitStep::Serve);
    assert_eq!(wait_step(true, false, true, 0), WaitStep::Sleep);
    assert_eq!(wait_step(true, false, true, 30_000), WaitStep::GiveUp);
    assert_eq!(wait_step(false, false, false, 0), WaitStep::GiveUp);
    assert_eq!(probe_step(true, false, false), ProbeStep::Live);
    assert_eq!(probe_step(false, false, false), ProbeStep::Unknown);
    assert_eq!(probe_step(false, true, false), ProbeStep::NoFile);
    assert_eq!(probe_step(false, true, true), ProbeStep::Disk);
}

#[test]
fn a_probe_asks_for_the_tail_only_where_it_is_missing() {
    let c = |tail_ok| Coverage { size: 10, head_bytes: 4, pct: uint(40), tail_ok };
    let p = fill_live_probe("a.mkv", c(false), Probe::Found { media: text("m"), complete: false });
    assert!(p.need_tail);
    assert_eq!(p.pending, Some(true));
    assert_eq!(p.coverage.get_u64("head_bytes"), Some(4));
    let p = fill_live_probe("a.mkv", c(true), Probe::Found { media: text("m"), complete: false });
    assert!(!p.need_tail);
    let p = fill_live_probe("a.mkv", c(false), Probe::Failed("bad".to_string()));
    assert_eq!(p.error.as_deref(), Some("bad"));
    let p = fill_live_probe("a.mkv", c(false), Probe::NotYet);
    assert!(p.media.is_none() && !p.need_tail);
}

#[test]
fn a_reader_stays_within_its_span_and_steers() {
    let mut r = LiveRangeReader {
        pos: 0,
        end: 300_000,
        size: 100_000_000,
        promoted_to: 32_000_000,
        generation: 3,
    };
    assert_eq!(r.next_len(1_000_000), 262_144);
    r.advance(262_144);
    assert_eq!(r.next_len(1_000_000), 37_856);
    assert!(r.newest_alive(Some(3)) && !r.newest_alive(Some(4)) && !r.newest_alive(None));
    assert!(!r.should_roll(true));
    assert_eq!(r.runway(10, 16_000_000), 37_856);
    assert_eq!(stall_step(2_000, true), StallStep::AskAgain);
    assert_eq!(stall_step(2_100, true), StallStep::Wait);
    assert_eq!(stall_step(300_001, true), StallStep::TimedOut);
    let (spans, to) = promote_playhead(10_000_000, 100_000_000, false);
    assert_eq!(spans, vec![(6_000_000, 42_000_000), (92_000_000, 100_000_000)]);
    assert_eq!(to, 42_000_000);
    assert_eq!(stream_runway(&None), 16_000_000);
    assert_eq!(stream_runway(&Some("4".to_string())), 4_000_000);
    assert_eq!(
        strm_line(6789, "SABnzbd_nzo_1", "tok"),
        "http://127.0.0.1:6789/stream/SABnzbd_nzo_1?t=tok\n"
    );
}

#[test]
fn a_tail_keeps_the_last_bytes_and_says_what_is_missing() {
    let mut t = BoundedTail::new();
    t.push(b"hello ");
    t.push(b"world");
    assert_eq!(t.tail_text(), "hello world");
    t.push(&vec![b'x'; SCRIPT_ERR_TAIL]);
    assert_eq!(t.buf.len(), SCRIPT_ERR_TAIL);
    assert_eq!(t.dropped, 11);
    assert!(t.tail_text().starts_with("[…11 earlier bytes dropped…]xxx"));
    let mut t = BoundedTail::new();
    t.push(&[0x61, 0xff, 0x62]);
    assert_eq!(t.tail_text(), "a\u{fffd}b");
}

#[test]
fn a_tail_does_not_depend_on_how_the_output_was_cut() {
    let all: Vec<u8> = (0..20_000u32).map(|i| (i % 251) as u8).collect();
    for size in [1usize, 7, 4_096, 8_192, 20_000] {
        let mut t = BoundedTail::new();
        for piece in all.chunks(size) {
            t.push(piece);
            assert!(t.buf.len() <= SCRIPT_ERR_TAIL);
        }
        let kept: Vec<u8> = t.buf.iter().copied().collect();
        assert_eq!(kept, all[20_000 - SCRIPT_ERR_TAIL..]);
        assert_eq!(t.dropped, 20_000 - SCRIPT_ERR_TAIL);
    }
}

#[test]
fn a_part_is_fetched_first_where_its_head_is_missing() {
    assert_eq!((head_start(0), head_start(5), head_start(2_000_000)), (1, 5, 1_000_000));
}

#[test]
fn draining_ends_with_the_pipe() {
    let mut t = BoundedTail::new();
    assert!(drain_into(Some(b"abc".to_vec()), &mut t));
    assert!(!drain_into(Some(Vec::new()), &mut t));
    assert!(!drain_into(None, &mut t));
    assert_eq!(t.tail_text(), "abc");
    assert!(drain_to_nowhere(Some(5)));
    assert!(!drain_to_nowhere(Some(0)));
    assert!(!drain_to_nowhere(None));
}

#[test]
fn a_script_is_killed_when_its_time_is_up() {
    assert_eq!(script_step(true, 5, 9_000_000_000), ScriptStep::Ended);
    assert_eq!(script_step(false, 5, 4_999_999_999), ScriptStep::Wait);
    assert_eq!(script_step(false, 5, 5_000_000_000), ScriptStep::Kill);
    assert_eq!(script_step(false, 0, u128::MAX), ScriptStep::Wait);
}

#[test]
fn a_cut_lets_its_budget_land() {
    let mut c: StoreCut<u8> = StoreCut::new();
    assert!(!cut_here(&mut c));
    arm_cut(&mut c, 2);
    let cuts: Vec<bool> = (0..4).map(|_| cut_here(&mut c)).collect();
    assert_eq!(cuts, vec![false, false, true, true]);
    on_park_gap(&mut c, 7);
    assert_eq!(park_gap(&mut c), Some(7));
    assert_eq!(park_gap(&mut c), None);
    disarm(&mut c);
    assert!(!cut_here(&mut c));
}
