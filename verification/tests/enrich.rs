use nzbfast_serve::enrich::{
    art_bytes, backoff_after, batch_size, eligible, enrich_verdict, eviction_order, first_provider,
    lane_kind, lane_next, may_stamp, must_evict, photo_rest, ratings_stale, records_date,
    wants_anilist, ArtFile, Ask, FilmChain, Kind, LaneFacts, LaneStep, Provider, TitleMeta,
    Unreached, Verdict, WikiPage,
};

const SECOND: u64 = 1_000_000_000;

#[test]
fn a_kind_is_read_from_its_word() {
    assert_eq!(lane_kind("tv"), Kind::Tv);
    assert_eq!(lane_kind("movie"), Kind::Movie);
    assert_eq!(lane_kind("music"), Kind::Music);
    assert_eq!(lane_kind("book"), Kind::Book);
    assert_eq!(lane_kind("xxx"), Kind::Other);
}

#[test]
fn a_title_that_could_not_be_reached_waits_longer_each_time() {
    assert_eq!(backoff_after(1), 60);
    assert_eq!(backoff_after(2), 120);
    assert_eq!(backoff_after(50), 21_600);
    let mut u = Unreached::new();
    assert!(u.due("k", 0));
    assert_eq!(u.note_failure("k", 0), 60);
    assert!(!u.due("k", 60 * SECOND - 1));
    assert!(u.due("k", 60 * SECOND));
    assert_eq!(u.note_failure("k", 0), 120);
    let keys = vec!["k".to_string(), "m".to_string()];
    assert_eq!(eligible(&keys, &u, 0, 5), vec![1]);
    u.clear("k");
    assert_eq!(eligible(&keys, &u, 0, 1), vec![0]);
}

#[test]
fn an_unreachable_provider_is_no_answer() {
    assert_eq!(enrich_verdict(Kind::Movie, true, false), Verdict::Fill);
    assert_eq!(enrich_verdict(Kind::Movie, false, true), Verdict::Retry);
    assert_eq!(enrich_verdict(Kind::Movie, false, false), Verdict::StampEmpty);
    assert_eq!(first_provider(true, Kind::Movie), Provider::Tmdb);
    assert_eq!(first_provider(false, Kind::Music), Provider::Media);
    assert!(wants_anilist(false, Kind::Tv) && !wants_anilist(true, Kind::Tv));
    assert!(may_stamp(false, false) && !may_stamp(true, false));
    assert!(!records_date("", true));
}

#[test]
fn a_film_without_a_key_goes_to_the_open_database() {
    let c = FilmChain::new(false);
    assert_eq!(c.ask, Ask::Wikidata);
    let c = FilmChain::new(true);
    assert_eq!(c.ask, Ask::OmdbAndId);
}

#[test]
fn portraits_leave_the_oldest_first() {
    let f = |when, len| ArtFile { when, len };
    let files = vec![f(5, 10), f(1, 20), f(3, 30)];
    assert_eq!(eviction_order(&files), vec![1, 2, 0]);
    assert_eq!(art_bytes(&files), 60);
    assert!(must_evict(60, 0, 50) && !must_evict(60, 20, 50));
    assert_eq!(photo_rest(true, 900), 60);
    assert_eq!(photo_rest(false, 60), 120);
    assert_eq!(photo_rest(false, 900), 900);
}

#[test]
fn ratings_are_fetched_again_after_a_while() {
    assert!(ratings_stale(&None, 0));
    assert!(ratings_stale(&Some("0".to_string()), 100 * 86_400));
    assert!(!ratings_stale(&Some("100".to_string()), 100));
}

fn found(overview: &str, poster: &str, imdb: &str) -> TitleMeta {
    TitleMeta {
        tmdb_id: 7,
        overview: overview.to_string(),
        rating: "8.1".to_string(),
        genres: String::new(),
        poster_url: poster.to_string(),
        backdrop_url: String::new(),
        imdb: imdb.to_string(),
        actors: String::new(),
        air_date: String::new(),
        credits: Vec::new(),
    }
}

fn page(extract: &str, image: &str) -> WikiPage {
    WikiPage { extract: extract.to_string(), image: image.to_string() }
}

#[test]
fn a_film_is_asked_for_by_its_id_and_then_openly() {
    let c = FilmChain::new(true).omdb_and_id(None, Some("tt1".to_string()));
    assert_eq!(c.ask, Ask::OmdbById);
    let c = c.omdb_by_id(None);
    assert_eq!(c.ask, Ask::Wikidata);
    let c = c.wikidata(None);
    assert_eq!(c.ask, Ask::Wikipedia);
    let m = c.finish(Some(page("", ""))).unwrap();
    assert_eq!((m.imdb.as_str(), m.overview.as_str(), m.tmdb_id), ("tt1", "", 0));
}

#[test]
fn a_missing_poster_is_looked_for_openly() {
    let c = FilmChain::new(true).omdb_and_id(Some(found("plot", "", "")), None);
    assert_eq!(c.ask, Ask::Poster);
    let c = c.poster(Some(found("other", "p.jpg", "tt9")));
    assert_eq!(c.ask, Ask::Done);
    let m = c.finish(None).unwrap();
    assert_eq!((m.overview.as_str(), m.poster_url.as_str()), ("plot", "p.jpg"));
}

#[test]
fn the_encyclopedia_fills_the_gaps() {
    let c = FilmChain::new(false).wikidata(Some(found("", "p.jpg", "tt2")));
    assert_eq!(c.ask, Ask::Wikipedia);
    assert_eq!(c.imdb.as_deref(), Some("tt2"));
    let m = c.finish(Some(page("plot", "q.jpg"))).unwrap();
    assert_eq!((m.overview.as_str(), m.poster_url.as_str()), ("plot", "p.jpg"));
    let c = FilmChain::new(false).wikidata(None);
    assert!(c.finish(Some(page("", ""))).is_none());
}

#[test]
fn waiting_titles_do_not_keep_the_others_out() {
    let mut u = Unreached::new();
    let f = |u: &Unreached| LaneFacts {
        off: false,
        hot: false,
        any: false,
        waiting: u.list.len(),
    };
    assert_eq!(lane_next(LaneStep::Hot, f(&u)), LaneStep::Pending(12));
    for i in 0..250 {
        u.note_failure(&format!("k{i}"), 0);
    }
    assert_eq!(lane_next(LaneStep::Hot, f(&u)), LaneStep::Pending(212));
    assert_eq!(lane_next(LaneStep::Pending(212), f(&u)), LaneStep::Dateless(206));
}

#[test]
fn a_lane_takes_what_a_viewer_waits_for_first() {
    let none = LaneFacts { off: false, hot: false, any: false, waiting: 3 };
    let some = LaneFacts { any: true, ..none };
    let off = LaneFacts { off: true, ..none };
    assert_eq!(lane_next(LaneStep::Rest(15), off), LaneStep::Rest(30));
    assert_eq!(lane_next(LaneStep::Rest(30), none), LaneStep::Hot);
    assert_eq!(lane_next(LaneStep::Hot, LaneFacts { hot: true, ..some }), LaneStep::LookUp);
    // All of them have to wait: dates are next, not the others.
    assert_eq!(lane_next(LaneStep::Hot, LaneFacts { hot: true, ..none }), LaneStep::Dateless(9));
    assert_eq!(lane_next(LaneStep::Pending(15), some), LaneStep::LookUp);
    assert_eq!(lane_next(LaneStep::LookUp, none), LaneStep::Hot);
    assert_eq!(lane_next(LaneStep::LookUpDates, off), LaneStep::Rest(30));
    assert_eq!(lane_next(LaneStep::Dateless(9), some), LaneStep::LookUpDates);
    assert_eq!(lane_next(LaneStep::Dateless(9), none), LaneStep::Rest(15));
    assert_eq!((batch_size(LaneStep::Hot), batch_size(LaneStep::Dateless(9))), (12, 6));
}

#[test]
fn an_answer_ends_the_wait_of_a_title() {
    let mut u = Unreached::new();
    assert_eq!(u.settle_title("a", Kind::Tv, false, true, 0), Verdict::Retry);
    assert!(!u.due("a", 59 * SECOND) && u.due("a", 60 * SECOND));
    // Nobody was asked, so nothing is known of the wait.
    assert_eq!(u.settle_title("a", Kind::Other, false, false, 0), Verdict::StampEmpty);
    assert!(!u.due("a", 59 * SECOND));
    assert_eq!(u.settle_title("a", Kind::Tv, true, false, 0), Verdict::Fill);
    assert!(u.list.is_empty());
    assert!(!u.settle_date("a", "", true, 0) && !u.due("a", 0));
    assert!(u.settle_date("a", "", false, 0) && u.due("a", 0));
    assert!(u.settle_date("a", "2020-01-01", true, 0));
}
