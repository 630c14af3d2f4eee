//! The names of the settings: each stands once in the table, and finds its row.
use super::table::{
    automation_rows, download_rows, find_row, indexing_rows, interface_rows, keys_rows, paths_rows,
    rename_rows, row_named, runtime_rows, speed_rows, table, Row,
};
use vstd::prelude::*;

verus! {

/// A number for a name, made of its length and three of its letters. It tells
/// the names of the table apart.
pub closed spec fn mark(name: Seq<char>) -> u64 {
    (100 * name.len() + 7 * (name[3] as int) + 3 * (if name.len() > 7 {
        name[7] as int
    } else {
        0
    }) + 3 * (name[name.len() - 4] as int)) as u64
}

/// Where the name with that mark stands in the table.
spec fn place(mark: u64) -> int {
    match mark {
        1548 => 0,
        1650 => 1,
        2737 => 2,
        3231 => 3,
        2364 => 4,
        1484 => 5,
        3268 => 6,
        2897 => 7,
        1677 => 8,
        3328 => 9,
        2161 => 10,
        2486 => 11,
        2793 => 12,
        2500 => 13,
        1630 => 14,
        2222 => 15,
        2596 => 16,
        2489 => 17,
        2074 => 18,
        2237 => 19,
        2952 => 20,
        1663 => 21,
        2657 => 22,
        3042 => 23,
        2195 => 24,
        2907 => 25,
        2349 => 26,
        2346 => 27,
        2416 => 28,
        2386 => 29,
        2494 => 30,
        3106 => 31,
        2856 => 32,
        3022 => 33,
        2221 => 34,
        2249 => 35,
        2683 => 36,
        2873 => 37,
        3120 => 38,
        2568 => 39,
        2665 => 40,
        2765 => 41,
        2110 => 42,
        2537 => 43,
        2966 => 44,
        3069 => 45,
        2666 => 46,
        2603 => 47,
        2675 => 48,
        2530 => 49,
        3184 => 50,
        3639 => 51,
        3115 => 52,
        2842 => 53,
        3430 => 54,
        2415 => 55,
        3039 => 56,
        2639 => 57,
        3288 => 58,
        2980 => 59,
        3029 => 60,
        2631 => 61,
        2597 => 62,
        2578 => 63,
        2715 => 64,
        2580 => 65,
        3428 => 66,
        2582 => 67,
        2840 => 68,
        3661 => 69,
        3282 => 70,
        2689 => 71,
        2767 => 72,
        2704 => 73,
        2513 => 74,
        2782 => 75,
        2604 => 76,
        2807 => 77,
        3143 => 78,
        2858 => 79,
        3622 => 80,
        2549 => 81,
        2861 => 82,
        2515 => 83,
        3103 => 84,
        3076 => 85,
        2389 => 86,
        2624 => 87,
        2545 => 88,
        2742 => 89,
        2345 => 90,
        3127 => 91,
        2824 => 92,
        2733 => 93,
        2803 => 94,
        2777 => 95,
        1503 => 96,
        2212 => 97,
        2262 => 98,
        3180 => 99,
        3086 => 100,
        3423 => 101,
        2731 => 102,
        3151 => 103,
        2467 => 104,
        2711 => 105,
        3338 => 106,
        2938 => 107,
        3133 => 108,
        2347 => 109,
        2681 => 110,
        2239 => 111,
        3447 => 112,
        2792 => 113,
        2565 => 114,
        3280 => 115,
        2643 => 116,
        2579 => 117,
        2354 => 118,
        2315 => 119,
        2277 => 120,
        1664 => 121,
        1643 => 122,
        2134 => 123,
        2301 => 124,
        2280 => 125,
        2092 => 126,
        1880 => 127,
        3262 => 128,
        1700 => 129,
        2201 => 130,
        _ => -1,
    }
}

/// Whether a row stands at that place, and has a name.
spec fn stands_at(row: Row, i: int) -> bool {
    place(mark(row.name)) == i && row.name.len() > 0
}

/// Whether rows stand where their names say, from a place on.
#[verifier::opaque]
spec fn placed(list: Seq<Row>, from: int) -> bool {
    forall|i: int| 0 <= i < list.len() ==> stands_at(#[trigger] list[i], from + i)
}

proof fn paths_places()
    ensures
        paths_rows().len() == 13,
        placed(paths_rows(), 0),
{
    reveal(placed);
    let r = paths_rows();
    reveal_strlit("port");
    reveal_strlit("out_dir");
    reveal_strlit("move_completed");
    reveal_strlit("move_completed_cats");
    reveal_strlit("categories");
    reveal_strlit("watch");
    reveal_strlit("watch_interval_secs");
    reveal_strlit("delete_to_trash");
    reveal_strlit("script");
    reveal_strlit("script_timeout_secs");
    reveal_strlit("index_db");
    reveal_strlit("config_path");
    reveal_strlit("settings_path");
    assert(mark(r[0].name) == 1548);
    assert(mark(r[1].name) == 1650);
    assert(mark(r[2].name) == 2737);
    assert(mark(r[3].name) == 3231);
    assert(mark(r[4].name) == 2364);
    assert(mark(r[5].name) == 1484);
    assert(mark(r[6].name) == 3268);
    assert(mark(r[7].name) == 2897);
    assert(mark(r[8].name) == 1677);
    assert(mark(r[9].name) == 3328);
    assert(mark(r[10].name) == 2161);
    assert(mark(r[11].name) == 2486);
    assert(mark(r[12].name) == 2793);
}

proof fn download_places()
    ensures
        download_rows().len() == 13,
        placed(download_rows(), 13),
{
    reveal(placed);
    let r = download_rows();
    reveal_strlit("connections");
    reveal_strlit("window");
    reveal_strlit("decoders");
    reveal_strlit("fast_verify");
    reveal_strlit("verify_mode");
    reveal_strlit("min_free");
    reveal_strlit("out_umask");
    reveal_strlit("auto_retry_mins");
    reveal_strlit("quota");
    reveal_strlit("quota_period");
    reveal_strlit("nested_max_depth");
    reveal_strlit("mem_limit");
    reveal_strlit("mem_budget_total");
    assert(mark(r[0].name) == 2500);
    assert(mark(r[1].name) == 1630);
    assert(mark(r[2].name) == 2222);
    assert(mark(r[3].name) == 2596);
    assert(mark(r[4].name) == 2489);
    assert(mark(r[5].name) == 2074);
    assert(mark(r[6].name) == 2237);
    assert(mark(r[7].name) == 2952);
    assert(mark(r[8].name) == 1663);
    assert(mark(r[9].name) == 2657);
    assert(mark(r[10].name) == 3042);
    assert(mark(r[11].name) == 2195);
    assert(mark(r[12].name) == 2907);
}

proof fn speed_places()
    ensures
        speed_rows().len() == 17,
        placed(speed_rows(), 26),
{
    reveal(placed);
    let r = speed_rows();
    reveal_strlit("speedlimit");
    reveal_strlit("line_speed");
    reveal_strlit("auto_speed");
    reveal_strlit("auto_defer");
    reveal_strlit("post_health");
    reveal_strlit("post_health_defer");
    reveal_strlit("wall_hide_adult");
    reveal_strlit("auto_connections");
    reveal_strlit("conntune");
    reveal_strlit("tune_hint");
    reveal_strlit("auto_prefetch");
    reveal_strlit("race_stragglers");
    reveal_strlit("adaptive_timeouts");
    reveal_strlit("oracle_route");
    reveal_strlit("oracle_sample");
    reveal_strlit("bench_interval");
    reveal_strlit("schedule");
    assert(mark(r[0].name) == 2349);
    assert(mark(r[1].name) == 2346);
    assert(mark(r[2].name) == 2416);
    assert(mark(r[3].name) == 2386);
    assert(mark(r[4].name) == 2494);
    assert(mark(r[5].name) == 3106);
    assert(mark(r[6].name) == 2856);
    assert(mark(r[7].name) == 3022);
    assert(mark(r[8].name) == 2221);
    assert(mark(r[9].name) == 2249);
    assert(mark(r[10].name) == 2683);
    assert(mark(r[11].name) == 2873);
    assert(mark(r[12].name) == 3120);
    assert(mark(r[13].name) == 2568);
    assert(mark(r[14].name) == 2665);
    assert(mark(r[15].name) == 2765);
    assert(mark(r[16].name) == 2110);
}

proof fn rename_places()
    ensures
        rename_rows().len() == 18,
        placed(rename_rows(), 43),
{
    reveal(placed);
    let r = rename_rows();
    reveal_strlit("auto_rename");
    reveal_strlit("identity_lookup");
    reveal_strlit("rename_resolution");
    reveal_strlit("rename_vcodec");
    reveal_strlit("rename_acodec");
    reveal_strlit("rename_source");
    reveal_strlit("rename_group");
    reveal_strlit("rename_year_parens");
    reveal_strlit("rename_quality_brackets");
    reveal_strlit("rename_extra_words");
    reveal_strlit("rename_identify");
    reveal_strlit("rename_episode_titles");
    reveal_strlit("rename_junk");
    reveal_strlit("rename_media_only");
    reveal_strlit("history_rows");
    reveal_strlit("history_color_names");
    reveal_strlit("media_chip_color");
    reveal_strlit("shape_chip_color");
    assert(mark(r[0].name) == 2537);
    assert(mark(r[1].name) == 2966);
    assert(mark(r[2].name) == 3069);
    assert(mark(r[3].name) == 2666);
    assert(mark(r[4].name) == 2603);
    assert(mark(r[5].name) == 2675);
    assert(mark(r[6].name) == 2530);
    assert(mark(r[7].name) == 3184);
    assert(mark(r[8].name) == 3639);
    assert(mark(r[9].name) == 3115);
    assert(mark(r[10].name) == 2842);
    assert(mark(r[11].name) == 3430);
    assert(mark(r[12].name) == 2415);
    assert(mark(r[13].name) == 3039);
    assert(mark(r[14].name) == 2639);
    assert(mark(r[15].name) == 3288);
    assert(mark(r[16].name) == 2980);
    assert(mark(r[17].name) == 3029);
}

proof fn indexing_places()
    ensures
        indexing_rows().len() == 34,
        placed(indexing_rows(), 61),
{
    reveal(placed);
    let r = indexing_rows();
    reveal_strlit("index_enabled");
    reveal_strlit("spot_enabled");
    reveal_strlit("spot_groups");
    reveal_strlit("spot_backfill");
    reveal_strlit("library_cats");
    reveal_strlit("library_recheck_secs");
    reveal_strlit("index_groups");
    reveal_strlit("index_interests");
    reveal_strlit("index_interests_applied");
    reveal_strlit("index_interval_secs");
    reveal_strlit("index_scan_par");
    reveal_strlit("index_tip_secs");
    reveal_strlit("index_backfill");
    reveal_strlit("index_deepen");
    reveal_strlit("index_coverage");
    reveal_strlit("index_gapfill");
    reveal_strlit("group_desc_isc");
    reveal_strlit("index_max_age_secs");
    reveal_strlit("index_retention");
    reveal_strlit("index_pause_on_download");
    reveal_strlit("index_paused");
    reveal_strlit("index_max_bytes");
    reveal_strlit("index_evict");
    reveal_strlit("index_evict_order");
    reveal_strlit("index_evict_kinds");
    reveal_strlit("index_gates");
    reveal_strlit("predb_enabled");
    reveal_strlit("predb_server");
    reveal_strlit("predb_channels");
    reveal_strlit("predb_nick");
    reveal_strlit("predb_corr_enabled");
    reveal_strlit("predb_corr_auto");
    reveal_strlit("predb_max_rows");
    reveal_strlit("predb_seed_days");
    assert(mark(r[0].name) == 2631);
    assert(mark(r[1].name) == 2597);
    assert(mark(r[2].name) == 2578);
    assert(mark(r[3].name) == 2715);
    assert(mark(r[4].name) == 2580);
    assert(mark(r[5].name) == 3428);
    assert(mark(r[6].name) == 2582);
    assert(mark(r[7].name) == 2840);
    assert(mark(r[8].name) == 3661);
    assert(mark(r[9].name) == 3282);
    assert(mark(r[10].name) == 2689);
    assert(mark(r[11].name) == 2767);
    assert(mark(r[12].name) == 2704);
    assert(mark(r[13].name) == 2513);
    assert(mark(r[14].name) == 2782);
    assert(mark(r[15].name) == 2604);
    assert(mark(r[16].name) == 2807);
    assert(mark(r[17].name) == 3143);
    assert(mark(r[18].name) == 2858);
    assert(mark(r[19].name) == 3622);
    assert(mark(r[20].name) == 2549);
    assert(mark(r[21].name) == 2861);
    assert(mark(r[22].name) == 2515);
    assert(mark(r[23].name) == 3103);
    assert(mark(r[24].name) == 3076);
    assert(mark(r[25].name) == 2389);
    assert(mark(r[26].name) == 2624);
    assert(mark(r[27].name) == 2545);
    assert(mark(r[28].name) == 2742);
    assert(mark(r[29].name) == 2345);
    assert(mark(r[30].name) == 3127);
    assert(mark(r[31].name) == 2824);
    assert(mark(r[32].name) == 2733);
    assert(mark(r[33].name) == 2803);
}

proof fn automation_places()
    ensures
        automation_rows().len() == 22,
        placed(automation_rows(), 95),
{
    reveal(placed);
    let r = automation_rows();
    reveal_strlit("prefer_quality");
    reveal_strlit("feeds");
    reveal_strlit("indexers");
    reveal_strlit("watchlist");
    reveal_strlit("watchlist_external");
    reveal_strlit("watchlist_instant");
    reveal_strlit("watchlist_instant_max");
    reveal_strlit("smart_folders");
    reveal_strlit("custom_categories");
    reveal_strlit("cleanup_exts");
    reveal_strlit("password_file");
    reveal_strlit("password_file_count");
    reveal_strlit("password_prompt");
    reveal_strlit("unpack_eat_volumes");
    reveal_strlit("par_cleanup");
    reveal_strlit("watch_keep_nzb");
    reveal_strlit("fast_par");
    reveal_strlit("prefer_external_unrar");
    reveal_strlit("notify_targets");
    reveal_strlit("failure_link");
    reveal_strlit("arr_giveup_threshold");
    reveal_strlit("arr_instances");
    assert(mark(r[0].name) == 2777);
    assert(mark(r[1].name) == 1503);
    assert(mark(r[2].name) == 2212);
    assert(mark(r[3].name) == 2262);
    assert(mark(r[4].name) == 3180);
    assert(mark(r[5].name) == 3086);
    assert(mark(r[6].name) == 3423);
    assert(mark(r[7].name) == 2731);
    assert(mark(r[8].name) == 3151);
    assert(mark(r[9].name) == 2467);
    assert(mark(r[10].name) == 2711);
    assert(mark(r[11].name) == 3338);
    assert(mark(r[12].name) == 2938);
    assert(mark(r[13].name) == 3133);
    assert(mark(r[14].name) == 2347);
    assert(mark(r[15].name) == 2681);
    assert(mark(r[16].name) == 2239);
    assert(mark(r[17].name) == 3447);
    assert(mark(r[18].name) == 2792);
    assert(mark(r[19].name) == 2565);
    assert(mark(r[20].name) == 3280);
    assert(mark(r[21].name) == 2643);
}

proof fn interface_places()
    ensures
        interface_rows().len() == 4,
        placed(interface_rows(), 117),
{
    reveal(placed);
    let r = interface_rows();
    reveal_strlit("update_checks");
    reveal_strlit("unit_bits");
    reveal_strlit("update_url");
    reveal_strlit("ui_locale");
    assert(mark(r[0].name) == 2579);
    assert(mark(r[1].name) == 2354);
    assert(mark(r[2].name) == 2315);
    assert(mark(r[3].name) == 2277);
}

proof fn keys_places()
    ensures
        keys_rows().len() == 6,
        placed(keys_rows(), 121),
{
    reveal(placed);
    let r = keys_rows();
    reveal_strlit("apikey");
    reveal_strlit("nzbkey");
    reveal_strlit("omdb_key");
    reveal_strlit("has_apikey");
    reveal_strlit("has_nzbkey");
    reveal_strlit("has_omdb");
    assert(mark(r[0].name) == 1664);
    assert(mark(r[1].name) == 1643);
    assert(mark(r[2].name) == 2134);
    assert(mark(r[3].name) == 2301);
    assert(mark(r[4].name) == 2280);
    assert(mark(r[5].name) == 2092);
}

proof fn runtime_places()
    ensures
        runtime_rows().len() == 4,
        placed(runtime_rows(), 127),
{
    reveal(placed);
    let r = runtime_rows();
    reveal_strlit("servers");
    reveal_strlit("servers_configured");
    reveal_strlit("pending");
    reveal_strlit("set_pause");
    assert(mark(r[0].name) == 1880);
    assert(mark(r[1].name) == 3262);
    assert(mark(r[2].name) == 1700);
    assert(mark(r[3].name) == 2201);
}

proof fn paths_marks()
    ensures
        mark("port"@) == 1548,
        mark("out_dir"@) == 1650,
        mark("move_completed"@) == 2737,
        mark("move_completed_cats"@) == 3231,
        mark("categories"@) == 2364,
        mark("watch"@) == 1484,
        mark("watch_interval_secs"@) == 3268,
        mark("delete_to_trash"@) == 2897,
        mark("script"@) == 1677,
        mark("script_timeout_secs"@) == 3328,
        mark("index_db"@) == 2161,
        mark("config_path"@) == 2486,
        mark("settings_path"@) == 2793,
{
    reveal_strlit("port");
    reveal_strlit("out_dir");
    reveal_strlit("move_completed");
    reveal_strlit("move_completed_cats");
    reveal_strlit("categories");
    reveal_strlit("watch");
    reveal_strlit("watch_interval_secs");
    reveal_strlit("delete_to_trash");
    reveal_strlit("script");
    reveal_strlit("script_timeout_secs");
    reveal_strlit("index_db");
    reveal_strlit("config_path");
    reveal_strlit("settings_path");
}

proof fn download_marks()
    ensures
        mark("connections"@) == 2500,
        mark("window"@) == 1630,
        mark("decoders"@) == 2222,
        mark("fast_verify"@) == 2596,
        mark("verify_mode"@) == 2489,
        mark("min_free"@) == 2074,
        mark("out_umask"@) == 2237,
        mark("auto_retry_mins"@) == 2952,
        mark("quota"@) == 1663,
        mark("quota_period"@) == 2657,
        mark("nested_max_depth"@) == 3042,
        mark("mem_limit"@) == 2195,
        mark("mem_budget_total"@) == 2907,
{
    reveal_strlit("connections");
    reveal_strlit("window");
    reveal_strlit("decoders");
    reveal_strlit("fast_verify");
    reveal_strlit("verify_mode");
    reveal_strlit("min_free");
    reveal_strlit("out_umask");
    reveal_strlit("auto_retry_mins");
    reveal_strlit("quota");
    reveal_strlit("quota_period");
    reveal_strlit("nested_max_depth");
    reveal_strlit("mem_limit");
    reveal_strlit("mem_budget_total");
}

proof fn speed_marks()
    ensures
        mark("speedlimit"@) == 2349,
        mark("line_speed"@) == 2346,
        mark("auto_speed"@) == 2416,
        mark("auto_defer"@) == 2386,
        mark("post_health"@) == 2494,
        mark("post_health_defer"@) == 3106,
        mark("wall_hide_adult"@) == 2856,
        mark("auto_connections"@) == 3022,
        mark("conntune"@) == 2221,
        mark("tune_hint"@) == 2249,
        mark("auto_prefetch"@) == 2683,
        mark("race_stragglers"@) == 2873,
        mark("adaptive_timeouts"@) == 3120,
        mark("oracle_route"@) == 2568,
        mark("oracle_sample"@) == 2665,
        mark("bench_interval"@) == 2765,
        mark("schedule"@) == 2110,
{
    reveal_strlit("speedlimit");
    reveal_strlit("line_speed");
    reveal_strlit("auto_speed");
    reveal_strlit("auto_defer");
    reveal_strlit("post_health");
    reveal_strlit("post_health_defer");
    reveal_strlit("wall_hide_adult");
    reveal_strlit("auto_connections");
    reveal_strlit("conntune");
    reveal_strlit("tune_hint");
    reveal_strlit("auto_prefetch");
    reveal_strlit("race_stragglers");
    reveal_strlit("adaptive_timeouts");
    reveal_strlit("oracle_route");
    reveal_strlit("oracle_sample");
    reveal_strlit("bench_interval");
    reveal_strlit("schedule");
}

proof fn rename_marks()
    ensures
        mark("auto_rename"@) == 2537,
        mark("identity_lookup"@) == 2966,
        mark("rename_resolution"@) == 3069,
        mark("rename_vcodec"@) == 2666,
        mark("rename_acodec"@) == 2603,
        mark("rename_source"@) == 2675,
        mark("rename_group"@) == 2530,
        mark("rename_year_parens"@) == 3184,
        mark("rename_quality_brackets"@) == 3639,
        mark("rename_extra_words"@) == 3115,
        mark("rename_identify"@) == 2842,
        mark("rename_episode_titles"@) == 3430,
        mark("rename_junk"@) == 2415,
        mark("rename_media_only"@) == 3039,
        mark("history_rows"@) == 2639,
        mark("history_color_names"@) == 3288,
        mark("media_chip_color"@) == 2980,
        mark("shape_chip_color"@) == 3029,
{
    reveal_strlit("auto_rename");
    reveal_strlit("identity_lookup");
    reveal_strlit("rename_resolution");
    reveal_strlit("rename_vcodec");
    reveal_strlit("rename_acodec");
    reveal_strlit("rename_source");
    reveal_strlit("rename_group");
    reveal_strlit("rename_year_parens");
    reveal_strlit("rename_quality_brackets");
    reveal_strlit("rename_extra_words");
    reveal_strlit("rename_identify");
    reveal_strlit("rename_episode_titles");
    reveal_strlit("rename_junk");
    reveal_strlit("rename_media_only");
    reveal_strlit("history_rows");
    reveal_strlit("history_color_names");
    reveal_strlit("media_chip_color");
    reveal_strlit("shape_chip_color");
}

proof fn indexing_marks()
    ensures
        mark("index_enabled"@) == 2631,
        mark("spot_enabled"@) == 2597,
        mark("spot_groups"@) == 2578,
        mark("spot_backfill"@) == 2715,
        mark("library_cats"@) == 2580,
        mark("library_recheck_secs"@) == 3428,
        mark("index_groups"@) == 2582,
        mark("index_interests"@) == 2840,
        mark("index_interests_applied"@) == 3661,
        mark("index_interval_secs"@) == 3282,
        mark("index_scan_par"@) == 2689,
        mark("index_tip_secs"@) == 2767,
        mark("index_backfill"@) == 2704,
        mark("index_deepen"@) == 2513,
        mark("index_coverage"@) == 2782,
        mark("index_gapfill"@) == 2604,
        mark("group_desc_isc"@) == 2807,
        mark("index_max_age_secs"@) == 3143,
        mark("index_retention"@) == 2858,
        mark("index_pause_on_download"@) == 3622,
        mark("index_paused"@) == 2549,
        mark("index_max_bytes"@) == 2861,
        mark("index_evict"@) == 2515,
        mark("index_evict_order"@) == 3103,
        mark("index_evict_kinds"@) == 3076,
        mark("index_gates"@) == 2389,
        mark("predb_enabled"@) == 2624,
        mark("predb_server"@) == 2545,
        mark("predb_channels"@) == 2742,
        mark("predb_nick"@) == 2345,
        mark("predb_corr_enabled"@) == 3127,
        mark("predb_corr_auto"@) == 2824,
        mark("predb_max_rows"@) == 2733,
        mark("predb_seed_days"@) == 2803,
{
    reveal_strlit("index_enabled");
    reveal_strlit("spot_enabled");
    reveal_strlit("spot_groups");
    reveal_strlit("spot_backfill");
    reveal_strlit("library_cats");
    reveal_strlit("library_recheck_secs");
    reveal_strlit("index_groups");
    reveal_strlit("index_interests");
    reveal_strlit("index_interests_applied");
    reveal_strlit("index_interval_secs");
    reveal_strlit("index_scan_par");
    reveal_strlit("index_tip_secs");
    reveal_strlit("index_backfill");
    reveal_strlit("index_deepen");
    reveal_strlit("index_coverage");
    reveal_strlit("index_gapfill");
    reveal_strlit("group_desc_isc");
    reveal_strlit("index_max_age_secs");
    reveal_strlit("index_retention");
    reveal_strlit("index_pause_on_download");
    reveal_strlit("index_paused");
    reveal_strlit("index_max_bytes");
    reveal_strlit("index_evict");
    reveal_strlit("index_evict_order");
    reveal_strlit("index_evict_kinds");
    reveal_strlit("index_gates");
    reveal_strlit("predb_enabled");
    reveal_strlit("predb_server");
    reveal_strlit("predb_channels");
    reveal_strlit("predb_nick");
    reveal_strlit("predb_corr_enabled");
    reveal_strlit("predb_corr_auto");
    reveal_strlit("predb_max_rows");
    reveal_strlit("predb_seed_days");
}

proof fn automation_marks()
    ensures
        mark("prefer_quality"@) == 2777,
        mark("feeds"@) == 1503,
        mark("indexers"@) == 2212,
        mark("watchlist"@) == 2262,
        mark("watchlist_external"@) == 3180,
        mark("watchlist_instant"@) == 3086,
        mark("watchlist_instant_max"@) == 3423,
        mark("smart_folders"@) == 2731,
        mark("custom_categories"@) == 3151,
        mark("cleanup_exts"@) == 2467,
        mark("password_file"@) == 2711,
        mark("password_file_count"@) == 3338,
        mark("password_prompt"@) == 2938,
        mark("unpack_eat_volumes"@) == 3133,
        mark("par_cleanup"@) == 2347,
        mark("watch_keep_nzb"@) == 2681,
        mark("fast_par"@) == 2239,
        mark("prefer_external_unrar"@) == 3447,
        mark("notify_targets"@) == 2792,
        mark("failure_link"@) == 2565,
        mark("arr_giveup_threshold"@) == 3280,
        mark("arr_instances"@) == 2643,
{
    reveal_strlit("prefer_quality");
    reveal_strlit("feeds");
    reveal_strlit("indexers");
    reveal_strlit("watchlist");
    reveal_strlit("watchlist_external");
    reveal_strlit("watchlist_instant");
    reveal_strlit("watchlist_instant_max");
    reveal_strlit("smart_folders");
    reveal_strlit("custom_categories");
    reveal_strlit("cleanup_exts");
    reveal_strlit("password_file");
    reveal_strlit("password_file_count");
    reveal_strlit("password_prompt");
    reveal_strlit("unpack_eat_volumes");
    reveal_strlit("par_cleanup");
    reveal_strlit("watch_keep_nzb");
    reveal_strlit("fast_par");
    reveal_strlit("prefer_external_unrar");
    reveal_strlit("notify_targets");
    reveal_strlit("failure_link");
    reveal_strlit("arr_giveup_threshold");
    reveal_strlit("arr_instances");
}

proof fn interface_marks()
    ensures
        mark("update_checks"@) == 2579,
        mark("unit_bits"@) == 2354,
        mark("update_url"@) == 2315,
        mark("ui_locale"@) == 2277,
{
    reveal_strlit("update_checks");
    reveal_strlit("unit_bits");
    reveal_strlit("update_url");
    reveal_strlit("ui_locale");
}

proof fn keys_marks()
    ensures
        mark("apikey"@) == 1664,
        mark("nzbkey"@) == 1643,
        mark("omdb_key"@) == 2134,
        mark("has_apikey"@) == 2301,
        mark("has_nzbkey"@) == 2280,
        mark("has_omdb"@) == 2092,
{
    reveal_strlit("apikey");
    reveal_strlit("nzbkey");
    reveal_strlit("omdb_key");
    reveal_strlit("has_apikey");
    reveal_strlit("has_nzbkey");
    reveal_strlit("has_omdb");
}

proof fn runtime_marks()
    ensures
        mark("servers"@) == 1880,
        mark("servers_configured"@) == 3262,
        mark("pending"@) == 1700,
        mark("set_pause"@) == 2201,
{
    reveal_strlit("servers");
    reveal_strlit("servers_configured");
    reveal_strlit("pending");
    reveal_strlit("set_pause");
}

/// The names of the settings are told apart by their marks.
pub proof fn names_have_marks()
    ensures
        mark("port"@) == 1548,
        mark("out_dir"@) == 1650,
        mark("move_completed"@) == 2737,
        mark("move_completed_cats"@) == 3231,
        mark("categories"@) == 2364,
        mark("watch"@) == 1484,
        mark("watch_interval_secs"@) == 3268,
        mark("delete_to_trash"@) == 2897,
        mark("script"@) == 1677,
        mark("script_timeout_secs"@) == 3328,
        mark("index_db"@) == 2161,
        mark("config_path"@) == 2486,
        mark("settings_path"@) == 2793,
        mark("connections"@) == 2500,
        mark("window"@) == 1630,
        mark("decoders"@) == 2222,
        mark("fast_verify"@) == 2596,
        mark("verify_mode"@) == 2489,
        mark("min_free"@) == 2074,
        mark("out_umask"@) == 2237,
        mark("auto_retry_mins"@) == 2952,
        mark("quota"@) == 1663,
        mark("quota_period"@) == 2657,
        mark("nested_max_depth"@) == 3042,
        mark("mem_limit"@) == 2195,
        mark("mem_budget_total"@) == 2907,
        mark("speedlimit"@) == 2349,
        mark("line_speed"@) == 2346,
        mark("auto_speed"@) == 2416,
        mark("auto_defer"@) == 2386,
        mark("post_health"@) == 2494,
        mark("post_health_defer"@) == 3106,
        mark("wall_hide_adult"@) == 2856,
        mark("auto_connections"@) == 3022,
        mark("conntune"@) == 2221,
        mark("tune_hint"@) == 2249,
        mark("auto_prefetch"@) == 2683,
        mark("race_stragglers"@) == 2873,
        mark("adaptive_timeouts"@) == 3120,
        mark("oracle_route"@) == 2568,
        mark("oracle_sample"@) == 2665,
        mark("bench_interval"@) == 2765,
        mark("schedule"@) == 2110,
        mark("auto_rename"@) == 2537,
        mark("identity_lookup"@) == 2966,
        mark("rename_resolution"@) == 3069,
        mark("rename_vcodec"@) == 2666,
        mark("rename_acodec"@) == 2603,
        mark("rename_source"@) == 2675,
        mark("rename_group"@) == 2530,
        mark("rename_year_parens"@) == 3184,
        mark("rename_quality_brackets"@) == 3639,
        mark("rename_extra_words"@) == 3115,
        mark("rename_identify"@) == 2842,
        mark("rename_episode_titles"@) == 3430,
        mark("rename_junk"@) == 2415,
        mark("rename_media_only"@) == 3039,
        mark("history_rows"@) == 2639,
        mark("history_color_names"@) == 3288,
        mark("media_chip_color"@) == 2980,
        mark("shape_chip_color"@) == 3029,
        mark("index_enabled"@) == 2631,
        mark("spot_enabled"@) == 2597,
        mark("spot_groups"@) == 2578,
        mark("spot_backfill"@) == 2715,
        mark("library_cats"@) == 2580,
        mark("library_recheck_secs"@) == 3428,
        mark("index_groups"@) == 2582,
        mark("index_interests"@) == 2840,
        mark("index_interests_applied"@) == 3661,
        mark("index_interval_secs"@) == 3282,
        mark("index_scan_par"@) == 2689,
        mark("index_tip_secs"@) == 2767,
        mark("index_backfill"@) == 2704,
        mark("index_deepen"@) == 2513,
        mark("index_coverage"@) == 2782,
        mark("index_gapfill"@) == 2604,
        mark("group_desc_isc"@) == 2807,
        mark("index_max_age_secs"@) == 3143,
        mark("index_retention"@) == 2858,
        mark("index_pause_on_download"@) == 3622,
        mark("index_paused"@) == 2549,
        mark("index_max_bytes"@) == 2861,
        mark("index_evict"@) == 2515,
        mark("index_evict_order"@) == 3103,
        mark("index_evict_kinds"@) == 3076,
        mark("index_gates"@) == 2389,
        mark("predb_enabled"@) == 2624,
        mark("predb_server"@) == 2545,
        mark("predb_channels"@) == 2742,
        mark("predb_nick"@) == 2345,
        mark("predb_corr_enabled"@) == 3127,
        mark("predb_corr_auto"@) == 2824,
        mark("predb_max_rows"@) == 2733,
        mark("predb_seed_days"@) == 2803,
        mark("prefer_quality"@) == 2777,
        mark("feeds"@) == 1503,
        mark("indexers"@) == 2212,
        mark("watchlist"@) == 2262,
        mark("watchlist_external"@) == 3180,
        mark("watchlist_instant"@) == 3086,
        mark("watchlist_instant_max"@) == 3423,
        mark("smart_folders"@) == 2731,
        mark("custom_categories"@) == 3151,
        mark("cleanup_exts"@) == 2467,
        mark("password_file"@) == 2711,
        mark("password_file_count"@) == 3338,
        mark("password_prompt"@) == 2938,
        mark("unpack_eat_volumes"@) == 3133,
        mark("par_cleanup"@) == 2347,
        mark("watch_keep_nzb"@) == 2681,
        mark("fast_par"@) == 2239,
        mark("prefer_external_unrar"@) == 3447,
        mark("notify_targets"@) == 2792,
        mark("failure_link"@) == 2565,
        mark("arr_giveup_threshold"@) == 3280,
        mark("arr_instances"@) == 2643,
        mark("update_checks"@) == 2579,
        mark("unit_bits"@) == 2354,
        mark("update_url"@) == 2315,
        mark("ui_locale"@) == 2277,
        mark("apikey"@) == 1664,
        mark("nzbkey"@) == 1643,
        mark("omdb_key"@) == 2134,
        mark("has_apikey"@) == 2301,
        mark("has_nzbkey"@) == 2280,
        mark("has_omdb"@) == 2092,
        mark("servers"@) == 1880,
        mark("servers_configured"@) == 3262,
        mark("pending"@) == 1700,
        mark("set_pause"@) == 2201,
{
    paths_marks();
    download_marks();
    speed_marks();
    rename_marks();
    indexing_marks();
    automation_marks();
    interface_marks();
    keys_marks();
    runtime_marks();
}

/// Rows that stand where their names say, followed by others that do.
proof fn joined_places(a: Seq<Row>, b: Seq<Row>)
    requires
        placed(a, 0),
        placed(b, a.len() as int),
    ensures
        placed(a + b, 0),
        (a + b).len() == a.len() + b.len(),
{
    reveal(placed);
    assert forall|i: int| 0 <= i < (a + b).len() implies stands_at(#[trigger] (a + b)[i], i) by {
        if i < a.len() {
            assert((a + b)[i] == a[i]);
        } else {
            assert((a + b)[i] == b[i - a.len()]);
            assert(stands_at(b[i - a.len()], a.len() + (i - a.len())));
        }
    }
}

/// Two rows that stand where their names say are one if their names are.
proof fn told_apart(list: Seq<Row>, i: int, j: int)
    requires
        placed(list, 0),
        0 <= i < list.len(),
        0 <= j < list.len(),
    ensures
        list[i].name.len() > 0,
        list[i].name == list[j].name ==> i == j,
{
    reveal(placed);
    assert(stands_at(list[i], i));
    assert(stands_at(list[j], j));
}

/// Every row of the table stands where its name says.
proof fn table_places()
    ensures
        placed(table(), 0),
{
    paths_places();
    download_places();
    speed_places();
    rename_places();
    indexing_places();
    automation_places();
    interface_places();
    keys_places();
    runtime_places();
    let a = paths_rows();
    joined_places(a, download_rows());
    let a = a + download_rows();
    joined_places(a, speed_rows());
    let a = a + speed_rows();
    joined_places(a, rename_rows());
    let a = a + rename_rows();
    joined_places(a, indexing_rows());
    let a = a + indexing_rows();
    joined_places(a, automation_rows());
    let a = a + automation_rows();
    joined_places(a, interface_rows());
    let a = a + interface_rows();
    joined_places(a, keys_rows());
    let a = a + keys_rows();
    joined_places(a, runtime_rows());
}

/// No two rows of the table share a name, and none is without one.
pub proof fn no_name_stands_twice(i: int, j: int)
    requires
        0 <= i < table().len(),
        0 <= j < table().len(),
    ensures
        table()[i].name.len() > 0,
        table()[i].name == table()[j].name ==> i == j,
{
    table_places();
    told_apart(table(), i, j);
}

/// What is found in a list of rows is the first of that name.
proof fn found_row(list: Seq<Row>, name: Seq<char>)
    ensures
        match find_row(list, name) {
            Some(r) => r.name == name && list.contains(r),
            None => forall|i: int| 0 <= i < list.len() ==> (#[trigger] list[i]).name != name,
        },
    decreases list.len(),
{
    if list.len() > 0 && list[0].name == name {
        assert(list.contains(list[0]));
    } else if list.len() > 0 {
        let rest = list.drop_first();
        found_row(rest, name);
        match find_row(rest, name) {
            Some(r) => {
                let i = choose|i: int| 0 <= i < rest.len() && rest[i] == r;
                assert(list[i + 1] == r);
            },
            None => {
                assert forall|i: int| 0 <= i < list.len() implies (#[trigger] list[i]).name
                    != name by {
                    if i > 0 {
                        assert(rest[i - 1] == list[i]);
                    }
                }
            },
        }
    }
}

/// Every row is found by its name, which counts letter for letter, and
/// nothing is found by any other name.
pub proof fn a_row_is_found_by_its_name_alone(row: Row, name: Seq<char>)
    ensures
        row_named(name) == Some(row) <==> table().contains(row) && row.name == name,
        row_named(name) is None <==> forall|i: int|
            0 <= i < table().len() ==> (#[trigger] table()[i]).name != name,
{
    reveal(row_named);
    found_row(table(), name);
    match find_row(table(), name) {
        Some(r) => {
            let i = choose|i: int| 0 <= i < table().len() && table()[i] == r;
            assert(table()[i].name == name);
            if table().contains(row) && row.name == name {
                let j = choose|j: int| 0 <= j < table().len() && table()[j] == row;
                no_name_stands_twice(i, j);
            }
        },
        None => {
            if table().contains(row) && row.name == name {
                let j = choose|j: int| 0 <= j < table().len() && table()[j] == row;
                assert(table()[j].name != name);
            }
        },
    }
}

} // verus!
