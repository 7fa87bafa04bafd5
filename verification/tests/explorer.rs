use explorer::blocks::{
    block_inputs, block_link, block_link_color, block_outputs, block_time, block_txns,
    last_block_age, Block,
};
use explorer::dashboard::{
    block_list_index, disk_usage, inflation_rate, latest_height, market_supply, mcap_btc,
    mcap_usd, mempool_stem, mempool_txns, network_difficulty, network_hashrate, peers_inbound,
    peers_outbound, price_btc, price_usd, production_cost, soft_supply, sync_status,
    trim_leading_zeros_and_dots, txns_count_1h, txns_count_24h, volume_btc, volume_usd,
    Dashboard, Transactions,
};
use explorer::decimal::{format_u64, parse_u64};
use explorer::pages::{
    accepts_height_query, block_details_shown, block_list_page, lookup_redirect, BlockListPage,
};
use explorer::search::{classify_search_term, search, SearchTarget};
use explorer::text::is_all_numeric;

fn block(height: &str, time: &str, ker: u64, inputs: u64, outputs: u64) -> Block {
    Block {
        height: height.to_string(),
        time: time.to_string(),
        ker_len: ker,
        in_len: inputs,
        out_len: outputs,
    }
}

fn dashboard() -> Dashboard {
    let mut d = Dashboard::new();
    d.height = "2345678".to_string();
    d.sync = "no_sync".to_string();
    d.supply = "2345678123".to_string();
    d.soft_supply = "74.46".to_string();
    d.inflation = "2.69".to_string();
    d.price_usd = "0.04".to_string();
    d.price_btc = "0.00000065".to_string();
    d.volume_usd = "12,345".to_string();
    d.volume_btc = "0.19".to_string();
    d.cap_usd = "93,827,123".to_string();
    d.cap_btc = "1,524".to_string();
    d.disk_usage = "18.4".to_string();
    d.hashrate = "13.37".to_string();
    d.production_cost = "0.05".to_string();
    d.difficulty = "2281701".to_string();
    d.txns = "7".to_string();
    d.stem = "1".to_string();
    d.inbound = 12;
    d.outbound = 8;
    d
}

// ---- decimal text ----

#[test]
fn format_u64_writes_decimal() {
    assert_eq!(format_u64(0), "0");
    assert_eq!(format_u64(7), "7");
    assert_eq!(format_u64(10), "10");
    assert_eq!(format_u64(2345678), "2345678");
    assert_eq!(format_u64(u64::MAX), "18446744073709551615");
}

#[test]
fn format_u64_matches_to_string() {
    for n in [0u64, 1, 9, 10, 99, 100, 101, 65535, 1 << 40, u64::MAX - 1, u64::MAX] {
        assert_eq!(format_u64(n), n.to_string());
    }
}

#[test]
fn parse_u64_reads_decimal() {
    assert_eq!(parse_u64("0"), Some(0));
    assert_eq!(parse_u64("42"), Some(42));
    assert_eq!(parse_u64("+42"), Some(42));
    assert_eq!(parse_u64("007"), Some(7));
    assert_eq!(parse_u64("18446744073709551615"), Some(u64::MAX));
}

#[test]
fn parse_u64_refuses() {
    assert_eq!(parse_u64(""), None);
    assert_eq!(parse_u64("+"), None);
    assert_eq!(parse_u64("-1"), None);
    assert_eq!(parse_u64("4x"), None);
    assert_eq!(parse_u64(" 4"), None);
    assert_eq!(parse_u64("18446744073709551616"), None);
    assert_eq!(parse_u64("99999999999999999999x"), None);
    assert_eq!(parse_u64("٣"), None);
}

#[test]
fn parse_u64_matches_std() {
    for s in ["", "+", "0", "+0", "12", "012", "-3", "1 ", "18446744073709551615", "18446744073709551616", "1e3", "٣"] {
        assert_eq!(parse_u64(s), s.parse::<u64>().ok(), "input {:?}", s);
    }
}

#[test]
fn law_parse_format_roundtrip() {
    for n in [0u64, 5, 10, 12345, 4294967296, u64::MAX] {
        assert_eq!(parse_u64(&format_u64(n)), Some(n));
    }
}

// ---- numeric and lowercase (std) ----

#[test]
fn numeric_check_uses_unicode_numbers() {
    assert!(is_all_numeric(""));
    assert!(is_all_numeric("0123"));
    assert!(is_all_numeric("٣"));
    assert!(is_all_numeric("¾"));
    assert!(!is_all_numeric("12a"));
    assert!(!is_all_numeric("1.5"));
}

// ---- search ----

fn hex(n: usize, c: char) -> String {
    std::iter::repeat(c).take(n).collect()
}

#[test]
fn search_digits_go_to_block() {
    match search("search=123456") {
        SearchTarget::Block(t) => assert_eq!(t, "123456"),
        other => panic!("unexpected {:?}", other),
    }
}

#[test]
fn search_hash_goes_to_hash_page() {
    let h = format!("{}{}", hex(63, 'a'), "0");
    match search(&format!("search={}", h)) {
        SearchTarget::BlockHash(t) => assert_eq!(t, h),
        other => panic!("unexpected {:?}", other),
    }
}

#[test]
fn search_lowercases_before_routing() {
    let upper = hex(64, 'F');
    match search(&format!("search={}", upper)) {
        SearchTarget::BlockHash(t) => assert_eq!(t, hex(64, 'f')),
        other => panic!("unexpected {:?}", other),
    }
}

#[test]
fn search_kernel_goes_to_kernel_page() {
    let k = format!("08{}", hex(64, 'c'));
    match search(&format!("search={}", k)) {
        SearchTarget::Kernel(t) => assert_eq!(t, k),
        other => panic!("unexpected {:?}", other),
    }
}

#[test]
fn search_refuses_other_input() {
    assert!(matches!(search("search="), SearchTarget::Unknown));
    assert!(matches!(search("search=12g4"), SearchTarget::Unknown));
    assert!(matches!(search("search=abc"), SearchTarget::Unknown));
    assert!(matches!(search(&format!("search={}", hex(65, 'a'))), SearchTarget::Unknown));
    assert!(matches!(search("search=٣"), SearchTarget::Unknown));
    assert!(matches!(search("search=-1"), SearchTarget::Unknown));
}

#[test]
fn search_digits_of_hash_length_go_to_block() {
    let digits = hex(64, '7');
    assert!(matches!(search(&format!("search={}", digits)), SearchTarget::Block(_)));
}

#[test]
fn classify_takes_the_text_as_given() {
    assert!(matches!(classify_search_term("ABC"), SearchTarget::Unknown));
    assert!(matches!(classify_search_term("9"), SearchTarget::Block(_)));
}

#[test]
fn law_height_search_finds_block() {
    for n in [0u64, 1, 2345678, u64::MAX] {
        match classify_search_term(&format_u64(n)) {
            SearchTarget::Block(t) => assert_eq!(t, n.to_string()),
            other => panic!("unexpected {:?}", other),
        }
    }
}

// ---- pages ----

#[test]
fn block_list_page_below_latest() {
    let blocks = vec![block("100", "1m", 1, 1, 1)];
    assert_eq!(block_list_page(&blocks, 200), BlockListPage::From(100));
}

#[test]
fn block_list_page_falls_back() {
    let blocks = vec![block("200", "1m", 1, 1, 1)];
    assert_eq!(block_list_page(&blocks, 200), BlockListPage::Latest);
    assert_eq!(block_list_page(&blocks, 150), BlockListPage::Latest);
    assert_eq!(block_list_page(&Vec::new(), 150), BlockListPage::Latest);
    let unnamed = vec![block("", "1m", 1, 1, 1)];
    assert_eq!(block_list_page(&unnamed, 150), BlockListPage::Latest);
}

#[test]
fn law_next_page_is_shown() {
    let d = dashboard();
    let latest: u64 = d.height.parse().unwrap();
    let start = format_u64(latest - 10);
    let blocks = vec![block(&start, "1m", 1, 1, 1)];
    assert_eq!(block_list_page(&blocks, latest), BlockListPage::From(latest - 10));
}

#[test]
fn height_queries() {
    assert!(accepts_height_query("12"));
    assert!(!accepts_height_query(""));
    assert!(!accepts_height_query("12a"));
    let b = block("12", "1m", 1, 1, 1);
    let empty = block("", "", 0, 0, 0);
    assert!(block_details_shown("12", Some(&b)));
    assert!(!block_details_shown("12", Some(&empty)));
    assert!(!block_details_shown("12", None));
    assert!(!block_details_shown("x", Some(&b)));
}

#[test]
fn lookup_redirects() {
    assert_eq!(lookup_redirect("abcd", "77".to_string()), Some("77".to_string()));
    assert_eq!(lookup_redirect("", "77".to_string()), None);
    assert_eq!(lookup_redirect("abcd", String::new()), None);
}

// ---- block snippets ----

#[test]
fn block_snippets() {
    let blocks = vec![block("2345678", "12 s", 3, 4, 5), block("2345677", "1 m", 1, 0, 2)];
    assert_eq!(last_block_age(&blocks), "12 s");
    assert_eq!(
        block_link(1, &blocks),
        "<a href=/block/2345677 class='text-decoration-none'>2345677</a>"
    );
    assert_eq!(
        block_link_color(0, &blocks),
        "<a href=/block/2345678 class='text-decoration-none darkorange-text'>2345678</a>"
    );
    assert_eq!(block_time(1, &blocks), "1 m");
    assert_eq!(block_txns(0, &blocks), "3");
    assert_eq!(block_inputs(0, &blocks), "4");
    assert_eq!(block_outputs(1, &blocks), "2");
}

#[test]
fn block_snippets_before_any_block() {
    let blocks: Vec<Block> = Vec::new();
    assert_eq!(last_block_age(&blocks), "");
    assert_eq!(block_link(3, &blocks), "");
    assert_eq!(block_link_color(3, &blocks), "");
    assert_eq!(block_time(3, &blocks), "");
    assert_eq!(block_txns(3, &blocks), "");
    assert_eq!(block_inputs(3, &blocks), "");
    assert_eq!(block_outputs(3, &blocks), "");
}

// ---- dashboard snippets ----

#[test]
fn dashboard_snippets() {
    let d = dashboard();
    assert_eq!(peers_inbound(&d), "12");
    assert_eq!(peers_outbound(&d), "8");
    assert_eq!(market_supply(&d), "ツ 2345678123");
    assert_eq!(inflation_rate(&d), "2.69 %");
    assert_eq!(volume_usd(&d), "$ 12,345");
    assert_eq!(volume_btc(&d), "₿ 0.19");
    assert_eq!(price_usd(&d), "$ 0.04");
    assert_eq!(mcap_usd(&d), "$ 93,827,123");
    assert_eq!(mcap_btc(&d), "₿ 1,524");
    assert_eq!(latest_height(&d), "2345678");
    assert_eq!(disk_usage(&d), "18.4 GB");
    assert_eq!(network_hashrate(&d), "13.37 KG/s");
    assert_eq!(production_cost(&d), "$ 0.05");
    assert_eq!(network_difficulty(&d), "2281701");
    assert_eq!(mempool_txns(&d), "7");
    assert_eq!(mempool_stem(&d), "1");
}

#[test]
fn sync_status_synced_and_syncing() {
    let mut d = dashboard();
    assert_eq!(sync_status(&d), "Synced");
    d.sync = "body_sync".to_string();
    assert_eq!(
        sync_status(&d),
        "Syncing (body_sync)\n                 <div class='spinner-grow spinner-grow-sm' role='status'>\n                 <span class='visually-hidden'>Syncing...</span></div>"
    );
}

#[test]
fn soft_supply_shows_millions() {
    let mut d = dashboard();
    assert_eq!(soft_supply(&d), "74.46 % (234M/3150M)");
    d.supply = String::new();
    assert_eq!(soft_supply(&d), "3150M");
}

#[test]
fn price_btc_in_sats() {
    let mut d = dashboard();
    assert_eq!(price_btc(&d), "65 sats");
    d.price_btc = "0.0".to_string();
    assert_eq!(price_btc(&d), " sats");
    d.price_btc = "1.05".to_string();
    assert_eq!(price_btc(&d), "1.05 sats");
}

#[test]
fn trim_matches_std() {
    for s in ["", "0", "0.00000065", "..0.10", "10", "abc", "00ツ0"] {
        assert_eq!(trim_leading_zeros_and_dots(s), s.trim_start_matches(&['0', '.'][..]));
    }
}

#[test]
fn txns_counts() {
    let mut t = Transactions::new();
    t.period_1h = "5".to_string();
    t.fees_1h = "0.1".to_string();
    t.period_24h = "120".to_string();
    t.fees_24h = "2.4".to_string();
    assert_eq!(txns_count_1h(&t), "5, ツ 0.1");
    assert_eq!(txns_count_24h(&t), "120, ツ 2.4");
}

#[test]
fn block_list_index_links_ten_below() {
    let mut d = dashboard();
    assert_eq!(
        block_list_index(&d),
        "<a class='text-decoration-none' href='/block_list/2345668'>\n                        <div class='col-sm'><h2><i class='bi bi-arrow-right-square'></i></h2></div>\n                        </a>"
    );
    d.height = String::new();
    assert_eq!(block_list_index(&d), "");
}

#[test]
fn new_values_are_blank() {
    let d = Dashboard::new();
    assert!(d.height.is_empty() && d.sync.is_empty() && d.inbound == 0 && d.outbound == 0);
    let t = Transactions::new();
    assert!(t.period_1h.is_empty() && t.fees_24h.is_empty());
}

#[test]
fn law_trim_idempotent() {
    for s in ["", "0.00000065", "..0.10", "1.0", "000"] {
        let once = trim_leading_zeros_and_dots(s);
        assert_eq!(trim_leading_zeros_and_dots(once), once);
    }
}
