//! The dashboard's figures, as the node and the market feeds last reported
//! them, and the text snippets that the page polls for.

use vstd::prelude::*;
use vstd::utf8::{decode_utf8, encode_utf8, is_char_boundary};
use crate::decimal::{decimal, format_u64, parse_u64, spec_parse_u64};

verus! {

/// Bytes of the circulating supply that the soft supply snippet shows (the
/// figure in millions).
pub const SUPPLY_PREFIX_LEN: usize = 3;

/// Rows of one page of the block list: the next page starts this far below
/// the newest height.
pub const BLOCK_LIST_PAGE_LEN: u64 = 10;

/// The figures of the dashboard. All are the text that was reported, but for
/// the peer counts.
pub struct Dashboard {
    pub height: String,
    pub sync: String,
    pub node_ver: String,
    pub proto_ver: String,
    pub hashrate: String,
    pub difficulty: String,
    pub production_cost: String,
    pub reward_ratio: String,
    pub supply: String,
    pub soft_supply: String,
    pub inflation: String,
    pub price_usd: String,
    pub price_btc: String,
    pub volume_usd: String,
    pub volume_btc: String,
    pub cap_usd: String,
    pub cap_btc: String,
    pub disk_usage: String,
    pub txns: String,
    pub stem: String,
    pub inbound: u64,
    pub outbound: u64,
}

/// Transaction counts and fees of the last hour and of the last day.
pub struct Transactions {
    pub period_1h: String,
    pub period_24h: String,
    pub fees_1h: String,
    pub fees_24h: String,
}

impl Dashboard {
    pub open spec fn is_blank(&self) -> bool {
        &&& self.height@.len() == 0
        &&& self.sync@.len() == 0
        &&& self.node_ver@.len() == 0
        &&& self.proto_ver@.len() == 0
        &&& self.hashrate@.len() == 0
        &&& self.difficulty@.len() == 0
        &&& self.production_cost@.len() == 0
        &&& self.reward_ratio@.len() == 0
        &&& self.supply@.len() == 0
        &&& self.soft_supply@.len() == 0
        &&& self.inflation@.len() == 0
        &&& self.price_usd@.len() == 0
        &&& self.price_btc@.len() == 0
        &&& self.volume_usd@.len() == 0
        &&& self.volume_btc@.len() == 0
        &&& self.cap_usd@.len() == 0
        &&& self.cap_btc@.len() == 0
        &&& self.disk_usage@.len() == 0
        &&& self.txns@.len() == 0
        &&& self.stem@.len() == 0
        &&& self.inbound == 0
        &&& self.outbound == 0
    }

    /// A dashboard before anything has been reported.
    pub fn new() -> (r: Dashboard)
        ensures
            r.is_blank(),
    {
        Dashboard {
            height: String::new(),
            sync: String::new(),
            node_ver: String::new(),
            proto_ver: String::new(),
            hashrate: String::new(),
            difficulty: String::new(),
            production_cost: String::new(),
            reward_ratio: String::new(),
            supply: String::new(),
            soft_supply: String::new(),
            inflation: String::new(),
            price_usd: String::new(),
            price_btc: String::new(),
            volume_usd: String::new(),
            volume_btc: String::new(),
            cap_usd: String::new(),
            cap_btc: String::new(),
            disk_usage: String::new(),
            txns: String::new(),
            stem: String::new(),
            inbound: 0,
            outbound: 0,
        }
    }
}

impl Transactions {
    /// No transactions counted yet.
    pub fn new() -> (r: Transactions)
        ensures
            r.period_1h@.len() == 0,
            r.period_24h@.len() == 0,
            r.fees_1h@.len() == 0,
            r.fees_24h@.len() == 0,
    {
        Transactions {
            period_1h: String::new(),
            period_24h: String::new(),
            fees_1h: String::new(),
            fees_24h: String::new(),
        }
    }
}

/// `prefix` followed by `s`.
fn prefixed(prefix: &str, s: &String) -> (r: String)
    ensures
        r@ == prefix@ + s@,
{
    let mut r = String::from_str(prefix);
    r.append(s.as_str());
    r
}

/// `s` followed by `suffix`.
fn suffixed(s: &String, suffix: &str) -> (r: String)
    ensures
        r@ == s@ + suffix@,
{
    let mut r = s.clone();
    r.append(suffix);
    r
}

/// Inbound peers, in decimal.
pub fn peers_inbound(d: &Dashboard) -> (r: String)
    ensures
        r@ == decimal(d.inbound as nat),
{
    format_u64(d.inbound)
}

/// Outbound peers, in decimal.
pub fn peers_outbound(d: &Dashboard) -> (r: String)
    ensures
        r@ == decimal(d.outbound as nat),
{
    format_u64(d.outbound)
}

/// The syncing notice: shows the sync state with a spinner.
pub open spec fn syncing_html(sync: Seq<char>) -> Seq<char> {
    "Syncing ("@ + sync
        + ")\n                 <div class='spinner-grow spinner-grow-sm' role='status'>\n                 <span class='visually-hidden'>Syncing...</span></div>"@
}

/// "Synced" when the node reports no sync in progress, else the syncing
/// notice.
pub fn sync_status(d: &Dashboard) -> (r: String)
    ensures
        r@ == (if d.sync@ == "no_sync"@ {
            "Synced"@
        } else {
            syncing_html(d.sync@)
        }),
{
    let no_sync = String::from_str("no_sync");
    if d.sync == no_sync {
        String::from_str("Synced")
    } else {
        let mut r = String::from_str("Syncing (");
        r.append(d.sync.as_str());
        r.append(
            ")\n                 <div class='spinner-grow spinner-grow-sm' role='status'>\n                 <span class='visually-hidden'>Syncing...</span></div>",
        );
        r
    }
}

/// The circulating supply, with the currency sign.
pub fn market_supply(d: &Dashboard) -> (r: String)
    ensures
        r@ == "ツ "@ + d.supply@,
{
    prefixed("ツ ", &d.supply)
}

/// The characters of the first three bytes of `s`.
pub open spec fn supply_head(s: Seq<char>) -> Seq<char> {
    decode_utf8(encode_utf8(s).subrange(0, SUPPLY_PREFIX_LEN as int))
}

/// The share of the supply emitted so far, out of 3150 million; just the
/// total before the supply is known.
pub fn soft_supply(d: &Dashboard) -> (r: String)
    requires
        d.supply@.len() > 0 ==> is_char_boundary(encode_utf8(d.supply@), SUPPLY_PREFIX_LEN as int),
    ensures
        r@ == (if d.supply@.len() > 0 {
            d.soft_supply@ + " % ("@ + supply_head(d.supply@) + "M/3150M)"@
        } else {
            "3150M"@
        }),
{
    let supply = d.supply.as_str();
    if !supply.is_empty() {
        let (head, _) = supply.split_at(SUPPLY_PREFIX_LEN);
        proof {
            vstd::utf8::encode_utf8_decode_utf8(head@);
        }
        let mut r = d.soft_supply.clone();
        r.append(" % (");
        r.append(head);
        r.append("M/3150M)");
        return r;
    }
    String::from_str("3150M")
}

/// The inflation rate, in percent.
pub fn inflation_rate(d: &Dashboard) -> (r: String)
    ensures
        r@ == d.inflation@ + " %"@,
{
    suffixed(&d.inflation, " %")
}

/// Trading volume in dollars.
pub fn volume_usd(d: &Dashboard) -> (r: String)
    ensures
        r@ == "$ "@ + d.volume_usd@,
{
    prefixed("$ ", &d.volume_usd)
}

/// Trading volume in bitcoin.
pub fn volume_btc(d: &Dashboard) -> (r: String)
    ensures
        r@ == "₿ "@ + d.volume_btc@,
{
    prefixed("₿ ", &d.volume_btc)
}

/// Price in dollars.
pub fn price_usd(d: &Dashboard) -> (r: String)
    ensures
        r@ == "$ "@ + d.price_usd@,
{
    prefixed("$ ", &d.price_usd)
}

/// A character that the satoshi price drops from its front.
pub open spec fn is_zero_or_dot(c: char) -> bool {
    c == '0' || c == '.'
}

/// `s` without its leading zeros and dots.
pub open spec fn trim_zeros_and_dots(s: Seq<char>) -> Seq<char>
    decreases s.len(),
{
    if s.len() > 0 && is_zero_or_dot(s[0]) {
        trim_zeros_and_dots(s.drop_first())
    } else {
        s
    }
}

proof fn lemma_trim_skip(s: Seq<char>, i: int)
    requires
        0 <= i <= s.len(),
        forall|j: int| 0 <= j < i ==> #[trigger] is_zero_or_dot(s[j]),
    ensures
        trim_zeros_and_dots(s) == trim_zeros_and_dots(s.skip(i)),
    decreases i,
{
    if i > 0 {
        assert(is_zero_or_dot(s[0]));
        let t = s.drop_first();
        assert forall|j: int| 0 <= j < i - 1 implies #[trigger] is_zero_or_dot(t[j]) by {
            assert(t[j] == s[j + 1]);
        }
        lemma_trim_skip(t, i - 1);
        assert(t.skip(i - 1) =~= s.skip(i));
    } else {
        assert(s.skip(0) =~= s);
    }
}

/// Drops the leading zeros and dots of `s`, as `s.trim_start_matches(&['0',
/// '.'])` does. What is dropped is made of zeros and dots only, and what is
/// left starts with neither.
pub fn trim_leading_zeros_and_dots(s: &str) -> (r: &str)
    ensures
        r@ == trim_zeros_and_dots(s@),
        r@.len() <= s@.len(),
        s@ == s@.take(s@.len() - r@.len()) + r@,
        forall|j: int| 0 <= j < s@.len() - r@.len() ==> #[trigger] is_zero_or_dot(s@[j]),
        r@.len() > 0 ==> !is_zero_or_dot(r@[0]),
{
    let n = s.unicode_len();
    let mut i: usize = 0;
    while i < n
        invariant
            n == s@.len(),
            i <= n,
            forall|j: int| 0 <= j < i ==> #[trigger] is_zero_or_dot(s@[j]),
        ensures
            i <= n,
            forall|j: int| 0 <= j < i ==> #[trigger] is_zero_or_dot(s@[j]),
            i < n ==> !is_zero_or_dot(s@[i as int]),
        decreases n - i,
    {
        let c = s.get_char(i);
        if !(c == '0' || c == '.') {
            break;
        }
        i = i + 1;
    }
    let r = s.substring_char(i, n);
    proof {
        lemma_trim_skip(s@, i as int);
        assert(r@ =~= s@.skip(i as int));
        assert(s@ =~= s@.take(i as int) + r@);
        if i < n {
            assert(r@[0] == s@[i as int]);
        }
    }
    r
}

/// Dropping leading zeros and dots a second time changes nothing.
pub proof fn lemma_trim_idempotent(s: Seq<char>)
    ensures
        trim_zeros_and_dots(trim_zeros_and_dots(s)) == trim_zeros_and_dots(s),
    decreases s.len(),
{
    if s.len() > 0 && is_zero_or_dot(s[0]) {
        lemma_trim_idempotent(s.drop_first());
    }
}

/// Price in satoshis: the bitcoin price without its leading zeros and dots.
pub fn price_btc(d: &Dashboard) -> (r: String)
    ensures
        r@ == trim_zeros_and_dots(d.price_btc@) + " sats"@,
{
    let trimmed = trim_leading_zeros_and_dots(d.price_btc.as_str());
    let mut r = String::from_str(trimmed);
    r.append(" sats");
    r
}

/// Market capitalisation in dollars.
pub fn mcap_usd(d: &Dashboard) -> (r: String)
    ensures
        r@ == "$ "@ + d.cap_usd@,
{
    prefixed("$ ", &d.cap_usd)
}

/// Market capitalisation in bitcoin.
pub fn mcap_btc(d: &Dashboard) -> (r: String)
    ensures
        r@ == "₿ "@ + d.cap_btc@,
{
    prefixed("₿ ", &d.cap_btc)
}

/// The newest height, as reported.
pub fn latest_height(d: &Dashboard) -> (r: String)
    ensures
        r@ == d.height@,
{
    d.height.clone()
}

/// Disk space that the chain takes, in gigabytes.
pub fn disk_usage(d: &Dashboard) -> (r: String)
    ensures
        r@ == d.disk_usage@ + " GB"@,
{
    suffixed(&d.disk_usage, " GB")
}

/// The network's hash rate, in kilo-graphs per second.
pub fn network_hashrate(d: &Dashboard) -> (r: String)
    ensures
        r@ == d.hashrate@ + " KG/s"@,
{
    suffixed(&d.hashrate, " KG/s")
}

/// Cost of producing one coin, in dollars.
pub fn production_cost(d: &Dashboard) -> (r: String)
    ensures
        r@ == "$ "@ + d.production_cost@,
{
    prefixed("$ ", &d.production_cost)
}

/// The network difficulty, as reported.
pub fn network_difficulty(d: &Dashboard) -> (r: String)
    ensures
        r@ == d.difficulty@,
{
    d.difficulty.clone()
}

/// Transactions in the mempool, as reported.
pub fn mempool_txns(d: &Dashboard) -> (r: String)
    ensures
        r@ == d.txns@,
{
    d.txns.clone()
}

/// Transactions in the stem pool, as reported.
pub fn mempool_stem(d: &Dashboard) -> (r: String)
    ensures
        r@ == d.stem@,
{
    d.stem.clone()
}

/// A count of transactions and their fees, with the currency sign.
fn count_and_fees(count: &String, fees: &String) -> (r: String)
    ensures
        r@ == count@ + ", ツ "@ + fees@,
{
    let mut r = count.clone();
    r.append(", ツ ");
    r.append(fees.as_str());
    r
}

/// Transactions and fees of the last hour.
pub fn txns_count_1h(t: &Transactions) -> (r: String)
    ensures
        r@ == t.period_1h@ + ", ツ "@ + t.fees_1h@,
{
    count_and_fees(&t.period_1h, &t.fees_1h)
}

/// Transactions and fees of the last day.
pub fn txns_count_24h(t: &Transactions) -> (r: String)
    ensures
        r@ == t.period_24h@ + ", ツ "@ + t.fees_24h@,
{
    count_and_fees(&t.period_24h, &t.fees_24h)
}

/// The link to the block list page that follows the first one.
pub open spec fn next_page_html(start: Seq<char>) -> Seq<char> {
    "<a class='text-decoration-none' href='/block_list/"@ + start
        + "'>\n                        <div class='col-sm'><h2><i class='bi bi-arrow-right-square'></i></h2></div>\n                        </a>"@
}

/// The newest height can be turned into the start of the next page.
pub open spec fn has_next_page(height: Seq<char>) -> bool {
    spec_parse_u64(height) matches Some(h) && h >= BLOCK_LIST_PAGE_LEN
}

/// The link to the next page of the block list, which starts ten blocks below
/// the newest; nothing before a height is known.
pub fn block_list_index(d: &Dashboard) -> (r: String)
    requires
        d.height@.len() > 0 ==> has_next_page(d.height@),
    ensures
        r@ == (if d.height@.len() > 0 {
            next_page_html(decimal((spec_parse_u64(d.height@).unwrap() - BLOCK_LIST_PAGE_LEN) as nat))
        } else {
            Seq::<char>::empty()
        }),
{
    if d.height.as_str().is_empty() {
        return String::new();
    }
    let height = match parse_u64(d.height.as_str()) {
        Some(h) => h,
        None => {
            return String::new();
        }
    };
    let start = format_u64(height - BLOCK_LIST_PAGE_LEN);
    let mut r = String::from_str("<a class='text-decoration-none' href='/block_list/");
    r.append(start.as_str());
    r.append(
        "'>\n                        <div class='col-sm'><h2><i class='bi bi-arrow-right-square'></i></h2></div>\n                        </a>",
    );
    r
}

/// Whatever the sync state, the syncing notice opens with "Syncing (" and the
/// state itself, and is never the word "Synced".
pub proof fn lemma_syncing_notice_shows_state(sync: Seq<char>)
    ensures
        syncing_html(sync).len() > 9 + sync.len(),
        syncing_html(sync).take(9) == "Syncing ("@,
        syncing_html(sync).subrange(9, 9 + sync.len() as int) == sync,
        syncing_html(sync) != "Synced"@,
{
    reveal_strlit("Syncing (");
    reveal_strlit("Synced");
    reveal_strlit(
        ")\n                 <div class='spinner-grow spinner-grow-sm' role='status'>\n                 <span class='visually-hidden'>Syncing...</span></div>",
    );
    let h = syncing_html(sync);
    assert(h.take(9) =~= "Syncing ("@);
    assert(h.subrange(9, 9 + sync.len() as int) =~= sync);
    assert(h[4] == 'i');
    assert("Synced"@[4] == 'e');
}

/// For a supply written in ASCII, of any length of at least three, the soft
/// supply snippet shows its first three characters.
pub proof fn lemma_supply_head_ascii(s: Seq<char>)
    requires
        s.len() >= SUPPLY_PREFIX_LEN,
        vstd::utf8::is_ascii_chars(s),
    ensures
        supply_head(s) == s.take(SUPPLY_PREFIX_LEN as int),
{
    let t = s.take(SUPPLY_PREFIX_LEN as int);
    assert(vstd::utf8::is_ascii_chars(t)) by {
        assert forall|i: int| 0 <= i < t.len() implies '\0' <= #[trigger] t[i] <= '\u{7f}' by {
            assert(t[i] == s[i]);
        }
    }
    vstd::utf8::is_ascii_chars_encode_utf8(s);
    vstd::utf8::is_ascii_chars_encode_utf8(t);
    assert(encode_utf8(s).subrange(0, SUPPLY_PREFIX_LEN as int) =~= encode_utf8(t)) by {
        assert forall|i: int| 0 <= i < SUPPLY_PREFIX_LEN implies encode_utf8(s)[i] == #[trigger] encode_utf8(t)[i] by {
            assert(t[i] == s[i]);
        }
    }
    vstd::utf8::encode_utf8_decode_utf8(t);
}

} // verus!
