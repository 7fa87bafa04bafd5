//! Which page a request is answered with, once the node has been asked what
//! the request needs.

use vstd::prelude::*;
use crate::blocks::Block;
use crate::decimal::{decimal, lemma_parse_format_roundtrip, parse_u64, spec_parse_u64};
use crate::text::{all_numeric, is_all_numeric};

verus! {

/// The block list page: the default one that starts at the newest block, or
/// the one that starts at a given height.
#[derive(PartialEq, Eq, Structural, Clone, Copy, Debug)]
pub enum BlockListPage {
    Latest,
    From(u64),
}

/// The first block of a fetched page has a height that should be read.
pub open spec fn has_first_height(blocks: Seq<Block>) -> bool {
    blocks.len() > 0 && blocks[0].height@.len() > 0
}

/// The page for a list that the node returned, `blocks` starting at the
/// requested height, while `latest` is the newest height: a list that starts
/// at or above `latest` (or is empty) falls back to the default page.
pub open spec fn spec_block_list_page(blocks: Seq<Block>, latest: u64) -> BlockListPage {
    if has_first_height(blocks) {
        let index = spec_parse_u64(blocks[0].height@).unwrap();
        if index >= latest {
            BlockListPage::Latest
        } else {
            BlockListPage::From(index)
        }
    } else {
        BlockListPage::Latest
    }
}

/// Decides the block list page for a fetched list. A page that starts at a
/// given height is only shown below the newest height.
pub fn block_list_page(blocks: &Vec<Block>, latest: u64) -> (r: BlockListPage)
    requires
        has_first_height(blocks@) ==> spec_parse_u64(blocks@[0].height@) is Some,
    ensures
        r == spec_block_list_page(blocks@, latest),
        r matches BlockListPage::From(index) ==> index < latest,
{
    if blocks.len() > 0 && !blocks[0].height.as_str().is_empty() {
        let parsed = parse_u64(blocks[0].height.as_str());
        let index = match parsed {
            Some(v) => v,
            None => {
                return BlockListPage::Latest;
            }
        };
        if index >= latest {
            BlockListPage::Latest
        } else {
            BlockListPage::From(index)
        }
    } else {
        BlockListPage::Latest
    }
}

/// A height typed into a block address is only looked up when it is made of
/// numeric characters (`char::is_numeric`) and is not empty.
pub fn accepts_height_query(height: &str) -> (r: bool)
    ensures
        r == (height@.len() > 0 && all_numeric(height@)),
{
    !height.is_empty() && is_all_numeric(height)
}

/// Whether the block page is shown for a height query, given what the node
/// returned for it (nothing when it was not asked): only for an accepted
/// query whose block came back with a height.
pub fn block_details_shown(height: &str, fetched: Option<&Block>) -> (r: bool)
    ensures
        r == (height@.len() > 0 && all_numeric(height@) && fetched is Some
            && fetched.unwrap().height@.len() > 0),
{
    if !accepts_height_query(height) {
        return false;
    }
    match fetched {
        Some(block) => !block.height.as_str().is_empty(),
        None => false,
    }
}

/// Where a block hash or kernel lookup leads: to the block with the height
/// that the node found, when both the query and that height are not empty.
pub fn lookup_redirect(query: &str, found_height: String) -> (r: Option<String>)
    ensures
        r is Some <==> (query@.len() > 0 && found_height@.len() > 0),
        r matches Some(h) ==> h@ == found_height@,
{
    if !query.is_empty() && !found_height.as_str().is_empty() {
        Some(found_height)
    } else {
        None
    }
}

/// The next page that the dashboard links to, ten blocks below the newest
/// height, is shown as asked once the node lists blocks from that height: it
/// never falls back to the default page.
pub proof fn lemma_next_page_is_shown(blocks: Seq<Block>, latest: u64)
    requires
        latest >= crate::dashboard::BLOCK_LIST_PAGE_LEN,
        blocks.len() > 0,
        blocks[0].height@ == decimal((latest - crate::dashboard::BLOCK_LIST_PAGE_LEN) as nat),
    ensures
        spec_block_list_page(blocks, latest) == BlockListPage::From((latest - crate::dashboard::BLOCK_LIST_PAGE_LEN) as u64),
{
    lemma_parse_format_roundtrip((latest - crate::dashboard::BLOCK_LIST_PAGE_LEN) as u64);
}

/// A list that the node returned from a height below the newest is shown
/// from that height, however close to the newest; the default page comes only
/// for a start at or above the newest height, or for an empty list or an empty
/// first height.
pub proof fn lemma_block_list_page_from_start(blocks: Seq<Block>, latest: u64, index: u64)
    ensures
        blocks.len() > 0 && spec_parse_u64(blocks[0].height@) == Some(index) && index < latest
            ==> spec_block_list_page(blocks, latest) == BlockListPage::From(index),
        blocks.len() > 0 && blocks[0].height@ == decimal(index as nat) && index < latest
            ==> spec_block_list_page(blocks, latest) == BlockListPage::From(index),
        blocks.len() > 0 && spec_parse_u64(blocks[0].height@) == Some(index) && index >= latest
            ==> spec_block_list_page(blocks, latest) == BlockListPage::Latest,
        spec_block_list_page(blocks, latest) == BlockListPage::Latest ==> (blocks.len() == 0
            || blocks[0].height@.len() == 0 || spec_parse_u64(blocks[0].height@) is None
            || spec_parse_u64(blocks[0].height@).unwrap() >= latest),
{
    lemma_parse_format_roundtrip(index);
    if blocks.len() > 0 && spec_parse_u64(blocks[0].height@) == Some(index) {
        assert(blocks[0].height@.len() > 0);
    }
}

/// A height made only of numeric characters, of any length, is looked up,
/// and its block page is shown once the node returns the block.
pub proof fn lemma_numeric_heights_accepted(height: Seq<char>)
    requires
        height.len() > 0,
        forall|i: int| 0 <= i < height.len() ==> #[trigger] crate::text::spec_is_numeric(height[i]),
    ensures
        height.len() > 0 && all_numeric(height),
{
    crate::text::lemma_all_numeric_of_numeric_chars(height);
}

} // verus!
