//! The recent blocks that the dashboard lists, and the snippets that it polls
//! for each of them by its position in the list.

use vstd::prelude::*;
use crate::decimal::{decimal, format_u64};

verus! {

/// What the snippets read of a block: its height and age as the node reported
/// them, and the numbers of its kernels, inputs and outputs.
pub struct Block {
    pub height: String,
    pub time: String,
    pub ker_len: u64,
    pub in_len: u64,
    pub out_len: u64,
}

/// The snippets for a position answer nothing when no block is known yet;
/// otherwise the position must be in the list.
pub open spec fn position_ok(blocks: Seq<Block>, count: usize) -> bool {
    blocks.len() == 0 || count < blocks.len()
}

/// A link to a block's page, labelled with its height.
pub open spec fn block_link_html(height: Seq<char>) -> Seq<char> {
    "<a href=/block/"@ + height + " class='text-decoration-none'>"@ + height + "</a>"@
}

/// The same link in the highlight colour.
pub open spec fn block_link_color_html(height: Seq<char>) -> Seq<char> {
    "<a href=/block/"@ + height + " class='text-decoration-none darkorange-text'>"@ + height
        + "</a>"@
}

/// Age of the newest block: that of the first in the list, or nothing.
pub fn last_block_age(blocks: &Vec<Block>) -> (r: String)
    ensures
        r@ == (if blocks@.len() == 0 {
            Seq::<char>::empty()
        } else {
            blocks@[0].time@
        }),
{
    if blocks.len() == 0 {
        return String::new();
    }
    blocks[0].time.clone()
}

/// Link to the block at position `count`.
pub fn block_link(count: usize, blocks: &Vec<Block>) -> (r: String)
    requires
        position_ok(blocks@, count),
    ensures
        r@ == (if blocks@.len() == 0 {
            Seq::<char>::empty()
        } else {
            block_link_html(blocks@[count as int].height@)
        }),
{
    if blocks.len() == 0 {
        return String::new();
    }
    let h = blocks[count].height.as_str();
    let mut s = String::from_str("<a href=/block/");
    s.append(h);
    s.append(" class='text-decoration-none'>");
    s.append(h);
    s.append("</a>");
    s
}

/// Highlighted link to the block at position `count`.
pub fn block_link_color(count: usize, blocks: &Vec<Block>) -> (r: String)
    requires
        position_ok(blocks@, count),
    ensures
        r@ == (if blocks@.len() == 0 {
            Seq::<char>::empty()
        } else {
            block_link_color_html(blocks@[count as int].height@)
        }),
{
    if blocks.len() == 0 {
        return String::new();
    }
    let h = blocks[count].height.as_str();
    let mut s = String::from_str("<a href=/block/");
    s.append(h);
    s.append(" class='text-decoration-none darkorange-text'>");
    s.append(h);
    s.append("</a>");
    s
}

/// Age of the block at position `count`.
pub fn block_time(count: usize, blocks: &Vec<Block>) -> (r: String)
    requires
        position_ok(blocks@, count),
    ensures
        r@ == (if blocks@.len() == 0 {
            Seq::<char>::empty()
        } else {
            blocks@[count as int].time@
        }),
{
    if blocks.len() == 0 {
        return String::new();
    }
    blocks[count].time.clone()
}

/// Number of kernels of the block at position `count`, in decimal.
pub fn block_txns(count: usize, blocks: &Vec<Block>) -> (r: String)
    requires
        position_ok(blocks@, count),
    ensures
        r@ == (if blocks@.len() == 0 {
            Seq::<char>::empty()
        } else {
            decimal(blocks@[count as int].ker_len as nat)
        }),
{
    if blocks.len() == 0 {
        return String::new();
    }
    format_u64(blocks[count].ker_len)
}

/// Number of inputs of the block at position `count`, in decimal.
pub fn block_inputs(count: usize, blocks: &Vec<Block>) -> (r: String)
    requires
        position_ok(blocks@, count),
    ensures
        r@ == (if blocks@.len() == 0 {
            Seq::<char>::empty()
        } else {
            decimal(blocks@[count as int].in_len as nat)
        }),
{
    if blocks.len() == 0 {
        return String::new();
    }
    format_u64(blocks[count].in_len)
}

/// Number of outputs of the block at position `count`, in decimal.
pub fn block_outputs(count: usize, blocks: &Vec<Block>) -> (r: String)
    requires
        position_ok(blocks@, count),
    ensures
        r@ == (if blocks@.len() == 0 {
            Seq::<char>::empty()
        } else {
            decimal(blocks@[count as int].out_len as nat)
        }),
{
    if blocks.len() == 0 {
        return String::new();
    }
    format_u64(blocks[count].out_len)
}

} // verus!
