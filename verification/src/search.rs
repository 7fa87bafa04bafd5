//! Routing of the search box: a block height, a block hash or a kernel
//! commitment, each sent to its own page; anything else is refused.

use vstd::prelude::*;
use vstd::utf8::{decode_utf8, encode_utf8, is_ascii_chars, is_char_boundary};
use crate::decimal::{all_digits, decimal, lemma_parse_format_roundtrip};
use crate::text::{char_is_numeric, is_digit, str_to_lowercase, spec_lowercase};

verus! {

/// Length of a block hash in hex digits.
pub const BLOCK_HASH_LEN: usize = 64;

/// Length of a kernel commitment in hex digits.
pub const KERNEL_LEN: usize = 66;

/// Bytes of the form field name ("search=") in front of the searched text.
pub const FORM_PREFIX_LEN: usize = 7;

/// Which page a search leads to.
#[derive(PartialEq, Eq, Structural, Clone, Copy, Debug)]
pub enum SearchKind {
    Block,
    BlockHash,
    Kernel,
    Unknown,
}

/// Where a search leads, with the (lowercased) searched text that the page is
/// asked for.
#[derive(Debug)]
pub enum SearchTarget {
    Block(String),
    BlockHash(String),
    Kernel(String),
    Unknown,
}

impl SearchTarget {
    pub open spec fn kind(self) -> SearchKind {
        match self {
            SearchTarget::Block(_) => SearchKind::Block,
            SearchTarget::BlockHash(_) => SearchKind::BlockHash,
            SearchTarget::Kernel(_) => SearchKind::Kernel,
            SearchTarget::Unknown => SearchKind::Unknown,
        }
    }

    pub open spec fn term(self) -> Seq<char> {
        match self {
            SearchTarget::Block(t) => t@,
            SearchTarget::BlockHash(t) => t@,
            SearchTarget::Kernel(t) => t@,
            SearchTarget::Unknown => Seq::empty(),
        }
    }
}

/// A lowercase hexadecimal digit.
pub open spec fn is_hex_char(c: char) -> bool {
    ('a' <= c && c <= 'f') || ('0' <= c && c <= '9')
}

pub open spec fn all_hex(s: Seq<char>) -> bool {
    forall|i: int| 0 <= i < s.len() ==> #[trigger] is_hex_char(s[i])
}

/// The page for a (lowercased) searched text: digits name a block by height,
/// 64 hex digits a block by hash, 66 hex digits a kernel.
pub open spec fn search_kind(term: Seq<char>) -> SearchKind {
    if term.len() > 0 && all_hex(term) {
        if all_digits(term) {
            SearchKind::Block
        } else if term.len() == BLOCK_HASH_LEN {
            SearchKind::BlockHash
        } else if term.len() == KERNEL_LEN {
            SearchKind::Kernel
        } else {
            SearchKind::Unknown
        }
    } else {
        SearchKind::Unknown
    }
}

/// The searched text in a form body: what follows its first seven bytes.
pub open spec fn form_search_text(body: Seq<char>) -> Seq<char> {
    let bytes = encode_utf8(body);
    decode_utf8(bytes.subrange(FORM_PREFIX_LEN as int, bytes.len() as int))
}

/// Decides where an already lowercased searched text leads.
pub fn classify_search_term(term: &str) -> (r: SearchTarget)
    ensures
        r.kind() == search_kind(term@),
        r.kind() != SearchKind::Unknown ==> r.term() == term@,
{
    if term.is_empty() {
        return SearchTarget::Unknown;
    }
    let n = term.unicode_len();
    let mut i: usize = 0;
    while i < n
        invariant
            n == term@.len(),
            i <= n,
            forall|j: int| 0 <= j < i ==> #[trigger] is_hex_char(term@[j]),
        decreases n - i,
    {
        let c = term.get_char(i);
        if !((c >= 'a' && c <= 'f') || (c >= '0' && c <= '9')) {
            assert(!is_hex_char(term@[i as int]));
            return SearchTarget::Unknown;
        }
        i = i + 1;
    }
    assert(all_hex(term@));
    // Every character is ASCII from here on, so `char::is_numeric` agrees
    // with "is a decimal digit", and bytes and characters count alike.
    let mut numeric = true;
    let mut i: usize = 0;
    while i < n
        invariant
            n == term@.len(),
            i <= n,
            all_hex(term@),
            numeric == (forall|j: int| 0 <= j < i ==> #[trigger] is_digit(term@[j])),
        decreases n - i,
    {
        let c = term.get_char(i);
        assert(is_hex_char(term@[i as int]));
        let d = char_is_numeric(c);
        if !d {
            assert(!is_digit(term@[i as int]));
        }
        numeric = numeric && d;
        i = i + 1;
    }
    if numeric {
        return SearchTarget::Block(String::from_str(term));
    }
    proof {
        assert(is_ascii_chars(term@)) by {
            assert forall|j: int| 0 <= j < term@.len() implies '\0' <= #[trigger] term@[j] <= '\u{7f}' by {
                assert(is_hex_char(term@[j]));
            }
        }
        vstd::utf8::is_ascii_chars_encode_utf8(term@);
    }
    let len = term.len();
    if len == BLOCK_HASH_LEN {
        SearchTarget::BlockHash(String::from_str(term))
    } else if len == KERNEL_LEN {
        SearchTarget::Kernel(String::from_str(term))
    } else {
        SearchTarget::Unknown
    }
}

/// Decides where a submitted search form leads: the text after the first
/// seven bytes of the body, lowercased, is classified.
pub fn search(body: &str) -> (r: SearchTarget)
    requires
        is_char_boundary(encode_utf8(body@), FORM_PREFIX_LEN as int),
    ensures
        r.kind() == search_kind(spec_lowercase(form_search_text(body@))),
        r.kind() != SearchKind::Unknown ==> r.term() == spec_lowercase(form_search_text(body@)),
{
    let (_, rest) = body.split_at(FORM_PREFIX_LEN);
    proof {
        vstd::utf8::encode_utf8_decode_utf8(rest@);
        assert(rest@ == form_search_text(body@));
    }
    let lowered = str_to_lowercase(rest);
    classify_search_term(lowered.as_str())
}

/// A block height, written in decimal, is searched for as that block.
pub proof fn lemma_height_search_finds_block(height: u64)
    ensures
        search_kind(decimal(height as nat)) == SearchKind::Block,
{
    lemma_parse_format_roundtrip(height);
    let s = decimal(height as nat);
    assert forall|i: int| 0 <= i < s.len() implies #[trigger] is_hex_char(s[i]) by {
        assert(is_digit(s[i]));
    }
}

/// Every searched text of 64 lowercase hex digits that are not all decimal
/// digits leads to the block hash page, and every such text of 66 to the
/// kernel page, whatever its characters.
pub proof fn lemma_hex_lengths_route(term: Seq<char>)
    requires
        term.len() == 64 || term.len() == 66,
        forall|i: int| 0 <= i < term.len() ==> ('a' <= #[trigger] term[i] && term[i] <= 'f') || ('0' <= term[i] && term[i] <= '9'),
        exists|i: int| 0 <= i < term.len() && 'a' <= #[trigger] term[i] && term[i] <= 'f',
    ensures
        term.len() == 64 ==> search_kind(term) == SearchKind::BlockHash,
        term.len() == 66 ==> search_kind(term) == SearchKind::Kernel,
{
    let k = choose|i: int| 0 <= i < term.len() && 'a' <= #[trigger] term[i] && term[i] <= 'f';
    assert(!is_digit(term[k]));
    assert forall|i: int| 0 <= i < term.len() implies #[trigger] is_hex_char(term[i]) by {}
}

/// A searched text of decimal digits always leads to the block page, and
/// texts with other characters than lowercase hex digits never lead anywhere.
pub proof fn lemma_digits_and_non_hex_route(term: Seq<char>)
    ensures
        term.len() > 0 && (forall|i: int| 0 <= i < term.len() ==> '0' <= #[trigger] term[i] && term[i] <= '9')
            ==> search_kind(term) == SearchKind::Block,
        (exists|i: int| 0 <= i < term.len() && !(('a' <= #[trigger] term[i] && term[i] <= 'f') || ('0' <= term[i] && term[i] <= '9')))
            ==> search_kind(term) == SearchKind::Unknown,
        term.len() == 0 ==> search_kind(term) == SearchKind::Unknown,
{
    if term.len() > 0 && (forall|i: int| 0 <= i < term.len() ==> '0' <= #[trigger] term[i] && term[i] <= '9') {
        assert forall|i: int| 0 <= i < term.len() implies #[trigger] is_hex_char(term[i]) by {
            assert('0' <= term[i] && term[i] <= '9');
        }
        assert forall|i: int| 0 <= i < term.len() implies #[trigger] is_digit(term[i]) by {
            assert('0' <= term[i] && term[i] <= '9');
        }
    }
    if exists|i: int| 0 <= i < term.len() && !(('a' <= #[trigger] term[i] && term[i] <= 'f') || ('0' <= term[i] && term[i] <= '9')) {
        let k = choose|i: int| 0 <= i < term.len() && !(('a' <= #[trigger] term[i] && term[i] <= 'f') || ('0' <= term[i] && term[i] <= '9'));
        assert(!is_hex_char(term[k]));
    }
}

} // verus!
