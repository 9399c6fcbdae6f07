use vstd::prelude::*;

use crate::error::ErrorView;
use crate::header::{
    first_nonzero, header_failure, header_matches, is_power_of_two, magic, page_size_failure,
    reserved_finding,
};
use crate::text::lossy_text;
use crate::{be_u16_at, be_u32_at};

verus! {

/// The raw page size field `v` is valid: 1 (for 65536), or a power of two of at least 512.
pub open spec fn valid_page_size_field(v: u16) -> bool {
    v == 1 || (v >= 512 && is_power_of_two(v as nat))
}

/// `s` starts with a valid header: 100 bytes with the magic string, a valid page size,
/// the fixed fractions 64, 32 and 32, and a schema format that is not zero.
pub open spec fn valid_header(s: Seq<u8>) -> bool {
    &&& s.len() >= 100
    &&& s.take(16) == magic()
    &&& valid_page_size_field(be_u16_at(s, 16))
    &&& s[21] == 64
    &&& s[22] == 32
    &&& s[23] == 32
    &&& be_u32_at(s, 44) != 0
}

/// Decoding succeeds exactly on valid headers; `parse_header` then gives the fields that
/// `header_matches` states.
pub proof fn lemma_decode_succeeds_iff_valid(s: Seq<u8>)
    ensures
        header_failure(s) is None <==> valid_header(s),
{
}

/// Every 16-byte start that is not the magic string makes the decode fail on the header
/// string, whatever follows.
pub proof fn lemma_wrong_magic_fails(s: Seq<u8>)
    requires
        s.len() >= 16,
        s.take(16) != magic(),
    ensures
        header_failure(s) == Some(ErrorView::HeaderString(lossy_text(s.take(16)))),
{
}

/// The page size rule: 1 stands for 65536, values below 512 are too small, and others
/// must be powers of two.
pub proof fn lemma_page_size_rule(v: u16)
    ensures
        page_size_failure(v) is None <==> valid_page_size_field(v),
        (v == 0 || (2 <= v < 512)) ==> page_size_failure(v) matches Some(ErrorView::InvalidPageSize(_)),
        (v >= 512 && !is_power_of_two(v as nat)) ==> page_size_failure(v) matches Some(
            ErrorView::InvalidPageSize(_),
        ),
{
}

/// With a valid magic string and page size, any fraction byte that differs from its fixed
/// value (64, 32 and 32) makes the decode fail on a fraction, whatever the other two hold.
pub proof fn lemma_wrong_fraction_fails(s: Seq<u8>)
    requires
        s.len() >= 24,
        s.take(16) == magic(),
        valid_page_size_field(be_u16_at(s, 16)),
        s[21] != 64 || s[22] != 32 || s[23] != 32,
    ensures
        header_failure(s) matches Some(ErrorView::InvalidFraction(_)),
{
}

/// The reserved region (bytes 72 to 91) takes no part in whether the decode fails or in
/// the fields it gives: two inputs that differ only there decode alike. What the region
/// holds is seen only through `reserved_finding`.
pub proof fn lemma_reserved_region_not_fatal(s: Seq<u8>, s2: Seq<u8>, h: crate::header::DatabaseHeader)
    requires
        s.len() == s2.len(),
        forall|i: int| 0 <= i < s.len() && !(72 <= i < 92) ==> s[i] == s2[i],
    ensures
        header_failure(s) == header_failure(s2),
        s.len() >= 100 ==> (header_matches(h, s) <==> header_matches(h, s2)),
{
    if s.len() >= 16 {
        assert(s.take(16) =~= s2.take(16));
    }
}

/// The reserved region reports a finding exactly when one of its bytes is not zero.
pub proof fn lemma_reserved_finding(region: Seq<u8>)
    ensures
        reserved_finding(region) is Some <==> exists|i: int| 0 <= i < region.len() && region[i] != 0,
{
    lemma_first_nonzero_from(region, 0);
}

proof fn lemma_first_nonzero_from(s: Seq<u8>, k: int)
    requires
        0 <= k <= s.len(),
    ensures
        first_nonzero(s, k) is Some <==> exists|i: int| k <= i < s.len() && s[i] != 0,
    decreases s.len() - k,
{
    if k < s.len() {
        lemma_first_nonzero_from(s, k + 1);
        if s[k] == 0 {
            assert forall|i: int| k <= i < s.len() && s[i] != 0 implies k + 1 <= i by {}
        }
    }
}

} // verus!
