//! The channel filter of the paging monitor: parsing filter strings like
//! "26", "26-30" or "1, 26-28, 50", and formatting a filter back for
//! display.

use vstd::prelude::*;
use vstd::string::StringSliceAdditionalSpecFns;
use crate::codec::{eq_ignore_ascii_case, spec_eq_ignore_case};

verus! {

/// A well-formed filter: channel numbers in 1..=50, strictly ascending
/// (so also free of duplicates). The empty filter accepts every channel.
pub open spec fn spec_filter_wf(s: Seq<u8>) -> bool {
    &&& forall|i: int, j: int| 0 <= i < j < s.len() ==> s[i] < s[j]
    &&& forall|i: int| 0 <= i < s.len() ==> 1 <= #[trigger] s[i] <= 50
}

/// Whether a byte is ASCII whitespace.
pub open spec fn spec_is_space(b: u8) -> bool {
    b == 32 || b == 9 || b == 10 || b == 13
}

fn is_space(b: u8) -> (r: bool)
    ensures
        r == spec_is_space(b),
{
    b == 32 || b == 9 || b == 10 || b == 13
}


/// The index of the first non-whitespace byte (the length if none).
pub open spec fn spec_trim_lo(s: Seq<u8>) -> int
    decreases s.len(),
{
    if s.len() == 0 {
        0
    } else if spec_is_space(s[0]) {
        1 + spec_trim_lo(s.skip(1))
    } else {
        0
    }
}

/// One past the last non-whitespace byte (0 if none).
pub open spec fn spec_trim_hi(s: Seq<u8>) -> int
    decreases s.len(),
{
    if s.len() == 0 {
        0
    } else if spec_is_space(s.last()) {
        spec_trim_hi(s.drop_last())
    } else {
        s.len() as int
    }
}

/// The byte string with its surrounding ASCII whitespace removed.
pub open spec fn spec_trim(s: Seq<u8>) -> Seq<u8> {
    if spec_trim_hi(s) <= spec_trim_lo(s) {
        Seq::empty()
    } else {
        s.subrange(spec_trim_lo(s), spec_trim_hi(s))
    }
}

/// An index is the trim start exactly when everything before it is
/// whitespace and it is the end or a non-whitespace byte.
proof fn lemma_trim_lo_at(s: Seq<u8>, i: int)
    requires
        0 <= i <= s.len(),
        forall|j: int| 0 <= j < i ==> spec_is_space(s[j]),
        i < s.len() ==> !spec_is_space(s[i]),
    ensures
        spec_trim_lo(s) == i,
    decreases s.len(),
{
    if s.len() == 0 {
    } else if spec_is_space(s[0]) {
        assert(i >= 1);
        lemma_trim_lo_at(s.skip(1), i - 1);
    } else {
        assert(i == 0);
    }
}

/// An index is the trim end exactly when everything from it on is
/// whitespace and it is 0 or follows a non-whitespace byte.
proof fn lemma_trim_hi_at(s: Seq<u8>, i: int)
    requires
        0 <= i <= s.len(),
        forall|j: int| i <= j < s.len() ==> spec_is_space(s[j]),
        i > 0 ==> !spec_is_space(s[i - 1]),
    ensures
        spec_trim_hi(s) == i,
    decreases s.len(),
{
    if s.len() == 0 {
    } else if spec_is_space(s.last()) {
        assert(i < s.len());
        assert(forall|j: int| i <= j < s.drop_last().len() ==> spec_is_space(s.drop_last()[j]));
        lemma_trim_hi_at(s.drop_last(), i);
    } else {
        assert(i == s.len());
    }
}

/// Parses the decimal digits of `seg[lo..hi]` as a channel number.
/// `None` for an empty range, a non-digit, or a value above 255.
fn parse_decimal(seg: &[u8], lo: usize, hi: usize) -> (r: Option<u8>)
    requires
        lo <= hi <= seg@.len(),
    ensures
        r matches Some(v) ==> hi > lo,
{
    if lo >= hi {
        return None;
    }
    let mut value: u32 = 0;
    let mut k = lo;
    while k < hi
        invariant
            lo <= k <= hi <= seg@.len(),
            value <= 255,
        decreases hi - k,
    {
        let b = seg[k];
        if b < 48 || b > 57 {
            return None;
        }
        value = value * 10 + (b - 48) as u32;
        if value > 255 {
            return None;
        }
        k = k + 1;
    }
    Some(value as u8)
}

/// Inserts a channel into an ascending filter, keeping it well formed;
/// a channel already present is left alone.
fn insert_channel(v: &mut Vec<u8>, ch: u8)
    requires
        spec_filter_wf(old(v)@),
        1 <= ch <= 50,
    ensures
        spec_filter_wf(final(v)@),
        forall|x: u8| final(v)@.contains(x) <==> old(v)@.contains(x) || x == ch,
{
    let ghost v0 = v@;
    let mut pos: usize = 0;
    while pos < v.len() && v[pos] < ch
        invariant
            pos <= v@.len(),
            v@ == v0,
            spec_filter_wf(v0),
            forall|i: int| 0 <= i < pos ==> v0[i] < ch,
        decreases v@.len() - pos,
    {
        pos = pos + 1;
    }
    if pos < v.len() && v[pos] == ch {
        proof {
            assert(v@.contains(ch));
            assert(forall|x: u8| v@.contains(x) <==> v0.contains(x) || x == ch);
        }
        return ;
    }
    v.insert(pos, ch);
    proof {
        assert(forall|i: int| 0 <= i < pos ==> v@[i] == v0[i]);
        assert(v@[pos as int] == ch);
        assert(forall|i: int| pos < i < v@.len() ==> v@[i] == v0[i - 1]);
        assert forall|i: int, j: int| 0 <= i < j < v@.len() implies v@[i] < v@[j] by {
            if i < pos && j == pos {
                assert(v@[i] == v0[i] && v0[i] < ch);
            } else if i == pos && j > pos {
                assert(v@[j] == v0[j - 1]);
                assert(pos < v0.len() + 1);
                assert(v0[j - 1] >= ch);
                assert(v0[j - 1] != ch) by {
                    if v0[j - 1] == ch {
                        assert(pos <= j - 1 < v0.len());
                        if pos < v0.len() {
                            assert(v0[pos as int] != ch);
                            if pos < j - 1 {
                                assert(v0[pos as int] < v0[j - 1]);
                            }
                        }
                    }
                };
            } else if i < pos && j > pos {
                assert(v@[i] == v0[i] && v@[j] == v0[j - 1]);
                assert(v0[i] < ch);
                assert(v0[j - 1] >= ch);
            } else if i > pos && j > pos {
                assert(v@[i] == v0[i - 1] && v@[j] == v0[j - 1]);
            } else {
                assert(i < pos && j < pos);
                assert(v@[i] == v0[i] && v@[j] == v0[j]);
            }
        };
        assert forall|x: u8| v@.contains(x) <==> v0.contains(x) || x == ch by {
            if v0.contains(x) {
                let i = choose|i: int| 0 <= i < v0.len() && v0[i] == x;
                if i < pos {
                    assert(v@[i] == x);
                } else {
                    assert(v@[i + 1] == x);
                }
            }
            if v@.contains(x) {
                let i = choose|i: int| 0 <= i < v@.len() && v@[i] == x;
                if i < pos {
                    assert(v0[i] == x);
                } else if i == pos {
                    assert(x == ch);
                } else {
                    assert(v0[i - 1] == x);
                }
            }
        };
    }
}

/// Reads one comma-separated part of a filter: a single channel number
/// or an inclusive "low-high" range, with surrounding whitespace. The
/// channels in 1..=50 go into the filter; a malformed part reports false.
fn parse_filter_part(bytes: &[u8], from: usize, to: usize, channels: &mut Vec<u8>) -> (ok: bool)
    requires
        from <= to <= bytes@.len(),
        spec_filter_wf(old(channels)@),
    ensures
        spec_filter_wf(final(channels)@),
{
    let mut p_lo = from;
    let mut p_hi = to;
    while p_lo < p_hi && is_space(bytes[p_lo])
        invariant
            p_lo <= p_hi <= bytes@.len(),
        decreases p_hi - p_lo,
    {
        p_lo = p_lo + 1;
    }
    while p_hi > p_lo && is_space(bytes[p_hi - 1])
        invariant
            p_lo <= p_hi <= bytes@.len(),
        decreases p_hi,
    {
        p_hi = p_hi - 1;
    }
    if p_lo >= p_hi {
        return false;
    }
    let mut dash: usize = p_hi;
    let mut k = p_lo;
    while k < p_hi
        invariant
            p_lo <= k <= p_hi <= bytes@.len(),
            p_lo <= dash <= p_hi,
        decreases p_hi - k,
    {
        if bytes[k] == 45 && dash == p_hi {
            dash = k;
        }
        k = k + 1;
    }
    if dash < p_hi {
        let start = match parse_decimal(bytes, p_lo, dash) {
            Some(v) => v,
            None => {
                return false;
            },
        };
        let end = match parse_decimal(bytes, dash + 1, p_hi) {
            Some(v) => v,
            None => {
                return false;
            },
        };
        let mut ch: u16 = start as u16;
        while ch <= end as u16
            invariant
                spec_filter_wf(channels@),
                ch <= 256,
            decreases end as u16 + 1 - ch,
        {
            if 1 <= ch && ch <= 50 {
                insert_channel(channels, ch as u8);
            }
            ch = ch + 1;
        }
    } else {
        let ch = match parse_decimal(bytes, p_lo, p_hi) {
            Some(v) => v,
            None => {
                return false;
            },
        };
        if 1 <= ch && ch <= 50 {
            insert_channel(channels, ch);
        }
    }
    true
}


/// A string of nothing but whitespace trims to nothing.
proof fn lemma_trim_all_space(s: Seq<u8>)
    requires
        forall|j: int| 0 <= j < s.len() ==> spec_is_space(s[j]),
    ensures
        spec_trim(s).len() == 0,
{
    lemma_trim_lo_at(s, s.len() as int);
    lemma_trim_hi_at(s, 0);
}

/// Parses a channel filter: "all" or an empty string accept every channel
/// (the empty filter); otherwise a comma-separated list of channel
/// numbers and inclusive ranges such as "26-30". Channels outside 1..=50
/// are dropped; a malformed part yields `None`. The result is ascending
/// and free of duplicates.
pub fn parse_channel_filter(filter: &str) -> (r: Option<Vec<u8>>)
    ensures
        r matches Some(v) ==> spec_filter_wf(v@),
        spec_trim(filter.spec_bytes()).len() == 0 ==> (r matches Some(v) && v@.len() == 0),
        spec_eq_ignore_case(spec_trim(filter.spec_bytes()), "all".spec_bytes()) ==> (r matches Some(
            v,
        ) && v@.len() == 0),
{
    let bytes = filter.as_bytes();
    let mut lo: usize = 0;
    let mut hi: usize = bytes.len();
    while lo < hi && is_space(bytes[lo])
        invariant
            lo <= hi <= bytes@.len(),
            hi == bytes@.len(),
            forall|j: int| 0 <= j < lo ==> spec_is_space(bytes@[j]),
        decreases hi - lo,
    {
        lo = lo + 1;
    }
    while hi > lo && is_space(bytes[hi - 1])
        invariant
            lo <= hi <= bytes@.len(),
            forall|j: int| 0 <= j < lo ==> spec_is_space(bytes@[j]),
            lo < bytes@.len() && lo < hi ==> !spec_is_space(bytes@[lo as int]),
            forall|j: int| hi <= j < bytes@.len() ==> spec_is_space(bytes@[j]),
            hi == lo ==> lo == bytes@.len(),
        decreases hi,
    {
        hi = hi - 1;
    }
    if lo == hi {
        proof {
            assert(lo == bytes@.len());
            lemma_trim_all_space(bytes@);
        }
        return Some(Vec::new());
    }
    proof {
        lemma_trim_lo_at(bytes@, lo as int);
        lemma_trim_hi_at(bytes@, hi as int);
        assert(spec_trim(bytes@) =~= bytes@.subrange(lo as int, hi as int));
    }
    let trimmed = &bytes[lo..hi];
    assert(trimmed@ == spec_trim(bytes@));
    if eq_ignore_ascii_case(trimmed, "all".as_bytes()) {
        return Some(Vec::new());
    }
    assert(!spec_eq_ignore_case(spec_trim(bytes@), "all".spec_bytes()));
    assert(spec_trim(bytes@).len() > 0);

    let mut channels: Vec<u8> = Vec::new();
    let mut part_start: usize = lo;
    let mut i: usize = lo;
    while i < hi
        invariant
            lo <= part_start <= i <= hi <= bytes@.len(),
            spec_filter_wf(channels@),
            bytes@ == filter.spec_bytes(),
            spec_trim(filter.spec_bytes()).len() > 0,
            !spec_eq_ignore_case(spec_trim(filter.spec_bytes()), "all".spec_bytes()),
        decreases hi - i,
    {
        if bytes[i] == 44 {
            if !parse_filter_part(bytes, part_start, i, &mut channels) {
                return None;
            }
            part_start = i + 1;
        }
        i = i + 1;
    }
    if !parse_filter_part(bytes, part_start, hi, &mut channels) {
        return None;
    }
    Some(channels)
}


/// The index where the run of consecutive channels starting at `i` ends.
pub open spec fn spec_run_end(f: Seq<u8>, i: int) -> int
    recommends
        0 <= i < f.len(),
    decreases f.len() - i,
{
    if i + 1 < f.len() && f[i + 1] == f[i] + 1 {
        spec_run_end(f, i + 1)
    } else {
        i
    }
}

/// The formatted bytes of the filter from index `i` on: each run of
/// consecutive channels prints as "low-high" (a lone channel as itself),
/// runs separated by ", ", with a separator before every run but the
/// first.
pub open spec fn spec_format_from(f: Seq<u8>, i: int) -> Seq<u8>
    recommends
        0 <= i <= f.len(),
    decreases f.len() - i,
{
    if i >= f.len() {
        Seq::empty()
    } else {
        let e = spec_run_end(f, i);
        let sep: Seq<u8> = if i > 0 {
            seq![44u8, 32u8]
        } else {
            Seq::empty()
        };
        let body = spec_decimal_bytes(f[i] as int) + if e > i {
            seq![45u8] + spec_decimal_bytes(f[e] as int)
        } else {
            Seq::empty()
        };
        if 0 <= e < f.len() && e >= i {
            sep + body + spec_format_from(f, e + 1)
        } else {
            sep + body
        }
    }
}

/// The run end stays inside the filter, at or after its start.
pub proof fn lemma_run_end_bounds(f: Seq<u8>, i: int)
    requires
        0 <= i < f.len(),
    ensures
        i <= spec_run_end(f, i) < f.len(),
    decreases f.len() - i,
{
    if i + 1 < f.len() && f[i + 1] == f[i] + 1 {
        lemma_run_end_bounds(f, i + 1);
    }
}

/// The decimal digit bytes of a channel number.
pub open spec fn spec_decimal_bytes(n: int) -> Seq<u8> {
    if n >= 100 {
        seq![(48 + n / 100) as u8, (48 + (n / 10) % 10) as u8, (48 + n % 10) as u8]
    } else if n >= 10 {
        seq![(48 + n / 10) as u8, (48 + n % 10) as u8]
    } else {
        seq![(48 + n) as u8]
    }
}

/// Appends the decimal digits of `n`.
fn push_decimal(out: &mut Vec<u8>, n: u8)
    ensures
        final(out)@ == old(out)@ + spec_decimal_bytes(n as int),
        forall|k: int|
            old(out)@.len() <= k < final(out)@.len() ==> (#[trigger] final(out)@[k]) < 128,
{
    if n >= 100 {
        out.push(48 + n / 100);
        out.push(48 + (n / 10) % 10);
        out.push(48 + n % 10);
    } else if n >= 10 {
        out.push(48 + n / 10);
        out.push(48 + n % 10);
    } else {
        out.push(48 + n);
    }
    assert(out@ =~= old(out)@ + spec_decimal_bytes(n as int));
}

/// Relies on String::from_utf8_lossy: bytes that are all ASCII convert
/// to exactly those characters.
#[verifier::external_body]
fn ascii_string(bytes: &Vec<u8>) -> (r: String)
    ensures
        (forall|i: int| 0 <= i < bytes@.len() ==> bytes@[i] < 128) ==> r@ == bytes@.map_values(
            |b: u8| b as char,
        ),
{
    String::from_utf8_lossy(bytes.as_slice()).to_string()
}

/// Formats a channel filter for display: the empty filter reads
/// "all (1-50)"; otherwise consecutive runs compress to ranges, as in
/// "1, 26-28, 50".
pub fn format_channel_filter(filter: &[u8]) -> (r: String)
    requires
        spec_filter_wf(filter@),
    ensures
        filter@.len() == 0 ==> r@ == "all (1-50)"@,
        filter@.len() > 0 ==> r@ == spec_format_from(filter@, 0).map_values(|b: u8| b as char),
{
    if filter.len() == 0 {
        return String::from_str("all (1-50)");
    }
    let ghost whole = spec_format_from(filter@, 0);
    let mut out: Vec<u8> = Vec::new();
    let mut i: usize = 0;
    while i < filter.len()
        invariant
            i <= filter@.len(),
            filter@.len() <= usize::MAX,
            spec_filter_wf(filter@),
            i > 0 ==> out@.len() > 0,
            i == 0 ==> out@.len() == 0,
            whole == spec_format_from(filter@, 0),
            whole == out@ + spec_format_from(filter@, i as int),
            forall|k: int| 0 <= k < out@.len() ==> (#[trigger] out@[k]) < 128,
        decreases filter@.len() - i,
    {
        let ghost out0 = out@;
        let start = filter[i];
        let mut end = start;
        let ghost i0 = i as int;
        while i + 1 < filter.len() && filter[i + 1] == end + 1
            invariant
                i0 <= i < filter@.len(),
                filter@.len() <= usize::MAX,
                spec_filter_wf(filter@),
                end == filter@[i as int],
                end <= 50,
                spec_run_end(filter@, i0) == spec_run_end(filter@, i as int),
            decreases filter@.len() - i,
        {
            end = filter[i + 1];
            i = i + 1;
        }
        proof {
            assert(spec_run_end(filter@, i as int) == i as int);
            lemma_run_end_bounds(filter@, i0);
        }
        if out.len() > 0 {
            out.push(44);
            out.push(32);
        }
        push_decimal(&mut out, start);
        if start != end {
            out.push(45);
            push_decimal(&mut out, end);
        }
        proof {
            let f = filter@;
            let e = spec_run_end(f, i0);
            assert(e == i as int);
            let sep: Seq<u8> = if i0 > 0 {
                seq![44u8, 32u8]
            } else {
                Seq::empty()
            };
            let body = spec_decimal_bytes(f[i0] as int) + if e > i0 {
                seq![45u8] + spec_decimal_bytes(f[e] as int)
            } else {
                Seq::empty()
            };
            assert(spec_format_from(f, i0) == sep + body + spec_format_from(f, e + 1));
            assert(start == f[i0] && end == f[e]);
            assert(out@ =~= out0 + sep + body);
            assert(whole =~= out@ + spec_format_from(f, i as int + 1));
        }
        i = i + 1;
    }
    proof {
        assert(spec_format_from(filter@, i as int) =~= Seq::<u8>::empty());
        assert(whole =~= out@);
    }
    let s = ascii_string(&out);
    proof {
        assert(s@ == out@.map_values(|b: u8| b as char));
    }
    s
}

} // verus!
