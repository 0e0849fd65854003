//! Finding the JPEG images embedded in a RAW file.
//!
//! Cameras store one or more JPEG renditions inside a RAW file. They are
//! found without parsing the container: a JPEG starts with the marker
//! `FF D8` and ends with the marker `FF D9`.

use vstd::prelude::*;
use vstd::slice::{slice_subrange, slice_to_vec};

verus! {

/// At most this many JPEG starts are looked at by [`extract_jpeg_from_data`].
pub const MAX_STARTS: usize = 6;

/// A start-of-image marker stands at `i`.
pub open spec fn is_soi(data: Seq<u8>, i: int) -> bool {
    0 <= i && i + 1 < data.len() && data[i] == 0xFF && data[i + 1] == 0xD8
}

/// An end-of-image marker stands at `j`.
pub open spec fn is_eoi(data: Seq<u8>, j: int) -> bool {
    0 <= j && j + 1 < data.len() && data[j] == 0xFF && data[j + 1] == 0xD9
}

/// The first end-of-image marker at or after `from` stands at `j`.
pub open spec fn is_first_eoi(data: Seq<u8>, from: int, j: int) -> bool {
    &&& from <= j
    &&& is_eoi(data, j)
    &&& forall|k: int| from <= k < j ==> !is_eoi(data, k)
}

/// No end-of-image marker stands at or after `from`.
pub open spec fn no_eoi_from(data: Seq<u8>, from: int) -> bool {
    forall|k: int| from <= k ==> !is_eoi(data, k)
}

/// Number of start-of-image markers that stand before `n`.
pub open spec fn soi_count(data: Seq<u8>, n: int) -> nat
    decreases n,
{
    if n <= 0 {
        0
    } else {
        soi_count(data, n - 1) + if is_soi(data, n - 1) {
            1nat
        } else {
            0nat
        }
    }
}

/// The bytes from `start` up to, but without, `end`.
pub open spec fn span(data: Seq<u8>, start: int, end: int) -> Seq<u8> {
    data.subrange(start, end)
}

/// The more markers are passed, the more were counted.
pub proof fn lemma_soi_count_monotone(data: Seq<u8>, a: int, b: int)
    requires
        a <= b,
    ensures
        soi_count(data, a) <= soi_count(data, b),
    decreases b - a,
{
    if a < b {
        lemma_soi_count_monotone(data, a, b - 1);
    }
}

/// Position of the first end-of-image marker at or after `from`.
pub fn find_eoi(data: &[u8], from: usize) -> (found: Option<usize>)
    ensures
        match found {
            Some(j) => is_first_eoi(data@, from as int, j as int),
            None => no_eoi_from(data@, from as int),
        },
{
    let n = data.len();
    let mut j: usize = from;
    while j < n && j + 1 < n
        invariant
            from <= j,
            n == data@.len(),
            forall|k: int| from <= k < j ==> !is_eoi(data@, k),
        decreases n - j,
    {
        if data[j] == 0xFF && data[j + 1] == 0xD9 {
            return Some(j);
        }
        j = j + 1;
    }
    None
}

/// The JPEG that starts at `start` ends with the marker at `eoi`, is among
/// the first [`MAX_STARTS`] that start in `data`, and is larger than
/// `min_size` bytes.
pub open spec fn is_large_jpeg(data: Seq<u8>, min_size: int, start: int, eoi: int) -> bool {
    &&& is_soi(data, start)
    &&& soi_count(data, start) < MAX_STARTS
    &&& is_first_eoi(data, start, eoi)
    &&& eoi + 2 - start > min_size
}

/// `jpeg` is the first large JPEG of `data`, or `None` where `data` holds
/// no large JPEG.
pub open spec fn is_first_large_jpeg(data: Seq<u8>, min_size: int, jpeg: Option<Seq<u8>>) -> bool {
    match jpeg {
        Some(bytes) => exists|start: int, eoi: int|
            {
                &&& #[trigger] is_large_jpeg(data, min_size, start, eoi)
                &&& bytes == span(data, start, eoi + 2)
                &&& forall|s: int, e: int| s < start ==> !#[trigger] is_large_jpeg(data, min_size, s, e)
            },
        None => forall|s: int, e: int| !#[trigger] is_large_jpeg(data, min_size, s, e),
    }
}

/// The view of an optional byte vector.
pub open spec fn bytes_view(bytes: Option<Vec<u8>>) -> Option<Seq<u8>> {
    match bytes {
        Some(b) => Some(b@),
        None => None,
    }
}

/// The first embedded JPEG of more than `min_size` bytes. A JPEG runs from
/// a start marker to the first end marker after it, markers included. Only
/// the first [`MAX_STARTS`] start markers are looked at: the renditions
/// that matter stand at the front of the file.
pub fn extract_jpeg_from_data(data: &[u8], min_size: usize) -> (jpeg: Option<Vec<u8>>)
    ensures
        is_first_large_jpeg(data@, min_size as int, bytes_view(jpeg)),
{
    let n = data.len();
    let mut seen: usize = 0;
    let mut i: usize = 0;
    while i < n && i + 1 < n && seen < MAX_STARTS
        invariant
            n == data@.len(),
            i <= n,
            seen == soi_count(data@, i as int),
            seen <= MAX_STARTS,
            forall|s: int, e: int| s < i ==> !#[trigger] is_large_jpeg(data@, min_size as int, s, e),
        decreases n - i,
    {
        if data[i] == 0xFF && data[i + 1] == 0xD8 {
            match find_eoi(data, i) {
                Some(j) => {
                    if j + 2 - i > min_size {
                        let bytes = slice_to_vec(slice_subrange(data, i, j + 2));
                        assert(is_large_jpeg(data@, min_size as int, i as int, j as int));
                        return Some(bytes);
                    }
                    assert forall|e: int| !#[trigger] is_large_jpeg(
                        data@,
                        min_size as int,
                        i as int,
                        e,
                    ) by {
                        if is_first_eoi(data@, i as int, e) {
                            assert(e == j) by {
                                if e < j {
                                    assert(!is_eoi(data@, e));
                                } else if j < e {
                                    assert(!is_eoi(data@, j as int));
                                }
                            }
                        }
                    }
                },
                None => {},
            }
            seen = seen + 1;
        }
        i = i + 1;
    }
    proof {
        assert forall|s: int, e: int| !#[trigger] is_large_jpeg(data@, min_size as int, s, e) by {
            if s >= i && is_soi(data@, s) {
                lemma_soi_count_monotone(data@, i as int, s);
            }
        }
    }
    None
}

/// Bytes of a file that the fast search looks at.
pub const FAST_SCAN_BYTES: usize = 256 * 1024;

/// Size that a JPEG must exceed to be taken by the fast search.
pub const FAST_MIN_SIZE: usize = 50_000;

/// Bytes of a file that the extended search looks at.
pub const EXTENDED_SCAN_BYTES: usize = 512 * 1024;

/// Size that a JPEG must exceed to be taken by the extended search.
pub const EXTENDED_MIN_SIZE: usize = 30_000;

/// Bytes of a file that the full search looks at.
pub const FULL_SCAN_BYTES: usize = 5 * 1024 * 1024;

/// Size that a JPEG must exceed to be taken by the full search.
pub const FULL_MIN_SIZE: usize = 10_000;

/// The first `max_bytes` bytes of `data`, or all of it where it is shorter.
pub open spec fn head(data: Seq<u8>, max_bytes: int) -> Seq<u8> {
    if data.len() <= max_bytes {
        data
    } else {
        data.subrange(0, max_bytes)
    }
}

/// The first large JPEG among the first `max_bytes` bytes of a file.
pub fn extract_jpeg_from_head(data: &[u8], max_bytes: usize, min_size: usize) -> (jpeg: Option<
    Vec<u8>,
>)
    ensures
        is_first_large_jpeg(head(data@, max_bytes as int), min_size as int, bytes_view(jpeg)),
{
    if data.len() <= max_bytes {
        extract_jpeg_from_data(data, min_size)
    } else {
        extract_jpeg_from_data(slice_subrange(data, 0, max_bytes), min_size)
    }
}

/// First attempt at a thumbnail: a JPEG of more than 50 000 bytes in the
/// first 256 KiB of the file.
pub fn extract_embedded_jpeg_fast(data: &[u8]) -> (jpeg: Option<Vec<u8>>)
    ensures
        is_first_large_jpeg(
            head(data@, FAST_SCAN_BYTES as int),
            FAST_MIN_SIZE as int,
            bytes_view(jpeg),
        ),
{
    extract_jpeg_from_head(data, FAST_SCAN_BYTES, FAST_MIN_SIZE)
}

/// Second attempt: a JPEG of more than 30 000 bytes in the first 512 KiB.
pub fn extract_embedded_jpeg_extended(data: &[u8]) -> (jpeg: Option<Vec<u8>>)
    ensures
        is_first_large_jpeg(
            head(data@, EXTENDED_SCAN_BYTES as int),
            EXTENDED_MIN_SIZE as int,
            bytes_view(jpeg),
        ),
{
    extract_jpeg_from_head(data, EXTENDED_SCAN_BYTES, EXTENDED_MIN_SIZE)
}

/// Third attempt: a JPEG of more than 10 000 bytes in the first 5 MiB.
pub fn extract_embedded_jpeg_full(data: &[u8]) -> (jpeg: Option<Vec<u8>>)
    ensures
        is_first_large_jpeg(
            head(data@, FULL_SCAN_BYTES as int),
            FULL_MIN_SIZE as int,
            bytes_view(jpeg),
        ),
{
    extract_jpeg_from_head(data, FULL_SCAN_BYTES, FULL_MIN_SIZE)
}

/// A start-of-image marker followed by the first byte of a segment marker
/// stands at `i`.
pub open spec fn is_soi3(data: Seq<u8>, i: int) -> bool {
    is_soi(data, i) && i + 2 < data.len() && data[i + 2] == 0xFF
}

/// Position of the first end-of-image marker at or after `from`, where one
/// stands there.
pub open spec fn first_eoi(data: Seq<u8>, from: int) -> int {
    choose|j: int| is_first_eoi(data, from, j)
}

/// There is only one first end-of-image marker.
pub proof fn lemma_first_eoi_unique(data: Seq<u8>, from: int, j: int)
    requires
        is_first_eoi(data, from, j),
    ensures
        first_eoi(data, from) == j,
        !no_eoi_from(data, from),
{
    let c = first_eoi(data, from);
    assert(is_first_eoi(data, from, c));
    if c < j {
        assert(!is_eoi(data, c));
    } else if j < c {
        assert(!is_eoi(data, j));
    }
}

/// The longer of the span kept so far and the span from `start` to `end`;
/// the one kept so far where they are equally long.
pub open spec fn longer(best: Option<(int, int)>, start: int, end: int) -> Option<(int, int)> {
    match best {
        Some((s, e)) => if end - start > e - s {
            Some((start, end))
        } else {
            best
        },
        None => if end - start > 0 {
            Some((start, end))
        } else {
            None
        },
    }
}

/// The longest JPEG found from `pos` on, or `best` where none is longer.
/// The buffer is walked from `pos`: where a JPEG starts and an end marker
/// follows, the JPEG runs up to and with that marker and the walk goes on
/// behind it, so that the JPEGs found do not overlap.
pub open spec fn largest_jpeg_from(data: Seq<u8>, pos: int, best: Option<(int, int)>) -> Option<
    (int, int),
>
    decreases data.len() - pos,
{
    if pos < 0 || pos + 3 >= data.len() {
        best
    } else if is_soi3(data, pos) && !no_eoi_from(data, pos) {
        let end = first_eoi(data, pos) + 2;
        if pos < end <= data.len() {
            largest_jpeg_from(data, end, longer(best, pos, end))
        } else {
            best
        }
    } else {
        largest_jpeg_from(data, pos + 1, best)
    }
}

/// The span runs from a JPEG's start to the end of the first end marker
/// after it.
pub open spec fn is_jpeg_span(data: Seq<u8>, span: (int, int)) -> bool {
    is_soi3(data, span.0) && is_first_eoi(data, span.0, span.1 - 2) && span.1 <= data.len()
}

/// What the walk finds is a JPEG: it starts with a start marker and ends
/// with the first end marker after it. And it is at least as long as the
/// span that the walk began with.
pub proof fn lemma_largest_jpeg_is_jpeg(data: Seq<u8>, pos: int, best: Option<(int, int)>)
    requires
        best matches Some(b) ==> is_jpeg_span(data, b),
    ensures
        largest_jpeg_from(data, pos, best) matches Some(found) ==> is_jpeg_span(data, found),
        best is Some ==> largest_jpeg_from(data, pos, best) is Some,
        best matches Some(b) ==> (largest_jpeg_from(data, pos, best) matches Some(found)
            ==> found.1 - found.0 >= b.1 - b.0),
    decreases data.len() - pos,
{
    if pos < 0 || pos + 3 >= data.len() {
    } else if is_soi3(data, pos) && !no_eoi_from(data, pos) {
        let j = choose|j: int| pos <= j && is_eoi(data, j);
        lemma_first_eoi_exists(data, pos, j);
        let end = first_eoi(data, pos) + 2;
        if pos < end <= data.len() {
            lemma_largest_jpeg_is_jpeg(data, end, longer(best, pos, end));
        }
    } else {
        lemma_largest_jpeg_is_jpeg(data, pos + 1, best);
    }
}

/// Where an end marker stands at or after `from`, a first one does.
pub proof fn lemma_first_eoi_exists(data: Seq<u8>, from: int, j: int)
    requires
        from <= j,
        is_eoi(data, j),
    ensures
        is_first_eoi(data, from, first_eoi(data, from)),
        first_eoi(data, from) <= j,
    decreases j - from,
{
    if exists|k: int| from <= k < j && is_eoi(data, k) {
        let k = choose|k: int| from <= k < j && is_eoi(data, k);
        lemma_first_eoi_exists(data, from, k);
    } else {
        assert(is_first_eoi(data, from, j));
        lemma_first_eoi_unique(data, from, j);
    }
}

/// The largest embedded JPEG of a buffer, the first of them where several
/// are equally large; `None` where the buffer holds none. A JPEG is taken
/// to start where the start marker is followed by `FF`, and to end with the
/// first end marker after that.
pub fn scan_for_largest_jpeg(buffer: &[u8]) -> (jpeg: Option<Vec<u8>>)
    ensures
        match largest_jpeg_from(buffer@, 0, None) {
            Some((start, end)) => 0 <= start <= end <= buffer@.len() && bytes_view(jpeg) == Some(
                span(buffer@, start, end),
            ),
            None => jpeg is None,
        },
{
    let n = buffer.len();
    let mut best: Option<(usize, usize)> = None;
    let ghost mut best_spec: Option<(int, int)> = None;
    let mut pos: usize = 0;
    while pos < n && n - pos > 3
        invariant
            n == buffer@.len(),
            pos <= n,
            largest_jpeg_from(buffer@, 0, None) == largest_jpeg_from(buffer@, pos as int, best_spec),
            match best {
                Some((s, e)) => s <= e <= n && best_spec == Some((s as int, e as int)),
                None => best_spec is None,
            },
        decreases n - pos,
    {
        let mut next: usize = pos + 1;
        if buffer[pos] == 0xFF && buffer[pos + 1] == 0xD8 && buffer[pos + 2] == 0xFF {
            match find_eoi(buffer, pos) {
                Some(j) => {
                    proof {
                        lemma_first_eoi_unique(buffer@, pos as int, j as int);
                    }
                    let end = j + 2;
                    let replace = match best {
                        Some((s, e)) => end - pos > e - s,
                        None => true,
                    };
                    if replace {
                        best = Some((pos, end));
                    }
                    proof {
                        best_spec = longer(best_spec, pos as int, end as int);
                    }
                    next = end;
                },
                None => {},
            }
        }
        pos = next;
    }
    match best {
        Some((s, e)) => Some(slice_to_vec(slice_subrange(buffer, s, e))),
        None => None,
    }
}

/// All the JPEGs that start before `n`: for each start marker that an end
/// marker follows, the span from the one up to and with the first such end
/// marker, in the order of their starts. These spans may overlap.
pub open spec fn candidates_before(data: Seq<u8>, n: int) -> Seq<(int, int)>
    decreases n,
{
    if n <= 0 {
        Seq::empty()
    } else {
        let rest = candidates_before(data, n - 1);
        if is_soi(data, n - 1) && !no_eoi_from(data, n - 1) {
            rest.push((n - 1, first_eoi(data, n - 1) + 2))
        } else {
            rest
        }
    }
}

/// All the JPEG candidates of `data`.
pub open spec fn candidates(data: Seq<u8>) -> Seq<(int, int)> {
    candidates_before(data, data.len() as int)
}

/// Spans of machine integers as spans of integers.
pub open spec fn spans_view(spans: Seq<(usize, usize)>) -> Seq<(int, int)> {
    Seq::new(spans.len(), |k: int| (spans[k].0 as int, spans[k].1 as int))
}

/// All the JPEG candidates of `data`, as pairs of start and end, the end
/// being the position behind the last byte.
pub fn jpeg_candidates(data: &[u8]) -> (spans: Vec<(usize, usize)>)
    ensures
        spans_view(spans@) == candidates(data@),
        forall|k: int| 0 <= k < spans@.len() ==> (#[trigger] spans@[k]).0 < spans@[k].1 <= data@.len(),
{
    let n = data.len();
    let mut spans: Vec<(usize, usize)> = Vec::new();
    let mut i: usize = 0;
    assert(spans_view(spans@) =~= candidates_before(data@, 0));
    while i < n
        invariant
            n == data@.len(),
            i <= n,
            spans_view(spans@) == candidates_before(data@, i as int),
            forall|k: int| 0 <= k < spans@.len() ==> (#[trigger] spans@[k]).0 < spans@[k].1 <= n,
        decreases n - i,
    {
        let ghost before = spans@;
        if i + 1 < n && data[i] == 0xFF && data[i + 1] == 0xD8 {
            match find_eoi(data, i) {
                Some(j) => {
                    proof {
                        lemma_first_eoi_unique(data@, i as int, j as int);
                    }
                    spans.push((i, j + 2));
                    assert(spans_view(spans@) =~= spans_view(before).push((i as int, j + 2)));
                },
                None => {},
            }
        }
        i = i + 1;
    }
    spans
}

/// Length of a span; zero where its end lies before its start.
pub open spec fn span_len(span: (int, int)) -> int {
    if span.1 >= span.0 {
        span.1 - span.0
    } else {
        0
    }
}

/// Span `k` may be picked: it exists and is marked as eligible.
pub open spec fn is_eligible(spans: Seq<(int, int)>, eligible: Seq<bool>, k: int) -> bool {
    0 <= k < spans.len() && k < eligible.len() && eligible[k]
}

/// Span `k` is the longest eligible one, and the first of those that are
/// as long.
pub open spec fn is_first_longest(spans: Seq<(int, int)>, eligible: Seq<bool>, k: int) -> bool {
    &&& is_eligible(spans, eligible, k)
    &&& forall|m: int| #[trigger]
        is_eligible(spans, eligible, m) ==> span_len(spans[m]) <= span_len(spans[k])
    &&& forall|m: int| #[trigger]
        is_eligible(spans, eligible, m) && m < k ==> span_len(spans[m]) < span_len(spans[k])
}

/// The longest of the eligible spans, the first of them where several are
/// as long; `None` where no span is eligible. Called again and again with
/// what was picked struck off, it hands out the spans from the longest to
/// the shortest.
pub fn pick_largest(spans: &[(usize, usize)], eligible: &[bool]) -> (picked: Option<usize>)
    ensures
        match picked {
            Some(k) => is_first_longest(spans_view(spans@), eligible@, k as int),
            None => forall|m: int| !is_eligible(spans_view(spans@), eligible@, m),
        },
{
    let ghost view = spans_view(spans@);
    let mut best: Option<usize> = None;
    let mut best_len: usize = 0;
    let mut k: usize = 0;
    while k < spans.len() && k < eligible.len()
        invariant
            view == spans_view(spans@),
            k <= spans@.len(),
            k <= eligible@.len(),
            match best {
                Some(b) => {
                    &&& b < k
                    &&& is_eligible(view, eligible@, b as int)
                    &&& best_len == span_len(view[b as int])
                    &&& forall|m: int| #[trigger]
                        is_eligible(view, eligible@, m) && m < k ==> span_len(view[m]) <= best_len
                    &&& forall|m: int| #[trigger]
                        is_eligible(view, eligible@, m) && m < b ==> span_len(view[m]) < best_len
                },
                None => forall|m: int| m < k ==> !is_eligible(view, eligible@, m),
            },
        decreases spans@.len() - k,
    {
        if eligible[k] {
            let (start, end) = spans[k];
            let len: usize = if end >= start { end - start } else { 0 };
            let replace = match best {
                Some(_) => len > best_len,
                None => true,
            };
            if replace {
                best = Some(k);
                best_len = len;
            }
        }
        k = k + 1;
    }
    best
}

/// The largest embedded JPEG that decodes, the first of them where several
/// are as large; `None` where no candidate decodes. Every start marker
/// that an end marker follows gives one candidate, in the order of
/// [`jpeg_candidates`]; `decodes` says of each candidate, in that order,
/// whether the caller could decode it. A candidate that `decodes` has no
/// entry for counts as one that does not decode.
pub fn extract_largest_jpeg(data: &[u8], decodes: &[bool]) -> (jpeg: Option<Vec<u8>>)
    ensures
        match jpeg {
            Some(bytes) => exists|k: int|
                {
                    &&& #[trigger] is_first_longest(candidates(data@), decodes@, k)
                    &&& bytes@ == span(data@, candidates(data@)[k].0, candidates(data@)[k].1)
                },
            None => forall|k: int| !is_eligible(candidates(data@), decodes@, k),
        },
{
    let spans = jpeg_candidates(data);
    match pick_largest(spans.as_slice(), decodes) {
        Some(p) => {
            let (start, end) = spans[p];
            assert(spans_view(spans@)[p as int] == (start as int, end as int));
            Some(slice_to_vec(slice_subrange(data, start, end)))
        },
        None => None,
    }
}

} // verus!
