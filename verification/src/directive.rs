//! Scanning the diagnostic stream of the border-detection pass for crop
//! directives.
//!
//! The detection filter re-emits a refined crop estimate on every analyzed
//! frame.  Each estimate is one line of diagnostic text tagged with a fixed
//! marker substring.  Only the most recent estimate is retained
//! (last-write-wins), on the theory that later frames have converged on a
//! better rectangle.

use vstd::prelude::*;

use crate::text::contains_bytes;
use crate::text::contains_seq;
use crate::text::copy_bytes;

verus! {

/// The marker substring that tags a border-detection directive line in the
/// diagnostic stream, spelled `Parsed_cropdetect_0`.
pub open spec fn marker() -> Seq<u8> {
    seq![
        'P' as u8,
        'a' as u8,
        'r' as u8,
        's' as u8,
        'e' as u8,
        'd' as u8,
        '_' as u8,
        'c' as u8,
        'r' as u8,
        'o' as u8,
        'p' as u8,
        'd' as u8,
        'e' as u8,
        't' as u8,
        'e' as u8,
        'c' as u8,
        't' as u8,
        '_' as u8,
        '0' as u8,
    ]
}

/// Builds the directive marker as a byte vector.
pub fn marker_bytes() -> (r: Vec<u8>)
    ensures
        r@ == marker(),
{
    let mut v: Vec<u8> = Vec::new();
    v.push('P' as u8);
    v.push('a' as u8);
    v.push('r' as u8);
    v.push('s' as u8);
    v.push('e' as u8);
    v.push('d' as u8);
    v.push('_' as u8);
    v.push('c' as u8);
    v.push('r' as u8);
    v.push('o' as u8);
    v.push('p' as u8);
    v.push('d' as u8);
    v.push('e' as u8);
    v.push('t' as u8);
    v.push('e' as u8);
    v.push('c' as u8);
    v.push('t' as u8);
    v.push('_' as u8);
    v.push('0' as u8);
    proof {
        assert(v@ =~= marker());
    }
    v
}

/// A diagnostic line is a crop directive when it contains the marker.
pub open spec fn is_directive(l: Seq<u8>) -> bool {
    contains_seq(l, marker())
}

/// Tests one diagnostic line for the directive marker.
pub fn line_is_directive(l: &Vec<u8>) -> (r: bool)
    ensures
        r == is_directive(l@),
{
    let m = marker_bytes();
    contains_bytes(l, &m)
}

/// The retained directive of a stream: the last line that carries the
/// marker, or `None` when no line does.
pub open spec fn last_match(ls: Seq<Seq<u8>>) -> Option<Seq<u8>>
    decreases ls.len(),
{
    if ls.len() == 0 {
        None
    } else if is_directive(ls.last()) {
        Some(ls.last())
    } else {
        last_match(ls.drop_last())
    }
}

/// Folds the captured diagnostic lines into the single retained directive,
/// last-write-wins.
pub fn scan_for_directive(lines: &Vec<Vec<u8>>) -> (r: Option<Vec<u8>>)
    ensures
        match r {
            Some(d) => last_match(lines.deep_view()) == Some(d@),
            None => last_match(lines.deep_view()) is None,
        },
{
    let ghost ls = lines.deep_view();
    let mut best: Option<Vec<u8>> = None;
    let mut i: usize = 0;
    while i < lines.len()
        invariant
            ls == lines.deep_view(),
            0 <= i <= ls.len(),
            match best {
                Some(d) => last_match(ls.take(i as int)) == Some(d@),
                None => last_match(ls.take(i as int)) is None,
            },
        decreases ls.len() - i,
    {
        proof {
            assert(ls[i as int] == lines@[i as int].deep_view());
            assert(ls[i as int] =~= lines@[i as int]@);
            assert(ls.take(i as int + 1).drop_last() =~= ls.take(i as int));
            assert(ls.take(i as int + 1).last() == ls[i as int]);
        }
        if line_is_directive(&lines[i]) {
            best = Some(copy_bytes(&lines[i]));
        }
        i += 1;
    }
    proof {
        assert(ls.take(ls.len() as int) =~= ls);
    }
    best
}

/// A stream with no directive line yields no retained directive.
///
/// For every sequence of diagnostic lines of which none carries the marker,
/// the fold comes back empty: the outcome is "no borders detected".
pub proof fn lemma_no_directive_no_match(ls: Seq<Seq<u8>>)
    requires
        forall|i: int| 0 <= i < ls.len() ==> !is_directive(#[trigger] ls[i]),
    ensures
        last_match(ls) is None,
    decreases ls.len(),
{
    if ls.len() > 0 {
        assert(!is_directive(ls.last()));
        lemma_no_directive_no_match(ls.drop_last());
    }
}

/// The retained directive is the last matching line in stream order.
///
/// For every stream that holds at least one directive line, if position `i`
/// carries the marker and no later position does, the fold retains exactly
/// the line at `i`, however many non-matching lines surround it.
pub proof fn lemma_last_match_is_last(ls: Seq<Seq<u8>>, i: int)
    requires
        0 <= i < ls.len(),
        is_directive(ls[i]),
        forall|j: int| i < j < ls.len() ==> !is_directive(#[trigger] ls[j]),
    ensures
        last_match(ls) == Some(ls[i]),
    decreases ls.len(),
{
    if i == ls.len() - 1 {
        assert(ls.last() == ls[i]);
    } else {
        assert(!is_directive(ls.last()));
        lemma_last_match_is_last(ls.drop_last(), i);
    }
}

} // verus!
