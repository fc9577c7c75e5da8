//! Parsing of the orchestrator's service-listing output: newline-delimited
//! service names, with blank lines excluded.
use vstd::prelude::*;

verus! {

/// A carriage return standing immediately before a newline is not part of
/// the name: the segment a newline closes loses one trailing `'\r'`, so a
/// CRLF ending reads as an LF ending.
pub open spec fn strip_trailing_cr(line: Seq<char>) -> Seq<char> {
    if line.len() > 0 && line.last() == '\r' {
        line.drop_last()
    } else {
        line
    }
}

/// The segments of `s` between newline characters, in order. There is
/// always at least one segment; a newline ends the current segment —
/// dropping a carriage return right before it — and opens a fresh one. A
/// final segment without its newline keeps its characters as they stand.
pub open spec fn split_on_newline(s: Seq<char>) -> Seq<Seq<char>>
    decreases s.len(),
{
    if s.len() == 0 {
        seq![Seq::<char>::empty()]
    } else {
        let rest = split_on_newline(s.drop_last());
        if s.last() == '\n' {
            rest.update(rest.len() - 1, strip_trailing_cr(rest.last())).push(
                Seq::<char>::empty(),
            )
        } else {
            rest.update(rest.len() - 1, rest.last().push(s.last()))
        }
    }
}

/// The service names in a listing: its newline-separated segments with the
/// blank ones left out.
pub open spec fn service_lines(s: Seq<char>) -> Seq<Seq<char>> {
    split_on_newline(s).filter(|line: Seq<char>| line.len() > 0)
}

pub proof fn lemma_split_on_newline_nonempty(s: Seq<char>)
    ensures
        split_on_newline(s).len() >= 1,
    decreases s.len(),
{
    if s.len() > 0 {
        lemma_split_on_newline_nonempty(s.drop_last());
    }
}

/// Parse the service-listing output into the non-blank lines, in order.
pub fn parse_services(output: &str) -> (r: Vec<String>)
    ensures
        r.deep_view() == service_lines(output@),
{
    let n: usize = output.unicode_len();
    let mut r: Vec<String> = Vec::new();
    let mut start: usize = 0;
    let mut j: usize = 0;
    proof {
        reveal(Seq::filter);
        assert(output@.take(0int) =~= Seq::<char>::empty());
    }
    while j < n
        invariant
            start <= j <= n,
            n == output@.len(),
            split_on_newline(output@.take(j as int)).last() =~= output@.subrange(
                start as int,
                j as int,
            ),
            r.deep_view() =~= split_on_newline(output@.take(j as int)).drop_last().filter(
                |line: Seq<char>| line.len() > 0,
            ),
        decreases n - j,
    {
        let ghost prefix = output@.take(j as int);
        let ghost extended = output@.take(j + 1int);
        proof {
            assert(extended.drop_last() =~= prefix);
            assert(extended.last() == output@[j as int]);
            lemma_split_on_newline_nonempty(prefix);
            reveal(Seq::filter);
        }
        let c = output.get_char(j);
        if c == '\n' {
            let mut end: usize = j;
            if j > start && output.get_char(j - 1) == '\r' {
                end = j - 1;
            }
            proof {
                let pre = split_on_newline(prefix);
                let cur = output@.subrange(start as int, j as int);
                assert(cur.len() == j - start);
                assert(cur.len() > 0 ==> cur.last() == output@[j - 1int]);
                let stripped = strip_trailing_cr(cur);
                assert(stripped =~= output@.subrange(start as int, end as int));
                assert(split_on_newline(extended) =~= pre.update(pre.len() - 1, stripped).push(
                    Seq::<char>::empty(),
                ));
                assert(pre.update(pre.len() - 1, stripped) =~= pre.drop_last().push(stripped));
                assert(split_on_newline(extended).drop_last() =~= pre.drop_last().push(stripped));
                assert(pre.drop_last().push(stripped).drop_last() =~= pre.drop_last());
            }
            if end > start {
                let line = output.substring_char(start, end);
                r.push(line.to_owned());
            } else {
                proof {
                    assert(output@.subrange(start as int, end as int).len() == 0);
                }
            }
            start = j + 1;
            proof {
                assert(split_on_newline(extended).last() =~= output@.subrange(
                    start as int,
                    j + 1int,
                ));
            }
        } else {
            proof {
                let before = split_on_newline(prefix);
                let after = split_on_newline(extended);
                assert(after =~= before.update(before.len() - 1, before.last().push(
                    output@[j as int],
                )));
                assert(after.drop_last() =~= before.drop_last());
                assert(after.last() =~= output@.subrange(start as int, j + 1int));
            }
        }
        j = j + 1;
    }
    proof {
        assert(output@.take(n as int) =~= output@);
        lemma_split_on_newline_nonempty(output@);
        reveal(Seq::filter);
        assert(split_on_newline(output@) =~= split_on_newline(output@).drop_last().push(
            split_on_newline(output@).last(),
        ));
    }
    if n > start {
        let line = output.substring_char(start, n);
        r.push(line.to_owned());
    }
    proof {
        assert(r.deep_view() =~= service_lines(output@));
    }
    r
}

} // verus!
