//! Multi-line row expansion: a row whose last cell holds newlines is split
//! into the row without that cell followed by one synthetic single-cell row
//! per line, each line numbered and its leading whitespace made visible as
//! a run of dashes, so multi-line output stays diffable line by line.

use vstd::prelude::*;
use crate::text::{is_whitespace_char, push_char, push_line_number};
use crate::text::{spec_is_whitespace, spec_line_number};

verus! {

/// The lines of `s`, split on newline characters; splitting the empty
/// string yields one empty line.
pub open spec fn spec_split_lines(s: Seq<char>) -> Seq<Seq<char>>
    decreases s.len(),
{
    if s.len() == 0 {
        seq![Seq::<char>::empty()]
    } else if s[0] == '\n' {
        seq![Seq::<char>::empty()] + spec_split_lines(s.skip(1))
    } else {
        let rest = spec_split_lines(s.skip(1));
        seq![seq![s[0]] + rest[0]] + rest.skip(1)
    }
}

/// Splitting always yields at least one line.
pub proof fn lemma_split_lines_len(s: Seq<char>)
    ensures
        spec_split_lines(s).len() >= 1,
    decreases s.len(),
{
    if s.len() > 0 {
        lemma_split_lines_len(s.skip(1));
    }
}

/// How the lines of a string change when one character is appended: a
/// newline opens a new empty line, any other character extends the last
/// line.
pub proof fn lemma_split_lines_push(s: Seq<char>, c: char)
    ensures
        c == '\n' ==> spec_split_lines(s.push(c)) == spec_split_lines(s) + seq![
            Seq::<char>::empty(),
        ],
        c != '\n' ==> spec_split_lines(s.push(c)) == spec_split_lines(s).drop_last().push(
            spec_split_lines(s).last().push(c),
        ),
    decreases s.len(),
{
    lemma_split_lines_len(s);
    assert(spec_split_lines(Seq::<char>::empty()) == seq![Seq::<char>::empty()]);
    if s.len() == 0 {
        assert(s.push(c)[0] == c);
        assert(s.push(c).skip(1) =~= Seq::<char>::empty());
        if c == '\n' {
            assert(spec_split_lines(s.push(c)) =~~= spec_split_lines(s) + seq![
                Seq::<char>::empty(),
            ]);
        } else {
            assert(spec_split_lines(s.push(c)) =~~= spec_split_lines(s).drop_last().push(
                spec_split_lines(s).last().push(c),
            ));
        }
    } else {
        lemma_split_lines_push(s.skip(1), c);
        lemma_split_lines_len(s.skip(1));
        assert(s.push(c)[0] == s[0]);
        assert(s.push(c).skip(1) =~= s.skip(1).push(c));
        if c == '\n' {
            assert(spec_split_lines(s.push(c)) =~~= spec_split_lines(s) + seq![
                Seq::<char>::empty(),
            ]);
        } else {
            if s[0] == '\n' {
                assert(spec_split_lines(s.push(c)) =~~= spec_split_lines(s).drop_last().push(
                    spec_split_lines(s).last().push(c),
                ));
            } else {
                let rest = spec_split_lines(s.skip(1));
                let restp = spec_split_lines(s.skip(1).push(c));
                assert(restp == rest.drop_last().push(rest.last().push(c)));
                if rest.len() == 1 {
                    assert(spec_split_lines(s.push(c)) =~~= spec_split_lines(
                        s,
                    ).drop_last().push(spec_split_lines(s).last().push(c)));
                } else {
                    assert(spec_split_lines(s).last() == rest.last());
                    assert(spec_split_lines(s.push(c)) =~~= spec_split_lines(
                        s,
                    ).drop_last().push(spec_split_lines(s).last().push(c)));
                }
            }
        }
    }
}

/// Splits `s` into its lines.
pub fn split_lines(s: &str) -> (lines: Vec<String>)
    ensures
        lines.deep_view() == spec_split_lines(s@),
{
    let n = s.unicode_len();
    let mut lines: Vec<String> = Vec::new();
    let mut cur = String::new();
    let mut i: usize = 0;
    while i < n
        invariant
            i <= n,
            n == s@.len(),
            lines.deep_view().push(cur@) =~= spec_split_lines(s@.take(i as int)),
        decreases n - i,
    {
        let c = s.get_char(i);
        proof {
            lemma_split_lines_push(s@.take(i as int), c);
            lemma_split_lines_len(s@.take(i as int));
            assert(s@.take(i + 1 as int) =~= s@.take(i as int).push(c));
        }
        if c == '\n' {
            lines.push(cur);
            cur = String::new();
        } else {
            push_char(&mut cur, c);
        }
        i = i + 1;
        assert(lines.deep_view().push(cur@) =~= spec_split_lines(s@.take(i as int)));
    }
    proof {
        assert(s@.take(n as int) =~= s@);
    }
    lines.push(cur);
    assert(lines.deep_view() =~= spec_split_lines(s@));
    lines
}

/// The number of leading whitespace characters of a line.
pub open spec fn spec_leading_ws(l: Seq<char>) -> nat
    decreases l.len(),
{
    if l.len() > 0 && spec_is_whitespace(l[0]) {
        1 + spec_leading_ws(l.skip(1))
    } else {
        0
    }
}

/// The leading-whitespace count is the first index holding a
/// non-whitespace character.
proof fn lemma_leading_ws(l: Seq<char>, j: int)
    requires
        0 <= j <= l.len(),
        forall|m: int| 0 <= m < j ==> spec_is_whitespace(#[trigger] l[m]),
        j < l.len() ==> !spec_is_whitespace(l[j]),
    ensures
        spec_leading_ws(l) == j,
    decreases j,
{
    if j == 0 {
    } else {
        assert(spec_is_whitespace(l[0]));
        lemma_leading_ws(l.skip(1), j - 1);
    }
}

/// One synthetic row's cell for line `num` (one-based) with content `l`:
/// the zero-padded line number, a closing parenthesis, one dash per leading
/// whitespace character, and the line without its leading whitespace.
pub open spec fn spec_expanded_line(num: nat, l: Seq<char>) -> Seq<char> {
    let w = spec_leading_ws(l);
    spec_line_number(num) + seq![')'] + Seq::new(w, |i: int| '-') + l.skip(w as int)
}

/// What a canonicalized row expands to: itself when its last cell has no
/// newline (or the row is empty), otherwise the row without its last cell
/// followed by one single-cell row per line of that cell, in line order.
pub open spec fn spec_expand_row(row: Seq<Seq<char>>) -> Seq<Seq<Seq<char>>> {
    if row.len() == 0 {
        seq![row]
    } else {
        let lines = spec_split_lines(row.last());
        if lines.len() < 2 {
            seq![row]
        } else {
            seq![row.drop_last()] + Seq::new(
                lines.len(),
                |i: int| seq![spec_expanded_line((i + 1) as nat, lines[i])],
            )
        }
    }
}

/// Renders the synthetic row cell for one line.
fn expanded_line(num: usize, l: &String) -> (r: String)
    ensures
        r@ == spec_expanded_line(num as nat, l@),
{
    let n = l.as_str().unicode_len();
    let mut w: usize = 0;
    while w < n && is_whitespace_char(l.as_str().get_char(w))
        invariant
            w <= n,
            n == l@.len(),
            forall|m: int| 0 <= m < w ==> spec_is_whitespace(#[trigger] l@[m]),
        decreases n - w,
    {
        w = w + 1;
    }
    proof {
        lemma_leading_ws(l@, w as int);
    }
    let mut r = String::new();
    push_line_number(&mut r, num);
    push_char(&mut r, ')');
    let mut k: usize = 0;
    while k < w
        invariant
            k <= w,
            r@ =~= spec_line_number(num as nat) + seq![')'] + Seq::new(k as nat, |i: int| '-'),
        decreases w - k,
    {
        push_char(&mut r, '-');
        k = k + 1;
        assert(r@ =~= spec_line_number(num as nat) + seq![')'] + Seq::new(
            k as nat,
            |i: int| '-',
        ));
    }
    let mut j: usize = w;
    while j < n
        invariant
            w <= j <= n,
            n == l@.len(),
            r@ =~= spec_line_number(num as nat) + seq![')'] + Seq::new(w as nat, |i: int| '-')
                + l@.subrange(w as int, j as int),
        decreases n - j,
    {
        push_char(&mut r, l.as_str().get_char(j));
        j = j + 1;
        assert(r@ =~= spec_line_number(num as nat) + seq![')'] + Seq::new(w as nat, |i: int| '-')
            + l@.subrange(w as int, j as int));
    }
    proof {
        assert(l@.subrange(w as int, n as int) =~= l@.skip(w as int));
        assert(r@ =~= spec_expanded_line(num as nat, l@));
    }
    r
}

/// Expands one canonicalized row, last cell only: rows come back in the
/// order they must appear in the final matrix.
pub fn expand_row(row: Vec<String>) -> (out: Vec<Vec<String>>)
    ensures
        out.deep_view() == spec_expand_row(row.deep_view()),
{
    let mut row = row;
    let ghost row0 = row.deep_view();
    if row.len() == 0 {
        let mut out: Vec<Vec<String>> = Vec::new();
        out.push(row);
        assert(out.deep_view() =~= spec_expand_row(row0));
        return out;
    }
    let cell = row.pop().unwrap();
    proof {
        assert(cell@ == row0.last());
        assert(row.deep_view() =~= row0.drop_last());
    }
    let lines = split_lines(cell.as_str());
    if lines.len() < 2 {
        row.push(cell);
        proof {
            assert(row.deep_view() =~= row0);
        }
        let mut out: Vec<Vec<String>> = Vec::new();
        out.push(row);
        assert(out.deep_view() =~= spec_expand_row(row0));
        return out;
    }
    let ghost lines_view = spec_split_lines(row0.last());
    let mut out: Vec<Vec<String>> = Vec::new();
    out.push(row);
    let mut idx: usize = 0;
    while idx < lines.len()
        invariant
            idx <= lines.len(),
            lines.deep_view() == lines_view,
            lines_view.len() >= 2,
            row0.len() > 0,
            out.deep_view().len() == 1 + idx,
            out.deep_view()[0] == row0.drop_last(),
            forall|p: int|
                1 <= p <= idx ==> #[trigger] out.deep_view()[p] == seq![
                    spec_expanded_line(p as nat, lines_view[p - 1]),
                ],
        decreases lines@.len() - idx,
    {
        proof {
            assert(lines.deep_view()[idx as int] == lines@[idx as int]@);
            assert(lines@[idx as int]@ == lines_view[idx as int]);
        }
        let cell_text = expanded_line(idx + 1, &lines[idx]);
        let mut synthetic: Vec<String> = Vec::new();
        synthetic.push(cell_text);
        proof {
            assert(synthetic.deep_view() =~= seq![cell_text@]);
            assert(cell_text@ == spec_expanded_line((idx + 1) as nat, lines_view[idx as int]));
        }
        let ghost old_dv = out.deep_view();
        out.push(synthetic);
        proof {
            assert(out.deep_view() =~= old_dv.push(synthetic.deep_view()));
        }
        idx = idx + 1;
    }
    proof {
        let target = spec_expand_row(row0);
        assert(target == seq![row0.drop_last()] + Seq::new(
            spec_split_lines(row0.last()).len(),
            |i: int| seq![spec_expanded_line((i + 1) as nat, spec_split_lines(row0.last())[i])],
        ));
        assert(out.deep_view().len() == target.len());
        assert forall|p: int| 0 <= p < target.len() implies out.deep_view()[p] == target[p] by {
            if p >= 1 {
                assert(out.deep_view()[p] == seq![
                    spec_expanded_line(((p - 1) + 1) as nat, lines_view[p - 1]),
                ]);
                assert(target[p] == seq![
                    spec_expanded_line(((p - 1) + 1) as nat, lines_view[p - 1]),
                ]);
            }
        }
        assert(out.deep_view() =~= target);
    }
    out
}

} // verus!
