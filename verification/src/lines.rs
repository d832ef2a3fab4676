use vstd::prelude::*;

verus! {

/// A line with its terminator removed: a single trailing carriage return is
/// dropped, so that both bare line feeds and carriage-return line feeds end
/// a line.
pub open spec fn strip_cr(s: Seq<char>) -> Seq<char> {
    if s.len() > 0 && s.last() == '\r' {
        s.drop_last()
    } else {
        s
    }
}

/// The position of the first line feed in `s`, or `s.len()` when there is
/// none.
pub open spec fn first_nl(s: Seq<char>) -> nat
    decreases s.len(),
{
    if s.len() == 0 {
        0
    } else if s[0] == '\n' {
        0
    } else {
        1 + first_nl(s.drop_first())
    }
}

/// `first_nl` is pinned down by what stands left of a position and at it.
pub proof fn lemma_first_nl_is(s: Seq<char>, m: int)
    requires
        0 <= m <= s.len(),
        forall|j: int| 0 <= j < m ==> s[j] != '\n',
        m < s.len() ==> s[m] == '\n',
    ensures
        first_nl(s) == m,
    decreases s.len(),
{
    if s.len() == 0 {
    } else if s[0] == '\n' {
        assert(m == 0);
    } else {
        assert(m >= 1);
        assert forall|j: int| 0 <= j < m - 1 implies s.drop_first()[j] != '\n' by {
            assert(s.drop_first()[j] == s[j + 1]);
        }
        if m - 1 < s.drop_first().len() {
            assert(s.drop_first()[m - 1] == s[m]);
        }
        lemma_first_nl_is(s.drop_first(), m - 1);
    }
}

/// The lines of a text, in order: segments split at each line feed, each
/// losing one trailing carriage return where a line feed ended it.  The
/// final line terminator is optional; text after the last line feed forms a
/// final line, kept verbatim, only when it is non-empty.
pub open spec fn line_split(s: Seq<char>) -> Seq<Seq<char>>
    decreases s.len(),
{
    if s.len() == 0 {
        Seq::empty()
    } else {
        let i = first_nl(s) as int;
        if i >= s.len() {
            seq![s]
        } else {
            seq![strip_cr(s.take(i))] + line_split(s.skip(i + 1))
        }
    }
}

/// The views of a vector of strings, elementwise.
pub open spec fn str_views(s: Seq<String>) -> Seq<Seq<char>> {
    s.map_values(|t: String| t@)
}

/// Splits a text into its lines: segments end at a line feed or at a
/// carriage return followed by a line feed, the final terminator being
/// optional.
pub fn split_lines(s: &str) -> (r: Vec<String>)
    ensures
        str_views(r@) == line_split(s@),
{
    let len = s.unicode_len();
    let mut out: Vec<String> = Vec::new();
    let mut pos: usize = 0;
    proof {
        assert(s@.skip(0) =~= s@);
        assert(str_views(out@) =~= Seq::<Seq<char>>::empty());
        assert(str_views(out@) + line_split(s@.skip(0)) =~= line_split(s@));
    }
    while pos < len
        invariant
            len == s@.len(),
            pos <= len,
            line_split(s@) == str_views(out@) + line_split(s@.skip(pos as int)),
        decreases len - pos,
    {
        let ghost base = pos as int;
        let ghost rem = s@.skip(base);
        let mut j: usize = pos;
        while j < len && s.get_char(j) != '\n'
            invariant
                len == s@.len(),
                pos <= j <= len,
                forall|k: int| pos <= k < j ==> s@[k] != '\n',
            decreases len - j,
        {
            j = j + 1;
        }
        proof {
            assert(rem.len() == len - base);
            assert forall|k: int| 0 <= k < j - base implies rem[k] != '\n' by {
                assert(rem[k] == s@[base + k]);
            }
            if (j as int) < len as int {
                assert(rem[j - base] == s@[j as int]);
            }
            lemma_first_nl_is(rem, j - base);
        }
        let mut end: usize = j;
        if j < len && end > pos && s.get_char(end - 1) == '\r' {
            end = end - 1;
        }
        let piece = s.substring_char(pos, end).to_owned();
        proof {
            let seg = rem.take(j - base);
            assert(seg =~= s@.subrange(base, j as int));
            if j < len {
                if j > pos && s@[j - 1] == '\r' {
                    assert(seg.len() > 0 && seg.last() == '\r');
                    assert(strip_cr(seg) =~= s@.subrange(base, end as int));
                } else {
                    assert(end == j);
                    if seg.len() > 0 {
                        assert(seg.last() == s@[j - 1]);
                    }
                    assert(strip_cr(seg) =~= s@.subrange(base, end as int));
                }
                assert(piece@ == strip_cr(seg));
            } else {
                assert(end == j);
                assert(seg =~= rem);
                assert(piece@ == rem);
            }
        }
        let ghost old_out = out@;
        out.push(piece);
        proof {
            assert(str_views(out@) =~= str_views(old_out).push(piece@));
        }
        if j < len {
            pos = j + 1;
        } else {
            pos = len;
        }
        proof {
            let i = j - base;
            assert(rem.len() > 0);
            assert(first_nl(rem) == i);
            if i < rem.len() {
                assert(line_split(rem) == seq![strip_cr(rem.take(i))] + line_split(
                    rem.skip(i + 1),
                ));
                assert(rem.skip(i + 1) =~= s@.skip(pos as int));
            } else {
                assert(line_split(rem) == seq![rem]);
                assert(rem.take(i) =~= rem);
                assert(s@.skip(pos as int) =~= Seq::<char>::empty());
                assert(line_split(s@.skip(pos as int)) =~= Seq::<Seq<char>>::empty());
            }
            assert(str_views(old_out) + line_split(rem) =~= str_views(out@) + line_split(
                s@.skip(pos as int),
            ));
        }
    }
    proof {
        assert(s@.skip(pos as int) =~= s@.skip(len as int));
        assert(s@.skip(len as int) =~= Seq::<char>::empty());
        assert(line_split(s@) =~= str_views(out@));
    }
    out
}

} // verus!
