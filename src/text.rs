//! The file format: a document is its lines, each followed by a newline.
use vstd::prelude::*;

verus! {

/// The pieces of `s` between newline characters, the last one possibly empty.
pub open spec fn pieces(s: Seq<char>) -> Seq<Seq<char>>
    decreases s.len(),
{
    if s.len() == 0 {
        seq![Seq::empty()]
    } else {
        let p = pieces(s.drop_last());
        if s.last() == '\n' {
            p.push(Seq::empty())
        } else {
            p.update(p.len() - 1, p.last().push(s.last()))
        }
    }
}

/// The lines of a file's text: split on newlines, where a final newline ends
/// the last line instead of starting a new one. Empty text is one empty line.
pub open spec fn split_text(s: Seq<char>) -> Seq<Seq<char>> {
    if s.len() > 0 && s.last() == '\n' {
        pieces(s).drop_last()
    } else {
        pieces(s)
    }
}

/// The text of a file holding `lines`: every line followed by a newline.
pub open spec fn join_lines(lines: Seq<Seq<char>>) -> Seq<char>
    decreases lines.len(),
{
    if lines.len() == 0 {
        Seq::empty()
    } else {
        join_lines(lines.drop_last()) + lines.last() + seq!['\n']
    }
}

pub open spec fn has_newline(line: Seq<char>) -> bool {
    exists|i: int| 0 <= i < line.len() && line[i] == '\n'
}

/// The characters of each string.
pub open spec fn strings_view(v: Seq<String>) -> Seq<Seq<char>> {
    v.map_values(|s: String| s@)
}

pub proof fn lemma_pieces_len(s: Seq<char>)
    ensures
        pieces(s).len() >= 1,
    decreases s.len(),
{
    if s.len() > 0 {
        lemma_pieces_len(s.drop_last());
    }
}

/// Text without newlines extends the last piece.
proof fn lemma_pieces_extend(x: Seq<char>, l: Seq<char>)
    requires
        !has_newline(l),
    ensures
        pieces(x + l) == ({
            let p = pieces(x);
            p.update(p.len() - 1, p.last() + l)
        }),
    decreases l.len(),
{
    lemma_pieces_len(x);
    if l.len() == 0 {
        assert(x + l =~= x);
        assert(pieces(x).last() + l =~= pieces(x).last());
        assert(pieces(x).update(pieces(x).len() - 1, pieces(x).last()) =~= pieces(x));
    } else {
        let l0 = l.drop_last();
        assert(!has_newline(l0)) by {
            if has_newline(l0) {
                let i = choose|i: int| 0 <= i < l0.len() && l0[i] == '\n';
                assert(l[i] == '\n');
            }
        }
        lemma_pieces_extend(x, l0);
        assert((x + l).drop_last() =~= x + l0);
        assert((x + l).last() == l.last());
        assert(l[l.len() - 1] != '\n');
        let p = pieces(x);
        assert(p.last() + l0 + seq![l.last()] =~= p.last() + l);
        assert((p.last() + l0).push(l.last()) =~= p.last() + l);
        assert(pieces(x + l0).update(p.len() - 1, (p.last() + l0).push(l.last())) =~= p.update(
            p.len() - 1,
            p.last() + l,
        ));
    }
}

proof fn lemma_pieces_of_join(lines: Seq<Seq<char>>)
    requires
        forall|i: int| 0 <= i < lines.len() ==> !has_newline(#[trigger] lines[i]),
    ensures
        pieces(join_lines(lines)) == lines.push(Seq::empty()),
    decreases lines.len(),
{
    if lines.len() == 0 {
        assert(pieces(Seq::empty()) =~= seq![Seq::<char>::empty()]);
        assert(lines.push(Seq::empty()) =~= seq![Seq::<char>::empty()]);
    } else {
        let front = lines.drop_last();
        let l = lines.last();
        assert(forall|i: int| 0 <= i < front.len() ==> front[i] == lines[i]);
        lemma_pieces_of_join(front);
        let x = join_lines(front);
        let s = join_lines(lines);
        assert(s == x + l + seq!['\n']);
        assert(!has_newline(lines[lines.len() - 1]));
        lemma_pieces_extend(x, l);
        assert(s.drop_last() =~= x + l);
        assert(s.last() == '\n');
        let p = front.push(Seq::empty());
        assert(p.update(p.len() - 1, p.last() + l) =~= lines) by {
            assert(Seq::<char>::empty() + l =~= l);
        }
        assert(pieces(s) =~= lines.push(Seq::empty()));
    }
}

/// Writing lines out and reading the text back gives the same lines, as long
/// as there is at least one line and no line holds a newline.
pub proof fn lemma_join_then_split(lines: Seq<Seq<char>>)
    requires
        lines.len() >= 1,
        forall|i: int| 0 <= i < lines.len() ==> !has_newline(#[trigger] lines[i]),
    ensures
        split_text(join_lines(lines)) == lines,
{
    lemma_pieces_of_join(lines);
    let s = join_lines(lines);
    assert(s == join_lines(lines.drop_last()) + lines.last() + seq!['\n']);
    assert(s.last() == '\n');
    assert(lines.push(Seq::empty()).drop_last() =~= lines);
}

/// Relies on String::push: appends the character at the end.
#[verifier::external_body]
pub(crate) fn push_char(s: &mut String, c: char)
    ensures
        final(s)@ == old(s)@.push(c),
{
    s.push(c)
}

/// Splits a file's text into its lines (see `split_text`).
pub fn split_lines(text: &str) -> (r: Vec<String>)
    ensures
        strings_view(r@) == split_text(text@),
        r@.len() >= 1,
{
    let mut done: Vec<String> = Vec::new();
    let mut cur = String::new();
    let ghost mut seen: Seq<char> = Seq::empty();
    let mut last_newline = false;
    for c in it: text.chars()
        invariant
            it.seq() == text@,
            seen == text@.take(it.index() as int),
            strings_view(done@).push(cur@) == pieces(seen),
            last_newline == (seen.len() > 0 && seen.last() == '\n'),
    {
        proof {
            lemma_pieces_len(seen);
        }
        let ghost prev = seen;
        proof {
            seen = seen.push(c);
            assert(seen == text@.take(it.index() as int + 1));
            assert(seen.drop_last() == prev);
        }
        if c == '\n' {
            let line = cur;
            done.push(line);
            cur = String::new();
            last_newline = true;
            assert(strings_view(done@).push(cur@) =~= pieces(prev).push(Seq::empty()));
        } else {
            let ghost before = cur@;
            push_char(&mut cur, c);
            last_newline = false;
            assert(strings_view(done@).push(cur@) =~= pieces(prev).update(
                pieces(prev).len() - 1,
                before.push(c),
            ));
        }
    }
    assert(seen =~= text@);
    if last_newline {
        proof {
            lemma_pieces_len(seen.drop_last());
        }
        assert(strings_view(done@) =~= pieces(seen).drop_last());
        done
    } else {
        done.push(cur);
        assert(strings_view(done@) =~= pieces(seen));
        done
    }
}

/// The text of a file holding `lines` (see `join_lines`).
pub fn join_text(lines: &Vec<String>) -> (r: String)
    ensures
        r@ == join_lines(strings_view(lines@)),
{
    let mut out = String::new();
    let mut i: usize = 0;
    while i < lines.len()
        invariant
            i <= lines.len(),
            out@ == join_lines(strings_view(lines@.take(i as int))),
        decreases lines.len() - i,
    {
        let ghost before = out@;
        out.append(lines[i].as_str());
        push_char(&mut out, '\n');
        proof {
            let t = strings_view(lines@.take(i + 1));
            assert(t.drop_last() =~= strings_view(lines@.take(i as int)));
            assert(t.last() == lines@[i as int]@);
            assert(out@ =~= before + t.last() + seq!['\n']);
        }
        i = i + 1;
    }
    assert(lines@.take(lines.len() as int) =~= lines@);
    out
}

} // verus!
