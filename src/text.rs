//! Text as sequences of characters: splitting into lines, joining lines,
//! and decimal rendering of numbers.
use vstd::prelude::*;
use vstd::std_specs::iter::IteratorSpec;

verus! {

/// The pieces of `s` between newline characters. Every newline ends a piece,
/// and the text after the last newline (possibly empty) is the final piece.
pub open spec fn split_newlines(s: Seq<char>) -> Seq<Seq<char>>
    decreases s.len(),
{
    if s.len() == 0 {
        seq![seq![]]
    } else {
        let p = split_newlines(s.drop_last());
        if s.last() == '\n' {
            p.push(seq![])
        } else {
            p.update(p.len() - 1, p.last().push(s.last()))
        }
    }
}

/// A line that was ended by a newline loses one carriage return before it.
pub open spec fn strip_cr(l: Seq<char>) -> Seq<char> {
    if l.len() > 0 && l.last() == '\r' {
        l.drop_last()
    } else {
        l
    }
}

/// The lines of a text: the pieces between newlines, where a piece ended by a
/// newline drops a trailing carriage return. The final piece is a line even
/// when empty, so an empty text is one empty line.
pub open spec fn text_lines(s: Seq<char>) -> Seq<Seq<char>> {
    let p = split_newlines(s);
    p.drop_last().map_values(|l: Seq<char>| strip_cr(l)).push(p.last())
}

/// The lines joined by a single newline between neighbours.
pub open spec fn join_lines(lines: Seq<Seq<char>>) -> Seq<char>
    decreases lines.len(),
{
    if lines.len() == 0 {
        seq![]
    } else if lines.len() == 1 {
        lines[0]
    } else {
        join_lines(lines.drop_last()) + seq!['\n'] + lines.last()
    }
}

pub open spec fn has_newline(l: Seq<char>) -> bool {
    exists|k: int| 0 <= k < l.len() && l[k] == '\n'
}

pub open spec fn digit_char(d: int) -> char {
    if d == 0 {
        '0'
    } else if d == 1 {
        '1'
    } else if d == 2 {
        '2'
    } else if d == 3 {
        '3'
    } else if d == 4 {
        '4'
    } else if d == 5 {
        '5'
    } else if d == 6 {
        '6'
    } else if d == 7 {
        '7'
    } else if d == 8 {
        '8'
    } else {
        '9'
    }
}

/// The decimal digits of `n`, most significant first, without leading zeros.
pub open spec fn decimal(n: nat) -> Seq<char>
    decreases n,
{
    if n < 10 {
        seq![digit_char(n as int)]
    } else {
        decimal(n / 10).push(digit_char((n % 10) as int))
    }
}

pub proof fn lemma_split_nonempty(s: Seq<char>)
    ensures
        split_newlines(s).len() >= 1,
    decreases s.len(),
{
    if s.len() > 0 {
        lemma_split_nonempty(s.drop_last());
    }
}

proof fn lemma_split_single(b: Seq<char>)
    requires
        !has_newline(b),
    ensures
        split_newlines(b) == seq![b],
    decreases b.len(),
{
    if b.len() > 0 {
        let c = b.drop_last();
        assert(!has_newline(c)) by {
            if has_newline(c) {
                let k = choose|k: int| 0 <= k < c.len() && c[k] == '\n';
                assert(b[k] == '\n');
            }
        }
        lemma_split_single(c);
        assert(b[b.len() - 1] != '\n');
        assert(c.push(b.last()) =~= b);
        assert(seq![c].update(0, c.push(b.last())) =~= seq![b]);
    } else {
        assert(b =~= Seq::<char>::empty());
    }
}

proof fn lemma_split_after_newline(a: Seq<char>, b: Seq<char>)
    requires
        !has_newline(b),
    ensures
        split_newlines(a + seq!['\n'] + b) == split_newlines(a).push(b),
    decreases b.len(),
{
    let s = a + seq!['\n'] + b;
    if b.len() == 0 {
        assert(s.drop_last() =~= a);
        assert(b =~= Seq::<char>::empty());
    } else {
        let c = b.drop_last();
        assert(!has_newline(c)) by {
            if has_newline(c) {
                let k = choose|k: int| 0 <= k < c.len() && c[k] == '\n';
                assert(b[k] == '\n');
            }
        }
        lemma_split_after_newline(a, c);
        assert(s.drop_last() =~= a + seq!['\n'] + c);
        assert(b[b.len() - 1] != '\n');
        let p = split_newlines(a).push(c);
        assert(p.update(p.len() - 1, p.last().push(s.last())) =~= split_newlines(a).push(b)) by {
            assert(c.push(b.last()) =~= b);
        }
    }
}

/// Splitting joined lines at newlines gives the lines back, where no line
/// holds a newline.
pub proof fn lemma_split_join(lines: Seq<Seq<char>>)
    requires
        lines.len() >= 1,
        forall|i: int| 0 <= i < lines.len() ==> !has_newline(#[trigger] lines[i]),
    ensures
        split_newlines(join_lines(lines)) == lines,
    decreases lines.len(),
{
    if lines.len() == 1 {
        lemma_split_single(lines[0]);
        assert(seq![lines[0]] =~= lines);
    } else {
        let init = lines.drop_last();
        assert forall|i: int| 0 <= i < init.len() implies !has_newline(#[trigger] init[i]) by {
            assert(init[i] == lines[i]);
        }
        lemma_split_join(init);
        lemma_split_after_newline(join_lines(init), lines.last());
        assert(init.push(lines.last()) =~= lines);
    }
}

/// Relies on `String::push`: the character is appended at the end.
#[verifier::external_body]
pub(crate) fn push_char(s: &mut String, c: char)
    ensures
        final(s)@ == old(s)@.push(c),
{
    s.push(c);
}

fn digit(d: u128) -> (c: char)
    requires
        d < 10,
    ensures
        c == digit_char(d as int),
{
    match d {
        0 => '0',
        1 => '1',
        2 => '2',
        3 => '3',
        4 => '4',
        5 => '5',
        6 => '6',
        7 => '7',
        8 => '8',
        _ => '9',
    }
}

/// `n` written in decimal.
pub fn decimal_string(n: u128) -> (r: String)
    ensures
        r@ == decimal(n as nat),
    decreases n,
{
    if n < 10 {
        let mut r = String::new();
        push_char(&mut r, digit(n));
        r
    } else {
        let mut r = decimal_string(n / 10);
        push_char(&mut r, digit(n % 10));
        r
    }
}

/// Splits a text into its lines, as `text_lines` describes.
pub fn split_text(content: &str) -> (r: Vec<String>)
    ensures
        r.deep_view() == text_lines(content@),
        r@.len() >= 1,
{
    broadcast use vstd::string::axiom_spec_iter, vstd::string::next_postcondition;

    let ghost s = content@;
    let mut done: Vec<String> = Vec::new();
    let mut cur = String::new();
    let mut it = content.chars();
    let ghost mut i: int = 0;
    proof {
        assert(s.subrange(0, 0) =~= Seq::<char>::empty());
        assert(s.subrange(0, s.len() as int) =~= s);
    }
    loop
        invariant
            0 <= i <= s.len(),
            it.remaining() == s.subrange(i, s.len() as int),
            split_newlines(s.subrange(0, i)).len() >= 1,
            done.deep_view() =~= split_newlines(s.subrange(0, i)).drop_last().map_values(
                |l: Seq<char>| strip_cr(l),
            ),
            cur@ == split_newlines(s.subrange(0, i)).last(),
        ensures
            i == s.len(),
            done.deep_view() =~= split_newlines(s).drop_last().map_values(
                |l: Seq<char>| strip_cr(l),
            ),
            cur@ == split_newlines(s).last(),
        decreases s.len() - i,
    {
        let ghost before = split_newlines(s.subrange(0, i));
        match it.next() {
            None => {
                proof {
                    assert(i == s.len());
                    assert(s.subrange(0, i) =~= s);
                }
                break ;
            },
            Some(c) => {
                proof {
                    let nxt = s.subrange(0, i + 1);
                    assert(nxt.drop_last() =~= s.subrange(0, i));
                    assert(nxt.last() == c);
                    lemma_split_nonempty(s.subrange(0, i + 1));
                    assert(s.subrange(i + 1, s.len() as int) =~= s.subrange(
                        i,
                        s.len() as int,
                    ).drop_first());
                }
                if c == '\n' {
                    let ghost old_done = done.deep_view();
                    let n = cur.as_str().unicode_len();
                    if n > 0 && cur.as_str().get_char(n - 1) == '\r' {
                        let t = String::from_str(cur.as_str().substring_char(0, n - 1));
                        proof {
                            assert(t@ =~= strip_cr(cur@));
                        }
                        done.push(t);
                    } else {
                        done.push(cur);
                    }
                    proof {
                        assert(done.deep_view() =~= old_done.push(strip_cr(before.last())));
                    }
                    cur = String::new();
                    proof {
                        let after = split_newlines(s.subrange(0, i + 1));
                        assert(after == before.push(seq![]));
                        assert(after.drop_last() =~= before);
                        assert(before =~= before.drop_last().push(before.last()));
                        assert(cur@ =~= after.last());
                    }
                } else {
                    push_char(&mut cur, c);
                    proof {
                        let after = split_newlines(s.subrange(0, i + 1));
                        assert(after.drop_last() =~= before.drop_last());
                    }
                }
                proof {
                    i = i + 1;
                }
            },
        }
    }
    let ghost ended = done.deep_view();
    done.push(cur);
    proof {
        assert(done.deep_view() =~= ended.push(cur@));
    }
    done
}

/// Joins lines with a single newline between neighbours.
pub fn join_text(lines: &Vec<String>) -> (r: String)
    ensures
        r@ == join_lines(lines.deep_view()),
{
    let mut r = String::new();
    let mut i: usize = 0;
    proof {
        assert(lines.deep_view().subrange(0, 0) =~= Seq::<Seq<char>>::empty());
    }
    while i < lines.len()
        invariant
            0 <= i <= lines.len(),
            r@ == join_lines(lines.deep_view().subrange(0, i as int)),
        decreases lines.len() - i,
    {
        let ghost pre = lines.deep_view().subrange(0, i as int);
        let ghost nxt = lines.deep_view().subrange(0, i as int + 1);
        if i > 0 {
            push_char(&mut r, '\n');
        }
        r.append(lines[i].as_str());
        proof {
            assert(nxt.drop_last() =~= pre);
            assert(nxt.last() == lines@[i as int]@);
            if i == 0 {
                assert(r@ =~= nxt[0]);
            } else {
                assert(r@ =~= join_lines(pre) + seq!['\n'] + nxt.last());
            }
        }
        i = i + 1;
    }
    proof {
        assert(lines.deep_view().subrange(0, lines.len() as int) =~= lines.deep_view());
    }
    r
}

} // verus!
