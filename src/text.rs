//! Text building blocks: decimal numerals, joining, and line-wise indentation.
use vstd::prelude::*;

verus! {

/// The character of a decimal digit.
pub open spec fn digit_char(d: nat) -> char
    recommends
        d < 10,
{
    ((48 + d) as u8) as char
}

/// The decimal numeral of a natural number, without leading zeros.
pub open spec fn decimal(n: nat) -> Seq<char>
    decreases n,
{
    if n < 10 {
        seq![digit_char(n)]
    } else {
        decimal(n / 10).push(digit_char(n % 10))
    }
}

/// The decimal numeral of an integer, with a leading '-' when negative.
pub open spec fn signed_decimal(n: int) -> Seq<char> {
    if n < 0 {
        seq!['-'] + decimal((-n) as nat)
    } else {
        decimal(n as nat)
    }
}

/// Relies on String::push: the character is appended at the end.
#[verifier::external_body]
pub(crate) fn push_char(s: &mut String, c: char)
    ensures
        final(s)@ == old(s)@.push(c),
{
    s.push(c)
}

/// Whether two strings hold the same text.
pub fn same_text(a: &str, b: &str) -> (r: bool)
    ensures
        r == (a@ == b@),
{
    let x: String = a.to_owned();
    let y: String = b.to_owned();
    x == y
}

/// Appends the decimal numeral of `n` to `s`.
pub fn push_decimal(s: &mut String, n: u64)
    ensures
        final(s)@ == old(s)@ + decimal(n as nat),
    decreases n,
{
    if n >= 10 {
        push_decimal(s, n / 10);
    }
    let d: u8 = (n % 10) as u8;
    let c: char = (48u8 + d) as char;
    push_char(s, c);
}

/// Appends the decimal numeral of `n` to `s`, with a leading '-' when negative.
pub fn push_signed_decimal(s: &mut String, n: i64)
    ensures
        final(s)@ == old(s)@ + signed_decimal(n as int),
{
    if n < 0 {
        push_char(s, '-');
        let m: u64 = if n == i64::MIN {
            9223372036854775808u64
        } else {
            (-n) as u64
        };
        push_decimal(s, m);
        assert(final(s)@ =~= old(s)@ + signed_decimal(n as int));
    } else {
        push_decimal(s, n as u64);
    }
}

/// The items joined, with `sep` between each two neighbours.
pub open spec fn join(items: Seq<Seq<char>>, sep: Seq<char>) -> Seq<char>
    decreases items.len(),
{
    if items.len() == 0 {
        seq![]
    } else if items.len() == 1 {
        items[0]
    } else {
        join(items.drop_last(), sep) + sep + items.last()
    }
}

/// The text of each string of a vector.
pub open spec fn texts(v: Seq<String>) -> Seq<Seq<char>> {
    v.map_values(|x: String| x@)
}

/// Appends the items joined by `sep` to `out`.
pub fn push_joined(out: &mut String, items: &Vec<String>, sep: &str)
    ensures
        final(out)@ == old(out)@ + join(texts(items@), sep@),
{
    let mut i: usize = 0;
    while i < items.len()
        invariant
            i <= items.len(),
            out@ == old(out)@ + join(texts(items@.take(i as int)), sep@),
        decreases items.len() - i,
    {
        if i > 0 {
            out.append(sep);
        }
        out.append(items[i].as_str());
        proof {
            let t = texts(items@.take(i + 1));
            assert(t.drop_last() =~= texts(items@.take(i as int)));
            assert(t.last() == items@[i as int]@);
            if i == 0 {
                assert(t.len() == 1);
            }
        }
        i = i + 1;
    }
    assert(items@.take(items.len() as int) =~= items@);
}

/// The indentation put before each line of an error block.
pub open spec fn indent() -> Seq<char> {
    seq![' ', ' ', ' ', ' ']
}

/// A line without the carriage return that ends it, if one does.
pub open spec fn strip_cr(l: Seq<char>) -> Seq<char> {
    if l.len() > 0 && l.last() == '\r' {
        l.drop_last()
    } else {
        l
    }
}

/// The lines that a '\n' has closed, and the line still open after them.
pub open spec fn split_lines(s: Seq<char>) -> (Seq<Seq<char>>, Seq<char>)
    decreases s.len(),
{
    if s.len() == 0 {
        (seq![], seq![])
    } else {
        let (closed, open) = split_lines(s.drop_last());
        if s.last() == '\n' {
            (closed.push(strip_cr(open)), seq![])
        } else {
            (closed, open.push(s.last()))
        }
    }
}

/// The lines of a text: split at each '\n' (a "\r\n" ends a line too), with
/// no empty line after a final '\n'.
pub open spec fn lines(s: Seq<char>) -> Seq<Seq<char>> {
    let (closed, open) = split_lines(s);
    if open.len() == 0 {
        closed
    } else {
        closed.push(open)
    }
}

/// Each line indented and ended by '\n'.
pub open spec fn indent_lines(ls: Seq<Seq<char>>) -> Seq<char>
    decreases ls.len(),
{
    if ls.len() == 0 {
        seq![]
    } else {
        indent_lines(ls.drop_last()) + indent() + ls.last() + seq!['\n']
    }
}

/// The text with every one of its lines indented.
pub open spec fn indented(s: Seq<char>) -> Seq<char> {
    indent_lines(lines(s))
}

fn push_indent(out: &mut String)
    ensures
        final(out)@ == old(out)@ + indent(),
{
    push_char(out, ' ');
    push_char(out, ' ');
    push_char(out, ' ');
    push_char(out, ' ');
    assert(final(out)@ =~= old(out)@ + indent());
}

fn push_line(out: &mut String, line: &str)
    ensures
        final(out)@ == old(out)@ + indent() + strip_cr(line@) + seq!['\n'],
{
    push_indent(out);
    let k = line.unicode_len();
    if k > 0 && line.get_char(k - 1) == '\r' {
        out.append(line.substring_char(0, k - 1));
        assert(line@.subrange(0, k - 1) =~= line@.drop_last());
    } else {
        out.append(line);
    }
    push_char(out, '\n');
}

/// Appends every line of `s`, indented, to `out`.
pub fn push_indented(out: &mut String, s: &str)
    ensures
        final(out)@ == old(out)@ + indented(s@),
{
    let n = s.unicode_len();
    let mut line = String::new();
    let mut i: usize = 0;
    while i < n
        invariant
            n == s@.len(),
            i <= n,
            out@ == old(out)@ + indent_lines(split_lines(s@.take(i as int)).0),
            line@ == split_lines(s@.take(i as int)).1,
        decreases n - i,
    {
        let c = s.get_char(i);
        proof {
            assert(s@.take(i + 1).drop_last() =~= s@.take(i as int));
            assert(s@.take(i + 1).last() == c);
        }
        if c == '\n' {
            let ghost closed = split_lines(s@.take(i as int)).0;
            push_line(out, line.as_str());
            proof {
                let x = strip_cr(line@);
                assert(closed.push(x).drop_last() =~= closed);
                assert(out@ =~= old(out)@ + indent_lines(closed.push(x)));
            }
            line = String::new();
        } else {
            push_char(&mut line, c);
        }
        i = i + 1;
    }
    assert(s@.take(n as int) =~= s@);
    if !line.as_str().is_empty() {
        let ghost closed = split_lines(s@).0;
        push_indent(out);
        out.append(line.as_str());
        push_char(out, '\n');
        proof {
            assert(closed.push(line@).drop_last() =~= closed);
            assert(out@ =~= old(out)@ + indent_lines(closed.push(line@)));
        }
    }
}

} // verus!
