use vstd::prelude::*;

verus! {

/// `String::push` of the standard library, which appends one character to
/// the end of the string.
#[verifier::external_body]
pub(crate) fn push_char(s: &mut String, c: char)
    ensures
        final(s)@ == old(s)@.push(c),
{
    s.push(c);
}

/// The text made of `n` copies of `c`.
pub open spec fn repeated(c: char, n: nat) -> Seq<char> {
    Seq::new(n, |i: int| c)
}

/// Builds the text made of `n` copies of `c`.
pub fn repeat_char(c: char, n: usize) -> (r: String)
    ensures
        r@ == repeated(c, n as nat),
{
    let mut r = String::new();
    let mut i: usize = 0;
    while i < n
        invariant
            i <= n,
            r@ == repeated(c, i as nat),
        decreases n - i,
    {
        push_char(&mut r, c);
        i += 1;
    }
    r
}

/// The character for a single decimal digit.
pub open spec fn digit(d: nat) -> char {
    if d == 0 {
        '0'
    } else if d == 1 {
        '1'
    } else if d == 2 {
        '2'
    } else if d == 3 {
        '3'
    } else if d == 4 {
        '4'
    } else if d == 5 {
        '5'
    } else if d == 6 {
        '6'
    } else if d == 7 {
        '7'
    } else if d == 8 {
        '8'
    } else {
        '9'
    }
}

/// The decimal numeral of `n`, without leading zeros.
pub open spec fn decimal(n: nat) -> Seq<char>
    decreases n,
{
    if n < 10 {
        seq![digit(n)]
    } else {
        decimal(n / 10).push(digit(n % 10))
    }
}

fn digit_char(d: u128) -> (c: char)
    requires
        d < 10,
    ensures
        c == digit(d as nat),
{
    if d == 0 {
        '0'
    } else if d == 1 {
        '1'
    } else if d == 2 {
        '2'
    } else if d == 3 {
        '3'
    } else if d == 4 {
        '4'
    } else if d == 5 {
        '5'
    } else if d == 6 {
        '6'
    } else if d == 7 {
        '7'
    } else if d == 8 {
        '8'
    } else {
        '9'
    }
}

/// Appends the decimal numeral of `n` to `out`.
pub fn push_decimal(out: &mut String, n: u128)
    ensures
        final(out)@ == old(out)@ + decimal(n as nat),
    decreases n,
{
    if n >= 10 {
        push_decimal(out, n / 10);
    }
    push_char(out, digit_char(n % 10));
}

/// The number of characters of `s` that precede its first line feed, or
/// the length of `s` where it holds none.
pub open spec fn first_line_len(s: Seq<char>) -> nat
    decreases s.len(),
{
    if s.len() == 0 || s[0] == '\n' {
        0
    } else {
        1 + first_line_len(s.drop_first())
    }
}

/// `line` without the carriage return that ends it, if one does.
pub open spec fn without_cr(line: Seq<char>) -> Seq<char> {
    if line.len() > 0 && line.last() == '\r' {
        line.drop_last()
    } else {
        line
    }
}

/// The lines of a text. A line ends at a line feed, or at a carriage
/// return directly followed by a line feed; the terminator is not part of
/// the line. The last line needs no terminator, and a text that ends in
/// one has no empty line after it.
pub open spec fn text_lines(s: Seq<char>) -> Seq<Seq<char>>
    decreases s.len(),
{
    if s.len() == 0 {
        Seq::empty()
    } else {
        let n = first_line_len(s) as int;
        if n >= s.len() {
            seq![s]
        } else {
            seq![without_cr(s.take(n))] + text_lines(s.skip(n + 1))
        }
    }
}

/// The views of a sequence of strings.
pub open spec fn string_views(v: Seq<String>) -> Seq<Seq<char>> {
    v.map_values(|s: String| s@)
}

proof fn lemma_first_line_len_concat(a: Seq<char>, b: Seq<char>)
    requires
        forall|i: int| 0 <= i < a.len() ==> a[i] != '\n',
    ensures
        first_line_len(a + b) == a.len() + first_line_len(b),
    decreases a.len(),
{
    if a.len() == 0 {
        assert(a + b =~= b);
    } else {
        assert((a + b).drop_first() =~= a.drop_first() + b);
        lemma_first_line_len_concat(a.drop_first(), b);
    }
}

/// The characters that a line under construction stands for: those
/// collected so far, and a carriage return that is held back until the
/// character after it is known.
spec fn pending_line(cur: Seq<char>, held_cr: bool) -> Seq<char> {
    if held_cr {
        cur.push('\r')
    } else {
        cur
    }
}

/// Splits a text into its lines.
pub fn split_lines(s: &str) -> (r: Vec<String>)
    ensures
        string_views(r@) == text_lines(s@),
{
    let mut out: Vec<String> = Vec::new();
    let mut cur = String::new();
    let mut held_cr: bool = false;
    proof {
        assert(Seq::<char>::empty() + s@.skip(0) =~= s@);
        assert(string_views(out@) + text_lines(s@) =~= text_lines(s@));
    }
    for c in it: s.chars()
        invariant
            it.seq() == s@,
            forall|i: int| 0 <= i < cur@.len() ==> cur@[i] != '\n',
            !held_cr && cur@.len() > 0 ==> cur@.last() != '\r',
            string_views(out@) + text_lines(pending_line(cur@, held_cr) + s@.skip(it.index()))
                == text_lines(s@),
    {
        let ghost line = pending_line(cur@, held_cr);
        let ghost rest = s@.skip(it.index());
        let ghost after = s@.skip(it.index() + 1);
        proof {
            assert(rest =~= seq![c] + after);
        }
        if c == '\n' {
            proof {
                lemma_first_line_len_concat(line, rest);
                assert((line + rest).take(line.len() as int) =~= line);
                assert((line + rest).skip(line.len() as int + 1) =~= after);
                assert(without_cr(line) =~= cur@);
                assert(string_views(out@.push(cur)) =~= string_views(out@) + seq![cur@]);
                assert(Seq::<char>::empty() + after =~= after);
            }
            out.push(cur);
            cur = String::new();
            held_cr = false;
        } else {
            if held_cr {
                push_char(&mut cur, '\r');
            }
            if c == '\r' {
                held_cr = true;
            } else {
                push_char(&mut cur, c);
                held_cr = false;
            }
            proof {
                assert(pending_line(cur@, held_cr) + after =~= line + rest);
            }
        }
    }
    let ghost line = pending_line(cur@, held_cr);
    if held_cr {
        push_char(&mut cur, '\r');
    }
    proof {
        assert(cur@ == line);
        assert(s@.skip(s@.len() as int) =~= Seq::<char>::empty());
        assert(line + Seq::<char>::empty() =~= line);
        lemma_first_line_len_concat(line, Seq::<char>::empty());
        assert(string_views(out@) + Seq::<Seq<char>>::empty() =~= string_views(out@));
    }
    if !cur.as_str().is_empty() {
        proof {
            assert(string_views(out@.push(cur)) =~= string_views(out@) + seq![cur@]);
        }
        out.push(cur);
    }
    out
}

} // verus!
