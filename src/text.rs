//! Character-level building blocks for the SQL text: identifier quoting,
//! list joining and decimal rendering.

use vstd::prelude::*;

verus! {

/// `s` with every occurrence of `c` written twice.
pub open spec fn double_char(s: Seq<char>, c: char) -> Seq<char>
    decreases s.len(),
{
    if s.len() == 0 {
        Seq::empty()
    } else if s.last() == c {
        double_char(s.drop_last(), c) + seq![c, c]
    } else {
        double_char(s.drop_last(), c).push(s.last())
    }
}

/// `name` wrapped in the delimiter `q`, with each `q` inside it doubled.
pub open spec fn quote_with(q: char, name: Seq<char>) -> Seq<char> {
    seq![q] + double_char(name, q) + seq![q]
}

/// The names, each quoted with `q`, separated by `", "`.
pub open spec fn quoted_list(q: char, names: Seq<String>) -> Seq<char>
    decreases names.len(),
{
    if names.len() == 0 {
        Seq::empty()
    } else if names.len() == 1 {
        quote_with(q, names[0]@)
    } else {
        quoted_list(q, names.drop_last()) + ", "@ + quote_with(q, names.last()@)
    }
}

/// The names as they are, separated by `", "`.
pub open spec fn plain_list(names: Seq<String>) -> Seq<char>
    decreases names.len(),
{
    if names.len() == 0 {
        Seq::empty()
    } else if names.len() == 1 {
        names[0]@
    } else {
        plain_list(names.drop_last()) + ", "@ + names.last()@
    }
}

/// The decimal digit for `d`.
pub open spec fn digit_of(d: nat) -> char {
    if d == 0 {
        '0'
    } else if d == 1 {
        '1'
    } else if d == 2 {
        '2'
    } else if d == 3 {
        '3'
    } else if d == 4 {
        '4'
    } else if d == 5 {
        '5'
    } else if d == 6 {
        '6'
    } else if d == 7 {
        '7'
    } else if d == 8 {
        '8'
    } else {
        '9'
    }
}

/// `n` in decimal notation, without leading zeros.
pub open spec fn decimal(n: nat) -> Seq<char>
    decreases n,
{
    if n < 10 {
        seq![digit_of(n)]
    } else {
        decimal(n / 10).push(digit_of(n % 10))
    }
}

/// Relies on `String::push`: appends one character.
#[verifier::external_body]
pub(crate) fn push_char(s: &mut String, c: char)
    ensures
        final(s)@ == old(s)@.push(c),
{
    s.push(c)
}

fn digit_char(d: u64) -> (c: char)
    requires
        d < 10,
    ensures
        c == digit_of(d as nat),
{
    if d == 0 {
        '0'
    } else if d == 1 {
        '1'
    } else if d == 2 {
        '2'
    } else if d == 3 {
        '3'
    } else if d == 4 {
        '4'
    } else if d == 5 {
        '5'
    } else if d == 6 {
        '6'
    } else if d == 7 {
        '7'
    } else if d == 8 {
        '8'
    } else {
        '9'
    }
}

/// Renders `n` in decimal.
pub fn decimal_string(n: u64) -> (r: String)
    ensures
        r@ == decimal(n as nat),
    decreases n,
{
    if n < 10 {
        let mut s = String::new();
        push_char(&mut s, digit_char(n));
        proof {
            assert(s@ =~= seq![digit_of(n as nat)]);
        }
        s
    } else {
        let mut s = decimal_string(n / 10);
        push_char(&mut s, digit_char(n % 10));
        s
    }
}

/// Appends `name` to `out`, wrapped in `q` with each inner `q` doubled.
pub fn append_quoted(out: &mut String, q: char, name: &str)
    ensures
        final(out)@ == old(out)@ + quote_with(q, name@),
{
    let ghost start = out@;
    push_char(out, q);
    let n = name.unicode_len();
    let mut i: usize = 0;
    while i < n
        invariant
            n == name@.len(),
            i <= n,
            out@ == start + seq![q] + double_char(name@.subrange(0, i as int), q),
        decreases n - i,
    {
        let c = name.get_char(i);
        push_char(out, c);
        if c == q {
            push_char(out, c);
        }
        proof {
            let pre = name@.subrange(0, i as int);
            let next = name@.subrange(0, i + 1);
            assert(next.drop_last() =~= pre);
            assert(next.last() == c);
        }
        i = i + 1;
    }
    push_char(out, q);
    proof {
        assert(name@.subrange(0, n as int) =~= name@);
        assert(out@ =~= start + quote_with(q, name@));
    }
}

/// Appends the names, each quoted with `q`, separated by `", "`.
pub fn append_quoted_list(out: &mut String, q: char, names: &Vec<String>)
    ensures
        final(out)@ == old(out)@ + quoted_list(q, names@),
{
    let ghost start = out@;
    let mut i: usize = 0;
    while i < names.len()
        invariant
            i <= names@.len(),
            out@ == start + quoted_list(q, names@.subrange(0, i as int)),
        decreases names@.len() - i,
    {
        let ghost before = out@;
        if i > 0 {
            out.append(", ");
        }
        append_quoted(out, q, names[i].as_str());
        proof {
            let pre = names@.subrange(0, i as int);
            let next = names@.subrange(0, i + 1);
            assert(next.drop_last() =~= pre);
            if i == 0 {
                assert(out@ =~= start + quoted_list(q, next));
            } else {
                assert(out@ =~= start + quoted_list(q, next));
            }
        }
        i = i + 1;
    }
    proof {
        assert(names@.subrange(0, names@.len() as int) =~= names@);
    }
}

/// The names as they are, separated by `", "`.
pub fn join_plain(names: &Vec<String>) -> (r: String)
    ensures
        r@ == plain_list(names@),
{
    let mut out = String::new();
    let mut i: usize = 0;
    while i < names.len()
        invariant
            i <= names@.len(),
            out@ == plain_list(names@.subrange(0, i as int)),
        decreases names@.len() - i,
    {
        if i > 0 {
            out.append(", ");
        }
        out.append(names[i].as_str());
        proof {
            let next = names@.subrange(0, i + 1);
            assert(next.drop_last() =~= names@.subrange(0, i as int));
            assert(out@ =~= plain_list(next));
        }
        i = i + 1;
    }
    proof {
        assert(names@.subrange(0, names@.len() as int) =~= names@);
    }
    out
}

/// Whether two strings hold the same characters.
pub fn same_text(a: &str, b: &str) -> (r: bool)
    ensures
        r == (a@ == b@),
{
    let n = a.unicode_len();
    let m = b.unicode_len();
    if n != m {
        return false;
    }
    let mut i: usize = 0;
    while i < n
        invariant
            n == a@.len(),
            m == b@.len(),
            n == m,
            i <= n,
            a@.subrange(0, i as int) == b@.subrange(0, i as int),
        decreases n - i,
    {
        if a.get_char(i) != b.get_char(i) {
            return false;
        }
        proof {
            assert(a@.subrange(0, i + 1) =~= a@.subrange(0, i as int).push(a@[i as int]));
            assert(b@.subrange(0, i + 1) =~= b@.subrange(0, i as int).push(b@[i as int]));
        }
        i = i + 1;
    }
    proof {
        assert(a@ =~= a@.subrange(0, n as int));
        assert(b@ =~= b@.subrange(0, n as int));
    }
    true
}

} // verus!
