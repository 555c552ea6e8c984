//! Character-level helpers on strings: token search, comment markers,
//! trimming and decimal port lists.
use vstd::prelude::*;
use vstd::string::*;

verus! {

/// The decimal digit `d` as a character.
pub open spec fn digit_char(d: int) -> char {
    seq!['0', '1', '2', '3', '4', '5', '6', '7', '8', '9'][d]
}

/// The decimal representation of `n`, without leading zeros.
pub open spec fn decimal(n: nat) -> Seq<char>
    decreases n,
{
    if n < 10 {
        seq![digit_char(n as int)]
    } else {
        decimal(n / 10).push(digit_char((n % 10) as int))
    }
}

/// The ports in decimal, in order, with `sep` between neighbours.
pub open spec fn joined(ports: Seq<u16>, sep: Seq<char>) -> Seq<char>
    decreases ports.len(),
{
    if ports.len() == 0 {
        Seq::empty()
    } else if ports.len() == 1 {
        decimal(ports[0] as nat)
    } else {
        joined(ports.drop_last(), sep) + sep + decimal(ports.last() as nat)
    }
}

/// `t` occurs in `s` as a contiguous run of characters.
pub open spec fn has_token(s: Seq<char>, t: Seq<char>) -> bool {
    exists|i: int| 0 <= i <= s.len() - t.len() && #[trigger] s.subrange(i, i + t.len()) == t
}

/// A line that opens with the comment marker `#`.
pub open spec fn is_comment(line: Seq<char>) -> bool {
    line.len() > 0 && line[0] == '#'
}

/// `line` with every `#` removed.
pub open spec fn strip_marks(line: Seq<char>) -> Seq<char>
    decreases line.len(),
{
    if line.len() == 0 {
        Seq::empty()
    } else if line.last() == '#' {
        strip_marks(line.drop_last())
    } else {
        strip_marks(line.drop_last()).push(line.last())
    }
}

/// A character of the Unicode property White_Space.
pub open spec fn is_white(c: char) -> bool {
    let u = c as u32;
    (9 <= u <= 13) || u == 0x20 || u == 0x85 || u == 0xa0 || u == 0x1680 || (0x2000 <= u
        <= 0x200a) || u == 0x2028 || u == 0x2029 || u == 0x202f || u == 0x205f || u == 0x3000
}

/// `s` without its leading white space.
pub open spec fn trim_start(s: Seq<char>) -> Seq<char>
    decreases s.len(),
{
    if s.len() > 0 && is_white(s[0]) {
        trim_start(s.drop_first())
    } else {
        s
    }
}

/// `s` without its trailing white space.
pub open spec fn trim_end(s: Seq<char>) -> Seq<char>
    decreases s.len(),
{
    if s.len() > 0 && is_white(s.last()) {
        trim_end(s.drop_last())
    } else {
        s
    }
}

/// `s` without its leading and trailing white space.
pub open spec fn trimmed(s: Seq<char>) -> Seq<char> {
    trim_end(trim_start(s))
}

/// Relies on `str::trim`: `s` with leading and trailing White_Space removed.
#[verifier::external_body]
pub(crate) fn trim_text(s: &str) -> (r: String)
    ensures
        r@ == trimmed(s@),
{
    s.trim().to_string()
}

/// The characters of `s`, one by one.
pub fn chars_of(s: &str) -> (r: Vec<char>)
    ensures
        r@ == s@,
{
    let n = s.unicode_len();
    let mut r: Vec<char> = Vec::new();
    let mut i: usize = 0;
    while i < n
        invariant
            n == s@.len(),
            i <= n,
            r@ == s@.take(i as int),
        decreases n - i,
    {
        let c = s.get_char(i);
        r.push(c);
        i = i + 1;
        assert(r@ =~= s@.take(i as int));
    }
    assert(r@ =~= s@);
    r
}

fn matches_at(s: &Vec<char>, t: &Vec<char>, i: usize) -> (r: bool)
    requires
        i + t@.len() <= s@.len(),
    ensures
        r == (s@.subrange(i as int, i + t@.len()) == t@),
{
    let sl = s.len();
    let mut j: usize = 0;
    while j < t.len()
        invariant
            sl == s@.len(),
            i + t@.len() <= s@.len(),
            j <= t@.len(),
            s@.subrange(i as int, i + j) =~= t@.take(j as int),
        decreases t@.len() - j,
    {
        if s[i + j] != t[j] {
            assert(s@.subrange(i as int, i + t@.len())[j as int] != t@[j as int]);
            return false;
        }
        j = j + 1;
        assert(s@.subrange(i as int, i + j) =~= t@.take(j as int));
    }
    assert(s@.subrange(i as int, i + t@.len()) =~= t@);
    true
}

/// Whether `token` occurs in `s`.
pub fn contains_token(s: &str, token: &str) -> (r: bool)
    ensures
        r == has_token(s@, token@),
{
    let sc = chars_of(s);
    let tc = chars_of(token);
    if tc.len() > sc.len() {
        return false;
    }
    let last = sc.len() - tc.len();
    let mut i: usize = 0;
    loop
        invariant
            sc@ == s@,
            tc@ == token@,
            last == sc@.len() - tc@.len(),
            i <= last,
            forall|k: int| 0 <= k < i ==> #[trigger] s@.subrange(k, k + token@.len()) != token@,
        decreases last - i,
    {
        if matches_at(&sc, &tc, i) {
            return true;
        }
        if i == last {
            return false;
        }
        i = i + 1;
    }
}

/// Whether `line` opens with `#`.
pub fn starts_with_mark(line: &str) -> (r: bool)
    ensures
        r == is_comment(line@),
{
    line.unicode_len() > 0 && line.get_char(0) == '#'
}

/// `line` with every `#` removed.
pub fn remove_marks(line: &str) -> (r: String)
    ensures
        r@ == strip_marks(line@),
{
    let n = line.unicode_len();
    let mut r = String::new();
    let mut j: usize = 0;
    while j < n
        invariant
            n == line@.len(),
            j <= n,
            r@ == strip_marks(line@.take(j as int)),
        decreases n - j,
    {
        let c = line.get_char(j);
        assert(line@.take(j + 1).drop_last() =~= line@.take(j as int));
        if c != '#' {
            let piece = line.substring_char(j, j + 1);
            r.append(piece);
            assert(piece@ =~= seq![c]);
        }
        j = j + 1;
        assert(r@ =~= strip_marks(line@.take(j as int)));
    }
    assert(line@.take(n as int) =~= line@);
    r
}

fn digit_text(d: u16) -> (r: &'static str)
    requires
        d < 10,
    ensures
        r@ == seq![digit_char(d as int)],
{
    if d == 0 {
        proof { reveal_strlit("0"); }
        "0"
    } else if d == 1 {
        proof { reveal_strlit("1"); }
        "1"
    } else if d == 2 {
        proof { reveal_strlit("2"); }
        "2"
    } else if d == 3 {
        proof { reveal_strlit("3"); }
        "3"
    } else if d == 4 {
        proof { reveal_strlit("4"); }
        "4"
    } else if d == 5 {
        proof { reveal_strlit("5"); }
        "5"
    } else if d == 6 {
        proof { reveal_strlit("6"); }
        "6"
    } else if d == 7 {
        proof { reveal_strlit("7"); }
        "7"
    } else if d == 8 {
        proof { reveal_strlit("8"); }
        "8"
    } else {
        proof { reveal_strlit("9"); }
        "9"
    }
}

/// Appends the decimal form of `n` to `out`.
pub fn push_decimal(out: &mut String, n: u16)
    ensures
        final(out)@ == old(out)@ + decimal(n as nat),
    decreases n,
{
    if n >= 10 {
        push_decimal(out, n / 10);
    }
    let d = digit_text(n % 10);
    out.append(d);
    assert(out@ =~= old(out)@ + decimal(n as nat));
}

/// The ports in decimal, in order, with `sep` between neighbours.
pub fn join_ports(ports: &Vec<u16>, sep: &str) -> (r: String)
    ensures
        r@ == joined(ports@, sep@),
{
    let mut r = String::new();
    let mut i: usize = 0;
    while i < ports.len()
        invariant
            i <= ports@.len(),
            r@ == joined(ports@.take(i as int), sep@),
        decreases ports@.len() - i,
    {
        assert(ports@.take(i + 1).drop_last() =~= ports@.take(i as int));
        if i > 0 {
            r.append(sep);
        }
        push_decimal(&mut r, ports[i]);
        i = i + 1;
        assert(r@ =~= joined(ports@.take(i as int), sep@));
    }
    assert(ports@.take(ports@.len() as int) =~= ports@);
    r
}

} // verus!
