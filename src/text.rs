use vstd::prelude::*;
use vstd::string::*;

verus! {

/// `n` copies of the character `c`.
pub open spec fn run(c: char, n: nat) -> Seq<char> {
    Seq::new(n, |_i: int| c)
}

/// The decimal digit for `d < 10`.
pub open spec fn digit(d: nat) -> char {
    seq!['0', '1', '2', '3', '4', '5', '6', '7', '8', '9'][d as int]
}

/// Decimal notation of `n`, without sign or leading zeros.
pub open spec fn decimal_of(n: nat) -> Seq<char>
    decreases n,
{
    if n < 10 {
        seq![digit(n)]
    } else {
        decimal_of(n / 10).push(digit(n % 10))
    }
}

/// The text of `s` cut at every line feed; the line feeds themselves are dropped,
/// and text after the last one forms a final (possibly empty) line.
pub open spec fn lines(s: Seq<char>) -> Seq<Seq<char>>
    decreases s.len(),
{
    if s.len() == 0 {
        seq![Seq::<char>::empty()]
    } else {
        let prev = lines(s.drop_last());
        if s.last() == '\n' {
            prev.push(Seq::<char>::empty())
        } else {
            prev.update(prev.len() - 1, prev.last().push(s.last()))
        }
    }
}

pub proof fn lemma_lines_nonempty(s: Seq<char>)
    ensures
        lines(s).len() >= 1,
    decreases s.len(),
{
    if s.len() > 0 {
        lemma_lines_nonempty(s.drop_last());
    }
}

/// Relies on String::push: the character is added at the end.
#[verifier::external_body]
pub(crate) fn push_char(s: &mut String, c: char)
    ensures
        final(s)@ == old(s)@.push(c),
{
    s.push(c)
}

/// Adds `n` copies of `c` to the end of `out`.
pub fn push_run(out: &mut String, c: char, n: usize)
    ensures
        final(out)@ == old(out)@ + run(c, n as nat),
{
    let mut i: usize = 0;
    while i < n
        invariant
            i <= n,
            out@ == old(out)@ + run(c, i as nat),
        decreases n - i,
    {
        push_char(out, c);
        i = i + 1;
        assert(run(c, i as nat) =~= run(c, (i - 1) as nat).push(c));
    }
}

fn digit_char(d: usize) -> (c: char)
    requires
        d < 10,
    ensures
        c == digit(d as nat),
{
    if d == 0 {
        '0'
    } else if d == 1 {
        '1'
    } else if d == 2 {
        '2'
    } else if d == 3 {
        '3'
    } else if d == 4 {
        '4'
    } else if d == 5 {
        '5'
    } else if d == 6 {
        '6'
    } else if d == 7 {
        '7'
    } else if d == 8 {
        '8'
    } else {
        '9'
    }
}

/// Decimal notation of `n`.
pub fn decimal(n: usize) -> (r: String)
    ensures
        r@ == decimal_of(n as nat),
    decreases n,
{
    if n < 10 {
        let mut s = String::new();
        push_char(&mut s, digit_char(n));
        assert(s@ =~= seq![digit(n as nat)]);
        s
    } else {
        let mut s = decimal(n / 10);
        push_char(&mut s, digit_char(n % 10));
        s
    }
}

/// Whether two strings hold the same characters.
pub fn same_text(a: &str, b: &str) -> (r: bool)
    ensures
        r == (a@ == b@),
{
    let n = a.unicode_len();
    if n != b.unicode_len() {
        return false;
    }
    let mut i: usize = 0;
    while i < n
        invariant
            n == a@.len(),
            n == b@.len(),
            i <= n,
            forall|j: int| 0 <= j < i ==> a@[j] == b@[j],
        decreases n - i,
    {
        if a.get_char(i) != b.get_char(i) {
            return false;
        }
        i = i + 1;
    }
    assert(a@ =~= b@);
    true
}

/// Whether `c` has the Unicode White_Space property.
pub uninterp spec fn white_space(c: char) -> bool;

/// The white space characters that ASCII has.
pub open spec fn ascii_blank(c: char) -> bool {
    c == ' ' || c == '\t' || c == '\n' || c == '\r' || c == '\x0b' || c == '\x0c'
}

/// Number of white space characters at the start of `s`.
pub open spec fn lead_blank(s: Seq<char>) -> nat
    decreases s.len(),
{
    if s.len() > 0 && white_space(s[0]) {
        1 + lead_blank(s.drop_first())
    } else {
        0
    }
}

/// Number of white space characters at the end of `s`.
pub open spec fn trail_blank(s: Seq<char>) -> nat
    decreases s.len(),
{
    if s.len() > 0 && white_space(s.last()) {
        1 + trail_blank(s.drop_last())
    } else {
        0
    }
}

/// `s` without its leading and trailing white space.
pub open spec fn trimmed(s: Seq<char>) -> Seq<char> {
    if lead_blank(s) >= s.len() {
        Seq::<char>::empty()
    } else {
        s.subrange(lead_blank(s) as int, s.len() - trail_blank(s))
    }
}

/// Relies on str::trim, which drops the leading and trailing characters that
/// have the Unicode White_Space property; the ASCII blanks are among them.
#[verifier::external_body]
pub(crate) fn trim(s: &str) -> (r: String)
    ensures
        r@ == trimmed(s@),
        r@.len() > 0 ==> !white_space(r@[0]) && !white_space(r@.last()),
        (forall|i: int| 0 <= i < s@.len() ==> ascii_blank(#[trigger] s@[i])) ==> r@.len() == 0,
{
    s.trim().to_string()
}

/// The ending of a stored list's file name.
pub open spec fn json_ext() -> Seq<char> {
    seq!['.', 'j', 's', 'o', 'n']
}

/// `s` with every `.json` in it taken out, scanning from the start.
pub open spec fn without_json(s: Seq<char>) -> Seq<char>
    decreases s.len(),
{
    if s.len() == 0 {
        Seq::<char>::empty()
    } else if s.len() >= 5 && s.take(5) == json_ext() {
        without_json(s.skip(5))
    } else {
        seq![s[0]] + without_json(s.skip(1))
    }
}

/// Takes every `.json` out of `s`.
pub fn remove_json(s: &str) -> (r: String)
    ensures
        r@ == without_json(s@),
{
    let n = s.unicode_len();
    let mut out = String::new();
    let mut i: usize = 0;
    assert(s@.skip(0) =~= s@);
    while i < n
        invariant
            n == s@.len(),
            i <= n,
            out@ + without_json(s@.skip(i as int)) == without_json(s@),
        decreases n - i,
    {
        let ghost rest = s@.skip(i as int);
        if n - i >= 5 && s.get_char(i) == '.' && s.get_char(i + 1) == 'j' && s.get_char(i + 2)
            == 's' && s.get_char(i + 3) == 'o' && s.get_char(i + 4) == 'n' {
            proof {
                assert(rest.take(5) =~= json_ext());
                assert(rest.skip(5) =~= s@.skip(i + 5));
            }
            i = i + 5;
        } else {
            let c = s.get_char(i);
            proof {
                if rest.len() >= 5 && rest.take(5) == json_ext() {
                    assert(rest.take(5)[0] == s@[i as int]);
                    assert(rest.take(5)[1] == s@[i + 1]);
                    assert(rest.take(5)[2] == s@[i + 2]);
                    assert(rest.take(5)[3] == s@[i + 3]);
                    assert(rest.take(5)[4] == s@[i + 4]);
                    assert(false);
                }
                assert(rest.skip(1) =~= s@.skip(i + 1));
                assert(rest[0] == c);
                assert(out@.push(c) + without_json(s@.skip(i + 1)) =~= out@ + (seq![c]
                    + without_json(s@.skip(i + 1))));
            }
            push_char(&mut out, c);
            i = i + 1;
        }
    }
    assert(s@.skip(n as int) =~= Seq::<char>::empty());
    assert(out@ + Seq::<char>::empty() =~= out@);
    out
}

} // verus!
