//! Character-level text building: JSON string escaping and decimal numbers.

use vstd::prelude::*;
use vstd::std_specs::iter::IteratorSpec;
use vstd::string::StringExecFns;

verus! {

/// `String::push`: appends the character `c` to the end of `s`.
#[verifier::external_body]
pub(crate) fn push_char(s: &mut String, c: char)
    ensures
        final(s)@ == old(s)@.push(c),
{
    s.push(c);
}

/// The characters of `s`, in order.
pub fn chars_of(s: &str) -> (v: Vec<char>)
    ensures
        v@ == s@,
{
    broadcast use vstd::string::group_string_axioms;

    let mut v: Vec<char> = Vec::new();
    for c in iter: s.chars()
        invariant
            v@ == iter.seq().take(iter.index() as int),
            iter.seq() == s@,
    {
        v.push(c);
    }
    assert(v@ =~= s@);
    v
}

/// The JSON string escape of one character: a backslash and a double quote get
/// a backslash before them, a line feed becomes `\n`, anything else stays.
pub open spec fn escape_char(c: char) -> Seq<char> {
    if c == '\\' {
        seq!['\\', '\\']
    } else if c == '"' {
        seq!['\\', '"']
    } else if c == '\n' {
        seq!['\\', 'n']
    } else {
        seq![c]
    }
}

/// The escape of a text, character by character.
pub open spec fn escape_label(s: Seq<char>) -> Seq<char>
    decreases s.len(),
{
    if s.len() == 0 {
        Seq::empty()
    } else {
        escape_label(s.drop_last()) + escape_char(s.last())
    }
}

/// Appends the escape of `label` to `out`, for use inside a JSON string.
pub fn push_escaped(out: &mut String, label: &str)
    ensures
        final(out)@ == old(out)@ + escape_label(label@),
{
    let chars = chars_of(label);
    let mut i: usize = 0;
    while i < chars.len()
        invariant
            i <= chars@.len(),
            chars@ == label@,
            out@ == old(out)@ + escape_label(label@.take(i as int)),
        decreases chars@.len() - i,
    {
        let c = chars[i];
        let ghost before = out@;
        if c == '\\' {
            push_char(out, '\\');
            push_char(out, '\\');
        } else if c == '"' {
            push_char(out, '\\');
            push_char(out, '"');
        } else if c == '\n' {
            push_char(out, '\\');
            push_char(out, 'n');
        } else {
            push_char(out, c);
        }
        assert(out@ =~= before + escape_char(c));
        assert(label@.take(i + 1).drop_last() =~= label@.take(i as int));
        i = i + 1;
    }
    assert(label@.take(chars@.len() as int) =~= label@);
}

/// Reads an escaped text back: a backslash takes the next character, `\n`
/// standing for a line feed.
pub open spec fn unescape_label(s: Seq<char>) -> Seq<char>
    decreases s.len(),
{
    if s.len() == 0 {
        Seq::empty()
    } else if s[0] == '\\' && s.len() >= 2 {
        seq![if s[1] == 'n' { '\n' } else { s[1] }] + unescape_label(s.skip(2))
    } else {
        seq![s[0]] + unescape_label(s.skip(1))
    }
}

proof fn lemma_escape_concat(a: Seq<char>, b: Seq<char>)
    ensures
        escape_label(a + b) == escape_label(a) + escape_label(b),
    decreases b.len(),
{
    if b.len() == 0 {
        assert(a + b =~= a);
        assert(escape_label(a) + escape_label(b) =~= escape_label(a));
    } else {
        lemma_escape_concat(a, b.drop_last());
        assert((a + b).drop_last() =~= a + b.drop_last());
        assert((a + b).last() == b.last());
        assert(escape_label(a + b) =~= escape_label(a) + escape_label(b));
    }
}

proof fn lemma_unescape_char(c: char, t: Seq<char>)
    ensures
        unescape_label(escape_char(c) + t) == seq![c] + unescape_label(t),
{
    let e = escape_char(c) + t;
    if c == '\\' || c == '"' || c == '\n' {
        assert(e.skip(2) =~= t);
    } else {
        assert(e.skip(1) =~= t);
    }
}

/// Escaping loses nothing: reading an escaped text back gives the text.
pub proof fn lemma_escape_round_trip(s: Seq<char>)
    ensures
        unescape_label(escape_label(s)) == s,
    decreases s.len(),
{
    if s.len() > 0 {
        let head = seq![s[0]];
        let rest = s.skip(1);
        assert(s =~= head + rest);
        lemma_escape_concat(head, rest);
        assert(head.drop_last() =~= Seq::<char>::empty());
        assert(escape_label(head.drop_last()) =~= Seq::<char>::empty());
        assert(head.last() == s[0]);
        assert(escape_label(head) =~= escape_char(s[0]));
        lemma_unescape_char(s[0], escape_label(rest));
        lemma_escape_round_trip(rest);
        assert(seq![s[0]] + rest =~= s);
    }
}

/// `s` with every occurrence of `pat` replaced by `rep`, the occurrences taken
/// from the left without overlapping. An empty pattern replaces nothing.
pub open spec fn replace_all(s: Seq<char>, pat: Seq<char>, rep: Seq<char>) -> Seq<char>
    decreases s.len(),
{
    if s.len() == 0 {
        s
    } else if pat.len() > 0 && pat.len() <= s.len() && s.take(pat.len() as int) == pat {
        rep + replace_all(s.skip(pat.len() as int), pat, rep)
    } else {
        seq![s[0]] + replace_all(s.skip(1), pat, rep)
    }
}

fn matches_at(s: &Vec<char>, i: usize, pat: &Vec<char>) -> (r: bool)
    requires
        i <= s@.len(),
    ensures
        r == (pat@.len() <= s@.len() - i && s@.subrange(i as int, i + pat@.len()) == pat@),
{
    let n: usize = s.len();
    if pat.len() > n - i {
        return false;
    }
    let mut k: usize = 0;
    while k < pat.len()
        invariant
            n == s@.len(),
            i <= s@.len(),
            pat@.len() <= s@.len() - i,
            k <= pat@.len(),
            forall|j: int| 0 <= j < k ==> s@[i + j] == pat@[j],
        decreases pat@.len() - k,
    {
        if s[i + k] != pat[k] {
            assert(s@.subrange(i as int, i + pat@.len())[k as int] != pat@[k as int]);
            return false;
        }
        k = k + 1;
    }
    assert(s@.subrange(i as int, i + pat@.len()) =~= pat@);
    true
}

/// Replaces every occurrence of `pat` in `s` by `rep`, from the left.
pub fn replace_all_str(s: &str, pat: &str, rep: &str) -> (r: String)
    requires
        pat@.len() > 0,
    ensures
        r@ == replace_all(s@, pat@, rep@),
{
    let sv = chars_of(s);
    let pv = chars_of(pat);
    let n = sv.len();
    let m = pv.len();
    let mut out = String::new();
    let mut i: usize = 0;
    assert(sv@.skip(0) =~= sv@);
    while i < n
        invariant
            n == sv@.len(),
            m == pv@.len(),
            m > 0,
            sv@ == s@,
            pv@ == pat@,
            i <= n,
            out@ + replace_all(sv@.skip(i as int), pv@, rep@) == replace_all(sv@, pv@, rep@),
        decreases n - i,
    {
        let ghost rest = sv@.skip(i as int);
        if matches_at(&sv, i, &pv) {
            assert(rest.take(m as int) =~= sv@.subrange(i as int, i + m));
            assert(rest.skip(m as int) =~= sv@.skip(i + m));
            out.append(rep);
            i = i + m;
        } else {
            if m <= n - i {
                assert(rest.take(m as int) =~= sv@.subrange(i as int, i + m));
            }
            assert(rest[0] == sv@[i as int]);
            assert(rest.skip(1) =~= sv@.skip(i + 1));
            push_char(&mut out, sv[i]);
            i = i + 1;
        }
    }
    assert(sv@.skip(n as int) =~= Seq::<char>::empty());
    assert(out@ + Seq::<char>::empty() =~= out@);
    out
}

/// The decimal digit character for `d`.
pub open spec fn digit_char(d: int) -> char {
    if d == 0 {
        '0'
    } else if d == 1 {
        '1'
    } else if d == 2 {
        '2'
    } else if d == 3 {
        '3'
    } else if d == 4 {
        '4'
    } else if d == 5 {
        '5'
    } else if d == 6 {
        '6'
    } else if d == 7 {
        '7'
    } else if d == 8 {
        '8'
    } else {
        '9'
    }
}

/// The decimal digits of `n`, most significant first, without leading zeros.
pub open spec fn decimal_digits(n: nat) -> Seq<char>
    decreases n,
{
    if n < 10 {
        seq![digit_char(n as int)]
    } else {
        decimal_digits(n / 10).push(digit_char((n % 10) as int))
    }
}

/// The decimal text of an integer, with a leading `-` when it is negative.
pub open spec fn decimal(n: int) -> Seq<char> {
    if n < 0 {
        seq!['-'] + decimal_digits((-n) as nat)
    } else {
        decimal_digits(n as nat)
    }
}

fn digit(d: u64) -> (c: char)
    requires
        d < 10,
    ensures
        c == digit_char(d as int),
{
    if d == 0 {
        '0'
    } else if d == 1 {
        '1'
    } else if d == 2 {
        '2'
    } else if d == 3 {
        '3'
    } else if d == 4 {
        '4'
    } else if d == 5 {
        '5'
    } else if d == 6 {
        '6'
    } else if d == 7 {
        '7'
    } else if d == 8 {
        '8'
    } else {
        '9'
    }
}

fn push_digits(out: &mut String, n: u64)
    ensures
        final(out)@ == old(out)@ + decimal_digits(n as nat),
    decreases n,
{
    if n >= 10 {
        push_digits(out, n / 10);
    }
    push_char(out, digit(n % 10));
    assert(final(out)@ =~= old(out)@ + decimal_digits(n as nat)) by {
        if n >= 10 {
            assert(decimal_digits(n as nat) == decimal_digits((n / 10) as nat).push(
                digit_char((n % 10) as int),
            ));
        }
    }
}

/// Appends the decimal text of `n` to `out`.
pub fn push_decimal(out: &mut String, n: i32)
    ensures
        final(out)@ == old(out)@ + decimal(n as int),
{
    if n < 0 {
        push_char(out, '-');
        let magnitude: u64 = (0 - (n as i64)) as u64;
        push_digits(out, magnitude);
        assert(out@ =~= old(out)@ + decimal(n as int));
    } else {
        push_digits(out, n as u64);
    }
}

/// The digit a character stands for, -1 for a character that is no digit.
pub open spec fn digit_value(c: char) -> int {
    if '0' <= c && c <= '9' { (c as int) - ('0' as int) } else { -1 }
}

/// The number a string of decimal digits stands for, most significant first.
pub open spec fn digits_value(s: Seq<char>) -> int
    decreases s.len(),
{
    if s.len() == 0 { 0 } else { digits_value(s.drop_last()) * 10 + digit_value(s.last()) }
}

proof fn lemma_digit_char_value(d: int)
    requires
        0 <= d <= 9,
    ensures
        digit_value(digit_char(d)) == d,
{
    assert('0' as int == 48 && '1' as int == 49 && '2' as int == 50 && '3' as int == 51 && '4' as int == 52
        && '5' as int == 53 && '6' as int == 54 && '7' as int == 55 && '8' as int == 56 && '9' as int == 57);
}

/// The decimal text of `n` reads back as `n`: only digits, none of them leading
/// zeros, standing for `n`.
pub proof fn lemma_decimal_digits_read_back(n: nat)
    ensures
        digits_value(decimal_digits(n)) == n,
        decimal_digits(n).len() >= 1,
        forall|i: int| 0 <= i < decimal_digits(n).len() ==> 0 <= #[trigger] digit_value(decimal_digits(n)[i]) <= 9,
        n > 0 ==> decimal_digits(n)[0] != '0',
    decreases n,
{
    if n < 10 {
        lemma_digit_char_value(n as int);
        let d = decimal_digits(n);
        assert(d.drop_last() =~= Seq::<char>::empty());
        assert(digits_value(d.drop_last()) == 0);
    } else {
        lemma_digit_char_value((n % 10) as int);
        lemma_decimal_digits_read_back(n / 10);
        let d = decimal_digits(n);
        assert(d.drop_last() =~= decimal_digits(n / 10));
        assert(d[0] == decimal_digits(n / 10)[0]);
        assert forall|i: int| 0 <= i < d.len() implies 0 <= #[trigger] digit_value(d[i]) <= 9 by {
            if i < d.len() - 1 {
                assert(d[i] == decimal_digits(n / 10)[i]);
            }
        }
    }
}

/// The decimal text of an integer is `-` followed by the digits of its
/// magnitude for a negative number and the digits alone otherwise.
pub proof fn lemma_decimal_sign(n: int)
    ensures
        n < 0 ==> decimal(n).len() >= 2 && decimal(n)[0] == '-' && digits_value(decimal(n).skip(1)) == -n,
        n >= 0 ==> decimal(n).len() >= 1 && digit_value(decimal(n)[0]) >= 0 && digits_value(decimal(n)) == n,
{
    if n < 0 {
        lemma_decimal_digits_read_back((-n) as nat);
        assert(decimal(n).skip(1) =~= decimal_digits((-n) as nat));
    } else {
        lemma_decimal_digits_read_back(n as nat);
        assert(0 <= digit_value(decimal_digits(n as nat)[0]) <= 9);
    }
}

/// Replacing a pattern by itself changes nothing.
pub proof fn lemma_replace_by_itself(s: Seq<char>, pat: Seq<char>)
    ensures
        replace_all(s, pat, pat) == s,
    decreases s.len(),
{
    if s.len() > 0 {
        if pat.len() > 0 && pat.len() <= s.len() && s.take(pat.len() as int) == pat {
            lemma_replace_by_itself(s.skip(pat.len() as int), pat);
            assert(s.take(pat.len() as int) + s.skip(pat.len() as int) =~= s);
        } else {
            lemma_replace_by_itself(s.skip(1), pat);
            assert(seq![s[0]] + s.skip(1) =~= s);
        }
    }
}

/// Replacing a pattern that never occurs changes nothing.
pub proof fn lemma_replace_absent(s: Seq<char>, pat: Seq<char>, rep: Seq<char>)
    requires
        forall|i: int| 0 <= i && i + pat.len() <= s.len() ==> #[trigger] s.subrange(i, i + pat.len()) != pat,
        pat.len() > 0,
    ensures
        replace_all(s, pat, rep) == s,
    decreases s.len(),
{
    if s.len() > 0 {
        if pat.len() <= s.len() {
            assert(s.take(pat.len() as int) =~= s.subrange(0, pat.len() as int));
            assert(s.subrange(0int, 0int + pat.len()) != pat);
        }
        let t = s.skip(1);
        assert forall|i: int| 0 <= i && i + pat.len() <= t.len() implies #[trigger] t.subrange(i, i + pat.len()) != pat by {
            assert(t.subrange(i, i + pat.len()) =~= s.subrange(i + 1, i + 1 + pat.len()));
        }
        lemma_replace_absent(t, pat, rep);
        assert(seq![s[0]] + t =~= s);
    }
}

/// An escaped text holds no line feed and no double quote without a backslash
/// before it, so it can stand inside a JSON string.
pub proof fn lemma_escape_is_json_safe(s: Seq<char>)
    ensures
        forall|i: int| 0 <= i < escape_label(s).len() ==> #[trigger] escape_label(s)[i] != '\n',
        forall|i: int| 0 <= i < escape_label(s).len() && #[trigger] escape_label(s)[i] == '"' ==> i > 0 && escape_label(s)[i - 1] == '\\',
    decreases s.len(),
{
    if s.len() > 0 {
        lemma_escape_is_json_safe(s.drop_last());
        let a = escape_label(s.drop_last());
        let b = escape_char(s.last());
        assert(escape_label(s) == a + b);
        assert forall|i: int| 0 <= i < (a + b).len() implies #[trigger] (a + b)[i] != '\n' by {
            if i >= a.len() {
                assert((a + b)[i] == b[i - a.len()]);
            } else {
                assert((a + b)[i] == a[i]);
            }
        }
        assert forall|i: int| 0 <= i < (a + b).len() && #[trigger] (a + b)[i] == '"' implies i > 0 && (a + b)[i - 1] == '\\' by {
            if i >= a.len() {
                assert((a + b)[i] == b[i - a.len()]);
                assert(i - a.len() == 1);
                assert((a + b)[i - 1] == b[0]);
            } else {
                assert((a + b)[i] == a[i]);
                assert((a + b)[i - 1] == a[i - 1]);
            }
        }
    }
}

} // verus!
