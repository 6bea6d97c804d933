//! Plain text helpers: whitespace trimming, recognition of the exit command,
//! and the cleanup that turns a fixed-precision rendering into the display
//! string.

use vstd::prelude::*;
use vstd::string::StrSliceExecFns;

verus! {

/// The whitespace characters that surround-trimming removes: the Unicode
/// white-space set, as std's trimming uses.
pub open spec fn is_space_char(c: char) -> bool {
    ||| c == '\t'
    ||| c == '\n'
    ||| c == '\u{B}'
    ||| c == '\u{C}'
    ||| c == '\r'
    ||| c == ' '
    ||| c == '\u{85}'
    ||| c == '\u{A0}'
    ||| c == '\u{1680}'
    ||| c == '\u{2000}'
    ||| c == '\u{2001}'
    ||| c == '\u{2002}'
    ||| c == '\u{2003}'
    ||| c == '\u{2004}'
    ||| c == '\u{2005}'
    ||| c == '\u{2006}'
    ||| c == '\u{2007}'
    ||| c == '\u{2008}'
    ||| c == '\u{2009}'
    ||| c == '\u{200A}'
    ||| c == '\u{2028}'
    ||| c == '\u{2029}'
    ||| c == '\u{202F}'
    ||| c == '\u{205F}'
    ||| c == '\u{3000}'
}

/// `s` without its leading whitespace.
pub open spec fn trim_front(s: Seq<char>) -> Seq<char>
    decreases s.len(),
{
    if s.len() == 0 {
        s
    } else if is_space_char(s[0]) {
        trim_front(s.drop_first())
    } else {
        s
    }
}

/// `s` without its trailing whitespace.
pub open spec fn trim_back(s: Seq<char>) -> Seq<char>
    decreases s.len(),
{
    if s.len() == 0 {
        s
    } else if is_space_char(s.last()) {
        trim_back(s.drop_last())
    } else {
        s
    }
}

/// `s` without its surrounding whitespace.
pub open spec fn trimmed(s: Seq<char>) -> Seq<char> {
    trim_back(trim_front(s))
}

fn is_space(c: char) -> (b: bool)
    ensures
        b == is_space_char(c),
{
    match c {
        '\t' | '\n' | '\u{B}' | '\u{C}' | '\r' | ' ' | '\u{85}' | '\u{A0}' | '\u{1680}'
            | '\u{2000}' | '\u{2001}' | '\u{2002}' | '\u{2003}' | '\u{2004}' | '\u{2005}'
            | '\u{2006}' | '\u{2007}' | '\u{2008}' | '\u{2009}' | '\u{200A}' | '\u{2028}'
            | '\u{2029}' | '\u{202F}' | '\u{205F}' | '\u{3000}' => true,
        _ => false,
    }
}

proof fn lemma_trim_front_at(s: Seq<char>, i: int)
    requires
        0 <= i <= s.len(),
        forall|k: int| 0 <= k < i ==> is_space_char(s[k]),
        i < s.len() ==> !is_space_char(s[i]),
    ensures
        trim_front(s) == s.subrange(i, s.len() as int),
    decreases i,
{
    if i == 0 {
        assert(trim_front(s) =~= s.subrange(0, s.len() as int));
    } else {
        let t = s.drop_first();
        lemma_trim_front_at(t, i - 1);
        assert(t.subrange(i - 1, t.len() as int) =~= s.subrange(i, s.len() as int));
    }
}

proof fn lemma_trim_back_at(s: Seq<char>, j: int)
    requires
        0 <= j <= s.len(),
        forall|k: int| j <= k < s.len() ==> is_space_char(s[k]),
        j > 0 ==> !is_space_char(s[j - 1]),
    ensures
        trim_back(s) == s.subrange(0, j),
    decreases s.len() - j,
{
    if j == s.len() {
        assert(trim_back(s) =~= s.subrange(0, j));
    } else {
        let t = s.drop_last();
        assert(is_space_char(s.last()));
        lemma_trim_back_at(t, j);
        assert(t.subrange(0, j) =~= s.subrange(0, j));
    }
}

/// Remove the whitespace around `s`, as committed history entries and the
/// exit check require.
pub fn trim_spaces(s: &str) -> (r: String)
    ensures
        r@ == trimmed(s@),
{
    let n = s.unicode_len();
    let mut i: usize = 0;
    while i < n && is_space(s.get_char(i))
        invariant
            n == s@.len(),
            i <= n,
            forall|k: int| 0 <= k < i ==> is_space_char(s@[k]),
        decreases n - i,
    {
        i = i + 1;
    }
    if i == n {
        proof {
            lemma_trim_front_at(s@, n as int);
            assert(trim_front(s@) =~= Seq::<char>::empty());
            assert(trimmed(s@) =~= Seq::<char>::empty());
        }
        return String::new();
    }
    let mut j: usize = n;
    while j > i + 1 && is_space(s.get_char(j - 1))
        invariant
            n == s@.len(),
            i < n,
            !is_space_char(s@[i as int]),
            i + 1 <= j <= n,
            forall|k: int| j <= k < n ==> is_space_char(s@[k]),
        decreases j,
    {
        j = j - 1;
    }
    let r = s.substring_char(i, j);
    proof {
        lemma_trim_front_at(s@, i as int);
        let y = s@.subrange(i as int, n as int);
        lemma_trim_back_at(y, j - i);
        assert(y.subrange(0, j - i) =~= s@.subrange(i as int, j as int));
    }
    r.to_owned()
}

proof fn lemma_trim_front_head(s: Seq<char>)
    ensures
        trim_front(s).len() > 0 ==> !is_space_char(trim_front(s)[0]),
        trim_front(s).len() <= s.len(),
    decreases s.len(),
{
    if s.len() > 0 && is_space_char(s[0]) {
        lemma_trim_front_head(s.drop_first());
    }
}

proof fn lemma_trim_back_prefix(s: Seq<char>)
    ensures
        trim_back(s).len() <= s.len(),
        trim_back(s) == s.subrange(0, trim_back(s).len() as int),
        trim_back(s).len() > 0 ==> !is_space_char(trim_back(s).last()),
    decreases s.len(),
{
    if s.len() > 0 && is_space_char(s.last()) {
        let t = s.drop_last();
        lemma_trim_back_prefix(t);
        assert(t.subrange(0, trim_back(s).len() as int) =~= s.subrange(
            0,
            trim_back(s).len() as int,
        ));
    } else if s.len() > 0 {
        assert(s.subrange(0, s.len() as int) =~= s);
    } else {
        assert(s.subrange(0, 0) =~= s);
    }
}

/// Trimming is idempotent: what has no surrounding whitespace left keeps
/// every character under a second trim.
pub proof fn lemma_trimmed_idempotent(s: Seq<char>)
    ensures
        trimmed(trimmed(s)) == trimmed(s),
{
    let y = trim_front(s);
    let z = trim_back(y);
    lemma_trim_front_head(s);
    lemma_trim_back_prefix(y);
    if z.len() > 0 {
        assert(z[0] == y.subrange(0, z.len() as int)[0]);
        assert(z[0] == y[0]);
    }
    assert(trim_front(z) == z);
    assert(trim_back(z) == z);
}

/// Does `s`, already trimmed, spell the exit command in any letter case?
pub open spec fn is_exit_seq(s: Seq<char>) -> bool {
    &&& s.len() == 4
    &&& (s[0] == 'e' || s[0] == 'E')
    &&& (s[1] == 'x' || s[1] == 'X')
    &&& (s[2] == 'i' || s[2] == 'I')
    &&& (s[3] == 't' || s[3] == 'T')
}

/// Does `s` trim to the exit command?
pub open spec fn is_exit_command(s: Seq<char>) -> bool {
    is_exit_seq(trimmed(s))
}

/// Case-insensitive check for the exit command on already-trimmed text.
pub fn is_exit_trimmed(t: &str) -> (b: bool)
    ensures
        b == is_exit_seq(t@),
{
    if t.unicode_len() != 4 {
        return false;
    }
    let c0 = t.get_char(0);
    let c1 = t.get_char(1);
    let c2 = t.get_char(2);
    let c3 = t.get_char(3);
    (c0 == 'e' || c0 == 'E') && (c1 == 'x' || c1 == 'X') && (c2 == 'i' || c2 == 'I') && (c3 == 't'
        || c3 == 'T')
}

/// `s` without its trailing zero digits.
pub open spec fn strip_zeros(s: Seq<char>) -> Seq<char>
    decreases s.len(),
{
    if s.len() > 0 && s.last() == '0' {
        strip_zeros(s.drop_last())
    } else {
        s
    }
}

/// `s` without one trailing decimal point, left dangling once the zero
/// digits after it are gone.
pub open spec fn strip_dot(s: Seq<char>) -> Seq<char> {
    if s.len() > 0 && s.last() == '.' {
        s.drop_last()
    } else {
        s
    }
}

/// The display form of a fixed-precision rendering: trailing fractional
/// zeros go first, then a dangling decimal point.
pub open spec fn cleaned_display(s: Seq<char>) -> Seq<char> {
    strip_dot(strip_zeros(s))
}

proof fn lemma_strip_zeros_at(s: Seq<char>, j: int)
    requires
        0 <= j <= s.len(),
        forall|k: int| j <= k < s.len() ==> s[k] == '0',
        j > 0 ==> s[j - 1] != '0',
    ensures
        strip_zeros(s) == s.subrange(0, j),
    decreases s.len() - j,
{
    if j == s.len() {
        assert(strip_zeros(s) =~= s.subrange(0, j));
    } else {
        let t = s.drop_last();
        assert(s.last() == '0');
        lemma_strip_zeros_at(t, j);
        assert(t.subrange(0, j) =~= s.subrange(0, j));
    }
}

/// Clean a fixed-precision rendering for display: drop the trailing zero
/// digits, then a decimal point left dangling.
pub fn clean_display(s: &str) -> (r: String)
    ensures
        r@ == cleaned_display(s@),
{
    let n = s.unicode_len();
    let mut j: usize = n;
    while j > 0 && s.get_char(j - 1) == '0'
        invariant
            n == s@.len(),
            j <= n,
            forall|k: int| j <= k < n ==> s@[k] == '0',
        decreases j,
    {
        j = j - 1;
    }
    proof {
        lemma_strip_zeros_at(s@, j as int);
    }
    if j > 0 && s.get_char(j - 1) == '.' {
        let r = s.substring_char(0, j - 1);
        proof {
            assert(strip_zeros(s@).last() == '.');
            assert(strip_zeros(s@).drop_last() =~= s@.subrange(0, j - 1));
        }
        r.to_owned()
    } else {
        let r = s.substring_char(0, j);
        r.to_owned()
    }
}

} // verus!
