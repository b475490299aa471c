//! Character classification and small string utilities: whitespace trimming,
//! splitting on a separator character, suffix tests, and the two Unicode case
//! operations that the grammar rules need.

use vstd::prelude::*;

verus! {

/// Does `c` have the Unicode `White_Space` property?  This is the set of
/// characters that `str::trim` removes; it is small and fixed, so it is
/// written out here in full.
pub open spec fn is_space_char(c: char) -> bool {
    ||| c == ' '
    ||| c == '\t'
    ||| c == '\n'
    ||| c == '\u{B}'
    ||| c == '\u{C}'
    ||| c == '\r'
    ||| c == '\u{85}'
    ||| c == '\u{A0}'
    ||| c == '\u{1680}'
    ||| (0x2000 <= c as u32 && c as u32 <= 0x200A)
    ||| c == '\u{2028}'
    ||| c == '\u{2029}'
    ||| c == '\u{202F}'
    ||| c == '\u{205F}'
    ||| c == '\u{3000}'
}

/// Executable test for [`is_space_char`].
#[verifier::when_used_as_spec(is_space_char)]
pub fn is_space(c: char) -> (r: bool)
    ensures
        r == is_space_char(c),
{
    match c {
        ' ' | '\t' | '\n' | '\u{B}' | '\u{C}' | '\r' | '\u{85}' | '\u{A0}' | '\u{1680}'
            | '\u{2028}' | '\u{2029}' | '\u{202F}' | '\u{205F}' | '\u{3000}' => true,
        _ => {
            let u = c as u32;
            0x2000 <= u && u <= 0x200A
        },
    }
}

/// The characters written with a vowel letter, for the orthographic
/// `a`/`an` choice; `y` is deliberately not included.
pub open spec fn is_vowel_char(c: char) -> bool {
    ||| c == 'a'
    ||| c == 'e'
    ||| c == 'i'
    ||| c == 'o'
    ||| c == 'u'
    ||| c == 'A'
    ||| c == 'E'
    ||| c == 'I'
    ||| c == 'O'
    ||| c == 'U'
}

/// The sequence of characters that uppercasing one character yields
/// (it can be more than one, as for the German sharp s).
pub uninterp spec fn uppercase_chars_of(c: char) -> Seq<char>;

/// Relies on `char::to_uppercase`: the Unicode uppercase mapping of a
/// character, a function of the character alone.
#[verifier::external_body]
pub(crate) fn char_to_uppercase(c: char) -> (r: String)
    ensures
        r@ == uppercase_chars_of(c),
{
    let mut s = String::new();
    for u in c.to_uppercase() {
        s.push(u);
    }
    s
}

/// Whether a character has the Unicode `Uppercase` property.
pub uninterp spec fn is_uppercase_char(c: char) -> bool;

/// Relies on `char::is_uppercase`: whether the character has the Unicode
/// `Uppercase` property, a function of the character alone.
#[verifier::external_body]
pub(crate) fn char_is_uppercase(c: char) -> (r: bool)
    ensures
        r == is_uppercase_char(c),
{
    c.is_uppercase()
}

/// Relies on `String::push`: appends one character at the end.
#[verifier::external_body]
pub(crate) fn push_char(s: &mut String, c: char)
    ensures
        final(s)@ == old(s)@.push(c),
{
    s.push(c);
}

/// `s` with its leading whitespace removed.
pub open spec fn trim_start_spec(s: Seq<char>) -> Seq<char>
    decreases s.len(),
{
    if s.len() > 0 && is_space_char(s[0]) {
        trim_start_spec(s.drop_first())
    } else {
        s
    }
}

/// `s` with its trailing whitespace removed.
pub open spec fn trim_end_spec(s: Seq<char>) -> Seq<char>
    decreases s.len(),
{
    if s.len() > 0 && is_space_char(s.last()) {
        trim_end_spec(s.drop_last())
    } else {
        s
    }
}

/// `s` with whitespace removed from both ends.
pub open spec fn trim_spec(s: Seq<char>) -> Seq<char> {
    trim_end_spec(trim_start_spec(s))
}

proof fn lemma_trim_start_skip(s: Seq<char>, i: int)
    requires
        0 <= i <= s.len(),
        forall|j: int| 0 <= j < i ==> is_space_char(s[j]),
    ensures
        trim_start_spec(s) == trim_start_spec(s.skip(i)),
    decreases i,
{
    if i > 0 {
        assert(s.drop_first() =~= s.skip(1));
        lemma_trim_start_skip(s.skip(1), i - 1);
        assert(s.skip(1).skip(i - 1) =~= s.skip(i));
    } else {
        assert(s.skip(0) =~= s);
    }
}

/// A copy of `s` with leading whitespace removed.
pub(crate) fn trim_start(s: &str) -> (r: String)
    ensures
        r@ == trim_start_spec(s@),
{
    let n = s.unicode_len();
    let mut i: usize = 0;
    while i < n && is_space(s.get_char(i))
        invariant
            i <= n,
            n == s@.len(),
            forall|j: int| 0 <= j < i ==> is_space_char(s@[j]),
        decreases n - i,
    {
        i = i + 1;
    }
    proof {
        lemma_trim_start_skip(s@, i as int);
        if i < n {
            assert(s@.skip(i as int)[0] == s@[i as int]);
        }
        assert(trim_start_spec(s@) =~= s@.subrange(i as int, n as int));
    }
    String::from_str(s.substring_char(i, n))
}

proof fn lemma_trim_end_take(s: Seq<char>, i: int)
    requires
        0 <= i <= s.len(),
        forall|j: int| i <= j < s.len() ==> is_space_char(s[j]),
    ensures
        trim_end_spec(s) == trim_end_spec(s.take(i)),
    decreases s.len() - i,
{
    if i < s.len() {
        assert(s.drop_last() =~= s.take(s.len() - 1));
        lemma_trim_end_take(s.take(s.len() - 1), i);
        assert(s.take(s.len() - 1).take(i) =~= s.take(i));
    } else {
        assert(s.take(i) =~= s);
    }
}

/// A copy of `s` with trailing whitespace removed.
pub(crate) fn trim_end(s: &str) -> (r: String)
    ensures
        r@ == trim_end_spec(s@),
{
    let n = s.unicode_len();
    let mut i: usize = n;
    while i > 0 && is_space(s.get_char(i - 1))
        invariant
            i <= n,
            n == s@.len(),
            forall|j: int| i <= j < n ==> is_space_char(s@[j]),
        decreases i,
    {
        i = i - 1;
    }
    proof {
        lemma_trim_end_take(s@, i as int);
        if i > 0 {
            assert(s@.take(i as int).last() == s@[i - 1]);
        }
        assert(trim_end_spec(s@) =~= s@.subrange(0, i as int));
    }
    String::from_str(s.substring_char(0, i))
}

/// A copy of `s` with whitespace removed from both ends.
pub(crate) fn trim(s: &str) -> (r: String)
    ensures
        r@ == trim_spec(s@),
{
    let t = trim_start(s);
    trim_end(t.as_str())
}

/// The pieces of `s` between occurrences of `sep`, in order.  There is
/// always at least one piece; separators at the ends yield empty pieces.
pub open spec fn split_spec(s: Seq<char>, sep: char) -> Seq<Seq<char>>
    decreases s.len(),
{
    if s.len() == 0 {
        seq![Seq::<char>::empty()]
    } else if s[0] == sep {
        seq![Seq::<char>::empty()] + split_spec(s.drop_first(), sep)
    } else {
        let rest = split_spec(s.drop_first(), sep);
        seq![seq![s[0]] + rest[0]] + rest.drop_first()
    }
}

pub proof fn lemma_split_spec_len(s: Seq<char>, sep: char)
    ensures
        split_spec(s, sep).len() >= 1,
    decreases s.len(),
{
    if s.len() > 0 {
        lemma_split_spec_len(s.drop_first(), sep);
    }
}

/// The pieces of `s` between occurrences of `sep`, as owned strings.
pub(crate) fn split_on(s: &str, sep: char) -> (r: Vec<String>)
    ensures
        r.deep_view() == split_spec(s@, sep),
        r.len() >= 1,
{
    let n = s.unicode_len();
    let mut parts: Vec<String> = Vec::new();
    let mut cur: String = String::new();
    let mut i: usize = 0;
    proof {
        lemma_split_spec_len(s@, sep);
        assert(s@.skip(0) =~= s@);
        assert(Seq::<char>::empty() + split_spec(s@, sep)[0] =~= split_spec(s@, sep)[0]);
        assert(split_spec(s@, sep) =~= parts.deep_view() + seq![
            cur@ + split_spec(s@.skip(0), sep)[0],
        ] + split_spec(s@.skip(0), sep).drop_first());
    }
    while i < n
        invariant
            i <= n,
            n == s@.len(),
            split_spec(s@, sep) == parts.deep_view() + seq![
                cur@ + split_spec(s@.skip(i as int), sep)[0],
            ] + split_spec(s@.skip(i as int), sep).drop_first(),
        decreases n - i,
    {
        let ghost pre = s@.skip(i as int);
        let ghost rest = split_spec(s@.skip(i + 1), sep);
        let ghost parts0 = parts.deep_view();
        let ghost cur0 = cur@;
        proof {
            lemma_split_spec_len(s@.skip(i + 1), sep);
            assert(pre.drop_first() =~= s@.skip(i + 1));
            assert(pre[0] == s@[i as int]);
        }
        let c = s.get_char(i);
        if c == sep {
            parts.push(cur);
            cur = String::new();
            proof {
                assert(parts.deep_view() =~= parts0 + seq![cur0]);
                assert(split_spec(pre, sep) =~= seq![Seq::<char>::empty()] + rest);
                assert(cur0 + split_spec(pre, sep)[0] =~= cur0);
                assert(split_spec(pre, sep).drop_first() =~= rest);
                assert(cur@ + rest[0] =~= rest[0]);
                assert(split_spec(s@, sep) =~= parts.deep_view() + seq![cur@ + rest[0]]
                    + rest.drop_first());
            }
        } else {
            push_char(&mut cur, c);
            proof {
                assert(split_spec(pre, sep) =~= seq![seq![s@[i as int]] + rest[0]]
                    + rest.drop_first());
                assert(split_spec(pre, sep)[0] =~= seq![s@[i as int]] + rest[0]);
                assert(split_spec(pre, sep).drop_first() =~= rest.drop_first());
                assert(cur@ + rest[0] =~= cur0 + split_spec(pre, sep)[0]);
                assert(split_spec(s@, sep) =~= parts.deep_view() + seq![cur@ + rest[0]]
                    + rest.drop_first());
            }
        }
        i = i + 1;
    }
    let ghost parts0 = parts.deep_view();
    let ghost cur0 = cur@;
    proof {
        assert(s@.skip(n as int) =~= Seq::<char>::empty());
        assert(split_spec(Seq::<char>::empty(), sep) =~= seq![Seq::<char>::empty()]);
        assert(cur0 + split_spec(s@.skip(n as int), sep)[0] =~= cur0);
        assert(split_spec(s@.skip(n as int), sep).drop_first() =~= Seq::<Seq<char>>::empty());
        assert(split_spec(s@, sep) =~= parts0 + seq![cur0]);
    }
    parts.push(cur);
    proof {
        assert(parts.deep_view() =~= parts0 + seq![cur0]);
    }
    parts
}

/// Is `p` a suffix of `s`?
pub open spec fn is_suffix_of(p: Seq<char>, s: Seq<char>) -> bool {
    p.len() <= s.len() && s.skip(s.len() - p.len()) == p
}

/// Does `s` end with the characters of `p`?
pub(crate) fn str_ends_with(s: &str, p: &str) -> (r: bool)
    ensures
        r == is_suffix_of(p@, s@),
{
    let sn = s.unicode_len();
    let pn = p.unicode_len();
    if pn > sn {
        return false;
    }
    let off = sn - pn;
    let mut i: usize = 0;
    while i < pn
        invariant
            i <= pn,
            pn <= sn,
            off == sn - pn,
            sn == s@.len(),
            pn == p@.len(),
            forall|j: int| 0 <= j < i ==> s@[off + j] == p@[j],
        decreases pn - i,
    {
        if s.get_char(off + i) != p.get_char(i) {
            proof {
                assert(s@.skip(off as int)[i as int] == s@[off + i]);
            }
            return false;
        }
        i = i + 1;
    }
    proof {
        assert(s@.skip(off as int) =~= p@);
    }
    true
}

/// Does `s` start with the proper-noun marker `!`?
pub open spec fn marked_proper(s: Seq<char>) -> bool {
    s.len() > 0 && s[0] == '!'
}

/// `s` with a leading proper-noun marker removed, if there is one.
pub open spec fn strip_marker(s: Seq<char>) -> Seq<char> {
    if marked_proper(s) {
        s.drop_first()
    } else {
        s
    }
}

/// Executable test for [`marked_proper`].
pub(crate) fn starts_bang(s: &str) -> (r: bool)
    ensures
        r == marked_proper(s@),
{
    let n = s.unicode_len();
    n > 0 && s.get_char(0) == '!'
}

/// A copy of `s` with a leading proper-noun marker removed, if any.
pub(crate) fn strip_bang(s: &str) -> (r: String)
    ensures
        r@ == strip_marker(s@),
{
    let n = s.unicode_len();
    if n > 0 && s.get_char(0) == '!' {
        proof {
            assert(s@.subrange(1, n as int) =~= s@.drop_first());
        }
        String::from_str(s.substring_char(1, n))
    } else {
        String::from_str(s)
    }
}

} // verus!
