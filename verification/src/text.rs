//! Text: comparing, cutting and joining strings, with sequences of
//! characters as their model.

use vstd::prelude::*;
use vstd::string::*;

verus! {

/// The first position at or after `from` at which `needle` occurs in `s`.
pub open spec fn find_from(s: Seq<char>, needle: Seq<char>, from: int) -> Option<int>
    decreases s.len() - from + 1,
{
    if from < 0 || from + needle.len() > s.len() {
        None
    } else if s.subrange(from, from + needle.len()) == needle {
        Some(from)
    } else {
        find_from(s, needle, from + 1)
    }
}

/// What stands before and what stands after the first occurrence of `needle`.
pub open spec fn split_once_spec(s: Seq<char>, needle: Seq<char>) -> Option<
    (Seq<char>, Seq<char>),
> {
    match find_from(s, needle, 0) {
        Some(i) => Some((s.subrange(0, i), s.subrange(i + needle.len(), s.len() as int))),
        None => None,
    }
}

/// Whether `s` begins with `prefix`.
pub open spec fn has_prefix(s: Seq<char>, prefix: Seq<char>) -> bool {
    prefix.len() <= s.len() && s.subrange(0, prefix.len() as int) == prefix
}

/// Whether `s` ends with `suffix`.
pub open spec fn has_suffix(s: Seq<char>, suffix: Seq<char>) -> bool {
    suffix.len() <= s.len() && s.subrange(s.len() - suffix.len(), s.len() as int) == suffix
}

/// The views of a list of strings.
pub open spec fn views(parts: Seq<String>) -> Seq<Seq<char>> {
    Seq::new(parts.len(), |i: int| parts[i]@)
}

/// All the parts, one after the other, with `separator` between neighbours.
pub open spec fn joined(parts: Seq<Seq<char>>, separator: Seq<char>) -> Seq<char>
    decreases parts.len(),
{
    if parts.len() == 0 {
        Seq::empty()
    } else if parts.len() == 1 {
        parts[0]
    } else {
        joined(parts.drop_last(), separator) + separator + parts.last()
    }
}

/// The decimal digits of `n`, without leading zeros.
pub open spec fn decimal(n: nat) -> Seq<char>
    decreases n,
{
    if n < 10 {
        seq![digit(n)]
    } else {
        decimal(n / 10).push(digit(n % 10))
    }
}

/// The character of a decimal digit.
pub open spec fn digit(n: nat) -> char {
    if n == 0 {
        '0'
    } else if n == 1 {
        '1'
    } else if n == 2 {
        '2'
    } else if n == 3 {
        '3'
    } else if n == 4 {
        '4'
    } else if n == 5 {
        '5'
    } else if n == 6 {
        '6'
    } else if n == 7 {
        '7'
    } else if n == 8 {
        '8'
    } else {
        '9'
    }
}

/// The debug text of a string: quoted, with special characters escaped.
pub uninterp spec fn debug_text_of(s: Seq<char>) -> Seq<char>;

/// The text of the `Debug` implementation of `str`. Claimed: it depends on the
/// string alone.
#[verifier::external_body]
pub(crate) fn debug_text(s: &str) -> (r: String)
    ensures
        r@ == debug_text_of(s@),
{
    format!("{s:?}")
}

/// Whether the two strings hold the same characters.
pub fn same(a: &str, b: &str) -> (r: bool)
    ensures
        r == (a@ == b@),
{
    a.to_owned() == b.to_owned()
}

/// Whether `s` begins with `prefix`.
pub fn starts_with(s: &str, prefix: &str) -> (r: bool)
    ensures
        r == has_prefix(s@, prefix@),
{
    let n: usize = prefix.unicode_len();
    n <= s.unicode_len() && same(s.substring_char(0, n), prefix)
}

/// Whether `s` ends with `suffix`.
pub fn ends_with(s: &str, suffix: &str) -> (r: bool)
    ensures
        r == has_suffix(s@, suffix@),
{
    let len: usize = s.unicode_len();
    let n: usize = suffix.unicode_len();
    n <= len && same(s.substring_char(len - n, len), suffix)
}

/// What follows `prefix` in `s`, if `s` begins with it.
pub fn strip_prefix<'a>(s: &'a str, prefix: &str) -> (r: Option<&'a str>)
    ensures
        r is Some <==> has_prefix(s@, prefix@),
        r matches Some(rest) ==> rest@ == s@.subrange(prefix@.len() as int, s@.len() as int),
{
    if starts_with(s, prefix) {
        Some(s.substring_char(prefix.unicode_len(), s.unicode_len()))
    } else {
        None
    }
}

/// What stands before `suffix` in `s`, if `s` ends with it.
pub fn strip_suffix<'a>(s: &'a str, suffix: &str) -> (r: Option<&'a str>)
    ensures
        r is Some <==> has_suffix(s@, suffix@),
        r matches Some(rest) ==> rest@ == s@.subrange(0, s@.len() - suffix@.len()),
{
    if ends_with(s, suffix) {
        Some(s.substring_char(0, s.unicode_len() - suffix.unicode_len()))
    } else {
        None
    }
}

/// Cuts `s` at the first occurrence of `needle`, which is dropped.
pub fn split_once<'a>(s: &'a str, needle: &str) -> (r: Option<(&'a str, &'a str)>)
    ensures
        match split_once_spec(s@, needle@) {
            Some((before, after)) => r matches Some(cut) && cut.0@ == before && cut.1@ == after,
            None => r is None,
        },
{
    let len: usize = s.unicode_len();
    let n: usize = needle.unicode_len();
    if n > len {
        return None;
    }
    let mut i: usize = 0;
    while i <= len - n
        invariant
            len == s@.len(),
            n == needle@.len(),
            n <= len,
            i <= len - n + 1,
            find_from(s@, needle@, 0) == find_from(s@, needle@, i as int),
        decreases len - n + 1 - i,
    {
        if same(s.substring_char(i, i + n), needle) {
            return Some((s.substring_char(0, i), s.substring_char(i + n, len)));
        }
        if i == len - n {
            assert(find_from(s@, needle@, i as int + 1) is None);
            return None;
        }
        i = i + 1;
    }
    None
}

/// The parts one after the other, with `separator` between neighbours.
pub fn join(parts: &Vec<String>, separator: &str) -> (r: String)
    ensures
        r@ == joined(views(parts@), separator@),
{
    let mut out: String = String::new();
    let mut i: usize = 0;
    while i < parts.len()
        invariant
            i <= parts.len(),
            out@ == joined(views(parts@).take(i as int), separator@),
        decreases parts.len() - i,
    {
        let ghost whole = views(parts@).take(i as int + 1);
        proof {
            assert(whole.drop_last() =~= views(parts@).take(i as int));
            assert(whole.last() == parts@[i as int]@);
        }
        if i > 0 {
            out.append(separator);
        }
        out.append(parts[i].as_str());
        proof {
            if i == 0 {
                assert(out@ =~= whole[0]);
            }
        }
        i = i + 1;
    }
    proof {
        assert(views(parts@).take(i as int) =~= views(parts@));
    }
    out
}

/// The three strings one after the other.
pub fn concat3(a: &str, b: &str, c: &str) -> (r: String)
    ensures
        r@ == a@ + b@ + c@,
{
    let mut out: String = a.to_owned();
    out.append(b);
    out.append(c);
    out
}

/// The two strings one after the other.
pub fn concat2(a: &str, b: &str) -> (r: String)
    ensures
        r@ == a@ + b@,
{
    let mut out: String = a.to_owned();
    out.append(b);
    out
}

/// The digit as a string of one character.
fn digit_str(n: u64) -> (r: &'static str)
    requires
        n < 10,
    ensures
        r@ == seq![digit(n as nat)],
{
    proof {
        reveal_strlit("0");
        reveal_strlit("1");
        reveal_strlit("2");
        reveal_strlit("3");
        reveal_strlit("4");
        reveal_strlit("5");
        reveal_strlit("6");
        reveal_strlit("7");
        reveal_strlit("8");
        reveal_strlit("9");
    }
    let r: &'static str = match n {
        0 => "0",
        1 => "1",
        2 => "2",
        3 => "3",
        4 => "4",
        5 => "5",
        6 => "6",
        7 => "7",
        8 => "8",
        _ => "9",
    };
    assert(r@ =~= seq![digit(n as nat)]);
    r
}

/// The decimal digits of `n`, without leading zeros.
pub fn decimal_string(n: u64) -> (r: String)
    ensures
        r@ == decimal(n as nat),
    decreases n,
{
    if n < 10 {
        digit_str(n).to_owned()
    } else {
        let mut out: String = decimal_string(n / 10);
        let ghost before = out@;
        out.append(digit_str(n % 10));
        assert(out@ =~= before.push(digit((n % 10) as nat)));
        out
    }
}

/// A prefix and what follows it make up the string again.
pub proof fn lemma_prefix_of_concat(a: Seq<char>, b: Seq<char>)
    ensures
        has_prefix(a + b, a),
        (a + b).subrange(a.len() as int, (a + b).len() as int) == b,
{
    assert((a + b).subrange(0, a.len() as int) =~= a);
    assert((a + b).subrange(a.len() as int, (a + b).len() as int) =~= b);
}

/// A suffix and what precedes it make up the string again.
pub proof fn lemma_suffix_of_concat(a: Seq<char>, b: Seq<char>)
    ensures
        has_suffix(a + b, b),
        (a + b).subrange(0, (a + b).len() - b.len()) == a,
{
    assert((a + b).subrange((a + b).len() - b.len(), (a + b).len() as int) =~= b);
    assert((a + b).subrange(0, (a + b).len() - b.len()) =~= a);
}

/// The first occurrence of a text is one, and there is none before it.
pub proof fn lemma_find_from(s: Seq<char>, needle: Seq<char>, i: int)
    requires
        0 <= i,
    ensures
        find_from(s, needle, i) matches Some(j) ==> {
            &&& i <= j <= s.len() - needle.len()
            &&& s.subrange(j, j + needle.len()) == needle
            &&& forall|k: int|
                i <= k < j ==> #[trigger] s.subrange(k, k + needle.len()) != needle
        },
        find_from(s, needle, i) is None ==> forall|k: int|
            i <= k <= s.len() - needle.len() ==> #[trigger] s.subrange(k, k + needle.len())
                != needle,
    decreases s.len() - i + 1,
{
    if i + needle.len() <= s.len() && s.subrange(i, i + needle.len()) != needle {
        lemma_find_from(s, needle, i + 1);
    }
}

/// A text that is cut at a character is made up of what stands before it, which does not
/// hold it, the character, and what stands after it.
pub proof fn cut_texts_can_be_joined(s: Seq<char>, c: char)
    ensures
        split_once_spec(s, seq![c]) matches Some((before, after)) ==> {
            &&& before + seq![c] + after == s
            &&& !before.contains(c)
        },
        split_once_spec(s, seq![c]) is None <==> !s.contains(c),
{
    lemma_find_from(s, seq![c], 0);
    match find_from(s, seq![c], 0) {
        Some(j) => {
            assert(s.subrange(j, j + 1)[0] == c);
            assert(s[j] == c);
            let before = s.subrange(0, j);
            let after = s.subrange(j + 1, s.len() as int);
            assert(before + seq![c] + after =~= s);
            assert forall|k: int| 0 <= k < before.len() implies before[k] != c by {
                if before[k] == c {
                    assert(s.subrange(k, k + 1) =~= seq![c]);
                }
            }
        },
        None => {
            assert forall|k: int| 0 <= k < s.len() implies s[k] != c by {
                if s[k] == c {
                    assert(s.subrange(k, k + 1) =~= seq![c]);
                }
            }
        },
    }
}

/// Joined texts are the texts, one after the other, with the separator between neighbours.
pub proof fn joined_texts_hold_each_part(
    parts: Seq<Seq<char>>,
    part: Seq<char>,
    separator: Seq<char>,
)
    ensures
        joined(Seq::<Seq<char>>::empty(), separator).len() == 0,
        joined(seq![part], separator) == part,
        parts.len() > 0 ==> joined(parts.push(part), separator) == joined(parts, separator)
            + separator + part,
{
    reveal_with_fuel(joined, 2);
    assert(parts.push(part).drop_last() =~= parts);
    assert(seq![part].drop_last() =~= Seq::empty());
    assert(joined(seq![part], separator) =~= part);
}

} // verus!
