//! Window titles.
//!
//! A program is known by a name in lower case with underscores between its
//! words, such as `clock_of_the_world`. Its windows are titled with the same
//! words set apart by spaces and capitalised, small words excepted: "Clock of
//! The World".

use vstd::prelude::*;

verus! {

/// The capital of a small ASCII letter; every other character is itself.
pub open spec fn capital(c: char) -> char {
    if 'a' <= c && c <= 'z' {
        ((c as u8) - 32) as u8 as char
    } else {
        c
    }
}

/// Whether a word is one of those that stay in lower case: "a", "an", "of",
/// "in" and "and".
pub open spec fn is_small_word(word: Seq<char>) -> bool {
    ||| word == seq!['a']
    ||| word == seq!['a', 'n']
    ||| word == seq!['o', 'f']
    ||| word == seq!['i', 'n']
    ||| word == seq!['a', 'n', 'd']
}

/// A word as it stands in a title: with a capital first letter, unless it is
/// a small word.
pub open spec fn titled_word(word: Seq<char>) -> Seq<char> {
    if word.len() == 0 || is_small_word(word) {
        word
    } else {
        seq![capital(word[0])] + word.skip(1)
    }
}

/// The number of characters before the first underscore, or the length of
/// the whole where there is none.
pub open spec fn word_len(s: Seq<char>) -> int
    decreases s.len(),
{
    if s.len() == 0 || s[0] == '_' {
        0
    } else {
        1 + word_len(s.skip(1))
    }
}

/// The words of a name as they stand in a title, set apart by single spaces.
/// Every underscore parts two words, so that two underscores in a row give
/// two spaces.
pub open spec fn titled(name: Seq<char>) -> Seq<char>
    decreases name.len(),
{
    let n = word_len(name);
    if 0 <= n < name.len() {
        titled_word(name.take(n)) + seq![' '] + titled(name.skip(n + 1))
    } else {
        titled_word(name)
    }
}

/// What follows the words in every title.
pub open spec fn suffix() -> Seq<char> {
    seq![' ', '-', ' ', 'I', 'c', 'e', 'd']
}

/// The title of the windows of the program `name`.
pub open spec fn title_of(name: Seq<char>) -> Seq<char> {
    titled(name) + suffix()
}

/// A run of characters without an underscore that ends at an underscore or at
/// the end is the first word.
proof fn lemma_word_len(s: Seq<char>, n: int)
    requires
        0 <= n <= s.len(),
        forall|k: int| 0 <= k < n ==> s[k] != '_',
        n == s.len() || s[n] == '_',
    ensures
        word_len(s) == n,
    decreases n,
{
    if n > 0 {
        let rest = s.skip(1);
        assert forall|k: int| 0 <= k < n - 1 implies rest[k] != '_' by {
            assert(rest[k] == s[k + 1]);
        }
        lemma_word_len(rest, n - 1);
    }
}

/// `String::push`: appends one character behind the others.
#[verifier::external_body]
fn push(out: &mut String, c: char)
    ensures
        final(out)@ == old(out)@.push(c),
{
    out.push(c)
}

/// Computes [`capital`].
pub fn to_capital(c: char) -> (r: char)
    ensures
        r == capital(c),
{
    if 'a' <= c && c <= 'z' {
        ((c as u8) - 32) as char
    } else {
        c
    }
}

/// Whether the characters of `name` from `start` up to `end` spell a small
/// word.
fn small_word_at(name: &str, start: usize, end: usize) -> (r: bool)
    requires
        start <= end <= name@.len(),
    ensures
        r == is_small_word(name@.subrange(start as int, end as int)),
{
    let ghost word = name@.subrange(start as int, end as int);
    let n = end - start;
    proof {
        let (w1, w2, w3, w4, w5) = (
            seq!['a'],
            seq!['a', 'n'],
            seq!['o', 'f'],
            seq!['i', 'n'],
            seq!['a', 'n', 'd'],
        );
        assert(w1.len() == 1 && w1[0] == 'a');
        assert(w2.len() == 2 && w2[0] == 'a' && w2[1] == 'n');
        assert(w3.len() == 2 && w3[0] == 'o' && w3[1] == 'f');
        assert(w4.len() == 2 && w4[0] == 'i' && w4[1] == 'n');
        assert(w5.len() == 3 && w5[0] == 'a' && w5[1] == 'n' && w5[2] == 'd');
    }
    if n == 1 {
        let a = name.get_char(start);
        assert(word[0] == a);
        assert(a == 'a' ==> word =~= seq!['a']);
        a == 'a'
    } else if n == 2 {
        let a = name.get_char(start);
        let b = name.get_char(start + 1);
        assert(word[0] == a && word[1] == b);
        assert(a == 'a' && b == 'n' ==> word =~= seq!['a', 'n']);
        assert(a == 'o' && b == 'f' ==> word =~= seq!['o', 'f']);
        assert(a == 'i' && b == 'n' ==> word =~= seq!['i', 'n']);
        (a == 'a' && b == 'n') || (a == 'o' && b == 'f') || (a == 'i' && b == 'n')
    } else if n == 3 {
        let a = name.get_char(start);
        let b = name.get_char(start + 1);
        let c = name.get_char(start + 2);
        assert(word[0] == a && word[1] == b && word[2] == c);
        assert(a == 'a' && b == 'n' && c == 'd' ==> word =~= seq!['a', 'n', 'd']);
        a == 'a' && b == 'n' && c == 'd'
    } else {
        false
    }
}

/// Appends the word that stands in `name` from `start` up to `end`, as it
/// stands in a title.
fn push_word(out: &mut String, name: &str, start: usize, end: usize)
    requires
        start <= end <= name@.len(),
    ensures
        final(out)@ == old(out)@ + titled_word(name@.subrange(start as int, end as int)),
{
    let ghost word = name@.subrange(start as int, end as int);
    let ghost before = out@;
    let small = small_word_at(name, start, end);
    let mut at: usize = start;
    while at < end
        invariant
            start <= at <= end <= name@.len(),
            word == name@.subrange(start as int, end as int),
            small == is_small_word(word),
            titled_word(word).len() == word.len(),
            out@ == before + titled_word(word).take(at - start),
        decreases end - at,
    {
        let c = name.get_char(at);
        assert(word[at - start] == c);
        if at == start && !small {
            push(out, to_capital(c));
        } else {
            push(out, c);
        }
        assert(out@ =~= before + titled_word(word).take(at + 1 - start)) by {
            assert(titled_word(word).take(at + 1 - start) =~= titled_word(word).take(at - start).push(
                titled_word(word)[at - start],
            ));
        }
        at += 1;
    }
    assert(titled_word(word).take(end - start) =~= titled_word(word));
}

/// The title of the windows of the program `name`: its words capitalised and
/// set apart by spaces, then " - Iced".
pub fn title(name: &str) -> (r: String)
    ensures
        r@ == title_of(name@),
{
    let len = name.unicode_len();
    let mut out = String::new();
    let mut start: usize = 0;
    assert(name@.skip(0) =~= name@);
    assert(out@ + titled(name@) =~= titled(name@));
    loop
        invariant_except_break
            start <= len == name@.len(),
            titled(name@) == out@ + titled(name@.skip(start as int)),
        ensures
            out@ == titled(name@),
        decreases len - start,
    {
        let mut end: usize = start;
        while end < len && name.get_char(end) != '_'
            invariant
                start <= end <= len == name@.len(),
                forall|k: int| start <= k < end ==> name@[k] != '_',
            decreases len - end,
        {
            end += 1;
        }
        let ghost tail = name@.skip(start as int);
        let ghost before = out@;
        proof {
            assert forall|k: int| 0 <= k < end - start implies tail[k] != '_' by {
                assert(tail[k] == name@[start + k]);
            }
            lemma_word_len(tail, end - start);
            assert(tail.take(end - start) =~= name@.subrange(start as int, end as int));
        }
        push_word(&mut out, name, start, end);
        if end == len {
            assert(tail =~= name@.subrange(start as int, end as int));
            break ;
        }
        push(&mut out, ' ');
        proof {
            assert(tail.skip(end - start + 1) =~= name@.skip(end + 1));
            assert(out@ + titled(name@.skip(end + 1)) =~= before + (titled_word(
                tail.take(end - start),
            ) + seq![' '] + titled(tail.skip(end - start + 1))));
        }
        start = end + 1;
    }
    let ghost words = out@;
    push(&mut out, ' ');
    push(&mut out, '-');
    push(&mut out, ' ');
    push(&mut out, 'I');
    push(&mut out, 'c');
    push(&mut out, 'e');
    push(&mut out, 'd');
    assert(out@ =~= words + suffix());
    out
}

} // verus!
