//! Deriving the promoted branch's name from the commit message.
//!
//! The commit subject is the first line of the commit message that is
//! non-empty and does not begin with the comment marker `#`. Its words —
//! the maximal runs of non-whitespace characters — are joined with
//! underscores, every character that is neither alphanumeric nor an
//! underscore is removed, the rest is lower-cased, and the result is
//! prefixed with the branch namespace `stash/`.

use vstd::prelude::*;
use crate::stashref::push_char;

verus! {

/// Whether a character counts as whitespace when the subject is split into
/// words. Unicode decides; `char_is_whitespace` answers it.
pub uninterp spec fn is_space(c: char) -> bool;

/// Whether a character counts as alphanumeric and so survives the
/// sanitizing filter. Unicode decides; `char_is_alphanumeric` answers it.
pub uninterp spec fn is_alnum(c: char) -> bool;

/// The lower-case form of a character sequence, as the standard library
/// computes it. It depends on the characters alone.
pub uninterp spec fn lower_of(s: Seq<char>) -> Seq<char>;

/// Relies on `char::is_whitespace`: true exactly for the characters with
/// the Unicode whitespace property, a function of the character alone.
#[verifier::external_body]
fn char_is_whitespace(c: char) -> (r: bool)
    ensures
        r == is_space(c),
{
    c.is_whitespace()
}

/// Relies on `char::is_alphanumeric`: true exactly for the characters in
/// the Unicode alphabetic and numeric categories, a function of the
/// character alone.
#[verifier::external_body]
fn char_is_alphanumeric(c: char) -> (r: bool)
    ensures
        r == is_alnum(c),
{
    c.is_alphanumeric()
}

/// Relies on `str::to_lowercase`: the result depends on the characters
/// alone.
#[verifier::external_body]
fn lowercase(s: &String) -> (r: String)
    ensures
        r@ == lower_of(s@),
{
    s.to_lowercase()
}

/// A line can serve as the commit subject: it is non-empty and does not
/// begin with the comment marker.
pub open spec fn spec_eligible(l: Seq<char>) -> bool {
    l.len() > 0 && l[0] != '#'
}

/// The first eligible line among `lines`, if any.
pub open spec fn spec_first_eligible(lines: Seq<Seq<char>>) -> Option<Seq<char>>
    decreases lines.len(),
{
    if lines.len() == 0 {
        None
    } else if spec_eligible(lines[0]) {
        Some(lines[0])
    } else {
        spec_first_eligible(lines.drop_first())
    }
}

/// The words of `s` from position `i` on, with `cur` the partial word read
/// so far and `acc` the words already complete: a left-to-right scan that
/// closes the current word at each whitespace character.
pub open spec fn spec_split_from(
    s: Seq<char>,
    i: int,
    cur: Seq<char>,
    acc: Seq<Seq<char>>,
) -> Seq<Seq<char>>
    decreases s.len() - i,
{
    if i < 0 || i >= s.len() {
        if cur.len() == 0 { acc } else { acc.push(cur) }
    } else if is_space(s[i]) {
        if cur.len() == 0 {
            spec_split_from(s, i + 1, cur, acc)
        } else {
            spec_split_from(s, i + 1, Seq::empty(), acc.push(cur))
        }
    } else {
        spec_split_from(s, i + 1, cur.push(s[i]), acc)
    }
}

/// The words of `s`: its maximal runs of non-whitespace characters, in
/// order.
pub open spec fn spec_words(s: Seq<char>) -> Seq<Seq<char>> {
    spec_split_from(s, 0, Seq::empty(), Seq::empty())
}

/// A word proper: non-empty and free of whitespace.
pub open spec fn spec_is_word(w: Seq<char>) -> bool {
    w.len() > 0 && forall|k: int| 0 <= k < w.len() ==> !is_space(w[k])
}

proof fn lemma_split_from_words(s: Seq<char>, i: int, cur: Seq<char>, acc: Seq<Seq<char>>)
    requires
        forall|k: int| 0 <= k < cur.len() ==> !is_space(cur[k]),
        forall|j: int| 0 <= j < acc.len() ==> spec_is_word(#[trigger] acc[j]),
    ensures
        forall|j: int| 0 <= j < spec_split_from(s, i, cur, acc).len()
            ==> spec_is_word(#[trigger] spec_split_from(s, i, cur, acc)[j]),
    decreases s.len() - i,
{
    if i < 0 || i >= s.len() {
        let res = spec_split_from(s, i, cur, acc);
        if cur.len() > 0 {
            assert(res == acc.push(cur));
            assert forall|j: int| 0 <= j < res.len() implies spec_is_word(#[trigger] res[j]) by {
                if j < acc.len() {
                    assert(res[j] == acc[j]);
                } else {
                    assert(res[j] == cur);
                }
            }
        } else {
            assert(res == acc);
        }
    } else if is_space(s[i]) {
        if cur.len() == 0 {
            lemma_split_from_words(s, i + 1, cur, acc);
            assert(spec_split_from(s, i, cur, acc) == spec_split_from(s, i + 1, cur, acc));
        } else {
            assert(forall|j: int| 0 <= j < acc.len() ==> acc.push(cur)[j] == acc[j]);
            assert(acc.push(cur)[acc.len() as int] == cur);
            lemma_split_from_words(s, i + 1, Seq::empty(), acc.push(cur));
            assert(spec_split_from(s, i, cur, acc)
                == spec_split_from(s, i + 1, Seq::empty(), acc.push(cur)));
        }
    } else {
        assert(forall|k: int| 0 <= k < cur.len() ==> cur.push(s[i])[k] == cur[k]);
        assert(cur.push(s[i])[cur.len() as int] == s[i]);
        lemma_split_from_words(s, i + 1, cur.push(s[i]), acc);
        assert(spec_split_from(s, i, cur, acc)
            == spec_split_from(s, i + 1, cur.push(s[i]), acc));
    }
}

/// The split is sound: every word of a subject is a word proper, non-empty
/// and free of whitespace — so the joining underscores of the derived
/// branch name separate real words.
pub proof fn lemma_words_are_words(s: Seq<char>)
    ensures
        forall|j: int| 0 <= j < spec_words(s).len()
            ==> spec_is_word(#[trigger] spec_words(s)[j]),
{
    lemma_split_from_words(s, 0, Seq::empty(), Seq::empty());
}

/// The words joined with single underscores.
pub open spec fn spec_join(words: Seq<Seq<char>>) -> Seq<char>
    decreases words.len(),
{
    if words.len() == 0 {
        Seq::empty()
    } else if words.len() == 1 {
        words[0]
    } else {
        spec_join(words.drop_last()) + seq!['_'] + words.last()
    }
}

/// A character survives the sanitizing filter: an underscore or an
/// alphanumeric character.
pub open spec fn spec_keeps(c: char) -> bool {
    c == '_' || is_alnum(c)
}

/// `s` with every character that the filter rejects removed.
pub open spec fn spec_sanitize(s: Seq<char>) -> Seq<char>
    decreases s.len(),
{
    if s.len() == 0 {
        Seq::empty()
    } else if spec_keeps(s.last()) {
        spec_sanitize(s.drop_last()).push(s.last())
    } else {
        spec_sanitize(s.drop_last())
    }
}

/// The branch name derived from a commit subject: its words joined with
/// underscores, sanitized, lower-cased, and prefixed with the namespace.
pub open spec fn spec_branch_name(subject: Seq<char>) -> Seq<char> {
    "stash/"@ + lower_of(spec_sanitize(spec_join(spec_words(subject))))
}

/// The subject choice is sound: what `spec_first_eligible` picks is an
/// eligible line, it is the earliest one, and it picks nothing only when no
/// line at all is eligible.
pub proof fn lemma_first_eligible_sound(lines: Seq<Seq<char>>)
    ensures
        match spec_first_eligible(lines) {
            Some(l) => exists|i: int|
                0 <= i < lines.len() && lines[i] == l && spec_eligible(l)
                    && forall|j: int| 0 <= j < i ==> !spec_eligible(lines[j]),
            None => forall|i: int| 0 <= i < lines.len() ==> !spec_eligible(lines[i]),
        },
    decreases lines.len(),
{
    if lines.len() > 0 && !spec_eligible(lines[0]) {
        lemma_first_eligible_sound(lines.drop_first());
        match spec_first_eligible(lines) {
            Some(l) => {
                let i = choose|i: int|
                    0 <= i < lines.drop_first().len() && lines.drop_first()[i] == l
                        && spec_eligible(l)
                        && forall|j: int| 0 <= j < i ==> !spec_eligible(lines.drop_first()[j]);
                assert(lines[i + 1] == l);
                assert(forall|j: int| 0 <= j < i + 1 ==> !spec_eligible(lines[j])) by {
                    assert(forall|j: int|
                        1 <= j < i + 1 ==> lines[j] == lines.drop_first()[j - 1]);
                }
            }
            None => {
                assert(forall|i: int|
                    1 <= i < lines.len() ==> lines[i] == lines.drop_first()[i - 1]);
            }
        }
    }
}

/// Finds the commit subject: the first line that is non-empty and does not
/// begin with `#`. Returns it unchanged, or nothing when no line is
/// eligible — which aborts the promotion.
pub fn extract_subject(lines: &Vec<String>) -> (r: Option<String>)
    ensures
        match r {
            Some(s) => spec_first_eligible(lines.deep_view()) == Some(s@),
            None => spec_first_eligible(lines.deep_view()) is None,
        },
{
    let ghost all: Seq<Seq<char>> = lines.deep_view();
    let mut i: usize = 0;
    proof {
        assert(all.skip(0) =~= all);
    }
    while i < lines.len()
        invariant
            i <= lines.len(),
            all == lines.deep_view(),
            spec_first_eligible(all) == spec_first_eligible(all.skip(i as int)),
        decreases lines.len() - i,
    {
        proof {
            assert(all.skip(i as int)[0] == all[i as int]);
            assert(all.skip(i as int).drop_first() =~= all.skip(i as int + 1));
        }
        let line = &lines[i];
        let n = line.as_str().unicode_len();
        if n > 0 && line.as_str().get_char(0) != '#' {
            assert(spec_eligible(all[i as int]));
            return Some(line.clone());
        }
        assert(!spec_eligible(all[i as int]));
        i = i + 1;
    }
    proof {
        assert(all.skip(i as int) =~= Seq::<Seq<char>>::empty());
    }
    None
}

fn word_chars(s: &Vec<char>) -> (words: Vec<Vec<char>>)
    ensures
        words.deep_view() == spec_words(s@),
{
    let mut acc: Vec<Vec<char>> = Vec::new();
    let mut cur: Vec<char> = Vec::new();
    let mut i: usize = 0;
    proof {
        assert(acc.deep_view() =~~= Seq::<Seq<char>>::empty());
        assert(cur@ =~= Seq::<char>::empty());
    }
    while i < s.len()
        invariant
            i <= s.len(),
            spec_words(s@) == spec_split_from(s@, i as int, cur@, acc.deep_view()),
        decreases s.len() - i,
    {
        let c = s[i];
        if char_is_whitespace(c) {
            if cur.len() > 0 {
                let ghost prev = acc.deep_view();
                let ghost curv = cur@;
                acc.push(cur);
                assert(acc.deep_view() =~~= prev.push(curv));
                cur = Vec::new();
            }
        } else {
            cur.push(c);
        }
        i = i + 1;
    }
    if cur.len() > 0 {
        let ghost prev = acc.deep_view();
        let ghost curv = cur@;
        acc.push(cur);
        assert(acc.deep_view() =~~= prev.push(curv));
    }
    acc
}

fn join_words(words: &Vec<Vec<char>>) -> (r: Vec<char>)
    ensures
        r@ == spec_join(words.deep_view()),
{
    let mut r: Vec<char> = Vec::new();
    let mut i: usize = 0;
    while i < words.len()
        invariant
            i <= words.len(),
            r@ == spec_join(words.deep_view().take(i as int)),
        decreases words.len() - i,
    {
        if i > 0 {
            r.push('_');
        }
        let w = &words[i];
        let mut j: usize = 0;
        let ghost base = r@;
        while j < w.len()
            invariant
                j <= w.len(),
                r@ == base + w@.take(j as int),
            decreases w.len() - j,
        {
            r.push(w[j]);
            assert(r@ =~= base + w@.take(j as int + 1));
            j = j + 1;
        }
        proof {
            let dv = words.deep_view();
            assert(w@.take(w@.len() as int) =~= w@);
            assert(dv.take(i as int + 1).drop_last() =~= dv.take(i as int));
            assert(dv.take(i as int + 1).last() == dv[i as int]);
            if i == 0 {
                assert(spec_join(dv.take(1)) == dv[0]);
                assert(r@ =~= spec_join(dv.take(1)));
            } else {
                assert(r@ =~= spec_join(dv.take(i as int)) + seq!['_'] + dv[i as int]);
            }
        }
        i = i + 1;
    }
    proof {
        assert(words.deep_view().take(words.deep_view().len() as int) =~= words.deep_view());
    }
    r
}

fn sanitize(s: &Vec<char>) -> (r: Vec<char>)
    ensures
        r@ == spec_sanitize(s@),
{
    let mut r: Vec<char> = Vec::new();
    let mut i: usize = 0;
    while i < s.len()
        invariant
            i <= s.len(),
            r@ == spec_sanitize(s@.take(i as int)),
        decreases s.len() - i,
    {
        let c = s[i];
        proof {
            assert(s@.take(i as int + 1).drop_last() =~= s@.take(i as int));
            assert(s@.take(i as int + 1).last() == s@[i as int]);
        }
        if c == '_' || char_is_alphanumeric(c) {
            r.push(c);
        }
        i = i + 1;
    }
    proof {
        assert(s@.take(s@.len() as int) =~= s@);
    }
    r
}

fn chars_of(s: &str) -> (r: Vec<char>)
    ensures
        r@ == s@,
{
    let n = s.unicode_len();
    let mut r: Vec<char> = Vec::new();
    let mut i: usize = 0;
    while i < n
        invariant
            n == s@.len(),
            i <= n,
            r@ == s@.take(i as int),
        decreases n - i,
    {
        r.push(s.get_char(i));
        assert(r@ =~= s@.take(i as int + 1));
        i = i + 1;
    }
    proof {
        assert(s@.take(s@.len() as int) =~= s@);
    }
    r
}

fn string_of(chars: &Vec<char>) -> (r: String)
    ensures
        r@ == chars@,
{
    let mut r = String::new();
    let mut i: usize = 0;
    while i < chars.len()
        invariant
            i <= chars.len(),
            r@ == chars@.take(i as int),
        decreases chars.len() - i,
    {
        push_char(&mut r, chars[i]);
        assert(r@ =~= chars@.take(i as int + 1));
        i = i + 1;
    }
    proof {
        assert(chars@.take(chars@.len() as int) =~= chars@);
    }
    r
}

/// Derives the name of the promoted branch from the commit subject: the
/// subject's words joined with underscores, stripped of every character
/// that is neither alphanumeric nor an underscore, lower-cased, and
/// prefixed with `stash/`.
pub fn derive_branch_name(subject: &str) -> (r: String)
    ensures
        r@ == spec_branch_name(subject@),
{
    let chars = chars_of(subject);
    let words = word_chars(&chars);
    let joined = join_words(&words);
    let sanitized = sanitize(&joined);
    let lowered = lowercase(&string_of(&sanitized));
    let mut r = String::from_str("stash/");
    r.append(lowered.as_str());
    r
}

} // verus!
