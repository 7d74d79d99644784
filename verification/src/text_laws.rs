//! What the text helpers, the portal's texts and the order of versions come to,
//! stated on the texts themselves.

use vstd::prelude::*;
use crate::api::{dependency_name, is_builtin, kind_of, mod_address, DependencyKind};
use crate::models::ReleaseView;
use crate::text::{
    before, before_first, decimal, is_white, last_at, lemma_words_are_words, repeated, split_last,
    text_lines, trim_end, trim_start, trimmed, words,
};
use crate::version::{newest, semver_greater, semver_parse, version_of, ModVersionView};

verus! {

/// Whether a text holds nothing but whitespace.
pub open spec fn all_white(s: Seq<char>) -> bool {
    forall|i: int| 0 <= i < s.len() ==> is_white(#[trigger] s[i])
}

/// Whether a text is a word: not empty and without whitespace.
pub open spec fn is_word(s: Seq<char>) -> bool {
    s.len() > 0 && forall|i: int| 0 <= i < s.len() ==> !is_white(#[trigger] s[i])
}

/// These characters are whitespace, and no others.
pub proof fn law_whitespace(c: char)
    ensures
        is_white(c) <==> seq![
            0x09int, 0x0a, 0x0b, 0x0c, 0x0d, 0x20, 0x85, 0xa0, 0x1680, 0x2000, 0x2001, 0x2002,
            0x2003, 0x2004, 0x2005, 0x2006, 0x2007, 0x2008, 0x2009, 0x200a, 0x2028, 0x2029, 0x202f,
            0x205f, 0x3000,
        ].contains(c as int),
{
    let all = seq![
        0x09int, 0x0a, 0x0b, 0x0c, 0x0d, 0x20, 0x85, 0xa0, 0x1680, 0x2000, 0x2001, 0x2002,
        0x2003, 0x2004, 0x2005, 0x2006, 0x2007, 0x2008, 0x2009, 0x200a, 0x2028, 0x2029, 0x202f,
        0x205f, 0x3000,
    ];
    let n = c as int;
    if is_white(c) {
        if n <= 0x0d {
            assert(all[n - 0x09] == n);
        } else if n == 0x20 {
            assert(all[5] == n);
        } else if n == 0x85 {
            assert(all[6] == n);
        } else if n == 0xa0 {
            assert(all[7] == n);
        } else if n == 0x1680 {
            assert(all[8] == n);
        } else if n <= 0x200a {
            assert(all[9 + n - 0x2000] == n);
        } else if n == 0x2028 {
            assert(all[20] == n);
        } else if n == 0x2029 {
            assert(all[21] == n);
        } else if n == 0x202f {
            assert(all[22] == n);
        } else if n == 0x205f {
            assert(all[23] == n);
        } else {
            assert(all[24] == n);
        }
    }
}

proof fn lemma_trim_start(pre: Seq<char>, rest: Seq<char>)
    requires
        all_white(pre),
        rest.len() == 0 || !is_white(rest[0]),
    ensures
        trim_start(pre + rest) == rest,
    decreases pre.len(),
{
    if pre.len() == 0 {
        assert(pre + rest =~= rest);
    } else {
        assert((pre + rest)[0] == pre[0]);
        assert((pre + rest).drop_first() =~= pre.drop_first() + rest);
        assert forall|i: int| 0 <= i < pre.drop_first().len() implies is_white(
            #[trigger] pre.drop_first()[i],
        ) by {
            assert(pre.drop_first()[i] == pre[i + 1]);
        }
        lemma_trim_start(pre.drop_first(), rest);
    }
}

proof fn lemma_trim_end(rest: Seq<char>, post: Seq<char>)
    requires
        all_white(post),
        rest.len() == 0 || !is_white(rest.last()),
    ensures
        trim_end(rest + post) == rest,
    decreases post.len(),
{
    if post.len() == 0 {
        assert(rest + post =~= rest);
    } else {
        assert((rest + post).last() == post.last());
        assert((rest + post).drop_last() =~= rest + post.drop_last());
        assert forall|i: int| 0 <= i < post.drop_last().len() implies is_white(
            #[trigger] post.drop_last()[i],
        ) by {
            assert(post.drop_last()[i] == post[i]);
        }
        lemma_trim_end(rest, post.drop_last());
    }
}

/// Trimming takes away the whitespace at both ends and nothing else.
pub proof fn law_trimmed(pre: Seq<char>, middle: Seq<char>, post: Seq<char>)
    requires
        all_white(pre),
        all_white(post),
        middle.len() > 0 ==> !is_white(middle[0]) && !is_white(middle.last()),
    ensures
        trimmed(pre + middle + post) == middle,
{
    if middle.len() == 0 {
        let all = pre + middle + post;
        assert(all + Seq::<char>::empty() =~= all);
        assert forall|i: int| 0 <= i < all.len() implies is_white(#[trigger] all[i]) by {
            if i < pre.len() {
                assert(all[i] == pre[i]);
            } else {
                assert(all[i] == post[i - pre.len()]);
            }
        }
        lemma_trim_start(all, Seq::empty());
        assert(trim_start(all) =~= Seq::<char>::empty());
        assert(middle =~= Seq::<char>::empty());
    } else {
        assert(pre + middle + post =~= pre + (middle + post));
        assert((middle + post)[0] == middle[0]);
        lemma_trim_start(pre, middle + post);
        lemma_trim_end(middle, post);
    }
}

/// A word is its own only word.
pub proof fn law_word(w: Seq<char>)
    requires
        is_word(w),
    ensures
        words(w) == seq![w],
    decreases w.len(),
{
    assert(!is_white(w[w.len() - 1]));
    if w.len() == 1 {
        assert(words(w.drop_last()) =~= Seq::<Seq<char>>::empty());
        assert(words(w) =~= seq![seq![w.last()]]);
        assert(seq![w.last()] =~= w);
    } else {
        let front = w.drop_last();
        assert forall|i: int| 0 <= i < front.len() implies !is_white(#[trigger] front[i]) by {
            assert(front[i] == w[i]);
        }
        law_word(front);
        assert(!is_white(w[w.len() - 2]));
        assert(front.push(w.last()) =~= w);
        assert(words(w) =~= seq![w]);
    }
}

/// Whitespace separates words: what stands before it and behind it has its own.
pub proof fn law_words_are_separated(a: Seq<char>, c: char, b: Seq<char>)
    requires
        is_white(c),
    ensures
        words(a + seq![c] + b) == words(a) + words(b),
    decreases b.len(),
{
    let s = a + seq![c] + b;
    if b.len() == 0 {
        assert(s.drop_last() =~= a);
        assert(s.last() == c);
        assert(words(a) + words(b) =~= words(a));
    } else {
        let front = b.drop_last();
        law_words_are_separated(a, c, front);
        assert(s.drop_last() =~= a + seq![c] + front);
        assert(s.last() == b.last());
        if b.len() >= 2 {
            assert(s[s.len() - 2] == b[b.len() - 2]);
            lemma_words_are_words(front);
            assert(front.last() == b[b.len() - 2]);
        } else {
            assert(s[s.len() - 2] == c);
        }
        assert(words(s) =~= words(a) + words(b));
    }
}

/// A dependency names its first word, such as `flib >= 0.12`; behind a marker
/// it names the next one, such as `? flib >= 0.12`; whitespace before it does not
/// count.
pub proof fn law_dependency_names(
    marker: Seq<char>,
    name: Seq<char>,
    c: char,
    d: char,
    rest: Seq<char>,
)
    requires
        marker == "?"@ || marker == "!"@ || marker == "~"@,
        is_word(name),
        is_white(c),
        is_white(d),
    ensures
        name != "?"@ && name != "!"@ && name != "~"@ ==> dependency_name(name) == Some(name)
            && dependency_name(name + seq![d] + rest) == Some(name),
        dependency_name(marker + seq![c] + name) == Some(name),
        dependency_name(marker + seq![c] + (name + seq![d] + rest)) == Some(name),
        dependency_name(marker) is None,
        dependency_name(seq![c] + rest) == dependency_name(rest),
{
    reveal_strlit("?");
    reveal_strlit("!");
    reveal_strlit("~");
    assert(is_word(marker));
    law_word(marker);
    law_word(name);
    law_words_are_separated(name, d, rest);
    law_words_are_separated(marker, c, name);
    law_words_are_separated(marker, c, name + seq![d] + rest);
    law_words_are_separated(Seq::empty(), c, rest);
    assert(Seq::<char>::empty() + seq![c] + rest =~= seq![c] + rest);
    assert(words(Seq::<char>::empty()) + words(rest) =~= words(rest));
    assert((words(name) + words(rest))[0] == name);
    assert((words(marker) + words(name))[0] == marker);
    assert((words(marker) + words(name))[1] == name);
    let three = words(marker) + (words(name) + words(rest));
    assert(three[0] == marker && three[1] == name);
}

proof fn lemma_trim_end_keeps(c: char, rest: Seq<char>)
    requires
        !is_white(c),
    ensures
        trim_end(seq![c] + rest).len() > 0,
        trim_end(seq![c] + rest)[0] == c,
    decreases rest.len(),
{
    let s = seq![c] + rest;
    if rest.len() == 0 {
        assert(s.last() == c);
    } else {
        assert(s.drop_last() =~= seq![c] + rest.drop_last());
        lemma_trim_end_keeps(c, rest.drop_last());
    }
}

/// The first character that is not whitespace tells how a dependency is meant:
/// `!` excludes, `?` is optional, anything else is required.
pub proof fn law_dependency_kinds(pre: Seq<char>, c: char, rest: Seq<char>)
    requires
        all_white(pre),
        !is_white(c),
    ensures
        kind_of(pre + seq![c] + rest) == DependencyKind::Incompatible <==> c == '!',
        kind_of(pre + seq![c] + rest) == DependencyKind::Optional <==> c == '?',
        kind_of(pre + seq![c] + rest) == DependencyKind::Required <==> c != '!' && c != '?',
{
    let s = seq![c] + rest;
    assert(pre + seq![c] + rest =~= pre + s);
    assert(s[0] == c);
    lemma_trim_start(pre, s);
    lemma_trim_end_keeps(c, rest);
}

/// Only these four mods come with the game.
pub proof fn law_built_in_mods(name: Seq<char>)
    ensures
        is_builtin(name) <==> name == "base"@ || name == "elevated-rails"@ || name == "quality"@
            || name == "space-age"@,
{
}

/// The portal is asked about a mod under its name.
pub proof fn law_mod_address(name: Seq<char>)
    ensures
        mod_address(name) == "https://mods.factorio.com/api/mods"@ + "/"@ + name + "/full"@,
{
}

proof fn lemma_last(s: Seq<char>, c: char, at: int)
    requires
        0 <= at < s.len(),
        s[at] == c,
        forall|i: int| at < i < s.len() ==> s[i] != c,
    ensures
        last_at(s, c) == at,
    decreases s.len(),
{
    if at < s.len() - 1 {
        lemma_last(s.drop_last(), c, at);
    }
}

proof fn lemma_no_last(s: Seq<char>, c: char)
    requires
        !s.contains(c),
    ensures
        last_at(s, c) < 0,
    decreases s.len(),
{
    if s.len() > 0 {
        assert(s[s.len() - 1] != c);
        assert forall|i: int| 0 <= i < s.drop_last().len() implies s.drop_last()[i] != c by {
            assert(s[i] != c);
        }
        lemma_no_last(s.drop_last(), c);
    }
}

/// A text is split at the last occurrence of a character, which goes to neither
/// side; without an occurrence it is not split.
pub proof fn law_split_last(a: Seq<char>, c: char, b: Seq<char>, s: Seq<char>)
    ensures
        !b.contains(c) ==> split_last(a + seq![c] + b, c) == Some((a, b)),
        !s.contains(c) ==> split_last(s, c) is None,
{
    if !b.contains(c) {
        let whole = a + seq![c] + b;
        assert forall|i: int| a.len() < i < whole.len() implies whole[i] != c by {
            assert(whole[i] == b[i - a.len() - 1]);
        }
        lemma_last(whole, c, a.len() as int);
        assert(whole.take(a.len() as int) =~= a);
        assert(whole.skip(a.len() as int + 1) =~= b);
    }
    if !s.contains(c) {
        lemma_no_last(s, c);
    }
}

/// The number that a text of digits stands for.
pub open spec fn value(s: Seq<char>) -> int
    decreases s.len(),
{
    if s.len() == 0 {
        0
    } else {
        10 * value(s.drop_last()) + (s.last() as int - 48)
    }
}

/// A number in decimal notation consists of digits, begins with zero only if it
/// is zero, and stands for the number.
pub proof fn law_decimal(n: nat)
    ensures
        value(decimal(n)) == n,
        decimal(n).len() > 0,
        forall|i: int| 0 <= i < decimal(n).len() ==> 48 <= (#[trigger] decimal(n)[i]) as int <= 57,
        n > 0 ==> decimal(n)[0] != '0',
    decreases n,
{
    if n < 10 {
        let s = decimal(n);
        assert(s.drop_last() =~= Seq::<char>::empty());
        assert(value(s.drop_last()) == 0);
        assert(s.last() as int == 48 + n);
    } else {
        law_decimal(n / 10);
        let s = decimal(n);
        assert(s.drop_last() =~= decimal(n / 10));
        assert(s.last() as int == 48 + n % 10);
        assert(s[0] == decimal(n / 10)[0]);
        assert forall|i: int| 0 <= i < s.len() implies 48 <= (#[trigger] s[i]) as int <= 57 by {
            if i < decimal(n / 10).len() {
                assert(s[i] == decimal(n / 10)[i]);
            }
        }
    }
}

/// A repeated character fills a text of that length.
pub proof fn law_repeated(c: char, n: nat)
    ensures
        repeated(c, n).len() == n,
        forall|i: int| 0 <= i < n ==> #[trigger] repeated(c, n)[i] == c,
{
}

/// In dictionary order the first difference decides, by code point, and a text
/// comes before what it begins.
pub proof fn law_first_difference_decides(
    p: Seq<char>,
    x: char,
    y: char,
    a: Seq<char>,
    b: Seq<char>,
)
    ensures
        x != y ==> (before(p + seq![x] + a, p + seq![y] + b) <==> (x as int) < (y as int)),
        before(p, p + seq![x] + a),
        !before(p + seq![x] + a, p),
    decreases p.len(),
{
    let l = p + seq![x] + a;
    let r = p + seq![y] + b;
    if p.len() == 0 {
        assert(l[0] == x && r[0] == y);
    } else {
        assert(l[0] == p[0] && r[0] == p[0]);
        assert(l.drop_first() =~= p.drop_first() + seq![x] + a);
        assert(r.drop_first() =~= p.drop_first() + seq![y] + b);
        law_first_difference_decides(p.drop_first(), x, y, a, b);
    }
}

proof fn lemma_before_first(a: Seq<char>, c: char, b: Seq<char>)
    requires
        !a.contains(c),
    ensures
        before_first(a + seq![c] + b, c) == a.len(),
        before_first(a, c) == a.len(),
    decreases a.len(),
{
    let s = a + seq![c] + b;
    if a.len() == 0 {
        assert(s[0] == c);
    } else {
        assert(a[0] != c);
        assert(s[0] == a[0]);
        assert(s.drop_first() =~= a.drop_first() + seq![c] + b);
        assert forall|i: int| 0 <= i < a.drop_first().len() implies a.drop_first()[i] != c by {
            assert(a[i + 1] != c);
        }
        lemma_before_first(a.drop_first(), c, b);
    }
}

/// A line feed ends a line and goes with a carriage return before it; the last
/// line needs none.
pub proof fn law_text_lines(a: Seq<char>, b: Seq<char>)
    requires
        !a.contains('\n'),
    ensures
        a.len() > 0 ==> text_lines(a) == seq![a],
        a.len() == 0 || a.last() != '\r' ==> text_lines(a + seq!['\n'] + b) == seq![a] + text_lines(
            b,
        ),
        text_lines(a + seq!['\r'] + seq!['\n'] + b) == seq![a] + text_lines(b),
{
    lemma_before_first(a, '\n', b);
    let s = a + seq!['\n'] + b;
    assert(s.take(a.len() as int) =~= a);
    assert(s.skip(a.len() as int + 1) =~= b);
    let r = a + seq!['\r'];
    assert forall|i: int| 0 <= i < r.len() implies r[i] != '\n' by {
        if i < a.len() {
            assert(a[i] != '\n');
        }
    }
    lemma_before_first(r, '\n', b);
    let t = r + seq!['\n'] + b;
    assert(t.take(r.len() as int) =~= r);
    assert(t.skip(r.len() as int + 1) =~= b);
    assert(r.drop_last() =~= a);
}

/// Whether version numbers are larger, the major number first.
pub open spec fn larger(a: ModVersionView, b: ModVersionView) -> bool {
    if a.major != b.major {
        a.major > b.major
    } else if a.minor != b.minor {
        a.minor > b.minor
    } else {
        a.patch > b.patch
    }
}

/// The version with the larger numbers is the newer one; of two with the same
/// numbers a full release is newer than a pre-release; no version is newer than
/// itself.
pub proof fn law_version_order(a: ModVersionView, b: ModVersionView)
    ensures
        larger(a, b) ==> semver_greater(a, b) && !semver_greater(b, a),
        !larger(a, b) && !larger(b, a) && a.pre.len() == 0 && b.pre.len() > 0 ==> semver_greater(
            a,
            b,
        ) && !semver_greater(b, a),
        !semver_greater(a, a),
{
}

/// No readable version of a list has larger numbers than the newest one, and
/// where others have the same numbers, the newest one is a full release if any
/// of them is.
pub proof fn law_newest_is_largest(list: Seq<ReleaseView>, j: int)
    requires
        newest(list) is Some,
        0 <= j < list.len(),
        semver_parse(list[j].version) is Ok,
    ensures
        0 <= newest(list)->0 < list.len(),
        semver_parse(list[newest(list)->0].version) is Ok,
        !larger(version_of(list[j]), version_of(list[newest(list)->0])),
        !larger(version_of(list[newest(list)->0]), version_of(list[j])) && version_of(
            list[j],
        ).pre.len() == 0 ==> version_of(list[newest(list)->0]).pre.len() == 0,
    decreases list.len(),
{
    let front = list.drop_last();
    crate::version::law_newest_exists(list);
    crate::version::law_newest_exists(front);
    if newest(front) is Some {
        assert(front[newest(front)->0] == list[newest(front)->0]);
    }
    if j < front.len() {
        assert(front[j] == list[j]);
        if newest(front) is None {
            assert(semver_parse(front[j].version) is Ok);
        } else {
            law_newest_is_largest(front, j);
        }
    }
}

} // verus!
