//! Text helpers: whitespace, words, splitting, decimal numbers and ordering,
//! all stated over sequences of characters.

use vstd::prelude::*;
use vstd::string::StrSliceExecFns;

verus! {

/// `String::push` appends one character.
pub assume_specification[ String::push ](s: &mut String, ch: char)
    ensures
        final(s)@ == old(s)@.push(ch),
;

/// `String::pop` removes the last character and hands it out; an empty string
/// stays empty and gives `None`.
pub assume_specification[ String::pop ](s: &mut String) -> (last: Option<char>)
    ensures
        old(s)@.len() == 0 ==> last is None && final(s)@ == old(s)@,
        old(s)@.len() > 0 ==> last == Some(old(s)@.last()) && final(s)@ == old(s)@.drop_last(),
;

/// The Unicode `White_Space` property.
pub open spec fn is_white(c: char) -> bool {
    ||| 0x09 <= c as u32 <= 0x0d
    ||| c as u32 == 0x20
    ||| c as u32 == 0x85
    ||| c as u32 == 0xa0
    ||| c as u32 == 0x1680
    ||| 0x2000 <= c as u32 <= 0x200a
    ||| c as u32 == 0x2028
    ||| c as u32 == 0x2029
    ||| c as u32 == 0x202f
    ||| c as u32 == 0x205f
    ||| c as u32 == 0x3000
}

/// Whether `c` is whitespace.
pub fn is_whitespace(c: char) -> (white: bool)
    ensures
        white == is_white(c),
{
    let code: u32 = c as u32;
    (0x09 <= code && code <= 0x0d) || code == 0x20 || code == 0x85 || code == 0xa0 || code == 0x1680
        || (0x2000 <= code && code <= 0x200a) || code == 0x2028 || code == 0x2029 || code == 0x202f
        || code == 0x205f || code == 0x3000
}

/// An owned copy of `s`.
pub fn owned(s: &str) -> (r: String)
    ensures
        r@ == s@,
{
    s.to_owned()
}

/// Whether two texts are the same.
pub fn same(a: &str, b: &str) -> (r: bool)
    ensures
        r == (a@ == b@),
{
    owned(a) == owned(b)
}

/// The characters of `s`.
pub fn to_chars(s: &str) -> (chars: Vec<char>)
    ensures
        chars@ == s@,
{
    let mut chars: Vec<char> = Vec::new();
    for c in it: s.chars()
        invariant
            it.seq() == s@,
            chars@ == s@.take(it.index() as int),
    {
        chars.push(c);
    }
    chars
}

/// The text from character `from` up to character `to`.
pub fn slice(s: &str, from: usize, to: usize) -> (r: String)
    requires
        from <= to <= s@.len(),
    ensures
        r@ == s@.subrange(from as int, to as int),
{
    s.substring_char(from, to).to_owned()
}

/// The contents of a list of strings.
pub open spec fn texts(list: Seq<String>) -> Seq<Seq<char>> {
    list.map_values(|s: String| s@)
}

/// Whether `list` holds `s`.
pub fn contains_text(list: &Vec<String>, s: &str) -> (found: bool)
    ensures
        found == texts(list@).contains(s@),
{
    for i in 0..list.len()
        invariant
            forall|j: int| 0 <= j < i ==> (#[trigger] texts(list@)[j]) != s@,
    {
        assert(texts(list@)[i as int] == list@[i as int]@);
        if same(list[i].as_str(), s) {
            return true;
        }
    }
    false
}

/// Putting a text behind a list adds it to what the list holds.
pub proof fn lemma_push_text(list: Seq<String>, s: String)
    ensures
        texts(list.push(s)) == texts(list).push(s@),
        texts(list.push(s)).to_set() == texts(list).to_set().insert(s@),
{
    let was = texts(list);
    let now = texts(list.push(s));
    assert(now =~= was.push(s@));
    assert forall|x: Seq<char>| now.to_set().contains(x) == was.to_set().insert(s@).contains(x) by {
        if now.contains(x) {
            let i = choose|i: int| 0 <= i < now.len() && now[i] == x;
            if i < was.len() {
                assert(was[i] == x);
            }
        }
        if was.contains(x) {
            let i = choose|i: int| 0 <= i < was.len() && was[i] == x;
            assert(now[i] == x);
        }
        assert(now[was.len() as int] == s@);
    }
    assert(now.to_set() =~= was.to_set().insert(s@));
}

/// A copy of a list of strings.
pub fn clone_texts(list: &Vec<String>) -> (r: Vec<String>)
    ensures
        texts(r@) == texts(list@),
{
    let mut r: Vec<String> = Vec::new();
    for i in 0..list.len()
        invariant
            texts(r@) == texts(list@.take(i as int)),
    {
        r.push(list[i].clone());
        assert(texts(list@.take(i + 1)) =~= texts(list@.take(i as int)).push(list@[i as int]@));
        assert(texts(r@) =~= texts(r@.drop_last()).push(list@[i as int]@));
        assert(r@.drop_last() =~= r@.take(i as int));
    }
    assert(list@.take(list@.len() as int) =~= list@);
    r
}

/// `s` without its leading whitespace.
pub open spec fn trim_start(s: Seq<char>) -> Seq<char>
    decreases s.len(),
{
    if s.len() > 0 && is_white(s[0]) {
        trim_start(s.drop_first())
    } else {
        s
    }
}

/// `s` without its trailing whitespace.
pub open spec fn trim_end(s: Seq<char>) -> Seq<char>
    decreases s.len(),
{
    if s.len() > 0 && is_white(s.last()) {
        trim_end(s.drop_last())
    } else {
        s
    }
}

/// `s` without the whitespace at either end.
pub open spec fn trimmed(s: Seq<char>) -> Seq<char> {
    trim_end(trim_start(s))
}

/// Removes the whitespace at either end.
pub fn trim(s: &str) -> (r: String)
    ensures
        r@ == trimmed(s@),
{
    let chars: Vec<char> = to_chars(s);
    let n: usize = chars.len();
    let mut from: usize = 0;
    assert(s@.subrange(0, n as int) =~= s@);
    while from < n && is_whitespace(chars[from])
        invariant
            n == chars@.len(),
            chars@ == s@,
            from <= n,
            trim_start(s@) == trim_start(s@.subrange(from as int, n as int)),
        decreases n - from,
    {
        assert(s@.subrange(from as int, n as int).drop_first() =~= s@.subrange(
            from + 1,
            n as int,
        ));
        from = from + 1;
    }
    let ghost kept = s@.subrange(from as int, n as int);
    assert(trim_start(s@) == kept);
    let mut to: usize = n;
    while from < to && is_whitespace(chars[to - 1])
        invariant
            n == chars@.len(),
            chars@ == s@,
            from <= to <= n,
            trim_end(kept) == trim_end(s@.subrange(from as int, to as int)),
        decreases to,
    {
        assert(s@.subrange(from as int, to as int).drop_last() =~= s@.subrange(
            from as int,
            to - 1,
        ));
        to = to - 1;
    }
    slice(s, from, to)
}

/// The words of `s`: its longest runs of characters other than whitespace, in
/// order.
pub open spec fn words(s: Seq<char>) -> Seq<Seq<char>>
    decreases s.len(),
{
    if s.len() == 0 {
        Seq::empty()
    } else {
        let before = words(s.drop_last());
        let c = s.last();
        if is_white(c) {
            before
        } else if s.len() >= 2 && !is_white(s[s.len() - 2]) {
            before.drop_last().push(before.last().push(c))
        } else {
            before.push(seq![c])
        }
    }
}

/// Words are never empty and hold no whitespace.
pub proof fn lemma_words_are_words(s: Seq<char>)
    ensures
        forall|i: int| 0 <= i < words(s).len() ==> (#[trigger] words(s)[i]).len() > 0,
        forall|i: int, j: int|
            0 <= i < words(s).len() && 0 <= j < words(s)[i].len() ==> !is_white(
                #[trigger] words(s)[i][j],
            ),
        s.len() > 0 && !is_white(s.last()) ==> words(s).len() > 0,
    decreases s.len(),
{
    if s.len() > 0 {
        let front = s.drop_last();
        lemma_words_are_words(front);
        let joins = s.len() >= 2 && !is_white(s[s.len() - 2]);
        assert(joins ==> front.last() == s[s.len() - 2] && words(front).len() > 0);
        assert forall|i: int| 0 <= i < words(s).len() implies (#[trigger] words(s)[i]).len() > 0 by {
            if i < words(front).len() {
                assert(words(front)[i].len() > 0);
            }
        }
        assert forall|i: int, j: int|
            0 <= i < words(s).len() && 0 <= j < words(s)[i].len() implies !is_white(
            #[trigger] words(s)[i][j],
        ) by {
            if i < words(front).len() && j < words(front)[i].len() {
                assert(!is_white(words(front)[i][j]));
            }
        }
    }
}

/// Splits `s` at whitespace.
pub fn split_words(s: &str) -> (r: Vec<String>)
    ensures
        texts(r@) == words(s@),
{
    let chars: Vec<char> = to_chars(s);
    let mut r: Vec<String> = Vec::new();
    assert(texts(r@) =~= words(s@.take(0)));
    for i in 0..chars.len()
        invariant
            chars@ == s@,
            texts(r@) == words(s@.take(i as int)),
    {
        let c: char = chars[i];
        proof {
            assert(s@.take(i + 1).drop_last() =~= s@.take(i as int));
            lemma_words_are_words(s@.take(i as int));
        }
        if !is_whitespace(c) {
            if i > 0 && !is_whitespace(chars[i - 1]) {
                assert(texts(r@).len() > 0);
                let ghost before = r@;
                match r.pop() {
                    Some(mut word) => {
                        word.push(c);
                        r.push(word);
                    },
                    None => {},
                }
                assert(texts(r@) =~= texts(before).drop_last().push(texts(before).last().push(c)));
            } else {
                let mut word: String = String::new();
                word.push(c);
                let ghost before = r@;
                r.push(word);
                assert(texts(r@) =~= texts(before).push(seq![c]));
            }
        }
    }
    assert(s@.take(s@.len() as int) =~= s@);
    r
}

/// How many characters of `s` stand before the first `c`, or how many there are
/// if it does not occur.
pub open spec fn before_first(s: Seq<char>, c: char) -> nat
    decreases s.len(),
{
    if s.len() == 0 || s[0] == c {
        0
    } else {
        1 + before_first(s.drop_first(), c)
    }
}

/// `s` without a carriage return at its end.
pub open spec fn without_return(s: Seq<char>) -> Seq<char> {
    if s.len() > 0 && s.last() == '\r' {
        s.drop_last()
    } else {
        s
    }
}

/// The lines of `s`: they end with a line feed, before which a carriage return
/// may stand; the last one may lack it.
pub open spec fn text_lines(s: Seq<char>) -> Seq<Seq<char>>
    decreases s.len(),
{
    let at = before_first(s, '\n');
    if s.len() == 0 {
        Seq::empty()
    } else if at >= s.len() {
        seq![s]
    } else {
        seq![without_return(s.take(at as int))] + text_lines(s.skip((at + 1) as int))
    }
}

/// Splits `s` into its lines.
pub fn split_lines(s: &str) -> (r: Vec<String>)
    ensures
        texts(r@) == text_lines(s@),
{
    let chars: Vec<char> = to_chars(s);
    let n: usize = chars.len();
    let mut r: Vec<String> = Vec::new();
    let mut from: usize = 0;
    assert(s@.skip(0) =~= s@);
    assert(texts(r@) + text_lines(s@) =~= text_lines(s@));
    while from < n
        invariant
            n == chars@.len(),
            chars@ == s@,
            from <= n,
            texts(r@) + text_lines(s@.skip(from as int)) == text_lines(s@),
        decreases n - from,
    {
        let ghost rest = s@.skip(from as int);
        let mut to: usize = from;
        while to < n && chars[to] != '\n'
            invariant
                n == chars@.len(),
                chars@ == s@,
                from <= to <= n,
                rest == s@.skip(from as int),
                before_first(rest, '\n') == to - from + before_first(s@.skip(to as int), '\n'),
            decreases n - to,
        {
            assert(s@.skip(to as int)[0] == chars@[to as int]);
            assert(s@.skip(to as int).drop_first() =~= s@.skip(to + 1));
            to = to + 1;
        }
        let ghost was = texts(r@);
        if to == n {
            assert(before_first(rest, '\n') == rest.len());
            r.push(slice(s, from, n));
            assert(s@.subrange(from as int, n as int) =~= rest);
            assert(texts(r@) =~= was + seq![rest]);
            assert(s@.skip(n as int) =~= Seq::<char>::empty());
            assert(texts(r@) + text_lines(s@.skip(n as int)) =~= was + text_lines(rest));
            from = n;
        } else {
            assert(s@.skip(to as int)[0] == '\n');
            let at: usize = to;
            let end: usize = if at > from && chars[at - 1] == '\r' {
                at - 1
            } else {
                at
            };
            r.push(slice(s, from, end));
            proof {
                let line = rest.take(at - from);
                assert(line =~= s@.subrange(from as int, at as int));
                assert(without_return(line) =~= s@.subrange(from as int, end as int));
                assert(rest.skip(at - from + 1) =~= s@.skip(at + 1));
                assert(texts(r@) =~= was.push(without_return(line)));
                assert(texts(r@) + text_lines(s@.skip(at + 1)) =~= was + text_lines(rest));
            }
            from = at + 1;
        }
    }
    assert(s@.skip(n as int) =~= Seq::<char>::empty());
    assert(texts(r@) + text_lines(s@.skip(n as int)) =~= texts(r@));
    r
}

/// Where `c` occurs last in `s`, or -1.
pub open spec fn last_at(s: Seq<char>, c: char) -> int
    decreases s.len(),
{
    if s.len() == 0 {
        -1
    } else if s.last() == c {
        s.len() - 1
    } else {
        last_at(s.drop_last(), c)
    }
}

/// What stands before and after the last `c` of `s`.
pub open spec fn split_last(s: Seq<char>, c: char) -> Option<(Seq<char>, Seq<char>)> {
    let at = last_at(s, c);
    if at < 0 {
        None
    } else {
        Some((s.take(at), s.skip(at + 1)))
    }
}

/// Splits `s` at the last occurrence of `c`.
pub fn rsplit_once(s: &str, c: char) -> (r: Option<(String, String)>)
    ensures
        r is Some <==> split_last(s@, c) is Some,
        r matches Some(parts) ==> split_last(s@, c) == Some((parts.0@, parts.1@)),
{
    let chars: Vec<char> = to_chars(s);
    let n: usize = chars.len();
    let mut i: usize = n;
    assert(s@.take(n as int) =~= s@);
    while i > 0
        invariant
            n == chars@.len(),
            chars@ == s@,
            i <= n,
            last_at(s@, c) == last_at(s@.take(i as int), c),
        decreases i,
    {
        assert(s@.take(i as int).drop_last() =~= s@.take(i - 1));
        if chars[i - 1] == c {
            return Some((slice(s, 0, i - 1), slice(s, i, n)));
        }
        i = i - 1;
    }
    None
}

/// The digit that stands for `d`.
pub open spec fn digit(d: nat) -> char {
    (48 + d) as char
}

/// `n` in decimal notation.
pub open spec fn decimal(n: nat) -> Seq<char>
    decreases n,
{
    if n < 10 {
        seq![digit(n)]
    } else {
        decimal(n / 10).push(digit(n % 10))
    }
}

/// Writes `n` in decimal notation.
pub fn decimal_text(n: usize) -> (r: String)
    ensures
        r@ == decimal(n as nat),
    decreases n,
{
    let last: char = (48u8 + (n % 10) as u8) as char;
    if n < 10 {
        let mut r: String = String::new();
        r.push(last);
        r
    } else {
        let mut r: String = decimal_text(n / 10);
        r.push(last);
        r
    }
}

/// `n` times the character `c`.
pub open spec fn repeated(c: char, n: nat) -> Seq<char> {
    Seq::new(n, |i: int| c)
}

/// Writes `c` `n` times.
pub fn repeat(c: char, n: usize) -> (r: String)
    ensures
        r@ == repeated(c, n as nat),
{
    let mut r: String = String::new();
    for i in 0..n
        invariant
            r@ == repeated(c, i as nat),
    {
        r.push(c);
    }
    r
}

/// Dictionary order by code point: whether `a` comes strictly before `b`.
pub open spec fn before(a: Seq<char>, b: Seq<char>) -> bool
    decreases a.len(),
{
    if b.len() == 0 {
        false
    } else if a.len() == 0 {
        true
    } else if a[0] == b[0] {
        before(a.drop_first(), b.drop_first())
    } else {
        (a[0] as int) < (b[0] as int)
    }
}

/// Whether `a` comes strictly before `b` in dictionary order.
pub fn comes_before(a: &str, b: &str) -> (r: bool)
    ensures
        r == before(a@, b@),
{
    let left: Vec<char> = to_chars(a);
    let right: Vec<char> = to_chars(b);
    let mut i: usize = 0;
    assert(a@.skip(0) =~= a@);
    assert(b@.skip(0) =~= b@);
    while i < left.len() && i < right.len() && left[i] == right[i]
        invariant
            left@ == a@,
            right@ == b@,
            i <= left@.len(),
            i <= right@.len(),
            before(a@, b@) == before(a@.skip(i as int), b@.skip(i as int)),
        decreases left@.len() - i,
    {
        assert(a@.skip(i as int).drop_first() =~= a@.skip(i + 1));
        assert(b@.skip(i as int).drop_first() =~= b@.skip(i + 1));
        i = i + 1;
    }
    if i == right.len() {
        false
    } else if i == left.len() {
        true
    } else {
        let l: char = left[i];
        let r: char = right[i];
        proof {
            vstd::utf8::char_is_scalar(l);
            vstd::utf8::char_is_scalar(r);
            vstd::utf8::char_u32_cast(l, l as u32);
            vstd::utf8::char_u32_cast(r, r as u32);
        }
        (l as u32) < (r as u32)
    }
}

/// Dictionary order is a strict total order: nothing comes before itself, two
/// different texts are ordered one way and not the other, and the order is
/// transitive.
pub proof fn law_dictionary_order(a: Seq<char>, b: Seq<char>, c: Seq<char>)
    ensures
        !before(a, a),
        a == b || before(a, b) || before(b, a),
        !(before(a, b) && before(b, a)),
        before(a, b) && before(b, c) ==> before(a, c),
    decreases a.len(),
{
    if a.len() > 0 && b.len() > 0 {
        law_dictionary_order(a.drop_first(), b.drop_first(), c.drop_first());
        if a[0] == b[0] && a.drop_first() == b.drop_first() {
            assert(a =~= seq![a[0]] + a.drop_first());
            assert(b =~= seq![b[0]] + b.drop_first());
        }
    } else {
        if a.len() == 0 && b.len() == 0 {
            assert(a =~= b);
        }
        if a.len() > 0 {
            law_dictionary_order(a.drop_first(), a.drop_first(), a.drop_first());
        }
    }
}

} // verus!
