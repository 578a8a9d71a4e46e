//! Text primitives: decimal rendering, Unicode white space, splitting into
//! words and joining with a separator.

use vstd::prelude::*;

verus! {

/// The ASCII digit for `d` (`d < 10`).
pub open spec fn digit_char(d: nat) -> char {
    seq!['0', '1', '2', '3', '4', '5', '6', '7', '8', '9'][d as int]
}

/// Decimal rendering of a natural number, without leading zeros.
pub open spec fn decimal(n: nat) -> Seq<char>
    decreases n,
{
    if n < 10 {
        seq![digit_char(n)]
    } else {
        decimal(n / 10).push(digit_char(n % 10))
    }
}

/// Decimal rendering of an integer, with a leading `-` when negative.
pub open spec fn signed_decimal(n: int) -> Seq<char> {
    if n < 0 {
        seq!['-'] + decimal((-n) as nat)
    } else {
        decimal(n as nat)
    }
}

fn digit_text(d: u64) -> (s: &'static str)
    requires
        d < 10,
    ensures
        s@ == seq![digit_char(d as nat)],
{
    let s = match d {
        0 => "0",
        1 => "1",
        2 => "2",
        3 => "3",
        4 => "4",
        5 => "5",
        6 => "6",
        7 => "7",
        8 => "8",
        _ => "9",
    };
    proof {
        reveal_strlit("0");
        reveal_strlit("1");
        reveal_strlit("2");
        reveal_strlit("3");
        reveal_strlit("4");
        reveal_strlit("5");
        reveal_strlit("6");
        reveal_strlit("7");
        reveal_strlit("8");
        reveal_strlit("9");
    }
    assert(s@ =~= seq![digit_char(d as nat)]);
    s
}

fn append_decimal(out: &mut String, n: u64)
    ensures
        final(out)@ == old(out)@ + decimal(n as nat),
    decreases n,
{
    if n >= 10 {
        append_decimal(out, n / 10);
    }
    out.append(digit_text(n % 10));
    assert(final(out)@ =~= old(out)@ + decimal(n as nat));
}

/// Renders an unsigned number in decimal.
pub fn unsigned_text(n: u64) -> (s: String)
    ensures
        s@ == decimal(n as nat),
{
    let mut s = String::new();
    append_decimal(&mut s, n);
    assert(s@ =~= decimal(n as nat));
    s
}

/// Renders a signed number in decimal.
pub fn signed_text(n: i64) -> (s: String)
    ensures
        s@ == signed_decimal(n as int),
{
    let mut s = String::new();
    if n < 0 {
        s.append("-");
        proof {
            reveal_strlit("-");
        }
        let magnitude: u64 = if n == i64::MIN {
            9223372036854775808u64
        } else {
            (-n) as u64
        };
        append_decimal(&mut s, magnitude);
    } else {
        append_decimal(&mut s, n as u64);
    }
    assert(s@ =~= signed_decimal(n as int));
    s
}


/// The Unicode `White_Space` property, which is what `char::is_whitespace`
/// tests.
pub open spec fn is_white_space(c: char) -> bool {
    let u = c as u32;
    ||| 0x09 <= u <= 0x0D
    ||| u == 0x20
    ||| u == 0x85
    ||| u == 0xA0
    ||| u == 0x1680
    ||| 0x2000 <= u <= 0x200A
    ||| u == 0x2028
    ||| u == 0x2029
    ||| u == 0x202F
    ||| u == 0x205F
    ||| u == 0x3000
}

/// Tests a character for Unicode white space.
pub fn white_space(c: char) -> (b: bool)
    ensures
        b == is_white_space(c),
{
    let u = c as u32;
    (0x09 <= u && u <= 0x0D) || u == 0x20 || u == 0x85 || u == 0xA0 || u == 0x1680 || (0x2000
        <= u && u <= 0x200A) || u == 0x2028 || u == 0x2029 || u == 0x202F || u == 0x205F || u
        == 0x3000
}

/// The words of `s` that remain after `cur`, a word already begun: maximal
/// runs of characters that are not white space, in order.
pub open spec fn words_after(s: Seq<char>, cur: Seq<char>) -> Seq<Seq<char>>
    decreases s.len(),
{
    if s.len() == 0 {
        if cur.len() == 0 {
            seq![]
        } else {
            seq![cur]
        }
    } else if is_white_space(s[0]) {
        if cur.len() == 0 {
            words_after(s.drop_first(), cur)
        } else {
            seq![cur] + words_after(s.drop_first(), seq![])
        }
    } else {
        words_after(s.drop_first(), cur.push(s[0]))
    }
}

/// The words of `s`, as `str::split_whitespace` yields them.
pub open spec fn words(s: Seq<char>) -> Seq<Seq<char>> {
    words_after(s, seq![])
}

/// The character sequences that a vector of strings holds.
pub open spec fn texts(v: Seq<String>) -> Seq<Seq<char>> {
    v.map_values(|w: String| w@)
}

/// Splits `s` into its words.
pub fn split_whitespace(s: &str) -> (ws: Vec<String>)
    ensures
        texts(ws@) == words(s@),
{
    let n = s.unicode_len();
    let mut out: Vec<String> = Vec::new();
    let mut start: usize = 0;
    let mut i: usize = 0;
    assert(s@.skip(0) =~= s@);
    assert(s@.subrange(0, 0) =~= Seq::<char>::empty());
    while i < n
        invariant
            n == s@.len(),
            start <= i <= n,
            words(s@) == texts(out@) + words_after(s@.skip(i as int), s@.subrange(
                start as int,
                i as int,
            )),
        decreases n - i,
    {
        let c = s.get_char(i);
        let ghost rest = s@.skip(i as int);
        let ghost cur = s@.subrange(start as int, i as int);
        assert(rest.drop_first() =~= s@.skip(i + 1));
        assert(rest[0] == c);
        if white_space(c) {
            if start < i {
                let w = s.substring_char(start, i).to_owned();
                let ghost before = out@;
                out.push(w);
                assert(texts(out@) =~= texts(before).push(cur));
                assert(s@.subrange(i + 1, i + 1) =~= Seq::<char>::empty());
                assert(seq![cur] + words_after(rest.drop_first(), seq![]) =~= seq![cur]
                    + words_after(s@.skip(i + 1), s@.subrange(i + 1, i + 1)));
                assert(texts(before) + (seq![cur] + words_after(s@.skip(i + 1), s@.subrange(
                    i + 1,
                    i + 1,
                ))) =~= texts(out@) + words_after(s@.skip(i + 1), s@.subrange(i + 1, i + 1)));
            } else {
                assert(cur =~= s@.subrange(i + 1, i + 1));
            }
            i = i + 1;
            start = i;
        } else {
            assert(cur.push(c) =~= s@.subrange(start as int, i + 1));
            i = i + 1;
        }
    }
    let ghost cur = s@.subrange(start as int, n as int);
    assert(s@.skip(n as int).len() == 0);
    if start < n {
        let w = s.substring_char(start, n).to_owned();
        let ghost before = out@;
        out.push(w);
        assert(texts(out@) =~= texts(before).push(cur));
        assert(texts(before) + seq![cur] =~= texts(out@));
    } else {
        assert(texts(out@) + Seq::<Seq<char>>::empty() =~= texts(out@));
    }
    out
}


/// The texts of `ws`, with `sep` between each two neighbours.
pub open spec fn join(ws: Seq<Seq<char>>, sep: Seq<char>) -> Seq<char>
    decreases ws.len(),
{
    if ws.len() == 0 {
        seq![]
    } else if ws.len() == 1 {
        ws[0]
    } else {
        join(ws.drop_last(), sep) + sep + ws.last()
    }
}

/// Joins the strings of `ws` with `sep` between each two neighbours.
pub fn join_texts(ws: &Vec<String>, sep: &str) -> (s: String)
    ensures
        s@ == join(texts(ws@), sep@),
{
    let mut s = String::new();
    let n = ws.len();
    let mut i: usize = 0;
    assert(texts(ws@).take(0) =~= Seq::<Seq<char>>::empty());
    while i < n
        invariant
            n == ws@.len(),
            i <= n,
            s@ == join(texts(ws@).take(i as int), sep@),
        decreases n - i,
    {
        let ghost prefix = texts(ws@).take(i + 1);
        assert(prefix.drop_last() =~= texts(ws@).take(i as int));
        if i > 0 {
            s.append(sep);
        } else {
            assert(s@ + ws@[0]@ =~= ws@[0]@);
        }
        s.append(ws[i].as_str());
        i = i + 1;
    }
    assert(texts(ws@).take(n as int) =~= texts(ws@));
    s
}


/// A word: a non-empty text with no white space in it.
pub open spec fn is_word(w: Seq<char>) -> bool {
    &&& w.len() > 0
    &&& forall|k: int| 0 <= k < w.len() ==> !is_white_space(#[trigger] w[k])
}

proof fn lemma_words_after_space(a: Seq<char>, b: Seq<char>, cur: Seq<char>)
    ensures
        words_after(a + seq![' '] + b, cur) == words_after(a, cur) + words_after(b, seq![]),
    decreases a.len(),
{
    let s = a + seq![' '] + b;
    if a.len() == 0 {
        assert(s =~= seq![' '] + b);
        assert(s.drop_first() =~= b);
        assert(is_white_space(' '));
        assert(s[0] == ' ');
        if cur.len() == 0 {
            assert(cur =~= Seq::<char>::empty());
            assert(Seq::<Seq<char>>::empty() + words_after(b, seq![]) =~= words_after(b, seq![]));
        }
    } else {
        assert(s.drop_first() =~= a.drop_first() + seq![' '] + b);
        assert(s[0] == a[0]);
        if is_white_space(a[0]) {
            lemma_words_after_space(a.drop_first(), b, cur);
            if cur.len() != 0 {
                lemma_words_after_space(a.drop_first(), b, seq![]);
                assert(seq![cur] + (words_after(a.drop_first(), seq![]) + words_after(b, seq![]))
                    =~= (seq![cur] + words_after(a.drop_first(), seq![])) + words_after(b, seq![]));
            }
        } else {
            lemma_words_after_space(a.drop_first(), b, cur.push(a[0]));
        }
    }
}

proof fn lemma_words_after_word(w: Seq<char>, cur: Seq<char>)
    requires
        forall|k: int| 0 <= k < w.len() ==> !is_white_space(#[trigger] w[k]),
        w.len() > 0 || cur.len() > 0,
    ensures
        words_after(w, cur) == seq![cur + w],
    decreases w.len(),
{
    if w.len() == 0 {
        assert(cur + w =~= cur);
    } else {
        assert(!is_white_space(w[0]));
        let rest = w.drop_first();
        assert forall|k: int| 0 <= k < rest.len() implies !is_white_space(#[trigger] rest[k]) by {
            assert(rest[k] == w[k + 1]);
        }
        lemma_words_after_word(rest, cur.push(w[0]));
        assert(cur.push(w[0]) + rest =~= cur + w);
    }
}

/// Splitting texts that were joined with single spaces gives the texts back,
/// provided each of them is a word.
pub proof fn lemma_split_of_joined(ws: Seq<Seq<char>>)
    requires
        forall|i: int| 0 <= i < ws.len() ==> is_word(#[trigger] ws[i]),
    ensures
        words(join(ws, seq![' '])) == ws,
    decreases ws.len(),
{
    if ws.len() == 0 {
        assert(words(join(ws, seq![' '])) =~= ws);
    } else if ws.len() == 1 {
        assert(is_word(ws[0]));
        lemma_words_after_word(ws[0], seq![]);
        assert(Seq::<char>::empty() + ws[0] =~= ws[0]);
        assert(seq![ws[0]] =~= ws);
    } else {
        let init = ws.drop_last();
        assert forall|i: int| 0 <= i < init.len() implies is_word(#[trigger] init[i]) by {
            assert(init[i] == ws[i]);
        }
        lemma_split_of_joined(init);
        lemma_words_after_space(join(init, seq![' ']), ws.last(), seq![]);
        assert(is_word(ws[ws.len() - 1]));
        lemma_words_after_word(ws.last(), seq![]);
        assert(Seq::<char>::empty() + ws.last() =~= ws.last());
        assert(init + seq![ws.last()] =~= ws);
    }
}


/// Compares two strings character by character.
pub fn same_text(a: &str, b: &str) -> (eq: bool)
    ensures
        eq == (a@ == b@),
{
    let n = a.unicode_len();
    if n != b.unicode_len() {
        return false;
    }
    let mut i: usize = 0;
    while i < n
        invariant
            n == a@.len(),
            n == b@.len(),
            i <= n,
            forall|k: int| 0 <= k < i ==> a@[k] == b@[k],
        decreases n - i,
    {
        if a.get_char(i) != b.get_char(i) {
            return false;
        }
        i = i + 1;
    }
    assert(a@ =~= b@);
    true
}


/// The character sequences that a slice of string slices holds.
pub open spec fn str_texts(v: Seq<&str>) -> Seq<Seq<char>> {
    v.map_values(|w: &str| w@)
}

/// Copies each string slice into an owned string.
pub fn to_owned_all(v: &[&str]) -> (owned: Vec<String>)
    ensures
        texts(owned@) == str_texts(v@),
{
    let mut owned: Vec<String> = Vec::new();
    let n = v.len();
    let mut i: usize = 0;
    while i < n
        invariant
            n == v@.len(),
            i <= n,
            texts(owned@) == str_texts(v@).take(i as int),
        decreases n - i,
    {
        let ghost before = owned@;
        owned.push(v[i].to_owned());
        assert(texts(owned@) =~= texts(before).push(v@[i as int]@));
        assert(str_texts(v@).take(i + 1) =~= str_texts(v@).take(i as int).push(v@[i as int]@));
        i = i + 1;
    }
    assert(str_texts(v@).take(n as int) =~= str_texts(v@));
    owned
}


/// A decimal rendering is a word.
pub proof fn lemma_decimal_is_word(n: nat)
    ensures
        is_word(decimal(n)),
    decreases n,
{
    let d = seq!['0', '1', '2', '3', '4', '5', '6', '7', '8', '9'];
    assert forall|k: int| 0 <= k < 10 implies !is_white_space(#[trigger] d[k]) by {}
    if n >= 10 {
        lemma_decimal_is_word(n / 10);
    }
    let s = decimal(n);
    assert forall|k: int| 0 <= k < s.len() implies !is_white_space(#[trigger] s[k]) by {
        if n >= 10 && k < s.len() - 1 {
            assert(s[k] == decimal(n / 10)[k]);
        }
    }
}

/// A signed decimal rendering is a word.
pub proof fn lemma_signed_decimal_is_word(n: int)
    ensures
        is_word(signed_decimal(n)),
{
    if n < 0 {
        let m = decimal((-n) as nat);
        lemma_decimal_is_word((-n) as nat);
        let s = signed_decimal(n);
        assert forall|k: int| 0 <= k < s.len() implies !is_white_space(#[trigger] s[k]) by {
            if k > 0 {
                assert(s[k] == m[k - 1]);
            }
        }
    } else {
        lemma_decimal_is_word(n as nat);
    }
}

proof fn lemma_words_after_are_words(s: Seq<char>, cur: Seq<char>)
    requires
        forall|k: int| 0 <= k < cur.len() ==> !is_white_space(#[trigger] cur[k]),
    ensures
        forall|i: int|
            0 <= i < words_after(s, cur).len() ==> is_word(#[trigger] words_after(s, cur)[i]),
    decreases s.len(),
{
    if s.len() == 0 {
        if cur.len() > 0 {
            assert(is_word(cur));
            assert(words_after(s, cur) =~= seq![cur]);
        }
    } else if is_white_space(s[0]) {
        lemma_words_after_are_words(s.drop_first(), seq![]);
        if cur.len() == 0 {
            lemma_words_after_are_words(s.drop_first(), cur);
            assert(words_after(s, cur) == words_after(s.drop_first(), cur));
        } else {
            let rest = words_after(s.drop_first(), seq![]);
            assert forall|i: int| 0 <= i < (seq![cur] + rest).len() implies is_word(
                #[trigger] (seq![cur] + rest)[i],
            ) by {
                if i > 0 {
                    assert((seq![cur] + rest)[i] == rest[i - 1]);
                }
            }
            assert(words_after(s, cur) == seq![cur] + rest);
        }
    } else {
        let next = cur.push(s[0]);
        assert forall|k: int| 0 <= k < next.len() implies !is_white_space(#[trigger] next[k]) by {
            if k < cur.len() {
                assert(next[k] == cur[k]);
            }
        }
        lemma_words_after_are_words(s.drop_first(), next);
        assert(words_after(s, cur) == words_after(s.drop_first(), next));
    }
}

/// Each of the words of a text is a word: non-empty, without white space.
pub proof fn lemma_words_are_words(s: Seq<char>)
    ensures
        forall|i: int| 0 <= i < words(s).len() ==> is_word(#[trigger] words(s)[i]),
{
    lemma_words_after_are_words(s, seq![]);
}

/// Joining a text in front of others puts the separator after it.
pub proof fn lemma_join_prepend(w: Seq<char>, ws: Seq<Seq<char>>, sep: Seq<char>)
    requires
        ws.len() > 0,
    ensures
        join(seq![w] + ws, sep) == w + sep + join(ws, sep),
    decreases ws.len(),
{
    let all = seq![w] + ws;
    if ws.len() == 1 {
        assert(all.drop_last() =~= seq![w]);
        assert(all.last() == ws[0]);
        assert(join(seq![w], sep) == w);
        assert(join(ws, sep) == ws[0]);
        assert(join(all, sep) == join(all.drop_last(), sep) + sep + all.last());
    } else {
        assert(all.drop_last() =~= seq![w] + ws.drop_last());
        lemma_join_prepend(w, ws.drop_last(), sep);
        assert(all.last() == ws.last());
        assert(w + sep + join(ws.drop_last(), sep) + sep + ws.last() =~= w + sep + (join(
            ws.drop_last(),
            sep,
        ) + sep + ws.last()));
    }
}


proof fn lemma_words_after_nonempty(s: Seq<char>, cur: Seq<char>)
    requires
        cur.len() > 0 || (s.len() > 0 && !is_white_space(s[0])),
    ensures
        words_after(s, cur).len() >= 1,
    decreases s.len(),
{
    if s.len() > 0 && !is_white_space(s[0]) {
        lemma_words_after_nonempty(s.drop_first(), cur.push(s[0]));
    }
}

/// A word, a space, then a text that begins with a character other than
/// white space: that splits into at least two words, the first being `w`.
pub proof fn lemma_words_of_word_then_text(w: Seq<char>, rest: Seq<char>)
    requires
        is_word(w),
        rest.len() > 0,
        !is_white_space(rest[0]),
    ensures
        words(w + seq![' '] + rest).len() >= 2,
        words(w + seq![' '] + rest)[0] == w,
{
    lemma_words_after_space(w, rest, seq![]);
    lemma_words_after_word(w, seq![]);
    assert(Seq::<char>::empty() + w =~= w);
    lemma_words_after_nonempty(rest, seq![]);
}


/// Whether `part` occurs in `s` as a contiguous piece.
pub open spec fn contains_text(s: Seq<char>, part: Seq<char>) -> bool {
    exists|i: int| 0 <= i <= s.len() - part.len() && #[trigger] s.subrange(i, i + part.len()) == part
}


/// The number that a text of decimal digits spells, most significant first.
pub open spec fn digits_value(s: Seq<char>) -> int
    decreases s.len(),
{
    if s.len() == 0 {
        0
    } else {
        digits_value(s.drop_last()) * 10 + (s.last() as int - '0' as int)
    }
}

/// Whether `c` is one of the ASCII digits `0` to `9`.
pub open spec fn is_ascii_digit(c: char) -> bool {
    '0' as int <= c as int <= '9' as int
}

proof fn lemma_digit_char(d: nat)
    requires
        d < 10,
    ensures
        digit_char(d) as int == '0' as int + d,
{
    if d == 0 {
    } else if d == 1 {
    } else if d == 2 {
    } else if d == 3 {
    } else if d == 4 {
    } else if d == 5 {
    } else if d == 6 {
    } else if d == 7 {
    } else if d == 8 {
    } else {
    }
}

/// The decimal rendering of `n` is made of ASCII digits, has no leading
/// zero, and spells `n`.
pub proof fn lemma_decimal_spells(n: nat)
    ensures
        decimal(n).len() >= 1,
        decimal(n).len() == 1 <==> n < 10,
        forall|k: int| 0 <= k < decimal(n).len() ==> is_ascii_digit(#[trigger] decimal(n)[k]),
        decimal(n).len() > 1 ==> decimal(n)[0] != '0',
        digits_value(decimal(n)) == n,
    decreases n,
{
    let s = decimal(n);
    lemma_digit_char(n % 10);
    if n < 10 {
        assert(s.drop_last() =~= Seq::<char>::empty());
        assert(digits_value(s.drop_last()) == 0);
        assert(digits_value(s) == digits_value(s.drop_last()) * 10 + (s.last() as int - '0' as int));
    } else {
        let m = n / 10;
        lemma_decimal_spells(m);
        let d = decimal(m);
        assert(s.drop_last() =~= d);
        assert(s.last() == digit_char(n % 10));
        assert forall|k: int| 0 <= k < s.len() implies is_ascii_digit(#[trigger] s[k]) by {
            if k < d.len() {
                assert(s[k] == d[k]);
            }
        }
        assert(s[0] == d[0]);
        if d.len() == 1 {
            lemma_digit_char(m);
        }
        assert(digits_value(s) == digits_value(d) * 10 + (s.last() as int - '0' as int));
        assert(n == m * 10 + n % 10);
    }
}

/// A signed decimal rendering is `-` before the magnitude's digits when the
/// number is negative, the digits alone otherwise.
pub proof fn lemma_signed_decimal_spells(n: int)
    ensures
        n < 0 ==> signed_decimal(n)[0] == '-' && digits_value(signed_decimal(n).drop_first())
            == -n,
        n >= 0 ==> digits_value(signed_decimal(n)) == n,
        forall|k: int|
            (if n < 0 { 1int } else { 0int }) <= k < signed_decimal(n).len() ==> is_ascii_digit(
                #[trigger] signed_decimal(n)[k],
            ),
{
    if n < 0 {
        lemma_decimal_spells((-n) as nat);
        let s = signed_decimal(n);
        assert(s.drop_first() =~= decimal((-n) as nat));
        assert forall|k: int| 1 <= k < s.len() implies is_ascii_digit(#[trigger] s[k]) by {
            assert(s[k] == decimal((-n) as nat)[k - 1]);
        }
    } else {
        lemma_decimal_spells(n as nat);
    }
}

} // verus!
