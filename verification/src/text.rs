//! Small text-building helpers: decimal numerals and padding.
use vstd::prelude::*;

verus! {

/// The ASCII digit of `d` (for `d < 10`).
pub open spec fn digit_char(d: nat) -> char {
    (48 + d) as char
}

/// The decimal numeral of `n`, without leading zeros.
pub open spec fn decimal(n: nat) -> Seq<char>
    decreases n,
{
    if n < 10 {
        seq![digit_char(n)]
    } else {
        decimal(n / 10).push(digit_char(n % 10))
    }
}

/// `n` copies of the character `c`.
pub open spec fn repeat_char(c: char, n: nat) -> Seq<char> {
    Seq::new(n, |i: int| c)
}

/// Whether every character of `s` is ASCII.
pub open spec fn all_ascii(s: Seq<char>) -> bool {
    forall|i: int| 0 <= i < s.len() ==> (s[i] as u32) < 128
}

/// Whether `s` holds no line break.
pub open spec fn single_line(s: Seq<char>) -> bool {
    forall|i: int| 0 <= i < s.len() ==> s[i] != '\n'
}

fn digit_str(d: u128) -> (s: &'static str)
    requires
        d < 10,
    ensures
        s@ == seq![digit_char(d as nat)],
{
    proof {
        reveal_strlit("0123456789");
    }
    let s = "0123456789".substring_char(d as usize, d as usize + 1);
    assert(s@ =~= seq![digit_char(d as nat)]);
    s
}

/// Whether two texts are equal.
pub fn same_text(a: &str, b: &str) -> (r: bool)
    ensures
        r == (a@ == b@),
{
    String::from_str(a) == String::from_str(b)
}

/// Appends the decimal numeral of `n` to `out`.
pub fn push_decimal(out: &mut String, n: u128)
    ensures
        final(out)@ == old(out)@ + decimal(n as nat),
    decreases n,
{
    if n < 10 {
        out.append(digit_str(n));
    } else {
        push_decimal(out, n / 10);
        out.append(digit_str(n % 10));
        assert(old(out)@ + decimal(n as nat) =~= old(out)@ + decimal((n / 10) as nat) + seq![
            digit_char((n % 10) as nat),
        ]);
    }
}

/// The texts of a list of strings.
pub open spec fn texts(lines: Seq<String>) -> Seq<Seq<char>> {
    lines.map_values(|l: String| l@)
}

/// Appends `line` to `lines`.
pub fn push_line(lines: &mut Vec<String>, line: String)
    ensures
        texts(final(lines)@) == texts(old(lines)@).push(line@),
{
    let ghost l = line@;
    lines.push(line);
    assert(texts(lines@) =~= texts(old(lines)@).push(l));
}

/// Appends `n` copies of the character in `unit` to `out`.
pub fn push_repeated(out: &mut String, unit: &str, n: usize)
    requires
        unit@.len() == 1,
    ensures
        final(out)@ == old(out)@ + repeat_char(unit@[0], n as nat),
{
    let mut i: usize = 0;
    while i < n
        invariant
            i <= n,
            unit@.len() == 1,
            out@ == old(out)@ + repeat_char(unit@[0], i as nat),
        decreases n - i,
    {
        out.append(unit);
        i = i + 1;
        assert(out@ =~= old(out)@ + repeat_char(unit@[0], i as nat));
    }
}

/// The pieces of `s` between line feeds (one more piece than line feeds).
pub open spec fn split_on_newline(s: Seq<char>) -> Seq<Seq<char>>
    decreases s.len(),
{
    if s.len() == 0 {
        seq![Seq::empty()]
    } else {
        let prev = split_on_newline(s.drop_last());
        if s.last() == '\n' {
            prev.push(Seq::empty())
        } else {
            prev.update(prev.len() - 1, prev.last().push(s.last()))
        }
    }
}

/// There is always a last piece; it is empty exactly when the text is empty
/// or ends in a line feed.
pub proof fn lemma_split_nonempty(s: Seq<char>)
    ensures
        split_on_newline(s).len() >= 1,
        split_on_newline(s).last().len() == 0 <==> (s.len() == 0 || s.last() == '\n'),
    decreases s.len(),
{
    if s.len() > 0 {
        lemma_split_nonempty(s.drop_last());
    }
}

/// Text without a line feed extends the last piece.
pub proof fn lemma_split_extend(x: Seq<char>, y: Seq<char>)
    requires
        single_line(y),
    ensures
        split_on_newline(x + y) == split_on_newline(x).update(
            split_on_newline(x).len() - 1,
            split_on_newline(x).last() + y,
        ),
    decreases y.len(),
{
    lemma_split_nonempty(x);
    let px = split_on_newline(x);
    if y.len() == 0 {
        assert(x + y =~= x);
        assert(px.last() + y =~= px.last());
        assert(px.update(px.len() - 1, px.last()) =~= px);
    } else {
        let yp = y.drop_last();
        assert(single_line(yp)) by {
            assert forall|i: int| 0 <= i < yp.len() implies yp[i] != '\n' by {
                assert(yp[i] == y[i]);
            }
        }
        lemma_split_extend(x, yp);
        assert((x + y).drop_last() =~= x + yp);
        assert((x + y).last() == y.last());
        assert(y.last() != '\n');
        let prev = split_on_newline(x + yp);
        assert(prev.len() == px.len());
        assert(prev.last() == px.last() + yp);
        assert(prev.last().push(y.last()) =~= px.last() + y);
        assert(prev.update(prev.len() - 1, prev.last().push(y.last())) =~= px.update(
            px.len() - 1,
            px.last() + y,
        ));
    }
}

/// A line feed followed by a line adds that line as a new last piece.
pub proof fn lemma_split_new_line(x: Seq<char>, line: Seq<char>)
    requires
        single_line(line),
    ensures
        split_on_newline(x + "\n"@ + line) == split_on_newline(x).push(line),
{
    reveal_strlit("\n");
    let xn = x + "\n"@;
    assert(xn.drop_last() =~= x);
    assert(xn.last() == '\n');
    assert(split_on_newline(xn) == split_on_newline(x).push(Seq::empty()));
    lemma_split_extend(xn, line);
    let pn = split_on_newline(xn);
    assert(Seq::<char>::empty() + line =~= line);
    assert(pn.update(pn.len() - 1, pn.last() + line) =~= split_on_newline(x).push(line));
}

/// A text without line feeds is one piece.
pub proof fn lemma_split_single(line: Seq<char>)
    requires
        single_line(line),
    ensures
        split_on_newline(line) == seq![line],
{
    let e = Seq::<char>::empty();
    lemma_split_extend(e, line);
    assert(e + line =~= line);
    assert(e + line == line);
    assert(split_on_newline(e) == seq![e]);
    assert(seq![e].update(0, e + line) =~= seq![line]);
}

/// Splits `text` at every line feed, keeping empty pieces, as
/// `str::split('\n')` does.
pub fn split_on_lf(text: &str) -> (pieces: Vec<String>)
    ensures
        texts(pieces@) == split_on_newline(text@),
{
    let n = text.unicode_len();
    let mut pieces: Vec<String> = Vec::new();
    let mut current = String::new();
    let mut i: usize = 0;
    proof {
        assert(text@.take(0) =~= Seq::<char>::empty());
        assert(texts(pieces@) =~= Seq::<Seq<char>>::empty());
    }
    while i < n
        invariant
            i <= n,
            n == text@.len(),
            split_on_newline(text@.take(i as int)).len() >= 1,
            texts(pieces@) == split_on_newline(text@.take(i as int)).drop_last(),
            current@ == split_on_newline(text@.take(i as int)).last(),
        decreases n - i,
    {
        let ghost before = text@.take(i as int);
        let c = text.get_char(i);
        proof {
            assert(text@.take(i + 1).drop_last() =~= before);
            assert(text@.take(i + 1).last() == c);
            lemma_split_nonempty(before);
        }
        if c == '\n' {
            push_line(&mut pieces, current);
            current = String::new();
            proof {
                let prev = split_on_newline(before);
                let next = split_on_newline(text@.take(i + 1));
                assert(next == prev.push(Seq::empty()));
                assert(next.drop_last() =~= prev);
                assert(prev.drop_last().push(prev.last()) =~= prev);
            }
        } else {
            current.append(text.substring_char(i, i + 1));
            proof {
                let prev = split_on_newline(before);
                let next = split_on_newline(text@.take(i + 1));
                assert(text@.subrange(i as int, i + 1) =~= seq![c]);
                assert(next == prev.update(prev.len() - 1, prev.last().push(c)));
                assert(next.drop_last() =~= prev.drop_last());
                assert(current@ =~= next.last());
            }
        }
        i = i + 1;
    }
    proof {
        assert(text@.take(n as int) =~= text@);
        lemma_split_nonempty(text@);
        let all = split_on_newline(text@);
        assert(all.drop_last().push(all.last()) =~= all);
    }
    push_line(&mut pieces, current);
    pieces
}

/// Whether `needle` occurs in `haystack` as a run of consecutive
/// characters.
pub open spec fn occurs_in(needle: Seq<char>, haystack: Seq<char>) -> bool {
    exists|i: int|
        0 <= i && i + needle.len() <= haystack.len() && #[trigger] haystack.subrange(
            i,
            i + needle.len(),
        ) == needle
}

/// Whether `haystack` contains `needle`, as `str::contains` answers for a
/// text pattern.
pub fn contains_text(haystack: &str, needle: &str) -> (found: bool)
    ensures
        found == occurs_in(needle@, haystack@),
{
    let n = haystack.unicode_len();
    let k = needle.unicode_len();
    if k > n {
        return false;
    }
    if k == 0 {
        assert(haystack@.subrange(0, 0 + needle@.len() as int) =~= needle@);
        return true;
    }
    let mut i: usize = 0;
    while i <= n - k
        invariant
            0 < k <= n,
            n == haystack@.len(),
            k == needle@.len(),
            i <= n - k + 1,
            forall|j: int| 0 <= j < i ==> #[trigger] haystack@.subrange(j, j + k) != needle@,
        decreases n - k + 1 - i,
    {
        if same_text(haystack.substring_char(i, i + k), needle) {
            assert(haystack@.subrange(i as int, i + k) == needle@);
            return true;
        }
        i = i + 1;
    }
    proof {
        assert forall|j: int|
            0 <= j && j + needle@.len() <= haystack@.len() implies #[trigger] haystack@.subrange(
            j,
            j + needle@.len(),
        ) != needle@ by {
            assert(j < i);
        }
    }
    false
}

/// A text is on one line exactly when both of its parts are.
pub broadcast proof fn lemma_single_line_concat(a: Seq<char>, b: Seq<char>)
    ensures
        #[trigger] single_line(a + b) == (single_line(a) && single_line(b)),
{
    if single_line(a) && single_line(b) {
        assert forall|i: int| 0 <= i < (a + b).len() implies (a + b)[i] != '\n' by {
            if i < a.len() {
                assert((a + b)[i] == a[i]);
            } else {
                assert((a + b)[i] == b[i - a.len()]);
            }
        }
    }
    if single_line(a + b) {
        assert forall|i: int| 0 <= i < a.len() implies a[i] != '\n' by {
            assert((a + b)[i] == a[i]);
        }
        assert forall|i: int| 0 <= i < b.len() implies b[i] != '\n' by {
            assert((a + b)[a.len() + i] == b[i]);
        }
    }
}

/// Repeating a character other than a line feed stays on one line.
pub proof fn lemma_repeat_single_line(c: char, n: nat)
    requires
        c != '\n',
    ensures
        single_line(repeat_char(c, n)),
{
}

/// No piece between line feeds holds a line feed.
pub proof fn lemma_pieces_single_line(s: Seq<char>)
    ensures
        forall|i: int|
            0 <= i < split_on_newline(s).len() ==> single_line(#[trigger] split_on_newline(s)[i]),
    decreases s.len(),
{
    if s.len() > 0 {
        let prev = split_on_newline(s.drop_last());
        lemma_pieces_single_line(s.drop_last());
        lemma_split_nonempty(s.drop_last());
        if s.last() != '\n' {
            let last = prev.last();
            assert(single_line(last));
            assert(single_line(last.push(s.last()))) by {
                assert forall|i: int| 0 <= i < last.push(s.last()).len() implies last.push(
                    s.last(),
                )[i] != '\n' by {
                    if i < last.len() {
                        assert(last.push(s.last())[i] == last[i]);
                    }
                }
            }
        }
    }
}

/// Joining plain text keeps it plain.
pub proof fn lemma_concat_plain(a: Seq<char>, b: Seq<char>)
    ensures
        all_ascii(a) && all_ascii(b) ==> all_ascii(a + b),
        single_line(a) && single_line(b) ==> single_line(a + b),
{
    assert forall|i: int| 0 <= i < (a + b).len() implies (a + b)[i] == if i < a.len() {
        a[i]
    } else {
        b[i - a.len()]
    } by {}
}

/// Decimal numerals are made of ASCII digits only.
pub proof fn lemma_decimal_ascii_single_line(n: nat)
    ensures
        all_ascii(decimal(n)),
        single_line(decimal(n)),
        decimal(n).len() > 0,
    decreases n,
{
    if n >= 10 {
        lemma_decimal_ascii_single_line(n / 10);
        lemma_concat_plain(decimal(n / 10), seq![digit_char(n % 10)]);
    }
}

} // verus!
