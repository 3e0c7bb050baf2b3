//! Character-level helpers on strings: equality, escaping for HTML,
//! joining and splitting of comma-separated lists.
use vstd::prelude::*;

verus! {

/// Compares two string slices with std's `==` on `str`, which holds exactly
/// when both slices hold the same characters.
#[verifier::external_body]
pub(crate) fn str_equal(a: &str, b: &str) -> (r: bool)
    ensures
        r == (a@ == b@),
{
    a == b
}

/// Appends one character with std's `String::push`, which adds the
/// character at the end of the string.
#[verifier::external_body]
pub(crate) fn push_char(s: &mut String, c: char)
    ensures
        final(s)@ == old(s)@.push(c),
{
    s.push(c)
}

/// The entity that stands for one character in escaped HTML text.
pub open spec fn html_escape_char(c: char) -> Seq<char> {
    if c == '&' {
        seq!['&', 'a', 'm', 'p', ';']
    } else if c == '<' {
        seq!['&', 'l', 't', ';']
    } else if c == '>' {
        seq!['&', 'g', 't', ';']
    } else if c == '"' {
        seq!['&', 'q', 'u', 'o', 't', ';']
    } else if c == '\'' {
        seq!['&', '#', 'x', '2', '7', ';']
    } else {
        seq![c]
    }
}

/// Text with each special character of HTML replaced by its entity.
pub open spec fn html_escape(s: Seq<char>) -> Seq<char>
    decreases s.len(),
{
    if s.len() == 0 {
        Seq::empty()
    } else {
        html_escape(s.drop_last()) + html_escape_char(s.last())
    }
}

/// Escapes `&`, `<`, `>`, `"` and `'` for safe inclusion in an HTML page.
pub fn escape_html(s: &str) -> (r: String)
    ensures
        r@ == html_escape(s@),
{
    let mut out = String::new();
    for c in it: s.chars()
        invariant
            it.seq() == s@,
            out@ == html_escape(s@.take(it.index())),
    {
        proof {
            assert(c == s@[it.index()]);
            assert(s@.take(it.index() + 1).drop_last() =~= s@.take(it.index()));
            reveal_strlit("&amp;");
            reveal_strlit("&lt;");
            reveal_strlit("&gt;");
            reveal_strlit("&quot;");
            reveal_strlit("&#x27;");
        }
        if c == '&' {
            out.append("&amp;");
        } else if c == '<' {
            out.append("&lt;");
        } else if c == '>' {
            out.append("&gt;");
        } else if c == '"' {
            out.append("&quot;");
        } else if c == '\'' {
            out.append("&#x27;");
        } else {
            push_char(&mut out, c);
        }
    }
    proof {
        assert(s@.take(s@.len() as int) =~= s@);
    }
    out
}

} // verus!

verus! {

/// Unicode's White_Space characters, which `char::is_whitespace` and
/// `str::trim` go by.
pub open spec fn is_white_space(c: char) -> bool {
    ||| ('\u{9}' <= c && c <= '\u{d}')
    ||| c == ' '
    ||| c == '\u{85}'
    ||| c == '\u{a0}'
    ||| c == '\u{1680}'
    ||| ('\u{2000}' <= c && c <= '\u{200a}')
    ||| c == '\u{2028}'
    ||| c == '\u{2029}'
    ||| c == '\u{202f}'
    ||| c == '\u{205f}'
    ||| c == '\u{3000}'
}

/// Whether `c` is a White_Space character.
pub fn white_space(c: char) -> (r: bool)
    ensures
        r == is_white_space(c),
{
    ('\u{9}' <= c && c <= '\u{d}') || c == ' ' || c == '\u{85}' || c == '\u{a0}' || c == '\u{1680}'
        || ('\u{2000}' <= c && c <= '\u{200a}') || c == '\u{2028}' || c == '\u{2029}' || c
        == '\u{202f}' || c == '\u{205f}' || c == '\u{3000}'
}

/// The number of White_Space characters at the start of `s`.
pub open spec fn leading_space(s: Seq<char>) -> nat
    decreases s.len(),
{
    if s.len() > 0 && is_white_space(s[0]) {
        1 + leading_space(s.drop_first())
    } else {
        0
    }
}

/// `s` without White_Space characters at its end.
pub open spec fn trim_end(s: Seq<char>) -> Seq<char>
    decreases s.len(),
{
    if s.len() > 0 && is_white_space(s.last()) {
        trim_end(s.drop_last())
    } else {
        s
    }
}

/// `s` without White_Space characters at either end, as `str::trim` gives.
pub open spec fn trim(s: Seq<char>) -> Seq<char> {
    trim_end(s.skip(leading_space(s) as int))
}

/// The pieces of `s` between commas, as `str::split(',')` gives them;
/// `acc` is the piece under way.
pub open spec fn comma_pieces_from(s: Seq<char>, acc: Seq<char>) -> Seq<Seq<char>>
    decreases s.len(),
{
    if s.len() == 0 {
        seq![acc]
    } else if s[0] == ',' {
        seq![acc] + comma_pieces_from(s.drop_first(), Seq::empty())
    } else {
        comma_pieces_from(s.drop_first(), acc.push(s[0]))
    }
}

/// The pieces of `s` between commas, as `str::split(',')` gives them.
pub open spec fn comma_pieces(s: Seq<char>) -> Seq<Seq<char>> {
    comma_pieces_from(s, Seq::empty())
}

/// The entries of a comma-separated list: each piece trimmed, empty ones
/// left out.
pub open spec fn list_entries(s: Seq<char>) -> Seq<Seq<char>> {
    comma_pieces(s).map_values(|p: Seq<char>| trim(p)).filter(|p: Seq<char>| p.len() > 0)
}

/// `items` joined with `sep` between neighbours.
pub open spec fn joined(items: Seq<Seq<char>>, sep: Seq<char>) -> Seq<char>
    decreases items.len(),
{
    if items.len() == 0 {
        Seq::empty()
    } else if items.len() == 1 {
        items[0]
    } else {
        joined(items.drop_last(), sep) + sep + items.last()
    }
}

} // verus!

verus! {

/// `leading_space` counts up to the first character that is not White_Space.
pub proof fn lemma_leading_space(s: Seq<char>, i: int)
    requires
        0 <= i <= s.len(),
        forall|j: int| 0 <= j < i ==> is_white_space(#[trigger] s[j]),
        i == s.len() || !is_white_space(s[i]),
    ensures
        leading_space(s) == i,
    decreases i,
{
    if i > 0 {
        let t = s.drop_first();
        assert forall|j: int| 0 <= j < i - 1 implies is_white_space(#[trigger] t[j]) by {
            assert(t[j] == s[j + 1]);
        }
        if i < s.len() {
            assert(t[i - 1] == s[i]);
        }
        lemma_leading_space(t, i - 1);
    }
}

/// `trim_end` keeps the characters up to the last one that is not
/// White_Space.
pub proof fn lemma_trim_end(s: Seq<char>, k: int)
    requires
        0 <= k <= s.len(),
        forall|j: int| k <= j < s.len() ==> is_white_space(#[trigger] s[j]),
        k == 0 || !is_white_space(s[k - 1]),
    ensures
        trim_end(s) == s.take(k),
    decreases s.len(),
{
    if s.len() > k {
        assert(is_white_space(s[s.len() - 1]));
        let t = s.drop_last();
        assert forall|j: int| k <= j < t.len() implies is_white_space(#[trigger] t[j]) by {
            assert(t[j] == s[j]);
        }
        if k > 0 {
            assert(t[k - 1] == s[k - 1]);
        }
        lemma_trim_end(t, k);
        assert(t.take(k) =~= s.take(k));
    } else {
        assert(s.take(k) =~= s);
    }
}

/// The characters `v[a..b]` as a string.
fn string_of_range(v: &Vec<char>, a: usize, b: usize) -> (r: String)
    requires
        a <= b <= v@.len(),
    ensures
        r@ == v@.subrange(a as int, b as int),
{
    let mut r = String::new();
    let mut i = a;
    while i < b
        invariant
            a <= i <= b,
            b <= v@.len(),
            r@ == v@.subrange(a as int, i as int),
        decreases b - i,
    {
        push_char(&mut r, v[i]);
        proof {
            assert(v@.subrange(a as int, i + 1) =~= v@.subrange(a as int, i as int).push(v@[i as int]));
        }
        i = i + 1;
    }
    r
}

/// The characters of `v` without White_Space at either end.
pub fn trim_chars(v: &Vec<char>) -> (r: String)
    ensures
        r@ == trim(v@),
{
    let n = v.len();
    let mut a: usize = 0;
    while a < n && white_space(v[a])
        invariant
            n == v@.len(),
            a <= n,
            forall|j: int| 0 <= j < a ==> is_white_space(#[trigger] v@[j]),
        decreases n - a,
    {
        a = a + 1;
    }
    let mut b: usize = n;
    while b > a && white_space(v[b - 1])
        invariant
            n == v@.len(),
            a <= b <= n,
            forall|j: int| b <= j < n ==> is_white_space(#[trigger] v@[j]),
        decreases b - a,
    {
        b = b - 1;
    }
    proof {
        lemma_leading_space(v@, a as int);
        let t = v@.skip(a as int);
        assert forall|j: int| b - a <= j < t.len() implies is_white_space(#[trigger] t[j]) by {
            assert(t[j] == v@[j + a]);
        }
        if b > a {
            assert(t[b - a - 1] == v@[b - 1]);
        }
        lemma_trim_end(t, b - a);
        assert(t.take(b - a) =~= v@.subrange(a as int, b as int));
    }
    string_of_range(v, a, b)
}

/// Splitting the rest of the text continues the pieces under way.
proof fn lemma_pieces_step(s: Seq<char>, i: int, acc: Seq<char>)
    requires
        0 <= i < s.len(),
    ensures
        s[i] == ',' ==> comma_pieces_from(s.skip(i), acc) == seq![acc] + comma_pieces_from(s.skip(i + 1), Seq::empty()),
        s[i] != ',' ==> comma_pieces_from(s.skip(i), acc) == comma_pieces_from(s.skip(i + 1), acc.push(s[i])),
{
    assert(s.skip(i).drop_first() =~= s.skip(i + 1));
    assert(s.skip(i)[0] == s[i]);
}

/// The entries of a comma-separated list: split at commas, each piece
/// trimmed of White_Space, empty pieces left out.
pub fn parse_comma_list(s: &str) -> (r: Vec<String>)
    ensures
        crate::strset::string_views(r@) == list_entries(s@),
{
    let ghost pred: spec_fn(Seq<char>) -> bool = |p: Seq<char>| p.len() > 0;
    let ghost tr: spec_fn(Seq<char>) -> Seq<char> = |p: Seq<char>| trim(p);
    let mut out: Vec<String> = Vec::new();
    let mut acc: Vec<char> = Vec::new();
    let ghost mut done: Seq<Seq<char>> = Seq::empty();
    let ghost mut i: int = 0;
    proof {
        assert(s@.skip(0) =~= s@);
        assert(done + comma_pieces(s@) =~= comma_pieces(s@));
        assert(done.map_values(tr).filter(pred) =~= Seq::<Seq<char>>::empty()) by {
            reveal_with_fuel(Seq::filter, 1);
        }
        assert(crate::strset::string_views(out@) =~= Seq::<Seq<char>>::empty());
    }
    for c in it: s.chars()
        invariant
            it.seq() == s@,
            i == it.index(),
            pred == (|p: Seq<char>| p.len() > 0),
            tr == (|p: Seq<char>| trim(p)),
            comma_pieces(s@) == done + comma_pieces_from(s@.skip(i), acc@),
            crate::strset::string_views(out@) == done.map_values(tr).filter(pred),
    {
        proof {
            assert(c == s@[i]);
            lemma_pieces_step(s@, i, acc@);
        }
        if c == ',' {
            let piece = trim_chars(&acc);
            let ghost old_done = done;
            let ghost old_out = out@;
            if piece.as_str().unicode_len() > 0 {
                out.push(piece);
            }
            proof {
                done = done.push(acc@);
                assert(tr(acc@) == trim(acc@));
                assert(done.map_values(tr) =~= old_done.map_values(tr).push(tr(acc@)));
                old_done.map_values(tr).lemma_filter_push(trim(acc@), pred);
                assert(crate::strset::string_views(out@) =~= done.map_values(tr).filter(pred)) by {
                    if trim(acc@).len() > 0 {
                        assert(crate::strset::string_views(out@) =~= crate::strset::string_views(old_out).push(trim(acc@)));
                    }
                }
                assert(done =~= old_done + seq![acc@]);
                assert(comma_pieces(s@) =~= done + comma_pieces_from(s@.skip(i + 1), Seq::empty()));
            }
            acc = Vec::new();
        } else {
            acc.push(c);
        }
        proof {
            i = i + 1;
        }
    }
    proof {
        assert(s@.skip(i) =~= Seq::<char>::empty());
        assert(comma_pieces(s@) == done + seq![acc@]);
    }
    let piece = trim_chars(&acc);
    let ghost old_out = out@;
    if piece.as_str().unicode_len() > 0 {
        out.push(piece);
    }
    proof {
        let all = done.push(acc@);
        assert(all =~= done + seq![acc@]);
        assert(tr(acc@) == trim(acc@));
        assert(all.map_values(tr) =~= done.map_values(tr).push(tr(acc@)));
        done.map_values(tr).lemma_filter_push(trim(acc@), pred);
        if trim(acc@).len() > 0 {
            assert(crate::strset::string_views(out@) =~= crate::strset::string_views(old_out).push(trim(acc@)));
        }
        assert(crate::strset::string_views(out@) =~= all.map_values(tr).filter(pred));
        assert(list_entries(s@) == comma_pieces(s@).map_values(tr).filter(pred));
    }
    out
}

/// The strings of `items` joined with `sep` between neighbours.
pub fn join_strings(items: &Vec<String>, sep: &str) -> (r: String)
    ensures
        r@ == joined(crate::strset::string_views(items@), sep@),
{
    let ghost views = crate::strset::string_views(items@);
    let mut r = String::new();
    let n = items.len();
    for i in 0..n
        invariant
            n == items@.len(),
            views == crate::strset::string_views(items@),
            r@ == joined(views.take(i as int), sep@),
    {
        proof {
            let t = views.take(i + 1);
            assert(t.drop_last() =~= views.take(i as int));
            assert(t.last() == items@[i as int]@);
            if i == 0 {
                assert(views.take(0) =~= Seq::<Seq<char>>::empty());
            }
        }
        if i > 0 {
            r.append(sep);
        }
        r.append(items[i].as_str());
    }
    proof {
        assert(views.take(n as int) =~= views);
    }
    r
}

} // verus!

verus! {

/// The decimal digit for `d`, which is below ten.
pub open spec fn digit_char(d: nat) -> char {
    if d == 0 { '0' } else if d == 1 { '1' } else if d == 2 { '2' } else if d == 3 { '3' } else if d == 4 { '4' }
    else if d == 5 { '5' } else if d == 6 { '6' } else if d == 7 { '7' } else if d == 8 { '8' } else { '9' }
}

/// The decimal digits of `n`, without leading zeros.
pub open spec fn decimal_digits(n: nat) -> Seq<char>
    decreases n,
{
    if n < 10 {
        seq![digit_char(n)]
    } else {
        decimal_digits(n / 10).push(digit_char(n % 10))
    }
}

/// The decimal text of an integer, with a minus sign when negative.
pub open spec fn decimal_text(n: int) -> Seq<char> {
    if n < 0 {
        seq!['-'] + decimal_digits((-n) as nat)
    } else {
        decimal_digits(n as nat)
    }
}

fn digit(d: u64) -> (c: char)
    requires
        d < 10,
    ensures
        c == digit_char(d as nat),
{
    if d == 0 { '0' } else if d == 1 { '1' } else if d == 2 { '2' } else if d == 3 { '3' } else if d == 4 { '4' }
    else if d == 5 { '5' } else if d == 6 { '6' } else if d == 7 { '7' } else if d == 8 { '8' } else { '9' }
}

/// Appends the decimal digits of `n`.
pub fn push_decimal(s: &mut String, n: u64)
    ensures
        final(s)@ == old(s)@ + decimal_digits(n as nat),
    decreases n,
{
    if n >= 10 {
        push_decimal(s, n / 10);
    }
    push_char(s, digit(n % 10));
    proof {
        if n < 10 {
            assert(old(s)@ + decimal_digits(n as nat) =~= old(s)@.push(digit_char(n as nat)));
        }
    }
}

/// The decimal text of `n`, as `to_string` writes it.
pub fn format_i64(n: i64) -> (s: String)
    ensures
        s@ == decimal_text(n as int),
{
    let mut s = String::new();
    if n < 0 {
        push_char(&mut s, '-');
        let magnitude: u64 = ((-(n + 1)) as u64) + 1;
        push_decimal(&mut s, magnitude);
    } else {
        push_decimal(&mut s, n as u64);
    }
    s
}

/// Escaped text holds none of the characters that HTML gives a meaning:
/// no `<`, `>`, `"` or `'`.
pub proof fn lemma_escaped_has_no_markup(s: Seq<char>)
    ensures
        forall|i: int| 0 <= i < html_escape(s).len() ==> {
            let c = #[trigger] html_escape(s)[i];
            c != '<' && c != '>' && c != '"' && c != '\''
        },
    decreases s.len(),
{
    if s.len() > 0 {
        lemma_escaped_has_no_markup(s.drop_last());
        let a = html_escape(s.drop_last());
        let b = html_escape_char(s.last());
        assert forall|i: int| 0 <= i < (a + b).len() implies {
            let c = #[trigger] (a + b)[i];
            c != '<' && c != '>' && c != '"' && c != '\''
        } by {
            if i >= a.len() {
                assert((a + b)[i] == b[i - a.len()]);
            } else {
                assert((a + b)[i] == a[i]);
            }
        }
    }
}

/// Text without special characters is left as it is.
pub proof fn lemma_plain_text_unchanged(s: Seq<char>)
    requires
        forall|i: int| 0 <= i < s.len() ==> {
            let c = #[trigger] s[i];
            c != '&' && c != '<' && c != '>' && c != '"' && c != '\''
        },
    ensures
        html_escape(s) == s,
    decreases s.len(),
{
    if s.len() > 0 {
        let t = s.drop_last();
        assert forall|i: int| 0 <= i < t.len() implies {
            let c = #[trigger] t[i];
            c != '&' && c != '<' && c != '>' && c != '"' && c != '\''
        } by {
            assert(t[i] == s[i]);
        }
        lemma_plain_text_unchanged(t);
        let last = s[s.len() - 1];
        assert(html_escape_char(last) == seq![last]);
        assert(t.push(last) =~= s);
    }
}

/// What `trim_end` keeps does not end in White_Space.
proof fn lemma_trim_end_ends(s: Seq<char>)
    ensures
        trim_end(s).len() > 0 ==> !is_white_space(trim_end(s).last()),
        trim_end(s).len() <= s.len(),
        forall|i: int| 0 <= i < trim_end(s).len() ==> trim_end(s)[i] == s[i],
    decreases s.len(),
{
    if s.len() > 0 && is_white_space(s.last()) {
        lemma_trim_end_ends(s.drop_last());
        assert forall|i: int| 0 <= i < trim_end(s).len() implies trim_end(s)[i] == s[i] by {
            assert(s.drop_last()[i] == s[i]);
        }
    }
}

/// `leading_space` stops at a character that is not White_Space.
proof fn lemma_leading_space_stops(s: Seq<char>)
    ensures
        leading_space(s) <= s.len(),
        leading_space(s) < s.len() ==> !is_white_space(s[leading_space(s) as int]),
    decreases s.len(),
{
    if s.len() > 0 && is_white_space(s[0]) {
        lemma_leading_space_stops(s.drop_first());
        let k = leading_space(s.drop_first());
        if k < s.drop_first().len() {
            assert(s.drop_first()[k as int] == s[(k + 1) as int]);
        }
    }
}

/// Trimmed text neither starts nor ends with White_Space.
pub proof fn lemma_trimmed_ends(s: Seq<char>)
    ensures
        trim(s).len() > 0 ==> !is_white_space(trim(s)[0]) && !is_white_space(trim(s).last()),
{
    let k = leading_space(s);
    lemma_leading_space_stops(s);
    let t = s.skip(k as int);
    lemma_trim_end_ends(t);
    if trim(s).len() > 0 {
        assert(trim(s)[0] == t[0]);
        assert(t[0] == s[k as int]);
    }
}

/// Every entry of a comma-separated list is non-empty and neither starts
/// nor ends with White_Space.
pub proof fn lemma_list_entries_trimmed(s: Seq<char>)
    ensures
        forall|i: int| 0 <= i < list_entries(s).len() ==> {
            let e = #[trigger] list_entries(s)[i];
            &&& e.len() > 0
            &&& !is_white_space(e[0])
            &&& !is_white_space(e.last())
        },
{
    let pieces = comma_pieces(s).map_values(|p: Seq<char>| trim(p));
    let pred = |p: Seq<char>| p.len() > 0;
    assert forall|i: int| 0 <= i < list_entries(s).len() implies {
        let e = #[trigger] list_entries(s)[i];
        &&& e.len() > 0
        &&& !is_white_space(e[0])
        &&& !is_white_space(e.last())
    } by {
        let e = list_entries(s)[i];
        assert(list_entries(s) == pieces.filter(pred));
        pieces.lemma_filter_pred(pred, i);
        assert(pieces.filter(pred).contains(e));
        pieces.lemma_filter_contains_rev(pred, e);
        let j = choose|j: int| 0 <= j < pieces.len() && pieces[j] == e;
        assert(pieces[j] == trim(comma_pieces(s)[j]));
        lemma_trimmed_ends(comma_pieces(s)[j]);
    }
}

} // verus!

verus! {

/// An entry that comes back unchanged from a comma-separated list: not
/// empty, without commas, neither starting nor ending with White_Space.
pub open spec fn plain_entry(x: Seq<char>) -> bool {
    &&& x.len() > 0
    &&& forall|i: int| 0 <= i < x.len() ==> x[i] != ','
    &&& !is_white_space(x[0])
    &&& !is_white_space(x.last())
}

/// Trimming leaves a plain entry as it is, and takes off one space before it.
proof fn lemma_trim_plain(x: Seq<char>)
    requires
        plain_entry(x),
    ensures
        trim(x) == x,
        trim(seq![' '] + x) == x,
{
    lemma_leading_space(x, 0);
    assert(x.skip(0) =~= x);
    lemma_trim_end(x, x.len() as int);
    assert(x.take(x.len() as int) =~= x);
    let s = seq![' '] + x;
    assert(s[0] == ' ');
    assert(s[1] == x[0]);
    lemma_leading_space(s, 1);
    assert(s.skip(1) =~= x);
}

/// Text without commas only lengthens the piece under way.
proof fn lemma_pieces_no_comma(s: Seq<char>, t: Seq<char>, acc: Seq<char>)
    requires
        forall|i: int| 0 <= i < s.len() ==> s[i] != ',',
    ensures
        comma_pieces_from(s + t, acc) == comma_pieces_from(t, acc + s),
    decreases s.len(),
{
    if s.len() == 0 {
        assert(s + t =~= t);
        assert(acc + s =~= acc);
    } else {
        assert((s + t)[0] == s[0]);
        assert((s + t).drop_first() =~= s.drop_first() + t);
        lemma_pieces_no_comma(s.drop_first(), t, acc.push(s[0]));
        assert(acc.push(s[0]) + s.drop_first() =~= acc + s);
    }
}

/// A comma ends the piece under way.
proof fn lemma_pieces_comma(t: Seq<char>, acc: Seq<char>)
    ensures
        comma_pieces_from(seq![','] + t, acc) == seq![acc] + comma_pieces_from(t, Seq::empty()),
{
    assert((seq![','] + t)[0] == ',');
    assert((seq![','] + t).drop_first() =~= t);
}

/// A join of two or more items starts with the first item and the separator.
proof fn lemma_joined_front(items: Seq<Seq<char>>, sep: Seq<char>)
    requires
        items.len() >= 2,
    ensures
        joined(items, sep) == items[0] + sep + joined(items.drop_first(), sep),
    decreases items.len(),
{
    let rest = items.drop_first();
    if items.len() == 2 {
        assert(items.drop_last().len() == 1);
        assert(joined(items.drop_last(), sep) == items[0]);
        assert(joined(rest, sep) == rest[0]);
    } else {
        let init = items.drop_last();
        lemma_joined_front(init, sep);
        assert(init.drop_first() =~= rest.drop_last());
        assert(rest.last() == items.last());
        assert(joined(items, sep) == joined(init, sep) + sep + items.last());
        assert(joined(rest, sep) == joined(rest.drop_last(), sep) + sep + rest.last());
        assert(items[0] + sep + joined(init.drop_first(), sep) + sep + items.last()
            =~= items[0] + sep + (joined(rest.drop_last(), sep) + sep + rest.last()));
    }
}

/// The entries read from plain items joined with ", ", where the piece
/// under way starts empty or with one space, are the items.
proof fn lemma_entries_of_joined_from(items: Seq<Seq<char>>, acc: Seq<char>)
    requires
        items.len() >= 1,
        acc == Seq::<char>::empty() || acc == seq![' '],
        forall|i: int| 0 <= i < items.len() ==> plain_entry(#[trigger] items[i]),
    ensures
        comma_pieces_from(joined(items, ", "@), acc).map_values(|p: Seq<char>| trim(p)).filter(
            |p: Seq<char>| p.len() > 0,
        ) == items,
    decreases items.len(),
{
    let tr = |p: Seq<char>| trim(p);
    let pred = |p: Seq<char>| p.len() > 0;
    let x = items[0];
    assert(plain_entry(x));
    lemma_trim_plain(x);
    assert(tr(acc + x) == x) by {
        if acc.len() == 0 {
            assert(acc + x =~= x);
        } else {
            assert(acc + x =~= seq![' '] + x);
        }
    }
    if items.len() == 1 {
        assert(joined(items, ", "@) == x);
        assert(x + Seq::<char>::empty() =~= x);
        lemma_pieces_no_comma(x, Seq::empty(), acc);
        assert(comma_pieces_from(Seq::<char>::empty(), acc + x) == seq![acc + x]);
        assert(seq![acc + x].map_values(tr) =~= seq![x]);
        Seq::<Seq<char>>::empty().lemma_filter_prepend(x, pred);
        assert(seq![x] + Seq::<Seq<char>>::empty() =~= seq![x]);
        assert(Seq::<Seq<char>>::empty().filter(pred) =~= Seq::<Seq<char>>::empty()) by {
            reveal_with_fuel(Seq::filter, 1);
        }
        assert(items =~= seq![x]);
    } else {
        let rest = items.drop_first();
        let jr = joined(rest, ", "@);
        lemma_joined_front(items, ", "@);
        reveal_strlit(", ");
        assert(joined(items, ", "@) =~= x + (seq![','] + (seq![' '] + jr)));
        lemma_pieces_no_comma(x, seq![','] + (seq![' '] + jr), acc);
        lemma_pieces_comma(seq![' '] + jr, acc + x);
        assert(forall|i: int| 0 <= i < seq![' '].len() ==> seq![' '][i] != ',');
        lemma_pieces_no_comma(seq![' '], jr, Seq::empty());
        assert(Seq::<char>::empty() + seq![' '] =~= seq![' ']);
        let tail = comma_pieces_from(jr, seq![' ']);
        assert forall|i: int| 0 <= i < rest.len() implies plain_entry(#[trigger] rest[i]) by {
            assert(rest[i] == items[i + 1]);
        }
        lemma_entries_of_joined_from(rest, seq![' ']);
        let all = seq![acc + x] + tail;
        assert(all.map_values(tr) =~= seq![x] + tail.map_values(tr));
        tail.map_values(tr).lemma_filter_prepend(x, pred);
        assert(seq![x] + rest =~= items);
    }
}

/// Reading back plain entries joined with ", " as a comma-separated list
/// gives the same entries, in the same order.
pub proof fn lemma_list_entries_of_joined(items: Seq<Seq<char>>)
    requires
        forall|i: int| 0 <= i < items.len() ==> plain_entry(#[trigger] items[i]),
    ensures
        list_entries(joined(items, ", "@)) == items,
{
    if items.len() == 0 {
        let pieces = comma_pieces(joined(items, ", "@));
        assert(joined(items, ", "@) == Seq::<char>::empty());
        assert(pieces == seq![Seq::<char>::empty()]);
        lemma_leading_space(Seq::<char>::empty(), 0);
        assert(Seq::<char>::empty().skip(0) =~= Seq::<char>::empty());
        assert(trim(Seq::<char>::empty()) == Seq::<char>::empty());
        let mapped = pieces.map_values(|p: Seq<char>| trim(p));
        assert(mapped =~= seq![Seq::<char>::empty()]);
        assert(mapped.filter(|p: Seq<char>| p.len() > 0) =~= Seq::<Seq<char>>::empty()) by {
            reveal_with_fuel(Seq::filter, 2);
            assert(mapped.drop_last() =~= Seq::<Seq<char>>::empty());
        }
    } else {
        lemma_entries_of_joined_from(items, Seq::empty());
    }
}

} // verus!
