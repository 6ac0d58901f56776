//! Text building blocks: escaping, searching, splitting, trimming, joining and
//! number rendering, each stated over the characters of the text.

use vstd::prelude::*;

verus! {

/// Appending one character to a `String` extends its characters by that one.
pub assume_specification[ String::push ](s: &mut String, ch: char)
    ensures
        final(s)@ == old(s)@.push(ch),
;

// ---------------------------------------------------------------- escaping

/// What one character becomes inside an XML text block: `&`, `<` and `>`
/// turn into entities, everything else stays.
pub open spec fn xml_escaped_char(c: char) -> Seq<char> {
    if c == '&' {
        seq!['&', 'a', 'm', 'p', ';']
    } else if c == '<' {
        seq!['&', 'l', 't', ';']
    } else if c == '>' {
        seq!['&', 'g', 't', ';']
    } else {
        seq![c]
    }
}

/// The XML escape of a whole text, character by character.
pub open spec fn xml_escaped(s: Seq<char>) -> Seq<char>
    decreases s.len(),
{
    if s.len() == 0 {
        seq![]
    } else {
        xml_escaped(s.drop_last()) + xml_escaped_char(s.last())
    }
}

/// What one character becomes inside HTML text or a quoted attribute.
pub open spec fn html_escaped_char(c: char) -> Seq<char> {
    if c == '&' {
        seq!['&', 'a', 'm', 'p', ';']
    } else if c == '<' {
        seq!['&', 'l', 't', ';']
    } else if c == '>' {
        seq!['&', 'g', 't', ';']
    } else if c == '"' {
        seq!['&', 'q', 'u', 'o', 't', ';']
    } else if c == '\'' {
        seq!['&', '#', '3', '9', ';']
    } else {
        seq![c]
    }
}

/// The HTML escape of a whole text, character by character.
pub open spec fn html_escaped(s: Seq<char>) -> Seq<char>
    decreases s.len(),
{
    if s.len() == 0 {
        seq![]
    } else {
        html_escaped(s.drop_last()) + html_escaped_char(s.last())
    }
}

/// Escaped feed content cannot open or close a tag: it holds no `<` and no
/// `>`, and every character of it comes from the escape of some character.
pub proof fn law_xml_escape_has_no_angle_brackets(s: Seq<char>)
    ensures
        forall|i: int| 0 <= i < xml_escaped(s).len() ==> #[trigger] xml_escaped(s)[i] != '<' && xml_escaped(s)[i] != '>',
    decreases s.len(),
{
    if s.len() > 0 {
        law_xml_escape_has_no_angle_brackets(s.drop_last());
        let pre = xml_escaped(s.drop_last());
        let last = xml_escaped_char(s.last());
        assert forall|i: int| 0 <= i < xml_escaped(s).len() implies #[trigger] xml_escaped(s)[i] != '<' && xml_escaped(s)[i] != '>' by {
            if i >= pre.len() {
                assert(xml_escaped(s)[i] == last[i - pre.len()]);
            } else {
                assert(xml_escaped(s)[i] == pre[i]);
            }
        }
    }
}

/// Escaped text cannot break out of HTML text or a quoted attribute: it holds
/// none of `<`, `>`, `"` and `'`.
pub proof fn law_html_escape_has_no_metacharacters(s: Seq<char>)
    ensures
        forall|i: int| 0 <= i < html_escaped(s).len() ==> {
            let c = #[trigger] html_escaped(s)[i];
            c != '<' && c != '>' && c != '"' && c != '\''
        },
    decreases s.len(),
{
    if s.len() > 0 {
        law_html_escape_has_no_metacharacters(s.drop_last());
        let pre = html_escaped(s.drop_last());
        let last = html_escaped_char(s.last());
        assert forall|i: int| 0 <= i < html_escaped(s).len() implies {
            let c = #[trigger] html_escaped(s)[i];
            c != '<' && c != '>' && c != '"' && c != '\''
        } by {
            if i >= pre.len() {
                assert(html_escaped(s)[i] == last[i - pre.len()]);
            } else {
                assert(html_escaped(s)[i] == pre[i]);
            }
        }
    }
}

/// Text without metacharacters passes through the XML escape unchanged.
pub proof fn law_xml_escape_keeps_plain_text(s: Seq<char>)
    requires
        forall|i: int| 0 <= i < s.len() ==> #[trigger] s[i] != '&' && s[i] != '<' && s[i] != '>',
    ensures
        xml_escaped(s) == s,
    decreases s.len(),
{
    if s.len() > 0 {
        law_xml_escape_keeps_plain_text(s.drop_last());
        assert(s.drop_last().push(s.last()) =~= s);
    }
}

// ---------------------------------------------------------------- numbers

/// The decimal digit for `d`, which is below ten.
pub open spec fn digit_char(d: nat) -> char {
    if d == 0 { '0' }
    else if d == 1 { '1' }
    else if d == 2 { '2' }
    else if d == 3 { '3' }
    else if d == 4 { '4' }
    else if d == 5 { '5' }
    else if d == 6 { '6' }
    else if d == 7 { '7' }
    else if d == 8 { '8' }
    else { '9' }
}

/// The decimal text of a natural number, without leading zeros.
pub open spec fn nat_text(n: nat) -> Seq<char>
    decreases n,
{
    if n < 10 {
        seq![digit_char(n)]
    } else {
        nat_text(n / 10).push(digit_char(n % 10))
    }
}

/// The decimal text of an integer: a `-` before the magnitude when negative.
pub open spec fn int_text(i: int) -> Seq<char> {
    if i < 0 {
        seq!['-'] + nat_text((-i) as nat)
    } else {
        nat_text(i as nat)
    }
}

fn digit(d: u64) -> (c: char)
    requires
        d < 10,
    ensures
        c == digit_char(d as nat),
{
    if d == 0 { '0' }
    else if d == 1 { '1' }
    else if d == 2 { '2' }
    else if d == 3 { '3' }
    else if d == 4 { '4' }
    else if d == 5 { '5' }
    else if d == 6 { '6' }
    else if d == 7 { '7' }
    else if d == 8 { '8' }
    else { '9' }
}

fn push_decimal(out: &mut String, n: u64)
    ensures
        final(out)@ == old(out)@ + nat_text(n as nat),
    decreases n,
{
    if n >= 10 {
        push_decimal(out, n / 10);
    }
    out.push(digit(n % 10));
    assert(final(out)@ =~= old(out)@ + nat_text(n as nat));
}

/// The decimal text of an unsigned number.
pub fn u64_text(n: u64) -> (res: String)
    ensures
        res@ == nat_text(n as nat),
{
    let mut out = String::new();
    push_decimal(&mut out, n);
    assert(out@ =~= nat_text(n as nat));
    out
}

/// The decimal text of a count.
pub fn usize_text(n: usize) -> (res: String)
    ensures
        res@ == nat_text(n as nat),
{
    u64_text(n as u64)
}

/// The decimal text of a signed number, `-` first when negative.
pub fn i64_text(n: i64) -> (res: String)
    ensures
        res@ == int_text(n as int),
{
    let mut out = String::new();
    if n < 0 {
        out.push('-');
        let magnitude: u64 = if n == i64::MIN {
            9_223_372_036_854_775_808u64
        } else {
            (-n) as u64
        };
        push_decimal(&mut out, magnitude);
    } else {
        push_decimal(&mut out, n as u64);
    }
    assert(out@ =~= int_text(n as int));
    out
}


// ---------------------------------------------------------------- characters

/// The characters of `s`, one by one.
pub fn chars_of(s: &str) -> (res: Vec<char>)
    ensures
        res@ == s@,
{
    let mut out: Vec<char> = Vec::new();
    for c in it: s.chars()
        invariant
            it.seq() == s@,
            out@ == s@.take(it.index() as int),
    {
        let ghost i = it.index() as int;
        assert(s@.take(i + 1) == s@.take(i).push(c));
        out.push(c);
    }
    assert(s@.take(s@.len() as int) == s@);
    out
}

/// The text made of `v[from..to]`.
pub fn string_of(v: &Vec<char>, from: usize, to: usize) -> (res: String)
    requires
        from <= to <= v.len(),
    ensures
        res@ == v@.subrange(from as int, to as int),
{
    let mut out = String::new();
    let mut i = from;
    while i < to
        invariant
            from <= i <= to <= v.len(),
            out@ == v@.subrange(from as int, i as int),
        decreases to - i,
    {
        out.push(v[i]);
        i = i + 1;
        assert(out@ =~= v@.subrange(from as int, i as int));
    }
    out
}

// ---------------------------------------------------------------- searching

/// The first position at or after `i` where `p` occurs in `s`, as `str`'s own
/// left-to-right search finds it.
pub open spec fn match_from(s: Seq<char>, p: Seq<char>, i: int) -> Option<int>
    decreases s.len() - i,
{
    if i < 0 || i + p.len() > s.len() {
        None
    } else if p.len() == 0 || s.subrange(i, i + p.len()) == p {
        Some(i)
    } else {
        match_from(s, p, i + 1)
    }
}

/// Whether `p` occurs anywhere in `s`.
pub open spec fn has_substring(s: Seq<char>, p: Seq<char>) -> bool {
    match_from(s, p, 0) is Some
}

/// A match found from `i` lies at or after `i`, fits in `s`, and is `p`.
pub proof fn lemma_match_from_bounds(s: Seq<char>, p: Seq<char>, i: int)
    ensures
        match_from(s, p, i) matches Some(j) ==> {
            &&& i <= j
            &&& j + p.len() <= s.len()
            &&& s.subrange(j, j + p.len()) == p
        },
    decreases s.len() - i,
{
    if i < 0 || i + p.len() > s.len() {
    } else if p.len() == 0 || s.subrange(i, i + p.len()) == p {
        if p.len() == 0 {
            assert(s.subrange(i, i + p.len()) =~= p);
        }
    } else {
        lemma_match_from_bounds(s, p, i + 1);
    }
}

fn occurs_at(s: &Vec<char>, p: &Vec<char>, i: usize) -> (res: bool)
    requires
        i + p.len() <= s.len(),
    ensures
        res == (s@.subrange(i as int, i + p.len()) == p@),
{
    let mut k: usize = 0;
    while k < p.len()
        invariant
            k <= p.len(),
            i + p.len() <= s.len(),
            forall|m: int| 0 <= m < k ==> s@[i + m] == p@[m],
        decreases p.len() - k,
    {
        if s[i + k] != p[k] {
            assert(s@.subrange(i as int, i + p.len())[k as int] != p@[k as int]);
            return false;
        }
        k = k + 1;
    }
    assert(s@.subrange(i as int, i + p.len()) =~= p@);
    true
}

/// Finds the first occurrence of `p` in `s` at or after `start`.
pub fn find_from(s: &Vec<char>, p: &Vec<char>, start: usize) -> (res: Option<usize>)
    ensures
        res matches Some(j) ==> match_from(s@, p@, start as int) == Some(j as int),
        res is None ==> match_from(s@, p@, start as int) is None,
{
    if p.len() > s.len() {
        return None;
    }
    let last = s.len() - p.len();
    let mut i = start;
    while i <= last
        invariant
            last == s.len() - p.len(),
            p.len() <= s.len(),
            start <= i,
            match_from(s@, p@, start as int) == match_from(s@, p@, i as int),
        decreases last + 1 - i,
    {
        if p.len() == 0 || occurs_at(s, p, i) {
            return Some(i);
        }
        i = i + 1;
    }
    None
}

/// Whether `p` occurs in `s`.
pub fn contains(s: &str, p: &str) -> (res: bool)
    ensures
        res == has_substring(s@, p@),
{
    let sv = chars_of(s);
    let pv = chars_of(p);
    find_from(&sv, &pv, 0).is_some()
}

// ---------------------------------------------------------------- splitting

/// The pieces of `s[start..]` between the occurrences of the non-empty
/// separator `p`, left to right, as `str::split` yields them.
pub open spec fn split_from(s: Seq<char>, p: Seq<char>, start: int) -> Seq<Seq<char>>
    decreases s.len() - start,
{
    if p.len() == 0 || start < 0 || start > s.len() {
        seq![s.subrange(start, s.len() as int)]
    } else {
        match match_from(s, p, start) {
            None => seq![s.subrange(start, s.len() as int)],
            Some(j) => {
                proof {
                    lemma_match_from_bounds(s, p, start);
                }
                seq![s.subrange(start, j)] + split_from(s, p, j + p.len())
            },
        }
    }
}

/// The pieces of `s` between the occurrences of the non-empty separator `p`.
pub open spec fn split_on(s: Seq<char>, p: Seq<char>) -> Seq<Seq<char>> {
    split_from(s, p, 0)
}

/// Splits `s` on every occurrence of the non-empty separator `p`.
pub fn split_text(s: &str, p: &str) -> (res: Vec<String>)
    requires
        p@.len() > 0,
    ensures
        res@.map_values(|x: String| x@) == split_on(s@, p@),
{
    let sv = chars_of(s);
    let pv = chars_of(p);
    let mut out: Vec<String> = Vec::new();
    let mut start: usize = 0;
    loop
        invariant
            sv@ == s@,
            pv@ == p@,
            pv.len() > 0,
            start <= sv.len(),
            out@.map_values(|x: String| x@) + split_from(s@, p@, start as int) == split_on(s@, p@),
        decreases sv.len() - start,
    {
        let ghost prev = out@.map_values(|x: String| x@);
        match find_from(&sv, &pv, start) {
            None => {
                let piece = string_of(&sv, start, sv.len());
                out.push(piece);
                assert(out@.map_values(|x: String| x@) =~= prev.push(piece@));
                assert(out@.map_values(|x: String| x@) =~= split_on(s@, p@));
                return out;
            },
            Some(j) => {
                proof {
                    lemma_match_from_bounds(s@, p@, start as int);
                }
                let piece = string_of(&sv, start, j);
                out.push(piece);
                assert(out@.map_values(|x: String| x@) =~= prev.push(piece@));
                assert(split_from(s@, p@, start as int) == seq![piece@] + split_from(s@, p@, j + p@.len()));
                assert(prev + (seq![piece@] + split_from(s@, p@, j + p@.len())) =~= prev.push(piece@) + split_from(s@, p@, j + p@.len()));
                start = j + pv.len();
            },
        }
    }
}

// ---------------------------------------------------------------- replacing

/// `s[start..]` with every occurrence of the non-empty pattern `p` replaced
/// by `w`, left to right and without overlaps, as `str::replace` does.
pub open spec fn replaced_from(s: Seq<char>, p: Seq<char>, w: Seq<char>, start: int) -> Seq<char>
    decreases s.len() - start,
{
    if p.len() == 0 || start < 0 || start > s.len() {
        s.subrange(start, s.len() as int)
    } else {
        match match_from(s, p, start) {
            None => s.subrange(start, s.len() as int),
            Some(j) => {
                proof {
                    lemma_match_from_bounds(s, p, start);
                }
                s.subrange(start, j) + w + replaced_from(s, p, w, j + p.len())
            },
        }
    }
}

/// `s` with every occurrence of the non-empty pattern `p` replaced by `w`.
pub open spec fn replaced(s: Seq<char>, p: Seq<char>, w: Seq<char>) -> Seq<char> {
    replaced_from(s, p, w, 0)
}

/// Replaces every occurrence of the non-empty pattern `p` in `s` with `w`.
pub fn replace_all(s: &str, p: &str, w: &str) -> (res: String)
    requires
        p@.len() > 0,
    ensures
        res@ == replaced(s@, p@, w@),
{
    let sv = chars_of(s);
    let pv = chars_of(p);
    let mut out = String::new();
    let mut start: usize = 0;
    loop
        invariant
            sv@ == s@,
            pv@ == p@,
            pv.len() > 0,
            start <= sv.len(),
            out@ + replaced_from(s@, p@, w@, start as int) == replaced(s@, p@, w@),
        decreases sv.len() - start,
    {
        let ghost prev = out@;
        match find_from(&sv, &pv, start) {
            None => {
                let piece = string_of(&sv, start, sv.len());
                out.append(piece.as_str());
                return out;
            },
            Some(j) => {
                proof {
                    lemma_match_from_bounds(s@, p@, start as int);
                }
                let piece = string_of(&sv, start, j);
                out.append(piece.as_str());
                out.append(w);
                assert(prev + (piece@ + w@ + replaced_from(s@, p@, w@, j + p@.len())) =~= out@ + replaced_from(s@, p@, w@, j + p@.len()));
                start = j + pv.len();
            },
        }
    }
}

// ---------------------------------------------------------------- trimming

/// Whether `c` has Unicode's `White_Space` property, the set `char::is_whitespace`
/// documents.
pub open spec fn is_white_space(c: char) -> bool {
    ||| ('\u{9}' <= c && c <= '\u{d}')
    ||| c == ' '
    ||| c == '\u{85}'
    ||| c == '\u{a0}'
    ||| c == '\u{1680}'
    ||| ('\u{2000}' <= c && c <= '\u{200a}')
    ||| c == '\u{2028}'
    ||| c == '\u{2029}'
    ||| c == '\u{202f}'
    ||| c == '\u{205f}'
    ||| c == '\u{3000}'
}

fn white_space(c: char) -> (res: bool)
    ensures
        res == is_white_space(c),
{
    ('\u{9}' <= c && c <= '\u{d}') || c == ' ' || c == '\u{85}' || c == '\u{a0}' || c == '\u{1680}'
        || ('\u{2000}' <= c && c <= '\u{200a}') || c == '\u{2028}' || c == '\u{2029}'
        || c == '\u{202f}' || c == '\u{205f}' || c == '\u{3000}'
}

/// `s` without its trailing white space.
pub open spec fn trimmed_end(s: Seq<char>) -> Seq<char>
    decreases s.len(),
{
    if s.len() > 0 && is_white_space(s.last()) {
        trimmed_end(s.drop_last())
    } else {
        s
    }
}

/// `s` without its leading white space.
pub open spec fn trimmed_start(s: Seq<char>) -> Seq<char>
    decreases s.len(),
{
    if s.len() > 0 && is_white_space(s[0]) {
        trimmed_start(s.drop_first())
    } else {
        s
    }
}

/// `s` without leading or trailing white space.
pub open spec fn trimmed(s: Seq<char>) -> Seq<char> {
    trimmed_end(trimmed_start(s))
}

/// The end index of `v` once trailing white space is dropped.
fn trim_end_index(v: &Vec<char>) -> (e: usize)
    ensures
        e <= v.len(),
        trimmed_end(v@) == v@.take(e as int),
{
    let mut e = v.len();
    assert(v@.take(e as int) == v@);
    while e > 0 && white_space(v[e - 1])
        invariant
            e <= v.len(),
            trimmed_end(v@) == trimmed_end(v@.take(e as int)),
        decreases e,
    {
        assert(v@.take(e as int).drop_last() == v@.take(e - 1));
        e = e - 1;
    }
    e
}

/// `s` with leading and trailing white space removed, as `str::trim` does.
pub fn trim(s: &str) -> (res: String)
    ensures
        res@ == trimmed(s@),
{
    let v = chars_of(s);
    let mut b: usize = 0;
    assert(v@.skip(0) == v@);
    while b < v.len() && white_space(v[b])
        invariant
            b <= v.len(),
            trimmed_start(v@) == trimmed_start(v@.skip(b as int)),
        decreases v.len() - b,
    {
        assert(v@.skip(b as int).drop_first() == v@.skip(b + 1));
        b = b + 1;
    }
    let rest = string_of(&v, b, v.len());
    assert(rest@ == v@.skip(b as int));
    let rv = chars_of(rest.as_str());
    let e = trim_end_index(&rv);
    let out = string_of(&rv, 0, e);
    assert(rv@.subrange(0, e as int) == rv@.take(e as int));
    out
}

// ---------------------------------------------------------------- joining

/// The pieces laid end to end with `sep` between neighbours.
pub open spec fn joined(items: Seq<Seq<char>>, sep: Seq<char>) -> Seq<char>
    decreases items.len(),
{
    if items.len() == 0 {
        seq![]
    } else if items.len() == 1 {
        items[0]
    } else {
        joined(items.drop_last(), sep) + sep + items.last()
    }
}

/// The pieces laid end to end.
pub open spec fn concat(items: Seq<Seq<char>>) -> Seq<char>
    decreases items.len(),
{
    if items.len() == 0 {
        seq![]
    } else {
        concat(items.drop_last()) + items.last()
    }
}

/// Laying two lists of pieces end to end lays their texts end to end.
pub proof fn lemma_concat_append(a: Seq<Seq<char>>, b: Seq<Seq<char>>)
    ensures
        concat(a + b) == concat(a) + concat(b),
    decreases b.len(),
{
    if b.len() == 0 {
        assert(a + b =~= a);
        assert(concat(a) + concat(b) =~= concat(a));
    } else {
        lemma_concat_append(a, b.drop_last());
        assert((a + b).drop_last() =~= a + b.drop_last());
        assert((a + b).last() == b.last());
        assert(concat(a) + concat(b.drop_last()) + b.last() =~= concat(a) + (concat(b.drop_last()) + b.last()));
    }
}

/// The text of the pieces is that of the pieces before `i`, then piece `i`,
/// then that of the pieces after it.
pub proof fn lemma_concat_at(items: Seq<Seq<char>>, i: int)
    requires
        0 <= i < items.len(),
    ensures
        concat(items) == concat(items.take(i)) + items[i] + concat(items.skip(i + 1)),
{
    assert(items =~= items.take(i) + (seq![items[i]] + items.skip(i + 1)));
    lemma_concat_append(items.take(i), seq![items[i]] + items.skip(i + 1));
    lemma_concat_append(seq![items[i]], items.skip(i + 1));
    let one = seq![items[i]];
    assert(one.drop_last() =~= Seq::<Seq<char>>::empty());
    assert(concat(one.drop_last()) == Seq::<char>::empty());
    assert(concat(one) == concat(one.drop_last()) + one.last());
    assert(concat(one) =~= items[i]);
    assert(concat(items.take(i)) + (items[i] + concat(items.skip(i + 1)))
        =~= concat(items.take(i)) + items[i] + concat(items.skip(i + 1)));
}

proof fn lemma_match_reaches(s: Seq<char>, p: Seq<char>, i: int, k: int)
    requires
        0 <= i <= k,
        k + p.len() <= s.len(),
        s.subrange(k, k + p.len()) == p,
    ensures
        match_from(s, p, i) is Some,
    decreases k - i,
{
    if i < k && !(p.len() == 0 || s.subrange(i, i + p.len()) == p) {
        lemma_match_reaches(s, p, i + 1, k);
    }
}

/// A text laid between two others is found in the whole.
pub proof fn lemma_found_between(pre: Seq<char>, p: Seq<char>, post: Seq<char>)
    ensures
        has_substring(pre + p + post, p),
{
    let s = pre + p + post;
    assert(s.subrange(pre.len() as int, (pre.len() + p.len()) as int) =~= p);
    lemma_match_reaches(s, p, 0, pre.len() as int);
}

/// Putting a piece in front of a non-empty list puts it, and a separator,
/// in front of their joining.
pub proof fn lemma_joined_prepend(a: Seq<char>, rest: Seq<Seq<char>>, sep: Seq<char>)
    requires
        rest.len() >= 1,
    ensures
        joined(seq![a] + rest, sep) == a + sep + joined(rest, sep),
    decreases rest.len(),
{
    let all = seq![a] + rest;
    if rest.len() == 1 {
        assert(all.drop_last() =~= seq![a]);
        assert(joined(all.drop_last(), sep) == a);
        assert(all.last() == rest[0]);
        assert(joined(rest, sep) == rest[0]);
    } else {
        assert(all.drop_last() =~= seq![a] + rest.drop_last());
        lemma_joined_prepend(a, rest.drop_last(), sep);
        assert(all.last() == rest.last());
        assert(joined(rest, sep) == joined(rest.drop_last(), sep) + sep + rest.last());
        assert(joined(all, sep) == joined(all.drop_last(), sep) + sep + all.last());
        assert(a + sep + joined(rest.drop_last(), sep) + sep + rest.last() =~= a + sep + (joined(rest.drop_last(), sep) + sep + rest.last()));
    }
}

proof fn lemma_split_join_from(s: Seq<char>, p: Seq<char>, start: int)
    requires
        p.len() > 0,
        0 <= start <= s.len(),
    ensures
        split_from(s, p, start).len() >= 1,
        joined(split_from(s, p, start), p) == s.subrange(start, s.len() as int),
    decreases s.len() - start,
{
    lemma_match_from_bounds(s, p, start);
    match match_from(s, p, start) {
        None => {},
        Some(j) => {
            let rest = split_from(s, p, j + p.len());
            lemma_split_join_from(s, p, j + p.len());
            lemma_joined_prepend(s.subrange(start, j), rest, p);
            assert(s.subrange(start, j) + p + s.subrange(j + p.len(), s.len() as int) =~= s.subrange(start, s.len() as int));
        },
    }
}

/// Splitting on a separator loses nothing but the separators: joining the
/// pieces back with it gives the text again.
pub proof fn law_split_then_join(s: Seq<char>, p: Seq<char>)
    requires
        p.len() > 0,
    ensures
        joined(split_on(s, p), p) == s,
{
    lemma_split_join_from(s, p, 0);
    assert(s.subrange(0, s.len() as int) =~= s);
}

/// Joins `items` with `sep` between neighbours, as `[String]::join` does.
pub fn join(items: &Vec<String>, sep: &str) -> (res: String)
    ensures
        res@ == joined(items@.map_values(|x: String| x@), sep@),
{
    let ghost views = items@.map_values(|x: String| x@);
    let mut out = String::new();
    let mut i: usize = 0;
    while i < items.len()
        invariant
            i <= items.len(),
            views == items@.map_values(|x: String| x@),
            out@ == joined(views.take(i as int), sep@),
        decreases items.len() - i,
    {
        assert(views.take(i + 1).drop_last() == views.take(i as int));
        if i > 0 {
            out.append(sep);
        }
        out.append(items[i].as_str());
        i = i + 1;
    }
    assert(views.take(i as int) == views);
    out
}

} // verus!
