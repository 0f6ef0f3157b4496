//! Text primitives shared by the command builder and the engine gateway:
//! substring search, trimming, splitting and decimal rendering, each with a
//! mathematical model over `Seq<char>`.

use vstd::prelude::*;
use vstd::string::*;

verus! {

/// The characters that carry the Unicode `White_Space` property.
pub open spec fn whitespace(c: char) -> bool {
    ||| ('\u{9}' <= c && c <= '\u{d}')
    ||| c == ' '
    ||| c == '\u{85}'
    ||| c == '\u{a0}'
    ||| c == '\u{1680}'
    ||| ('\u{2000}' <= c && c <= '\u{200a}')
    ||| c == '\u{2028}'
    ||| c == '\u{2029}'
    ||| c == '\u{202f}'
    ||| c == '\u{205f}'
    ||| c == '\u{3000}'
}

/// `needle` occurs in `hay` starting at position `at`.
pub open spec fn occurs_at(hay: Seq<char>, needle: Seq<char>, at: int) -> bool {
    &&& 0 <= at
    &&& at + needle.len() <= hay.len()
    &&& hay.subrange(at, at + needle.len()) == needle
}

/// `needle` occurs somewhere in `hay`.
pub open spec fn has_part(hay: Seq<char>, needle: Seq<char>) -> bool {
    exists|at: int| occurs_at(hay, needle, at)
}

/// `s` begins with `prefix`.
pub open spec fn has_prefix(s: Seq<char>, prefix: Seq<char>) -> bool {
    occurs_at(s, prefix, 0)
}

/// `s` without its leading whitespace.
pub open spec fn trimmed_start(s: Seq<char>) -> Seq<char>
    decreases s.len(),
{
    if s.len() > 0 && whitespace(s[0]) {
        trimmed_start(s.drop_first())
    } else {
        s
    }
}

/// `s` without its trailing whitespace.
pub open spec fn trimmed_end(s: Seq<char>) -> Seq<char>
    decreases s.len(),
{
    if s.len() > 0 && whitespace(s.last()) {
        trimmed_end(s.drop_last())
    } else {
        s
    }
}

/// `s` without leading and trailing whitespace.
pub open spec fn trimmed(s: Seq<char>) -> Seq<char> {
    trimmed_end(trimmed_start(s))
}

/// The fields of `s` when every occurrence of `sep` ends one field and
/// starts the next. There is always at least one field; the empty text has
/// one empty field.
pub open spec fn fields(s: Seq<char>, sep: char) -> Seq<Seq<char>>
    decreases s.len(),
{
    if s.len() == 0 {
        seq![Seq::<char>::empty()]
    } else {
        let before = fields(s.drop_last(), sep);
        if s.last() == sep {
            before.push(Seq::<char>::empty())
        } else {
            before.drop_last().push(before.last().push(s.last()))
        }
    }
}

/// The character that stands for the digit `d`.
pub open spec fn digit(d: int) -> char {
    if d == 0 {
        '0'
    } else if d == 1 {
        '1'
    } else if d == 2 {
        '2'
    } else if d == 3 {
        '3'
    } else if d == 4 {
        '4'
    } else if d == 5 {
        '5'
    } else if d == 6 {
        '6'
    } else if d == 7 {
        '7'
    } else if d == 8 {
        '8'
    } else {
        '9'
    }
}

/// The decimal digits of `n`, most significant first, without leading zeros.
pub open spec fn decimal_nat(n: nat) -> Seq<char>
    decreases n,
{
    if n < 10 {
        seq![digit(n as int)]
    } else {
        decimal_nat(n / 10).push(digit((n % 10) as int))
    }
}

/// The decimal rendering of `i`, with a leading `-` when it is negative.
pub open spec fn decimal(i: int) -> Seq<char> {
    if i < 0 {
        seq!['-'] + decimal_nat((-i) as nat)
    } else {
        decimal_nat(i as nat)
    }
}

/// Whether two texts hold the same characters.
pub fn same_text(a: &str, b: &str) -> (r: bool)
    ensures
        r == (a@ == b@),
{
    String::from_str(a) == String::from_str(b)
}

/// `a` followed by `b`.
pub fn join2(a: &str, b: &str) -> (r: String)
    ensures
        r@ == a@ + b@,
{
    let mut s = String::from_str(a);
    s.append(b);
    s
}

/// `a` followed by `b` and then `c`.
pub fn join3(a: &str, b: &str, c: &str) -> (r: String)
    ensures
        r@ == a@ + b@ + c@,
{
    let mut s = String::from_str(a);
    s.append(b);
    s.append(c);
    s
}

/// Appends `s` to `out`.
pub fn push_text(out: &mut Vec<String>, s: String)
    ensures
        final(out).deep_view() == old(out).deep_view().push(s@),
{
    let ghost shown = out.deep_view();
    out.push(s);
    assert(out.deep_view() =~= shown.push(s@));
}

/// Appends copies of the texts of `more` to `out`.
pub fn push_all(out: &mut Vec<String>, more: &Vec<String>)
    ensures
        final(out).deep_view() == old(out).deep_view() + more.deep_view(),
{
    let mut at: usize = 0;
    assert(more.deep_view().take(0) =~= Seq::<Seq<char>>::empty());
    assert(out.deep_view() =~= old(out).deep_view() + more.deep_view().take(0));
    while at < more.len()
        invariant
            at <= more.len(),
            out.deep_view() == old(out).deep_view() + more.deep_view().take(at as int),
        decreases more.len() - at,
    {
        push_text(out, more[at].clone());
        assert(more.deep_view().take(at + 1) =~= more.deep_view().take(at as int).push(
            more.deep_view()[at as int],
        ));
        assert(out.deep_view() =~= old(out).deep_view() + more.deep_view().take(at + 1));
        at += 1;
    }
    assert(more.deep_view().take(at as int) =~= more.deep_view());
}

/// A copy of an optional text.
pub fn copy_optional(o: &Option<String>) -> (r: Option<String>)
    ensures
        r.deep_view() == o.deep_view(),
{
    match o {
        Some(s) => Some(s.clone()),
        None => None,
    }
}

/// A copy of a list of texts.
pub fn copy_list(v: &Vec<String>) -> (r: Vec<String>)
    ensures
        r.deep_view() == v.deep_view(),
{
    let mut out: Vec<String> = Vec::new();
    let mut at: usize = 0;
    while at < v.len()
        invariant
            at <= v.len(),
            out.deep_view() == v.deep_view().take(at as int),
        decreases v.len() - at,
    {
        let ghost shown = out.deep_view();
        out.push(v[at].clone());
        assert(out.deep_view() =~= shown.push(v.deep_view()[at as int]));
        assert(v.deep_view().take(at + 1) =~= v.deep_view().take(at as int).push(
            v.deep_view()[at as int],
        ));
        at += 1;
    }
    assert(v.deep_view().take(at as int) =~= v.deep_view());
    out
}

/// The characters of `s`, one element each.
pub fn chars_of(s: &str) -> (r: Vec<char>)
    ensures
        r@ == s@,
{
    let mut out: Vec<char> = Vec::new();
    for c in it: s.chars()
        invariant
            out@ == it.seq().take(it.index() as int),
            it.seq() == s@,
    {
        out.push(c);
    }
    out
}

/// Whether `c` is Unicode whitespace.
pub fn is_whitespace(c: char) -> (r: bool)
    ensures
        r == whitespace(c),
{
    ('\u{9}' <= c && c <= '\u{d}') || c == ' ' || c == '\u{85}' || c == '\u{a0}' || c
        == '\u{1680}' || ('\u{2000}' <= c && c <= '\u{200a}') || c == '\u{2028}' || c
        == '\u{2029}' || c == '\u{202f}' || c == '\u{205f}' || c == '\u{3000}'
}

/// Whether `needle` occurs in `hay`. The empty text occurs in every text.
pub fn contains(hay: &str, needle: &str) -> (r: bool)
    ensures
        r == has_part(hay@, needle@),
{
    let h = chars_of(hay);
    let n = chars_of(needle);
    if n.len() > h.len() {
        return false;
    }
    let last: usize = h.len() - n.len();
    let mut at: usize = 0;
    while at <= last
        invariant
            h@ == hay@,
            n@ == needle@,
            n.len() <= h.len(),
            last == h.len() - n.len(),
            at <= last + 1,
            forall|k: int| 0 <= k < at ==> !occurs_at(h@, n@, k),
        decreases last + 1 - at,
    {
        let mut j: usize = 0;
        while j < n.len() && h[at + j] == n[j]
            invariant
                at <= last,
                last == h.len() - n.len(),
                n.len() <= h.len(),
                j <= n.len(),
                forall|t: int| 0 <= t < j ==> h@[at + t] == n@[t],
            decreases n.len() - j,
        {
            j += 1;
        }
        if j == n.len() {
            assert(h@.subrange(at as int, at + n.len()) =~= n@);
            assert(occurs_at(h@, n@, at as int));
            return true;
        }
        assert(!occurs_at(h@, n@, at as int)) by {
            if occurs_at(h@, n@, at as int) {
                assert(h@.subrange(at as int, at + n.len())[j as int] == n@[j as int]);
            }
        }
        at += 1;
    }
    false
}

/// Whether `s` begins with `prefix`.
pub fn starts_with(s: &str, prefix: &str) -> (r: bool)
    ensures
        r == has_prefix(s@, prefix@),
{
    let h = chars_of(s);
    let n = chars_of(prefix);
    if n.len() > h.len() {
        return false;
    }
    let mut j: usize = 0;
    while j < n.len() && h[j] == n[j]
        invariant
            n.len() <= h.len(),
            j <= n.len(),
            forall|t: int| 0 <= t < j ==> h@[t] == n@[t],
        decreases n.len() - j,
    {
        j += 1;
    }
    if j == n.len() {
        assert(h@.subrange(0, n.len() as int) =~= n@);
        true
    } else {
        assert(!occurs_at(h@, n@, 0)) by {
            if occurs_at(h@, n@, 0) {
                assert(h@.subrange(0, n.len() as int)[j as int] == n@[j as int]);
            }
        }
        false
    }
}

/// `s` without leading and trailing whitespace.
pub fn trim(s: &str) -> (r: String)
    ensures
        r@ == trimmed(s@),
{
    let v = chars_of(s);
    let n: usize = v.len();
    let mut from: usize = 0;
    assert(v@ =~= v@.subrange(0, n as int));
    while from < n && is_whitespace(v[from])
        invariant
            v@ == s@,
            n == v.len(),
            from <= n,
            trimmed_start(v@) == trimmed_start(v@.subrange(from as int, n as int)),
        decreases n - from,
    {
        assert(v@.subrange(from as int, n as int).drop_first() =~= v@.subrange(
            from + 1,
            n as int,
        ));
        from += 1;
    }
    assert(trimmed_start(v@) == v@.subrange(from as int, n as int));
    let mut to: usize = n;
    while to > from && is_whitespace(v[to - 1])
        invariant
            v@ == s@,
            n == v.len(),
            from <= to <= n,
            trimmed(v@) == trimmed_end(v@.subrange(from as int, to as int)),
        decreases to - from,
    {
        assert(v@.subrange(from as int, to as int).drop_last() =~= v@.subrange(
            from as int,
            to - 1,
        ));
        to -= 1;
    }
    String::from_str(s.substring_char(from, to))
}

/// The fields of `s` between occurrences of `sep`, in order.
pub fn split(s: &str, sep: char) -> (r: Vec<String>)
    ensures
        r.deep_view() == fields(s@, sep),
{
    let v = chars_of(s);
    let n: usize = v.len();
    let mut out: Vec<String> = Vec::new();
    let mut from: usize = 0;
    let mut at: usize = 0;
    assert(v@.take(0) =~= Seq::<char>::empty());
    assert(out.deep_view().push(v@.subrange(0, 0)) =~= fields(v@.take(0), sep));
    while at < n
        invariant
            v@ == s@,
            n == v.len(),
            from <= at <= n,
            out.deep_view().push(v@.subrange(from as int, at as int)) == fields(
                v@.take(at as int),
                sep,
            ),
        decreases n - at,
    {
        let ghost before = fields(v@.take(at as int), sep);
        assert(v@.take(at + 1).drop_last() =~= v@.take(at as int));
        assert(v@.take(at + 1).last() == v@[at as int]);
        if v[at] == sep {
            let piece = String::from_str(s.substring_char(from, at));
            let ghost shown = out.deep_view();
            out.push(piece);
            assert(out.deep_view() =~= shown.push(v@.subrange(from as int, at as int)));
            from = at + 1;
            assert(v@.subrange(from as int, at + 1) =~= Seq::<char>::empty());
        } else {
            assert(before.drop_last() =~= out.deep_view());
            assert(before.last() == v@.subrange(from as int, at as int));
            assert(v@.subrange(from as int, at as int).push(v@[at as int]) =~= v@.subrange(
                from as int,
                at + 1,
            ));
        }
        at += 1;
    }
    assert(v@.take(n as int) =~= v@);
    let piece = String::from_str(s.substring_char(from, n));
    let ghost shown = out.deep_view();
    out.push(piece);
    assert(out.deep_view() =~= shown.push(v@.subrange(from as int, n as int)));
    out
}

/// The text of one decimal digit.
fn digit_text(d: u8) -> (r: &'static str)
    requires
        d < 10,
    ensures
        r@ == seq![digit(d as int)],
{
    proof {
        reveal_strlit("0");
        reveal_strlit("1");
        reveal_strlit("2");
        reveal_strlit("3");
        reveal_strlit("4");
        reveal_strlit("5");
        reveal_strlit("6");
        reveal_strlit("7");
        reveal_strlit("8");
        reveal_strlit("9");
    }
    let r = if d == 0 {
        "0"
    } else if d == 1 {
        "1"
    } else if d == 2 {
        "2"
    } else if d == 3 {
        "3"
    } else if d == 4 {
        "4"
    } else if d == 5 {
        "5"
    } else if d == 6 {
        "6"
    } else if d == 7 {
        "7"
    } else if d == 8 {
        "8"
    } else {
        "9"
    };
    assert(r@ =~= seq![digit(d as int)]);
    r
}

/// Appends the decimal digits of `n` to `out`.
fn push_decimal(out: &mut String, n: u64)
    ensures
        final(out)@ == old(out)@ + decimal_nat(n as nat),
    decreases n,
{
    if n >= 10 {
        push_decimal(out, n / 10);
    }
    let d: u8 = (n % 10) as u8;
    out.append(digit_text(d));
    assert(final(out)@ =~= old(out)@ + decimal_nat(n as nat));
}

/// The decimal rendering of `v`.
pub fn int_to_string(v: i64) -> (r: String)
    ensures
        r@ == decimal(v as int),
{
    let mut out = String::new();
    if v < 0 {
        proof {
            reveal_strlit("-");
        }
        out.append("-");
        let magnitude: u64 = if v == i64::MIN {
            9223372036854775808u64
        } else {
            (0 - v) as u64
        };
        push_decimal(&mut out, magnitude);
        assert(out@ =~= decimal(v as int));
    } else {
        push_decimal(&mut out, v as u64);
        assert(out@ =~= decimal(v as int));
    }
    out
}

/// The fields put together again, with `sep` between one and the next.
pub open spec fn joined(parts: Seq<Seq<char>>, sep: char) -> Seq<char>
    decreases parts.len(),
{
    if parts.len() == 0 {
        Seq::empty()
    } else if parts.len() == 1 {
        parts[0]
    } else {
        joined(parts.drop_last(), sep).push(sep) + parts.last()
    }
}

/// Splitting loses nothing and cuts at every separator: there is at least
/// one field, no field holds the separator, and the fields joined by the
/// separator are the text again.
pub proof fn lemma_fields_partition(s: Seq<char>, sep: char)
    ensures
        fields(s, sep).len() >= 1,
        forall|k: int, at: int|
            0 <= k < fields(s, sep).len() && 0 <= at < fields(s, sep)[k].len() ==> fields(
                s,
                sep,
            )[k][at] != sep,
        joined(fields(s, sep), sep) == s,
    decreases s.len(),
{
    if s.len() > 0 {
        let before = fields(s.drop_last(), sep);
        lemma_fields_partition(s.drop_last(), sep);
        let now = fields(s, sep);
        if s.last() == sep {
            assert(now.drop_last() =~= before);
            assert(joined(now, sep) =~= joined(before, sep).push(sep) + Seq::<char>::empty());
            assert(joined(now, sep) =~= s.drop_last().push(sep));
            assert(s.drop_last().push(s.last()) =~= s);
        } else {
            let grown = before.last().push(s.last());
            assert(now.last() == grown);
            assert(now.drop_last() =~= before.drop_last());
            if before.len() == 1 {
                assert(before[0] == joined(before, sep));
                assert(joined(now, sep) == grown);
            } else {
                assert(joined(before, sep) == joined(before.drop_last(), sep).push(sep)
                    + before.last());
                assert(joined(now, sep) =~= (joined(before.drop_last(), sep).push(sep)
                    + before.last()).push(s.last()));
            }
            assert(joined(now, sep) =~= s.drop_last().push(s.last()));
            assert(s.drop_last().push(s.last()) =~= s);
            assert forall|k: int, at: int|
                0 <= k < now.len() && 0 <= at < now[k].len() implies now[k][at] != sep by {
                if k < now.len() - 1 {
                    assert(now[k] == before[k]);
                } else if at < before.last().len() {
                    assert(now[k][at] == before.last()[at]);
                }
            }
        }
    } else {
        assert(joined(fields(s, sep), sep) =~= s);
    }
}

/// What is trimmed neither begins nor ends with whitespace.
pub proof fn lemma_trimmed_ends(s: Seq<char>)
    ensures
        trimmed(s).len() > 0 ==> !whitespace(trimmed(s)[0]) && !whitespace(trimmed(s).last()),
{
    lemma_trimmed_start_begins(s);
    lemma_trimmed_end_keeps_start(trimmed_start(s));
}

/// What is left after the leading whitespace does not begin with whitespace.
proof fn lemma_trimmed_start_begins(s: Seq<char>)
    ensures
        trimmed_start(s).len() > 0 ==> !whitespace(trimmed_start(s)[0]),
    decreases s.len(),
{
    if s.len() > 0 && whitespace(s[0]) {
        lemma_trimmed_start_begins(s.drop_first());
    }
}

/// Taking the trailing whitespace away leaves a beginning of the text that
/// does not end with whitespace.
proof fn lemma_trimmed_end_keeps_start(s: Seq<char>)
    ensures
        trimmed_end(s).len() <= s.len(),
        trimmed_end(s) == s.take(trimmed_end(s).len() as int),
        trimmed_end(s).len() > 0 ==> !whitespace(trimmed_end(s).last()),
    decreases s.len(),
{
    if s.len() > 0 && whitespace(s.last()) {
        lemma_trimmed_end_keeps_start(s.drop_last());
        assert(s.drop_last().take(trimmed_end(s).len() as int) =~= s.take(
            trimmed_end(s).len() as int,
        ));
    } else {
        assert(s.take(s.len() as int) =~= s);
    }
}

/// `a` comes before `b` in the order of the dictionary, character by
/// character: at the first place where they differ `a` has the lesser
/// character, or `a` ends there and `b` goes on.
pub open spec fn text_before(a: Seq<char>, b: Seq<char>) -> bool
    decreases a.len(),
{
    if b.len() == 0 {
        false
    } else if a.len() == 0 {
        true
    } else if a[0] != b[0] {
        a[0] < b[0]
    } else {
        text_before(a.drop_first(), b.drop_first())
    }
}

/// No text comes before itself, and of two texts at most one comes before
/// the other.
pub proof fn lemma_text_order_asymmetric(a: Seq<char>, b: Seq<char>)
    ensures
        !(text_before(a, b) && text_before(b, a)),
        !text_before(a, a),
    decreases a.len(),
{
    if a.len() > 0 {
        lemma_text_order_asymmetric(a.drop_first(), a.drop_first());
        if b.len() > 0 && a[0] == b[0] {
            lemma_text_order_asymmetric(a.drop_first(), b.drop_first());
        }
    }
}

/// Of two different texts one comes before the other.
pub proof fn lemma_text_order_total(a: Seq<char>, b: Seq<char>)
    ensures
        text_before(a, b) || a == b || text_before(b, a),
    decreases a.len(),
{
    if a.len() > 0 && b.len() > 0 && a[0] == b[0] {
        lemma_text_order_total(a.drop_first(), b.drop_first());
        if a.drop_first() == b.drop_first() {
            assert(a =~= seq![a[0]] + a.drop_first());
            assert(b =~= seq![b[0]] + b.drop_first());
        }
    } else if a.len() == 0 && b.len() == 0 {
        assert(a =~= b);
    }
}

/// What comes before a text comes before all that the text comes before.
pub proof fn lemma_text_order_transitive(a: Seq<char>, b: Seq<char>, c: Seq<char>)
    requires
        text_before(a, b),
        text_before(b, c),
    ensures
        text_before(a, c),
    decreases a.len(),
{
    if a.len() > 0 && a[0] == b[0] && b[0] == c[0] {
        lemma_text_order_transitive(a.drop_first(), b.drop_first(), c.drop_first());
    }
}

/// Whether `a` comes before `b` in the order of the dictionary.
pub fn comes_before(a: &str, b: &str) -> (r: bool)
    ensures
        r == text_before(a@, b@),
{
    let x = chars_of(a);
    let y = chars_of(b);
    let mut at: usize = 0;
    assert(x@.skip(0) =~= x@);
    assert(y@.skip(0) =~= y@);
    while at < x.len() && at < y.len() && x[at] == y[at]
        invariant
            x@ == a@,
            y@ == b@,
            at <= x.len(),
            at <= y.len(),
            text_before(a@, b@) == text_before(x@.skip(at as int), y@.skip(at as int)),
        decreases x.len() - at,
    {
        assert(x@.skip(at as int).drop_first() =~= x@.skip(at + 1));
        assert(y@.skip(at as int).drop_first() =~= y@.skip(at + 1));
        at += 1;
    }
    if at >= y.len() {
        false
    } else if at >= x.len() {
        true
    } else {
        x[at] < y[at]
    }
}

} // verus!
