use vstd::prelude::*;
use vstd::string::*;

verus! {

/// Whitespace in the sense of Unicode `White_Space`, the set `str::trim`
/// strips from both ends of a string.
pub open spec fn is_space(c: char) -> bool {
    let u = c as u32;
    u == 0x20 || (0x09 <= u && u <= 0x0D) || u == 0x85 || u == 0xA0 || u == 0x1680 || (0x2000
        <= u && u <= 0x200A) || u == 0x2028 || u == 0x2029 || u == 0x202F || u == 0x205F || u
        == 0x3000
}

pub open spec fn trim_front(s: Seq<char>) -> Seq<char>
    decreases s.len(),
{
    if s.len() > 0 && is_space(s[0]) {
        trim_front(s.skip(1))
    } else {
        s
    }
}

pub open spec fn trim_back(s: Seq<char>) -> Seq<char>
    decreases s.len(),
{
    if s.len() > 0 && is_space(s[s.len() - 1]) {
        trim_back(s.take(s.len() - 1))
    } else {
        s
    }
}

/// The string with leading and trailing whitespace removed.
pub open spec fn trimmed(s: Seq<char>) -> Seq<char> {
    trim_back(trim_front(s))
}

/// The template with every occurrence of the two-character marker `{}`
/// replaced by `v`, scanning left to right without overlap.
pub open spec fn replaced(t: Seq<char>, v: Seq<char>) -> Seq<char>
    decreases t.len(),
{
    if t.len() >= 2 && t[0] == '{' && t[1] == '}' {
        v + replaced(t.skip(2), v)
    } else if t.len() >= 1 {
        seq![t[0]] + replaced(t.skip(1), v)
    } else {
        Seq::<char>::empty()
    }
}

/// What `String::from_utf8_lossy` decodes the bytes to.
pub uninterp spec fn lossy_decode(bytes: Seq<u8>) -> Seq<char>;

pub open spec fn all_ascii(bytes: Seq<u8>) -> bool {
    forall|i: int| 0 <= i < bytes.len() ==> bytes[i] < 128
}

pub open spec fn ascii_chars(bytes: Seq<u8>) -> Seq<char> {
    bytes.map(|i: int, b: u8| b as char)
}

/// The full output formatting: decode the raw bytes, trim whitespace from
/// both ends, substitute the result for every marker in the template.
pub open spec fn formatted_output(template: Seq<char>, raw: Seq<u8>) -> Seq<char> {
    replaced(template, trimmed(lossy_decode(raw)))
}

/// Relies on `String::from_utf8_lossy`: the decoding is a pure function of
/// the bytes alone; valid UTF-8 — in particular pure ASCII — passes through
/// unchanged, and invalid sequences are replaced with U+FFFD.
#[verifier::external_body]
fn utf8_lossy(bytes: &[u8]) -> (r: String)
    ensures
        r@ == lossy_decode(bytes@),
        all_ascii(bytes@) ==> r@ == ascii_chars(bytes@),
{
    String::from_utf8_lossy(bytes).into_owned()
}

fn is_space_char(c: char) -> (b: bool)
    ensures
        b == is_space(c),
{
    let u: u32 = c as u32;
    u == 0x20 || (0x09 <= u && u <= 0x0D) || u == 0x85 || u == 0xA0 || u == 0x1680 || (0x2000
        <= u && u <= 0x200A) || u == 0x2028 || u == 0x2029 || u == 0x202F || u == 0x205F || u
        == 0x3000
}

/// A copy of `s` with leading and trailing whitespace removed.
pub fn trim_str(s: &str) -> (r: String)
    ensures
        r@ == trimmed(s@),
{
    let n: usize = s.unicode_len();
    let mut start: usize = 0;
    proof {
        assert(s@.skip(0) =~= s@);
    }
    while start < n && is_space_char(s.get_char(start))
        invariant
            0 <= start <= n,
            n == s@.len(),
            trim_front(s@) == trim_front(s@.skip(start as int)),
        decreases n - start,
    {
        proof {
            assert(s@.skip(start as int)[0] == s@[start as int]);
            assert(s@.skip(start as int).skip(1) =~= s@.skip(start as int + 1));
        }
        start += 1;
    }
    proof {
        if start < n {
            assert(s@.skip(start as int)[0] == s@[start as int]);
        }
        assert(trim_front(s@) == s@.skip(start as int));
        assert(s@.skip(start as int) =~= s@.subrange(start as int, n as int));
    }
    let mut end: usize = n;
    while end > start && is_space_char(s.get_char(end - 1))
        invariant
            start <= end <= n,
            n == s@.len(),
            trim_front(s@) == s@.skip(start as int),
            trim_back(s@.skip(start as int)) == trim_back(
                s@.subrange(start as int, end as int),
            ),
        decreases end,
    {
        proof {
            let sub = s@.subrange(start as int, end as int);
            assert(sub.len() == end - start);
            assert(sub[sub.len() - 1] == s@[end as int - 1]);
            assert(sub.take(sub.len() - 1) =~= s@.subrange(start as int, end as int - 1));
        }
        end -= 1;
    }
    proof {
        let sub = s@.subrange(start as int, end as int);
        if end > start {
            assert(sub[sub.len() - 1] == s@[end as int - 1]);
        }
        assert(trim_back(sub) == sub);
        assert(trimmed(s@) == s@.subrange(start as int, end as int));
    }
    let out = s.substring_char(start, end);
    out.to_owned()
}

/// A copy of the template with each marker occurrence replaced by `v`.
pub fn replace_markers(t: &str, v: &str) -> (r: String)
    ensures
        r@ == replaced(t@, v@),
{
    let n: usize = t.unicode_len();
    let mut r = String::new();
    let mut i: usize = 0;
    proof {
        assert(t@.skip(0) =~= t@);
        assert(Seq::<char>::empty() + replaced(t@, v@) =~= replaced(t@, v@));
    }
    while i < n
        invariant
            0 <= i <= n,
            n == t@.len(),
            replaced(t@, v@) == r@ + replaced(t@.skip(i as int), v@),
        decreases n - i,
    {
        let ghost r_old = r@;
        let ghost rest = t@.skip(i as int);
        let c = t.get_char(i);
        proof {
            assert(rest[0] == t@[i as int]);
        }
        if c == '{' && i + 1 < n && t.get_char(i + 1) == '}' {
            r.append(v);
            proof {
                assert(rest.len() >= 2);
                assert(rest[1] == t@[i as int + 1]);
                assert(replaced(rest, v@) == v@ + replaced(rest.skip(2), v@));
                assert(rest.skip(2) =~= t@.skip(i as int + 2));
                assert(r_old + (v@ + replaced(t@.skip(i as int + 2), v@)) =~= (r_old + v@)
                    + replaced(t@.skip(i as int + 2), v@));
            }
            i += 2;
        } else {
            let piece = t.substring_char(i, i + 1);
            r.append(piece);
            proof {
                assert(!(rest.len() >= 2 && rest[0] == '{' && rest[1] == '}')) by {
                    if rest.len() >= 2 {
                        assert(rest[1] == t@[i as int + 1]);
                    }
                }
                assert(replaced(rest, v@) == seq![rest[0]] + replaced(rest.skip(1), v@));
                assert(piece@ =~= seq![rest[0]]);
                assert(rest.skip(1) =~= t@.skip(i as int + 1));
                assert(r_old + (piece@ + replaced(t@.skip(i as int + 1), v@)) =~= (r_old
                    + piece@) + replaced(t@.skip(i as int + 1), v@));
            }
            i += 1;
        }
    }
    proof {
        assert(t@.skip(n as int) =~= Seq::<char>::empty());
        assert(replaced(Seq::<char>::empty(), v@) == Seq::<char>::empty());
        assert(r@ + Seq::<char>::empty() =~= r@);
    }
    r
}

/// The two-character substitution marker.
pub open spec fn marker() -> Seq<char> {
    seq!['{', '}']
}

/// Whether the string contains an occurrence of the marker.
pub open spec fn has_marker(s: Seq<char>) -> bool {
    exists|i: int| 0 <= i && i + 1 < s.len() && #[trigger] s[i] == '{' && s[i + 1] == '}'
}

proof fn lemma_replaced_marker_head(rest: Seq<char>, v: Seq<char>)
    ensures
        replaced(marker() + rest, v) == v + replaced(rest, v),
{
    let s = marker() + rest;
    assert(s.len() >= 2);
    assert(s[0] == '{');
    assert(s[1] == '}');
    assert(s.skip(2) =~= rest);
}

proof fn lemma_replaced_clean_prefix(p: Seq<char>, rest: Seq<char>, v: Seq<char>)
    requires
        !has_marker(p),
        p.len() > 0 && rest.len() > 0 ==> !(p[p.len() - 1] == '{' && rest[0] == '}'),
    ensures
        replaced(p + rest, v) == p + replaced(rest, v),
    decreases p.len(),
{
    let s = p + rest;
    if p.len() == 0 {
        assert(s =~= rest);
        assert(p + replaced(rest, v) =~= replaced(rest, v));
    } else {
        assert(s[0] == p[0]);
        assert(!(s.len() >= 2 && s[0] == '{' && s[1] == '}')) by {
            if s.len() >= 2 && s[0] == '{' && s[1] == '}' {
                if p.len() >= 2 {
                    assert(s[1] == p[1]);
                    assert(p[0] == '{' && p[1] == '}');
                    assert(has_marker(p));
                } else {
                    assert(s[1] == rest[0]);
                    assert(p[p.len() - 1] == '{' && rest[0] == '}');
                }
            }
        }
        assert(replaced(s, v) == seq![s[0]] + replaced(s.skip(1), v));
        assert(s.skip(1) =~= p.skip(1) + rest);
        assert(!has_marker(p.skip(1))) by {
            if has_marker(p.skip(1)) {
                let i = choose|i: int|
                    0 <= i && i + 1 < p.skip(1).len() && #[trigger] p.skip(1)[i] == '{' && p.skip(
                        1,
                    )[i + 1] == '}';
                assert(p[i + 1] == '{' && p[i + 2] == '}');
                assert(0 <= i + 1 && i + 1 + 1 < p.len() && p[i + 1] == '{' && p[i + 1 + 1]
                    == '}');
                assert(has_marker(p));
            }
        }
        assert(p.skip(1).len() > 0 && rest.len() > 0 ==> !(p.skip(1)[p.skip(1).len() - 1] == '{'
            && rest[0] == '}')) by {
            if p.len() > 1 {
                assert(p.skip(1)[p.skip(1).len() - 1] == p[p.len() - 1]);
            }
        }
        lemma_replaced_clean_prefix(p.skip(1), rest, v);
        assert(seq![s[0]] + (p.skip(1) + replaced(rest, v)) =~= p + replaced(rest, v));
    }
}

/// Every occurrence of the marker is substituted with the same value: a
/// template assembled from marker-free pieces around two markers renders as
/// those pieces with the one value standing in both places.
pub proof fn lemma_markers_all_get_same_value(
    a: Seq<char>,
    b: Seq<char>,
    c: Seq<char>,
    v: Seq<char>,
)
    requires
        !has_marker(a),
        !has_marker(b),
        !has_marker(c),
    ensures
        replaced(a + marker() + b + marker() + c, v) == a + v + b + v + c,
{
    let m = marker();
    // replaced(c, v) == c
    assert(c + Seq::<char>::empty() =~= c);
    assert(replaced(Seq::<char>::empty(), v) == Seq::<char>::empty());
    lemma_replaced_clean_prefix(c, Seq::<char>::empty(), v);
    assert(c + replaced(Seq::<char>::empty(), v) =~= c);
    assert(replaced(c, v) == c);
    // replaced(m + c, v) == v + c
    lemma_replaced_marker_head(c, v);
    // replaced(b + m + c, v) == b + (v + c)
    assert((m + c)[0] == '{');
    lemma_replaced_clean_prefix(b, m + c, v);
    assert(b + replaced(m + c, v) == b + (v + replaced(c, v)));
    // replaced(m + b + m + c, v) == v + (b + (v + c))
    lemma_replaced_marker_head(b + (m + c), v);
    // replaced(a + m + b + m + c, v) == a + (v + (b + (v + c)))
    assert((m + (b + (m + c)))[0] == '{');
    lemma_replaced_clean_prefix(a, m + (b + (m + c)), v);
    assert(a + m + b + m + c =~= a + (m + (b + (m + c))));
    assert(v + replaced(b + (m + c), v) == v + (b + (v + replaced(c, v))));
    assert(a + (v + (b + (v + c))) =~= a + v + b + v + c);
}

/// Decode the raw command output, trim it, and substitute it into the
/// template at every marker.
pub fn render_output(template: &str, raw: &[u8]) -> (r: String)
    ensures
        r@ == formatted_output(template@, raw@),
        all_ascii(raw@) ==> r@ == replaced(template@, trimmed(ascii_chars(raw@))),
{
    let decoded = utf8_lossy(raw);
    let trimmed_text = trim_str(decoded.as_str());
    replace_markers(template, trimmed_text.as_str())
}

} // verus!
