//! Character-level text helpers: trimming, bold-title and body extraction.
use vstd::prelude::*;

verus! {

/// Unicode `White_Space` characters, the set that `char::is_whitespace` accepts.
pub open spec fn is_white_spec(c: char) -> bool {
    let u = c as u32;
    (0x09 <= u && u <= 0x0D) || u == 0x20 || u == 0x85 || u == 0xA0 || u == 0x1680 || (0x2000
        <= u && u <= 0x200A) || u == 0x2028 || u == 0x2029 || u == 0x202F || u == 0x205F || u
        == 0x3000
}

/// `s` without its leading white space.
pub open spec fn trim_start_seq(s: Seq<char>) -> Seq<char>
    decreases s.len(),
{
    if s.len() > 0 && is_white_spec(s[0]) {
        trim_start_seq(s.drop_first())
    } else {
        s
    }
}

/// `s` without its trailing white space.
pub open spec fn trim_end_seq(s: Seq<char>) -> Seq<char>
    decreases s.len(),
{
    if s.len() > 0 && is_white_spec(s.last()) {
        trim_end_seq(s.drop_last())
    } else {
        s
    }
}

/// `s` without white space at either end.
pub open spec fn trim_seq(s: Seq<char>) -> Seq<char> {
    trim_end_seq(trim_start_seq(s))
}

/// The first position at or after `from` where a `**` marker starts.
pub open spec fn find_marker(s: Seq<char>, from: int) -> Option<int>
    decreases s.len() - from,
{
    if from < 0 || from + 1 >= s.len() {
        None
    } else if s[from] == '*' && s[from + 1] == '*' {
        Some(from)
    } else {
        find_marker(s, from + 1)
    }
}

/// The bold-leading title of a markdown buffer: the trimmed text between the
/// first pair of `**` markers, when it is not empty.
pub open spec fn first_bold_spec(s: Seq<char>) -> Option<Seq<char>> {
    match find_marker(s, 0) {
        None => None,
        Some(open) => match find_marker(s, open + 2) {
            None => None,
            Some(close) => {
                let t = trim_seq(s.subrange(open + 2, close));
                if t.len() == 0 {
                    None
                } else {
                    Some(t)
                }
            },
        },
    }
}

/// The body that follows the bold-leading title of a reasoning block: the
/// trimmed text after the closing `**` marker, when it is not empty.
pub open spec fn reasoning_body_spec(s: Seq<char>) -> Option<Seq<char>> {
    let t = trim_seq(s);
    match find_marker(t, 0) {
        None => None,
        Some(open) => match find_marker(t, open + 2) {
            None => None,
            Some(close) => {
                let rest = trim_start_seq(t.subrange(close + 2, t.len() as int));
                if rest.len() == 0 {
                    None
                } else {
                    Some(rest)
                }
            },
        },
    }
}

/// The text of an optional string.
pub open spec fn opt_view(o: Option<String>) -> Option<Seq<char>> {
    match o {
        Some(s) => Some(s@),
        None => None,
    }
}

/// `original(translated)`.
pub open spec fn bilingual_spec(original: Seq<char>, translated: Seq<char>) -> Seq<char> {
    original + seq!['('] + translated + seq![')']
}

/// Relies on `str::chars`: the characters of `s`, in order.
#[verifier::external_body]
pub(crate) fn chars_of(s: &str) -> (r: Vec<char>)
    ensures
        r@ == s@,
{
    s.chars().collect()
}

/// Relies on `String::from_iter`: the string made of the characters of `v`, in order.
#[verifier::external_body]
pub(crate) fn string_of(v: &[char]) -> (r: String)
    ensures
        r@ == v@,
{
    v.iter().collect()
}

/// Whether `c` is Unicode white space.
pub fn is_white(c: char) -> (r: bool)
    ensures
        r == is_white_spec(c),
{
    let u = c as u32;
    (0x09 <= u && u <= 0x0D) || u == 0x20 || u == 0x85 || u == 0xA0 || u == 0x1680 || (0x2000
        <= u && u <= 0x200A) || u == 0x2028 || u == 0x2029 || u == 0x202F || u == 0x205F || u
        == 0x3000
}

/// The characters of `s` from `from` up to `to`.
fn copy_range(s: &Vec<char>, from: usize, to: usize) -> (r: Vec<char>)
    requires
        from <= to <= s@.len(),
    ensures
        r@ == s@.subrange(from as int, to as int),
{
    let mut r: Vec<char> = Vec::new();
    let mut k: usize = from;
    while k < to
        invariant
            from <= k <= to <= s@.len(),
            r@ == s@.subrange(from as int, k as int),
        decreases to - k,
    {
        r.push(s[k]);
        k = k + 1;
        assert(r@ =~= s@.subrange(from as int, k as int));
    }
    r
}

/// The position at which white space at the start of `s[from..to]` ends.
fn skip_white_start(s: &Vec<char>, from: usize, to: usize) -> (i: usize)
    requires
        from <= to <= s@.len(),
    ensures
        from <= i <= to,
        trim_start_seq(s@.subrange(from as int, to as int)) == s@.subrange(i as int, to as int),
{
    let mut i: usize = from;
    while i < to && is_white(s[i])
        invariant
            from <= i <= to <= s@.len(),
            trim_start_seq(s@.subrange(from as int, to as int)) == trim_start_seq(
                s@.subrange(i as int, to as int),
            ),
        decreases to - i,
    {
        assert(s@.subrange(i as int, to as int).drop_first() =~= s@.subrange(
            i + 1,
            to as int,
        ));
        i = i + 1;
    }
    i
}

/// The position at which white space at the end of `s[from..to]` begins.
fn skip_white_end(s: &Vec<char>, from: usize, to: usize) -> (j: usize)
    requires
        from <= to <= s@.len(),
    ensures
        from <= j <= to,
        trim_end_seq(s@.subrange(from as int, to as int)) == s@.subrange(from as int, j as int),
{
    let mut j: usize = to;
    while j > from && is_white(s[j - 1])
        invariant
            from <= j <= to <= s@.len(),
            trim_end_seq(s@.subrange(from as int, to as int)) == trim_end_seq(
                s@.subrange(from as int, j as int),
            ),
        decreases j - from,
    {
        assert(s@.subrange(from as int, j as int).drop_last() =~= s@.subrange(
            from as int,
            j - 1,
        ));
        j = j - 1;
    }
    j
}

/// The bounds of `s[from..to]` with white space removed at both ends.
fn trim_bounds(s: &Vec<char>, from: usize, to: usize) -> (r: (usize, usize))
    requires
        from <= to <= s@.len(),
    ensures
        from <= r.0 <= r.1 <= to,
        trim_seq(s@.subrange(from as int, to as int)) == s@.subrange(r.0 as int, r.1 as int),
{
    let i = skip_white_start(s, from, to);
    let j = skip_white_end(s, i, to);
    (i, j)
}

/// `s` with white space removed at both ends.
pub fn trim_chars(s: &Vec<char>) -> (r: Vec<char>)
    ensures
        r@ == trim_seq(s@),
{
    assert(s@.subrange(0, s@.len() as int) =~= s@);
    let (i, j) = trim_bounds(s, 0, s.len());
    copy_range(s, i, j)
}

/// The first position at or after `from` where a `**` marker starts.
pub fn find_marker_at(s: &Vec<char>, from: usize) -> (r: Option<usize>)
    ensures
        r matches Some(i) ==> find_marker(s@, from as int) == Some(i as int) && from <= i && i
            + 2 <= s@.len() <= usize::MAX,
        r is None ==> find_marker(s@, from as int) is None,
{
    let mut i: usize = from;
    while i < s.len() && i + 1 < s.len()
        invariant
            from <= i,
            find_marker(s@, from as int) == find_marker(s@, i as int),
        decreases s@.len() - i,
    {
        if s[i] == '*' && s[i + 1] == '*' {
            return Some(i);
        }
        i = i + 1;
    }
    None
}

/// The bold-leading title of `s`, as characters.
pub fn first_bold_chars(s: &Vec<char>) -> (r: Option<Vec<char>>)
    ensures
        r matches Some(t) ==> first_bold_spec(s@) == Some(t@),
        r is None ==> first_bold_spec(s@) is None,
{
    let open = match find_marker_at(s, 0) {
        Some(o) => o,
        None => return None,
    };
    let close = match find_marker_at(s, open + 2) {
        Some(c) => c,
        None => return None,
    };
    let (i, j) = trim_bounds(s, open + 2, close);
    if i == j {
        None
    } else {
        Some(copy_range(s, i, j))
    }
}

/// The bold-leading title of a markdown buffer: the trimmed text between the
/// first pair of `**` markers, or `None` when there is no such pair or the
/// text between them is blank.
pub fn extract_first_bold(s: &str) -> (r: Option<String>)
    ensures
        r matches Some(t) ==> first_bold_spec(s@) == Some(t@),
        r is None ==> first_bold_spec(s@) is None,
{
    let v = chars_of(s);
    match first_bold_chars(&v) {
        Some(t) => Some(string_of(t.as_slice())),
        None => None,
    }
}

/// The body of a reasoning block: the trimmed text after its bold-leading
/// title, or `None` when there is no title or nothing follows it.
pub fn extract_reasoning_body_for_translation(full_reasoning_markdown: &str) -> (r: Option<
    String,
>)
    ensures
        r matches Some(t) ==> reasoning_body_spec(full_reasoning_markdown@) == Some(t@),
        r is None ==> reasoning_body_spec(full_reasoning_markdown@) is None,
{
    let raw = chars_of(full_reasoning_markdown);
    let t = trim_chars(&raw);
    let open = match find_marker_at(&t, 0) {
        Some(o) => o,
        None => return None,
    };
    let close = match find_marker_at(&t, open + 2) {
        Some(c) => c,
        None => return None,
    };
    let start = skip_white_start(&t, close + 2, t.len());
    if start == t.len() {
        None
    } else {
        let body = copy_range(&t, start, t.len());
        Some(string_of(body.as_slice()))
    }
}

/// Appends the characters of `s` to `out`.
pub fn push_text(out: &mut Vec<char>, s: &str)
    ensures
        final(out)@ == old(out)@ + s@,
{
    let mut v = chars_of(s);
    out.append(&mut v);
}

/// A title in bilingual form: `original(translated)`.
pub fn format_bilingual_title(original: &str, translated: &str) -> (r: String)
    ensures
        r@ == bilingual_spec(original@, translated@),
{
    let mut v = chars_of(original);
    v.push('(');
    push_text(&mut v, translated);
    v.push(')');
    string_of(v.as_slice())
}

} // verus!
