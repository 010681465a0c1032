//! Text helpers: the handful of string operations the handlers are stated
//! over, as sequences of characters.

use vstd::prelude::*;

verus! {

/// `std::string::String::push`: the character lands at the end.
pub assume_specification[ String::push ](s: &mut String, c: char)
    ensures
        final(s)@ == old(s)@.push(c),
;

/// `std::string::String::pop`: the last character leaves, if there is one.
pub assume_specification[ String::pop ](s: &mut String) -> (r: Option<char>)
    ensures
        old(s)@.len() == 0 ==> final(s)@ == old(s)@ && r is None,
        old(s)@.len() > 0 ==> final(s)@ == old(s)@.drop_last() && r == Some(old(s)@.last()),
;

/// Whether a text is made of ASCII characters alone.
pub open spec fn ascii(s: Seq<char>) -> bool {
    forall|i: int| 0 <= i < s.len() ==> #[trigger] s[i] <= '\u{7f}'
}

/// An ASCII letter in lower case; every other character as it is.
pub open spec fn ascii_lower(c: char) -> char {
    if 'A' <= c && c <= 'Z' {
        (c as u32 + 32) as char
    } else {
        c
    }
}

/// What `str::to_lowercase` makes of a text that is not ASCII alone.
pub uninterp spec fn unicode_lowercase(s: Seq<char>) -> Seq<char>;

/// A text in lower case: ASCII letter by letter, any other by Unicode's
/// mapping.
pub open spec fn lowercase(s: Seq<char>) -> Seq<char> {
    if ascii(s) {
        s.map_values(|c: char| ascii_lower(c))
    } else {
        unicode_lowercase(s)
    }
}

/// `str::to_lowercase`: the Unicode lowercase mapping of the whole text,
/// which depends on the text alone. An ASCII text has its letters lowered one
/// by one; what the mapping is beyond ASCII stays unsaid.
#[verifier::external_body]
fn std_lowercase(s: &str) -> (r: String)
    ensures
        ascii(s@) ==> r@ == s@.map_values(|c: char| ascii_lower(c)),
        !ascii(s@) ==> r@ == unicode_lowercase(s@),
{
    s.to_lowercase()
}

pub(crate) fn to_lowercase(s: &str) -> (r: String)
    ensures
        r@ == lowercase(s@),
        s@.len() == 0 ==> r@.len() == 0,
{
    std_lowercase(s)
}

/// The characters with Unicode's `White_Space` property.
pub open spec fn is_white(c: char) -> bool {
    ||| '\u{9}' <= c && c <= '\u{d}'
    ||| c == '\u{20}'
    ||| c == '\u{85}'
    ||| c == '\u{a0}'
    ||| c == '\u{1680}'
    ||| '\u{2000}' <= c && c <= '\u{200a}'
    ||| c == '\u{2028}'
    ||| c == '\u{2029}'
    ||| c == '\u{202f}'
    ||| c == '\u{205f}'
    ||| c == '\u{3000}'
}

/// `char::is_whitespace`: whether a character has Unicode's `White_Space`
/// property.
#[verifier::external_body]
pub(crate) fn whitespace(c: char) -> (r: bool)
    ensures
        r == is_white(c),
{
    c.is_whitespace()
}

/// `needle` occurs in `text` as a contiguous run.
pub open spec fn mentions(text: Seq<char>, needle: Seq<char>) -> bool {
    exists|i: int|
        0 <= i <= text.len() - needle.len() && #[trigger] text.subrange(i, i + needle.len())
            == needle
}

/// `str::contains` with a text pattern: whether the pattern occurs in it.
#[verifier::external_body]
pub(crate) fn contains(text: &str, needle: &str) -> (r: bool)
    ensures
        r == mentions(text@, needle@),
{
    text.contains(needle)
}

/// The empty text is mentioned by every text.
pub proof fn empty_text_is_always_mentioned(text: Seq<char>)
    ensures
        mentions(text, Seq::<char>::empty()),
{
    assert(text.subrange(0, 0 + 0int) =~= Seq::<char>::empty());
}

/// `text` without its last character; nothing when there is none.
pub open spec fn popped(text: Seq<char>) -> Seq<char> {
    if text.len() == 0 {
        text
    } else {
        text.drop_last()
    }
}

/// `text` without its leading whitespace.
pub open spec fn trim_start(text: Seq<char>) -> Seq<char>
    decreases text.len(),
{
    if text.len() > 0 && is_white(text.first()) {
        trim_start(text.drop_first())
    } else {
        text
    }
}

/// `text` without its trailing whitespace.
pub open spec fn trim_end(text: Seq<char>) -> Seq<char>
    decreases text.len(),
{
    if text.len() > 0 && is_white(text.last()) {
        trim_end(text.drop_last())
    } else {
        text
    }
}

/// `text` without whitespace at either end.
pub open spec fn trimmed(text: Seq<char>) -> Seq<char> {
    trim_end(trim_start(text))
}

/// `text` without any trailing `c`.
pub open spec fn trim_last(text: Seq<char>, c: char) -> Seq<char>
    decreases text.len(),
{
    if text.len() > 0 && text.last() == c {
        trim_last(text.drop_last(), c)
    } else {
        text
    }
}

/// The characters of `s`, in order.
pub fn chars_of(s: &str) -> (r: Vec<char>)
    ensures
        r@ == s@,
{
    let n: usize = s.unicode_len();
    let mut r: Vec<char> = Vec::new();
    let mut i: usize = 0;
    while i < n
        invariant
            n == s@.len(),
            i <= n,
            r@ == s@.take(i as int),
        decreases n - i,
    {
        let c = s.get_char(i);
        r.push(c);
        i = i + 1;
        assert(s@.take(i as int) =~= s@.take(i - 1).push(c));
    }
    assert(s@.take(n as int) =~= s@);
    r
}

/// The text the characters of `from..to` spell.
fn text_of(chars: &Vec<char>, from: usize, to: usize) -> (r: String)
    requires
        from <= to <= chars.len(),
    ensures
        r@ == chars@.subrange(from as int, to as int),
{
    let mut r = String::new();
    let mut i: usize = from;
    assert(r@ =~= chars@.subrange(from as int, from as int));
    while i < to
        invariant
            from <= i <= to <= chars.len(),
            r@ == chars@.subrange(from as int, i as int),
        decreases to - i,
    {
        r.push(chars[i]);
        i = i + 1;
        assert(chars@.subrange(from as int, i as int) =~= chars@.subrange(
            from as int,
            i - 1,
        ).push(chars@[i - 1]));
    }
    r
}

/// `s` with the whitespace at both ends removed.
pub fn trim(s: &str) -> (r: String)
    ensures
        r@ == trimmed(s@),
{
    let chars = chars_of(s);
    let n: usize = chars.len();
    let mut from: usize = 0;
    assert(chars@.subrange(0, n as int) =~= chars@);
    while from < n && whitespace(chars[from])
        invariant
            n == chars.len(),
            from <= n,
            trim_start(chars@.subrange(from as int, n as int)) == trim_start(chars@),
        decreases n - from,
    {
        proof {
            let t = chars@.subrange(from as int, n as int);
            assert(t.drop_first() =~= chars@.subrange(from + 1, n as int));
        }
        from = from + 1;
    }
    let mut to: usize = n;
    while from < to && whitespace(chars[to - 1])
        invariant
            n == chars.len(),
            from <= to <= n,
            trim_end(chars@.subrange(from as int, to as int)) == trim_end(
                chars@.subrange(from as int, n as int),
            ),
        decreases to - from,
    {
        proof {
            let t = chars@.subrange(from as int, to as int);
            assert(t.drop_last() =~= chars@.subrange(from as int, to - 1));
        }
        to = to - 1;
    }
    text_of(&chars, from, to)
}

/// `s` with every trailing `c` removed.
pub fn trim_end_matches(s: &str, c: char) -> (r: String)
    ensures
        r@ == trim_last(s@, c),
{
    let chars = chars_of(s);
    let mut to: usize = chars.len();
    assert(chars@.subrange(0, to as int) =~= chars@);
    while 0 < to && chars[to - 1] == c
        invariant
            to <= chars.len(),
            trim_last(chars@.subrange(0, to as int), c) == trim_last(chars@, c),
        decreases to,
    {
        proof {
            let t = chars@.subrange(0, to as int);
            assert(t.drop_last() =~= chars@.subrange(0, to - 1));
        }
        to = to - 1;
    }
    text_of(&chars, 0, to)
}

/// Whether `c` occurs in `s`.
pub fn has_char(s: &str, c: char) -> (r: bool)
    ensures
        r == s@.contains(c),
{
    let chars = chars_of(s);
    let mut i: usize = 0;
    while i < chars.len()
        invariant
            i <= chars.len(),
            chars@ == s@,
            forall|j: int| 0 <= j < i ==> chars@[j] != c,
        decreases chars.len() - i,
    {
        if chars[i] == c {
            assert(s@[i as int] == c);
            return true;
        }
        i = i + 1;
    }
    false
}

/// Whether `s` ends with `c`.
pub fn ends_with(s: &str, c: char) -> (r: bool)
    ensures
        r == (s@.len() > 0 && s@.last() == c),
{
    let n: usize = s.unicode_len();
    n > 0 && s.get_char(n - 1) == c
}

/// Whether `s` starts with `prefix`.
pub fn starts_with(s: &str, prefix: &str) -> (r: bool)
    ensures
        r == prefix@.is_prefix_of(s@),
{
    let n: usize = prefix.unicode_len();
    if n > s.unicode_len() {
        return false;
    }
    let mut i: usize = 0;
    while i < n
        invariant
            n == prefix@.len(),
            n <= s@.len(),
            i <= n,
            forall|k: int| 0 <= k < i ==> s@[k] == prefix@[k],
        decreases n - i,
    {
        if s.get_char(i) != prefix.get_char(i) {
            assert(s@.subrange(0, n as int)[i as int] != prefix@[i as int]);
            return false;
        }
        i = i + 1;
    }
    assert(prefix@ =~= s@.subrange(0, n as int));
    true
}

/// Whether two texts are the same.
pub fn same(a: &str, b: &str) -> (r: bool)
    ensures
        r == (a@ == b@),
{
    a.to_owned() == b.to_owned()
}

/// `a` followed by `b`.
pub fn join(a: &str, b: &str) -> (r: String)
    ensures
        r@ == a@ + b@,
{
    a.to_owned().concat(b)
}

/// `a`, `b` and `c` in a row.
pub fn join3(a: &str, b: &str, c: &str) -> (r: String)
    ensures
        r@ == a@ + b@ + c@,
{
    a.to_owned().concat(b).concat(c)
}

/// The lines in a row, a line break between every two.
pub open spec fn unlined(lines: Seq<Seq<char>>) -> Seq<char>
    decreases lines.len(),
{
    if lines.len() == 0 {
        Seq::empty()
    } else if lines.len() == 1 {
        lines[0]
    } else {
        unlined(lines.drop_last()) + "\n"@ + lines.last()
    }
}

/// Joins lines with a line break.
pub fn join_lines(lines: &Vec<String>) -> (r: String)
    ensures
        r@ == unlined(texts(lines@)),
{
    let ghost all = texts(lines@);
    let mut r = String::new();
    let mut i: usize = 0;
    assert(r@ =~= Seq::<char>::empty());
    while i < lines.len()
        invariant
            i <= lines.len(),
            all == texts(lines@),
            r@ == unlined(all.take(i as int)),
        decreases lines.len() - i,
    {
        assert(all.take(i + 1).drop_last() =~= all.take(i as int));
        assert(all.take(i + 1).last() == lines@[i as int]@);
        r = if i == 0 {
            lines[i].as_str().to_owned()
        } else {
            join3(r.as_str(), "\n", lines[i].as_str())
        };
        i += 1;
    }
    assert(all.take(i as int) =~= all);
    r
}

/// `name` under the directory `dir`, the way paths are joined: an absolute
/// name stands alone.
pub open spec fn joined(dir: Seq<char>, name: Seq<char>) -> Seq<char> {
    if name.len() > 0 && name[0] == '/' {
        name
    } else if dir.len() == 0 || dir.last() == '/' {
        dir + name
    } else {
        dir.push('/') + name
    }
}

pub fn join_path(dir: &str, name: &str) -> (r: String)
    ensures
        r@ == joined(dir@, name@),
{
    if name.unicode_len() > 0 && name.get_char(0) == '/' {
        return name.to_owned();
    }
    let n: usize = dir.unicode_len();
    let mut r = dir.to_owned();
    if n != 0 && dir.get_char(n - 1) != '/' {
        r.push('/');
    }
    r.concat(name)
}

/// The place just after the last `c` of `text`, zero without one.
pub open spec fn after_last(text: Seq<char>, c: char) -> int
    decreases text.len(),
{
    if text.len() == 0 {
        0
    } else if text.last() == c {
        text.len() as int
    } else {
        after_last(text.drop_last(), c)
    }
}

fn find_after_last(chars: &Vec<char>, len: usize, c: char) -> (r: usize)
    requires
        len <= chars.len(),
    ensures
        r == after_last(chars@.take(len as int), c),
        r <= len,
{
    let mut i: usize = len;
    while 0 < i && chars[i - 1] != c
        invariant
            i <= len <= chars.len(),
            after_last(chars@.take(len as int), c) == after_last(chars@.take(i as int), c),
        decreases i,
    {
        assert(chars@.take(i as int).drop_last() =~= chars@.take(i - 1));
        i = i - 1;
    }
    i
}

/// A path without the separators and the `.` components it ends in; the
/// root stays.
pub open spec fn settled(path: Seq<char>) -> Seq<char>
    decreases path.len(),
{
    if path.len() > 1 && (path.last() == '/' || (path.last() == '.' && path[path.len() - 2]
        == '/')) {
        settled(path.drop_last())
    } else {
        path
    }
}

/// The name of a path's last component; empty when that is the root, `.` or
/// `..`.
pub open spec fn file_name(path: Seq<char>) -> Seq<char> {
    let p = settled(path);
    let name = p.skip(after_last(p, '/'));
    if name == seq!['.'] || name == seq!['.', '.'] {
        Seq::empty()
    } else {
        name
    }
}

/// The directory a path lies in; `.` for the root and for no path at all.
pub open spec fn parent_dir(path: Seq<char>) -> Seq<char> {
    let p = settled(path);
    if p.len() == 0 || p == seq!['/'] {
        seq!['.']
    } else {
        settled(p.take(after_last(p, '/')))
    }
}

/// How many leading characters of a path are left once it is settled.
fn settled_len(chars: &Vec<char>, len: usize) -> (r: usize)
    requires
        len <= chars.len(),
    ensures
        r <= len,
        settled(chars@.take(len as int)) == chars@.take(r as int),
{
    let mut to: usize = len;
    while to > 1 && (chars[to - 1] == '/' || (chars[to - 1] == '.' && chars[to - 2] == '/'))
        invariant
            to <= len <= chars.len(),
            settled(chars@.take(len as int)) == settled(chars@.take(to as int)),
        decreases to,
    {
        assert(chars@.take(to as int).drop_last() =~= chars@.take(to - 1));
        to = to - 1;
    }
    to
}

/// A file name without its last extension; a name that only starts with a
/// dot has none.
pub open spec fn stem(name: Seq<char>) -> Seq<char> {
    let dot = after_last(name, '.');
    if dot > 1 {
        name.take(dot - 1)
    } else {
        name
    }
}

pub fn file_name_of(path: &str) -> (r: String)
    ensures
        r@ == file_name(path@),
{
    let chars = chars_of(path);
    let to: usize = settled_len(&chars, chars.len());
    let from: usize = find_after_last(&chars, to, '/');
    proof {
        assert(chars@.take(chars@.len() as int) =~= chars@);
        assert(chars@.take(to as int).skip(from as int) =~= chars@.subrange(
            from as int,
            to as int,
        ));
    }
    if to - from == 1 && chars[from] == '.' {
        assert(chars@.subrange(from as int, to as int) =~= seq!['.']);
        return String::new();
    }
    if to - from == 2 && chars[from] == '.' && chars[from + 1] == '.' {
        assert(chars@.subrange(from as int, to as int) =~= seq!['.', '.']);
        return String::new();
    }
    proof {
        let name = chars@.subrange(from as int, to as int);
        if name == seq!['.'] {
            assert(name[0] == chars@[from as int]);
        }
        if name == seq!['.', '.'] {
            assert(name[0] == chars@[from as int] && name[1] == chars@[from + 1]);
        }
    }
    text_of(&chars, from, to)
}

pub fn parent_dir_of(path: &str) -> (r: String)
    ensures
        r@ == parent_dir(path@),
{
    let chars = chars_of(path);
    let to: usize = settled_len(&chars, chars.len());
    assert(chars@.take(chars@.len() as int) =~= chars@);
    let ghost p = chars@.take(to as int);
    if to == 0 || (to == 1 && chars[0] == '/') {
        proof {
            if to == 1 {
                assert(p =~= seq!['/']);
            }
        }
        let mut r = String::new();
        r.push('.');
        assert(r@ =~= seq!['.']);
        return r;
    }
    let from: usize = find_after_last(&chars, to, '/');
    let kept: usize = settled_len(&chars, from);
    proof {
        if p == seq!['/'] {
            assert(p[0] == chars@[0]);
        }
        assert(p.take(from as int) =~= chars@.take(from as int));
        assert(chars@.take(kept as int) =~= chars@.subrange(0, kept as int));
    }
    text_of(&chars, 0, kept)
}

pub fn stem_of(name: &str) -> (r: String)
    ensures
        r@ == stem(name@),
{
    let chars = chars_of(name);
    let dot: usize = find_after_last(&chars, chars.len(), '.');
    assert(chars@.take(chars@.len() as int) =~= chars@);
    let to: usize = if dot > 1 {
        dot - 1
    } else {
        chars.len()
    };
    let r = text_of(&chars, 0, to);
    assert(chars@.subrange(0, to as int) =~= stem(name@));
    r
}

/// The decimal digits of a number.
pub open spec fn decimal(n: nat) -> Seq<char>
    decreases n,
{
    if n < 10 {
        seq![digit(n)]
    } else {
        decimal(n / 10).push(digit(n % 10))
    }
}

/// One decimal digit.
pub open spec fn digit(d: nat) -> char {
    (48 + d) as char
}

pub fn decimal_of(n: u64) -> (r: String)
    ensures
        r@ == decimal(n as nat),
    decreases n,
{
    let d: u8 = (n % 10) as u8;
    let c: char = (48u8 + d) as char;
    let mut r = if n < 10 {
        String::new()
    } else {
        decimal_of(n / 10)
    };
    assert(c == digit((n % 10) as nat));
    r.push(c);
    assert(n < 10 ==> r@ =~= seq![digit(n as nat)]);
    r
}

/// Lines one after the other, each ended by a newline.
pub open spec fn lines_text(lines: Seq<Seq<char>>) -> Seq<char>
    decreases lines.len(),
{
    if lines.len() == 0 {
        Seq::empty()
    } else {
        (lines_text(lines.drop_last()) + lines.last()).push('\n')
    }
}

/// A line without the carriage return its line break started with.
pub open spec fn without_return(line: Seq<char>) -> Seq<char> {
    if line.len() > 0 && line.last() == '\r' {
        line.drop_last()
    } else {
        line
    }
}

/// The lines of `rest`, the first of them started by `open`.
pub open spec fn lines_from(open: Seq<char>, rest: Seq<char>) -> Seq<Seq<char>>
    decreases rest.len(),
{
    if rest.len() == 0 {
        if open.len() == 0 {
            Seq::empty()
        } else {
            seq![open]
        }
    } else if rest[0] == '\n' {
        seq![without_return(open)] + lines_from(Seq::empty(), rest.drop_first())
    } else {
        lines_from(open.push(rest[0]), rest.drop_first())
    }
}

/// The lines of a text: what stands between its line breaks, a last break
/// opening no line of its own.
pub open spec fn lines(text: Seq<char>) -> Seq<Seq<char>> {
    lines_from(Seq::empty(), text)
}

/// The views of some texts.
pub open spec fn texts(list: Seq<String>) -> Seq<Seq<char>> {
    list.map_values(|l: String| l@)
}

pub fn lines_of(s: &str) -> (r: Vec<String>)
    ensures
        texts(r@) == lines(s@),
{
    let chars = chars_of(s);
    let mut r: Vec<String> = Vec::new();
    let mut open = String::new();
    let mut i: usize = 0;
    assert(chars@.skip(0) =~= chars@);
    assert(texts(r@) =~= Seq::<Seq<char>>::empty());
    assert(open@ =~= Seq::<char>::empty());
    assert(texts(r@) + lines(chars@) =~= lines(chars@));
    while i < chars.len()
        invariant
            i <= chars.len(),
            texts(r@) + lines_from(open@, chars@.skip(i as int)) == lines(chars@),
        decreases chars.len() - i,
    {
        let ghost rest = chars@.skip(i as int);
        let ghost before = texts(r@);
        assert(rest[0] == chars@[i as int]);
        assert(rest.drop_first() =~= chars@.skip(i + 1));
        if chars[i] == '\n' {
            let n: usize = open.as_str().unicode_len();
            let line: String = if n > 0 && open.as_str().get_char(n - 1) == '\r' {
                let mut line = open;
                let _ = line.pop();
                line
            } else {
                open
            };
            let ghost kept = line@;
            r.push(line);
            open = String::new();
            proof {
                assert(open@ =~= Seq::<char>::empty());
                assert(texts(r@) =~= before.push(kept));
                let tail = lines_from(Seq::empty(), chars@.skip(i + 1));
                assert(before.push(kept) + tail =~= before + (seq![kept] + tail));
            }
        } else {
            open.push(chars[i]);
        }
        i = i + 1;
    }
    let ghost before = texts(r@);
    if open.as_str().unicode_len() > 0 {
        let ghost last = open@;
        r.push(open);
        assert(texts(r@) =~= before + seq![last]);
    } else {
        assert(texts(r@) =~= before + Seq::<Seq<char>>::empty());
    }
    r
}

} // verus!
