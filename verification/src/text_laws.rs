//! What the text helpers promise: what joining, trimming, splitting and
//! spelling give back of what went in.

use vstd::prelude::*;

use crate::text;

verus! {

/// Every character is white.
pub open spec fn all_white(s: Seq<char>) -> bool {
    forall|i: int| 0 <= i < s.len() ==> text::is_white(#[trigger] s[i])
}

/// A single path component: not empty, no separator, neither `.` nor `..`.
pub open spec fn plain_name(name: Seq<char>) -> bool {
    &&& name.len() > 0
    &&& !name.contains('/')
    &&& name != seq!['.']
    &&& name != seq!['.', '.']
}

/// Joining puts exactly one separator between a directory and a name; an
/// absolute name stands alone.
pub proof fn joining_separates_once(dir: Seq<char>, name: Seq<char>)
    ensures
        name.len() > 0 && name[0] == '/' ==> text::joined(dir, name) == name,
        dir.len() == 0 && !(name.len() > 0 && name[0] == '/') ==> text::joined(dir, name) == name,
        dir.len() > 0 && !(name.len() > 0 && name[0] == '/') ==> {
            let path = text::joined(dir, name);
            let slash: int = if dir.last() == '/' {
                dir.len() - 1
            } else {
                dir.len() as int
            };
            &&& path.len() == slash + 1 + name.len()
            &&& path.take(slash) == dir.take(slash)
            &&& path[slash] == '/'
            &&& path.skip(slash + 1) == name
        },
{
    if dir.len() == 0 {
        assert(dir + name =~= name);
    }
}

proof fn no_separator_after(text: Seq<char>, c: char)
    ensures
        0 <= text::after_last(text, c) <= text.len(),
        text::after_last(text, c) > 0 ==> text[text::after_last(text, c) - 1] == c,
        forall|i: int| text::after_last(text, c) <= i < text.len() ==> #[trigger] text[i] != c,
    decreases text.len(),
{
    if text.len() > 0 && text.last() != c {
        let rest = text.drop_last();
        no_separator_after(rest, c);
        assert forall|i: int| text::after_last(text, c) <= i < text.len() implies #[trigger] text[i]
            != c by {
            if i < rest.len() {
                assert(rest[i] == text[i]);
            }
        }
    }
}

proof fn separator_found(text: Seq<char>, c: char, at: int)
    requires
        0 <= at < text.len(),
        text[at] == c,
        forall|i: int| at < i < text.len() ==> #[trigger] text[i] != c,
    ensures
        text::after_last(text, c) == at + 1,
{
    no_separator_after(text, c);
    let end = text::after_last(text, c);
    if end <= at {
        assert(text[at] != c);
    }
    if end > at + 1 {
        assert(text[end - 1] != c);
    }
}

/// The last separator of a joined path stands before the name, and nothing
/// at its end settles away.
proof fn a_joined_path_ends_in_its_name(dir: Seq<char>, name: Seq<char>)
    requires
        plain_name(name),
        dir.len() > 0,
    ensures
        ({
            let path = text::joined(dir, name);
            let slash: int = if dir.last() == '/' {
                dir.len() - 1
            } else {
                dir.len() as int
            };
            &&& text::settled(path) == path
            &&& text::after_last(path, '/') == slash + 1
            &&& path.len() == slash + 1 + name.len()
            &&& path.take(slash) == dir.take(slash)
            &&& path[slash] == '/'
            &&& path.skip(slash + 1) == name
        }),
{
    let path = text::joined(dir, name);
    assert(name[0] != '/') by {
        assert(name.contains(name[0]));
    }
    joining_separates_once(dir, name);
    let slash: int = if dir.last() == '/' {
        dir.len() - 1
    } else {
        dir.len() as int
    };
    assert forall|i: int| slash < i < path.len() implies #[trigger] path[i] != '/' by {
        assert(path[i] == path.skip(slash + 1)[i - slash - 1]);
        assert(name.contains(name[i - slash - 1]));
    }
    assert(path.last() == name.last());
    assert(path.last() != '/') by {
        assert(name.contains(name.last()));
    }
    assert(text::settled(path) == path) by {
        if path.last() == '.' && path[path.len() - 2] == '/' {
            assert(path.len() - 2 == slash) by {
                if path.len() - 2 > slash {
                    assert(path[path.len() - 2] != '/');
                }
            }
            assert(name =~= seq!['.']);
        }
    }
    separator_found(path, '/', slash);
}

/// The name joined last is the file name that is read back.
pub proof fn the_name_joined_is_read_back(dir: Seq<char>, name: Seq<char>)
    requires
        plain_name(name),
        dir.len() > 0,
    ensures
        text::file_name(text::joined(dir, name)) == name,
{
    a_joined_path_ends_in_its_name(dir, name);
}

/// The directory joined to is the one the path lies in, without what it
/// settles away.
pub proof fn the_directory_joined_is_read_back(dir: Seq<char>, name: Seq<char>)
    requires
        plain_name(name),
        dir.len() > 0,
    ensures
        text::parent_dir(text::joined(dir, name)) == text::settled(dir),
        text::parent_dir(seq!['/']) == seq!['.'],
        text::parent_dir(Seq::empty()) == seq!['.'],
{
    a_joined_path_ends_in_its_name(dir, name);
    let path = text::joined(dir, name);
    let end = text::after_last(path, '/');
    assert(path.len() > end);
    assert(path != seq!['/']) by {
        if path =~= seq!['/'] {
            assert(name.len() == 0);
        }
    }
    if dir.last() == '/' {
        assert(path.take(end) =~= dir) by {
            assert(path.take(end - 1) =~= dir.take(end - 1));
            assert forall|i: int| 0 <= i < end implies path[i] == dir[i] by {
                if i < end - 1 {
                    assert(path[i] == path.take(end - 1)[i]);
                }
            }
        }
    } else {
        assert(path.take(end) =~= dir.push('/')) by {
            assert(dir.take(end - 1) =~= dir);
            assert forall|i: int| 0 <= i < end implies path[i] == dir.push('/')[i] by {
                if i < end - 1 {
                    assert(path[i] == path.take(end - 1)[i]);
                }
            }
        }
        assert(dir.push('/').drop_last() =~= dir);
    }
}

/// Trimming takes whitespace from the ends and nothing else: what is left
/// starts and ends with something else, and only white was taken.
pub proof fn trimming_takes_only_white(text: Seq<char>) -> (cut: (int, int))
    ensures
        0 <= cut.0 <= cut.1 <= text.len(),
        text::trimmed(text) == text.subrange(cut.0, cut.1),
        all_white(text.take(cut.0)),
        all_white(text.skip(cut.1)),
        text::trimmed(text).len() > 0 ==> !text::is_white(text::trimmed(text).first())
            && !text::is_white(text::trimmed(text).last()),
{
    let from = start_cut(text);
    let rest = text.skip(from);
    let to = end_cut(rest);
    assert(text::trimmed(text) =~= text.subrange(from, from + to));
    assert forall|i: int| 0 <= i < text.skip(from + to).len() implies text::is_white(
        #[trigger] text.skip(from + to)[i],
    ) by {
        assert(text.skip(from + to)[i] == rest.skip(to)[i]);
    }
    if to > 0 {
        assert(text::trimmed(text).first() == rest.first());
    }
    (from, from + to)
}

proof fn start_cut(text: Seq<char>) -> (from: int)
    ensures
        0 <= from <= text.len(),
        text::trim_start(text) == text.skip(from),
        all_white(text.take(from)),
        from < text.len() ==> !text::is_white(text[from]),
    decreases text.len(),
{
    if text.len() > 0 && text::is_white(text.first()) {
        let rest = text.drop_first();
        let from = start_cut(rest);
        assert(rest.skip(from) =~= text.skip(from + 1));
        assert forall|i: int| 0 <= i < text.take(from + 1).len() implies text::is_white(
            #[trigger] text.take(from + 1)[i],
        ) by {
            if i > 0 {
                assert(rest.take(from)[i - 1] == text[i]);
            }
        }
        from + 1
    } else {
        assert(text.skip(0) =~= text);
        0
    }
}

proof fn end_cut(text: Seq<char>) -> (to: int)
    ensures
        0 <= to <= text.len(),
        text::trim_end(text) == text.take(to),
        all_white(text.skip(to)),
        to > 0 ==> !text::is_white(text[to - 1]),
    decreases text.len(),
{
    if text.len() > 0 && text::is_white(text.last()) {
        let rest = text.drop_last();
        let to = end_cut(rest);
        assert(rest.take(to) =~= text.take(to));
        assert forall|i: int| 0 <= i < text.skip(to).len() implies text::is_white(
            #[trigger] text.skip(to)[i],
        ) by {
            if to + i < rest.len() {
                assert(rest.skip(to)[i] == text[to + i]);
            }
        }
        to
    } else {
        assert(text.take(text.len() as int) =~= text);
        text.len() as int
    }
}

/// Taking a trailing character off takes every one of them and nothing else.
pub proof fn trailing_characters_are_all_taken(text: Seq<char>, c: char) -> (to: int)
    ensures
        0 <= to <= text.len(),
        text::trim_last(text, c) == text.take(to),
        forall|i: int| to <= i < text.len() ==> #[trigger] text[i] == c,
        to > 0 ==> text[to - 1] != c,
    decreases text.len(),
{
    if text.len() > 0 && text.last() == c {
        let rest = text.drop_last();
        let to = trailing_characters_are_all_taken(rest, c);
        assert(rest.take(to) =~= text.take(to));
        assert forall|i: int| to <= i < text.len() implies #[trigger] text[i] == c by {
            if i < rest.len() {
                assert(rest[i] == text[i]);
            }
        }
        to
    } else {
        assert(text.take(text.len() as int) =~= text);
        text.len() as int
    }
}

/// A backspace undoes the character typed last.
pub proof fn a_backspace_undoes_a_character(text: Seq<char>, c: char)
    ensures
        text::popped(text.push(c)) == text,
        text::popped(Seq::empty()) == Seq::<char>::empty(),
{
    assert(text.push(c).drop_last() =~= text);
}

/// The number a run of decimal digits spells.
pub open spec fn spelled(digits: Seq<char>) -> int
    decreases digits.len(),
{
    if digits.len() == 0 {
        0
    } else {
        spelled(digits.drop_last()) * 10 + (digits.last() as int - '0' as int)
    }
}

/// A number is spelled in digits, without a leading zero, and reads back as
/// itself.
pub proof fn numbers_read_back(n: nat)
    ensures
        spelled(text::decimal(n)) == n,
        text::decimal(n).len() > 0,
        forall|i: int|
            0 <= i < text::decimal(n).len() ==> '0' <= #[trigger] text::decimal(n)[i] <= '9',
        n > 0 ==> text::decimal(n)[0] != '0',
    decreases n,
{
    let digits = text::decimal(n);
    reveal_with_fuel(spelled, 2);
    if n < 10 {
        assert(digits.drop_last() =~= Seq::<char>::empty());
    } else {
        numbers_read_back(n / 10);
        assert(digits.drop_last() =~= text::decimal(n / 10));
        assert(digits[0] == text::decimal(n / 10)[0]);
    }
}

/// A name without its extension and the extension make the name again: what
/// follows the stem is a dot and no further dot. A name that has no dot, or
/// only the one it starts with, keeps it.
pub proof fn a_stem_ends_before_the_last_dot(name: Seq<char>)
    ensures
        ({
            let stem = text::stem(name);
            &&& stem.len() <= name.len()
            &&& stem == name.take(stem.len() as int)
            &&& stem != name ==> stem.len() > 0 && name[stem.len() as int] == '.' && forall|i: int|
                stem.len() < i < name.len() ==> #[trigger] name[i] != '.'
            &&& stem == name ==> forall|i: int| 0 < i < name.len() ==> #[trigger] name[i] != '.'
        }),
{
    no_separator_after(name, '.');
    assert(name.take(name.len() as int) =~= name);
    let dot = text::after_last(name, '.');
    if dot > 1 {
        assert(name.take(dot - 1).len() < name.len());
    }
}

/// Lines written one after the other are the lines read back, as long as no
/// line holds a break or ends in a carriage return.
pub proof fn written_lines_are_read_back(lines: Seq<Seq<char>>)
    requires
        forall|i: int|
            0 <= i < lines.len() ==> !(#[trigger] lines[i]).contains('\n') && (lines[i].len() > 0
                ==> lines[i].last() != '\r'),
    ensures
        text::lines(text::lines_text(lines)) == lines,
    decreases lines.len(),
{
    reveal_with_fuel(text::lines_from, 2);
    if lines.len() > 0 {
        let front = lines.drop_last();
        assert forall|i: int| 0 <= i < front.len() implies !(#[trigger] front[i]).contains('\n')
            && (front[i].len() > 0 ==> front[i].last() != '\r') by {
            assert(front[i] == lines[i]);
        }
        written_lines_are_read_back(front);
        let last = lines.last();
        assert(lines[lines.len() - 1] == last);
        let body = text::lines_text(front);
        written_text_ends_its_line(front);
        lines_follow_on(Seq::empty(), body, last.push('\n'));
        assert((body + last).push('\n') =~= body + last.push('\n'));
        one_line_is_read(Seq::empty(), last);
        assert(Seq::<char>::empty() + last =~= last);
        assert(front + seq![last] =~= lines);
    } else {
        assert(text::lines(text::lines_text(lines)) =~= lines);
    }
}

proof fn written_text_ends_its_line(lines: Seq<Seq<char>>)
    ensures
        text::lines_text(lines).len() == 0 || text::lines_text(lines).last() == '\n',
{
}

/// Text that ends its line is read apart from what follows it.
proof fn lines_follow_on(open: Seq<char>, first: Seq<char>, second: Seq<char>)
    requires
        first.len() == 0 ==> open.len() == 0,
        first.len() > 0 ==> first.last() == '\n',
    ensures
        text::lines_from(open, first + second) == text::lines_from(open, first)
            + text::lines_from(Seq::empty(), second),
    decreases first.len(),
{
    if first.len() == 0 {
        assert(first + second =~= second);
        assert(open =~= Seq::<char>::empty());
        assert(text::lines_from(open, first) =~= Seq::<Seq<char>>::empty());
    } else {
        let all = first + second;
        assert(all.drop_first() =~= first.drop_first() + second);
        assert(all[0] == first[0]);
        if first.len() > 1 {
            assert(first.drop_first().last() == first.last());
        }
        if first[0] == '\n' {
            lines_follow_on(Seq::empty(), first.drop_first(), second);
            assert(text::lines_from(open, all) =~= text::lines_from(open, first)
                + text::lines_from(Seq::empty(), second));
        } else {
            lines_follow_on(open.push(first[0]), first.drop_first(), second);
        }
    }
}

proof fn one_line_is_read(open: Seq<char>, line: Seq<char>)
    requires
        !line.contains('\n'),
        (open + line).len() > 0 ==> (open + line).last() != '\r',
    ensures
        text::lines_from(open, line.push('\n')) == seq![open + line],
    decreases line.len(),
{
    reveal_with_fuel(text::lines_from, 2);
    let all = line.push('\n');
    if line.len() == 0 {
        assert(open + line =~= open);
        assert(all.drop_first() =~= Seq::<char>::empty());
        assert(text::lines_from(open, all) =~= seq![open]);
    } else {
        assert(all.drop_first() =~= line.drop_first().push('\n'));
        assert(line.contains(line[0]));
        assert(!line.drop_first().contains('\n')) by {
            if line.drop_first().contains('\n') {
                let i = choose|i: int|
                    0 <= i < line.drop_first().len() && line.drop_first()[i] == '\n';
                assert(line[i + 1] == '\n');
            }
        }
        assert(open.push(line[0]) + line.drop_first() =~= open + line);
        one_line_is_read(open.push(line[0]), line.drop_first());
    }
}

/// A carriage return before a break belongs to the break.
pub proof fn a_break_takes_its_return(line: Seq<char>)
    requires
        !line.contains('\n'),
        !line.contains('\r'),
    ensures
        text::without_return(line.push('\r')) == line,
        text::without_return(line) == line,
{
    assert(line.push('\r').drop_last() =~= line);
    if line.len() > 0 {
        assert(line.contains(line.last()));
    }
}

/// Lines put in a row have a break between every two, and none at the end.
pub proof fn rows_of_lines_have_breaks_between(lines: Seq<Seq<char>>, line: Seq<char>)
    ensures
        lines.len() > 0 ==> text::unlined(lines.push(line)) == text::unlined(lines).push('\n')
            + line,
        text::unlined(seq![line]) == line,
        text::unlined(Seq::empty()) == Seq::<char>::empty(),
{
    reveal_strlit("\n");
    assert(lines.push(line).drop_last() =~= lines);
    if lines.len() > 0 {
        assert(text::unlined(lines) + "\n"@ =~= text::unlined(lines).push('\n'));
    }
}

/// Lower case reaches the ASCII letters and leaves every other ASCII
/// character, and the length, alone.
pub proof fn lowering_reaches_only_letters(s: Seq<char>, i: int)
    requires
        text::ascii(s),
        0 <= i < s.len(),
    ensures
        text::lowercase(s).len() == s.len(),
        'A' <= s[i] <= 'Z' ==> text::lowercase(s)[i] as int == s[i] as int + ('a' as int
            - 'A' as int),
        !('A' <= s[i] <= 'Z') ==> text::lowercase(s)[i] == s[i],
{
}

} // verus!
