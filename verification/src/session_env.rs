//! The environment variables that a launcher leaves for an application in a file.
//!
//! Each line of the file gives one variable: its name, an equals sign, and its value. White space
//! around a line does not count, and a line without an equals sign gives nothing.

use crate::platform::EnvVar;
use vstd::prelude::*;
use vstd::string::*;

verus! {

/// A character with the Unicode property `White_Space`.
pub open spec fn is_white_space(c: char) -> bool {
    let n = c as u32;
    ||| 0x9 <= n <= 0xd
    ||| n == 0x20
    ||| n == 0x85
    ||| n == 0xa0
    ||| n == 0x1680
    ||| 0x2000 <= n <= 0x200a
    ||| 0x2028 <= n <= 0x2029
    ||| n == 0x202f
    ||| n == 0x205f
    ||| n == 0x3000
}

/// A text without the white space at either end.
pub open spec fn trimmed(text: Seq<char>) -> Seq<char>
    decreases text.len(),
{
    if text.len() > 0 && is_white_space(text.first()) {
        trimmed(text.drop_first())
    } else if text.len() > 0 && is_white_space(text.last()) {
        trimmed(text.drop_last())
    } else {
        text
    }
}

/// The first place of a character in a text, or the text's length if it is not there.
pub open spec fn place_of(text: Seq<char>, c: char) -> int
    decreases text.len(),
{
    if text.len() == 0 || text.first() == c {
        0
    } else {
        1 + place_of(text.drop_first(), c)
    }
}

/// The variable that a line gives, as a list of at most one.
pub open spec fn line_assignments(line: Seq<char>) -> Seq<(Seq<char>, Seq<char>)> {
    let content = trimmed(line);
    let equals = place_of(content, '=');
    if equals < content.len() {
        seq![(content.take(equals), content.skip(equals + 1))]
    } else {
        seq![]
    }
}

/// The variables that a file gives, line by line.
pub open spec fn session_assignments(text: Seq<char>) -> Seq<(Seq<char>, Seq<char>)>
    decreases text.len(),
{
    let end = place_of(text, '\n');
    if 0 <= end < text.len() {
        line_assignments(text.take(end)) + session_assignments(text.skip(end + 1))
    } else {
        line_assignments(text)
    }
}

fn white_space(c: char) -> (is: bool)
    ensures
        is == is_white_space(c),
{
    let n: u32 = c as u32;
    (0x9 <= n && n <= 0xd) || n == 0x20 || n == 0x85 || n == 0xa0 || n == 0x1680 || (0x2000 <= n
        && n <= 0x200a) || (0x2028 <= n && n <= 0x2029) || n == 0x202f || n == 0x205f || n
        == 0x3000
}

/// The first place of a character in a text is where it stands and nothing before it is it.
proof fn place_of_is(text: Seq<char>, c: char, place: int)
    requires
        0 <= place <= text.len(),
        forall|i: int| 0 <= i < place ==> text[i] != c,
        place < text.len() ==> text[place] == c,
    ensures
        place_of(text, c) == place,
    decreases text.len(),
{
    if place > 0 {
        let rest = text.drop_first();
        place_of_is(rest, c, place - 1);
    }
}

/// The first place of `c` among the characters from `from` to `to`, or `to`.
fn find(chars: &Vec<char>, from: usize, to: usize, c: char) -> (place: usize)
    requires
        from <= to <= chars@.len(),
    ensures
        from <= place <= to,
        place - from == place_of(chars@.subrange(from as int, to as int), c),
{
    let mut i: usize = from;
    while i < to && chars[i] != c
        invariant
            from <= i <= to <= chars@.len(),
            forall|j: int| from <= j < i ==> chars@[j] != c,
        decreases to - i,
    {
        i = i + 1;
    }
    proof {
        let text = chars@.subrange(from as int, to as int);
        place_of_is(text, c, i - from);
    }
    i
}

/// Where the characters from `from` to `to` begin and end without the white space around them.
fn trim(chars: &Vec<char>, from: usize, to: usize) -> (bounds: (usize, usize))
    requires
        from <= to <= chars@.len(),
    ensures
        from <= bounds.0 <= bounds.1 <= to,
        chars@.subrange(bounds.0 as int, bounds.1 as int) == trimmed(
            chars@.subrange(from as int, to as int),
        ),
{
    let mut start: usize = from;
    let mut end: usize = to;
    while start < end && white_space(chars[start])
        invariant
            from <= start <= end == to <= chars@.len(),
            trimmed(chars@.subrange(start as int, to as int)) == trimmed(
                chars@.subrange(from as int, to as int),
            ),
        decreases end - start,
    {
        assert(chars@.subrange(start as int, to as int).drop_first() == chars@.subrange(
            start + 1,
            to as int,
        ));
        start = start + 1;
    }
    while start < end && white_space(chars[end - 1])
        invariant
            from <= start <= end <= to <= chars@.len(),
            start < end ==> !is_white_space(chars@[start as int]),
            trimmed(chars@.subrange(start as int, end as int)) == trimmed(
                chars@.subrange(from as int, to as int),
            ),
        decreases end - start,
    {
        assert(chars@.subrange(start as int, end as int).drop_last() == chars@.subrange(
            start as int,
            end - 1,
        ));
        end = end - 1;
    }
    (start, end)
}

/// Every character of a text.
fn chars_of(text: &str) -> (chars: Vec<char>)
    ensures
        chars@ == text@,
{
    let mut chars: Vec<char> = Vec::new();
    for c in iter: text.chars()
        invariant
            iter.seq() == text@,
            chars@ == text@.take(iter.index() as int),
    {
        chars.push(c);
    }
    chars
}

/// Reads the variables that a file gives.
pub fn parse_session_env(text: &str) -> (vars: Vec<EnvVar>)
    ensures
        crate::platform::assignments(vars@) == session_assignments(text@),
{
    let chars = chars_of(text);
    let mut vars: Vec<EnvVar> = Vec::new();
    let mut start: usize = 0;
    let mut done: bool = false;
    assert(text@.skip(0) == text@);
    while !done
        invariant
            chars@ == text@,
            start <= chars@.len(),
            crate::platform::assignments(vars@) + (if done {
                seq![]
            } else {
                session_assignments(text@.skip(start as int))
            }) == session_assignments(text@),
        decreases
            chars@.len() - start + if done {
                0int
            } else {
                1int
            },
    {
        let ghost rest = text@.skip(start as int);
        let end = find(&chars, start, chars.len(), '\n');
        let (from, to) = trim(&chars, start, end);
        assert(chars@.subrange(start as int, end as int) == rest.take(end - start));
        let equals = find(&chars, from, to, '=');
        if equals < to {
            let var = EnvVar {
                key: text.substring_char(from, equals).to_owned(),
                value: text.substring_char(equals + 1, to).to_owned(),
            };
            vars.push(var);
            proof {
                let content = chars@.subrange(from as int, to as int);
                assert(content.take(equals - from) == text@.subrange(from as int, equals as int));
                assert(content.skip(equals - from + 1) == text@.subrange(equals + 1, to as int));
            }
        }
        if end < chars.len() {
            assert(rest.skip(end - start + 1) == text@.skip(end + 1));
            start = end + 1;
        } else {
            done = true;
        }
    }
    vars
}

/// The characters that count as white space.
pub proof fn white_space_is_what_unicode_says(c: char)
    ensures
        is_white_space(c) <==> seq![
            0x09int, 0x0a, 0x0b, 0x0c, 0x0d, 0x20, 0x85, 0xa0, 0x1680, 0x2000, 0x2001, 0x2002,
            0x2003, 0x2004, 0x2005, 0x2006, 0x2007, 0x2008, 0x2009, 0x200a, 0x2028, 0x2029, 0x202f,
            0x205f, 0x3000,
        ].contains(c as int),
{
    let all = seq![
        0x09int, 0x0a, 0x0b, 0x0c, 0x0d, 0x20, 0x85, 0xa0, 0x1680, 0x2000, 0x2001, 0x2002,
        0x2003, 0x2004, 0x2005, 0x2006, 0x2007, 0x2008, 0x2009, 0x200a, 0x2028, 0x2029, 0x202f,
        0x205f, 0x3000,
    ];
    let n = c as int;
    if is_white_space(c) {
        let place: int = if n <= 0x0d {
            n - 0x09
        } else if n == 0x20 {
            5
        } else if n == 0x85 {
            6
        } else if n == 0xa0 {
            7
        } else if n == 0x1680 {
            8
        } else if n <= 0x200a {
            9 + n - 0x2000
        } else if n <= 0x2029 {
            20 + n - 0x2028
        } else if n == 0x202f {
            22
        } else if n == 0x205f {
            23
        } else {
            24
        };
        assert(all[place] == n);
    }
}

/// The first place of a character is in the text or at its end, the character stands there if it is
/// in the text, and nowhere before.
pub proof fn the_first_place_is_the_first(text: Seq<char>, c: char)
    ensures
        0 <= place_of(text, c) <= text.len(),
        place_of(text, c) < text.len() ==> text[place_of(text, c)] == c,
        forall|i: int| 0 <= i < place_of(text, c) ==> text[i] != c,
        text.contains(c) <==> place_of(text, c) < text.len(),
    decreases text.len(),
{
    if text.len() > 0 && text.first() != c {
        let rest = text.drop_first();
        the_first_place_is_the_first(rest, c);
        assert forall|i: int| 0 <= i < place_of(text, c) implies text[i] != c by {
            if i > 0 {
                assert(rest[i - 1] == text[i]);
            }
        }
    }
    if text.contains(c) && place_of(text, c) >= text.len() {
        let i = text.index_of(c);
        assert(text[i] == c);
    }
}

/// Trimming takes white space off both ends of a text, all of it, and nothing else.
pub proof fn trimming_takes_off_white_space(text: Seq<char>)
    ensures
        trimmed(text).len() > 0 ==> !is_white_space(trimmed(text).first()) && !is_white_space(
            trimmed(text).last(),
        ),
        exists|from: int, to: int| #[trigger] is_trimmed_to(text, from, to),
    decreases text.len(),
{
    if text.len() > 0 && is_white_space(text.first()) {
        let rest = text.drop_first();
        trimming_takes_off_white_space(rest);
        let (from, to) = choose|from: int, to: int| #[trigger] is_trimmed_to(rest, from, to);
        assert forall|i: int| 0 <= i < text.len() && !(from + 1 <= i < to + 1) implies
            is_white_space(#[trigger] text[i]) by {
            if i > 0 {
                assert(rest[i - 1] == text[i]);
            }
        }
        assert(rest.subrange(from, to) == text.subrange(from + 1, to + 1));
        assert(is_trimmed_to(text, from + 1, to + 1));
    } else if text.len() > 0 && is_white_space(text.last()) {
        let rest = text.drop_last();
        trimming_takes_off_white_space(rest);
        let (from, to) = choose|from: int, to: int| #[trigger] is_trimmed_to(rest, from, to);
        assert forall|i: int| 0 <= i < text.len() && !(from <= i < to) implies is_white_space(
            #[trigger] text[i],
        ) by {
            if i < rest.len() {
                assert(rest[i] == text[i]);
            }
        }
        assert(rest.subrange(from, to) == text.subrange(from, to));
        assert(is_trimmed_to(text, from, to));
    } else {
        assert(text.subrange(0, text.len() as int) == text);
        assert(is_trimmed_to(text, 0, text.len() as int));
    }
}

/// A text trimmed is what stands from one place in it to another, with nothing but white space
/// around.
pub open spec fn is_trimmed_to(text: Seq<char>, from: int, to: int) -> bool {
    &&& 0 <= from <= to <= text.len()
    &&& trimmed(text) == text.subrange(from, to)
    &&& forall|i: int|
        0 <= i < text.len() && !(from <= i < to) ==> is_white_space(#[trigger] text[i])
}

/// A line gives one variable if there is an equals sign in it, and none otherwise. Its name is what
/// stands before the first equals sign, and its value all that stands after it, of the line without
/// the white space around it.
pub proof fn a_line_gives_what_stands_around_its_equals_sign(line: Seq<char>)
    ensures
        line.contains('=') ==> {
            let given = line_assignments(line);
            &&& given.len() == 1
            &&& given[0].0 + seq!['='] + given[0].1 == trimmed(line)
            &&& !given[0].0.contains('=')
        },
        !line.contains('=') ==> line_assignments(line).len() == 0,
{
    let content = trimmed(line);
    trimming_takes_off_white_space(line);
    the_first_place_is_the_first(content, '=');
    let (from, to) = choose|from: int, to: int| #[trigger] is_trimmed_to(line, from, to);
    if line.contains('=') {
        let i = line.index_of('=');
        assert(line[i] == '=');
        assert(content[i - from] == '=');
        let equals = place_of(content, '=');
        assert(content.take(equals) + seq!['='] + content.skip(equals + 1) == content);
    } else if content.contains('=') {
        let i = content.index_of('=');
        assert(line[from + i] == '=');
    }
}

/// What a file gives is what its lines give, one after the other: two files joined by a line break
/// give what the first gives and then what the second gives.
pub proof fn files_are_read_line_by_line(first: Seq<char>, second: Seq<char>)
    ensures
        session_assignments(first + seq!['\n'] + second) == session_assignments(first)
            + session_assignments(second),
    decreases first.len(),
{
    let joined = first + seq!['\n'] + second;
    let end = place_of(first, '\n');
    the_first_place_is_the_first(first, '\n');
    place_of_is(joined, '\n', end);
    assert(joined.take(end) == first.take(end));
    if end < first.len() {
        let rest = first.skip(end + 1);
        files_are_read_line_by_line(rest, second);
        assert(joined.skip(end + 1) == rest + seq!['\n'] + second);
    } else {
        assert(first.take(end) == first);
        assert(joined.skip(end + 1) == second);
    }
}

/// A file without a line break is one line.
pub proof fn a_file_without_breaks_is_one_line(text: Seq<char>)
    requires
        !text.contains('\n'),
    ensures
        session_assignments(text) == line_assignments(text),
{
    the_first_place_is_the_first(text, '\n');
}

/// A variable that a line can give as it is: its name has no equals sign and neither has a line
/// break, and no white space stands where it would be taken off.
pub open spec fn is_plain(var: (Seq<char>, Seq<char>)) -> bool {
    &&& !var.0.contains('=')
    &&& !var.0.contains('\n')
    &&& !var.1.contains('\n')
    &&& var.0.len() > 0 ==> !is_white_space(var.0.first())
    &&& var.1.len() > 0 ==> !is_white_space(var.1.last())
}

/// Variables as a launcher writes them, each on a line of its own.
pub open spec fn written(vars: Seq<(Seq<char>, Seq<char>)>) -> Seq<char>
    decreases vars.len(),
{
    if vars.len() == 0 {
        seq![]
    } else {
        vars.first().0 + seq!['='] + vars.first().1 + seq!['\n'] + written(vars.drop_first())
    }
}

/// The application is given the variables that its launcher wrote down, all of them, in their order
/// and as they were.
pub proof fn what_the_launcher_wrote_is_read(vars: Seq<(Seq<char>, Seq<char>)>)
    requires
        forall|i: int| 0 <= i < vars.len() ==> is_plain(#[trigger] vars[i]),
    ensures
        session_assignments(written(vars)) == vars,
    decreases vars.len(),
{
    if vars.len() > 0 {
        let var = vars.first();
        let rest = vars.drop_first();
        let line = var.0 + seq!['='] + var.1;
        assert(is_plain(vars[0]));
        assert forall|i: int| 0 <= i < rest.len() implies is_plain(#[trigger] rest[i]) by {
            assert(rest[i] == vars[i + 1]);
        }
        what_the_launcher_wrote_is_read(rest);
        files_are_read_line_by_line(line, written(rest));
        if line.contains('\n') {
            let i = line.index_of('\n');
            assert(line[i] == '\n');
            if i < var.0.len() {
                assert(var.0[i] == '\n');
            } else if i > var.0.len() {
                assert(var.1[i - var.0.len() - 1] == '\n');
            }
        }
        a_file_without_breaks_is_one_line(line);
        assert(line.first() == if var.0.len() > 0 {
            var.0.first()
        } else {
            '='
        });
        assert(line.last() == if var.1.len() > 0 {
            var.1.last()
        } else {
            '='
        });
        place_of_is(line, '=', var.0.len() as int);
        assert(line.take(var.0.len() as int) == var.0);
        assert(line.skip(var.0.len() as int + 1) == var.1);
        assert(vars == seq![var] + rest);
    } else {
        the_first_place_is_the_first(Seq::empty(), '=');
    }
}

} // verus!
