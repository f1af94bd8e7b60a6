use vstd::prelude::*;

verus! {

/// The Unicode `White_Space` characters.
pub open spec fn is_white_space(c: char) -> bool {
    let u = c as u32;
    ||| 0x09 <= u <= 0x0D
    ||| u == 0x20
    ||| u == 0x85
    ||| u == 0xA0
    ||| u == 0x1680
    ||| 0x2000 <= u <= 0x200A
    ||| u == 0x2028
    ||| u == 0x2029
    ||| u == 0x202F
    ||| u == 0x205F
    ||| u == 0x3000
}

/// `s` without its leading white space.
pub open spec fn trim_start(s: Seq<char>) -> Seq<char>
    decreases s.len(),
{
    if s.len() > 0 && is_white_space(s[0]) {
        trim_start(s.skip(1))
    } else {
        s
    }
}

/// `s` without its trailing white space.
pub open spec fn trim_end(s: Seq<char>) -> Seq<char>
    decreases s.len(),
{
    if s.len() > 0 && is_white_space(s.last()) {
        trim_end(s.drop_last())
    } else {
        s
    }
}

pub open spec fn trim(s: Seq<char>) -> Seq<char> {
    trim_end(trim_start(s))
}

/// A line that contributes nothing: blank, or a `#` comment.
pub open spec fn is_silent(line: Seq<char>) -> bool {
    trim(line).len() == 0 || trim(line)[0] == '#'
}

/// What a line contributes to the directive.
pub open spec fn kept(line: Seq<char>) -> Seq<char> {
    if is_silent(line) {
        Seq::empty()
    } else {
        trim(line)
    }
}

/// The lines of `s` that end in a newline, and the unfinished rest.
pub open spec fn split_lines(s: Seq<char>) -> (Seq<Seq<char>>, Seq<char>)
    decreases s.len(),
{
    if s.len() == 0 {
        (Seq::empty(), Seq::empty())
    } else {
        let (done, rest) = split_lines(s.drop_last());
        if s.last() == '\n' {
            (done.push(rest), Seq::empty())
        } else {
            (done, rest.push(s.last()))
        }
    }
}

/// The lines of `s`, split at each `\n`.
pub open spec fn lines_of(s: Seq<char>) -> Seq<Seq<char>> {
    split_lines(s).0.push(split_lines(s).1)
}

/// The contributions of `lines`, concatenated without separator.
pub open spec fn joined(lines: Seq<Seq<char>>) -> Seq<char>
    decreases lines.len(),
{
    if lines.len() == 0 {
        Seq::empty()
    } else {
        joined(lines.drop_last()) + kept(lines.last())
    }
}

/// The filter directive that control-file content `s` asks for: its trimmed
/// lines that are neither blank nor comments, concatenated.
pub open spec fn directive_of(s: Seq<char>) -> Seq<char> {
    joined(lines_of(s))
}

/// Whether `c` is white space.
pub fn white_space(c: char) -> (r: bool)
    ensures
        r == is_white_space(c),
{
    let u = c as u32;
    (0x09 <= u && u <= 0x0D) || u == 0x20 || u == 0x85 || u == 0xA0 || u == 0x1680 || (0x2000
        <= u && u <= 0x200A) || u == 0x2028 || u == 0x2029 || u == 0x202F || u == 0x205F || u
        == 0x3000
}

/// The bounds of `s[from..to]` without its surrounding white space.
fn trim_bounds(s: &str, from: usize, to: usize) -> (r: (usize, usize))
    requires
        from <= to <= s@.len(),
    ensures
        from <= r.0 <= r.1 <= to,
        s@.subrange(r.0 as int, r.1 as int) == trim(s@.subrange(from as int, to as int)),
{
    let ghost line = s@.subrange(from as int, to as int);
    let mut a = from;
    while a < to && white_space(s.get_char(a))
        invariant
            from <= a <= to <= s@.len(),
            trim_start(line) == trim_start(s@.subrange(a as int, to as int)),
        decreases to - a,
    {
        assert(s@.subrange(a as int, to as int).skip(1) =~= s@.subrange(a + 1, to as int));
        a = a + 1;
    }
    assert(trim_start(line) == s@.subrange(a as int, to as int));
    let mut b = to;
    while b > a && white_space(s.get_char(b - 1))
        invariant
            a <= b <= to <= s@.len(),
            trim(line) == trim_end(s@.subrange(a as int, b as int)),
        decreases b - a,
    {
        assert(s@.subrange(a as int, b as int).drop_last() =~= s@.subrange(a as int, b - 1));
        b = b - 1;
    }
    (a, b)
}

proof fn lemma_joined_push(lines: Seq<Seq<char>>, line: Seq<char>)
    ensures
        joined(lines.push(line)) == joined(lines) + kept(line),
{
    assert(lines.push(line).drop_last() =~= lines);
}

/// The filter directive held by control-file content `content`.
pub fn directive(content: &str) -> (r: String)
    ensures
        r@ == directive_of(content@),
{
    let n = content.unicode_len();
    let mut out = String::new();
    let mut start: usize = 0;
    let mut i: usize = 0;
    while i < n
        invariant
            n == content@.len(),
            start <= i <= n,
            split_lines(content@.take(i as int)).1 == content@.subrange(start as int, i as int),
            joined(split_lines(content@.take(i as int)).0) == out@,
        decreases n - i,
    {
        let c = content.get_char(i);
        let ghost prev = content@.take(i as int);
        assert(content@.take(i + 1).drop_last() =~= prev);
        if c == '\n' {
            let (a, b) = trim_bounds(content, start, i);
            let t = content.substring_char(a, b);
            let silent = a == b || content.get_char(a) == '#';
            proof {
                lemma_joined_push(split_lines(prev).0, split_lines(prev).1);
            }
            if !silent {
                out.append(t);
            }
            start = i + 1;
        } else {
            assert(content@.subrange(start as int, i + 1) =~= content@.subrange(
                start as int,
                i as int,
            ).push(c));
        }
        i = i + 1;
    }
    assert(content@.take(n as int) =~= content@);
    let (a, b) = trim_bounds(content, start, n);
    proof {
        lemma_joined_push(split_lines(content@).0, split_lines(content@).1);
    }
    if a < b && content.get_char(a) != '#' {
        out.append(content.substring_char(a, b));
    }
    out
}

} // verus!
