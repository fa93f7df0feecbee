//! Character-level string helpers: truncation, trimming, line splitting,
//! joining and decimal rendering, each stated over `Seq<char>` views.
use vstd::prelude::*;
use vstd::string::*;

verus! {

/// The views of a sequence of strings.
pub open spec fn views(v: Seq<String>) -> Seq<Seq<char>> {
    v.map_values(|s: String| s@)
}

/// The characters of `s`, in order.
pub fn chars_of(s: &str) -> (res: Vec<char>)
    ensures
        res@ == s@,
{
    let mut res: Vec<char> = Vec::new();
    for c in it: s.chars()
        invariant
            res@ == it.seq().take(it.index() as int),
            it.seq() == s@,
    {
        res.push(c);
    }
    res
}

// ---------------------------------------------------------------------------
// Truncation
// ---------------------------------------------------------------------------

/// `s` cut to its first `max` characters, followed by `suffix`, when it has
/// more than `limit` characters; `s` itself otherwise.
pub open spec fn cut_chars(s: Seq<char>, limit: nat, max: nat, suffix: Seq<char>) -> Seq<char> {
    if s.len() > limit {
        s.take(max as int) + suffix
    } else {
        s
    }
}

/// The result of truncating `s` to `max_chars` characters with a `...` marker.
pub open spec fn truncated_with_ellipsis(s: Seq<char>, max_chars: nat) -> Seq<char> {
    cut_chars(s, max_chars, max_chars, "..."@)
}

/// Cuts `value` to its first `max_chars` characters and appends `...` when it
/// has more than `max_chars` characters; returns it unchanged otherwise.
/// Characters are counted as Unicode scalar values, never split.
pub fn truncate_chars_with_ellipsis(value: &str, max_chars: usize) -> (res: String)
    ensures
        res@ == truncated_with_ellipsis(value@, max_chars as nat),
{
    cut_str(value, max_chars, max_chars, "...")
}

/// Cuts `value` to its first `max` characters followed by `suffix` when it
/// has more than `limit` characters.
pub fn cut_str(value: &str, limit: usize, max: usize, suffix: &str) -> (res: String)
    requires
        max <= limit,
    ensures
        res@ == cut_chars(value@, limit as nat, max as nat, suffix@),
{
    let n = value.unicode_len();
    if n > limit {
        let head = value.substring_char(0, max);
        let res = head.to_string().concat(suffix);
        proof {
            assert(head@ == value@.take(max as int));
        }
        res
    } else {
        value.to_string()
    }
}

// ---------------------------------------------------------------------------
// Whitespace trimming
// ---------------------------------------------------------------------------

/// The Unicode `White_Space` property, the definition of whitespace that
/// `str::trim` uses.
pub open spec fn is_white_space(c: char) -> bool {
    let u = c as u32;
    ||| 0x9 <= u <= 0xD
    ||| u == 0x20
    ||| u == 0x85
    ||| u == 0xA0
    ||| u == 0x1680
    ||| 0x2000 <= u <= 0x200A
    ||| u == 0x2028
    ||| u == 0x2029
    ||| u == 0x202F
    ||| u == 0x205F
    ||| u == 0x3000
}

/// The whitespace characters are the 25 code points of Unicode's
/// `White_Space` property: the controls from tab to carriage return, space,
/// next line, no-break space, ogham space mark, the spaces from en quad to
/// hair space, line and paragraph separators, narrow no-break space, medium
/// mathematical space and ideographic space.
pub proof fn lemma_white_space_code_points(c: char)
    ensures
        is_white_space(c) <==> set![
            0x9u32, 0xAu32, 0xBu32, 0xCu32, 0xDu32, 0x20u32, 0x85u32, 0xA0u32, 0x1680u32,
            0x2000u32, 0x2001u32, 0x2002u32, 0x2003u32, 0x2004u32, 0x2005u32, 0x2006u32,
            0x2007u32, 0x2008u32, 0x2009u32, 0x200Au32, 0x2028u32, 0x2029u32, 0x202Fu32,
            0x205Fu32, 0x3000u32,
        ].contains(c as u32),
{
}

/// Executable form of [`is_white_space`].
pub fn char_is_white_space(c: char) -> (res: bool)
    ensures
        res == is_white_space(c),
{
    let u = c as u32;
    (0x9 <= u && u <= 0xD) || u == 0x20 || u == 0x85 || u == 0xA0 || u == 0x1680 || (0x2000 <= u
        && u <= 0x200A) || u == 0x2028 || u == 0x2029 || u == 0x202F || u == 0x205F || u == 0x3000
}

/// `s` without its leading whitespace.
pub open spec fn trim_start(s: Seq<char>) -> Seq<char>
    decreases s.len(),
{
    if s.len() > 0 && is_white_space(s[0]) {
        trim_start(s.drop_first())
    } else {
        s
    }
}

/// `s` without its trailing whitespace.
pub open spec fn trim_end(s: Seq<char>) -> Seq<char>
    decreases s.len(),
{
    if s.len() > 0 && is_white_space(s.last()) {
        trim_end(s.drop_last())
    } else {
        s
    }
}

/// `s` without leading and trailing whitespace.
pub open spec fn trim(s: Seq<char>) -> Seq<char> {
    trim_end(trim_start(s))
}

/// Removes leading and trailing Unicode whitespace from `s`.
pub fn trim_str(s: &str) -> (res: String)
    ensures
        res@ == trim(s@),
{
    let cs = chars_of(s);
    let n = cs.len();
    let mut i: usize = 0;
    assert(s@.subrange(0, n as int) =~= s@);
    while i < n && char_is_white_space(cs[i])
        invariant
            cs@ == s@,
            n == cs.len(),
            i <= n,
            trim_start(s@) == trim_start(s@.subrange(i as int, n as int)),
        decreases n - i,
    {
        assert(s@.subrange(i as int, n as int).drop_first() =~= s@.subrange(i + 1, n as int));
        i = i + 1;
    }
    assert(trim_start(s@) == s@.subrange(i as int, n as int));
    let mut j: usize = n;
    while j > i && char_is_white_space(cs[j - 1])
        invariant
            cs@ == s@,
            n == cs.len(),
            i <= j <= n,
            trim(s@) == trim_end(s@.subrange(i as int, j as int)),
        decreases j - i,
    {
        assert(s@.subrange(i as int, j as int).drop_last() =~= s@.subrange(i as int, j - 1));
        j = j - 1;
    }
    let t = s.substring_char(i, j);
    t.to_string()
}

// ---------------------------------------------------------------------------
// Line splitting
// ---------------------------------------------------------------------------

/// A line's text without the `'\r'` of a `"\r\n"` line ending.
pub open spec fn strip_cr(line: Seq<char>) -> Seq<char> {
    if line.len() > 0 && line.last() == '\r' {
        line.drop_last()
    } else {
        line
    }
}

/// The lines of `s` after the partial line `cur`, as `str::lines` yields
/// them: split at `'\n'`, a `'\r'` before the `'\n'` dropped, no empty line
/// after a final line ending.
pub open spec fn lines_from(s: Seq<char>, cur: Seq<char>) -> Seq<Seq<char>>
    decreases s.len(),
{
    if s.len() == 0 {
        if cur.len() == 0 {
            seq![]
        } else {
            seq![cur]
        }
    } else if s[0] == '\n' {
        seq![strip_cr(cur)] + lines_from(s.drop_first(), seq![])
    } else {
        lines_from(s.drop_first(), cur.push(s[0]))
    }
}

/// The lines of `s`.
pub open spec fn split_lines(s: Seq<char>) -> Seq<Seq<char>> {
    lines_from(s, seq![])
}

/// Splits `s` into lines as `str::lines` does.
pub fn lines_of(s: &str) -> (res: Vec<String>)
    ensures
        views(res@) == split_lines(s@),
{
    let cs = chars_of(s);
    let n = cs.len();
    let mut res: Vec<String> = Vec::new();
    let mut start: usize = 0;
    let mut i: usize = 0;
    assert(s@.subrange(0, n as int) =~= s@);
    assert(s@.subrange(0, 0) =~= Seq::<char>::empty());
    assert(views(res@) + split_lines(s@) =~= split_lines(s@));
    while i < n
        invariant
            cs@ == s@,
            n == cs.len(),
            start <= i <= n,
            split_lines(s@) == views(res@) + lines_from(
                s@.subrange(i as int, n as int),
                s@.subrange(start as int, i as int),
            ),
        decreases n - i,
    {
        let ghost rest = s@.subrange(i as int, n as int);
        assert(rest.drop_first() =~= s@.subrange(i + 1, n as int));
        if cs[i] == '\n' {
            let end: usize = if i > start && cs[i - 1] == '\r' {
                i - 1
            } else {
                i
            };
            let line = s.substring_char(start, end);
            let ghost cur = s@.subrange(start as int, i as int);
            assert(strip_cr(cur) =~= s@.subrange(start as int, end as int));
            let ghost old_res = res@;
            res.push(line.to_string());
            assert(views(res@) =~= views(old_res).push(strip_cr(cur)));
            assert(s@.subrange((i + 1) as int, (i + 1) as int) =~= Seq::<char>::empty());
            i = i + 1;
            start = i;
            assert(views(old_res) + (seq![strip_cr(cur)] + lines_from(
                s@.subrange(i as int, n as int),
                seq![],
            )) =~= views(res@) + lines_from(
                s@.subrange(i as int, n as int),
                s@.subrange(start as int, i as int),
            ));
        } else {
            assert(s@.subrange(start as int, i as int).push(cs@[i as int]) =~= s@.subrange(
                start as int,
                i + 1,
            ));
            i = i + 1;
        }
    }
    if start < n {
        let line = s.substring_char(start, n);
        let ghost old_res = res@;
        res.push(line.to_string());
        assert(views(res@) =~= views(old_res).push(s@.subrange(start as int, n as int)));
    }
    assert(views(res@) + seq![] =~= views(res@));
    res
}

// ---------------------------------------------------------------------------
// Joining
// ---------------------------------------------------------------------------

/// The elements of `parts`, in order, with `sep` between each two.
pub open spec fn join(parts: Seq<Seq<char>>, sep: Seq<char>) -> Seq<char>
    decreases parts.len(),
{
    if parts.len() == 0 {
        seq![]
    } else if parts.len() == 1 {
        parts[0]
    } else {
        join(parts.drop_last(), sep) + sep + parts.last()
    }
}

/// Joins `parts` with `sep` between each two.
pub fn join_strings(parts: &Vec<String>, sep: &str) -> (res: String)
    ensures
        res@ == join(views(parts@), sep@),
{
    let mut res = String::new();
    let ghost ps = views(parts@);
    let mut i: usize = 0;
    while i < parts.len()
        invariant
            ps == views(parts@),
            i <= parts.len(),
            res@ == join(ps.take(i as int), sep@),
        decreases parts.len() - i,
    {
        assert(ps.take(i + 1).drop_last() =~= ps.take(i as int));
        if i != 0 {
            res.append(sep);
        }
        res.append(parts[i].as_str());
        i = i + 1;
    }
    assert(ps.take(parts.len() as int) =~= ps);
    res
}

// ---------------------------------------------------------------------------
// Decimal rendering
// ---------------------------------------------------------------------------

/// The decimal digit character for `d` (`0 <= d < 10`).
pub open spec fn digit_char(d: int) -> char {
    (('0' as int) + d) as char
}

/// The decimal digits of `n`, most significant first, with no leading zero.
pub open spec fn nat_digits(n: nat) -> Seq<char>
    decreases n,
{
    if n < 10 {
        seq![digit_char(n as int)]
    } else {
        nat_digits(n / 10).push(digit_char((n % 10) as int))
    }
}

/// The decimal representation of `x`, with a leading `-` when negative.
pub open spec fn decimal(x: int) -> Seq<char> {
    if x < 0 {
        seq!['-'] + nat_digits((-x) as nat)
    } else {
        nat_digits(x as nat)
    }
}

/// The decimal digit `d` as a one-character string.
fn digit_text(d: u64) -> (res: &'static str)
    requires
        d < 10,
    ensures
        res@ == seq![digit_char(d as int)],
{
    let digits = "0123456789";
    proof {
        reveal_strlit("0123456789");
    }
    let res = digits.substring_char(d as usize, (d + 1) as usize);
    assert(res@ =~= seq![digit_char(d as int)]);
    res
}

/// Renders a natural number in decimal.
fn u64_to_decimal(n: u64) -> (res: String)
    ensures
        res@ == nat_digits(n as nat),
    decreases n,
{
    if n < 10 {
        digit_text(n).to_string()
    } else {
        let head = u64_to_decimal(n / 10);
        let res = head.concat(digit_text(n % 10));
        assert(res@ =~= nat_digits((n / 10) as nat).push(digit_char((n % 10) as int)));
        res
    }
}

/// Renders an `i32` in decimal, with a leading `-` when negative.
pub(crate) fn i32_to_decimal(x: i32) -> (res: String)
    ensures
        res@ == decimal(x as int),
{
    if x < 0 {
        let magnitude: u64 = (-(x as i64)) as u64;
        proof {
            reveal_strlit("-");
        }
        let res = "-".to_string().concat(u64_to_decimal(magnitude).as_str());
        assert(res@ =~= seq!['-'] + nat_digits((-x) as nat));
        res
    } else {
        u64_to_decimal(x as u64)
    }
}

/// Renders a `usize` in decimal.
pub(crate) fn usize_to_decimal(x: usize) -> (res: String)
    ensures
        res@ == decimal(x as int),
{
    u64_to_decimal(x as u64)
}

/// The first part of a non-empty join begins the joined text.
pub proof fn lemma_join_starts_with_first(parts: Seq<Seq<char>>, sep: Seq<char>)
    requires
        parts.len() >= 1,
    ensures
        parts[0].is_prefix_of(join(parts, sep)),
    decreases parts.len(),
{
    if parts.len() > 1 {
        lemma_join_starts_with_first(parts.drop_last(), sep);
        let j = join(parts.drop_last(), sep);
        assert((j + sep + parts.last()).take(parts[0].len() as int) =~= j.take(
            parts[0].len() as int,
        ));
    } else {
        assert(join(parts, sep).take(parts[0].len() as int) =~= parts[0]);
    }
}

/// Truncation keeps a string of at most `max_chars` characters unchanged,
/// and otherwise keeps its first `max_chars` characters followed by `...`,
/// so the result never has more than `max_chars + 3` characters.
pub proof fn lemma_truncation_bounds(s: Seq<char>, max_chars: nat)
    ensures
        s.len() <= max_chars ==> truncated_with_ellipsis(s, max_chars) == s,
        s.len() > max_chars ==> truncated_with_ellipsis(s, max_chars).take(max_chars as int)
            == s.take(max_chars as int),
        s.len() > max_chars ==> truncated_with_ellipsis(s, max_chars).skip(max_chars as int)
            == "..."@,
        s.len() > max_chars ==> truncated_with_ellipsis(s, max_chars).len() == max_chars + 3,
        truncated_with_ellipsis(s, max_chars).len() <= max_chars + 3,
{
    lemma_cut_chars(s, max_chars, max_chars, "..."@);
    reveal_strlit("...");
}

/// Cutting keeps a string of at most `limit` characters unchanged; a longer
/// one becomes its first `max` characters followed by the suffix.
pub proof fn lemma_cut_chars(s: Seq<char>, limit: nat, max: nat, suffix: Seq<char>)
    requires
        max <= limit,
    ensures
        s.len() <= limit ==> cut_chars(s, limit, max, suffix) == s,
        s.len() > limit ==> cut_chars(s, limit, max, suffix).len() == max + suffix.len(),
        s.len() > limit ==> cut_chars(s, limit, max, suffix).take(max as int) == s.take(
            max as int,
        ),
        s.len() > limit ==> cut_chars(s, limit, max, suffix).skip(max as int) == suffix,
{
    if s.len() > limit {
        let r = cut_chars(s, limit, max, suffix);
        assert(r.take(max as int) =~= s.take(max as int));
        assert(r.skip(max as int) =~= suffix);
    }
}

/// Whether `t` occurs in `s` as a contiguous piece.
pub open spec fn contains_text(s: Seq<char>, t: Seq<char>) -> bool {
    exists|i: int| 0 <= i <= s.len() - t.len() && #[trigger] s.subrange(i, i + t.len()) == t
}

/// A piece of a text stays a piece of every text that extends it.
pub proof fn lemma_contains_in_extension(a: Seq<char>, b: Seq<char>, t: Seq<char>)
    requires
        contains_text(a, t),
        a.is_prefix_of(b),
    ensures
        contains_text(b, t),
{
    let i = choose|i: int| 0 <= i <= a.len() - t.len() && #[trigger] a.subrange(i, i + t.len()) == t;
    assert(b.subrange(i, i + t.len()) =~= a.subrange(i, i + t.len()));
}

/// A text contains what ends it.
pub proof fn lemma_contains_end(a: Seq<char>, t: Seq<char>)
    ensures
        contains_text(a + t, t),
{
    let i = a.len() as int;
    assert((a + t).subrange(i, i + t.len()) =~= t);
}

/// Each part of a join is a piece of the joined text.
pub proof fn lemma_join_contains(parts: Seq<Seq<char>>, sep: Seq<char>, k: int)
    requires
        0 <= k < parts.len(),
    ensures
        contains_text(join(parts, sep), parts[k]),
    decreases parts.len(),
{
    if parts.len() == 1 {
        let t = parts[0];
        let i: int = 0;
        assert(join(parts, sep).subrange(i, i + t.len()) =~= t);
    } else if k == parts.len() - 1 {
        lemma_contains_end(join(parts.drop_last(), sep) + sep, parts.last());
    } else {
        assert(parts.drop_last()[k] == parts[k]);
        lemma_join_contains(parts.drop_last(), sep, k);
        let j = join(parts.drop_last(), sep);
        assert(j.is_prefix_of(join(parts, sep))) by {
            assert(join(parts, sep).take(j.len() as int) =~= j);
        }
        lemma_contains_in_extension(j, join(parts, sep), parts[k]);
    }
}

/// Joining a leading part of a list gives a leading part of the joined text.
pub proof fn lemma_join_prefix(parts: Seq<Seq<char>>, sep: Seq<char>, k: int)
    requires
        1 <= k <= parts.len(),
    ensures
        join(parts.take(k), sep).is_prefix_of(join(parts, sep)),
    decreases parts.len(),
{
    if k == parts.len() {
        assert(parts.take(k) =~= parts);
        assert(join(parts, sep).take(join(parts, sep).len() as int) =~= join(parts, sep));
    } else {
        lemma_join_prefix(parts.drop_last(), sep, k);
        assert(parts.drop_last().take(k) =~= parts.take(k));
        let j = join(parts.drop_last(), sep);
        let a = join(parts.take(k), sep);
        assert(join(parts, sep).take(a.len() as int) =~= j.take(a.len() as int));
    }
}

/// A join of two or more parts ends with the separator and the last part.
pub proof fn lemma_join_ends_with_last(parts: Seq<Seq<char>>, sep: Seq<char>)
    requires
        parts.len() >= 2,
    ensures
        join(parts, sep).skip(join(parts, sep).len() - (sep + parts.last()).len()) == sep
            + parts.last(),
{
    let j = join(parts, sep);
    let e = sep + parts.last();
    assert(j =~= join(parts.drop_last(), sep) + e);
    assert(j.skip(j.len() - e.len()) =~= e);
}

/// Trimming removes whitespace only, from both ends, and leaves neither end
/// on whitespace: the result is a stretch `s[i..j]` with only whitespace
/// before `i` and from `j` on.
pub proof fn lemma_trim_shape(s: Seq<char>)
    ensures
        exists|i: int, j: int|
            0 <= i <= j <= s.len() && trim(s) == s.subrange(i, j) && (forall|k: int|
                0 <= k < i ==> is_white_space(#[trigger] s[k])) && (forall|k: int|
                j <= k < s.len() ==> is_white_space(#[trigger] s[k])),
        trim(s).len() > 0 ==> !is_white_space(trim(s)[0]) && !is_white_space(
            trim(s)[trim(s).len() - 1],
        ),
{
    let i = lemma_trim_start_shape(s);
    let t = s.subrange(i, s.len() as int);
    let j = lemma_trim_end_shape(t);
    assert(trim(s) == t.subrange(0, j));
    assert(t.subrange(0, j) =~= s.subrange(i, i + j));
    assert forall|k: int| i + j <= k < s.len() implies is_white_space(#[trigger] s[k]) by {
        assert(s[k] == t[k - i]);
    }
    assert(trim(s) == s.subrange(i, i + j));
    if trim(s).len() > 0 {
        assert(trim(s)[0] == t[0]);
    }
}

proof fn lemma_trim_start_shape(s: Seq<char>) -> (i: int)
    ensures
        0 <= i <= s.len(),
        trim_start(s) == s.subrange(i, s.len() as int),
        forall|k: int| 0 <= k < i ==> is_white_space(#[trigger] s[k]),
        i < s.len() ==> !is_white_space(s[i]),
    decreases s.len(),
{
    if s.len() > 0 && is_white_space(s[0]) {
        let r = s.drop_first();
        let i0 = lemma_trim_start_shape(r);
        assert(r.subrange(i0, r.len() as int) =~= s.subrange(i0 + 1, s.len() as int));
        assert forall|k: int| 0 <= k < i0 + 1 implies is_white_space(#[trigger] s[k]) by {
            if k > 0 {
                assert(s[k] == r[k - 1]);
            }
        }
        i0 + 1
    } else {
        assert(s.subrange(0, s.len() as int) =~= s);
        0
    }
}

proof fn lemma_trim_end_shape(s: Seq<char>) -> (j: int)
    ensures
        0 <= j <= s.len(),
        trim_end(s) == s.subrange(0, j),
        forall|k: int| j <= k < s.len() ==> is_white_space(#[trigger] s[k]),
        j > 0 ==> !is_white_space(s[j - 1]),
    decreases s.len(),
{
    if s.len() > 0 && is_white_space(s.last()) {
        let r = s.drop_last();
        let j0 = lemma_trim_end_shape(r);
        assert(r.subrange(0, j0) =~= s.subrange(0, j0));
        assert forall|k: int| j0 <= k < s.len() implies is_white_space(#[trigger] s[k]) by {
            if k < s.len() - 1 {
                assert(s[k] == r[k]);
            }
        }
        j0
    } else {
        assert(s.subrange(0, s.len() as int) =~= s);
        s.len() as int
    }
}

/// Whether `s` holds the character `c`.
pub open spec fn has_char(s: Seq<char>, c: char) -> bool {
    exists|i: int| 0 <= i < s.len() && s[i] == c
}

/// A join of a part before a non-empty list is the part, the separator and
/// the join of the list.
pub proof fn lemma_join_cons(a: Seq<char>, parts: Seq<Seq<char>>, sep: Seq<char>)
    requires
        parts.len() >= 1,
    ensures
        join(seq![a] + parts, sep) == a + sep + join(parts, sep),
    decreases parts.len(),
{
    let all = seq![a] + parts;
    if parts.len() == 1 {
        assert(all.drop_last() =~= seq![a]);
        assert(join(seq![a], sep) == a);
        assert(all.last() == parts[0]);
        assert(join(parts, sep) == parts[0]);
        assert(join(all, sep) == join(all.drop_last(), sep) + sep + all.last());
    } else {
        assert(all.drop_last() =~= seq![a] + parts.drop_last());
        lemma_join_cons(a, parts.drop_last(), sep);
        assert(all.last() == parts.last());
        assert(join(all, sep) =~= a + sep + join(parts, sep));
    }
}

/// The lines that follow a partial line with no line break hold no line
/// break; for a text without carriage returns that does not end with a line
/// break, joining them with line breaks gives back the partial line and the
/// text.
proof fn lemma_lines_from_shape(s: Seq<char>, cur: Seq<char>)
    requires
        !has_char(cur, '\n'),
        !has_char(cur, '\r'),
        !has_char(s, '\r'),
    ensures
        forall|k: int| 0 <= k < lines_from(s, cur).len() ==> !has_char(
            #[trigger] lines_from(s, cur)[k],
            '\n',
        ),
        (s.len() == 0 || s.last() != '\n') && (cur + s).len() > 0 ==> join(
            lines_from(s, cur),
            "\n"@,
        ) == cur + s,
    decreases s.len(),
{
    reveal_strlit("\n");
    if s.len() == 0 {
        assert(cur + s =~= cur);
    } else {
        let rest = s.drop_first();
        assert(!has_char(rest, '\r')) by {
            if has_char(rest, '\r') {
                let i = choose|i: int| 0 <= i < rest.len() && rest[i] == '\r';
                assert(s[i + 1] == '\r');
            }
        }
        if s[0] == '\n' {
            assert(strip_cr(cur) == cur) by {
                if cur.len() > 0 && cur.last() == '\r' {
                    assert(cur[cur.len() - 1] == '\r');
                }
            }
            lemma_lines_from_shape(rest, seq![]);
            let tail = lines_from(rest, seq![]);
            assert forall|k: int| 0 <= k < lines_from(s, cur).len() implies !has_char(
                #[trigger] lines_from(s, cur)[k],
                '\n',
            ) by {
                if k > 0 {
                    assert(lines_from(s, cur)[k] == tail[k - 1]);
                }
            }
            if s.last() != '\n' {
                assert(rest.len() > 0);
                assert(rest.last() == s.last());
                assert(Seq::<char>::empty() + rest =~= rest);
                assert(tail.len() >= 1) by {
                    lemma_lines_from_nonempty(rest, seq![]);
                }
                lemma_join_cons(cur, tail, "\n"@);
                assert(cur + "\n"@ + rest =~= cur + s);
            }
        } else {
            let next = cur.push(s[0]);
            assert(!has_char(next, '\n')) by {
                if has_char(next, '\n') {
                    let i = choose|i: int| 0 <= i < next.len() && next[i] == '\n';
                    if i < cur.len() {
                        assert(cur[i] == '\n');
                    }
                }
            }
            assert(!has_char(next, '\r')) by {
                if has_char(next, '\r') {
                    let i = choose|i: int| 0 <= i < next.len() && next[i] == '\r';
                    if i < cur.len() {
                        assert(cur[i] == '\r');
                    } else {
                        assert(s[0] == '\r');
                    }
                }
            }
            lemma_lines_from_shape(rest, next);
            if s.last() != '\n' {
                if rest.len() > 0 {
                    assert(rest.last() == s.last());
                }
                assert(next + rest =~= cur + s);
            }
        }
    }
}

/// A text that is not empty has at least one line.
pub proof fn lemma_lines_from_nonempty(s: Seq<char>, cur: Seq<char>)
    requires
        (cur + s).len() > 0,
    ensures
        lines_from(s, cur).len() >= 1,
    decreases s.len(),
{
    if s.len() > 0 {
        if s[0] != '\n' {
            lemma_lines_from_nonempty(s.drop_first(), cur.push(s[0]));
        }
    }
}

/// No line of a text holds a line break; a text without carriage returns
/// that does not end with a line break is its lines joined with line breaks.
pub proof fn lemma_split_lines_shape(s: Seq<char>)
    requires
        !has_char(s, '\r'),
    ensures
        forall|k: int| 0 <= k < split_lines(s).len() ==> !has_char(#[trigger] split_lines(s)[k], '\n'),
        s.len() > 0 && s.last() != '\n' ==> join(split_lines(s), "\n"@) == s,
{
    lemma_lines_from_shape(s, seq![]);
    assert(Seq::<char>::empty() + s =~= s);
}

/// The first line of a text whose first line break is at `n` is the text
/// before it, after the partial line `cur`, less a final carriage return.
pub proof fn lemma_lines_first_line(s: Seq<char>, n: int, cur: Seq<char>)
    requires
        0 <= n < s.len(),
        s[n] == '\n',
        forall|k: int| 0 <= k < n ==> s[k] != '\n',
    ensures
        lines_from(s, cur)[0] == strip_cr(cur + s.take(n)),
    decreases n,
{
    if n == 0 {
        assert(cur + s.take(0) =~= cur);
    } else {
        let rest = s.drop_first();
        assert(s[0] != '\n');
        assert forall|k: int| 0 <= k < n - 1 implies rest[k] != '\n' by {
            assert(rest[k] == s[k + 1]);
        }
        lemma_lines_first_line(rest, n - 1, cur.push(s[0]));
        assert(cur.push(s[0]) + rest.take(n - 1) =~= cur + s.take(n));
    }
}

/// The number that a string of decimal digits denotes.
pub open spec fn digits_value(s: Seq<char>) -> int
    decreases s.len(),
{
    if s.len() == 0 {
        0
    } else {
        digits_value(s.drop_last()) * 10 + ((s.last() as int) - ('0' as int))
    }
}

/// The decimal digits of `n` are digit characters that denote `n`, the
/// first of them not `0` unless `n` is `0`; a negative number is a `-`
/// followed by the digits of its magnitude.
pub proof fn lemma_decimal_denotes(n: nat, x: int)
    ensures
        digits_value(nat_digits(n)) == n,
        forall|k: int|
            0 <= k < nat_digits(n).len() ==> '0' <= #[trigger] nat_digits(n)[k] <= '9',
        n > 0 ==> nat_digits(n)[0] != '0',
        x < 0 ==> decimal(x) == seq!['-'] + nat_digits((-x) as nat),
        x >= 0 ==> decimal(x) == nat_digits(x as nat),
    decreases n,
{
    if n >= 10 {
        lemma_decimal_denotes(n / 10, 0);
        let d = nat_digits(n);
        assert(d.drop_last() =~= nat_digits(n / 10));
        assert(d[0] == nat_digits(n / 10)[0]);
        assert(d.last() == digit_char((n % 10) as int));
        assert((digit_char((n % 10) as int) as int) == ('0' as int) + n % 10);
        assert(digits_value(d) == (n / 10) * 10 + n % 10);
        assert((n / 10) * 10 + n % 10 == n) by (nonlinear_arith);
        assert forall|k: int| 0 <= k < d.len() implies '0' <= #[trigger] d[k] <= '9' by {
            if k < d.len() - 1 {
                assert(d[k] == nat_digits(n / 10)[k]);
            }
        }
    } else {
        let d = nat_digits(n);
        assert(d.drop_last() =~= Seq::<char>::empty());
        assert((digit_char(n as int) as int) == ('0' as int) + n);
        assert(digits_value(d) == digits_value(d.drop_last()) * 10 + ((d.last() as int) - ('0' as int)));
        assert(digits_value(Seq::<char>::empty()) == 0);
    }
}

} // verus!
