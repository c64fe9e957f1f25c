use vstd::prelude::*;

verus! {

/// Unicode `White_Space` property, the set that `char::is_whitespace` tests.
pub open spec fn is_white(c: char) -> bool {
    let u = c as u32;
    (0x09 <= u && u <= 0x0d) || u == 0x20 || u == 0x85 || u == 0xa0 || u == 0x1680 || (0x2000
        <= u && u <= 0x200a) || u == 0x2028 || u == 0x2029 || u == 0x202f || u == 0x205f || u
        == 0x3000
}

/// What a character sequence reads as once whitespace at its start is removed.
pub open spec fn trim_start(s: Seq<char>) -> Seq<char>
    decreases s.len(),
{
    if s.len() > 0 && is_white(s[0]) {
        trim_start(s.drop_first())
    } else {
        s
    }
}

/// What a character sequence reads as once whitespace at its end is removed.
pub open spec fn trim_end(s: Seq<char>) -> Seq<char>
    decreases s.len(),
{
    if s.len() > 0 && is_white(s.last()) {
        trim_end(s.drop_last())
    } else {
        s
    }
}

/// Removes every newline at the end.
pub open spec fn strip_newlines(s: Seq<char>) -> Seq<char>
    decreases s.len(),
{
    if s.len() > 0 && s.last() == '\n' {
        strip_newlines(s.drop_last())
    } else {
        s
    }
}

/// The form in which actual and expected output are compared: whitespace
/// trimmed at both ends, then trailing newlines stripped.
pub open spec fn normalized(s: Seq<char>) -> Seq<char> {
    strip_newlines(trim_end(trim_start(s)))
}

/// The lines joined by single newlines, with no newline after the last one.
pub open spec fn joined(lines: Seq<Seq<char>>) -> Seq<char>
    decreases lines.len(),
{
    if lines.len() == 0 {
        Seq::empty()
    } else if lines.len() == 1 {
        lines[0]
    } else {
        joined(lines.drop_last()) + seq!['\n'] + lines.last()
    }
}

/// The character sequences that a sequence of strings holds.
pub open spec fn line_views(lines: Seq<String>) -> Seq<Seq<char>> {
    lines.map_values(|l: String| l@)
}

/// Pieces between newlines; there is always one more piece than newlines.
pub open spec fn pieces(s: Seq<char>) -> Seq<Seq<char>>
    decreases s.len(),
{
    if s.len() == 0 {
        seq![Seq::empty()]
    } else {
        let p = pieces(s.drop_last());
        if s.last() == '\n' {
            p.push(Seq::empty())
        } else {
            p.update(p.len() - 1, p.last().push(s.last()))
        }
    }
}

/// A line that a newline ended loses one carriage return before it.
pub open spec fn strip_cr(l: Seq<char>) -> Seq<char> {
    if l.len() > 0 && l.last() == '\r' {
        l.drop_last()
    } else {
        l
    }
}

/// The lines of a text: split at `\n` or `\r\n`; the final line ending is
/// optional and yields no empty line after it; an empty text has no lines.
pub open spec fn text_lines(s: Seq<char>) -> Seq<Seq<char>> {
    let p = pieces(s);
    let ended = p.drop_last().map_values(|l: Seq<char>| strip_cr(l));
    if p.last().len() == 0 {
        ended
    } else {
        ended.push(p.last())
    }
}

/// Decimal digit character of a value below ten.
pub open spec fn digit(d: nat) -> char {
    if d == 0 {
        '0'
    } else if d == 1 {
        '1'
    } else if d == 2 {
        '2'
    } else if d == 3 {
        '3'
    } else if d == 4 {
        '4'
    } else if d == 5 {
        '5'
    } else if d == 6 {
        '6'
    } else if d == 7 {
        '7'
    } else if d == 8 {
        '8'
    } else {
        '9'
    }
}

/// Decimal notation of a number, without leading zeros.
pub open spec fn decimal(n: nat) -> Seq<char>
    decreases n,
{
    if n < 10 {
        seq![digit(n)]
    } else {
        decimal(n / 10).push(digit(n % 10))
    }
}

pub proof fn lemma_pieces_nonempty(s: Seq<char>)
    ensures
        pieces(s).len() >= 1,
    decreases s.len(),
{
    if s.len() > 0 {
        lemma_pieces_nonempty(s.drop_last());
    }
}

proof fn lemma_trim_start_push_white(s: Seq<char>, c: char)
    requires
        is_white(c),
    ensures
        trim_start(s.push(c)) == (if trim_start(s).len() == 0 {
            Seq::<char>::empty()
        } else {
            trim_start(s).push(c)
        }),
    decreases s.len(),
{
    if s.len() == 0 {
        assert(s.push(c)[0] == c);
        assert(s.push(c).drop_first() =~= Seq::<char>::empty());
        assert(trim_start(Seq::<char>::empty()) == Seq::<char>::empty());
    } else if is_white(s[0]) {
        assert(s.push(c)[0] == s[0]);
        assert(s.push(c).drop_first() =~= s.drop_first().push(c));
        lemma_trim_start_push_white(s.drop_first(), c);
    } else {
        assert(s.push(c)[0] == s[0]);
    }
}

/// Whitespace appended at the end does not change the normalized form.
pub proof fn lemma_normalized_push_white(s: Seq<char>, c: char)
    requires
        is_white(c),
    ensures
        normalized(s.push(c)) == normalized(s),
{
    lemma_trim_start_push_white(s, c);
    let t = trim_start(s);
    if t.len() > 0 {
        assert(t.push(c).drop_last() =~= t);
    }
}

/// A trailing empty line adds one newline to the joined text.
pub proof fn lemma_joined_push_empty(lines: Seq<Seq<char>>)
    ensures
        lines.len() == 0 ==> joined(lines.push(Seq::empty())) == joined(lines),
        lines.len() > 0 ==> joined(lines.push(Seq::empty())) == joined(lines).push('\n'),
{
    if lines.len() == 0 {
        assert(joined(lines.push(Seq::empty())) =~= joined(lines));
    } else {
        assert(lines.push(Seq::empty()).drop_last() =~= lines);
        assert(joined(lines.push(Seq::empty())) =~= joined(lines).push('\n'));
    }
}

proof fn lemma_joined_extend_last(p: Seq<Seq<char>>, c: char)
    requires
        p.len() >= 1,
    ensures
        joined(p.update(p.len() - 1, p.last().push(c))) == joined(p).push(c),
{
    let q = p.update(p.len() - 1, p.last().push(c));
    if p.len() == 1 {
        assert(joined(q) == q[0]);
    } else {
        assert(q.drop_last() =~= p.drop_last());
        assert(joined(q) =~= joined(p).push(c));
    }
}

/// Joining the pieces between newlines gives the text back.
pub proof fn lemma_joined_pieces(s: Seq<char>)
    ensures
        joined(pieces(s)) == s,
    decreases s.len(),
{
    if s.len() == 0 {
        assert(joined(pieces(s)) =~= s);
    } else {
        let t = s.drop_last();
        lemma_joined_pieces(t);
        lemma_pieces_nonempty(t);
        let p = pieces(t);
        if s.last() == '\n' {
            assert(p.push(Seq::empty()).drop_last() =~= p);
            assert(joined(pieces(s)) =~= s);
        } else {
            lemma_joined_extend_last(p, s.last());
            assert(joined(pieces(s)) =~= s);
        }
    }
}

proof fn lemma_last_piece_end(s: Seq<char>)
    ensures
        pieces(s).len() >= 1,
        pieces(s).last().len() > 0 ==> s.len() > 0 && pieces(s).last().last() == s.last(),
    decreases s.len(),
{
    lemma_pieces_nonempty(s);
    if s.len() > 0 {
        lemma_last_piece_end(s.drop_last());
    }
}

/// No carriage return stands right before a newline.
pub open spec fn no_crlf(s: Seq<char>) -> bool {
    forall|i: int| 0 <= i < s.len() - 1 ==> !(#[trigger] s[i] == '\r' && s[i + 1] == '\n')
}

proof fn lemma_ended_pieces_plain(s: Seq<char>)
    requires
        no_crlf(s),
    ensures
        pieces(s).len() >= 1,
        forall|i: int| 0 <= i < pieces(s).len() - 1 ==> strip_cr(#[trigger] pieces(s)[i])
            == pieces(s)[i],
    decreases s.len(),
{
    lemma_pieces_nonempty(s);
    if s.len() > 0 {
        let t = s.drop_last();
        assert forall|i: int| 0 <= i < t.len() - 1 implies !(#[trigger] t[i] == '\r' && t[i + 1]
            == '\n') by {
            assert(s[i] == t[i] && s[i + 1] == t[i + 1]);
        }
        lemma_ended_pieces_plain(t);
        lemma_last_piece_end(t);
        let p = pieces(t);
        if s.last() == '\n' {
            if p.last().len() > 0 {
                assert(s[t.len() - 1] == t.last());
                assert(!(s[s.len() - 2] == '\r' && s[s.len() - 1] == '\n'));
            }
            assert forall|i: int| 0 <= i < pieces(s).len() - 1 implies strip_cr(
                #[trigger] pieces(s)[i],
            ) == pieces(s)[i] by {
                assert(pieces(s)[i] == p[i]);
            }
        } else {
            assert forall|i: int| 0 <= i < pieces(s).len() - 1 implies strip_cr(
                #[trigger] pieces(s)[i],
            ) == pieces(s)[i] by {
                assert(pieces(s)[i] == p[i]);
            }
        }
    }
}

/// Splitting a text into lines and joining them again changes it at most by
/// one final newline, where no line ends in a carriage return.
pub proof fn lemma_lines_rejoined(s: Seq<char>)
    requires
        no_crlf(s),
    ensures
        joined(text_lines(s)) == s || joined(text_lines(s)).push('\n') == s,
{
    lemma_ended_pieces_plain(s);
    lemma_joined_pieces(s);
    let p = pieces(s);
    let ended = p.drop_last().map_values(|l: Seq<char>| strip_cr(l));
    assert(ended =~= p.drop_last());
    if p.last().len() == 0 {
        if p.len() == 1 {
            assert(joined(text_lines(s)) =~= s);
        } else {
            assert(joined(text_lines(s)).push('\n') =~= s);
        }
    } else {
        assert(text_lines(s) =~= p);
    }
}

/// The normalized form of a text is that of its lines joined again, where no
/// line ends in a carriage return.
pub proof fn lemma_normalized_lines(s: Seq<char>)
    requires
        no_crlf(s),
    ensures
        normalized(joined(text_lines(s))) == normalized(s),
{
    lemma_lines_rejoined(s);
    if joined(text_lines(s)) != s {
        assert(is_white('\n'));
        lemma_normalized_push_white(joined(text_lines(s)), '\n');
    }
}

/// Relies on `str::chars` collected into a `Vec`: the characters in order.
#[verifier::external_body]
pub(crate) fn chars_of(s: &str) -> (r: Vec<char>)
    ensures
        r@ == s@,
{
    s.chars().collect()
}

/// Relies on collecting `char`s into a `String`: the characters in order.
#[verifier::external_body]
fn string_of(v: &Vec<char>) -> (r: String)
    ensures
        r@ == v@,
{
    v.iter().collect()
}

/// `char::is_whitespace`.
pub fn is_white_char(c: char) -> (r: bool)
    ensures
        r == is_white(c),
{
    let u = c as u32;
    (0x09 <= u && u <= 0x0d) || u == 0x20 || u == 0x85 || u == 0xa0 || u == 0x1680 || (0x2000
        <= u && u <= 0x200a) || u == 0x2028 || u == 0x2029 || u == 0x202f || u == 0x205f || u
        == 0x3000
}


/// Bounds of the normalized form inside `s`.
fn normalized_bounds(s: &Vec<char>) -> (r: (usize, usize))
    ensures
        r.0 <= r.1 <= s@.len(),
        s@.subrange(r.0 as int, r.1 as int) == normalized(s@),
{
    let n = s.len();
    let mut i: usize = 0;
    assert(s@.subrange(0, n as int) =~= s@);
    while i < n && is_white_char(s[i])
        invariant
            i <= n == s@.len(),
            trim_start(s@) == trim_start(s@.subrange(i as int, n as int)),
        decreases n - i,
    {
        assert(s@.subrange(i as int, n as int).drop_first() =~= s@.subrange(i + 1, n as int));
        i = i + 1;
    }
    assert(trim_start(s@) == s@.subrange(i as int, n as int));
    let mut j: usize = n;
    while j > i && is_white_char(s[j - 1])
        invariant
            i <= j <= n == s@.len(),
            trim_end(trim_start(s@)) == trim_end(s@.subrange(i as int, j as int)),
        decreases j,
    {
        assert(s@.subrange(i as int, j as int).drop_last() =~= s@.subrange(i as int, j - 1));
        j = j - 1;
    }
    let ghost t = s@.subrange(i as int, j as int);
    assert(trim_end(trim_start(s@)) == t);
    assert(t.len() == 0 || !is_white(t.last()));
    assert(strip_newlines(t) == t);
    (i, j)
}

/// Whether two texts are equal once normalized.
pub fn same_normalized(a: &Vec<char>, b: &Vec<char>) -> (r: bool)
    ensures
        r == (normalized(a@) == normalized(b@)),
{
    let (a0, a1) = normalized_bounds(a);
    let (b0, b1) = normalized_bounds(b);
    if a1 - a0 != b1 - b0 {
        assert(normalized(a@).len() != normalized(b@).len());
        return false;
    }
    let len = a1 - a0;
    let ghost na = a@.subrange(a0 as int, a1 as int);
    let ghost nb = b@.subrange(b0 as int, b1 as int);
    let mut k: usize = 0;
    while k < len
        invariant
            a0 + len == a1 <= a@.len(),
            b0 + len == b1 <= b@.len(),
            k <= len,
            na == a@.subrange(a0 as int, a1 as int),
            nb == b@.subrange(b0 as int, b1 as int),
            na == normalized(a@),
            nb == normalized(b@),
            forall|m: int| 0 <= m < k ==> #[trigger] na[m] == nb[m],
        decreases len - k,
    {
        if a[a0 + k] != b[b0 + k] {
            assert(na[k as int] != nb[k as int]);
            assert(normalized(a@) != normalized(b@));
            return false;
        }
        k = k + 1;
    }
    assert(normalized(a@) =~= normalized(b@));
    true
}

/// The lines joined by single newlines.
pub fn join_lines(lines: &Vec<String>) -> (r: String)
    ensures
        r@ == joined(line_views(lines@)),
{
    let mut out = String::new();
    let mut i: usize = 0;
    while i < lines.len()
        invariant
            i <= lines@.len(),
            out@ == joined(line_views(lines@).subrange(0, i as int)),
        decreases lines@.len() - i,
    {
        let ghost before = line_views(lines@).subrange(0, i as int);
        let ghost after = line_views(lines@).subrange(0, i + 1);
        assert(after.drop_last() =~= before);
        if i > 0 {
            out.append("\n");
            proof {
                reveal_strlit("\n");
            }
        } else {
            assert(before =~= Seq::<Seq<char>>::empty());
        }
        out.append(lines[i].as_str());
        i = i + 1;
    }
    assert(line_views(lines@).subrange(0, lines@.len() as int) =~= line_views(lines@));
    out
}

/// The normalized-equality verdict on two line sequences: joined by newlines,
/// then normalized.
pub fn lines_match(actual: &Vec<String>, expected: &Vec<String>) -> (r: bool)
    ensures
        r == (normalized(joined(line_views(actual@))) == normalized(
            joined(line_views(expected@)),
        )),
{
    let a = join_lines(actual);
    let b = join_lines(expected);
    let ac = chars_of(a.as_str());
    let bc = chars_of(b.as_str());
    same_normalized(&ac, &bc)
}

/// Splits a text into its lines, as `str::lines` does.
pub fn split_lines(s: &Vec<char>) -> (r: Vec<String>)
    ensures
        line_views(r@) == text_lines(s@),
{
    let n = s.len();
    let mut out: Vec<String> = Vec::new();
    let mut cur: Vec<char> = Vec::new();
    let mut i: usize = 0;
    proof {
        assert(s@.subrange(0, 0) =~= Seq::<char>::empty());
    }
    while i < n
        invariant
            i <= n == s@.len(),
            pieces(s@.subrange(0, i as int)).len() >= 1,
            line_views(out@) == pieces(s@.subrange(0, i as int)).drop_last().map_values(
                |l: Seq<char>| strip_cr(l),
            ),
            cur@ == pieces(s@.subrange(0, i as int)).last(),
        decreases n - i,
    {
        let ghost p = pieces(s@.subrange(0, i as int));
        assert(s@.subrange(0, i + 1).drop_last() =~= s@.subrange(0, i as int));
        let c = s[i];
        if c == '\n' {
            let mut line = cur;
            let len = line.len();
            if len > 0 && line[len - 1] == '\r' {
                line.pop();
            }
            assert(line@ == strip_cr(p.last()));
            let ghost old_out = out@;
            let st = string_of(&line);
            out.push(st);
            cur = Vec::new();
            assert(pieces(s@.subrange(0, i + 1)) == p.push(Seq::empty()));
            assert(p.push(Seq::empty()).drop_last() =~= p);
            assert(line_views(out@) =~= line_views(old_out).push(line@));
            assert(p.map_values(|l: Seq<char>| strip_cr(l)) =~= p.drop_last().map_values(
                |l: Seq<char>| strip_cr(l),
            ).push(strip_cr(p.last())));
        } else {
            cur.push(c);
            let ghost q = p.update(p.len() - 1, p.last().push(c));
            assert(pieces(s@.subrange(0, i + 1)) == q);
            assert(q.drop_last() =~= p.drop_last());
        }
        i = i + 1;
    }
    assert(s@.subrange(0, n as int) =~= s@);
    if cur.len() > 0 {
        let st = string_of(&cur);
        out.push(st);
        assert(line_views(out@) =~= text_lines(s@));
    } else {
        assert(line_views(out@) =~= text_lines(s@));
    }
    out
}

/// Appends the decimal notation of `n`.
fn push_decimal(n: u64, out: &mut Vec<char>)
    ensures
        final(out)@ == old(out)@ + decimal(n as nat),
    decreases n,
{
    if n >= 10 {
        push_decimal(n / 10, out);
    }
    let d = (n % 10) as u8;
    let c = if d == 0 {
        '0'
    } else if d == 1 {
        '1'
    } else if d == 2 {
        '2'
    } else if d == 3 {
        '3'
    } else if d == 4 {
        '4'
    } else if d == 5 {
        '5'
    } else if d == 6 {
        '6'
    } else if d == 7 {
        '7'
    } else if d == 8 {
        '8'
    } else {
        '9'
    };
    out.push(c);
    assert(c == digit((n % 10) as nat));
}

/// Decimal notation of a number.
pub fn decimal_string(n: u64) -> (r: String)
    ensures
        r@ == decimal(n as nat),
{
    let mut v: Vec<char> = Vec::new();
    push_decimal(n, &mut v);
    assert(v@ =~= decimal(n as nat));
    string_of(&v)
}

} // verus!
