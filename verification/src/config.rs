use vstd::prelude::*;

verus! {

/// One watched thread, as read from the user's config text: the board
/// code, the thread id, a display name, and the moment the thread was
/// last polled, in seconds since the Unix epoch.
#[derive(Debug, Clone)]
pub struct ThreadConfig {
    pub board: String,
    pub id: String,
    pub name: String,
    pub last_modified: i64,
}

/// The timestamp a freshly loaded config starts from: the Unix epoch.
pub fn get_unix_epoch() -> (t: i64)
    ensures
        t == 0,
{
    0
}

/// The Unicode White_Space code points: the characters that trimming
/// and the first-token split treat as separators.
pub open spec fn is_space(c: char) -> bool {
    ||| c == ' '
    ||| c == '\t'
    ||| c == '\n'
    ||| c == '\r'
    ||| c == '\u{b}'
    ||| c == '\u{c}'
    ||| c == '\u{85}'
    ||| c == '\u{a0}'
    ||| c == '\u{1680}'
    ||| c == '\u{2000}'
    ||| c == '\u{2001}'
    ||| c == '\u{2002}'
    ||| c == '\u{2003}'
    ||| c == '\u{2004}'
    ||| c == '\u{2005}'
    ||| c == '\u{2006}'
    ||| c == '\u{2007}'
    ||| c == '\u{2008}'
    ||| c == '\u{2009}'
    ||| c == '\u{200a}'
    ||| c == '\u{2028}'
    ||| c == '\u{2029}'
    ||| c == '\u{202f}'
    ||| c == '\u{205f}'
    ||| c == '\u{3000}'
}

/// Whether `c` has the Unicode White_Space property.
pub fn is_space_char(c: char) -> (r: bool)
    ensures
        r == is_space(c),
{
    match c {
        ' ' | '\t' | '\n' | '\r' | '\u{b}' | '\u{c}' | '\u{85}' | '\u{a0}' | '\u{1680}'
            | '\u{2028}' | '\u{2029}' | '\u{202f}' | '\u{205f}' | '\u{3000}' => true,
        '\u{2000}'..='\u{200a}' => true,
        _ => false,
    }
}

/// Index of the first occurrence of `c` in `s` at or after `from`, or
/// `s.len()` where there is none.
pub open spec fn find_from(s: Seq<char>, c: char, from: int) -> int
    decreases s.len() - from,
{
    if from >= s.len() {
        s.len() as int
    } else if s[from] == c {
        from
    } else {
        find_from(s, c, from + 1)
    }
}

/// Index of the first whitespace character in `s` at or after `from`,
/// or `s.len()` where there is none.
pub open spec fn first_space_from(s: Seq<char>, from: int) -> int
    decreases s.len() - from,
{
    if from >= s.len() {
        s.len() as int
    } else if is_space(s[from]) {
        from
    } else {
        first_space_from(s, from + 1)
    }
}

/// `find_from` names the index that an index-by-index scan reaches: the
/// first index at or after `from` that holds `c`, or the length.
proof fn lemma_find_from_is(s: Seq<char>, c: char, from: int, r: int)
    requires
        0 <= from <= r <= s.len(),
        forall|j: int| from <= j < r ==> s[j] != c,
        r == s.len() || s[r] == c,
    ensures
        find_from(s, c, from) == r,
    decreases r - from,
{
    if from < r {
        lemma_find_from_is(s, c, from + 1, r);
    }
}

/// `first_space_from` names the index that an index-by-index scan
/// reaches: the first whitespace index at or after `from`, or the
/// length.
proof fn lemma_first_space_from_is(s: Seq<char>, from: int, r: int)
    requires
        0 <= from <= r <= s.len(),
        forall|j: int| from <= j < r ==> !is_space(s[j]),
        r == s.len() || is_space(s[r]),
    ensures
        first_space_from(s, from) == r,
    decreases r - from,
{
    if from < r {
        lemma_first_space_from_is(s, from + 1, r);
    }
}

/// Find the first occurrence of `c` in `s` at or after `from`; the
/// string's length where there is none.
pub fn find_char_from(s: &str, c: char, from: usize) -> (r: usize)
    requires
        from <= s@.len(),
    ensures
        r == find_from(s@, c, from as int),
        from <= r <= s@.len(),
        r < s@.len() ==> s@[r as int] == c,
{
    let n: usize = s.unicode_len();
    let mut i: usize = from;
    while i < n
        invariant
            from <= i <= n,
            n == s@.len(),
            forall|j: int| from <= j < i ==> s@[j] != c,
        decreases n - i,
    {
        if s.get_char(i) == c {
            proof {
                lemma_find_from_is(s@, c, from as int, i as int);
            }
            return i;
        }
        i += 1;
    }
    proof {
        lemma_find_from_is(s@, c, from as int, n as int);
    }
    n
}

/// Find the first whitespace character in `s` at or after `from`; the
/// string's length where there is none.
pub fn find_space_from(s: &str, from: usize) -> (r: usize)
    requires
        from <= s@.len(),
    ensures
        r == first_space_from(s@, from as int),
        from <= r <= s@.len(),
{
    let n: usize = s.unicode_len();
    let mut i: usize = from;
    while i < n
        invariant
            from <= i <= n,
            n == s@.len(),
            forall|j: int| from <= j < i ==> !is_space(s@[j]),
        decreases n - i,
    {
        if is_space_char(s.get_char(i)) {
            proof {
                lemma_first_space_from_is(s@, from as int, i as int);
            }
            return i;
        }
        i += 1;
    }
    proof {
        lemma_first_space_from_is(s@, from as int, n as int);
    }
    n
}

/// A string with its leading whitespace dropped.
pub open spec fn trim_start_spec(s: Seq<char>) -> Seq<char>
    decreases s.len(),
{
    if s.len() > 0 && is_space(s[0]) {
        trim_start_spec(s.drop_first())
    } else {
        s
    }
}

/// A string with its trailing whitespace dropped.
pub open spec fn trim_end_spec(s: Seq<char>) -> Seq<char>
    decreases s.len(),
{
    if s.len() > 0 && is_space(s.last()) {
        trim_end_spec(s.drop_last())
    } else {
        s
    }
}

/// A string with leading and trailing whitespace dropped.
pub open spec fn trim_spec(s: Seq<char>) -> Seq<char> {
    trim_end_spec(trim_start_spec(s))
}

/// Dropping leading whitespace keeps exactly the suffix that starts at
/// the first non-whitespace character.
proof fn lemma_trim_start_skip(s: Seq<char>, k: int)
    requires
        0 <= k <= s.len(),
        forall|i: int| 0 <= i < k ==> is_space(s[i]),
        k == s.len() || !is_space(s[k]),
    ensures
        trim_start_spec(s) == s.skip(k),
    decreases k,
{
    if k == 0 {
        assert(s.skip(0) =~= s);
    } else {
        lemma_trim_start_skip(s.drop_first(), k - 1);
        assert(s.drop_first().skip(k - 1) =~= s.skip(k));
    }
}

/// Dropping trailing whitespace keeps exactly the prefix that ends
/// after the last non-whitespace character.
proof fn lemma_trim_end_take(s: Seq<char>, k: int)
    requires
        0 <= k <= s.len(),
        forall|i: int| k <= i < s.len() ==> is_space(s[i]),
        k == 0 || !is_space(s[k - 1]),
    ensures
        trim_end_spec(s) == s.take(k),
    decreases s.len(),
{
    if k == s.len() {
        assert(s.take(k) =~= s);
    } else {
        lemma_trim_end_take(s.drop_last(), k);
        assert(s.drop_last() =~= s.take(s.len() - 1));
        assert(s.take(s.len() - 1).take(k) =~= s.take(k));
    }
}

/// Drop leading and trailing whitespace.
pub fn trim_str<'a>(s: &'a str) -> (r: &'a str)
    ensures
        r@ == trim_spec(s@),
{
    let n: usize = s.unicode_len();
    let mut start: usize = 0;
    while start < n && is_space_char(s.get_char(start))
        invariant
            start <= n,
            n == s@.len(),
            forall|i: int| 0 <= i < start ==> is_space(s@[i]),
        decreases n - start,
    {
        start += 1;
    }
    let mut end: usize = n;
    while end > start && is_space_char(s.get_char(end - 1))
        invariant
            start <= end <= n,
            n == s@.len(),
            forall|i: int| end <= i < n ==> is_space(s@[i]),
        decreases end,
    {
        end -= 1;
    }
    proof {
        lemma_trim_start_skip(s@, start as int);
        let t = s@.skip(start as int);
        lemma_trim_end_take(t, end - start);
        assert(t.take(end - start) =~= s@.subrange(start as int, end as int));
    }
    s.substring_char(start, end)
}

/// The `board` and `id` parts of a watch target `any/board/id`: the
/// token must hold exactly two slashes; the part before the first
/// slash is ignored.
pub open spec fn parse_target_spec(tok: Seq<char>) -> Option<(Seq<char>, Seq<char>)> {
    let i1 = find_from(tok, '/', 0);
    let i2 = find_from(tok, '/', i1 + 1);
    let i3 = find_from(tok, '/', i2 + 1);
    if i1 < tok.len() && i2 < tok.len() && i3 == tok.len() {
        Some((tok.subrange(i1 + 1, i2), tok.subrange(i2 + 1, tok.len() as int)))
    } else {
        None
    }
}

/// What one config line contributes: the line is trimmed; its first
/// whitespace-separated token must be a `any/board/id` target; the
/// rest of the line, trimmed, is the display name, or the token itself
/// where the line holds nothing else.
pub open spec fn parse_line_spec(line: Seq<char>) -> Option<(Seq<char>, Seq<char>, Seq<char>)> {
    let t = trim_spec(line);
    let k = first_space_from(t, 0);
    let tok = t.take(k);
    match parse_target_spec(tok) {
        Some((board, id)) => {
            let name = if k < t.len() {
                trim_spec(t.subrange(k + 1, t.len() as int))
            } else {
                trim_spec(tok)
            };
            Some((board, id, name))
        },
        None => None,
    }
}

/// The entries one line adds to the parsed config: none for an empty
/// or unparsable line.
pub open spec fn line_entries_spec(line: Seq<char>) -> Seq<(Seq<char>, Seq<char>, Seq<char>)> {
    if line.len() == 0 {
        Seq::empty()
    } else {
        match parse_line_spec(line) {
            Some(e) => seq![e],
            None => Seq::empty(),
        }
    }
}

/// `find_from` stays between `from` and the string's length.
proof fn lemma_find_from_bounds(s: Seq<char>, c: char, from: int)
    requires
        0 <= from <= s.len(),
    ensures
        from <= find_from(s, c, from) <= s.len(),
    decreases s.len() - from,
{
    if from < s.len() && s[from] != c {
        lemma_find_from_bounds(s, c, from + 1);
    }
}

/// The watch entries of the config text from position `from` on: one
/// line per newline separator, each contributing through
/// `line_entries_spec`.
pub open spec fn parse_config_from(s: Seq<char>, from: int) -> Seq<
    (Seq<char>, Seq<char>, Seq<char>),
>
    decreases s.len() + 1 - from,
        when 0 <= from
        via parse_config_from_decreases
{
    if from > s.len() {
        Seq::empty()
    } else {
        let nl = find_from(s, '\n', from);
        line_entries_spec(s.subrange(from, nl)) + parse_config_from(s, nl + 1)
    }
}

#[via_fn]
proof fn parse_config_from_decreases(s: Seq<char>, from: int) {
    if from <= s.len() {
        lemma_find_from_bounds(s, '\n', from);
    }
}

/// Everything the config text's lines contribute, in order.
pub open spec fn parse_config_spec(s: Seq<char>) -> Seq<(Seq<char>, Seq<char>, Seq<char>)> {
    parse_config_from(s, 0)
}

/// Parse the watch config text: one watched thread per line that
/// holds a `any/board/id` target as its first token, named by the rest
/// of the line (or by the target itself), each starting at the epoch.
/// Empty lines and lines without a well-formed target contribute
/// nothing.
pub fn load_config(raw_config: String) -> (r: Vec<ThreadConfig>)
    requires
        raw_config@.len() < usize::MAX,
    ensures
        ({
            let entries = parse_config_spec(raw_config@);
            &&& r@.len() == entries.len()
            &&& forall|i: int|
                0 <= i < entries.len() ==> {
                    &&& (#[trigger] r@[i]).board@ == entries[i].0
                    &&& r@[i].id@ == entries[i].1
                    &&& r@[i].name@ == entries[i].2
                    &&& r@[i].last_modified == 0
                }
        }),
{
    let s: &str = raw_config.as_str();
    let n: usize = s.unicode_len();
    let ghost total = parse_config_spec(s@);
    let mut out: Vec<ThreadConfig> = Vec::new();
    let mut pos: usize = 0;
    proof {
        assert(total.skip(0) =~= total);
    }
    while pos <= n
        invariant
            n == s@.len(),
            n < usize::MAX,
            pos <= n + 1,
            s@ == raw_config@,
            total == parse_config_spec(s@),
            out@.len() <= total.len(),
            parse_config_from(s@, pos as int) == total.skip(out@.len() as int),
            forall|i: int|
                0 <= i < out@.len() ==> {
                    &&& (#[trigger] out@[i]).board@ == total[i].0
                    &&& out@[i].id@ == total[i].1
                    &&& out@[i].name@ == total[i].2
                    &&& out@[i].last_modified == 0
                },
        decreases n + 1 - pos,
    {
        let ghost len_old = out@.len() as int;
        let nl: usize = find_char_from(s, '\n', pos);
        let line: &str = s.substring_char(pos, nl);
        let ghost line_seq = s@.subrange(pos as int, nl as int);
        proof {
            assert(parse_config_from(s@, pos as int) == line_entries_spec(line_seq)
                + parse_config_from(s@, nl + 1));
        }
        let line_len: usize = nl - pos;
        if line_len > 0 {
            let t: &str = trim_str(line);
            let t_len: usize = t.unicode_len();
            let k: usize = find_space_from(t, 0);
            let tok: &str = t.substring_char(0, k);
            proof {
                assert(tok@ =~= t@.take(k as int));
            }
            let tok_len: usize = tok.unicode_len();
            let i1: usize = find_char_from(tok, '/', 0);
            let i2: usize = if i1 < tok_len {
                find_char_from(tok, '/', i1 + 1)
            } else {
                tok_len
            };
            let i3: usize = if i2 < tok_len {
                find_char_from(tok, '/', i2 + 1)
            } else {
                tok_len
            };
            if i1 < tok_len && i2 < tok_len && i3 == tok_len {
                let board = String::from_str(tok.substring_char(i1 + 1, i2));
                let id = String::from_str(tok.substring_char(i2 + 1, tok_len));
                let name_part: &str = if k < t_len {
                    trim_str(t.substring_char(k + 1, t_len))
                } else {
                    trim_str(tok)
                };
                let name = String::from_str(name_part);
                let tc = ThreadConfig { board, id, name, last_modified: 0 };
                let ghost e = (tc.board@, tc.id@, tc.name@);
                proof {
                    assert(parse_line_spec(line_seq) == Some(e));
                    assert(line_entries_spec(line_seq) =~= seq![e]);
                    let suffix = parse_config_from(s@, nl + 1);
                    assert(total.skip(len_old) == seq![e] + suffix);
                    assert(total.skip(len_old).len() == total.len() - len_old);
                    assert(len_old < total.len());
                    assert(total[len_old] == total.skip(len_old)[0]);
                    assert(total[len_old] == e);
                    assert(suffix =~= total.skip(len_old + 1)) by {
                        assert(suffix.len() == total.len() - len_old - 1);
                        assert forall|i: int| 0 <= i < suffix.len() implies suffix[i]
                            == total.skip(len_old + 1)[i] by {
                            assert(suffix[i] == (seq![e] + suffix)[i + 1]);
                            assert(total.skip(len_old)[i + 1] == total[len_old + 1 + i]);
                        }
                    }
                }
                out.push(tc);
            } else {
                proof {
                    assert(parse_line_spec(line_seq) is None);
                    assert(line_entries_spec(line_seq) =~= Seq::<(Seq<char>, Seq<char>,
                    Seq<char>)>::empty());
                    assert(parse_config_from(s@, nl + 1) =~= total.skip(len_old));
                }
            }
        } else {
            proof {
                assert(line_entries_spec(line_seq) =~= Seq::<(Seq<char>, Seq<char>,
                Seq<char>)>::empty());
                assert(parse_config_from(s@, nl + 1) =~= total.skip(len_old));
            }
        }
        pos = nl + 1;
    }
    proof {
        assert(total.skip(out@.len() as int) =~= Seq::<(Seq<char>, Seq<char>,
        Seq<char>)>::empty());
        assert(out@.len() == total.len());
    }
    out
}

} // verus!
