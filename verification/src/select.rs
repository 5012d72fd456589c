use vstd::prelude::*;

use vstd::arithmetic::div_mod::lemma_small_mod;

verus! {

/// What Unicode lowercasing yields for a string; the result depends on
/// the characters alone.
pub uninterp spec fn lower_of(s: Seq<char>) -> Seq<char>;

/// Relies on `str::to_lowercase`: the Unicode lowercase mapping of the
/// string, a function of its characters alone.
#[verifier::external_body]
fn lowercase(s: &str) -> (r: String)
    ensures
        r@ == lower_of(s@),
{
    s.to_lowercase()
}

/// The string with every leading `/` dropped.
pub open spec fn skip_slashes(s: Seq<char>) -> Seq<char>
    decreases s.len(),
{
    if s.len() > 0 && s[0] == '/' {
        skip_slashes(s.drop_first())
    } else {
        s
    }
}

/// Dropping leading slashes keeps exactly the suffix that starts at
/// the first non-slash character.
proof fn lemma_skip_slashes_is(s: Seq<char>, k: int)
    requires
        0 <= k <= s.len(),
        forall|i: int| 0 <= i < k ==> s[i] == '/',
        k == s.len() || s[k] != '/',
    ensures
        skip_slashes(s) == s.skip(k),
    decreases k,
{
    if k == 0 {
        assert(s.skip(0) =~= s);
    } else {
        lemma_skip_slashes_is(s.drop_first(), k - 1);
        assert(s.drop_first().skip(k - 1) =~= s.skip(k));
    }
}

/// Whether a board label answers a pressed key: its lowercase form,
/// leading slashes dropped, starts with that character.
pub open spec fn label_matches(label: Seq<char>, ch: char) -> bool {
    let t = skip_slashes(lower_of(label));
    t.len() > 0 && t[0] == ch
}

/// Decide whether one label answers the pressed key.
pub fn matches_key(label: &str, ch: char) -> (r: bool)
    ensures
        r == label_matches(label@, ch),
{
    let low = lowercase(label);
    let ls: &str = low.as_str();
    let n: usize = ls.unicode_len();
    let mut i: usize = 0;
    while i < n && ls.get_char(i) == '/'
        invariant
            i <= n,
            n == ls@.len(),
            ls@ == lower_of(label@),
            forall|j: int| 0 <= j < i ==> ls@[j] == '/',
        decreases n - i,
    {
        i += 1;
    }
    proof {
        lemma_skip_slashes_is(ls@, i as int);
    }
    if i < n {
        let c = ls.get_char(i);
        c == ch
    } else {
        false
    }
}

/// The views of a list of labels.
pub open spec fn label_views(labels: Seq<String>) -> Seq<Seq<char>> {
    labels.map_values(|l: String| l@)
}

/// The labels the cyclic search walks: every label after the focused
/// one, then the whole list again from the top.
pub open spec fn chained_labels(labels: Seq<Seq<char>>, focus: int) -> Seq<Seq<char>> {
    labels.skip(focus + 1) + labels
}

/// The first position of the chained walk whose label answers the key,
/// or the walk's length where none does.
pub open spec fn first_match_at(chain: Seq<Seq<char>>, ch: char, from: int) -> int
    decreases chain.len() - from,
{
    if from >= chain.len() {
        chain.len() as int
    } else if label_matches(chain[from], ch) {
        from
    } else {
        first_match_at(chain, ch, from + 1)
    }
}

/// `first_match_at` names the position a position-by-position scan
/// reaches.
proof fn lemma_first_match_at_is(chain: Seq<Seq<char>>, ch: char, from: int, r: int)
    requires
        0 <= from <= r <= chain.len(),
        forall|q: int| from <= q < r ==> !label_matches(chain[q], ch),
        r == chain.len() || label_matches(chain[r], ch),
    ensures
        first_match_at(chain, ch, from) == r,
    decreases r - from,
{
    if from < r {
        lemma_first_match_at_is(chain, ch, from + 1, r);
    }
}

/// The board list entry a pressed key selects: walking the labels
/// cyclically from just after the focused entry, the first label whose
/// lowercase form, leading slashes dropped, starts with the key gives
/// the selection (the walk's position, reduced modulo the list
/// length); where no label answers, the focus stays.
pub open spec fn select_board_spec(labels: Seq<Seq<char>>, focus: int, ch: char) -> int {
    let chain = chained_labels(labels, focus);
    let i = first_match_at(chain, ch, 0);
    if i < chain.len() {
        i % labels.len() as int
    } else {
        focus
    }
}

/// Find the board list entry a pressed key selects, cycling past the
/// end of the list back to its top.
pub fn select_board_index(labels: &Vec<String>, focus: usize, ch: char) -> (r: usize)
    requires
        labels@.len() > 0,
        focus < labels@.len(),
    ensures
        r == select_board_spec(label_views(labels@), focus as int, ch),
        r < labels@.len(),
{
    let ghost lv = label_views(labels@);
    let ghost chain = chained_labels(lv, focus as int);
    let n: usize = labels.len();
    proof {
        assert(chain.len() == (n - focus - 1) + n);
    }
    let mut j: usize = focus + 1;
    while j < n
        invariant
            n == labels@.len(),
            lv == label_views(labels@),
            chain == chained_labels(lv, focus as int),
            focus < n,
            focus + 1 <= j <= n,
            forall|q: int| focus + 1 <= q < j ==> !label_matches(lv[q], ch),
        decreases n - j,
    {
        if matches_key(labels[j].as_str(), ch) {
            let p: usize = j - focus - 1;
            proof {
                assert(chain[p as int] == lv[j as int]);
                assert forall|q: int| 0 <= q < p implies !label_matches(chain[q], ch) by {
                    assert(chain[q] == lv[focus + 1 + q]);
                }
                lemma_first_match_at_is(chain, ch, 0, p as int);
                lemma_small_mod(p as nat, n as nat);
            }
            return p;
        }
        j += 1;
    }
    let mut k: usize = 0;
    while k < n
        invariant
            n == labels@.len(),
            lv == label_views(labels@),
            chain == chained_labels(lv, focus as int),
            focus < n,
            k <= n,
            forall|q: int| focus + 1 <= q < n ==> !label_matches(lv[q], ch),
            forall|q: int| 0 <= q < k ==> !label_matches(lv[q], ch),
        decreases n - k,
    {
        if matches_key(labels[k].as_str(), ch) {
            let ghost p = (n - focus - 1) + k as int;
            proof {
                assert(chain[p] == lv[k as int]);
                assert forall|q: int| 0 <= q < p implies !label_matches(chain[q], ch) by {
                    if q < n - focus - 1 {
                        assert(chain[q] == lv[focus + 1 + q]);
                    } else {
                        assert(chain[q] == lv[q - (n - focus - 1)]);
                    }
                }
                lemma_first_match_at_is(chain, ch, 0, p);
            }
            let r: usize = (((n - focus - 1) as u128 + k as u128) % (n as u128)) as usize;
            proof {
                assert(r == p % (n as int));
            }
            return r;
        }
        k += 1;
    }
    proof {
        assert forall|q: int| 0 <= q < chain.len() implies !label_matches(chain[q], ch) by {
            if q < n - focus - 1 {
                assert(chain[q] == lv[focus + 1 + q]);
            } else {
                assert(chain[q] == lv[q - (n - focus - 1)]);
            }
        }
        lemma_first_match_at_is(chain, ch, 0, chain.len() as int);
    }
    focus
}

} // verus!
