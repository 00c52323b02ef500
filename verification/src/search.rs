//! Fuzzy scoring of a typed query against command names.
use vstd::prelude::*;
use vstd::string::*;
use crate::text::{
    occurs_at,
    ascii_lower_seq, ascii_upper_seq, chars_of, lemma_leading_char_le, lemma_lower_upper,
    lemma_trim_slash_upper, lemma_trim_upper, lemma_trim_ws_back, lemma_trim_ws_front, find_chars, find_seq, lemma_find_some_occurs, lemma_prefix_occurs, lemma_trim_start_char_len,
    lemma_utf8_len_ge, lemma_utf8_lower, lemma_utf8_subrange_le, is_prefix_chars,
    to_ascii_lowercase, trim, trim_seq, trim_start_char, trim_start_char_seq, utf8_len,
};

verus! {

/// Command names longer than this many bytes are outside the scoring range: up to it,
/// every score (at most 200 plus 8 per character of the command, at least 200 less
/// twice its length) fits in an `i32`. (The query is not bounded: a match never scores
/// more characters of it than the command has.)
pub const MAX_MATCH_INPUT: usize = 0x0FFF_FF00;

pub open spec fn max0(x: int) -> int {
    if x > 0 {
        x
    } else {
        0
    }
}

/// Score of an in-order (subsequence) match of `q` in `c`, continuing from command
/// position `i`, query position `qi`, running `score`, `matched` characters and the
/// position `prev` of the previous matched character.
pub open spec fn fuzzy_score_from(
    q: Seq<char>,
    c: Seq<char>,
    cbytes: int,
    i: int,
    qi: int,
    score: int,
    matched: int,
    prev: Option<int>,
) -> Option<int>
    decreases c.len() - i,
{
    if i < 0 || i >= c.len() || qi < 0 || qi >= q.len() {
        None
    } else if c[i] != q[qi] {
        fuzzy_score_from(q, c, cbytes, i + 1, qi, score, matched, prev)
    } else {
        let m = matched + 1;
        let sc = match prev {
            Some(p) => if i == p + 1 {
                score + 8
            } else {
                score - (i - p)
            },
            None => score,
        };
        if qi + 1 < q.len() {
            fuzzy_score_from(q, c, cbytes, i + 1, qi + 1, sc, m, Some(i))
        } else {
            Some(sc - max0(cbytes - m))
        }
    }
}

/// Score of query `q` against one command name `c`: a prefix match scores highest,
/// then a substring match (earlier is better), then an in-order character match.
pub open spec fn single_match_score(q: Seq<char>, c: Seq<char>) -> Option<int> {
    if q.len() == 0 {
        Some(1)
    } else if q.is_prefix_of(c) {
        Some(500 - max0(utf8_len(c) - utf8_len(q)))
    } else {
        match find_seq(c, q) {
            Some(pos) => Some(350 - utf8_len(c.take(pos))),
            None => fuzzy_score_from(q, c, utf8_len(c), 0, 0, 200, 0, None),
        }
    }
}

pub open spec fn opt_i32_matches(r: Option<i32>, s: Option<int>) -> bool {
    match r {
        Some(x) => s == Some(x as int),
        None => s is None,
    }
}

/// Score of `query` against `command`, or `None` when the characters of `query` do
/// not occur in order in `command`.
pub fn single_command_match_score(query: &str, command: &str) -> (r: Option<i32>)
    requires
        utf8_len(command@) <= MAX_MATCH_INPUT,
    ensures
        opt_i32_matches(r, single_match_score(query@, command@)),
        r matches Some(x) ==> -0x2000_0000 <= x <= 0x7FFF_F8C8,
{
    let qv = chars_of(query);
    let cv = chars_of(command);
    let cbytes = command.len();
    proof {
        lemma_utf8_len_ge(command@);
    }
    if qv.len() == 0 {
        return Some(1);
    }
    if is_prefix_chars(&qv, &cv) {
        proof {
            assert(command@.subrange(0, query@.len() as int) =~= query@);
            lemma_utf8_subrange_le(command@, 0, query@.len() as int);
        }
        let qbytes = query.len();
        let penalty: i64 = if cbytes >= qbytes {
            (cbytes - qbytes) as i64
        } else {
            0
        };
        return Some((500 - penalty) as i32);
    }
    match find_chars(&cv, &qv) {
        Some(pos) => {
            proof {
                lemma_find_some_occurs(command@, query@);
                assert(command@.subrange(0, pos as int) =~= command@.take(pos as int));
                lemma_utf8_subrange_le(command@, 0, pos as int);
            }
            let head = command.substring_char(0, pos);
            let pos_bytes = head.len();
            return Some((350 - pos_bytes as i64) as i32);
        },
        None => {},
    }
    let ghost cb = utf8_len(command@);
    assert(single_match_score(query@, command@) == fuzzy_score_from(
        query@,
        command@,
        cb,
        0,
        0,
        200,
        0,
        None,
    ));
    let mut i: usize = 0;
    let mut qi: usize = 0;
    let mut score: i64 = 200;
    let mut matched: i64 = 0;
    let mut prev: Option<usize> = None;
    while i < cv.len()
        invariant
            qv@ == query@,
            cv@ == command@,
            cv@.len() <= MAX_MATCH_INPUT,
            single_match_score(query@, command@) == fuzzy_score_from(
                query@,
                command@,
                cb,
                0,
                0,
                200,
                0,
                None,
            ),
            cbytes == cb,
            cb <= MAX_MATCH_INPUT,
            qi < qv@.len(),
            0 <= matched <= i,
            i <= cv@.len(),
            match prev {
                Some(p) => p < i && 200 - p <= score <= 200 + 8 * p,
                None => score == 200,
            },
            fuzzy_score_from(query@, command@, cb, 0, 0, 200, 0, None) == fuzzy_score_from(
                query@,
                command@,
                cb,
                i as int,
                qi as int,
                score as int,
                matched as int,
                match prev {
                    Some(p) => Some(p as int),
                    None => None,
                },
            ),
        decreases cv@.len() - i,
    {
        let ch = cv[i];
        let ghost gp: Option<int> = match prev {
            Some(p) => Some(p as int),
            None => None,
        };
        assert(fuzzy_score_from(query@, command@, cb, i as int, qi as int, score as int, matched as int, gp)
            == if command@[i as int] != query@[qi as int] {
                fuzzy_score_from(query@, command@, cb, i + 1, qi as int, score as int, matched as int, gp)
            } else {
                let m = matched + 1;
                let sc = match gp {
                    Some(p) => if i == p + 1 {
                        score + 8
                    } else {
                        score - (i - p)
                    },
                    None => score as int,
                };
                if qi + 1 < query@.len() {
                    fuzzy_score_from(query@, command@, cb, i + 1, qi + 1, sc, m, Some(i as int))
                } else {
                    Some(sc - max0(cb - m))
                }
            });
        if ch == qv[qi] {
            matched = matched + 1;
            match prev {
                Some(p) => {
                    if i == p + 1 {
                        score = score + 8;
                    } else {
                        score = score - (i - p) as i64;
                    }
                },
                None => {},
            }
            prev = Some(i);
            if qi < qv.len() - 1 {
                qi = qi + 1;
            } else {
                let rest: i64 = if (cbytes as i64) > matched {
                    cbytes as i64 - matched
                } else {
                    0
                };
                assert(rest == max0(cb - matched));
                assert(fuzzy_score_from(query@, command@, cb, 0, 0, 200, 0, None) == Some(
                    score - rest,
                ));
                assert(single_match_score(query@, command@) == fuzzy_score_from(
                    query@,
                    command@,
                    cb,
                    0,
                    0,
                    200,
                    0,
                    None,
                ));
                return Some((score - rest) as i32);
            }
        }
        i = i + 1;
    }
    None
}

/// The aliases under which a (normalized) command name may also be matched.
pub open spec fn command_aliases_spec(c: Seq<char>) -> Seq<Seq<char>> {
    if c == "exit"@ {
        seq!["quit"@]
    } else {
        Seq::empty()
    }
}

pub fn command_aliases(command: &str) -> (r: &'static [&'static str])
    ensures
        r@.map_values(|a: &str| a@) == command_aliases_spec(command@),
{
    let exit = "exit";
    let c = chars_of(command);
    let e = chars_of(exit);
    if c.len() == e.len() && is_prefix_chars(&e, &c) {
        proof {
            assert(c@ =~= e@);
        }
        let r: &'static [&'static str] = &["quit"];
        assert(r@.map_values(|a: &str| a@) =~= seq!["quit"@]);
        r
    } else {
        proof {
            if command@ == "exit"@ {
                assert(e@.is_prefix_of(c@));
            }
        }
        let r: &'static [&'static str] = &[];
        assert(r@.map_values(|a: &str| a@) =~= Seq::<Seq<char>>::empty());
        r
    }
}

pub open spec fn max_opt(a: Option<int>, b: Option<int>) -> Option<int> {
    match (a, b) {
        (Some(x), Some(y)) => Some(if x >= y {
            x
        } else {
            y
        }),
        (Some(x), None) => Some(x),
        (None, Some(y)) => Some(y),
        (None, None) => None,
    }
}

/// Best alias score (each alias match costs 25 points).
pub open spec fn best_alias_score(q: Seq<char>, aliases: Seq<Seq<char>>) -> Option<int>
    decreases aliases.len(),
{
    if aliases.len() == 0 {
        None
    } else {
        max_opt(
            best_alias_score(q, aliases.drop_last()),
            match single_match_score(q, aliases.last()) {
                Some(s) => Some(s - 25),
                None => None,
            },
        )
    }
}

/// Score of a raw typed query against a command name (with or without its leading `/`).
pub open spec fn command_match(query: Seq<char>, command: Seq<char>) -> Option<int> {
    let q = ascii_lower_seq(trim_seq(query));
    if q.len() == 0 {
        Some(1)
    } else {
        let c = ascii_lower_seq(trim_start_char_seq(command, '/'));
        max_opt(single_match_score(q, c), best_alias_score(q, command_aliases_spec(c)))
    }
}

pub fn command_match_score(query: &str, command: &str) -> (r: Option<i32>)
    requires
        utf8_len(command@) <= MAX_MATCH_INPUT,
    ensures
        opt_i32_matches(r, command_match(query@, command@)),
{
    let trimmed = trim(query);
    let q = to_ascii_lowercase(trimmed.as_str());
    if q.as_str().unicode_len() == 0 {
        return Some(1);
    }
    let stripped = trim_start_char(command, '/');
    let c = to_ascii_lowercase(stripped.as_str());
    proof {
        lemma_trim_start_char_len(command@, '/');
        lemma_utf8_lower(trim_start_char_seq(command@, '/'));
    }
    let direct = single_command_match_score(q.as_str(), c.as_str());
    let aliases = command_aliases(c.as_str());
    let ghost alias_views = aliases@.map_values(|a: &str| a@);
    let mut best: Option<i32> = None;
    let mut k: usize = 0;
    while k < aliases.len()
        invariant
            k <= aliases@.len(),
            alias_views == aliases@.map_values(|a: &str| a@),
            alias_views == command_aliases_spec(c@),
            q@ == ascii_lower_seq(trim_seq(query@)),
            opt_i32_matches(best, best_alias_score(q@, alias_views.take(k as int))),
            match best {
                Some(b) => -0x2000_0019 <= b <= 0x7FFF_F8C8,
                None => true,
            },
        decreases aliases@.len() - k,
    {
        let alias = aliases[k];
        assert(alias@ == alias_views[k as int]);
        assert(alias_views.take(k + 1).drop_last() =~= alias_views.take(k as int));
        assert(alias_views.take(k + 1).last() == alias@);
        // Every alias is a short literal.
        assert(alias_views.len() > 0);
        assert(command_aliases_spec(c@).len() > 0);
        assert(alias_views == seq!["quit"@]);
        assert(alias@ == "quit"@);
        proof {
            reveal_strlit("quit");
            reveal_with_fuel(vstd::utf8::encode_utf8, 5);
        }
        let s = single_command_match_score(q.as_str(), alias);
        match s {
            Some(v) => {
                let cand = v - 25;
                best = match best {
                    Some(b) => if b >= cand {
                        Some(b)
                    } else {
                        Some(cand)
                    },
                    None => Some(cand),
                };
            },
            None => {},
        }
        k = k + 1;
    }
    assert(alias_views.take(aliases@.len() as int) =~= alias_views);
    match (direct, best) {
        (Some(d), Some(a)) => Some(if d >= a {
            d
        } else {
            a
        }),
        (Some(d), None) => Some(d),
        (None, Some(a)) => Some(a),
        (None, None) => None,
    }
}

/// Matching ignores ASCII case, whitespace around the query and leading `/` of the
/// command; a query that is blank after trimming matches every command with score 1.
pub proof fn law_command_match_normalizes(query: Seq<char>, command: Seq<char>)
    ensures
        command_match(query, command) == command_match(
            seq![' ', ' '] + ascii_upper_seq(query) + seq![' ', ' '],
            seq!['/'] + ascii_upper_seq(command),
        ),
        trim_seq(query).len() == 0 ==> command_match(query, command) == Some(1int),
{
    let uq = ascii_upper_seq(query);
    let padded = seq![' ', ' '] + uq + seq![' ', ' '];
    assert(padded =~= (seq![' '] + (seq![' '] + uq)).push(' ').push(' '));
    lemma_trim_ws_back((seq![' '] + (seq![' '] + uq)).push(' '), ' ');
    lemma_trim_ws_back(seq![' '] + (seq![' '] + uq), ' ');
    lemma_trim_ws_front(seq![' '] + uq, ' ');
    lemma_trim_ws_front(uq, ' ');
    assert(trim_seq(padded) == trim_seq(uq));
    lemma_trim_upper(query);
    lemma_lower_upper(trim_seq(query));
    assert(ascii_lower_seq(trim_seq(padded)) == ascii_lower_seq(trim_seq(query)));
    let uc = ascii_upper_seq(command);
    let slashed = seq!['/'] + uc;
    assert(slashed[0] == '/');
    assert(slashed.drop_first() =~= uc);
    lemma_leading_char_le(uc, '/');
    assert(trim_start_char_seq(slashed, '/') =~= trim_start_char_seq(uc, '/'));
    lemma_trim_slash_upper(command);
    lemma_lower_upper(trim_start_char_seq(command, '/'));
}

/// `idx` places each character of `q` at a position of `c`, in increasing order.
pub open spec fn embeds(idx: Seq<int>, q: Seq<char>, c: Seq<char>) -> bool {
    &&& idx.len() == q.len()
    &&& forall|k: int| 0 <= k < idx.len() ==> 0 <= #[trigger] idx[k] < c.len() && c[idx[k]] == q[k]
    &&& forall|k: int, l: int| 0 <= k < l < idx.len() ==> #[trigger] idx[k] < #[trigger] idx[l]
}

/// Whether the characters of `q` occur in `c` in order, not necessarily adjacent.
pub open spec fn is_subsequence(q: Seq<char>, c: Seq<char>) -> bool {
    exists|idx: Seq<int>| #[trigger] embeds(idx, q, c)
}

proof fn lemma_subseq_empty_target(a: Seq<char>, b: Seq<char>)
    requires
        a.len() > 0,
        b.len() == 0,
    ensures
        !is_subsequence(a, b),
{
    if is_subsequence(a, b) {
        let idx = choose|idx: Seq<int>| #[trigger] embeds(idx, a, b);
        assert(embeds(idx, a, b));
        assert(idx.len() > 0);
        let first = idx[0];
        assert(0 <= first < b.len());
    }
}

proof fn lemma_subseq_skip(a: Seq<char>, b: Seq<char>)
    requires
        a.len() > 0,
        b.len() > 0,
        b[0] != a[0],
    ensures
        is_subsequence(a, b) == is_subsequence(a, b.drop_first()),
{
    let t = b.drop_first();
    if is_subsequence(a, b) {
        let idx = choose|idx: Seq<int>| #[trigger] embeds(idx, a, b);
        let j = idx.map_values(|x: int| x - 1);
        assert forall|k: int| 0 <= k < j.len() implies 0 <= #[trigger] j[k] < t.len() && t[j[k]] == a[k] by {
            if idx[k] == 0 {
                if k > 0 {
                    assert(idx[0] < idx[k]);
                }
                assert(b[idx[0]] == a[0]);
            }
        }
        assert forall|k: int, l: int| 0 <= k < l < j.len() implies #[trigger] j[k] < #[trigger] j[l] by {
            assert(idx[k] < idx[l]);
        }
        assert(embeds(j, a, t));
    }
    if is_subsequence(a, t) {
        let idx = choose|idx: Seq<int>| #[trigger] embeds(idx, a, t);
        let j = idx.map_values(|x: int| x + 1);
        assert forall|k: int| 0 <= k < j.len() implies 0 <= #[trigger] j[k] < b.len() && b[j[k]] == a[k] by {
            assert(t[idx[k]] == b[idx[k] + 1]);
        }
        assert forall|k: int, l: int| 0 <= k < l < j.len() implies #[trigger] j[k] < #[trigger] j[l] by {
            assert(idx[k] < idx[l]);
        }
        assert(embeds(j, a, b));
    }
}

proof fn lemma_subseq_take(a: Seq<char>, b: Seq<char>)
    requires
        a.len() > 0,
        b.len() > 0,
        b[0] == a[0],
    ensures
        is_subsequence(a, b) == is_subsequence(a.drop_first(), b.drop_first()),
{
    let a1 = a.drop_first();
    let b1 = b.drop_first();
    if is_subsequence(a, b) {
        let idx = choose|idx: Seq<int>| #[trigger] embeds(idx, a, b);
        let j = idx.drop_first().map_values(|x: int| x - 1);
        assert forall|k: int| 0 <= k < j.len() implies 0 <= #[trigger] j[k] < b1.len() && b1[j[k]] == a1[k] by {
            assert(idx[0] < idx[k + 1]);
            assert(b[idx[k + 1]] == a[k + 1]);
        }
        assert forall|k: int, l: int| 0 <= k < l < j.len() implies #[trigger] j[k] < #[trigger] j[l] by {
            assert(idx[k + 1] < idx[l + 1]);
        }
        assert(embeds(j, a1, b1));
    }
    if is_subsequence(a1, b1) {
        let idx = choose|idx: Seq<int>| #[trigger] embeds(idx, a1, b1);
        let j = seq![0int] + idx.map_values(|x: int| x + 1);
        assert forall|k: int| 0 <= k < j.len() implies 0 <= #[trigger] j[k] < b.len() && b[j[k]] == a[k] by {
            if k > 0 {
                assert(j[k] == idx[k - 1] + 1);
                assert(b1[idx[k - 1]] == b[idx[k - 1] + 1]);
                assert(a1[k - 1] == a[k]);
            }
        }
        assert forall|k: int, l: int| 0 <= k < l < j.len() implies #[trigger] j[k] < #[trigger] j[l] by {
            if k > 0 {
                assert(idx[k - 1] < idx[l - 1]);
            } else {
                assert(j[l] == idx[l - 1] + 1);
                assert(idx[l - 1] >= 0);
            }
        }
        assert(embeds(j, a, b));
    }
}

proof fn lemma_subseq_nil(b: Seq<char>)
    ensures
        is_subsequence(Seq::<char>::empty(), b),
{
    assert(embeds(Seq::<int>::empty(), Seq::<char>::empty(), b));
}

/// The in-order match finds a score exactly when the rest of the query is a
/// subsequence of the rest of the command.
proof fn lemma_fuzzy_subsequence(
    q: Seq<char>,
    c: Seq<char>,
    cb: int,
    i: int,
    qi: int,
    score: int,
    matched: int,
    prev: Option<int>,
)
    requires
        0 <= i <= c.len(),
        0 <= qi < q.len(),
    ensures
        fuzzy_score_from(q, c, cb, i, qi, score, matched, prev) is Some <==> is_subsequence(
            q.skip(qi),
            c.skip(i),
        ),
    decreases c.len() - i,
{
    let a = q.skip(qi);
    let b = c.skip(i);
    if i == c.len() {
        lemma_subseq_empty_target(a, b);
    } else {
        assert(a[0] == q[qi]);
        assert(b[0] == c[i]);
        assert(b.drop_first() =~= c.skip(i + 1));
        if c[i] != q[qi] {
            lemma_subseq_skip(a, b);
            lemma_fuzzy_subsequence(q, c, cb, i + 1, qi, score, matched, prev);
        } else {
            lemma_subseq_take(a, b);
            assert(a.drop_first() =~= q.skip(qi + 1));
            let sc = match prev {
                Some(p) => if i == p + 1 {
                    score + 8
                } else {
                    score - (i - p)
                },
                None => score,
            };
            if qi + 1 < q.len() {
                lemma_fuzzy_subsequence(q, c, cb, i + 1, qi + 1, sc, matched + 1, Some(i));
            } else {
                assert(a.drop_first() =~= Seq::<char>::empty());
                lemma_subseq_nil(b.drop_first());
            }
        }
    }
}

/// A non-empty query scores against a command exactly when its characters occur in
/// the command in order; a prefix of the command scores 500 less the bytes left over.
pub proof fn law_match_iff_subsequence(q: Seq<char>, c: Seq<char>)
    requires
        q.len() > 0,
    ensures
        single_match_score(q, c) is Some <==> is_subsequence(q, c),
        q.is_prefix_of(c) ==> single_match_score(q, c) == Some(500 - max0(utf8_len(c) - utf8_len(q))),
{
    if q.is_prefix_of(c) {
        let idx = Seq::new(q.len(), |k: int| k);
        assert(embeds(idx, q, c));
    } else {
        match find_seq(c, q) {
            Some(pos) => {
                lemma_find_some_occurs(c, q);
                let idx = Seq::new(q.len(), |k: int| k + pos);
                assert forall|k: int| 0 <= k < idx.len() implies 0 <= #[trigger] idx[k] < c.len() && c[idx[k]]
                    == q[k] by {
                    assert(c.subrange(pos, pos + q.len())[k] == c[k + pos]);
                }
                assert(embeds(idx, q, c));
            },
            None => {
                lemma_fuzzy_subsequence(q, c, utf8_len(c), 0, 0, 200, 0, None);
                assert(q.skip(0) =~= q);
                assert(c.skip(0) =~= c);
            },
        }
    }
}


/// Where the search for the `k`-th query character starts: just after the previous
/// character's place, or at the start.
pub open spec fn search_start(idx: Seq<int>, k: int) -> int {
    if k == 0 {
        0
    } else {
        idx[k - 1] + 1
    }
}

/// `idx` places each character of `q` in `c` in order, each at its first occurrence
/// after the place of the one before.
pub open spec fn greedy_embeds(idx: Seq<int>, q: Seq<char>, c: Seq<char>) -> bool {
    &&& embeds(idx, q, c)
    &&& forall|k: int, j: int|
        #![trigger idx[k], c[j]]
        0 <= k < idx.len() && search_start(idx, k) <= j < idx[k] ==> c[j] != q[k]
}

/// How many of the places from the `k`-th on directly follow the place before them.
pub open spec fn adjacent_pairs(idx: Seq<int>, k: int) -> int
    decreases idx.len() - k,
{
    if k < 1 || k >= idx.len() {
        0
    } else {
        (if idx[k] == idx[k - 1] + 1 {
            1int
        } else {
            0
        }) + adjacent_pairs(idx, k + 1)
    }
}

/// The total distance from the place before to each of the places from the `k`-th on
/// that does not directly follow it.
pub open spec fn gap_sum(idx: Seq<int>, k: int) -> int
    decreases idx.len() - k,
{
    if k < 1 || k >= idx.len() {
        0
    } else {
        (if idx[k] == idx[k - 1] + 1 {
            0
        } else {
            idx[k] - idx[k - 1]
        }) + gap_sum(idx, k + 1)
    }
}

proof fn lemma_fuzzy_greedy(
    q: Seq<char>,
    c: Seq<char>,
    cb: int,
    idx: Seq<int>,
    i: int,
    qi: int,
    score: int,
    prev: Option<int>,
)
    requires
        greedy_embeds(idx, q, c),
        0 <= qi < q.len(),
        search_start(idx, qi) <= i <= idx[qi],
        qi == 0 ==> prev is None,
        qi > 0 ==> prev == Some(idx[qi - 1]),
    ensures
        fuzzy_score_from(q, c, cb, i, qi, score, qi, prev) == Some(
            score + 8 * adjacent_pairs(idx, if qi == 0 { 1 } else { qi }) - gap_sum(
                idx,
                if qi == 0 { 1 } else { qi },
            ) - max0(cb - q.len()),
        ),
    decreases c.len() - i,
{
    assert(0 <= idx[qi] < c.len() && c[idx[qi]] == q[qi]);
    if qi > 0 {
        assert(idx[qi - 1] < idx[qi]);
    }
    if i < idx[qi] {
        assert(c[i] != q[qi]);
        lemma_fuzzy_greedy(q, c, cb, idx, i + 1, qi, score, prev);
    } else {
        let sc = match prev {
            Some(p) => if i == p + 1 {
                score + 8
            } else {
                score - (i - p)
            },
            None => score,
        };
        if qi > 0 {
            assert(adjacent_pairs(idx, qi) == (if idx[qi] == idx[qi - 1] + 1 {
                1int
            } else {
                0
            }) + adjacent_pairs(idx, qi + 1));
            assert(gap_sum(idx, qi) == (if idx[qi] == idx[qi - 1] + 1 {
                0
            } else {
                idx[qi] - idx[qi - 1]
            }) + gap_sum(idx, qi + 1));
        }
        if qi + 1 < q.len() {
            assert(idx[qi] < idx[qi + 1]);
            lemma_fuzzy_greedy(q, c, cb, idx, i + 1, qi + 1, sc, Some(i));
        } else {
            assert(adjacent_pairs(idx, qi + 1) == 0);
            assert(gap_sum(idx, qi + 1) == 0);
        }
    }
}

/// The in-order match, for a query that is neither a prefix nor a part of the command:
/// from 200, each query character placed right after the previous one adds 8, each
/// other one costs its distance from the previous one, and every byte of the command
/// beyond the matched characters costs 1 (characters placed at their first occurrence
/// after the previous one, positions counted in characters).
pub proof fn law_fuzzy_score(q: Seq<char>, c: Seq<char>, idx: Seq<int>)
    requires
        q.len() > 0,
        !q.is_prefix_of(c),
        find_seq(c, q) is None,
        greedy_embeds(idx, q, c),
    ensures
        single_match_score(q, c) == Some(
            200 + 8 * adjacent_pairs(idx, 1) - gap_sum(idx, 1) - (if utf8_len(c) > q.len() {
                utf8_len(c) - q.len()
            } else {
                0
            }),
        ),
{
    lemma_fuzzy_greedy(q, c, utf8_len(c), idx, 0, 0, 200, None);
}


/// A query that is not a prefix of the command but occurs in it scores 350 less the
/// number of bytes before its first occurrence.
pub proof fn law_substring_score(q: Seq<char>, c: Seq<char>, p: int)
    requires
        q.len() > 0,
        !q.is_prefix_of(c),
        occurs_at(c, q, p),
        forall|j: int| 0 <= j < p ==> !occurs_at(c, q, j),
    ensures
        single_match_score(q, c) == Some(350 - utf8_len(c.take(p))),
{
    crate::text::lemma_find_skip(c, q, p);
    crate::text::lemma_prefix_occurs(c, q, p);
}

} // verus!
