//! The command popup of the entry screen: which commands match the typed input,
//! in which order they are listed, and which one is selected.
use vstd::prelude::*;
use vstd::string::*;
use crate::commands::{
    ALL_COMMANDS, Command, description_spec, disabled_reason_spec, group_spec, name_spec, opt_str_view,
    opt_view,
};
use crate::search::{MAX_MATCH_INPUT, command_match, command_match_score};
use crate::text::{
    lemma_lex_irreflexive, lemma_lex_total, lemma_lex_transitive,
    lex_lt, str_eq, str_lt, trim, trim_seq,
    trim_start_char, trim_start_char_seq, utf8_len,
};

verus! {

/// The order in which command groups are listed.
pub const GROUP_ORDER: [&'static str; 4] = ["Session", "Setup", "App", "Models"];

pub open spec fn group_order_views() -> Seq<Seq<char>> {
    GROUP_ORDER@.map_values(|g: &str| g@)
}

/// Position of a group in `GROUP_ORDER` (`usize::MAX` when it is not listed).
pub open spec fn group_position_from(groups: Seq<Seq<char>>, g: Seq<char>, k: int) -> int
    decreases groups.len() - k,
{
    if k < 0 || k >= groups.len() {
        usize::MAX as int
    } else if groups[k] == g {
        k
    } else {
        group_position_from(groups, g, k + 1)
    }
}

pub open spec fn command_rank(c: Command) -> int {
    group_position_from(group_order_views(), group_spec(c), 0)
}

pub fn group_position(group: &str) -> (r: usize)
    ensures
        r as int == group_position_from(group_order_views(), group@, 0),
{
    let mut k: usize = 0;
    while k < 4
        invariant
            k <= 4,
            group_order_views().len() == 4,
            group_position_from(group_order_views(), group@, 0) == group_position_from(
                group_order_views(),
                group@,
                k as int,
            ),
        decreases 4 - k,
    {
        let g = GROUP_ORDER[k];
        assert(group_order_views()[k as int] == g@);
        if str_eq(g, group) {
            return k;
        }
        k = k + 1;
    }
    usize::MAX
}

/// Score of the popup query against the command at `i` in `ALL_COMMANDS`.
pub open spec fn popup_score(query: Seq<char>, i: int) -> Option<int> {
    command_match(query, name_spec(ALL_COMMANDS@[i]))
}

pub open spec fn score_value(query: Seq<char>, i: int) -> int {
    match popup_score(query, i) {
        Some(s) => s,
        None => 0,
    }
}

/// Whether command `a` is listed before command `b`: by group, then by higher score,
/// then by name, then by position in `ALL_COMMANDS`.
pub open spec fn listed_before(query: Seq<char>, a: int, b: int) -> bool {
    let ra = command_rank(ALL_COMMANDS@[a]);
    let rb = command_rank(ALL_COMMANDS@[b]);
    let sa = score_value(query, a);
    let sb = score_value(query, b);
    let na = name_spec(ALL_COMMANDS@[a]);
    let nb = name_spec(ALL_COMMANDS@[b]);
    ||| ra < rb
    ||| ra == rb && sa > sb
    ||| ra == rb && sa == sb && lex_lt(na, nb)
    ||| ra == rb && sa == sb && na == nb && a < b
}

pub proof fn lemma_listed_before_order(query: Seq<char>, a: int, b: int, c: int)
    ensures
        !listed_before(query, a, a),
        a != b ==> listed_before(query, a, b) || listed_before(query, b, a),
        listed_before(query, a, b) && listed_before(query, b, c) ==> listed_before(query, a, c),
{
    let na = name_spec(ALL_COMMANDS@[a]);
    let nb = name_spec(ALL_COMMANDS@[b]);
    let nc = name_spec(ALL_COMMANDS@[c]);
    lemma_lex_irreflexive(na);
    lemma_lex_total(na, nb);
    if lex_lt(na, nb) && lex_lt(nb, nc) {
        lemma_lex_transitive(na, nb, nc);
    }
    if lex_lt(na, nb) && lex_lt(nb, na) {
        lemma_lex_transitive(na, nb, na);
    }
    if lex_lt(nb, na) && lex_lt(na, nb) {
        lemma_lex_transitive(nb, na, nb);
    }
    lemma_lex_irreflexive(nb);
}

/// The query that the popup matches against: the trimmed input without leading `/`.
pub open spec fn popup_query(input: Seq<char>) -> Seq<char> {
    trim_start_char_seq(trim_seq(input), '/')
}

/// The listing for a non-empty input: every matching command exactly once, in
/// `listed_before` order; all commands in order when none matches.
pub open spec fn is_popup_listing(query: Seq<char>, list: Seq<usize>) -> bool {
    if exists|i: int| 0 <= i < 14 && #[trigger] popup_score(query, i) is Some {
        &&& list.no_duplicates()
        &&& forall|i: int| 0 <= i < list.len() ==> #[trigger] list[i] < 14
        &&& forall|i: int|
            0 <= i < 14 ==> (list.contains(i as usize) <==> #[trigger] popup_score(query, i) is Some)
        &&& forall|x: int, y: int|
            0 <= x < y < list.len() ==> listed_before(query, #[trigger] list[x] as int, #[trigger] list[y] as int)
    } else {
        list == Seq::new(14, |i: int| i as usize)
    }
}

/// A popup listing is never empty, lists each command at most once and only commands
/// that exist; when no command matches, it is every command in order.
pub proof fn law_popup_listing(query: Seq<char>, list: Seq<usize>)
    requires
        is_popup_listing(query, list),
    ensures
        list.len() > 0,
        list.no_duplicates(),
        forall|i: int| 0 <= i < list.len() ==> #[trigger] list[i] < 14,
        (forall|i: int| 0 <= i < 14 ==> #[trigger] popup_score(query, i) is None) ==> list == Seq::new(
            14,
            |i: int| i as usize,
        ),
{
    if exists|i: int| 0 <= i < 14 && #[trigger] popup_score(query, i) is Some {
        let w = choose|i: int| 0 <= i < 14 && #[trigger] popup_score(query, i) is Some;
        assert(list.contains(w as usize));
    } else {
        let all = Seq::new(14, |i: int| i as usize);
        assert(all[0] == 0usize);
        assert forall|a: int, b: int| 0 <= a < all.len() && 0 <= b < all.len() && a != b implies all[a]
            != all[b] by {
            assert(all[a] == a as usize);
            assert(all[b] == b as usize);
        }
    }
}

/// Popup state: the listed commands (as indices into `ALL_COMMANDS`), the selection,
/// and whether the popup shows.
pub struct Palette {
    pub filtered_commands: Vec<usize>,
    pub selected_index: usize,
    pub popup_visible: bool,
}

pub struct CommandEntry {
    pub name: &'static str,
    pub description: &'static str,
    pub group: &'static str,
    pub disabled_reason: Option<&'static str>,
}

pub open spec fn entry_of(c: Command, stt: Option<Seq<char>>, llm: Option<Seq<char>>) -> (
    Seq<char>,
    Seq<char>,
    Seq<char>,
    Option<Seq<char>>,
) {
    (name_spec(c), description_spec(c), group_spec(c), disabled_reason_spec(c, stt, llm))
}

impl CommandEntry {
    pub open spec fn view(&self) -> (Seq<char>, Seq<char>, Seq<char>, Option<Seq<char>>) {
        (self.name@, self.description@, self.group@, opt_str_view(self.disabled_reason))
    }
}

impl Palette {
    /// The selection lies within the listing (or is 0 when nothing is listed).
    pub open spec fn wf(&self) -> bool {
        self.selected_index == 0 || self.selected_index < self.filtered_commands@.len()
    }

    pub fn new() -> (r: Self)
        ensures
            r.filtered_commands@.len() == 0,
            r.selected_index == 0,
            !r.popup_visible,
            r.wf(),
    {
        Palette { filtered_commands: Vec::new(), selected_index: 0, popup_visible: false }
    }

    /// Recomputes the popup for the current input text.
    pub fn recompute(&mut self, input_text: &str)
        ensures
            final(self).wf(),
            trim_seq(input_text@).len() == 0 ==> {
                &&& !final(self).popup_visible
                &&& final(self).filtered_commands@.len() == 0
                &&& final(self).selected_index == 0
            },
            trim_seq(input_text@).len() > 0 ==> {
                &&& final(self).popup_visible
                &&& is_popup_listing(popup_query(input_text@), final(self).filtered_commands@)
                &&& final(self).filtered_commands@.len() > 0
                &&& final(self).filtered_commands@.no_duplicates()
                &&& forall|i: int|
                    0 <= i < final(self).filtered_commands@.len() ==> #[trigger] final(self).filtered_commands@[i] < 14
                &&& final(self).selected_index < final(self).filtered_commands@.len()
                &&& final(self).selected_index == if old(self).selected_index < final(self).filtered_commands@.len() {
                    old(self).selected_index as int
                } else {
                    final(self).filtered_commands@.len() - 1
                }
            },
    {
        let input = trim(input_text);
        if input.as_str().unicode_len() == 0 {
            self.popup_visible = false;
            self.filtered_commands = Vec::new();
            self.selected_index = 0;
            return;
        }
        self.popup_visible = true;
        let query = trim_start_char(input.as_str(), '/');
        let ghost q = query@;
        let mut ranked: Vec<usize> = Vec::new();
        let mut scores: Vec<i32> = Vec::new();
        let mut i: usize = 0;
        while i < 14
            invariant
                i <= 14,
                q == query@,
                q == popup_query(input_text@),
                scores@.len() == i,
                forall|k: int| 0 <= k < i ==> popup_score(q, k) == Some(#[trigger] scores@[k] as int)
                    || (popup_score(q, k) is None && scores@[k] == 0),
                ranked@.no_duplicates(),
                forall|k: int| 0 <= k < ranked@.len() ==> #[trigger] ranked@[k] < i,
                forall|k: int|
                    0 <= k < i ==> (ranked@.contains(k as usize) <==> #[trigger] popup_score(q, k) is Some),
                forall|x: int, y: int|
                    0 <= x < y < ranked@.len() ==> listed_before(q, #[trigger] ranked@[x] as int, #[trigger] ranked@[y] as int),
            decreases 14 - i,
        {
            let cmd = ALL_COMMANDS[i];
            let name = cmd.name();
            proof {
                lemma_name_len(cmd);
            }
            let score = command_match_score(query.as_str(), name);
            match score {
                Some(s) => {
                    scores.push(s);
                    let rank = group_position(cmd.group());
                    proof {
                        assert forall|k: int| 0 <= k < ranked@.len() implies popup_score(q, #[trigger] ranked@[k] as int)
                            == Some(scores@[ranked@[k] as int] as int) by {
                            assert(ranked@.contains(ranked@[k]));
                        }
                    }
                    let ghost old_ranked = ranked@;
                    insert_ranked(&mut ranked, i, rank, s, &scores, Ghost(q));
                    proof {
                        assert forall|k: int| 0 <= k < i + 1 implies (ranked@.contains(k as usize)
                            <==> #[trigger] popup_score(q, k) is Some) by {
                            if k < i {
                                assert(old_ranked.contains(k as usize) <==> popup_score(q, k) is Some);
                            }
                        }
                    }
                },
                None => {
                    scores.push(0);
                    proof {
                        if ranked@.contains(i) {
                            let w = choose|w: int| 0 <= w < ranked@.len() && ranked@[w] == i;
                        }
                    }
                },
            }
            i = i + 1;
        }
        if ranked.len() == 0 {
            let mut all: Vec<usize> = Vec::new();
            let mut k: usize = 0;
            while k < 14
                invariant
                    k <= 14,
                    all@ == Seq::new(k as nat, |j: int| j as usize),
                decreases 14 - k,
            {
                all.push(k);
                k = k + 1;
                assert(all@ =~= Seq::new(k as nat, |j: int| j as usize));
            }
            proof {
                assert forall|j: int| 0 <= j < 14 implies !(#[trigger] popup_score(q, j) is Some) by {
                    if popup_score(q, j) is Some {
                        assert(ranked@.contains(j as usize));
                    }
                }
            }
            ranked = all;
        } else {
            proof {
                let w = ranked@[0] as int;
                assert(ranked@.contains(w as usize));
                assert(popup_score(q, w) is Some);
            }
        }
        proof {
            law_popup_listing(q, ranked@);
        }
        self.filtered_commands = ranked;
        let len = self.filtered_commands.len();
        let max = if len > 0 {
            len - 1
        } else {
            0
        };
        if self.selected_index > max {
            self.selected_index = max;
        }
    }

    /// Moves the selection up one row (stopping at the first).
    pub fn select_previous(&mut self)
        requires
            old(self).wf(),
        ensures
            final(self).wf(),
            final(self).filtered_commands@ == old(self).filtered_commands@,
            final(self).popup_visible == old(self).popup_visible,
            final(self).selected_index == if old(self).selected_index > 0 {
                old(self).selected_index - 1
            } else {
                0
            },
    {
        if self.selected_index > 0 {
            self.selected_index = self.selected_index - 1;
        }
    }

    /// Moves the selection down one row (stopping at the last).
    pub fn select_next(&mut self)
        requires
            old(self).wf(),
        ensures
            final(self).wf(),
            final(self).filtered_commands@ == old(self).filtered_commands@,
            final(self).popup_visible == old(self).popup_visible,
            final(self).selected_index == if old(self).selected_index + 1 < old(self).filtered_commands@.len() {
                old(self).selected_index + 1
            } else if old(self).filtered_commands@.len() > 0 {
                old(self).filtered_commands@.len() - 1
            } else {
                0
            },
    {
        let len = self.filtered_commands.len();
        let max = if len > 0 {
            len - 1
        } else {
            0
        };
        let next = self.selected_index + 1;
        self.selected_index = if next < max {
            next
        } else {
            max
        };
    }

    /// Name of the selected command, if the selection names one.
    pub fn selected_command_name(&self) -> (r: Option<&'static str>)
        ensures
            match r {
                Some(n) => self.selected_index < self.filtered_commands@.len()
                    && self.filtered_commands@[self.selected_index as int] < 14 && n@ == name_spec(
                    ALL_COMMANDS@[self.filtered_commands@[self.selected_index as int] as int],
                ),
                None => self.selected_index >= self.filtered_commands@.len()
                    || self.filtered_commands@[self.selected_index as int] >= 14,
            },
    {
        if self.selected_index >= self.filtered_commands.len() {
            return None;
        }
        let i = self.filtered_commands[self.selected_index];
        if i >= 14 {
            return None;
        }
        Some(ALL_COMMANDS[i].name())
    }

    /// The rows of the popup, with why each command is disabled, if it is.
    pub fn visible_commands(&self, stt: &Option<String>, llm: &Option<String>) -> (r: Vec<
        CommandEntry,
    >)
        ensures
            r@.map_values(|e: CommandEntry| e.view()) == self.filtered_commands@.filter(
                |i: usize| i < 14,
            ).map_values(|i: usize| entry_of(ALL_COMMANDS@[i as int], opt_view(*stt), opt_view(*llm))),
    {
        let ghost f = |i: usize| i < 14;
        let ghost g = |i: usize| entry_of(ALL_COMMANDS@[i as int], opt_view(*stt), opt_view(*llm));
        let mut out: Vec<CommandEntry> = Vec::new();
        let mut k: usize = 0;
        while k < self.filtered_commands.len()
            invariant
                k <= self.filtered_commands@.len(),
                f == (|i: usize| i < 14),
                g == (|i: usize| entry_of(ALL_COMMANDS@[i as int], opt_view(*stt), opt_view(*llm))),
                out@.map_values(|e: CommandEntry| e.view()) == self.filtered_commands@.take(
                    k as int,
                ).filter(f).map_values(g),
            decreases self.filtered_commands@.len() - k,
        {
            let i = self.filtered_commands[k];
            proof {
                let t1 = self.filtered_commands@.take(k + 1);
                assert(t1.drop_last() =~= self.filtered_commands@.take(k as int));
                assert(t1.last() == i);
                reveal_with_fuel(Seq::filter, 1);
                assert(t1.filter(f) == if f(i) {
                    self.filtered_commands@.take(k as int).filter(f).push(i)
                } else {
                    self.filtered_commands@.take(k as int).filter(f)
                });
            }
            let ghost old_out = out@;
            if i < 14 {
                let cmd = ALL_COMMANDS[i];
                let entry = CommandEntry {
                    name: cmd.name(),
                    description: cmd.description(),
                    group: cmd.group(),
                    disabled_reason: cmd.disabled_reason(stt, llm),
                };
                assert(cmd == ALL_COMMANDS@[i as int]);
                assert(entry.view() == g(i));
                out.push(entry);
                assert(out@.map_values(|e: CommandEntry| e.view()) =~= old_out.map_values(|e: CommandEntry| e.view()).push(g(i)));
                assert(out@.map_values(|e: CommandEntry| e.view()) =~= self.filtered_commands@.take(
                    k + 1,
                ).filter(f).map_values(g));
            } else {
                assert(out@.map_values(|e: CommandEntry| e.view()) =~= self.filtered_commands@.take(
                    k + 1,
                ).filter(f).map_values(g));
            }
            k = k + 1;
        }
        assert(self.filtered_commands@.take(self.filtered_commands@.len() as int) =~= self.filtered_commands@);
        out
    }
}

/// Inserts `i` into the listing at the place that keeps it in `listed_before` order.
#[verifier::spinoff_prover]
fn insert_ranked(
    ranked: &mut Vec<usize>,
    i: usize,
    rank: usize,
    s: i32,
    scores: &Vec<i32>,
    q: Ghost<Seq<char>>,
)
    requires
        i < 14,
        scores@.len() == i + 1,
        scores@[i as int] == s,
        popup_score(q@, i as int) == Some(s as int),
        rank as int == command_rank(ALL_COMMANDS@[i as int]),
        old(ranked)@.no_duplicates(),
        forall|k: int| 0 <= k < old(ranked)@.len() ==> #[trigger] old(ranked)@[k] < i,
        forall|k: int|
            0 <= k < old(ranked)@.len() ==> popup_score(q@, #[trigger] old(ranked)@[k] as int) == Some(
                scores@[old(ranked)@[k] as int] as int,
            ),
        forall|x: int, y: int|
            0 <= x < y < old(ranked)@.len() ==> listed_before(q@, #[trigger] old(ranked)@[x] as int, #[trigger] old(ranked)@[y] as int),
    ensures
        final(ranked)@.no_duplicates(),
        forall|k: int| 0 <= k < final(ranked)@.len() ==> #[trigger] final(ranked)@[k] < i + 1,
        forall|k: usize| final(ranked)@.contains(k) <==> (old(ranked)@.contains(k) || k == i),
        forall|x: int, y: int|
            0 <= x < y < final(ranked)@.len() ==> listed_before(q@, #[trigger] final(ranked)@[x] as int, #[trigger] final(ranked)@[y] as int),
{
    let ghost old_ranked = ranked@;
    let mut p: usize = 0;
    while p < ranked.len() && !before_exec(i, rank, s, ranked[p], scores, q)
        invariant
            ranked@ == old_ranked,
            i < 14,
            scores@.len() == i + 1,
            scores@[i as int] == s,
            popup_score(q@, i as int) == Some(s as int),
            rank as int == command_rank(ALL_COMMANDS@[i as int]),
            p <= ranked@.len(),
            forall|k: int| 0 <= k < ranked@.len() ==> #[trigger] ranked@[k] < i,
            forall|k: int|
                0 <= k < ranked@.len() ==> popup_score(q@, #[trigger] ranked@[k] as int) == Some(
                    scores@[ranked@[k] as int] as int,
                ),
            forall|k: int| 0 <= k < p ==> listed_before(q@, #[trigger] ranked@[k] as int, i as int),
        decreases ranked@.len() - p,
    {
        proof {
            let r = ranked@[p as int] as int;
            lemma_listed_before_order(q@, i as int, r, r);
        }
        p = p + 1;
    }
    ranked.insert(p, i);
    proof {
        let qq = q@;
        assert forall|x: int, y: int|
            0 <= x < y < ranked@.len() implies listed_before(
            qq,
            #[trigger] ranked@[x] as int,
            #[trigger] ranked@[y] as int,
        ) by {
            if y < p {
            } else if y == p {
                assert(ranked@[x] == old_ranked[x]);
            } else if x < p {
                assert(ranked@[x] == old_ranked[x]);
                assert(ranked@[y] == old_ranked[y - 1]);
                if y - 1 == p {
                    lemma_listed_before_order(qq, old_ranked[x] as int, i as int, old_ranked[y - 1] as int);
                } else {
                    lemma_listed_before_order(qq, i as int, old_ranked[p as int] as int, old_ranked[y - 1] as int);
                    lemma_listed_before_order(qq, old_ranked[x] as int, i as int, old_ranked[y - 1] as int);
                }
            } else if x == p {
                assert(ranked@[y] == old_ranked[y - 1]);
                if y - 1 > p {
                    lemma_listed_before_order(qq, i as int, old_ranked[p as int] as int, old_ranked[y - 1] as int);
                }
            } else {
                assert(ranked@[x] == old_ranked[x - 1]);
                assert(ranked@[y] == old_ranked[y - 1]);
            }
        }
        assert forall|k: int| 0 <= k < ranked@.len() implies #[trigger] ranked@[k] < i + 1 by {
            if k < p {
                assert(ranked@[k] == old_ranked[k]);
            } else if k > p {
                assert(ranked@[k] == old_ranked[k - 1]);
            }
        }
        lemma_insert_contains(old_ranked, p as int, i);
        assert(ranked@ == old_ranked.insert(p as int, i));
        assert forall|x: int, y: int|
            0 <= x < ranked@.len() && 0 <= y < ranked@.len() && x != y implies ranked@[x] != ranked@[y] by {
            if x != p && y != p {
                let ox = if x < p { x } else { x - 1 };
                let oy = if y < p { y } else { y - 1 };
                assert(ranked@[x] == old_ranked[ox]);
                assert(ranked@[y] == old_ranked[oy]);
            } else if x == p {
                let oy = if y < p { y } else { y - 1 };
                assert(ranked@[y] == old_ranked[oy]);
            } else {
                let ox = if x < p { x } else { x - 1 };
                assert(ranked@[x] == old_ranked[ox]);
            }
        }
    }
}

proof fn lemma_insert_contains(s: Seq<usize>, p: int, v: usize)
    requires
        0 <= p <= s.len(),
    ensures
        forall|k: usize| s.insert(p, v).contains(k) <==> (s.contains(k) || k == v),
{
    let t = s.insert(p, v);
    assert forall|k: usize| t.contains(k) <==> (s.contains(k) || k == v) by {
        if t.contains(k) {
            let w = choose|w: int| 0 <= w < t.len() && t[w] == k;
            if w < p {
                assert(s[w] == k);
            } else if w > p {
                assert(s[w - 1] == k);
            }
        }
        if s.contains(k) {
            let w = choose|w: int| 0 <= w < s.len() && s[w] == k;
            if w < p {
                assert(t[w] == k);
            } else {
                assert(t[w + 1] == k);
            }
        }
        if k == v {
            assert(t[p] == v);
        }
    }
}

/// Whether the command at `i` (rank `rank`, score `s`) is listed before the command at `j`.
fn before_exec(i: usize, rank: usize, s: i32, j: usize, scores: &Vec<i32>, q: Ghost<Seq<char>>) -> (r: bool)
    requires
        i < 14,
        j < i,
        scores@.len() == i + 1,
        scores@[i as int] == s,
        popup_score(q@, i as int) == Some(s as int),
        rank as int == command_rank(ALL_COMMANDS@[i as int]),
        popup_score(q@, j as int) == Some(scores@[j as int] as int),
    ensures
        r == listed_before(q@, i as int, j as int),
{
    let ci = ALL_COMMANDS[i];
    let cj = ALL_COMMANDS[j];
    let rj = group_position(cj.group());
    let sj = scores[j];
    if rank != rj {
        return rank < rj;
    }
    if s != sj {
        return s > sj;
    }
    let ni = ci.name();
    let nj = cj.name();
    if str_lt(ni, nj) {
        return true;
    }
    if str_eq(ni, nj) {
        return i < j;
    }
    false
}

pub proof fn lemma_name_len(c: Command)
    ensures
        utf8_len(name_spec(c)) <= MAX_MATCH_INPUT,
{
    lemma_utf8_len_le4(name_spec(c));
    match c {
        Command::Listen => { reveal_strlit("/listen"); },
        Command::Chat => { reveal_strlit("/chat"); },
        Command::ChatResume => { reveal_strlit("/chat resume"); },
        Command::Sessions => { reveal_strlit("/sessions"); },
        Command::Timeline => { reveal_strlit("/timeline"); },
        Command::Connect => { reveal_strlit("/connect"); },
        Command::Auth => { reveal_strlit("/auth"); },
        Command::Bug => { reveal_strlit("/bug"); },
        Command::Hello => { reveal_strlit("/hello"); },
        Command::Desktop => { reveal_strlit("/desktop"); },
        Command::Models => { reveal_strlit("/models"); },
        Command::ModelsDownload => { reveal_strlit("/models download"); },
        Command::ModelsDelete => { reveal_strlit("/models delete"); },
        Command::ModelsPaths => { reveal_strlit("/models paths"); },
        Command::Exit => { reveal_strlit("/exit"); },
    }
}

pub proof fn lemma_utf8_len_le4(s: Seq<char>)
    ensures
        utf8_len(s) <= 4 * s.len(),
    decreases s.len(),
{
    if s.len() > 0 {
        lemma_utf8_len_le4(s.drop_first());
    }
}

} // verus!
