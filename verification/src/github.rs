//! Request paths of the GitHub issues client.
use vstd::prelude::*;
use vstd::string::*;
use vstd::utf8::*;

verus! {

/// A client of GitHub's REST API over an HTTP transport.
pub struct GitHubIssuesClient<C> {
    pub http: C,
}

impl<C> GitHubIssuesClient<C> {
    pub fn new(http: C) -> (r: Self)
        ensures
            r.http == http,
    {
        GitHubIssuesClient { http }
    }
}

/// Which issues to list by state.
#[derive(Clone, Copy, Debug, PartialEq, Eq, Structural)]
pub enum IssueState {
    Open,
    Closed,
    All,
}

pub open spec fn issue_state_name(s: IssueState) -> Seq<char> {
    match s {
        IssueState::Open => "open"@,
        IssueState::Closed => "closed"@,
        IssueState::All => "all"@,
    }
}

impl IssueState {
    pub fn as_str(&self) -> (r: &'static str)
        ensures
            r@ == issue_state_name(*self),
    {
        match self {
            IssueState::Open => "open",
            IssueState::Closed => "closed",
            IssueState::All => "all",
        }
    }
}

/// Parameters of listing the user's repositories.
pub struct ListReposRequest {
    pub per_page: Option<u32>,
    pub page: Option<u32>,
    pub sort: Option<String>,
}

/// Parameters of listing a repository's issues.
pub struct ListIssuesRequest {
    pub owner: String,
    pub repo: String,
    pub state: Option<IssueState>,
    pub labels: Option<Vec<String>>,
    pub assignee: Option<String>,
    pub sort: Option<String>,
    pub direction: Option<String>,
    pub per_page: Option<u32>,
    pub page: Option<u32>,
}

/// Bytes that percent-encoding leaves as they are: ASCII letters, digits and `-_.~`.
pub open spec fn is_unreserved(b: u8) -> bool {
    (48 <= b <= 57) || (65 <= b <= 90) || (97 <= b <= 122) || b == 45 || b == 46 || b == 95 || b
        == 126
}

/// An upper-case hexadecimal digit.
pub open spec fn hex_upper(d: int) -> char {
    if d < 10 {
        (48 + d) as char
    } else {
        (55 + d) as char
    }
}

pub open spec fn percent_encode_byte(b: u8) -> Seq<char> {
    if is_unreserved(b) {
        seq![b as char]
    } else {
        seq!['%', hex_upper((b / 16) as int), hex_upper((b % 16) as int)]
    }
}

/// Percent-encoding of a byte string: each byte either kept or written `%XX`.
pub open spec fn percent_encode(bs: Seq<u8>) -> Seq<char>
    decreases bs.len(),
{
    if bs.len() == 0 {
        Seq::empty()
    } else {
        percent_encode_byte(bs[0]) + percent_encode(bs.drop_first())
    }
}

/// `urlencoding::encode`: percent-encodes every byte of the text's UTF-8 encoding
/// except ASCII letters, digits and `-`, `_`, `.`, `~`, with upper-case hex digits.
#[verifier::external_body]
fn url_encode(s: &str) -> (r: String)
    ensures
        r@ == percent_encode(encode_utf8(s@)),
{
    urlencoding::encode(s).into_owned()
}

/// Decimal digits of `n`, most significant first.
pub open spec fn decimal(n: nat) -> Seq<char>
    decreases n,
{
    if n < 10 {
        seq![(48 + n) as char]
    } else {
        decimal(n / 10) + seq![(48 + n % 10) as char]
    }
}

/// A number written in decimal, as `format!("{n}")` does.
pub fn decimal_string(n: u64) -> (r: String)
    ensures
        r@ == decimal(n as nat),
{
    let mut digits: Vec<char> = Vec::new();
    let mut m: u64 = n;
    loop
        invariant_except_break
            decimal(n as nat) == decimal(m as nat) + digits@.reverse(),
        ensures
            decimal(n as nat) == digits@.reverse(),
        decreases m,
    {
        let d = m % 10;
        let c = ((48 + d) as u8) as char;
        assert(c == (48 + (m as nat) % 10) as char);
        if m < 10 {
            let ghost before = digits@;
            digits.push(c);
            assert(decimal(m as nat) =~= seq![c]);
            assert(digits@.reverse() =~= seq![c] + before.reverse());
            break;
        }
        let ghost before = digits@;
        digits.push(c);
        assert(decimal(m as nat) == decimal((m / 10) as nat) + seq![c]);
        assert(digits@.reverse() =~= seq![c] + before.reverse());
        m = m / 10;
    }
    let mut s = String::new();
    let mut k: usize = digits.len();
    while k > 0
        invariant
            k <= digits@.len(),
            s@ == digits@.skip(k as int).reverse(),
        decreases k,
    {
        k = k - 1;
        s.push(digits[k]);
        assert(digits@.skip(k as int).reverse() =~= digits@.skip(k + 1).reverse().push(digits@[k as int]));
    }
    assert(digits@.skip(0) =~= digits@);
    s
}

/// `parts` joined with `sep` between them.
pub open spec fn join(parts: Seq<Seq<char>>, sep: Seq<char>) -> Seq<char>
    decreases parts.len(),
{
    if parts.len() == 0 {
        Seq::empty()
    } else if parts.len() == 1 {
        parts[0]
    } else {
        join(parts.drop_last(), sep) + sep + parts.last()
    }
}

fn join_strings(parts: &Vec<String>, sep: &str) -> (r: String)
    ensures
        r@ == join(parts@.map_values(|p: String| p@), sep@),
{
    let ghost views = parts@.map_values(|p: String| p@);
    let mut s = String::new();
    let mut i: usize = 0;
    while i < parts.len()
        invariant
            i <= parts@.len(),
            views == parts@.map_values(|p: String| p@),
            s@ == join(views.take(i as int), sep@),
        decreases parts@.len() - i,
    {
        if i > 0 {
            s.append(sep);
        }
        s.append(parts[i].as_str());
        assert(views.take(i + 1).drop_last() =~= views.take(i as int));
        assert(views.take(i + 1).last() == parts@[i as int]@);
        if i == 0 {
            assert(views.take(1) =~= seq![parts@[0]@]);
        }
        i = i + 1;
    }
    assert(views.take(parts@.len() as int) =~= views);
    s
}

pub open spec fn opt_part(name: Seq<char>, value: Option<Seq<char>>) -> Seq<Seq<char>> {
    match value {
        Some(v) => seq![name + "="@ + v],
        None => Seq::empty(),
    }
}

pub open spec fn opt_num(n: Option<u32>) -> Option<Seq<char>> {
    match n {
        Some(v) => Some(decimal(v as nat)),
        None => None,
    }
}

pub open spec fn opt_encoded(s: Option<String>) -> Option<Seq<char>> {
    match s {
        Some(v) => Some(percent_encode(encode_utf8(v@))),
        None => None,
    }
}

/// A path with its query: the query is left out when there is nothing to ask.
pub open spec fn with_query(base: Seq<char>, parts: Seq<Seq<char>>) -> Seq<char> {
    if parts.len() == 0 {
        base
    } else {
        base + "?"@ + join(parts, "&"@)
    }
}

pub open spec fn repos_query(req: ListReposRequest) -> Seq<Seq<char>> {
    opt_part("per_page"@, opt_num(req.per_page)) + opt_part("page"@, opt_num(req.page)) + opt_part(
        "sort"@,
        opt_encoded(req.sort),
    )
}

fn push_part(parts: &mut Vec<String>, name: &str, value: String)
    ensures
        final(parts)@.map_values(|p: String| p@) == old(parts)@.map_values(|p: String| p@).push(
            name@ + "="@ + value@,
        ),
{
    let mut s = String::from_str(name);
    s.append("=");
    s.append(value.as_str());
    parts.push(s);
    assert(final(parts)@.map_values(|p: String| p@) =~= old(parts)@.map_values(|p: String| p@).push(
        name@ + "="@ + value@,
    ));
}

fn finish_path(base: &str, parts: &Vec<String>) -> (r: String)
    ensures
        r@ == with_query(base@, parts@.map_values(|p: String| p@)),
{
    if parts.len() == 0 {
        String::from_str(base)
    } else {
        let mut s = String::from_str(base);
        s.append("?");
        let q = join_strings(parts, "&");
        s.append(q.as_str());
        s
    }
}

/// The path that lists the user's repositories: `/user/repos`, with `per_page`, `page`
/// and `sort` (percent-encoded) in that order when given.
pub fn repos_path(req: &ListReposRequest) -> (r: String)
    ensures
        r@ == with_query("/user/repos"@, repos_query(*req)),
{
    let mut parts: Vec<String> = Vec::new();
    match req.per_page {
        Some(n) => push_part(&mut parts, "per_page", decimal_string(n as u64)),
        None => {},
    }
    match req.page {
        Some(n) => push_part(&mut parts, "page", decimal_string(n as u64)),
        None => {},
    }
    match &req.sort {
        Some(s) => push_part(&mut parts, "sort", url_encode(s.as_str())),
        None => {},
    }
    assert(parts@.map_values(|p: String| p@) =~= repos_query(*req));
    finish_path("/user/repos", &parts)
}

pub open spec fn encoded_labels(labels: Seq<String>) -> Seq<Seq<char>> {
    labels.map_values(|l: String| percent_encode(encode_utf8(l@)))
}

pub open spec fn labels_part(labels: Option<Vec<String>>) -> Seq<Seq<char>> {
    match labels {
        Some(ls) => if ls@.len() > 0 {
            seq!["labels"@ + "="@ + join(encoded_labels(ls@), ","@)]
        } else {
            Seq::empty()
        },
        None => Seq::empty(),
    }
}

pub open spec fn issues_query(req: ListIssuesRequest) -> Seq<Seq<char>> {
    opt_part(
        "state"@,
        match req.state {
            Some(s) => Some(issue_state_name(s)),
            None => None,
        },
    ) + labels_part(req.labels) + opt_part("assignee"@, opt_encoded(req.assignee)) + opt_part(
        "sort"@,
        opt_encoded(req.sort),
    ) + opt_part("direction"@, opt_encoded(req.direction)) + opt_part(
        "per_page"@,
        opt_num(req.per_page),
    ) + opt_part("page"@, opt_num(req.page))
}

fn encoded_label_list(labels: &Vec<String>) -> (r: Vec<String>)
    ensures
        r@.map_values(|p: String| p@) == encoded_labels(labels@),
{
    let mut out: Vec<String> = Vec::new();
    let mut i: usize = 0;
    while i < labels.len()
        invariant
            i <= labels@.len(),
            out@.map_values(|p: String| p@) == encoded_labels(labels@.take(i as int)),
        decreases labels@.len() - i,
    {
        let ghost before = out@;
        out.push(url_encode(labels[i].as_str()));
        assert(labels@.take(i + 1) =~= labels@.take(i as int).push(labels@[i as int]));
        assert(out@.map_values(|p: String| p@) =~= before.map_values(|p: String| p@).push(
            percent_encode(encode_utf8(labels@[i as int]@)),
        ));
        assert(encoded_labels(labels@.take(i + 1)) =~= encoded_labels(labels@.take(i as int)).push(
            percent_encode(encode_utf8(labels@[i as int]@)),
        ));
        i = i + 1;
    }
    assert(labels@.take(labels@.len() as int) =~= labels@);
    out
}

/// The path that lists a repository's issues: `/repos/{owner}/{repo}/issues`, with
/// `state`, `labels` (each percent-encoded, comma-joined; left out when empty),
/// `assignee`, `sort`, `direction` (percent-encoded), `per_page` and `page`, in that
/// order, when given.
#[verifier::rlimit(40)]
pub fn issues_path(req: &ListIssuesRequest) -> (r: String)
    ensures
        r@ == with_query("/repos/"@ + req.owner@ + "/"@ + req.repo@ + "/issues"@, issues_query(*req)),
{
    let mut parts: Vec<String> = Vec::new();
    let ghost state_part = opt_part(
        "state"@,
        match req.state {
            Some(s) => Some(issue_state_name(s)),
            None => None,
        },
    );
    match req.state {
        Some(s) => push_part(&mut parts, "state", String::from_str(s.as_str())),
        None => {},
    }
    assert(parts@.map_values(|p: String| p@) =~= state_part);
    match &req.labels {
        Some(labels) => {
            if labels.len() > 0 {
                let enc = encoded_label_list(labels);
                push_part(&mut parts, "labels", join_strings(&enc, ","));
            }
        },
        None => {},
    }
    let ghost q2 = state_part + labels_part(req.labels);
    assert(parts@.map_values(|p: String| p@) =~= q2);
    match &req.assignee {
        Some(s) => push_part(&mut parts, "assignee", url_encode(s.as_str())),
        None => {},
    }
    let ghost q3 = q2 + opt_part("assignee"@, opt_encoded(req.assignee));
    assert(parts@.map_values(|p: String| p@) =~= q3);
    match &req.sort {
        Some(s) => push_part(&mut parts, "sort", url_encode(s.as_str())),
        None => {},
    }
    let ghost q4 = q3 + opt_part("sort"@, opt_encoded(req.sort));
    assert(parts@.map_values(|p: String| p@) =~= q4);
    match &req.direction {
        Some(s) => push_part(&mut parts, "direction", url_encode(s.as_str())),
        None => {},
    }
    let ghost q5 = q4 + opt_part("direction"@, opt_encoded(req.direction));
    assert(parts@.map_values(|p: String| p@) =~= q5);
    match req.per_page {
        Some(n) => push_part(&mut parts, "per_page", decimal_string(n as u64)),
        None => {},
    }
    let ghost q6 = q5 + opt_part("per_page"@, opt_num(req.per_page));
    assert(parts@.map_values(|p: String| p@) =~= q6);
    match req.page {
        Some(n) => push_part(&mut parts, "page", decimal_string(n as u64)),
        None => {},
    }
    let ghost q7 = q6 + opt_part("page"@, opt_num(req.page));
    assert(parts@.map_values(|p: String| p@) =~= q7);
    assert(q7 =~= issues_query(*req));
    let mut base = String::from_str("/repos/");
    base.append(req.owner.as_str());
    base.append("/");
    base.append(req.repo.as_str());
    base.append("/issues");
    finish_path(base.as_str(), &parts)
}

} // verus!
