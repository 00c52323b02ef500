//! The recorder of a listening session: where its audio goes.
use vstd::prelude::*;
use vstd::string::*;
use crate::text::str_eq;

verus! {

/// Whether a session's audio is kept in memory until it ends, or written as it comes.
#[derive(Clone, Copy, Debug, PartialEq, Eq, Structural)]
pub enum RecordingMode {
    Memory,
    Disk,
}

/// What the recorder is started with.
pub struct RecArgs {
    pub app_dir: String,
    pub session_id: String,
    pub recording_mode: RecordingMode,
}

/// The recorder of a session's audio.
pub struct RecorderActor;

impl RecorderActor {
    pub fn new() -> (r: Self) {
        RecorderActor
    }

    /// The name the recorder is registered under.
    pub fn name() -> (r: String)
        ensures
            r@ == "recorder_actor"@,
    {
        String::from_str("recorder_actor")
    }
}

/// A hexadecimal digit, in either case.
pub open spec fn is_hex_digit(c: char) -> bool {
    ('0' <= c && c <= '9') || ('a' <= c && c <= 'f') || ('A' <= c && c <= 'F')
}

/// 8-4-4-4-12 hexadecimal digits separated by hyphens.
pub open spec fn is_hyphenated_uuid(t: Seq<char>) -> bool {
    &&& t.len() == 36
    &&& forall|i: int|
        0 <= i < 36 ==> if i == 8 || i == 13 || i == 18 || i == 23 {
            t[i] == '-'
        } else {
            is_hex_digit(#[trigger] t[i])
        }
}

/// `c` is the letter or sign `p`, ignoring the case of ASCII letters.
pub open spec fn eq_ignore_ascii_case(c: char, p: char) -> bool {
    c == p || ('a' <= p && p <= 'z' && c as int == p as int - 32)
}

/// The texts `uuid::Uuid::try_parse` accepts: 32 hexadecimal digits; the hyphenated
/// form; the hyphenated form in braces; or `urn:uuid:` (in any case) and the
/// hyphenated form.
pub open spec fn uuid_parses(s: Seq<char>) -> bool {
    ||| s.len() == 32 && forall|i: int| 0 <= i < 32 ==> is_hex_digit(#[trigger] s[i])
    ||| is_hyphenated_uuid(s)
    ||| s.len() == 38 && s[0] == '{' && s[37] == '}' && is_hyphenated_uuid(s.subrange(1, 37))
    ||| s.len() == 45 && (forall|i: int| 0 <= i < 9 ==> eq_ignore_ascii_case(#[trigger] s[i], "urn:uuid:"@[i]))
        && is_hyphenated_uuid(s.subrange(9, 45))
}

/// `uuid::Uuid::try_parse(s).is_ok()`: whether the text is a UUID in one of the forms
/// the crate reads (its `try_parse` in parser.rs: by length, the simple, hyphenated,
/// braced and URN forms, hex digits in either case).
#[verifier::external_body]
fn is_uuid(s: &str) -> (r: bool)
    ensures
        r == uuid_parses(s@),
{
    uuid::Uuid::try_parse(s).is_ok()
}

/// What the search for a session's directory does with one sub-directory.
#[derive(Clone, Copy, Debug, PartialEq, Eq, Structural)]
pub enum SessionDirStep {
    /// It is the session's directory.
    Found,
    /// It may hold the session's directory further down.
    Descend,
    /// It is another session's directory.
    Skip,
}

pub open spec fn session_dir_step_spec(name: Seq<char>, session_id: Seq<char>, is_uuid: bool) -> SessionDirStep {
    if name == session_id {
        SessionDirStep::Found
    } else if !is_uuid {
        SessionDirStep::Descend
    } else {
        SessionDirStep::Skip
    }
}

/// The step for a sub-directory named `name`, given whether its name is a UUID: a
/// directory named by the session id is the one; one named by another UUID is another
/// session's and is not searched; any other is searched.
pub fn session_dir_step_for(name: &str, session_id: &str, name_is_uuid: bool) -> (r: SessionDirStep)
    ensures
        r == session_dir_step_spec(name@, session_id@, name_is_uuid),
{
    if str_eq(name, session_id) {
        SessionDirStep::Found
    } else if !name_is_uuid {
        SessionDirStep::Descend
    } else {
        SessionDirStep::Skip
    }
}

/// The step for a sub-directory named `name` in the search for `session_id`'s directory.
pub fn session_dir_step(name: &str, session_id: &str) -> (r: SessionDirStep)
    ensures
        r == session_dir_step_spec(name@, session_id@, uuid_parses(name@)),
{
    let u = is_uuid(name);
    session_dir_step_for(name, session_id, u)
}

/// A directory entry under the sessions folder, as read from disk.
pub struct DirNode {
    pub name: String,
    pub is_dir: bool,
    pub children: Vec<DirNode>,
}

/// The path (as names from the sessions folder down) of the first directory named
/// `session_id`, searching entries in order and descending into directories whose
/// names are no UUID.
pub open spec fn session_dir_in(nodes: Seq<DirNode>, session_id: Seq<char>) -> Option<Seq<Seq<char>>>
    decreases nodes,
{
    if nodes.len() == 0 {
        None
    } else {
        let n = nodes[0];
        let rest = nodes.subrange(1, nodes.len() as int);
        if !n.is_dir {
            session_dir_in(rest, session_id)
        } else {
            match session_dir_step_spec(n.name@, session_id, uuid_parses(n.name@)) {
                SessionDirStep::Found => Some(seq![n.name@]),
                SessionDirStep::Descend => {
                    proof {
                        assert(decreases_to!(nodes => nodes[0]));
                        assert(decreases_to!(n => n.children));
                        assert(decreases_to!(n.children => n.children@));
                    }
                    match session_dir_in(n.children@, session_id) {
                        Some(p) => Some(seq![n.name@] + p),
                        None => session_dir_in(rest, session_id),
                    }
                },
                SessionDirStep::Skip => session_dir_in(rest, session_id),
            }
        }
    }
}

pub open spec fn names_view(p: Seq<String>) -> Seq<Seq<char>> {
    p.map_values(|s: String| s@)
}

proof fn lemma_session_dir_in_step(nodes: Seq<DirNode>, i: int, session_id: Seq<char>)
    requires
        0 <= i < nodes.len(),
    ensures
        session_dir_in(nodes.subrange(i, nodes.len() as int), session_id) == {
            let n = nodes[i];
            let rest = nodes.subrange(i + 1, nodes.len() as int);
            if !n.is_dir {
                session_dir_in(rest, session_id)
            } else {
                match session_dir_step_spec(n.name@, session_id, uuid_parses(n.name@)) {
                    SessionDirStep::Found => Some(seq![n.name@]),
                    SessionDirStep::Descend => match session_dir_in(n.children@, session_id) {
                        Some(p) => Some(seq![n.name@] + p),
                        None => session_dir_in(rest, session_id),
                    },
                    SessionDirStep::Skip => session_dir_in(rest, session_id),
                }
            }
        },
{
    let t = nodes.subrange(i, nodes.len() as int);
    assert(t[0] == nodes[i]);
    assert(t.subrange(1, t.len() as int) =~= nodes.subrange(i + 1, nodes.len() as int));
}

/// The path of `session_id`'s directory among `nodes` (names from the sessions folder
/// down), as `session_dir_in` defines it.
pub fn find_session_dir_in(nodes: &Vec<DirNode>, session_id: &str) -> (r: Option<Vec<String>>)
    ensures
        match r {
            Some(p) => session_dir_in(nodes@, session_id@) == Some(names_view(p@)),
            None => session_dir_in(nodes@, session_id@) is None,
        },
    decreases nodes@,
{
    let mut i: usize = 0;
    assert(nodes@.subrange(0, nodes@.len() as int) =~= nodes@);
    while i < nodes.len()
        invariant
            i <= nodes@.len(),
            session_dir_in(nodes@, session_id@) == session_dir_in(
                nodes@.subrange(i as int, nodes@.len() as int),
                session_id@,
            ),
        decreases nodes@.len() - i,
    {
        proof {
            lemma_session_dir_in_step(nodes@, i as int, session_id@);
        }
        let n = &nodes[i];
        if n.is_dir {
            match session_dir_step(n.name.as_str(), session_id) {
                SessionDirStep::Found => {
                    let path = vec![n.name.clone()];
                    assert(names_view(path@) =~= seq![n.name@]);
                    return Some(path);
                },
                SessionDirStep::Descend => {
                    proof {
                        assert(decreases_to!(nodes@ => nodes@[i as int]));
                        assert(decreases_to!(nodes@[i as int] => nodes@[i as int].children));
                        assert(decreases_to!(nodes@[i as int].children => nodes@[i as int].children@));
                    }
                    match find_session_dir_in(&n.children, session_id) {
                        Some(sub) => {
                            let mut path = vec![n.name.clone()];
                            let ghost subv = names_view(sub@);
                            let mut sub = sub;
                            path.append(&mut sub);
                            assert(names_view(path@) =~= seq![n.name@] + subv);
                            return Some(path);
                        },
                        None => {},
                    }
                },
                SessionDirStep::Skip => {},
            }
        }
        i = i + 1;
    }
    assert(nodes@.subrange(i as int, nodes@.len() as int) =~= Seq::<DirNode>::empty());
    None
}

/// A path found for a session ends with a folder named by the session id.
pub proof fn lemma_session_dir_ends_with_id(nodes: Seq<DirNode>, session_id: Seq<char>)
    ensures
        session_dir_in(nodes, session_id) matches Some(p) ==> p.len() > 0 && p.last() == session_id,
    decreases nodes,
{
    if nodes.len() > 0 {
        let n = nodes[0];
        let rest = nodes.subrange(1, nodes.len() as int);
        lemma_session_dir_ends_with_id(rest, session_id);
        if n.is_dir && session_dir_step_spec(n.name@, session_id, uuid_parses(n.name@))
            == SessionDirStep::Descend {
            assert(decreases_to!(nodes => nodes[0]));
            assert(decreases_to!(n => n.children));
            assert(decreases_to!(n.children => n.children@));
            lemma_session_dir_ends_with_id(n.children@, session_id);
            if let Some(p) = session_dir_in(n.children@, session_id) {
                assert((seq![n.name@] + p).last() == p.last());
            }
        }
    }
}

/// The folder of a session, as names from the sessions folder `sessions_base` down:
/// the first folder named by the session id that the search reaches, else one named by
/// the id directly in the sessions folder.
pub fn find_session_dir(sessions_base: &str, nodes: &Vec<DirNode>, session_id: &str) -> (r: Vec<
    String,
>)
    ensures
        names_view(r@) == seq![sessions_base@] + match session_dir_in(nodes@, session_id@) {
            Some(p) => p,
            None => seq![session_id@],
        },
        r@.len() >= 2,
        r@.last()@ == session_id@,
{
    proof {
        lemma_session_dir_ends_with_id(nodes@, session_id@);
    }
    let mut out = vec![String::from_str(sessions_base)];
    let ghost base = names_view(out@);
    assert(base =~= seq![sessions_base@]);
    let mut tail = match find_session_dir_in(nodes, session_id) {
        Some(p) => p,
        None => {
            let v = vec![String::from_str(session_id)];
            assert(names_view(v@) =~= seq![session_id@]);
            v
        },
    };
    let ghost tv = names_view(tail@);
    out.append(&mut tail);
    assert(names_view(out@) =~= base + tv);
    out
}

} // verus!
