use vstd::prelude::*;

verus! {

/// The text held by an optional string.
pub open spec fn opt_view(o: Option<String>) -> Option<Seq<char>> {
    match o {
        Some(s) => Some(s@),
        None => None,
    }
}

/// The path of the Messages database below a home directory.
pub open spec fn messages_rel_parts() -> Seq<Seq<char>> {
    seq![
        seq!['L', 'i', 'b', 'r', 'a', 'r', 'y'],
        seq!['M', 'e', 's', 's', 'a', 'g', 'e', 's'],
        seq!['c', 'h', 'a', 't', '.', 'd', 'b'],
    ]
}

/// `base` extended by the relative component `part`, with one `/` between
/// them: none is added after an empty base or one that already ends in `/`.
pub open spec fn join_spec(base: Seq<char>, part: Seq<char>) -> Seq<char> {
    if base.len() == 0 {
        part
    } else if base.last() == '/' {
        base + part
    } else {
        base + seq!['/'] + part
    }
}

/// `<home>/Library/Messages/chat.db`.
pub open spec fn messages_path_of(home: Seq<char>) -> Seq<char> {
    join_spec(
        join_spec(join_spec(home, messages_rel_parts()[0]), messages_rel_parts()[1]),
        messages_rel_parts()[2],
    )
}

/// What the Messages probe answers, given the home directory that was
/// resolved, if any, and whether the database exists below it.
pub open spec fn messages_answer_of(home: Option<Seq<char>>, present: bool) -> Option<Seq<char>> {
    match home {
        Some(h) => if present {
            Some(messages_path_of(h))
        } else {
            None
        },
        None => None,
    }
}

/// Relies on dirs::home_dir: the current user's home directory, if one can
/// be resolved and is valid UTF-8. It depends on the environment, so nothing
/// is promised of it.
#[verifier::external_body]
fn home_dir() -> (r: Option<String>) {
    dirs::home_dir().and_then(|p| p.to_str().map(|s| s.to_string()))
}

/// Relies on std::path::Path::exists: whether something is at `path` now.
#[verifier::external_body]
fn path_exists(path: &str) -> (r: bool) {
    std::path::Path::new(path).exists()
}

/// Relies on std::path::Path::is_dir: whether a directory is at `path` now.
#[verifier::external_body]
fn path_is_dir(path: &str) -> (r: bool) {
    std::path::Path::new(path).is_dir()
}

/// `base` extended by the relative component `part`.
pub fn join_path(base: &str, part: &str) -> (r: String)
    ensures
        r@ == join_spec(base@, part@),
{
    let n = base.unicode_len();
    let mut r = String::from_str(base);
    if n == 0 {
        let r = String::from_str(part);
        return r;
    }
    let last = base.get_char(n - 1);
    if last != '/' {
        let sep = "/";
        proof {
            reveal_strlit("/");
        }
        r.append(sep);
    }
    r.append(part);
    assert(base@.last() == last);
    assert(r@ =~= join_spec(base@, part@));
    r
}

/// The path of the Messages database below `home`.
pub fn messages_db_path(home: &str) -> (r: String)
    ensures
        r@ == messages_path_of(home@),
{
    let a = "Library";
    let b = "Messages";
    let c = "chat.db";
    proof {
        reveal_strlit("Library");
        reveal_strlit("Messages");
        reveal_strlit("chat.db");
        assert(a@ =~= messages_rel_parts()[0]);
        assert(b@ =~= messages_rel_parts()[1]);
        assert(c@ =~= messages_rel_parts()[2]);
    }
    let p1 = join_path(home, a);
    let p2 = join_path(p1.as_str(), b);
    join_path(p2.as_str(), c)
}

/// What the Messages probe answers: the database's path when a home
/// directory was resolved and the file exists below it, else nothing.
pub fn default_messages_answer(home: Option<String>, present: bool) -> (r: Option<String>)
    ensures
        opt_view(r) == messages_answer_of(opt_view(home), present),
{
    match home {
        Some(h) => if present {
            Some(messages_db_path(h.as_str()))
        } else {
            None
        },
        None => None,
    }
}

/// The path of the Messages database of the current user, if it exists.
/// Absence of a home directory or of the file is a normal, absent outcome.
pub fn check_default_messages_path() -> (r: Option<String>)
    ensures
        r matches Some(p) ==> exists|h: Seq<char>| p@ == #[trigger] messages_path_of(h),
{
    let home = home_dir();
    let present = match &home {
        Some(h) => path_exists(messages_db_path(h.as_str()).as_str()),
        None => false,
    };
    let r = default_messages_answer(home, present);
    proof {
        if r is Some {
            let h = home->0@;
            assert(r->0@ == messages_path_of(h));
        }
    }
    r
}

/// Whether `path` names an existing directory. A regular file, a missing
/// path or a malformed one gives `false`; it never fails.
pub fn check_directory_exists(path: String) -> (r: bool)
    ensures
        path@.len() == 0 ==> !r,
{
    if path.as_str().unicode_len() == 0 {
        return false;
    }
    path_is_dir(path.as_str())
}

} // verus!
