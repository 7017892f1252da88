use vstd::prelude::*;

verus! {

/// A git remote that points at a GitHub repository.
///
/// Two remotes are the same remote when their names are equal.
#[derive(Debug, Clone)]
pub struct Remote {
    pub name: String,
    pub owner: String,
    pub repo: String,
}

impl PartialEq for Remote {
    fn eq(&self, other: &Remote) -> (r: bool) {
        self.name == other.name
    }
}

impl Eq for Remote {

}

impl vstd::std_specs::cmp::PartialEqSpecImpl for Remote {
    open spec fn obeys_eq_spec() -> bool {
        true
    }

    open spec fn eq_spec(&self, other: &Remote) -> bool {
        self.name@ == other.name@
    }
}

/// Why no remote could be chosen.
#[derive(Debug, Clone, PartialEq, Eq)]
pub enum RemoteError {
    /// The listing names no GitHub remote.
    NoRemotes,
    /// No remote has the requested name.
    NotFound(String),
    /// The regular expression for a listing line was refused.
    PatternRejected,
}

/// One line of `git remote -v` that names a GitHub repository: the remote's
/// name, then the owner and the repository of its URL.
pub const REMOTE_LINE: &'static str = r"(?m)^([[:alpha:]]*)\s*(?:git@github\.com:|https://github.com/)([[:alpha:]-_\d]*)/([[:alpha:]-_\d]*)\.git\s*\((?:fetch|push)\)$";

/// The first three capture groups of one match, each present when it took
/// part in the match.
pub type Groups = (Option<String>, Option<String>, Option<String>);

/// Whether the regex crate accepts `pattern`.
pub uninterp spec fn regex_accepts(pattern: Seq<char>) -> bool;

/// The first three groups of each successive non-overlapping match of
/// `pattern` in `text`, as the regex crate finds them.
pub uninterp spec fn capture_groups_of(pattern: Seq<char>, text: Seq<char>) -> Seq<
    (Option<Seq<char>>, Option<Seq<char>>, Option<Seq<char>>),
>;

/// Relies on `regex::Regex::new`, which accepts or refuses the pattern, and on
/// `Regex::captures_iter` with `Captures::get`, which yield the groups of
/// each successive non-overlapping match in the text.
#[verifier::external_body]
fn capture_groups(pattern: &str, text: &str) -> (r: Option<Vec<Groups>>)
    ensures
        r is Some <==> regex_accepts(pattern@),
        r matches Some(v) ==> v.deep_view() == capture_groups_of(pattern@, text@),
{
    regex::Regex::new(pattern).ok().map(
        |re|
            re.captures_iter(text).map(
                |c|
                    {
                        let group = |i: usize| c.get(i).map(|m| m.as_str().to_owned());
                        (group(1), group(2), group(3))
                    },
            ).collect(),
    )
}

/// A remote as its name, owner and repository.
pub open spec fn remote_view(r: Remote) -> (Seq<char>, Seq<char>, Seq<char>) {
    (r.name@, r.owner@, r.repo@)
}

pub open spec fn names_contain(s: Seq<(Seq<char>, Seq<char>, Seq<char>)>, name: Seq<char>) -> bool {
    exists|i: int| 0 <= i < s.len() && #[trigger] s[i].0 == name
}

/// The remotes that the matches name: the matches with all three groups, the
/// first one of each name, in order.
pub open spec fn listed_remotes(
    found: Seq<(Option<Seq<char>>, Option<Seq<char>>, Option<Seq<char>>)>,
) -> Seq<(Seq<char>, Seq<char>, Seq<char>)>
    decreases found.len(),
{
    if found.len() == 0 {
        seq![]
    } else {
        let earlier = listed_remotes(found.drop_last());
        match found.last() {
            (Some(name), Some(owner), Some(repo)) => if names_contain(earlier, name) {
                earlier
            } else {
                earlier.push((name, owner, repo))
            },
            _ => earlier,
        }
    }
}

fn has_remote_named(remotes: &Vec<Remote>, name: &String) -> (r: bool)
    ensures
        r == names_contain(remotes@.map_values(|x: Remote| remote_view(x)), name@),
{
    let ghost views = remotes@.map_values(|x: Remote| remote_view(x));
    let mut i: usize = 0;
    while i < remotes.len()
        invariant
            i <= remotes.len(),
            views == remotes@.map_values(|x: Remote| remote_view(x)),
            forall|j: int| 0 <= j < i ==> views[j].0 != name@,
        decreases remotes.len() - i,
    {
        if remotes[i].name == *name {
            assert(views[i as int].0 == name@);
            return true;
        }
        i += 1;
    }
    false
}

/// The remotes named by the groups of a listing's matches: each match with
/// all three groups, the first of each name, in order; an error when there
/// is none.
pub fn distinct_remotes(found: Vec<Groups>) -> (r: Result<Vec<Remote>, RemoteError>)
    ensures
        listed_remotes(found.deep_view()).len() == 0 ==> r == Err::<Vec<Remote>, RemoteError>(
            RemoteError::NoRemotes,
        ),
        listed_remotes(found.deep_view()).len() > 0 ==> (r matches Ok(v) && v@.map_values(
            |x: Remote| remote_view(x),
        ) == listed_remotes(found.deep_view())),
{
    let ghost all = found.deep_view();
    let mut remotes: Vec<Remote> = Vec::new();
    let mut i: usize = 0;
    while i < found.len()
        invariant
            i <= found.len(),
            all == found.deep_view(),
            remotes@.map_values(|x: Remote| remote_view(x)) == listed_remotes(all.take(i as int)),
        decreases found.len() - i,
    {
        let ghost before = remotes@.map_values(|x: Remote| remote_view(x));
        assert(all.take(i + 1).drop_last() =~= all.take(i as int));
        assert(all.take(i + 1).last() == all[i as int]);
        match &found[i] {
            (Some(name), Some(owner), Some(repo)) => {
                if !has_remote_named(&remotes, name) {
                    remotes.push(Remote { name: name.clone(), owner: owner.clone(), repo: repo.clone() });
                    assert(remotes@.map_values(|x: Remote| remote_view(x)) =~= before.push(
                        (name@, owner@, repo@),
                    ));
                }
            },
            _ => {},
        }
        i += 1;
    }
    assert(all.take(found.len() as int) =~= all);
    if remotes.len() == 0 {
        Err(RemoteError::NoRemotes)
    } else {
        Ok(remotes)
    }
}

/// The GitHub remotes that a `git remote -v` listing names, the first entry
/// of each name kept, in order.
pub fn remotes_from_listing(listing: &str) -> (r: Result<Vec<Remote>, RemoteError>)
    ensures
        !regex_accepts(REMOTE_LINE@) ==> r == Err::<Vec<Remote>, RemoteError>(
            RemoteError::PatternRejected,
        ),
        regex_accepts(REMOTE_LINE@) ==> {
            let listed = listed_remotes(capture_groups_of(REMOTE_LINE@, listing@));
            &&& listed.len() == 0 ==> r == Err::<Vec<Remote>, RemoteError>(RemoteError::NoRemotes)
            &&& listed.len() > 0 ==> (r matches Ok(v) && v@.map_values(
                |x: Remote| remote_view(x),
            ) == listed)
        },
{
    match capture_groups(REMOTE_LINE, listing) {
        Some(found) => distinct_remotes(found),
        None => Err(RemoteError::PatternRejected),
    }
}

/// The remote named `target`; the first one of that name when several are.
pub fn find_remote(remotes: Vec<Remote>, target: &str) -> (r: Result<Remote, RemoteError>)
    ensures
        match r {
            Ok(found) => exists|i: int|
                0 <= i < remotes@.len() && remotes@[i] == found && found.name@ == target@ && forall|
                    j: int,
                | 0 <= j < i ==> (#[trigger] remotes@[j]).name@ != target@,
            Err(e) => e matches RemoteError::NotFound(name) && name@ == target@ && forall|j: int|
                0 <= j < remotes@.len() ==> (#[trigger] remotes@[j]).name@ != target@,
        },
{
    let ghost all = remotes@;
    let mut rest = remotes;
    let wanted = target.to_owned();
    let default_remote = match rest.pop() {
        Some(last) => last,
        None => {
            return Err(RemoteError::NotFound(wanted));
        },
    };
    let mut i: usize = 0;
    while i < rest.len()
        invariant
            i <= rest.len(),
            all == remotes@,
            all.len() > 0,
            rest@ == all.drop_last(),
            wanted@ == target@,
            forall|j: int| 0 <= j < i ==> (#[trigger] all[j]).name@ != target@,
        decreases rest.len() - i,
    {
        if rest[i].name == wanted {
            let found = rest.swap_remove(i);
            assert(all[i as int] == found);
            return Ok(found);
        }
        i += 1;
    }
    if default_remote.name == wanted {
        assert(all[all.len() - 1] == default_remote);
        Ok(default_remote)
    } else {
        Err(RemoteError::NotFound(wanted))
    }
}

} // verus!
