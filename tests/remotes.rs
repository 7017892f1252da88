use marge::remote::{distinct_remotes, find_remote, remotes_from_listing, Remote, RemoteError};

fn remote(name: &str, owner: &str, repo: &str) -> Remote {
    Remote { name: name.to_string(), owner: owner.to_string(), repo: repo.to_string() }
}

fn triple(name: &str, owner: &str, repo: &str) -> (Option<String>, Option<String>, Option<String>) {
    (Some(name.to_string()), Some(owner.to_string()), Some(repo.to_string()))
}

const LISTING: &str = "origin\tgit@github.com:octo/hello-world.git (fetch)\n\
origin\tgit@github.com:octo/hello-world.git (push)\n\
upstream\thttps://github.com/some_one/hello_world2.git (fetch)\n\
upstream\thttps://github.com/some_one/hello_world2.git (push)\n\
local\t/tmp/mirror (fetch)\n\
local\t/tmp/mirror (push)\n";

#[test]
fn listing_yields_each_github_remote_once() {
    let remotes = remotes_from_listing(LISTING).unwrap();
    assert_eq!(remotes.len(), 2);
    assert_eq!(remotes[0].name, "origin");
    assert_eq!(remotes[0].owner, "octo");
    assert_eq!(remotes[0].repo, "hello-world");
    assert_eq!(remotes[1].name, "upstream");
    assert_eq!(remotes[1].owner, "some_one");
    assert_eq!(remotes[1].repo, "hello_world2");
}

#[test]
fn listing_without_github_remotes_is_an_error() {
    assert_eq!(remotes_from_listing(""), Err(RemoteError::NoRemotes));
    assert_eq!(
        remotes_from_listing("local\t/tmp/mirror (fetch)\nlocal\t/tmp/mirror (push)\n"),
        Err(RemoteError::NoRemotes)
    );
}

#[test]
fn first_entry_of_each_name_is_kept() {
    let found = vec![
        triple("origin", "a", "one"),
        triple("fork", "b", "two"),
        triple("origin", "c", "three"),
        (Some("broken".to_string()), None, Some("x".to_string())),
    ];
    let remotes = distinct_remotes(found).unwrap();
    assert_eq!(remotes.len(), 2);
    assert_eq!(remotes[0].owner, "a");
    assert_eq!(remotes[1].name, "fork");
}

#[test]
fn incomplete_matches_name_no_remote() {
    let found = vec![(None, Some("a".to_string()), Some("b".to_string()))];
    assert_eq!(distinct_remotes(found), Err(RemoteError::NoRemotes));
    assert_eq!(distinct_remotes(vec![]), Err(RemoteError::NoRemotes));
}

#[test]
fn remotes_are_equal_by_name() {
    assert_eq!(remote("origin", "a", "b"), remote("origin", "c", "d"));
    assert_ne!(remote("origin", "a", "b"), remote("fork", "a", "b"));
}

#[test]
fn find_remote_picks_the_named_one() {
    let remotes = vec![remote("origin", "a", "one"), remote("fork", "b", "two"), remote("up", "c", "three")];
    let found = find_remote(remotes, "fork").unwrap();
    assert_eq!(found.owner, "b");
    let remotes = vec![remote("origin", "a", "one"), remote("fork", "b", "two")];
    let found = find_remote(remotes, "fork").unwrap();
    assert_eq!(found.repo, "two");
    let remotes = vec![remote("origin", "a", "one")];
    assert_eq!(find_remote(remotes, "origin").unwrap().owner, "a");
}

#[test]
fn find_remote_prefers_the_first_of_a_name() {
    let remotes = vec![remote("origin", "first", "one"), remote("origin", "second", "two")];
    assert_eq!(find_remote(remotes, "origin").unwrap().owner, "first");
}

#[test]
fn find_remote_in_an_empty_list_finds_nothing() {
    assert_eq!(find_remote(vec![], "origin"), Err(RemoteError::NotFound("origin".to_string())));
}

#[test]
fn find_remote_reports_a_missing_name() {
    let remotes = vec![remote("origin", "a", "one"), remote("fork", "b", "two")];
    assert_eq!(find_remote(remotes, "upstream"), Err(RemoteError::NotFound("upstream".to_string())));
}
