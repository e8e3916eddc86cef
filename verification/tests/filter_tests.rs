use repo_migrate::filter::repo_accepted;
use repo_migrate::model::{RepositoryDescriptor, RunFilter};
use repo_migrate::Visibility;

fn repo(owner: &str, visibility: Visibility, is_fork: bool) -> RepositoryDescriptor {
    RepositoryDescriptor {
        name: String::from("repo1"),
        owner: String::from(owner),
        visibility,
        is_fork,
    }
}

fn public_only() -> RunFilter {
    RunFilter { include_public: true, include_private: false, any_owner: false, include_forks: false }
}

fn private_only() -> RunFilter {
    RunFilter { include_public: false, include_private: true, any_owner: false, include_forks: false }
}

fn both() -> RunFilter {
    RunFilter { include_public: true, include_private: true, any_owner: false, include_forks: false }
}

fn all() -> RunFilter {
    RunFilter { include_public: true, include_private: true, any_owner: true, include_forks: false }
}

#[test]
fn public_only_accepts_own_public_repo() {
    let user = String::from("alice");
    assert!(repo_accepted(&public_only(), &repo("alice", Visibility::Public, false), &user));
}

#[test]
fn public_only_rejects_private_repo() {
    let user = String::from("alice");
    assert!(!repo_accepted(&public_only(), &repo("alice", Visibility::Private, false), &user));
}

#[test]
fn public_only_rejects_other_owner() {
    let user = String::from("alice");
    assert!(!repo_accepted(&public_only(), &repo("bob", Visibility::Public, false), &user));
}

#[test]
fn private_only_accepts_own_private_repo_only() {
    let user = String::from("alice");
    assert!(repo_accepted(&private_only(), &repo("alice", Visibility::Private, false), &user));
    assert!(!repo_accepted(&private_only(), &repo("alice", Visibility::Public, false), &user));
    assert!(!repo_accepted(&private_only(), &repo("bob", Visibility::Private, false), &user));
}

#[test]
fn both_accepts_both_visibilities_for_owner_only() {
    let user = String::from("alice");
    assert!(repo_accepted(&both(), &repo("alice", Visibility::Public, false), &user));
    assert!(repo_accepted(&both(), &repo("alice", Visibility::Private, false), &user));
    assert!(!repo_accepted(&both(), &repo("bob", Visibility::Public, false), &user));
    assert!(!repo_accepted(&both(), &repo("bob", Visibility::Private, false), &user));
}

#[test]
fn any_owner_accepts_any_owner_and_visibility() {
    let user = String::from("alice");
    assert!(repo_accepted(&all(), &repo("bob", Visibility::Public, false), &user));
    assert!(repo_accepted(&all(), &repo("bob", Visibility::Private, false), &user));
    assert!(repo_accepted(&all(), &repo("alice", Visibility::Private, false), &user));
}

#[test]
fn forks_rejected_unless_requested() {
    let user = String::from("alice");
    assert!(!repo_accepted(&all(), &repo("bob", Visibility::Public, true), &user));
    assert!(!repo_accepted(&public_only(), &repo("alice", Visibility::Public, true), &user));
    let mut with_forks = all();
    with_forks.include_forks = true;
    assert!(repo_accepted(&with_forks, &repo("bob", Visibility::Public, true), &user));
    let mut public_forks = public_only();
    public_forks.include_forks = true;
    assert!(repo_accepted(&public_forks, &repo("alice", Visibility::Public, true), &user));
}
