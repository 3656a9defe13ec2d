//! Routing a task URL to the adapter that owns its host.
//!
//! Every host belongs to at most one adapter. A `Registry` keeps that true of
//! whatever is registered with it, so that a dispatch never has to choose.

use vstd::prelude::*;
use crate::error::{Error, ErrorView};
use crate::spoj::{path_view, task_of, SPOJ};
use crate::text::{has_prefix, is_split_at_slashes, same_text, split_at_slashes, strip_prefix};

verus! {

/// The adapters that this library holds.
#[derive(Clone, Copy, Debug, PartialEq, Eq, Structural)]
pub enum Backend {
    Spoj,
}

/// A task URL taken apart: `<site>/<contest>/<task>`, with or without `http://` or
/// `https://` in front.
#[derive(Clone, Debug, PartialEq, Eq)]
pub struct TaskUrl {
    pub site: String,
    pub contest: String,
    pub task: String,
}

pub struct TaskUrlView {
    pub site: Seq<char>,
    pub contest: Seq<char>,
    pub task: Seq<char>,
}

impl View for TaskUrl {
    type V = TaskUrlView;

    open spec fn view(&self) -> TaskUrlView {
        TaskUrlView { site: self.site@, contest: self.contest@, task: self.task@ }
    }
}

impl DeepView for TaskUrl {
    type V = TaskUrlView;

    open spec fn deep_view(&self) -> TaskUrlView {
        self@
    }
}

/// An address without the scheme in front of it, where it has one.
pub open spec fn without_scheme(address: Seq<char>) -> Seq<char> {
    if has_prefix(address, "https://"@) {
        address.skip("https://"@.len() as int)
    } else if has_prefix(address, "http://"@) {
        address.skip("http://"@.len() as int)
    } else {
        address
    }
}

/// The task URL that three pieces stand for.
pub open spec fn task_url_of(pieces: Seq<Seq<char>>) -> Option<TaskUrlView> {
    if pieces.len() == 3 {
        Some(TaskUrlView { site: pieces[0], contest: pieces[1], task: pieces[2] })
    } else {
        None
    }
}

impl TaskUrl {
    /// Takes a task URL of the shape `<site>/<contest>/<task>` apart, after the
    /// scheme in front of it, if it has one. An address with fewer or more than
    /// three pieces is refused as `WrongTaskUrl`.
    pub fn deconstruct(address: &str) -> (url: Result<TaskUrl, Error>)
        ensures
            match url {
                Ok(parsed) => exists|pieces: Seq<Seq<char>>|
                    is_split_at_slashes(without_scheme(address@), pieces) && task_url_of(pieces)
                        == Some(parsed@),
                Err(error) => error@ == ErrorView::WrongTaskUrl && exists|pieces: Seq<Seq<char>>|
                    is_split_at_slashes(without_scheme(address@), pieces) && task_url_of(pieces)
                        is None,
            },
    {
        let wire = match strip_prefix(address, "https://") {
            Some(rest) => rest,
            None => match strip_prefix(address, "http://") {
                Some(rest) => rest,
                None => address,
            },
        };
        assert(wire@ == without_scheme(address@));
        let mut pieces = split_at_slashes(wire);
        let ghost all = pieces.deep_view();
        if pieces.len() != 3 {
            assert(task_url_of(all) is None);
            return Err(Error::WrongTaskUrl);
        }
        let task = pieces.pop().unwrap();
        let contest = pieces.pop().unwrap();
        let site = pieces.pop().unwrap();
        let parsed = TaskUrl { site, contest, task };
        assert(task_url_of(all) == Some(parsed@));
        Ok(parsed)
    }
}

/// One adapter with the hosts that it owns.
#[derive(Clone, Debug, PartialEq, Eq)]
pub struct Registration {
    pub backend: Backend,
    pub domains: Vec<String>,
}

pub struct RegistrationView {
    pub backend: Backend,
    pub domains: Seq<Seq<char>>,
}

impl View for Registration {
    type V = RegistrationView;

    open spec fn view(&self) -> RegistrationView {
        RegistrationView { backend: self.backend, domains: self.domains.deep_view() }
    }
}

impl DeepView for Registration {
    type V = RegistrationView;

    open spec fn deep_view(&self) -> RegistrationView {
        self@
    }
}

impl RegistrationView {
    /// Whether the adapter owns `host`.
    pub open spec fn accepts(self, host: Seq<char>) -> bool {
        self.domains.contains(host)
    }
}

/// No host is owned by two of the registrations.
pub open spec fn pairwise_disjoint(entries: Seq<RegistrationView>) -> bool {
    forall|i: int, j: int, host: Seq<char>|
        0 <= i < j < entries.len() ==> !(#[trigger] entries[i].accepts(host)
            && #[trigger] entries[j].accepts(host))
}

/// Whether some registration owns `host`.
pub open spec fn recognized(entries: Seq<RegistrationView>, host: Seq<char>) -> bool {
    exists|i: int| 0 <= i < entries.len() && (#[trigger] entries[i]).accepts(host)
}

/// Where the domain sets are pairwise disjoint, a host has one owner at most.
pub proof fn lemma_one_owner(entries: Seq<RegistrationView>, i: int, j: int, host: Seq<char>)
    requires
        pairwise_disjoint(entries),
        0 <= i < entries.len(),
        0 <= j < entries.len(),
        entries[i].accepts(host),
        entries[j].accepts(host),
    ensures
        i == j,
{
    if i < j {
        assert(!(entries[i].accepts(host) && entries[j].accepts(host)));
    } else if j < i {
        assert(!(entries[j].accepts(host) && entries[i].accepts(host)));
    }
}

impl Backend {
    /// The hosts that the adapter owns.
    pub open spec fn domains(self) -> Seq<Seq<char>> {
        match self {
            Backend::Spoj => seq![crate::spoj::spoj_host()],
        }
    }
}

/// No host is owned by two of the adapters that this library holds.
pub proof fn lemma_backends_disjoint(a: Backend, b: Backend, host: Seq<char>)
    ensures
        a != b ==> !(a.domains().contains(host) && b.domains().contains(host)),
{
}

/// The path that a task URL hands to its adapter: the contest, then the task.
pub open spec fn path_of(url: TaskUrlView) -> Seq<Seq<char>> {
    seq![url.contest, url.task]
}

/// The task that `backend` reads out of a path.
pub open spec fn backend_task(backend: Backend, path: Seq<Seq<char>>) -> Option<Seq<char>> {
    match backend {
        Backend::Spoj => task_of(path),
    }
}

/// Whether `domains` holds `host`.
fn holds(domains: &Vec<String>, host: &str) -> (found: bool)
    ensures
        found == domains.deep_view().contains(host@),
{
    let mut i: usize = 0;
    while i < domains.len()
        invariant
            i <= domains.len(),
            forall|j: int| 0 <= j < i ==> domains.deep_view()[j] != host@,
        decreases domains.len() - i,
    {
        assert(domains.deep_view()[i as int] == domains@[i as int]@);
        if same_text(domains[i].as_str(), host) {
            return true;
        }
        i = i + 1;
    }
    false
}

impl Backend {
    /// The hosts that the adapter owns.
    pub fn accepted_domains(&self) -> (domains: Vec<String>)
        ensures
            domains.deep_view() == self.domains(),
    {
        match self {
            Backend::Spoj => {
                let names = SPOJ.accepted_domains();
                let mut domains: Vec<String> = Vec::new();
                domains.push(names[0].to_owned());
                assert(domains.deep_view() =~= seq![crate::spoj::spoj_host()]);
                domains
            },
        }
    }

    /// The task that the adapter reads out of a task URL's path, given as the
    /// contest and the task of the URL. A path that the adapter does not accept is
    /// refused as `WrongTaskUrl`.
    pub fn deconstruct_task(&self, url: &TaskUrl) -> (task: Result<String, Error>)
        ensures
            match task {
                Ok(symbol) => backend_task(*self, path_of(url@)) == Some(symbol@),
                Err(error) => backend_task(*self, path_of(url@)) is None && error@
                    == ErrorView::WrongTaskUrl,
            },
    {
        match self {
            Backend::Spoj => {
                let path = [url.contest.as_str(), url.task.as_str()];
                assert(path_view(path@) =~= path_of(url@));
                SPOJ.deconstruct_task(url.site.as_str(), path.as_slice())
            },
        }
    }
}

/// The adapters known to a caller, each with its hosts.
#[derive(Debug)]
pub struct Registry {
    entries: Vec<Registration>,
}

impl View for Registry {
    type V = Seq<RegistrationView>;

    closed spec fn view(&self) -> Seq<RegistrationView> {
        self.entries.deep_view()
    }
}

impl Registry {
    #[verifier::type_invariant]
    spec fn domains_are_disjoint(self) -> bool {
        pairwise_disjoint(self.entries.deep_view())
    }

    /// A registry without adapters.
    pub fn new() -> (registry: Registry)
        ensures
            registry@ == Seq::<RegistrationView>::empty(),
            pairwise_disjoint(registry@),
    {
        let registry = Registry { entries: Vec::new() };
        assert(registry.entries.deep_view() =~= Seq::<RegistrationView>::empty());
        registry
    }

    /// The registry of the adapters that this library holds.
    pub fn standard() -> (registry: Registry)
        ensures
            registry@ == seq![
                RegistrationView { backend: Backend::Spoj, domains: Backend::Spoj.domains() },
            ],
            pairwise_disjoint(registry@),
    {
        let mut entries: Vec<Registration> = Vec::new();
        entries.push(
            Registration { backend: Backend::Spoj, domains: Backend::Spoj.accepted_domains() },
        );
        assert(entries.deep_view() =~= seq![
            RegistrationView { backend: Backend::Spoj, domains: Backend::Spoj.domains() },
        ]);
        Registry { entries }
    }

    /// Whether some registered adapter owns one of `domains`.
    fn overlaps(&self, domains: &Vec<String>) -> (taken: bool)
        ensures
            taken == exists|k: int|
                0 <= k < domains.deep_view().len() && recognized(
                    self@,
                    #[trigger] domains.deep_view()[k],
                ),
    {
        let mut k: usize = 0;
        while k < domains.len()
            invariant
                k <= domains.len(),
                forall|m: int| 0 <= m < k ==> !recognized(self@, #[trigger] domains.deep_view()[m]),
            decreases domains.len() - k,
        {
            assert(domains.deep_view()[k as int] == domains@[k as int]@);
            if self.owner(domains[k].as_str()).is_some() {
                return true;
            }
            k = k + 1;
        }
        false
    }

    /// Where the adapter that owns `host` stands, if there is one.
    fn owner(&self, host: &str) -> (at: Option<usize>)
        ensures
            match at {
                Some(i) => i < self@.len() && self@[i as int].accepts(host@),
                None => !recognized(self@, host@),
            },
    {
        let mut i: usize = 0;
        while i < self.entries.len()
            invariant
                i <= self.entries.len(),
                forall|j: int| 0 <= j < i ==> !(#[trigger] self@[j]).accepts(host@),
            decreases self.entries.len() - i,
        {
            assert(self@[i as int] == self.entries@[i as int]@);
            if holds(&self.entries[i].domains, host) {
                return Some(i);
            }
            i = i + 1;
        }
        None
    }

    /// Adds an adapter with its hosts. Where one of the hosts already has an owner,
    /// nothing is added and the result is `false`: two adapters for one host would
    /// be a fault in the configuration, not a choice for a dispatch to make.
    pub fn register(&mut self, backend: Backend, domains: Vec<String>) -> (added: bool)
        ensures
            pairwise_disjoint(final(self)@),
            added == !(exists|k: int|
                0 <= k < domains.deep_view().len() && recognized(
                    old(self)@,
                    #[trigger] domains.deep_view()[k],
                )),
            added ==> final(self)@ == old(self)@.push(
                RegistrationView { backend, domains: domains.deep_view() },
            ),
            !added ==> final(self)@ == old(self)@,
    {
        proof {
            use_type_invariant(&*self);
        }
        if self.overlaps(&domains) {
            return false;
        }
        let ghost before = self.entries.deep_view();
        let ghost added_view = RegistrationView { backend, domains: domains.deep_view() };
        let mut entries: Vec<Registration> = Vec::new();
        core::mem::swap(&mut self.entries, &mut entries);
        entries.push(Registration { backend, domains });
        proof {
            let after = entries.deep_view();
            assert(after =~= before.push(added_view));
            assert forall|i: int, j: int, host: Seq<char>| 0 <= i < j < after.len() implies !(
            #[trigger] after[i].accepts(host) && #[trigger] after[j].accepts(host)) by {
                if j < before.len() {
                    assert(!(before[i].accepts(host) && before[j].accepts(host)));
                } else if after[j].accepts(host) && after[i].accepts(host) {
                    let k = choose|k: int|
                        0 <= k < added_view.domains.len() && added_view.domains[k] == host;
                    assert(before[i].accepts(host));
                    assert(recognized(before, added_view.domains[k]));
                }
            }
        }
        self.entries = entries;
        true
    }

    /// The adapter that owns `host`. A host that no adapter owns is refused as
    /// `UnrecognizedSite`. No host has two owners, so the result never depends on
    /// the order in which the adapters were registered.
    pub fn dispatch(&self, host: &str) -> (backend: Result<Backend, Error>)
        ensures
            pairwise_disjoint(self@),
            match backend {
                Ok(found) => exists|i: int|
                    {
                        &&& 0 <= i < self@.len()
                        &&& (#[trigger] self@[i]).accepts(host@)
                        &&& self@[i].backend == found
                        &&& forall|j: int|
                            0 <= j < self@.len() && (#[trigger] self@[j]).accepts(host@) ==> j
                                == i
                    },
                Err(error) => !recognized(self@, host@) && error@ == ErrorView::UnrecognizedSite,
            },
    {
        proof {
            use_type_invariant(self);
        }
        match self.owner(host) {
            Some(i) => {
                proof {
                    assert forall|j: int|
                        0 <= j < self@.len() && (#[trigger] self@[j]).accepts(host@) implies j
                        == i by {
                        lemma_one_owner(self@, i as int, j, host@);
                    }
                    assert(self@[i as int] == self.entries@[i as int]@);
                }
                Ok(self.entries[i].backend)
            },
            None => Err(Error::UnrecognizedSite),
        }
    }

    /// The adapter and the task that a task URL names: the adapter that owns the
    /// URL's site, and the task that this adapter reads out of the URL's path.
    pub fn resolve(&self, url: &TaskUrl) -> (target: Result<(Backend, String), Error>)
        ensures
            match target {
                Ok((backend, task)) => {
                    &&& exists|i: int|
                        0 <= i < self@.len() && (#[trigger] self@[i]).accepts(url@.site)
                            && self@[i].backend == backend
                    &&& backend_task(backend, path_of(url@)) == Some(task@)
                },
                Err(error) => {
                    ||| (!recognized(self@, url@.site) && error@ == ErrorView::UnrecognizedSite)
                    ||| (exists|i: int|
                        0 <= i < self@.len() && (#[trigger] self@[i]).accepts(url@.site)
                            && backend_task(self@[i].backend, path_of(url@)) is None) && error@
                        == ErrorView::WrongTaskUrl
                },
            },
    {
        let backend = match self.dispatch(url.site.as_str()) {
            Ok(backend) => backend,
            Err(error) => {
                return Err(error);
            },
        };
        match backend.deconstruct_task(url) {
            Ok(task) => Ok((backend, task)),
            Err(error) => Err(error),
        }
    }
}

} // verus!
