//! The token state of a session: the cookies that identify a logged-in user.
//!
//! A `Session` is owned by one caller. The transport that carries the cookies
//! lives outside this library; what the adapters decide from them is decided here.

use vstd::prelude::*;
use crate::text::same_text;

verus! {

/// One cookie as an adapter reads it.
#[derive(Clone, Debug, PartialEq, Eq)]
pub struct Cookie {
    pub domain: String,
    pub path: String,
    pub name: String,
    pub value: String,
}

pub struct CookieView {
    pub domain: Seq<char>,
    pub path: Seq<char>,
    pub name: Seq<char>,
    pub value: Seq<char>,
}

/// What identifies a cookie within a session: its domain, its path and its name.
pub type CookieKey = (Seq<char>, Seq<char>, Seq<char>);

impl CookieView {
    pub open spec fn key(self) -> CookieKey {
        (self.domain, self.path, self.name)
    }
}

impl View for Cookie {
    type V = CookieView;

    open spec fn view(&self) -> CookieView {
        CookieView { domain: self.domain@, path: self.path@, name: self.name@, value: self.value@ }
    }
}

impl DeepView for Cookie {
    type V = CookieView;

    open spec fn deep_view(&self) -> CookieView {
        self@
    }
}

impl Cookie {
    /// A copy of this cookie with the same content.
    pub fn duplicate(&self) -> (copy: Cookie)
        ensures
            copy@ == self@,
    {
        Cookie {
            domain: self.domain.clone(),
            path: self.path.clone(),
            name: self.name.clone(),
            value: self.value.clone(),
        }
    }
}

/// The cookies of one session. No two of them share domain, path and name.
#[derive(Debug)]
pub struct Session {
    cookies: Vec<Cookie>,
}

/// Whether the cookie at `i` has the key `key`.
spec fn holds_at(cookies: Seq<Cookie>, i: int, key: CookieKey) -> bool {
    0 <= i < cookies.len() && cookies[i]@.key() == key
}

spec fn distinct_keys(cookies: Seq<Cookie>) -> bool {
    forall|i: int, j: int|
        0 <= i < j < cookies.len() ==> cookies[i]@.key() != cookies[j]@.key()
}

/// The cookies as a map from key to value.
spec fn jar_of(cookies: Seq<Cookie>) -> Map<CookieKey, Seq<char>> {
    Map::new(
        |key: CookieKey| exists|i: int| holds_at(cookies, i, key),
        |key: CookieKey| cookies[choose|i: int| holds_at(cookies, i, key)]@.value,
    )
}

proof fn lemma_jar_at(cookies: Seq<Cookie>, i: int)
    requires
        distinct_keys(cookies),
        0 <= i < cookies.len(),
    ensures
        jar_of(cookies).contains_key(cookies[i]@.key()),
        jar_of(cookies)[cookies[i]@.key()] == cookies[i]@.value,
{
    let key = cookies[i]@.key();
    assert(holds_at(cookies, i, key));
    let c = choose|c: int| holds_at(cookies, c, key);
    assert(holds_at(cookies, c, key));
    if c < i {
        assert(cookies[c]@.key() != cookies[i]@.key());
    } else if i < c {
        assert(cookies[i]@.key() != cookies[c]@.key());
    }
}

/// A session with distinct keys holds as many entries as it has cookies.
proof fn lemma_jar_size(cookies: Seq<Cookie>)
    requires
        distinct_keys(cookies),
    ensures
        jar_of(cookies).dom().finite(),
        jar_of(cookies).dom().len() == cookies.len(),
    decreases cookies.len(),
{
    if cookies.len() == 0 {
        assert(jar_of(cookies).dom() =~= Set::<CookieKey>::empty());
    } else {
        let front = cookies.drop_last();
        let last = cookies.last()@.key();
        assert(distinct_keys(front)) by {
            assert forall|i: int, j: int| 0 <= i < j < front.len() implies front[i]@.key()
                != front[j]@.key() by {
                assert(cookies[i]@.key() != cookies[j]@.key());
            }
        }
        lemma_jar_size(front);
        assert(!jar_of(front).dom().contains(last)) by {
            if jar_of(front).dom().contains(last) {
                let i = choose|i: int| holds_at(front, i, last);
                assert(cookies[i]@.key() != cookies[cookies.len() - 1]@.key());
            }
        }
        assert(jar_of(cookies).dom() =~= jar_of(front).dom().insert(last)) by {
            assert forall|k: CookieKey| jar_of(cookies).dom().contains(k) <==> jar_of(
                front,
            ).dom().insert(last).contains(k) by {
                if jar_of(cookies).dom().contains(k) {
                    let i = choose|i: int| holds_at(cookies, i, k);
                    if i < front.len() {
                        assert(holds_at(front, i, k));
                    }
                }
                if jar_of(front).dom().contains(k) {
                    let i = choose|i: int| holds_at(front, i, k);
                    assert(holds_at(cookies, i, k));
                }
                assert(holds_at(cookies, cookies.len() - 1, last));
            }
        }
    }
}

impl View for Session {
    type V = Map<CookieKey, Seq<char>>;

    /// The session as a map from each cookie's key to its value.
    closed spec fn view(&self) -> Map<CookieKey, Seq<char>> {
        jar_of(self.cookies@)
    }
}

impl Session {
    #[verifier::type_invariant]
    spec fn keys_are_distinct(self) -> bool {
        distinct_keys(self.cookies@)
    }

    /// A session without cookies.
    pub fn new() -> (session: Session)
        ensures
            session@ == Map::<CookieKey, Seq<char>>::empty(),
    {
        let session = Session { cookies: Vec::new() };
        assert(session@ =~= Map::<CookieKey, Seq<char>>::empty());
        session
    }

    /// How many cookies the session holds: one for each key.
    pub fn len(&self) -> (count: usize)
        ensures
            self@.dom().finite(),
            count == self@.dom().len(),
    {
        proof {
            use_type_invariant(self);
            lemma_jar_size(self.cookies@);
        }
        self.cookies.len()
    }

    /// All cookies of the session, each once.
    pub fn cookies(&self) -> (all: Vec<Cookie>)
        ensures
            all@.len() == self@.dom().len(),
            forall|i: int|
                0 <= i < all@.len() ==> self@.contains_key((#[trigger] all@[i])@.key())
                    && self@[all@[i]@.key()] == all@[i]@.value,
            forall|key: CookieKey|
                self@.contains_key(key) ==> exists|i: int|
                    0 <= i < all@.len() && (#[trigger] all@[i])@.key() == key,
    {
        proof {
            use_type_invariant(self);
            lemma_jar_size(self.cookies@);
        }
        let mut all: Vec<Cookie> = Vec::new();
        let mut i: usize = 0;
        while i < self.cookies.len()
            invariant
                i <= self.cookies.len(),
                all@.len() == i,
                forall|j: int| 0 <= j < i ==> (#[trigger] all@[j])@ == self.cookies@[j]@,
            decreases self.cookies.len() - i,
        {
            all.push(self.cookies[i].duplicate());
            i = i + 1;
        }
        proof {
            assert forall|j: int| 0 <= j < all@.len() implies self@.contains_key(
                (#[trigger] all@[j])@.key(),
            ) && self@[all@[j]@.key()] == all@[j]@.value by {
                lemma_jar_at(self.cookies@, j);
            }
            assert forall|key: CookieKey| self@.contains_key(key) implies exists|j: int|
                0 <= j < all@.len() && (#[trigger] all@[j])@.key() == key by {
                let j = choose|j: int| holds_at(self.cookies@, j, key);
                assert(all@[j]@.key() == key);
            }
        }
        all
    }

    /// Where the cookie with the given key stands, if the session has it.
    fn position(&self, domain: &str, path: &str, name: &str) -> (at: Option<usize>)
        ensures
            match at {
                Some(i) => holds_at(self.cookies@, i as int, (domain@, path@, name@)),
                None => forall|i: int| !holds_at(self.cookies@, i, (domain@, path@, name@)),
            },
    {
        let mut i: usize = 0;
        while i < self.cookies.len()
            invariant
                i <= self.cookies.len(),
                forall|j: int| 0 <= j < i ==> !holds_at(self.cookies@, j, (domain@, path@, name@)),
            decreases self.cookies.len() - i,
        {
            let cookie = &self.cookies[i];
            if same_text(cookie.domain.as_str(), domain) && same_text(cookie.path.as_str(), path)
                && same_text(cookie.name.as_str(), name) {
                return Some(i);
            }
            i = i + 1;
        }
        None
    }

    /// The cookie with the given domain, path and name, if the session has one.
    pub fn get(&self, domain: &str, path: &str, name: &str) -> (found: Option<&Cookie>)
        ensures
            match found {
                Some(cookie) => {
                    &&& self@.contains_key((domain@, path@, name@))
                    &&& cookie@ == (CookieView {
                        domain: domain@,
                        path: path@,
                        name: name@,
                        value: self@[(domain@, path@, name@)],
                    })
                },
                None => !self@.contains_key((domain@, path@, name@)),
            },
    {
        proof {
            use_type_invariant(self);
        }
        match self.position(domain, path, name) {
            Some(i) => {
                proof {
                    lemma_jar_at(self.cookies@, i as int);
                }
                Some(&self.cookies[i])
            },
            None => None,
        }
    }

    /// Puts a cookie into the session. A cookie with the same domain, path and name
    /// is replaced, so that the session never holds two for one key.
    pub fn insert(&mut self, cookie: Cookie)
        ensures
            final(self)@ == old(self)@.insert(cookie@.key(), cookie@.value),
    {
        proof {
            use_type_invariant(&*self);
        }
        let ghost before = self.cookies@;
        let ghost key = cookie@.key();
        let ghost value = cookie@.value;
        let at = self.position(cookie.domain.as_str(), cookie.path.as_str(), cookie.name.as_str());
        let ghost slot: int = match at {
            Some(i) => i as int,
            None => before.len() as int,
        };
        let mut cookies: Vec<Cookie> = Vec::new();
        core::mem::swap(&mut self.cookies, &mut cookies);
        match at {
            Some(i) => {
                cookies.set(i, cookie);
            },
            None => {
                cookies.push(cookie);
            },
        }
        proof {
            let after = cookies@;
            assert(holds_at(after, slot, key));
            assert forall|a: int, b: int| 0 <= a < b < after.len() implies after[a]@.key()
                != after[b]@.key() by {
                if at is Some || (a != slot && b != slot) {
                    assert(before[a]@.key() != before[b]@.key());
                } else {
                    assert(!holds_at(before, a, key));
                }
            }
            assert(jar_of(after) =~= jar_of(before).insert(key, value)) by {
                assert forall|k: CookieKey| #[trigger]
                    jar_of(after).contains_key(k) <==> jar_of(before).insert(
                        key,
                        value,
                    ).contains_key(k) by {
                    if jar_of(after).contains_key(k) {
                        let a = choose|a: int| holds_at(after, a, k);
                        if a != slot {
                            assert(holds_at(before, a, k));
                        }
                    }
                    if jar_of(before).contains_key(k) {
                        let b = choose|b: int| holds_at(before, b, k);
                        assert(holds_at(after, b, k));
                    }
                }
                assert forall|k: CookieKey| #[trigger] jar_of(after).contains_key(k) implies jar_of(
                    after,
                )[k] == jar_of(before).insert(key, value)[k] by {
                    let a = choose|a: int| holds_at(after, a, k);
                    lemma_jar_at(after, a);
                    if k != key {
                        assert(holds_at(before, a, k));
                        lemma_jar_at(before, a);
                    } else {
                        lemma_jar_at(after, slot);
                    }
                }
            }
        }
        self.cookies = cookies;
    }
}

} // verus!
