//! The snapshot of backend responses a resolution runs against.
//!
//! Each backend (the configuration store and the secrets store) is
//! modelled as a map from request key to what the backend answered: either
//! "not found" or a decoded document. The resolution engine asks for keys
//! one at a time; the driver performs the fetch and records the answer
//! here, so the engine itself is a pure function of this snapshot.
use crate::smap::SMap;
use vstd::prelude::*;

verus! {

/// A version pointer document: selects which immutable configuration
/// snapshot of a namespace to read.
pub struct Version {
    pub version: u64,
}

/// A decoded backend document, in one of the shapes the engine requests.
pub enum Doc {
    /// A flat string-to-string map (a configuration snapshot).
    Table(SMap<String>),
    /// A list of strings (a dependency list).
    List(Vec<String>),
    /// A raw string (a service URL).
    Text(String),
    /// A version pointer.
    Pointer(Version),
}

/// The mathematical shape of a document.
pub ghost enum DocView {
    Table(Map<Seq<char>, Seq<char>>),
    List(Seq<Seq<char>>),
    Text(Seq<char>),
    Pointer(u64),
}

impl View for Doc {
    type V = DocView;

    open spec fn view(&self) -> DocView {
        match self {
            Doc::Table(m) => DocView::Table(m@),
            Doc::List(v) => DocView::List(v.deep_view()),
            Doc::Text(s) => DocView::Text(s@),
            Doc::Pointer(v) => DocView::Pointer(v.version),
        }
    }
}

pub open spec fn doc_wf(d: &Doc) -> bool {
    match d {
        Doc::Table(m) => m.wf(),
        _ => true,
    }
}

/// What a backend answered for one key: "not found", or a document.
pub enum Fetched {
    Absent,
    Present(Doc),
}

impl View for Fetched {
    type V = Option<DocView>;

    open spec fn view(&self) -> Option<DocView> {
        match self {
            Fetched::Absent => None,
            Fetched::Present(d) => Some(d@),
        }
    }
}

pub open spec fn fetched_wf(f: &Fetched) -> bool {
    match f {
        Fetched::Absent => true,
        Fetched::Present(d) => doc_wf(d),
    }
}

/// The recorded answers of one backend, keyed by request key. A key that
/// was never asked is distinct from a key the backend reported as absent.
pub struct Store {
    pub docs: SMap<Fetched>,
}

impl View for Store {
    type V = Map<Seq<char>, Option<DocView>>;

    open spec fn view(&self) -> Map<Seq<char>, Option<DocView>> {
        self.docs@
    }
}

impl Store {
    pub open spec fn wf(&self) -> bool {
        self.docs.wf() && forall|i: int|
            0 <= i < self.docs.pairs@.len() ==> fetched_wf(&self.docs.pairs@[i].1)
    }

    pub fn new() -> (r: Store)
        ensures
            r.wf(),
            r@ == Map::<Seq<char>, Option<DocView>>::empty(),
    {
        Store { docs: SMap::new() }
    }

    /// The recorded answer for a key, if that key was ever asked.
    pub fn get(&self, key: &str) -> (r: Option<&Fetched>)
        requires
            self.wf(),
        ensures
            match r {
                Some(f) => self@.contains_key(key@) && f@ == self@[key@] && fetched_wf(f),
                None => !self@.contains_key(key@),
            },
    {
        self.docs.get(key)
    }

    /// Records what the backend answered for a key.
    pub fn record(&mut self, key: String, value: Fetched)
        requires
            old(self).wf(),
            fetched_wf(&value),
        ensures
            final(self).wf(),
            final(self)@ == old(self)@.insert(key@, value@),
    {
        let ghost pre = self.docs.pairs@;
        self.docs.insert(key, value);
        proof {
            assert forall|i: int|
                0 <= i < self.docs.pairs@.len() implies fetched_wf(
                &self.docs.pairs@[i].1,
            ) by {
                if self.docs.pairs@[i] != (key, value) {
                    assert(pre.contains(self.docs.pairs@[i]));
                    let j = choose|j: int| 0 <= j < pre.len() && pre[j] == self.docs.pairs@[i];
                    assert(fetched_wf(&pre[j].1));
                }
            }
        }
    }
}

} // verus!
