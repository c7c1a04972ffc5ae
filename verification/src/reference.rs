//! Lazy memoizing references to remote content nodes.
//!
//! A `Reference<T>` defers fetching and parsing a node until it is first
//! needed, and guarantees at most one fetch-and-parse per reference: once
//! `Resolved` it never requests another fetch and always hands out the same
//! value. Fetching itself is the caller's business: the caller asks
//! `pending_querypath` what to fetch and passes the parsed node to `resolve`.

use vstd::prelude::*;

use crate::error::ReferenceError;

verus! {

/// A remote object that may not exist, may be known only by address, or may
/// already be fetched and parsed.
#[derive(Debug)]
pub enum Reference<T> {
    /// The parent node determined, while parsing, that no corresponding
    /// resource exists. Terminal.
    Unavailable,
    /// The resource exists at the stored query path but has not been fetched.
    Unresolved(String),
    /// The node was fetched and parsed, exactly once. Terminal.
    Resolved(T),
}

/// A reference requests a fetch exactly while it is unresolved.
pub open spec fn needs_fetch<T>(r: &Reference<T>) -> bool {
    r is Unresolved
}

/// What one resolution step does: the reference after the step, and the
/// outcome reported to the caller. `fetched` is the node parsed from the
/// fetched document, present exactly when the reference still needs a fetch.
pub open spec fn resolve_spec<T>(r: Reference<T>, fetched: Option<T>) -> (Reference<T>, Result<
    T,
    ReferenceError,
>) {
    match r {
        Reference::Unavailable => (r, Err(ReferenceError::Unavailable)),
        Reference::Resolved(v) => (Reference::Resolved(v), Ok(v)),
        Reference::Unresolved(_) => {
            let v = fetched->Some_0;
            (Reference::Resolved(v), Ok(v))
        },
    }
}

impl<T> Reference<T> {
    /// `None` means the resource does not exist; an address means it exists
    /// but is not fetched yet.
    pub fn from_optional_querypath(querypath: Option<String>) -> (r: Reference<T>)
        ensures
            match querypath {
                None => r is Unavailable,
                Some(qp) => r matches Reference::Unresolved(q) && q == qp,
            },
    {
        match querypath {
            None => Self::Unavailable,
            Some(querypath) => Self::Unresolved(querypath),
        }
    }

    /// The contained node, if this reference was already resolved.
    pub fn try_get_resolved(&self) -> (r: Option<&T>)
        ensures
            match r {
                Some(v) => *self matches Reference::Resolved(t) && t == *v,
                None => !(*self is Resolved),
            },
    {
        match self {
            Self::Resolved(t) => Some(t),
            _ => None,
        }
    }

    /// The query path that must be fetched before this reference can hand out
    /// its node; `None` when no fetch is needed (or possible).
    pub fn pending_querypath(&self) -> (r: Option<&String>)
        ensures
            match r {
                Some(q) => *self matches Reference::Unresolved(qq) && qq == *q,
                None => !needs_fetch(self),
            },
    {
        match self {
            Self::Unresolved(querypath) => Some(querypath),
            _ => None,
        }
    }

    /// One resolution step. `fetched` carries the node parsed from the
    /// document at `pending_querypath`, and is required exactly when this
    /// reference still needs a fetch; an already resolved reference returns
    /// its memoized node unchanged, and an unavailable one always fails.
    pub fn resolve(&mut self, fetched: Option<T>) -> (r: Result<&T, ReferenceError>)
        requires
            needs_fetch(old(self)) <==> fetched is Some,
        ensures
            *final(self) == resolve_spec(*old(self), fetched).0,
            match r {
                Ok(v) => resolve_spec(*old(self), fetched).1 matches Ok(vv) && vv == *v,
                Err(e) => resolve_spec(*old(self), fetched).1 matches Err(ee) && ee == e,
            },
    {
        match &*self {
            Self::Unavailable => Err(ReferenceError::Unavailable),
            Self::Resolved(_) => {
                match self {
                    Self::Resolved(v) => Ok(v),
                    _ => {
                        proof {
                            assert(false);
                        }
                        Err(ReferenceError::Unavailable)
                    },
                }
            },
            Self::Unresolved(_) => {
                let v = match fetched {
                    Some(v) => v,
                    None => {
                        proof {
                            assert(false);
                        }
                        return Err(ReferenceError::Unavailable);
                    },
                };
                *self = Self::Resolved(v);
                match self {
                    Self::Resolved(v) => Ok(v),
                    _ => {
                        proof {
                            assert(false);
                        }
                        Err(ReferenceError::Unavailable)
                    },
                }
            },
        }
    }
}

/// Law: resolution is memoizing. After a first resolve has produced a node,
/// the reference never again requests a fetch, and a second resolve returns
/// the very same node and leaves the reference unchanged — so any number of
/// resolve calls perform exactly one underlying fetch.
pub proof fn lemma_resolve_is_memoizing<T>(r0: Reference<T>, v: T)
    requires
        needs_fetch(&r0),
    ensures
        ({
            let (r1, out1) = resolve_spec(r0, Some(v));
            let (r2, out2) = resolve_spec(r1, None);
            &&& !needs_fetch(&r1)
            &&& out1 == Ok::<T, ReferenceError>(v)
            &&& r2 == r1
            &&& out2 == Ok::<T, ReferenceError>(v)
        }),
{
}

/// Law: a reference built from no address is unavailable, never requests a
/// fetch, and every resolve on it fails with `ReferenceError::Unavailable`
/// and leaves it unchanged.
pub proof fn lemma_unavailable_never_fetches<T>(r: Reference<T>)
    requires
        r is Unavailable,
    ensures
        !needs_fetch(&r),
        resolve_spec(r, None).0 == r,
        resolve_spec(r, None).1 == Err::<T, ReferenceError>(ReferenceError::Unavailable),
{
}

} // verus!
