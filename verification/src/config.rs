//! The subscription policy of a notifier.

use vstd::prelude::*;
use crate::operations::Operations;

verus! {

/// How many levels below an explicitly watched directory are watched too.
/// `None` is no limit; `Some(0)` is no recursion at all.
pub type RecursionLimit = Option<usize>;

/// The policy that a notifier applies to every path it is asked to watch.
/// It never changes once the notifier is built.
///
/// `F` is the type of the recursion filter, a predicate on paths that says
/// whether a subdirectory is to be descended into.
pub struct Configuration<F: Fn(&str) -> bool> {
    /// The change kinds to report.
    pub subscribe: Operations,
    /// Whether symbolic links are resolved when a path is opened.
    pub follow_symlinks: bool,
    /// The depth to which subdirectories are watched.
    pub recursion_limit: RecursionLimit,
    /// The predicate that admits subdirectories; `None` admits all.
    pub recursion_filter: Option<F>,
}

/// The limit that applies one level further down.
pub open spec fn spec_deeper(limit: RecursionLimit) -> RecursionLimit {
    match limit {
        None => None,
        Some(n) => if n == 0 {
            Some(0usize)
        } else {
            Some((n - 1) as usize)
        },
    }
}

/// The limit that applies one level further down: a bounded limit is
/// decremented, an unbounded one stays unbounded.
pub fn deeper(limit: RecursionLimit) -> (r: RecursionLimit)
    ensures
        r == spec_deeper(limit),
{
    match limit {
        None => None,
        Some(n) => if n == 0 {
            Some(0)
        } else {
            Some(n - 1)
        },
    }
}

/// Whether a call of the filter `f` on a path with the characters `path` can
/// return `verdict`.
pub open spec fn filter_says<F: Fn(&str) -> bool>(f: F, path: Seq<char>, verdict: bool) -> bool {
    exists|p: &str| p@ == path && #[trigger] call_ensures(f, (p,), verdict)
}

impl<F: Fn(&str) -> bool> Configuration<F> {
    /// The filter, if there is one, may be called on every path.
    pub open spec fn wf(&self) -> bool {
        self.recursion_filter matches Some(f) ==> forall|p: &str| #[trigger] call_requires(f, (p,))
    }

    /// Whether directories below a watched path are watched too.
    pub open spec fn spec_is_recursive(&self) -> bool {
        self.recursion_limit != Some(0usize)
    }

    /// Whether directories below a watched path are watched too: true unless
    /// the recursion limit is zero.
    pub fn is_recursive(&self) -> (r: bool)
        ensures
            r == self.spec_is_recursive(),
    {
        match self.recursion_limit {
            None => true,
            Some(limit) => limit > 0,
        }
    }

    /// Whether `verdict` is an answer that this configuration can give to the
    /// question whether to descend into `path`.
    pub open spec fn admits(&self, path: Seq<char>, verdict: bool) -> bool {
        match self.recursion_filter {
            None => verdict,
            Some(f) => filter_says(f, path, verdict),
        }
    }

    /// Asks the recursion filter whether to descend into `path`. Without a
    /// filter every path is admitted.
    pub fn descend(&self, path: &str) -> (r: bool)
        requires
            self.wf(),
        ensures
            self.admits(path@, r),
    {
        match &self.recursion_filter {
            None => true,
            Some(f) => f(path),
        }
    }
}

impl<F: Fn(&str) -> bool> Default for Configuration<F> {
    /// Every change kind, symbolic links followed, no recursion, no filter.
    fn default() -> (r: Configuration<F>)
        ensures
            r.subscribe@ == crate::operations::ALL,
            r.follow_symlinks,
            r.recursion_limit == Some(0usize),
            r.recursion_filter is None,
            r.wf(),
    {
        Configuration {
            subscribe: Operations::all(),
            follow_symlinks: true,
            recursion_limit: Some(0),
            recursion_filter: None,
        }
    }
}

} // verus!
