//! Composable boolean predicates over requests: domain, method and header
//! leaves, combined by AND, OR and NOT, evaluated left-to-right with
//! short-circuiting.

use vstd::prelude::*;
use crate::domain::DomainMatcher;
use crate::http::{method_is, method_eq, Method, RequestModel};

verus! {

/// A matcher tree: leaves classify one aspect of a request, inner nodes
/// combine their children as boolean connectives.
#[derive(Debug)]
pub enum Matcher {
    /// Matches when the request URI host matches the domain matcher.
    Domain(DomainMatcher),
    /// Matches when the request method is the given one.
    MethodIs(Method),
    /// Matches when a header with the given name is present.
    HeaderExists(Vec<u8>),
    /// Matches always (`true`) or never (`false`).
    Always(bool),
    /// Matches when the child does not.
    Not(Box<Matcher>),
    /// Matches when both children match; the right child is consulted only
    /// if the left one matched.
    And(Box<Matcher>, Box<Matcher>),
    /// Matches when either child matches; the right child is consulted only
    /// if the left one did not match.
    Or(Box<Matcher>, Box<Matcher>),
}

impl Matcher {
    /// The truth value of this matcher on a request.
    pub open spec fn spec_eval(self, req: RequestModel) -> bool
        decreases self,
    {
        match self {
            Matcher::Domain(d) => match req.host {
                Some(h) => d.spec_matches(h@),
                None => false,
            },
            Matcher::MethodIs(m) => method_is(req.method, m),
            Matcher::HeaderExists(n) => req.spec_has_header(n@),
            Matcher::Always(b) => b,
            Matcher::Not(m) => !(*m).spec_eval(req),
            Matcher::And(a, b) => (*a).spec_eval(req) && (*b).spec_eval(req),
            Matcher::Or(a, b) => (*a).spec_eval(req) || (*b).spec_eval(req),
        }
    }

    /// How many leaves the tree has.
    pub open spec fn leaf_count(self) -> nat
        decreases self,
    {
        match self {
            Matcher::Not(m) => (*m).leaf_count(),
            Matcher::And(a, b) => (*a).leaf_count() + (*b).leaf_count(),
            Matcher::Or(a, b) => (*a).leaf_count() + (*b).leaf_count(),
            _ => 1,
        }
    }

    /// How many leaves a left-to-right, short-circuiting evaluation
    /// consults on a request: AND stops at the first false child, OR at the
    /// first true child.
    pub open spec fn eval_cost(self, req: RequestModel) -> nat
        decreases self,
    {
        match self {
            Matcher::Not(m) => (*m).eval_cost(req),
            Matcher::And(a, b) => if !(*a).spec_eval(req) {
                (*a).eval_cost(req)
            } else {
                (*a).eval_cost(req) + (*b).eval_cost(req)
            },
            Matcher::Or(a, b) => if (*a).spec_eval(req) {
                (*a).eval_cost(req)
            } else {
                (*a).eval_cost(req) + (*b).eval_cost(req)
            },
            _ => 1,
        }
    }

    /// Combine two matchers: the result matches when both do.
    pub fn and(self, other: Matcher) -> (r: Matcher)
        ensures
            forall|req: RequestModel| #![trigger r.spec_eval(req)]
                r.spec_eval(req) == (self.spec_eval(req) && other.spec_eval(req)),
            forall|req: RequestModel| #![trigger r.eval_cost(req)]
                r.eval_cost(req) == if !self.spec_eval(req) {
                    self.eval_cost(req)
                } else {
                    self.eval_cost(req) + other.eval_cost(req)
                },
            r.leaf_count() == self.leaf_count() + other.leaf_count(),
    {
        Matcher::And(Box::new(self), Box::new(other))
    }

    /// Combine two matchers: the result matches when either does.
    pub fn or(self, other: Matcher) -> (r: Matcher)
        ensures
            forall|req: RequestModel| #![trigger r.spec_eval(req)]
                r.spec_eval(req) == (self.spec_eval(req) || other.spec_eval(req)),
            forall|req: RequestModel| #![trigger r.eval_cost(req)]
                r.eval_cost(req) == if self.spec_eval(req) {
                    self.eval_cost(req)
                } else {
                    self.eval_cost(req) + other.eval_cost(req)
                },
            r.leaf_count() == self.leaf_count() + other.leaf_count(),
    {
        Matcher::Or(Box::new(self), Box::new(other))
    }

    /// Invert a matcher: the result matches when this one does not.
    pub fn negate(self) -> (r: Matcher)
        ensures
            forall|req: RequestModel| #![trigger r.spec_eval(req)]
                r.spec_eval(req) == !self.spec_eval(req),
            forall|req: RequestModel| #![trigger r.eval_cost(req)]
                r.eval_cost(req) == self.eval_cost(req),
            r.leaf_count() == self.leaf_count(),
    {
        Matcher::Not(Box::new(self))
    }

    /// Evaluate the matcher on a request.
    pub fn matches(&self, req: &RequestModel) -> (r: bool)
        ensures
            r == self.spec_eval(*req),
        decreases *self,
    {
        match self {
            Matcher::Domain(d) => match &req.host {
                Some(h) => d.matches_host_bytes(h.as_slice()),
                None => false,
            },
            Matcher::MethodIs(m) => method_eq(&req.method, m),
            Matcher::HeaderExists(n) => req.has_header(n.as_slice()),
            Matcher::Always(b) => *b,
            Matcher::Not(m) => !m.matches(req),
            Matcher::And(a, b) => a.matches(req) && b.matches(req),
            Matcher::Or(a, b) => a.matches(req) || b.matches(req),
        }
    }

    /// Evaluate the matcher on a request, counting in `evals` how many
    /// leaves the short-circuiting evaluation consults.
    pub fn matches_counting(&self, req: &RequestModel, evals: &mut u64) -> (r: bool)
        requires
            *old(evals) + self.leaf_count() <= u64::MAX,
        ensures
            r == self.spec_eval(*req),
            *final(evals) == *old(evals) + self.eval_cost(*req),
        decreases *self,
    {
        proof {
            lemma_eval_cost_le_leaf_count(*self, *req);
        }
        match self {
            Matcher::Not(m) => !m.matches_counting(req, evals),
            Matcher::And(a, b) => {
                proof {
                    lemma_eval_cost_le_leaf_count(**a, *req);
                    lemma_eval_cost_le_leaf_count(**b, *req);
                }
                if a.matches_counting(req, evals) {
                    b.matches_counting(req, evals)
                } else {
                    false
                }
            },
            Matcher::Or(a, b) => {
                proof {
                    lemma_eval_cost_le_leaf_count(**a, *req);
                    lemma_eval_cost_le_leaf_count(**b, *req);
                }
                if a.matches_counting(req, evals) {
                    true
                } else {
                    b.matches_counting(req, evals)
                }
            },
            leaf => {
                let r = leaf.matches(req);
                *evals = *evals + 1;
                r
            },
        }
    }
}

/// A short-circuiting evaluation never consults more leaves than the tree
/// has.
pub proof fn lemma_eval_cost_le_leaf_count(m: Matcher, req: RequestModel)
    ensures
        m.eval_cost(req) <= m.leaf_count(),
    decreases m,
{
    match m {
        Matcher::Not(inner) => lemma_eval_cost_le_leaf_count(*inner, req),
        Matcher::And(a, b) => {
            lemma_eval_cost_le_leaf_count(*a, req);
            lemma_eval_cost_le_leaf_count(*b, req);
        },
        Matcher::Or(a, b) => {
            lemma_eval_cost_le_leaf_count(*a, req);
            lemma_eval_cost_le_leaf_count(*b, req);
        },
        _ => {},
    }
}

/// AND is true exactly when both children are true, OR exactly when either
/// child is true, and NOT inverts its child: the combinators form a boolean
/// algebra on every truth-table input.
pub proof fn lemma_combinators_are_boolean_algebra(m: Matcher, req: RequestModel)
    ensures
        m matches Matcher::And(a, b) ==> (m.spec_eval(req) <==> ((*a).spec_eval(req) && (
        *b).spec_eval(req))),
        m matches Matcher::Or(a, b) ==> (m.spec_eval(req) <==> ((*a).spec_eval(req) || (
        *b).spec_eval(req))),
        m matches Matcher::Not(a) ==> (m.spec_eval(req) <==> !(*a).spec_eval(req)),
{
}

/// Short-circuiting: when the left child of an AND is false, or the left
/// child of an OR is true, the right child is not consulted at all, so the
/// number of consulted leaves stays strictly below the full leaf count
/// whenever the right child has any leaf.
pub proof fn lemma_short_circuit_skips_right_child(m: Matcher, req: RequestModel)
    ensures
        m matches Matcher::And(a, b) ==> (!(*a).spec_eval(req) ==> m.eval_cost(req) == (
        *a).eval_cost(req) && ((*b).leaf_count() > 0 ==> m.eval_cost(req) < m.leaf_count())),
        m matches Matcher::Or(a, b) ==> ((*a).spec_eval(req) ==> m.eval_cost(req) == (
        *a).eval_cost(req) && ((*b).leaf_count() > 0 ==> m.eval_cost(req) < m.leaf_count())),
{
    match m {
        Matcher::And(a, b) => {
            lemma_eval_cost_le_leaf_count(*a, req);
        },
        Matcher::Or(a, b) => {
            lemma_eval_cost_le_leaf_count(*a, req);
        },
        _ => {},
    }
}

} // verus!
