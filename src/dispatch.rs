//! Client side: how many requests a run may make, what each request
//! addresses, and the bookkeeping of issuing them over one session and
//! collecting their responses in whatever order they complete.

use vstd::prelude::*;
use vstd::string::StringExecFns;

use crate::text::{decimal_text, lemma_decimal_injective, push_decimal};

verus! {

/// The most requests one run may make.
pub const MAX_NREQS: u32 = 100;

/// Why a request count was refused.
#[derive(Clone, Copy, Debug, PartialEq, Eq, Structural)]
pub enum NreqsError {
    /// The count is not between 1 and `MAX_NREQS`.
    OutOfRange,
}

/// Accepts a request count between 1 and `MAX_NREQS`, both included.
pub fn validate_nreqs(nreqs: u32) -> (r: Result<u32, NreqsError>)
    ensures
        1 <= nreqs <= MAX_NREQS <==> r == Ok::<u32, NreqsError>(nreqs),
        !(1 <= nreqs <= MAX_NREQS) <==> r == Err::<u32, NreqsError>(NreqsError::OutOfRange),
{
    if 1 <= nreqs && nreqs <= MAX_NREQS {
        Ok(nreqs)
    } else {
        Err(NreqsError::OutOfRange)
    }
}

/// The path of request `i`: a slash and `i` in decimal.
pub open spec fn path_of(i: nat) -> Seq<char> {
    "/"@ + decimal_text(i)
}

/// The authority every request is addressed to.
pub open spec fn request_base() -> Seq<char> {
    "http://localhost:8080"@
}

/// Requests address different paths, so the path that the server echoes
/// back names the one request it answers.
pub proof fn lemma_paths_identify_requests(i: nat, j: nat)
    ensures
        path_of(i) == path_of(j) <==> i == j,
{
    reveal_strlit("/");
    if path_of(i) == path_of(j) {
        assert(path_of(i).subrange(1, path_of(i).len() as int) =~= decimal_text(i));
        assert(path_of(j).subrange(1, path_of(j).len() as int) =~= decimal_text(j));
        lemma_decimal_injective(i, j);
    }
}

/// The path of request `i`, which the server's handler echoes back.
pub fn request_path(i: u32) -> (r: String)
    ensures
        r@ == path_of(i as nat),
{
    let mut out = String::from_str("/");
    push_decimal(&mut out, i as u64);
    out
}

/// The URI of request `i`.
pub fn request_uri(i: u32) -> (r: String)
    ensures
        r@ == request_base() + path_of(i as nat),
{
    let mut out = String::from_str("http://localhost:8080");
    let path = request_path(i);
    out.append(path.as_str());
    out
}

/// Progress of a run of `total` requests over one session: requests
/// `1..=issued` were issued, and `completed` of them have answered.
pub struct Dispatch {
    total: u32,
    issued: u32,
    completed: u32,
}

impl Dispatch {
    /// How many requests the run makes.
    pub closed spec fn spec_total(&self) -> nat {
        self.total as nat
    }

    /// How many requests were issued.
    pub closed spec fn spec_issued(&self) -> nat {
        self.issued as nat
    }

    /// How many responses were collected.
    pub closed spec fn spec_completed(&self) -> nat {
        self.completed as nat
    }

    /// Responses never outnumber requests, nor requests the total.
    pub open spec fn wf(&self) -> bool {
        self.spec_completed() <= self.spec_issued() <= self.spec_total()
    }

    /// A run of `total` requests with nothing issued yet.
    pub fn new(total: u32) -> (r: Dispatch)
        ensures
            r.wf(),
            r.spec_total() == total,
            r.spec_issued() == 0,
            r.spec_completed() == 0,
    {
        Dispatch { total, issued: 0, completed: 0 }
    }

    /// The index of the next request to issue, once the session is ready
    /// for it, or `None` when all have been issued.
    pub fn next_request(&mut self) -> (r: Option<u32>)
        requires
            old(self).wf(),
        ensures
            final(self).wf(),
            final(self).spec_total() == old(self).spec_total(),
            final(self).spec_completed() == old(self).spec_completed(),
            old(self).spec_issued() < old(self).spec_total() ==> {
                &&& r == Some((old(self).spec_issued() + 1) as u32)
                &&& final(self).spec_issued() == old(self).spec_issued() + 1
            },
            old(self).spec_issued() == old(self).spec_total() ==> {
                &&& r == None::<u32>
                &&& final(self).spec_issued() == old(self).spec_issued()
            },
    {
        if self.issued < self.total {
            self.issued = self.issued + 1;
            Some(self.issued)
        } else {
            None
        }
    }

    /// Collects one response; returns false, changing nothing, when no
    /// issued request is still waiting for one.
    pub fn complete(&mut self) -> (r: bool)
        requires
            old(self).wf(),
        ensures
            final(self).wf(),
            final(self).spec_total() == old(self).spec_total(),
            final(self).spec_issued() == old(self).spec_issued(),
            r == (old(self).spec_completed() < old(self).spec_issued()),
            final(self).spec_completed() == old(self).spec_completed() + (if r { 1nat } else { 0nat }),
    {
        if self.completed < self.issued {
            self.completed = self.completed + 1;
            true
        } else {
            false
        }
    }

    /// How many requests were issued.
    pub fn issued(&self) -> (r: u32)
        ensures
            r as nat == self.spec_issued(),
    {
        self.issued
    }

    /// How many responses were collected.
    pub fn completed(&self) -> (r: u32)
        ensures
            r as nat == self.spec_completed(),
    {
        self.completed
    }

    /// Every request was issued and has answered.
    pub fn is_finished(&self) -> (r: bool)
        ensures
            r == (self.spec_completed() == self.spec_total()),
    {
        self.completed == self.total
    }
}

} // verus!
