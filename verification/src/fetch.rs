//! A batch of requests, made one after another. Each answer is kept in
//! the order of the requests; the first transport failure ends the batch,
//! and what had been answered before it is not handed out.

use vstd::prelude::*;
use crate::urls::addresses;

verus! {

/// The progress of a batch.
pub struct Batch {
    urls: Vec<String>,
    bodies: Vec<String>,
    failure: Option<String>,
}

impl Batch {
    /// No more bodies than requests. `new` makes a batch so, and every
    /// method keeps it so.
    pub closed spec fn wf(self) -> bool {
        self.bodies@.len() <= self.urls@.len()
    }

    /// The addresses of the batch, in the order of the requests.
    pub closed spec fn urls(self) -> Seq<Seq<char>> {
        addresses(self.urls@)
    }

    /// The bodies answered so far, in the order of the requests.
    pub closed spec fn bodies(self) -> Seq<Seq<char>> {
        addresses(self.bodies@)
    }

    /// The transport failure that ended the batch, if one did.
    pub closed spec fn failure(self) -> Option<Seq<char>> {
        match self.failure {
            Some(error) => Some(error@),
            None => None,
        }
    }

    /// The address to ask next; `None` once the batch has failed or every
    /// request is answered.
    pub open spec fn next(self) -> Option<Seq<char>> {
        if self.failure() is None && self.bodies().len() < self.urls().len() {
            Some(self.urls()[self.bodies().len() as int])
        } else {
            None
        }
    }

    /// A batch of which nothing is asked yet.
    pub fn new(urls: Vec<String>) -> (batch: Batch)
        ensures
            batch.wf(),
            batch.urls() == addresses(urls@),
            batch.bodies() == Seq::<Seq<char>>::empty(),
            batch.failure() is None,
    {
        let batch = Batch { urls, bodies: Vec::new(), failure: None };
        assert(batch.bodies() =~= Seq::<Seq<char>>::empty());
        batch
    }

    /// The address to ask next.
    pub fn pending(&self) -> (r: Option<&String>)
        requires
            self.wf(),
        ensures
            match r {
                Some(url) => self.next() == Some(url@),
                None => self.next() is None,
            },
            self.bodies().len() <= self.urls().len(),
    {
        if self.failure.is_none() && self.bodies.len() < self.urls.len() {
            Some(&self.urls[self.bodies.len()])
        } else {
            None
        }
    }

    /// Takes the outcome of the pending request: a body is kept after the
    /// others, a transport failure ends the batch. With no request
    /// pending the outcome is dropped.
    pub fn record(&mut self, outcome: Result<String, String>)
        requires
            old(self).wf(),
        ensures
            final(self).wf(),
            final(self).urls() == old(self).urls(),
            old(self).next() is None ==> final(self).bodies() == old(self).bodies()
                && final(self).failure() == old(self).failure(),
            old(self).next() is Some ==> match outcome {
                Ok(body) => final(self).bodies() == old(self).bodies().push(body@)
                    && final(self).failure() is None,
                Err(error) => final(self).bodies() == old(self).bodies()
                    && final(self).failure() == Some(error@),
            },
    {
        if self.failure.is_none() && self.bodies.len() < self.urls.len() {
            match outcome {
                Ok(body) => {
                    self.bodies.push(body);
                    assert(self.bodies() =~= old(self).bodies().push(body@));
                },
                Err(error) => {
                    self.failure = Some(error);
                },
            }
        }
    }

    /// The result of the batch once nothing is pending: every body, in
    /// the order of the requests, or the failure that ended it. `None`
    /// while a request is pending.
    pub fn finish(self) -> (r: Option<Result<Vec<String>, String>>)
        requires
            self.wf(),
        ensures
            self.next() is Some ==> r is None,
            self.next() is None ==> match self.failure() {
                Some(error) => r matches Some(Err(e)) && e@ == error,
                None => r matches Some(Ok(bodies)) && addresses(bodies@) == self.bodies()
                    && bodies@.len() == self.urls().len(),
            },
    {
        match self.failure {
            Some(error) => Some(Err(error)),
            None => if self.bodies.len() < self.urls.len() {
                None
            } else {
                Some(Ok(self.bodies))
            },
        }
    }
}

} // verus!
