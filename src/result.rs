//! Ownership of the solver's result record until its single release.
use vstd::prelude::*;
use crate::status::{classify, outcome_of, Outcome};

verus! {

/// What an owner holds: the lengths of the record's buffers, which the
/// record itself does not carry, the native status and the record while it
/// has not been released.
pub struct OwnerView<R> {
    pub n: nat,
    pub m_nlcon: nat,
    pub status: i32,
    pub record: Option<R>,
}

impl<R> OwnerView<R> {
    /// The same owner once its record has been handed out for release.
    pub open spec fn released(self) -> OwnerView<R> {
        OwnerView { n: self.n, m_nlcon: self.m_nlcon, status: self.status, record: None }
    }
}

/// The sole owner of a result record returned by the solver.
///
/// The record is handed out for release at most once; after that the owner
/// gives no access to it. The native binding releases what `release`
/// returns, both on an explicit release and when the owner is dropped.
pub struct ResultOwner<R> {
    n: usize,
    m_nlcon: usize,
    status: i32,
    record: Option<R>,
}

impl<R> View for ResultOwner<R> {
    type V = OwnerView<R>;

    closed spec fn view(&self) -> OwnerView<R> {
        OwnerView {
            n: self.n as nat,
            m_nlcon: self.m_nlcon as nat,
            status: self.status,
            record: self.record,
        }
    }
}

impl<R> ResultOwner<R> {
    /// Takes ownership of a record that the solver filled for a problem of
    /// `n` variables and `m_nlcon` nonlinear constraints, whatever its status.
    pub fn new(record: R, n: usize, m_nlcon: usize, status: i32) -> (r: Self)
        ensures
            r@ == (OwnerView { n: n as nat, m_nlcon: m_nlcon as nat, status, record: Some(record) }),
    {
        ResultOwner { n, m_nlcon, status, record: Some(record) }
    }

    /// Length of the final point.
    pub fn point_len(&self) -> (r: usize)
        ensures
            r == self@.n,
    {
        self.n
    }

    /// Length of the final nonlinear constraint values.
    pub fn constraint_len(&self) -> (r: usize)
        ensures
            r == self@.m_nlcon,
    {
        self.m_nlcon
    }

    /// The native status code.
    pub fn status(&self) -> (r: i32)
        ensures
            r == self@.status,
    {
        self.status
    }

    /// How the solve ended.
    pub fn outcome(&self) -> (r: Outcome)
        ensures
            r == outcome_of(self@.status),
    {
        classify(self.status)
    }

    /// Whether the record has been released.
    pub fn is_released(&self) -> (r: bool)
        ensures
            r == self@.record is None,
    {
        self.record.is_none()
    }

    /// The record, while it has not been released.
    pub fn record(&self) -> (r: Option<&R>)
        ensures
            match r {
                Some(x) => self@.record == Some(*x),
                None => self@.record is None,
            },
    {
        match &self.record {
            Some(x) => Some(x),
            None => None,
        }
    }

    /// Hands the record out for release. The first call returns it; every
    /// later call returns `None`, so the record is released at most once.
    pub fn release(&mut self) -> (r: Option<R>)
        ensures
            r == old(self)@.record,
            final(self)@ == old(self)@.released(),
    {
        self.record.take()
    }
}

/// Releasing twice hands the record out at most once: after a release
/// nothing is left, and a second release changes nothing.
pub proof fn lemma_release_at_most_once<R>(s: OwnerView<R>)
    ensures
        s.released().record is None,
        s.released().released() == s.released(),
{
}

} // verus!
