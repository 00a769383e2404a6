use vstd::prelude::*;
use crate::property::{QueryError, all_zero, is_all_zero, call_succeeded};

verus! {

/// A response is accepted when the call succeeded and filled in some non-zero byte.
pub open spec fn accepts(status: i32, payload: Seq<u8>) -> bool {
    call_succeeded(status) && !is_all_zero(payload)
}

/// What the caller does next in a probing run.
#[derive(Debug)]
pub enum ProbeAction {
    /// Make one control call with this request code and report its response.
    Issue(u32),
    /// A response was accepted: this is its payload.
    Accept(Vec<u8>),
    /// Every candidate was tried and none was accepted.
    GiveUp,
}

/// Tries candidate request codes strictly in order, one call at a time, and stops
/// at the first response that is accepted.
pub struct Prober {
    pub candidates: Vec<u32>,
    /// How many candidates have been handed out so far.
    pub issued: usize,
    pub finished: bool,
    pub found: bool,
    /// The codes handed out so far, in the order they were handed out.
    pub sent: Ghost<Seq<u32>>,
    /// For each response received so far, whether it was accepted.
    pub verdicts: Ghost<Seq<bool>>,
}

impl Prober {
    pub open spec fn wf(&self) -> bool {
        let v = self.verdicts@;
        &&& self.issued <= self.candidates@.len()
        &&& self.sent@ == self.candidates@.take(self.issued as int)
        &&& v.len() <= self.issued <= v.len() + 1
        &&& self.finished ==> v.len() == self.issued
        &&& !self.finished && self.issued == 0 ==> v.len() == 0
        &&& !self.finished && self.issued > 0 ==> v.len() + 1 == self.issued
        &&& self.found ==> self.finished && v.len() > 0 && v.last()
        &&& self.finished && !self.found ==> self.issued == self.candidates@.len()
        &&& forall|i: int| 0 <= i < v.len() && v[i] ==> self.found && i == v.len() - 1
    }

    /// A run that has not started.
    pub fn new(candidates: Vec<u32>) -> (r: Prober)
        ensures
            r.wf(),
            r.candidates@ == candidates@,
            r.issued == 0,
            !r.finished,
            !r.found,
    {
        assert(candidates@.take(0) =~= Seq::<u32>::empty());
        Prober {
            candidates,
            issued: 0,
            finished: false,
            found: false,
            sent: Ghost(Seq::empty()),
            verdicts: Ghost(Seq::empty()),
        }
    }

    /// Starts the run: hands out the first candidate, or gives up at once when there is none.
    pub fn begin(&mut self) -> (r: ProbeAction)
        requires
            old(self).wf(),
            old(self).issued == 0,
            !old(self).finished,
        ensures
            final(self).wf(),
            final(self).candidates@ == old(self).candidates@,
            final(self).verdicts@ == old(self).verdicts@,
            r matches ProbeAction::Issue(c) ==> final(self).sent@ == old(self).sent@.push(c),
            !(r is Issue) ==> final(self).sent@ == old(self).sent@,
            !final(self).found,
            old(self).candidates@.len() > 0 ==> r == ProbeAction::Issue(old(self).candidates@[0])
                && final(self).issued == 1 && !final(self).finished,
            old(self).candidates@.len() == 0 ==> r is GiveUp && final(self).finished
                && final(self).issued == 0,
    {
        if self.candidates.len() == 0 {
            self.finished = true;
            ProbeAction::GiveUp
        } else {
            let code = self.candidates[0];
            self.issued = 1;
            self.sent = Ghost(self.sent@.push(code));
            assert(self.sent@ =~= self.candidates@.take(1));
            ProbeAction::Issue(code)
        }
    }

    /// Takes the response to the code handed out last and decides the next step.
    pub fn on_response(&mut self, status: i32, payload: Vec<u8>) -> (r: ProbeAction)
        requires
            old(self).wf(),
            !old(self).finished,
            old(self).issued > 0,
        ensures
            final(self).wf(),
            final(self).candidates@ == old(self).candidates@,
            final(self).verdicts@ == old(self).verdicts@.push(accepts(status, payload@)),
            r matches ProbeAction::Issue(c) ==> final(self).sent@ == old(self).sent@.push(c),
            !(r is Issue) ==> final(self).sent@ == old(self).sent@,
            accepts(status, payload@) ==> (r matches ProbeAction::Accept(p) && p@ == payload@)
                && final(self).finished && final(self).found && final(self).issued == old(
                self).issued,
            !accepts(status, payload@) && old(self).issued < old(self).candidates@.len() ==> r
                == ProbeAction::Issue(old(self).candidates@[old(self).issued as int])
                && !final(self).finished && final(self).issued == old(self).issued + 1,
            !accepts(status, payload@) && old(self).issued == old(self).candidates@.len() ==> r
                is GiveUp && final(self).finished && !final(self).found && final(self).issued
                == old(self).issued,
    {
        let ok = status >= 0 && !all_zero(&payload);
        self.verdicts = Ghost(self.verdicts@.push(ok));
        if ok {
            self.finished = true;
            self.found = true;
            ProbeAction::Accept(payload)
        } else if self.issued < self.candidates.len() {
            let code = self.candidates[self.issued];
            self.issued = self.issued + 1;
            self.sent = Ghost(self.sent@.push(code));
            assert(self.sent@ =~= self.candidates@.take(self.issued as int));
            ProbeAction::Issue(code)
        } else {
            self.finished = true;
            ProbeAction::GiveUp
        }
    }
}

/// The result that a probing run's last action stands for.
pub fn query_probing(last: ProbeAction) -> (r: Result<Vec<u8>, QueryError>)
    requires
        !(last is Issue),
    ensures
        last matches ProbeAction::Accept(p) ==> (r matches Ok(q) && q@ == p@),
        last is GiveUp ==> r == Err::<Vec<u8>, QueryError>(QueryError::NoCandidateWorked),
{
    match last {
        ProbeAction::Accept(p) => Ok(p),
        _ => Err(QueryError::NoCandidateWorked),
    }
}

/// A probing run keeps the configured order and stops at the first success: the
/// codes handed out are the leading candidates in order, one response came back
/// per code, and a finished run either accepted the response to its last code
/// after rejecting all earlier ones, or handed out every candidate and accepted none.
pub proof fn lemma_probe_first_success(p: Prober)
    requires
        p.wf(),
        p.finished,
    ensures
        p.sent@.len() == p.issued,
        forall|i: int| 0 <= i < p.issued ==> p.sent@[i] == p.candidates@[i],
        p.verdicts@.len() == p.issued,
        p.found ==> p.verdicts@[p.issued - 1] && forall|i: int|
            0 <= i < p.issued - 1 ==> !p.verdicts@[i],
        !p.found ==> p.issued == p.candidates@.len() && forall|i: int|
            0 <= i < p.issued ==> !p.verdicts@[i],
{
}

} // verus!
