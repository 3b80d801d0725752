//! A host in memory: it holds the parameters of a call and the ledger,
//! answers every read truthfully, and keeps a journal of the requests it
//! served. It confirms every write and every removal unless it was told to
//! refuse them after a number of them. It says what a run of a handler
//! against such a host is, and it runs one.

use vstd::prelude::*;
use crate::accessor::load_balance;
use crate::accessor::load_balance_spec;
use crate::error::EntryPoint;
use crate::error::Error;
use crate::error::Lookup;
use crate::handler::begin;
use crate::handler::begin_spec;
use crate::handler::lemma_resume_makes_progress;
use crate::handler::resume_spec;
use crate::handler::Step;
use crate::handler::StepView;
use crate::protocol::Outcome;
use crate::protocol::OutcomeView;
use crate::protocol::Reply;
use crate::protocol::ReplyView;
use crate::protocol::Request;
use crate::protocol::RequestView;
use crate::store::Store;

verus! {

/// A host that keeps everything in memory.
pub struct MemoryHost {
    parameters: Vec<Vec<u8>>,
    ledger: Store,
    journal: Vec<Request>,
    writes_left: Option<usize>,
}

/// `MemoryHost` as a mathematical value.
pub struct HostView {
    /// The arguments of the call, in order.
    pub parameters: Seq<Seq<u8>>,
    /// What is stored, by key.
    pub ledger: Map<Seq<char>, Seq<u8>>,
    /// Every request served so far, oldest first.
    pub journal: Seq<RequestView>,
    /// How many more writes and removals the host confirms before it
    /// refuses them all; `None` where it confirms every one.
    pub writes_left: Option<nat>,
}

/// A list of byte strings as a mathematical value.
pub open spec fn view_all(list: Vec<Vec<u8>>) -> Seq<Seq<u8>> {
    Seq::new(list.len() as nat, |i: int| list[i]@)
}

impl HostView {
    /// Whether the host confirms the next `count` writes and removals.
    pub open spec fn confirms(self, count: nat) -> bool {
        match self.writes_left {
            Some(left) => count <= left,
            None => true,
        }
    }

    /// Whether `request` changes the ledger of this host.
    pub open spec fn takes_effect(self, request: RequestView) -> bool {
        (request is PutState || request is DeleteState) && self.confirms(1)
    }

    /// The reply of the host to `request`: the parameter at an index below
    /// the number of parameters, the value under a key that is stored, a
    /// failure for any other read, and for a write or a removal a
    /// confirmation or, once the host refuses them, a failure.
    pub open spec fn answer(self, request: RequestView) -> ReplyView {
        match request {
            RequestView::GetParameter { index } => if index < self.parameters.len() {
                ReplyView::Bytes(self.parameters[index as int])
            } else {
                ReplyView::Failed
            },
            RequestView::GetState { key } => if self.ledger.contains_key(key) {
                ReplyView::Bytes(self.ledger[key])
            } else {
                ReplyView::Failed
            },
            _ => if self.confirms(1) {
                ReplyView::Done
            } else {
                ReplyView::Failed
            },
        }
    }

    /// The host after it has served `request`. A write or a removal that it
    /// refuses leaves the ledger as it was.
    pub open spec fn serve(self, request: RequestView) -> HostView {
        HostView {
            parameters: self.parameters,
            ledger: if self.takes_effect(request) {
                match request {
                    RequestView::PutState { key, value } => self.ledger.insert(key, value),
                    RequestView::DeleteState { key } => self.ledger.remove(key),
                    _ => self.ledger,
                }
            } else {
                self.ledger
            },
            journal: self.journal.push(request),
            writes_left: if self.takes_effect(request) {
                match self.writes_left {
                    Some(left) => Some((left - 1) as nat),
                    None => None,
                }
            } else {
                self.writes_left
            },
        }
    }

    /// The host and the outcome at the end of the call that `step` is part
    /// of, when this host serves each of its requests.
    pub open spec fn run(self, step: StepView) -> (HostView, OutcomeView)
        decreases step.pending(),
    {
        match step {
            StepView::Return(outcome) => (self, outcome),
            StepView::Call(request, handler) => {
                proof {
                    lemma_resume_makes_progress(handler, self.answer(request));
                }
                self.serve(request).run(resume_spec(handler, self.answer(request)))
            },
        }
    }
}

impl View for MemoryHost {
    type V = HostView;

    closed spec fn view(&self) -> HostView {
        HostView {
            parameters: view_all(self.parameters),
            ledger: self.ledger@,
            journal: Seq::new(self.journal.len() as nat, |i: int| self.journal[i]@),
            writes_left: match self.writes_left {
                Some(left) => Some(left as nat),
                None => None,
            },
        }
    }
}

impl MemoryHost {
    /// The ledger holds each key once.
    pub closed spec fn well_formed(self) -> bool {
        self.ledger.well_formed()
    }

    /// A host without parameters, with an empty ledger and an empty journal,
    /// that confirms every write.
    pub fn new() -> (host: MemoryHost)
        ensures
            host.well_formed(),
            host@.parameters == Seq::<Seq<u8>>::empty(),
            host@.ledger == Map::<Seq<char>, Seq<u8>>::empty(),
            host@.journal == Seq::<RequestView>::empty(),
            host@.writes_left == None::<nat>,
    {
        let host = MemoryHost {
            parameters: Vec::new(),
            ledger: Store::new(),
            journal: Vec::new(),
            writes_left: None,
        };
        assert(host@.parameters =~= Seq::<Seq<u8>>::empty());
        assert(host@.journal =~= Seq::<RequestView>::empty());
        host
    }

    /// Sets the arguments of the next call.
    pub fn set_parameters(&mut self, parameters: Vec<Vec<u8>>)
        requires
            old(self).well_formed(),
        ensures
            final(self).well_formed(),
            final(self)@ == (HostView { parameters: view_all(parameters), ..old(self)@ }),
    {
        self.parameters = parameters;
        assert(self@.journal =~= old(self)@.journal);
    }

    /// Lets the host confirm `count` more writes and removals and refuse
    /// every one after them.
    pub fn refuse_writes_after(&mut self, count: usize)
        requires
            old(self).well_formed(),
        ensures
            final(self).well_formed(),
            final(self)@ == (HostView { writes_left: Some(count as nat), ..old(self)@ }),
    {
        self.writes_left = Some(count);
        assert(self@.parameters =~= old(self)@.parameters);
        assert(self@.journal =~= old(self)@.journal);
    }

    /// Lets the host confirm every write and every removal again.
    pub fn confirm_all_writes(&mut self)
        requires
            old(self).well_formed(),
        ensures
            final(self).well_formed(),
            final(self)@ == (HostView { writes_left: None, ..old(self)@ }),
    {
        self.writes_left = None;
        assert(self@.parameters =~= old(self)@.parameters);
        assert(self@.journal =~= old(self)@.journal);
    }

    /// What the ledger holds under `key`, if anything.
    pub fn stored(&self, key: &String) -> (value: Option<Vec<u8>>)
        requires
            self.well_formed(),
        ensures
            match value {
                Some(bytes) => self@.ledger.contains_key(key@) && self@.ledger[key@] == bytes@,
                None => !self@.ledger.contains_key(key@),
            },
    {
        self.ledger.get(key)
    }

    /// The balance of the account `name`, read as a query would read it.
    pub fn get_balance(&self, name: &String) -> (balance: Result<u64, Error>)
        requires
            self.well_formed(),
        ensures
            balance == load_balance_spec(
                self@.answer(RequestView::GetState { key: name@ }),
                Lookup::Queried,
            ),
    {
        match self.ledger.get(name) {
            Some(bytes) => load_balance(Reply::Bytes(bytes), Lookup::Queried),
            None => load_balance(Reply::Failed, Lookup::Queried),
        }
    }

    /// The requests served so far, oldest first.
    pub fn journal(&self) -> (journal: &Vec<Request>)
        ensures
            journal.len() == self@.journal.len(),
            forall|i: int| 0 <= i < journal.len() ==> (#[trigger] journal[i])@ == self@.journal[i],
    {
        &self.journal
    }

    /// Whether the next write or removal goes through; if so, it is counted.
    fn take_write(&mut self) -> (confirmed: bool)
        ensures
            confirmed == old(self)@.confirms(1),
            final(self).parameters == old(self).parameters,
            final(self).ledger == old(self).ledger,
            final(self).journal == old(self).journal,
            final(self)@.writes_left == if confirmed {
                match old(self)@.writes_left {
                    Some(left) => Some((left - 1) as nat),
                    None => None,
                }
            } else {
                old(self)@.writes_left
            },
    {
        match self.writes_left {
            Some(left) => {
                if left == 0 {
                    false
                } else {
                    self.writes_left = Some(left - 1);
                    true
                }
            },
            None => true,
        }
    }

    /// Serves one request and notes it in the journal.
    pub fn serve(&mut self, request: Request) -> (reply: Reply)
        requires
            old(self).well_formed(),
        ensures
            final(self).well_formed(),
            final(self)@ == old(self)@.serve(request@),
            reply@ == old(self)@.answer(request@),
    {
        let reply = match &request {
            Request::GetParameter { index } => {
                if *index < self.parameters.len() {
                    let bytes: Vec<u8> = self.parameters[*index].clone();
                    assert(bytes@ =~= self.parameters[*index as int]@);
                    Reply::Bytes(bytes)
                } else {
                    Reply::Failed
                }
            },
            Request::GetState { key } => {
                match self.ledger.get(key) {
                    Some(bytes) => Reply::Bytes(bytes),
                    None => Reply::Failed,
                }
            },
            Request::PutState { key, value } => {
                if self.take_write() {
                    let stored: Vec<u8> = value.clone();
                    assert(stored@ =~= value@);
                    self.ledger.put(key.clone(), stored);
                    Reply::Done
                } else {
                    Reply::Failed
                }
            },
            Request::DeleteState { key } => {
                if self.take_write() {
                    self.ledger.delete(key);
                    Reply::Done
                } else {
                    Reply::Failed
                }
            },
        };
        self.journal.push(request);
        proof {
            assert(self@.parameters =~= old(self)@.parameters);
            assert(self@.journal =~= old(self)@.journal.push(request@));
        }
        reply
    }

    /// Runs the call that `step` is part of to its end, serving each request
    /// that the handler makes.
    pub fn run(&mut self, step: Step) -> (outcome: Outcome)
        requires
            old(self).well_formed(),
        ensures
            final(self).well_formed(),
            (final(self)@, outcome@) == old(self)@.run(step@),
    {
        let ghost whole = self@.run(step@);
        let mut current = step;
        loop
            invariant
                self.well_formed(),
                whole == old(self)@.run(step@),
                self@.run(current@) == whole,
            decreases current@.pending(),
        {
            match current {
                Step::Return(outcome) => {
                    return outcome;
                },
                Step::Call(request, handler) => {
                    let reply = self.serve(request);
                    current = handler.resume(reply);
                },
            }
        }
    }

    /// Calls `entry` with `arg_count` arguments and runs the call to its end.
    pub fn call(&mut self, entry: EntryPoint, arg_count: i64) -> (outcome: Outcome)
        requires
            old(self).well_formed(),
        ensures
            final(self).well_formed(),
            (final(self)@, outcome@) == old(self)@.run(begin_spec(entry, arg_count)),
    {
        self.run(begin(entry, arg_count))
    }
}

} // verus!
