//! The state machine of one operation.
//!
//! A [`Context`] is created empty, bound to one operation by an init call,
//! and then advanced by the calls that its state asks for until it reaches
//! `Done` or `Error`. Every call is specified by a function on
//! [`ContextView`], the mathematical value of the context.

use crate::binary::Binary;
use crate::binary::BinaryRef;
use crate::demand::document_views;
use crate::demand::kms_views;
use crate::demand::opened;
use crate::demand::request_views;
use crate::demand::Demand;
use crate::demand::DemandView;
use crate::demand::KeyRef;
use crate::demand::Operation;
use crate::demand::OperationView;
use crate::document::Document;
use crate::kms::KmsCtx;
use crate::kms::KmsCtxView;
use crate::kms::KmsRequest;
use crate::state::is_path;
use crate::state::lemma_path_extends;
use crate::state::lemma_path_shape;
use crate::state::CtxState;
use crate::state::OpKind;
use crate::status::Status;
use crate::status::StatusKind;
use crate::status::StatusView;
use crate::status::Violation;
use vstd::prelude::*;

verus! {

/// The mathematical value of a [`Context`].
pub struct ContextView {
    /// The current state.
    pub state: CtxState,
    /// The operation that the context is bound to, once it is.
    pub operation: Option<OperationView>,
    /// The payload that the current state asks the caller to send.
    pub request: Seq<u8>,
    /// The documents fed in the current state, in order.
    pub replies: Seq<Seq<u8>>,
    /// The key management requests of the current or latest such phase.
    pub kms: Seq<KmsCtxView>,
    /// How many of the requests have been handed out.
    pub cursor: nat,
    /// The result of the operation, once it is ready.
    pub result: Seq<u8>,
    /// The failure that ended the operation, if one did.
    pub status: StatusView,
    /// Every state that the context has been in, oldest first.
    pub history: Seq<CtxState>,
}

/// True when every request has its whole reply.
pub open spec fn all_satisfied(kms: Seq<KmsCtxView>) -> bool {
    forall|i: int| 0 <= i < kms.len() ==> (#[trigger] kms[i]).is_satisfied()
}

/// The value of a reply that may be missing.
pub open spec fn reply_view(reply: Option<Document>) -> Option<Seq<u8>> {
    match reply {
        Some(document) => Some(document@),
        None => None,
    }
}

impl ContextView {
    /// A context on which nothing has happened.
    pub open spec fn fresh() -> ContextView {
        ContextView {
            state: CtxState::Uninitialized,
            operation: None,
            request: Seq::<u8>::empty(),
            replies: Seq::<Seq<u8>>::empty(),
            kms: Seq::<KmsCtxView>::empty(),
            cursor: 0,
            result: Seq::<u8>::empty(),
            status: StatusView::clear(),
            history: seq![CtxState::Uninitialized],
        }
    }

    /// What holds of every context: its history is a walk through the
    /// protocol graph that ends in its state, it is in `Error` exactly when
    /// its status records a failure, no more requests have been handed out
    /// than there are, a context without a state has no operation, and the
    /// markings phase holds at most one reply.
    pub open spec fn inv(self) -> bool {
        &&& is_path(self.history)
        &&& self.history.last() == self.state
        &&& self.cursor <= self.kms.len()
        &&& (self.state == CtxState::Error <==> self.status.is_failure())
        &&& (self.state == CtxState::Uninitialized ==> self.operation is None)
        &&& (self.state == CtxState::NeedMongoMarkings ==> self.replies.len() <= 1)
    }

    /// The context after it has failed with `status`.
    pub open spec fn fail(self, status: StatusView) -> ContextView {
        ContextView {
            state: CtxState::Error,
            status,
            history: self.history.push(CtxState::Error),
            ..self
        }
    }

    /// The context after a call that it refuses for `violation`. A context
    /// that has ended stays as it is; any other fails with the status of the
    /// violation.
    pub open spec fn refuse(self, violation: Violation) -> ContextView {
        if self.state.is_terminal() {
            self
        } else {
            self.fail(violation.status_view())
        }
    }

    /// True when the context takes up `demand`: it reports no failure and
    /// asks for a state that may follow the current one.
    pub open spec fn admits(self, demand: DemandView) -> bool {
        demand.failure() is None && self.state.precedes(demand.target())
    }

    /// The context after the engine's verdict `demand` has been handed to it
    /// at the end of a phase. A failure that the engine reports ends the
    /// operation with the status reported. A demand that is admitted moves
    /// the context to the state asked for, with the payload to send or the
    /// result, a fresh set of requests when key management is asked, and no
    /// replies. Any other demand ends the operation as out of order.
    pub open spec fn enter(self, demand: DemandView) -> ContextView {
        match demand.failure() {
            Some(status) => self.fail(status),
            None => if self.state.precedes(demand.target()) {
                ContextView {
                    state: demand.target(),
                    request: demand.request(),
                    replies: Seq::<Seq<u8>>::empty(),
                    kms: match demand {
                        DemandView::Kms(requests) => opened(requests),
                        _ => self.kms,
                    },
                    cursor: if demand is Kms {
                        0
                    } else {
                        self.cursor
                    },
                    result: demand.result(),
                    history: self.history.push(demand.target()),
                    ..self
                }
            } else {
                self.fail(Violation::OutOfOrder.status_view())
            },
        }
    }

    /// The context after an init call with `operation` and the engine's
    /// first verdict. Only a context without a state can be initialized.
    pub open spec fn init(self, operation: OperationView, first: DemandView) -> ContextView {
        if self.state == CtxState::Uninitialized {
            (ContextView { operation: Some(operation), ..self }).enter(first)
        } else {
            self.refuse(Violation::AlreadyInitialized)
        }
    }

    /// Why a reply cannot be fed now, if it cannot.
    pub open spec fn feed_violation(self, reply: Option<Seq<u8>>) -> Option<Violation> {
        if !self.state.needs_documents() {
            Some(Violation::WrongState)
        } else if reply is None {
            Some(Violation::FailedReply)
        } else if self.state == CtxState::NeedMongoMarkings && self.replies.len() >= 1 {
            Some(Violation::ExtraReply)
        } else {
            None
        }
    }

    /// The context after `reply` has been fed.
    pub open spec fn mongo_feed(self, reply: Option<Seq<u8>>) -> ContextView {
        match self.feed_violation(reply) {
            Some(violation) => self.refuse(violation),
            None => ContextView { replies: self.replies.push(reply->0), ..self },
        }
    }

    /// Why the end of the replies cannot be signalled now, if it cannot.
    pub open spec fn done_violation(self) -> Option<Violation> {
        if !self.state.needs_documents() {
            Some(Violation::WrongState)
        } else if self.state == CtxState::NeedMongoMarkings && self.replies.len() == 0 {
            Some(Violation::MissingReply)
        } else {
            None
        }
    }

    /// The context after the end of the replies has been signalled and the
    /// engine has given its verdict on them.
    pub open spec fn mongo_done(self, next: DemandView) -> ContextView {
        match self.done_violation() {
            Some(violation) => self.refuse(violation),
            None => self.enter(next),
        }
    }

    /// The request that the next call for one hands out, if there is one.
    pub open spec fn next_kms(self) -> Option<nat> {
        if self.state == CtxState::NeedKms && self.cursor < self.kms.len() {
            Some(self.cursor)
        } else {
            None
        }
    }

    /// The context after the next request has been asked for.
    pub open spec fn next_kms_ctx(self) -> ContextView {
        if self.state != CtxState::NeedKms {
            self.refuse(Violation::WrongState)
        } else if self.cursor < self.kms.len() {
            ContextView { cursor: self.cursor + 1, ..self }
        } else {
            self
        }
    }

    /// Why reply bytes cannot be fed to request `id` now, if they cannot.
    pub open spec fn kms_feed_violation(self, id: nat, bytes: Seq<u8>) -> Option<Violation> {
        if self.state != CtxState::NeedKms {
            Some(Violation::WrongState)
        } else if id >= self.cursor || id >= self.kms.len() {
            Some(Violation::UnknownKmsRequest)
        } else {
            match self.kms[id as int].feed(bytes) {
                Ok(_) => None,
                Err(violation) => Some(violation),
            }
        }
    }

    /// The context after reply bytes have been fed to request `id`.
    pub open spec fn kms_feed(self, id: nat, bytes: Seq<u8>) -> ContextView {
        match self.kms_feed_violation(id, bytes) {
            Some(violation) => self.refuse(violation),
            None => ContextView {
                kms: self.kms.update(id as int, self.kms[id as int].feed(bytes)->Ok_0),
                ..self
            },
        }
    }

    /// Why the key management phase cannot be closed now, if it cannot.
    pub open spec fn kms_done_violation(self) -> Option<Violation> {
        if self.state != CtxState::NeedKms {
            Some(Violation::WrongState)
        } else if !all_satisfied(self.kms) {
            Some(Violation::KmsIncomplete)
        } else {
            None
        }
    }

    /// The context after the key management phase has been closed and the
    /// engine has given its verdict on the replies.
    pub open spec fn kms_done(self, next: DemandView) -> ContextView {
        match self.kms_done_violation() {
            Some(violation) => self.refuse(violation),
            None => self.enter(next),
        }
    }

    /// The context after the result has been asked for.
    pub open spec fn finalize(self) -> ContextView {
        if self.state == CtxState::Ready {
            ContextView {
                state: CtxState::Done,
                history: self.history.push(CtxState::Done),
                ..self
            }
        } else {
            self.refuse(Violation::WrongState)
        }
    }
}

/// The state machine of one operation.
pub struct Context {
    state: CtxState,
    operation: Option<Operation>,
    request: Binary,
    replies: Vec<Document>,
    kms: Vec<KmsCtx>,
    cursor: usize,
    result: Binary,
    status: Status,
    history: Ghost<Seq<CtxState>>,
}

impl View for Context {
    type V = ContextView;

    closed spec fn view(&self) -> ContextView {
        ContextView {
            state: self.state,
            operation: match self.operation {
                Some(operation) => Some(operation@),
                None => None,
            },
            request: self.request@,
            replies: document_views(self.replies@),
            kms: kms_views(self.kms@),
            cursor: self.cursor as nat,
            result: self.result@,
            status: self.status@,
            history: self.history@,
        }
    }
}

impl Context {
    /// True of every context that this module hands out.
    pub open spec fn wf(&self) -> bool {
        self@.inv()
    }

    /// A context on which nothing has happened.
    pub fn new() -> (ctx: Context)
        ensures
            ctx.wf(),
            ctx@ == ContextView::fresh(),
    {
        let ghost start = seq![CtxState::Uninitialized];
        let ctx = Context {
            state: CtxState::Uninitialized,
            operation: None,
            request: Binary::new(),
            replies: Vec::new(),
            kms: Vec::new(),
            cursor: 0,
            result: Binary::new(),
            status: Status::new(),
            history: Ghost(start),
        };
        assert(ctx@.replies =~= Seq::<Seq<u8>>::empty());
        assert(ctx@.kms =~= Seq::<KmsCtxView>::empty());
        ctx
    }

    /// The current state.
    pub fn state(&self) -> (s: CtxState)
        ensures
            s == self@.state,
    {
        self.state
    }

    /// The kind of the operation that the context is bound to, if it is.
    pub fn kind(&self) -> (k: Option<OpKind>)
        ensures
            k == match self@.operation {
                Some(operation) => Some(operation.kind()),
                None => None,
            },
    {
        match &self.operation {
            Some(operation) => Some(operation.kind()),
            None => None,
        }
    }

    /// The operation that the context is bound to, if it is.
    pub fn operation(&self) -> (op: Option<&Operation>)
        ensures
            op is Some <==> self@.operation is Some,
            op is Some ==> op->0@ == self@.operation->0,
    {
        self.operation.as_ref()
    }

    /// The status of the context: the failure that ended the operation, or
    /// no failure.
    pub fn status(&self) -> (s: &Status)
        ensures
            s@ == self@.status,
    {
        &self.status
    }

    /// The documents fed in the current state, in order.
    pub fn replies(&self) -> (r: &Vec<Document>)
        ensures
            document_views(r@) == self@.replies,
    {
        &self.replies
    }

    /// The request with identifier `id`, when it has been handed out.
    pub fn kms_ctx(&self, id: usize) -> (k: Option<&KmsCtx>)
        requires
            self.wf(),
        ensures
            k is Some <==> id < self@.cursor,
            k is Some ==> k->0@ == self@.kms[id as int],
    {
        if id < self.cursor {
            Some(&self.kms[id])
        } else {
            None
        }
    }

    /// Ends the operation with `status`.
    fn fail_with(&mut self, status: Status)
        requires
            old(self).wf(),
            !old(self)@.state.is_terminal(),
            status@.is_failure(),
        ensures
            final(self).wf(),
            final(self)@ == old(self)@.fail(status@),
    {
        proof {
            lemma_path_extends(self.history@, CtxState::Error);
        }
        self.state = CtxState::Error;
        self.status = status;
        self.history = Ghost(self.history@.push(CtxState::Error));
    }

    /// Refuses a call for `violation`.
    fn refuse(&mut self, violation: Violation)
        requires
            old(self).wf(),
        ensures
            final(self).wf(),
            final(self)@ == old(self)@.refuse(violation),
    {
        if !self.state.terminal() {
            self.fail_with(violation.status());
        }
    }

    /// Moves to `target` when it may follow the current state.
    fn advance(
        &mut self,
        target: CtxState,
        request: Binary,
        requests: Option<Vec<KmsCtx>>,
        result: Binary,
    ) -> (ok: bool)
        requires
            old(self).wf(),
            !old(self)@.state.is_terminal(),
            target != CtxState::Error,
            target != CtxState::Done,
        ensures
            final(self).wf(),
            ok == old(self)@.state.precedes(target),
            ok ==> final(self)@ == (ContextView {
                state: target,
                request: request@,
                replies: Seq::<Seq<u8>>::empty(),
                kms: match requests {
                    Some(contexts) => kms_views(contexts@),
                    None => old(self)@.kms,
                },
                cursor: if requests is Some {
                    0
                } else {
                    old(self)@.cursor
                },
                result: result@,
                history: old(self)@.history.push(target),
                ..old(self)@
            }),
            !ok ==> final(self)@ == old(self)@.fail(Violation::OutOfOrder.status_view()),
    {
        if self.state.may_precede(target) {
            proof {
                lemma_path_extends(self.history@, target);
            }
            self.state = target;
            self.request = request;
            self.replies = Vec::new();
            match requests {
                Some(contexts) => {
                    self.kms = contexts;
                    self.cursor = 0;
                },
                None => {},
            }
            self.result = result;
            self.history = Ghost(self.history@.push(target));
            assert(self@.replies =~= Seq::<Seq<u8>>::empty());
            true
        } else {
            self.fail_with(Violation::OutOfOrder.status());
            false
        }
    }

    /// Opens each request with nothing received.
    fn open_requests(requests: &Vec<KmsRequest>) -> (contexts: Vec<KmsCtx>)
        ensures
            kms_views(contexts@) == opened(request_views(requests@)),
    {
        let mut contexts: Vec<KmsCtx> = Vec::new();
        let mut i: usize = 0;
        while i < requests.len()
            invariant
                i <= requests.len(),
                contexts.len() == i,
                forall|j: int| 0 <= j < i ==> (#[trigger] contexts[j])@ == KmsCtxView::open(requests[j]@),
            decreases requests.len() - i,
        {
            contexts.push(KmsCtx::new(&requests[i]));
            i = i + 1;
        }
        assert(kms_views(contexts@) =~= opened(request_views(requests@)));
        contexts
    }

    /// Takes up the verdict of the engine at the end of a phase.
    fn enter(&mut self, demand: Demand) -> (ok: bool)
        requires
            old(self).wf(),
            !old(self)@.state.is_terminal(),
        ensures
            final(self).wf(),
            final(self)@ == old(self)@.enter(demand@),
            ok == old(self)@.admits(demand@),
    {
        match demand {
            Demand::CollInfo(filter) => self.advance(
                CtxState::NeedMongoCollinfo,
                filter,
                None,
                Binary::new(),
            ),
            Demand::Markings(command) => self.advance(
                CtxState::NeedMongoMarkings,
                command,
                None,
                Binary::new(),
            ),
            Demand::Keys(filter) => self.advance(
                CtxState::NeedMongoKeys,
                filter,
                None,
                Binary::new(),
            ),
            Demand::Kms(requests) => {
                let contexts = Self::open_requests(&requests);
                self.advance(CtxState::NeedKms, Binary::new(), Some(contexts), Binary::new())
            },
            Demand::Ready(result) => self.advance(CtxState::Ready, Binary::new(), None, result),
            Demand::Rejected(code, message) => {
                let mut status = Status::new();
                status.set(StatusKind::ClientError, code, message.as_str());
                self.fail_with(status);
                false
            },
            Demand::KmsFailed(code, message) => {
                let mut status = Status::new();
                status.set(StatusKind::KmsError, code, message.as_str());
                self.fail_with(status);
                false
            },
        }
    }

    /// Binds the context to `operation` and takes up the first verdict.
    fn init(&mut self, operation: Operation, first: Demand) -> (ok: bool)
        requires
            old(self).wf(),
        ensures
            final(self).wf(),
            final(self)@ == old(self)@.init(operation@, first@),
            ok == (old(self)@.state == CtxState::Uninitialized && old(self)@.admits(first@)),
    {
        match self.state {
            CtxState::Uninitialized => {
                let ok = self.enter(first);
                self.operation = Some(operation);
                ok
            },
            _ => {
                self.refuse(Violation::AlreadyInitialized);
                false
            },
        }
    }

    /// Starts the encryption of the marked fields of `command`, a command
    /// that targets `namespace`; `first` is the engine's verdict on it.
    ///
    /// Succeeds exactly when the context has no state yet and admits
    /// `first`. A context that already has an operation fails as already
    /// initialized, unless it has ended, in which case it stays as it is.
    pub fn encrypt_init(&mut self, namespace: &str, command: Document, first: Demand) -> (ok: bool)
        requires
            old(self).wf(),
        ensures
            final(self).wf(),
            final(self)@ == old(self)@.init(
                OperationView::Encrypt { namespace: namespace@, command: command@ },
                first@,
            ),
            ok == (old(self)@.state == CtxState::Uninitialized && old(self)@.admits(first@)),
    {
        self.init(Operation::Encrypt { namespace: namespace.to_owned(), command }, first)
    }

    /// Starts the decryption of the encrypted fields of `document`; `first`
    /// is the engine's verdict on it. Succeeds as `encrypt_init` does.
    pub fn decrypt_init(&mut self, document: Document, first: Demand) -> (ok: bool)
        requires
            old(self).wf(),
        ensures
            final(self).wf(),
            final(self)@ == old(self)@.init(
                OperationView::Decrypt { document: document@ },
                first@,
            ),
            ok == (old(self)@.state == CtxState::Uninitialized && old(self)@.admits(first@)),
    {
        self.init(Operation::Decrypt { document }, first)
    }

    /// Starts the encryption of `value` under `key` with `algorithm`;
    /// `first` is the engine's verdict on it. Succeeds as `encrypt_init`
    /// does.
    pub fn explicit_encrypt_init(
        &mut self,
        key: KeyRef,
        algorithm: &str,
        value: Document,
        first: Demand,
    ) -> (ok: bool)
        requires
            old(self).wf(),
        ensures
            final(self).wf(),
            final(self)@ == old(self)@.init(
                OperationView::ExplicitEncrypt {
                    key: key@,
                    algorithm: algorithm@,
                    value: value@,
                },
                first@,
            ),
            ok == (old(self)@.state == CtxState::Uninitialized && old(self)@.admits(first@)),
    {
        self.init(
            Operation::ExplicitEncrypt { key, algorithm: algorithm.to_owned(), value },
            first,
        )
    }

    /// Starts the decryption of `value`; `first` is the engine's verdict on
    /// it. Succeeds as `encrypt_init` does.
    pub fn explicit_decrypt_init(&mut self, value: Document, first: Demand) -> (ok: bool)
        requires
            old(self).wf(),
        ensures
            final(self).wf(),
            final(self)@ == old(self)@.init(
                OperationView::ExplicitDecrypt { value: value@ },
                first@,
            ),
            ok == (old(self)@.state == CtxState::Uninitialized && old(self)@.admits(first@)),
    {
        self.init(Operation::ExplicitDecrypt { value }, first)
    }

    /// The payload that the current state asks the caller to send: the
    /// filter or command of a state that needs documents. In any other
    /// state the call is refused as made in the wrong state.
    pub fn mongo_op(&mut self) -> (out: Option<Binary>)
        requires
            old(self).wf(),
        ensures
            final(self).wf(),
            out is Some <==> old(self)@.state.needs_documents(),
            out is Some ==> out->0@ == old(self)@.request && final(self)@ == old(self)@,
            out is None ==> final(self)@ == old(self)@.refuse(Violation::WrongState),
    {
        if self.state.wants_documents() {
            Some(self.request.duplicate())
        } else {
            self.refuse(Violation::WrongState);
            None
        }
    }

    /// Feeds one reply of the collaborator; `None` reports that the
    /// collaborator failed or that what it sent is no document.
    ///
    /// The reply is kept exactly when the state needs documents, the reply
    /// is there, and it is not a second reply to a request for markings.
    /// Otherwise the call is refused for the violation that
    /// `feed_violation` names.
    pub fn mongo_feed(&mut self, reply: Option<Document>) -> (ok: bool)
        requires
            old(self).wf(),
        ensures
            final(self).wf(),
            final(self)@ == old(self)@.mongo_feed(reply_view(reply)),
            ok == (old(self)@.feed_violation(reply_view(reply)) is None),
    {
        if !self.state.wants_documents() {
            self.refuse(Violation::WrongState);
            return false;
        }
        match reply {
            None => {
                self.refuse(Violation::FailedReply);
                false
            },
            Some(document) => {
                if self.state == CtxState::NeedMongoMarkings && self.replies.len() >= 1 {
                    self.refuse(Violation::ExtraReply);
                    false
                } else {
                    self.replies.push(document);
                    assert(self@.replies =~= old(self)@.replies.push(document@));
                    true
                }
            },
        }
    }

    /// Signals that the collaborator has no more replies; `next` is the
    /// engine's verdict on those that were fed.
    ///
    /// Succeeds exactly when the state needs documents, a request for
    /// markings has its reply, and the context admits `next`.
    pub fn mongo_done(&mut self, next: Demand) -> (ok: bool)
        requires
            old(self).wf(),
        ensures
            final(self).wf(),
            final(self)@ == old(self)@.mongo_done(next@),
            ok == (old(self)@.done_violation() is None && old(self)@.admits(next@)),
    {
        if !self.state.wants_documents() {
            self.refuse(Violation::WrongState);
            false
        } else if self.state == CtxState::NeedMongoMarkings && self.replies.len() == 0 {
            self.refuse(Violation::MissingReply);
            false
        } else {
            self.enter(next)
        }
    }

    /// Hands out the next key management request by its identifier, or
    /// `None` when every request of the phase has been handed out. Outside
    /// the key management phase the call is refused as made in the wrong
    /// state.
    pub fn next_kms_ctx(&mut self) -> (id: Option<usize>)
        requires
            old(self).wf(),
        ensures
            final(self).wf(),
            final(self)@ == old(self)@.next_kms_ctx(),
            match old(self)@.next_kms() {
                Some(n) => id == Some(n as usize),
                None => id is None,
            },
    {
        match self.state {
            CtxState::NeedKms => {
                if self.cursor < self.kms.len() {
                    let id: usize = self.cursor;
                    self.cursor = id + 1;
                    Some(id)
                } else {
                    None
                }
            },
            _ => {
                self.refuse(Violation::WrongState);
                None
            },
        }
    }

    /// Feeds reply bytes to the request with identifier `id`.
    ///
    /// The bytes are taken exactly when the context is in the key
    /// management phase, the request has been handed out, and the bytes are
    /// at least one and no more than the request still needs. Otherwise the
    /// call is refused for the violation that `kms_feed_violation` names.
    pub fn kms_feed(&mut self, id: usize, bytes: BinaryRef) -> (ok: bool)
        requires
            old(self).wf(),
        ensures
            final(self).wf(),
            final(self)@ == old(self)@.kms_feed(id as nat, bytes@),
            ok == (old(self)@.kms_feed_violation(id as nat, bytes@) is None),
    {
        match self.state {
            CtxState::NeedKms => {},
            _ => {
                self.refuse(Violation::WrongState);
                return false;
            },
        }
        if id >= self.cursor {
            self.refuse(Violation::UnknownKmsRequest);
            return false;
        }
        let fed = self.kms[id].feed(bytes);
        match fed {
            Ok(()) => {
                assert(self@.kms =~= old(self)@.kms.update(
                    id as int,
                    old(self)@.kms[id as int].feed(bytes@)->Ok_0,
                ));
                true
            },
            Err(violation) => {
                assert(self@.kms =~= old(self)@.kms);
                self.refuse(violation);
                false
            },
        }
    }

    /// Tells whether every request has its whole reply.
    fn requests_satisfied(&self) -> (b: bool)
        ensures
            b == all_satisfied(self@.kms),
    {
        let mut i: usize = 0;
        while i < self.kms.len()
            invariant
                i <= self.kms.len(),
                forall|j: int| 0 <= j < i ==> (#[trigger] self@.kms[j]).is_satisfied(),
            decreases self.kms.len() - i,
        {
            if !self.kms[i].satisfied() {
                assert(!self@.kms[i as int].is_satisfied());
                return false;
            }
            i = i + 1;
        }
        true
    }

    /// Closes the key management phase; `next` is the engine's verdict on
    /// the replies.
    ///
    /// Succeeds exactly when the context is in the key management phase,
    /// every request of the phase has its whole reply, and the context
    /// admits `next`. A request that still needs bytes makes the call a
    /// violation, whether or not it has been handed out.
    pub fn kms_done(&mut self, next: Demand) -> (ok: bool)
        requires
            old(self).wf(),
        ensures
            final(self).wf(),
            final(self)@ == old(self)@.kms_done(next@),
            ok == (old(self)@.kms_done_violation() is None && old(self)@.admits(next@)),
    {
        match self.state {
            CtxState::NeedKms => {},
            _ => {
                self.refuse(Violation::WrongState);
                return false;
            },
        }
        if !self.requests_satisfied() {
            self.refuse(Violation::KmsIncomplete);
            false
        } else {
            self.enter(next)
        }
    }

    /// Takes the result of the operation and ends it. The result is handed
    /// out exactly when the state is `Ready`; in any other state the call is
    /// refused as made in the wrong state.
    pub fn finalize(&mut self) -> (out: Option<Binary>)
        requires
            old(self).wf(),
        ensures
            final(self).wf(),
            final(self)@ == old(self)@.finalize(),
            out is Some <==> old(self)@.state == CtxState::Ready,
            out is Some ==> out->0@ == old(self)@.result,
    {
        match self.state {
            CtxState::Ready => {
                proof {
                    lemma_path_extends(self.history@, CtxState::Done);
                }
                self.state = CtxState::Done;
                self.history = Ghost(self.history@.push(CtxState::Done));
                Some(self.result.duplicate())
            },
            _ => {
                self.refuse(Violation::WrongState);
                None
            },
        }
    }

    /// Releases the context with everything it holds. The context is
    /// consumed, so it cannot be released a second time.
    pub fn destroy(self) {
    }
}

/// True when `after` can be what a call leaves of the context `before`: it
/// is again a context as `inv` describes; a context that has ended is left
/// as it is; the state either stays, with the history, or moves along an
/// edge of the protocol graph, which the history records; and an operation
/// that is bound stays bound and the same.
pub open spec fn follows(before: ContextView, after: ContextView) -> bool {
    &&& after.inv()
    &&& (before.state.is_terminal() ==> after == before)
    &&& {
        ||| after.state == before.state && after.history == before.history
        ||| before.state.precedes(after.state) && after.history == before.history.push(
            after.state,
        )
    }
    &&& (before.operation is Some ==> after.operation == before.operation)
}

/// A failing context follows the context that failed.
proof fn lemma_fail_follows(c: ContextView, status: StatusView)
    requires
        c.inv(),
        !c.state.is_terminal(),
        status.is_failure(),
    ensures
        follows(c, c.fail(status)),
{
    lemma_path_extends(c.history, CtxState::Error);
}

/// A context that refuses a call follows the context that was called.
proof fn lemma_refuse_follows(c: ContextView, violation: Violation)
    requires
        c.inv(),
    ensures
        follows(c, c.refuse(violation)),
{
    if !c.state.is_terminal() {
        lemma_fail_follows(c, violation.status_view());
    }
}

/// A context that takes up a verdict follows the context that was asked.
proof fn lemma_enter_follows(c: ContextView, demand: DemandView)
    requires
        c.inv(),
        !c.state.is_terminal(),
    ensures
        follows(c, c.enter(demand)),
{
    match demand.failure() {
        Some(status) => {
            lemma_fail_follows(c, status);
        },
        None => {
            if c.state.precedes(demand.target()) {
                lemma_path_extends(c.history, demand.target());
            } else {
                lemma_fail_follows(c, Violation::OutOfOrder.status_view());
            }
        },
    }
}

/// Every call keeps the protocol. Whatever is handed to a context, what a
/// call leaves of it follows it in the sense of `follows`: the state never
/// moves against the protocol graph, a context that has ended takes nothing
/// more, and the operation is bound once and for all.
pub proof fn lemma_calls_follow(
    c: ContextView,
    operation: OperationView,
    reply: Option<Seq<u8>>,
    demand: DemandView,
    id: nat,
    bytes: Seq<u8>,
)
    requires
        c.inv(),
    ensures
        follows(c, c.init(operation, demand)),
        follows(c, c.mongo_feed(reply)),
        follows(c, c.mongo_done(demand)),
        follows(c, c.next_kms_ctx()),
        follows(c, c.kms_feed(id, bytes)),
        follows(c, c.kms_done(demand)),
        follows(c, c.finalize()),
{
    assert(follows(c, c.init(operation, demand))) by {
        if c.state == CtxState::Uninitialized {
            let bound = ContextView { operation: Some(operation), ..c };
            lemma_path_extends(bound.history, CtxState::Error);
            if demand.failure() is None && bound.state.precedes(demand.target()) {
                lemma_path_extends(bound.history, demand.target());
            }
        } else {
            lemma_refuse_follows(c, Violation::AlreadyInitialized);
        }
    }
    assert(follows(c, c.mongo_feed(reply))) by {
        match c.feed_violation(reply) {
            Some(violation) => {
                lemma_refuse_follows(c, violation);
            },
            None => {},
        }
    }
    assert(follows(c, c.mongo_done(demand))) by {
        match c.done_violation() {
            Some(violation) => {
                lemma_refuse_follows(c, violation);
            },
            None => {
                lemma_enter_follows(c, demand);
            },
        }
    }
    assert(follows(c, c.next_kms_ctx())) by {
        lemma_refuse_follows(c, Violation::WrongState);
    }
    assert(follows(c, c.kms_feed(id, bytes))) by {
        match c.kms_feed_violation(id, bytes) {
            Some(violation) => {
                lemma_refuse_follows(c, violation);
            },
            None => {},
        }
    }
    assert(follows(c, c.kms_done(demand))) by {
        match c.kms_done_violation() {
            Some(violation) => {
                lemma_refuse_follows(c, violation);
            },
            None => {
                lemma_enter_follows(c, demand);
            },
        }
    }
    assert(follows(c, c.finalize())) by {
        if c.state == CtxState::Ready {
            lemma_path_extends(c.history, CtxState::Done);
        } else {
            lemma_refuse_follows(c, Violation::WrongState);
        }
    }
}

/// The states that a context has been in. They are a walk through the
/// protocol graph from `Uninitialized` to the current state; the walk is
/// not empty, no state but `NeedKms` occurs in it twice, and `Done` or
/// `Error` can only be its last state.
pub proof fn lemma_visited_states(c: ContextView)
    requires
        c.inv(),
    ensures
        c.history.len() >= 1,
        c.history[0] == CtxState::Uninitialized,
        c.history.last() == c.state,
        forall|i: int|
            0 <= i < c.history.len() - 1 ==> (#[trigger] c.history[i]).precedes(c.history[i + 1]),
        forall|i: int| 0 <= i < c.history.len() - 1 ==> !(#[trigger] c.history[i]).is_terminal(),
        forall|i: int, j: int|
            0 <= i < j < c.history.len() && c.history[i] == c.history[j] ==> c.history[i]
                == CtxState::NeedKms,
{
    lemma_path_shape(c.history);
}

/// The result is the engine's. When a context takes up the verdict that the
/// operation is ready with `result`, it is `Ready`; the call for the result
/// then ends it in `Done` and leaves `result`, unchanged, as what was handed
/// out.
pub proof fn lemma_ready_result(c: ContextView, result: Seq<u8>)
    requires
        c.inv(),
        c.admits(DemandView::Ready(result)),
    ensures
        c.enter(DemandView::Ready(result)).state == CtxState::Ready,
        c.enter(DemandView::Ready(result)).result == result,
        c.enter(DemandView::Ready(result)).finalize().state == CtxState::Done,
        c.enter(DemandView::Ready(result)).finalize().result == result,
        !c.enter(DemandView::Ready(result)).finalize().status.is_failure(),
{
}

} // verus!
