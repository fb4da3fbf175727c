//! The states of a context and the order in which they may be visited.

use vstd::prelude::*;

verus! {

/// The state of a context.
#[derive(Clone, Copy, PartialEq, Eq, Debug, Structural)]
pub enum CtxState {
    /// No operation has been started.
    Uninitialized,
    /// The schema of the target collection is needed.
    NeedMongoCollinfo,
    /// The markings of the query-analysis service are needed.
    NeedMongoMarkings,
    /// Data-encryption-key documents are needed.
    NeedMongoKeys,
    /// Key management round trips are needed.
    NeedKms,
    /// Every input is there; the result can be taken.
    Ready,
    /// The result has been taken.
    Done,
    /// The operation has failed.
    Error,
}

/// The kind of operation that a context runs.
#[derive(Clone, Copy, PartialEq, Eq, Debug, Structural)]
pub enum OpKind {
    /// Encrypt the marked fields of a command.
    Encrypt,
    /// Decrypt the encrypted fields of a document.
    Decrypt,
    /// Encrypt one value under a key that the caller names.
    ExplicitEncrypt,
    /// Decrypt one value.
    ExplicitDecrypt,
}

impl CtxState {
    /// True for the two states that end an operation.
    pub open spec fn is_terminal(self) -> bool {
        self == CtxState::Done || self == CtxState::Error
    }

    /// True for the three states that are advanced by feeding documents.
    pub open spec fn needs_documents(self) -> bool {
        self == CtxState::NeedMongoCollinfo || self == CtxState::NeedMongoMarkings || self
            == CtxState::NeedMongoKeys
    }

    /// The position of the state along the protocol. A successful step never
    /// lowers it, and only a repeated key management phase keeps it.
    pub open spec fn rank(self) -> nat {
        match self {
            CtxState::Uninitialized => 0,
            CtxState::NeedMongoCollinfo => 1,
            CtxState::NeedMongoMarkings => 2,
            CtxState::NeedMongoKeys => 3,
            CtxState::NeedKms => 4,
            CtxState::Ready => 5,
            CtxState::Done => 6,
            CtxState::Error => 7,
        }
    }

    /// The edges of the protocol graph: `next` may directly follow `self`.
    ///
    /// A terminal state has no successor. From any other state the operation
    /// may fail. It may move to any later state that asks for input or is
    /// ready, may repeat the key management phase, and reaches `Done` from
    /// `Ready` only.
    pub open spec fn precedes(self, next: CtxState) -> bool {
        &&& !self.is_terminal()
        &&& next != CtxState::Uninitialized
        &&& {
            ||| next == CtxState::Error
            ||| next == CtxState::Done && self == CtxState::Ready
            ||| next != CtxState::Done && self.rank() < next.rank()
            ||| next == CtxState::NeedKms && self == CtxState::NeedKms
        }
    }

    /// Tells whether the state ends the operation.
    pub fn terminal(self) -> (b: bool)
        ensures
            b == self.is_terminal(),
    {
        match self {
            CtxState::Done => true,
            CtxState::Error => true,
            _ => false,
        }
    }

    /// Tells whether the state is advanced by feeding documents.
    pub fn wants_documents(self) -> (b: bool)
        ensures
            b == self.needs_documents(),
    {
        match self {
            CtxState::NeedMongoCollinfo => true,
            CtxState::NeedMongoMarkings => true,
            CtxState::NeedMongoKeys => true,
            _ => false,
        }
    }

    /// Tells whether `next` may directly follow this state.
    pub fn may_precede(self, next: CtxState) -> (b: bool)
        ensures
            b == self.precedes(next),
    {
        if self.terminal() {
            return false;
        }
        match next {
            CtxState::Uninitialized => false,
            CtxState::Error => true,
            CtxState::Done => self == CtxState::Ready,
            CtxState::NeedKms => self.position() <= 4,
            _ => self.position() < next.position(),
        }
    }

    /// The position of the state along the protocol.
    pub fn position(self) -> (r: u8)
        ensures
            r == self.rank(),
    {
        match self {
            CtxState::Uninitialized => 0,
            CtxState::NeedMongoCollinfo => 1,
            CtxState::NeedMongoMarkings => 2,
            CtxState::NeedMongoKeys => 3,
            CtxState::NeedKms => 4,
            CtxState::Ready => 5,
            CtxState::Done => 6,
            CtxState::Error => 7,
        }
    }
}

/// True when `trace` is a walk through the protocol graph that starts before
/// any operation: it is not empty, begins at `Uninitialized`, and each state
/// directly follows the one before it.
pub open spec fn is_path(trace: Seq<CtxState>) -> bool {
    &&& trace.len() >= 1
    &&& trace[0] == CtxState::Uninitialized
    &&& forall|i: int| 0 <= i < trace.len() - 1 ==> (#[trigger] trace[i]).precedes(trace[i + 1])
}

/// Extending a walk by a state that may follow its last state gives a walk.
pub proof fn lemma_path_extends(trace: Seq<CtxState>, next: CtxState)
    requires
        is_path(trace),
        trace.last().precedes(next),
    ensures
        is_path(trace.push(next)),
{
    let longer = trace.push(next);
    assert forall|i: int| 0 <= i < longer.len() - 1 implies (#[trigger] longer[i]).precedes(
        longer[i + 1],
    ) by {
        if i < trace.len() - 1 {
            assert(trace[i].precedes(trace[i + 1]));
        }
    }
}

/// Along a walk the position never falls.
pub proof fn lemma_path_rank_monotone(trace: Seq<CtxState>, i: int, j: int)
    requires
        is_path(trace),
        0 <= i <= j < trace.len(),
    ensures
        trace[i].rank() <= trace[j].rank(),
    decreases j - i,
{
    if i < j {
        lemma_path_rank_monotone(trace, i, j - 1);
        assert(trace[j - 1].precedes(trace[j - 1 + 1]));
    }
}

/// The shape of every walk: a terminal state can only be its last state, and
/// no state but `NeedKms` occurs in it twice.
pub proof fn lemma_path_shape(trace: Seq<CtxState>)
    requires
        is_path(trace),
    ensures
        trace.len() >= 1,
        forall|i: int| 0 <= i < trace.len() - 1 ==> !(#[trigger] trace[i]).is_terminal(),
        forall|i: int, j: int|
            0 <= i < j < trace.len() && trace[i] == trace[j] ==> trace[i] == CtxState::NeedKms,
{
    assert forall|i: int| 0 <= i < trace.len() - 1 implies !(#[trigger] trace[i]).is_terminal() by {
        assert(trace[i].precedes(trace[i + 1]));
    }
    assert forall|i: int, j: int|
        0 <= i < j < trace.len() && trace[i] == trace[j] implies trace[i]
        == CtxState::NeedKms by {
        assert(trace[i].precedes(trace[i + 1]));
        lemma_path_rank_monotone(trace, i + 1, j);
    }
}

} // verus!
