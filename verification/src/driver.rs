//! The decisions of the loop that drives a context to its end.
//!
//! The loop itself talks to the collaborators and so lives with the caller.
//! What it decides is here: which exchange a state asks for, how the replies
//! of a collaborator are handed over, and when a key management reply counts
//! as complete. The loop reads the state anew after every exchange, and
//! stops at the first call that fails.

use crate::binary::Binary;
use crate::binary::BinaryRef;
use crate::context::Context;
use crate::context::ContextView;
use crate::document::framed;
use crate::document::Document;
use crate::state::CtxState;
use vstd::prelude::*;

verus! {

/// What the loop does next.
#[derive(Clone, Copy, PartialEq, Eq, Debug, Structural)]
pub enum Exchange {
    /// List the collections that match the filter and feed what is found.
    CollInfo,
    /// Send the command to the query-analysis service and feed its reply.
    Markings,
    /// Find the keys that match the filter in the key vault and feed them.
    Keys,
    /// Serve every key management request, then close the phase.
    Kms,
    /// Take the result.
    Finalize,
    /// Stop: the operation has succeeded.
    Stop,
    /// Stop: the operation has failed; its status says why.
    Fail,
    /// Stop: the state is none that the loop knows how to serve. This is a
    /// fault of the driving code and is not retried.
    Unhandled,
}

/// The dispatch table of the loop.
pub open spec fn exchange_for(state: CtxState) -> Exchange {
    match state {
        CtxState::NeedMongoCollinfo => Exchange::CollInfo,
        CtxState::NeedMongoMarkings => Exchange::Markings,
        CtxState::NeedMongoKeys => Exchange::Keys,
        CtxState::NeedKms => Exchange::Kms,
        CtxState::Ready => Exchange::Finalize,
        CtxState::Done => Exchange::Stop,
        CtxState::Error => Exchange::Fail,
        _ => Exchange::Unhandled,
    }
}

/// Picks the one exchange that `state` asks for.
pub fn dispatch(state: CtxState) -> (exchange: Exchange)
    ensures
        exchange == exchange_for(state),
{
    match state {
        CtxState::NeedMongoCollinfo => Exchange::CollInfo,
        CtxState::NeedMongoMarkings => Exchange::Markings,
        CtxState::NeedMongoKeys => Exchange::Keys,
        CtxState::NeedKms => Exchange::Kms,
        CtxState::Ready => Exchange::Finalize,
        CtxState::Done => Exchange::Stop,
        CtxState::Error => Exchange::Fail,
        _ => Exchange::Unhandled,
    }
}

/// What a reply of a collaborator is to the context: the document that it
/// holds, or nothing when the bytes do not have the frame of a document.
pub open spec fn parsed(reply: Seq<u8>) -> Option<Seq<u8>> {
    if framed(reply) {
        Some(reply)
    } else {
        None
    }
}

/// The bytes of each buffer.
pub open spec fn binary_views(buffers: Seq<Binary>) -> Seq<Seq<u8>> {
    buffers.map_values(|b: Binary| b@)
}

/// True when the context keeps every one of `replies`, fed in order.
pub open spec fn keeps_all(c: ContextView, replies: Seq<Seq<u8>>) -> bool
    decreases replies.len(),
{
    replies.len() == 0 || (c.feed_violation(parsed(replies[0])) is None && keeps_all(
        c.mongo_feed(parsed(replies[0])),
        replies.drop_first(),
    ))
}

/// The context after `replies` have been fed in order, up to and including
/// the first one that it refuses.
pub open spec fn fed_each(c: ContextView, replies: Seq<Seq<u8>>) -> ContextView
    decreases replies.len(),
{
    if replies.len() == 0 {
        c
    } else if c.feed_violation(parsed(replies[0])) is Some {
        c.mongo_feed(parsed(replies[0]))
    } else {
        fed_each(c.mongo_feed(parsed(replies[0])), replies.drop_first())
    }
}

/// Hands the replies of a collaborator to the context: feeds each in order
/// as the document that it holds, and stops at the first that the context
/// refuses. A reply that does not have the frame of a document is fed as a
/// failed reply, which the context refuses.
///
/// Succeeds exactly when every reply is kept. The end of the replies is
/// left for the caller to signal, with the engine's verdict on them.
pub fn feed_replies(ctx: &mut Context, replies: &Vec<Binary>) -> (ok: bool)
    requires
        old(ctx).wf(),
    ensures
        final(ctx).wf(),
        final(ctx)@ == fed_each(old(ctx)@, binary_views(replies@)),
        ok == keeps_all(old(ctx)@, binary_views(replies@)),
{
    let ghost all = binary_views(replies@);
    let mut i: usize = 0;
    assert(all.skip(0) =~= all);
    while i < replies.len()
        invariant
            i <= replies.len(),
            ctx.wf(),
            all == binary_views(replies@),
            keeps_all(old(ctx)@, all) == keeps_all(ctx@, all.skip(i as int)),
            fed_each(old(ctx)@, all) == fed_each(ctx@, all.skip(i as int)),
        decreases replies.len() - i,
    {
        let ghost rest = all.skip(i as int);
        assert(rest[0] == replies[i as int]@);
        assert(rest.drop_first() =~= all.skip(i + 1));
        let kept = ctx.mongo_feed(Document::parse(replies[i].as_slice()));
        if !kept {
            return false;
        }
        i = i + 1;
    }
    assert(all.skip(i as int).len() == 0);
    true
}

/// Feeds the whole reply of a key management service to the request with
/// identifier `id`, and tells whether the request is then complete.
///
/// Succeeds exactly when the bytes are taken and the request needs no more
/// after them: a reply that is short of what the request needs is taken,
/// but the call reports that the request is still open.
pub fn answer_kms(ctx: &mut Context, id: usize, reply: BinaryRef) -> (ok: bool)
    requires
        old(ctx).wf(),
    ensures
        final(ctx).wf(),
        final(ctx)@ == old(ctx)@.kms_feed(id as nat, reply@),
        ok == (old(ctx)@.kms_feed_violation(id as nat, reply@) is None && reply@.len() == old(
            ctx,
        )@.kms[id as int].needed),
{
    if !ctx.kms_feed(id, reply) {
        return false;
    }
    match ctx.kms_ctx(id) {
        Some(request) => request.bytes_needed() == 0,
        None => false,
    }
}

} // verus!
