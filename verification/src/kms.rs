//! Key management requests and the accounting of their replies.
//!
//! A [`KmsCtx`] stands for one outstanding request. It holds the message to
//! send, which does not change, and counts down the reply bytes that are
//! still needed while the reply arrives in pieces.

use crate::binary::append_bytes;
use crate::binary::Binary;
use crate::binary::BinaryRef;
use crate::status::Violation;
use vstd::prelude::*;

verus! {

/// What the engine asks of a key management endpoint: the message to send
/// and the length of the reply that completes the request.
pub struct KmsRequest {
    pub message: Binary,
    pub bytes_needed: u32,
}

/// The mathematical value of a [`KmsRequest`].
pub struct KmsRequestView {
    pub message: Seq<u8>,
    pub bytes_needed: u32,
}

impl View for KmsRequest {
    type V = KmsRequestView;

    open spec fn view(&self) -> KmsRequestView {
        KmsRequestView { message: self.message@, bytes_needed: self.bytes_needed }
    }
}

/// The mathematical value of a [`KmsCtx`]: the message, the number of reply
/// bytes still needed, and the reply received so far.
pub struct KmsCtxView {
    pub message: Seq<u8>,
    pub needed: nat,
    pub response: Seq<u8>,
}

impl KmsCtxView {
    /// The request as it is before any reply byte has arrived.
    pub open spec fn open(request: KmsRequestView) -> KmsCtxView {
        KmsCtxView {
            message: request.message,
            needed: request.bytes_needed as nat,
            response: Seq::<u8>::empty(),
        }
    }

    /// True when the whole reply has arrived.
    pub open spec fn is_satisfied(self) -> bool {
        self.needed == 0
    }

    /// What feeding `bytes` does: a piece of one byte or more that does not
    /// exceed what is needed is taken and lowers the count by its length;
    /// an empty piece and a piece that is too long are violations.
    pub open spec fn feed(self, bytes: Seq<u8>) -> Result<KmsCtxView, Violation> {
        if bytes.len() == 0 {
            Err(Violation::EmptyKmsFeed)
        } else if bytes.len() > self.needed {
            Err(Violation::KmsOverfeed)
        } else {
            Ok(
                KmsCtxView {
                    message: self.message,
                    needed: (self.needed - bytes.len()) as nat,
                    response: self.response + bytes,
                },
            )
        }
    }

    /// What feeding the pieces of `chunks` one after the other does. The
    /// first violation ends it.
    pub open spec fn feed_all(self, chunks: Seq<Seq<u8>>) -> Result<KmsCtxView, Violation>
        decreases chunks.len(),
    {
        if chunks.len() == 0 {
            Ok(self)
        } else {
            match self.feed(chunks[0]) {
                Ok(next) => next.feed_all(chunks.drop_first()),
                Err(v) => Err(v),
            }
        }
    }
}

/// The total length of the pieces.
pub open spec fn total_len(chunks: Seq<Seq<u8>>) -> nat
    decreases chunks.len(),
{
    if chunks.len() == 0 {
        0
    } else {
        chunks[0].len() + total_len(chunks.drop_first())
    }
}

/// The pieces joined in order.
pub open spec fn joined(chunks: Seq<Seq<u8>>) -> Seq<u8>
    decreases chunks.len(),
{
    if chunks.len() == 0 {
        Seq::<u8>::empty()
    } else {
        chunks[0] + joined(chunks.drop_first())
    }
}

/// True when every piece holds at least one byte.
pub open spec fn all_nonempty(chunks: Seq<Seq<u8>>) -> bool {
    forall|i: int| 0 <= i < chunks.len() ==> (#[trigger] chunks[i]).len() > 0
}

/// One outstanding key management request.
pub struct KmsCtx {
    message: Binary,
    needed: u32,
    response: Vec<u8>,
}

impl View for KmsCtx {
    type V = KmsCtxView;

    closed spec fn view(&self) -> KmsCtxView {
        KmsCtxView {
            message: self.message@,
            needed: self.needed as nat,
            response: self.response@,
        }
    }
}

impl KmsCtx {
    /// Opens the request: nothing has been received yet.
    pub fn new(request: &KmsRequest) -> (k: KmsCtx)
        ensures
            k@ == KmsCtxView::open(request@),
    {
        KmsCtx {
            message: request.message.duplicate(),
            needed: request.bytes_needed,
            response: Vec::new(),
        }
    }

    /// The message to send. It is the same on every call.
    pub fn message(&self) -> (m: &Binary)
        ensures
            m@ == self@.message,
    {
        &self.message
    }

    /// The number of reply bytes that are still needed.
    pub fn bytes_needed(&self) -> (n: u32)
        ensures
            n == self@.needed,
    {
        self.needed
    }

    /// Tells whether the whole reply has arrived.
    pub fn satisfied(&self) -> (b: bool)
        ensures
            b == self@.is_satisfied(),
    {
        self.needed == 0
    }

    /// The reply bytes received so far, in the order in which they came.
    pub fn response(&self) -> (r: &[u8])
        ensures
            r@ == self@.response,
    {
        self.response.as_slice()
    }

    /// Feeds the next piece of the reply. A piece that is accepted is
    /// appended to the reply and lowers the count of needed bytes by its
    /// length. An empty piece, and one longer than what is needed, is
    /// refused with the violation that names it, and changes nothing.
    pub fn feed(&mut self, bytes: BinaryRef) -> (r: Result<(), Violation>)
        ensures
            match old(self)@.feed(bytes@) {
                Ok(next) => r is Ok && final(self)@ == next,
                Err(v) => r == Err::<(), Violation>(v) && final(self)@ == old(self)@,
            },
    {
        let n: usize = bytes.len();
        if n == 0 {
            return Err(Violation::EmptyKmsFeed);
        }
        if n > self.needed as usize {
            return Err(Violation::KmsOverfeed);
        }
        append_bytes(&mut self.response, bytes.as_slice());
        self.needed = self.needed - (n as u32);
        Ok(())
    }
}

/// Reply accounting. When every piece holds at least one byte and together
/// they do not exceed what the request needs, feeding them in any split is
/// accepted, leaves exactly the difference needed, and collects the pieces
/// in order. So the request is satisfied at the end if and only if the
/// pieces add up to exactly what was needed.
pub proof fn lemma_feed_all_counts(k: KmsCtxView, chunks: Seq<Seq<u8>>)
    requires
        all_nonempty(chunks),
        total_len(chunks) <= k.needed,
    ensures
        k.feed_all(chunks) is Ok,
        k.feed_all(chunks)->Ok_0.needed == k.needed - total_len(chunks),
        k.feed_all(chunks)->Ok_0.response == k.response + joined(chunks),
        k.feed_all(chunks)->Ok_0.message == k.message,
        k.feed_all(chunks)->Ok_0.is_satisfied() <==> total_len(chunks) == k.needed,
    decreases chunks.len(),
{
    if chunks.len() == 0 {
        assert(k.response + joined(chunks) =~= k.response);
    } else {
        let rest = chunks.drop_first();
        assert(chunks[0].len() > 0);
        assert(all_nonempty(rest)) by {
            assert forall|i: int| 0 <= i < rest.len() implies (#[trigger] rest[i]).len() > 0 by {
                assert(rest[i] == chunks[i + 1]);
            }
        }
        let next = k.feed(chunks[0])->Ok_0;
        lemma_feed_all_counts(next, rest);
        assert((k.response + chunks[0]) + joined(rest) =~= k.response + joined(chunks));
    }
}

/// The total length of the first `n` pieces grows with `n`, and grows
/// strictly when every piece holds at least one byte.
pub proof fn lemma_total_len_prefix(chunks: Seq<Seq<u8>>, n: int)
    requires
        0 <= n <= chunks.len(),
    ensures
        total_len(chunks.take(n)) <= total_len(chunks),
        all_nonempty(chunks) && n < chunks.len() ==> total_len(chunks.take(n)) < total_len(chunks),
    decreases chunks.len(),
{
    if n == 0 {
        assert(chunks.take(0).len() == 0);
        if chunks.len() > 0 && all_nonempty(chunks) {
            assert(chunks[0].len() > 0);
        }
    } else {
        let rest = chunks.drop_first();
        assert(chunks.take(n)[0] == chunks[0]);
        assert(chunks.take(n).drop_first() =~= rest.take(n - 1));
        if all_nonempty(chunks) {
            assert forall|i: int| 0 <= i < rest.len() implies (#[trigger] rest[i]).len() > 0 by {
                assert(rest[i] == chunks[i + 1]);
            }
        }
        lemma_total_len_prefix(rest, n - 1);
    }
}

/// A reply is complete exactly once. When pieces of at least one byte each
/// add up to exactly what the request needs, the request is satisfied after
/// the last piece, and after every shorter run of the pieces it still needs
/// bytes.
pub proof fn lemma_satisfied_exactly_once(k: KmsCtxView, chunks: Seq<Seq<u8>>, n: int)
    requires
        all_nonempty(chunks),
        total_len(chunks) == k.needed,
        0 <= n <= chunks.len(),
    ensures
        k.feed_all(chunks.take(n)) is Ok,
        k.feed_all(chunks.take(n))->Ok_0.is_satisfied() <==> n == chunks.len(),
{
    let prefix = chunks.take(n);
    lemma_total_len_prefix(chunks, n);
    assert(all_nonempty(prefix)) by {
        assert forall|i: int| 0 <= i < prefix.len() implies (#[trigger] prefix[i]).len() > 0 by {
            assert(prefix[i] == chunks[i]);
        }
    }
    lemma_feed_all_counts(k, prefix);
    if n == chunks.len() {
        assert(prefix =~= chunks);
    }
}

/// Too much is refused. A piece longer than what is still needed is a
/// violation, whatever was fed before it, and so is an empty piece.
pub proof fn lemma_feed_refusals(k: KmsCtxView, bytes: Seq<u8>)
    ensures
        bytes.len() == 0 ==> k.feed(bytes) == Err::<KmsCtxView, Violation>(Violation::EmptyKmsFeed),
        bytes.len() > k.needed ==> k.feed(bytes) is Err,
        k.is_satisfied() ==> k.feed(bytes) is Err,
{
}

} // verus!
