//! What an operation starts from, and what the engine asks for next.
//!
//! The cryptographic engine is no part of this crate. Whenever a phase of
//! the protocol is complete, the caller consults the engine and hands its
//! verdict to the context as a [`Demand`].

use crate::binary::Binary;
use crate::document::Document;
use crate::kms::KmsCtx;
use crate::kms::KmsCtxView;
use crate::kms::KmsRequest;
use crate::kms::KmsRequestView;
use crate::state::CtxState;
use crate::state::OpKind;
use crate::status::StatusKind;
use crate::status::StatusView;
use vstd::prelude::*;

verus! {

/// How explicit encryption names its key.
pub enum KeyRef {
    /// By the identifier of the key.
    Id(Binary),
    /// By an alternate name of the key.
    AltName(String),
}

/// The mathematical value of a [`KeyRef`].
pub enum KeyRefView {
    Id(Seq<u8>),
    AltName(Seq<char>),
}

impl View for KeyRef {
    type V = KeyRefView;

    open spec fn view(&self) -> KeyRefView {
        match self {
            KeyRef::Id(id) => KeyRefView::Id(id@),
            KeyRef::AltName(name) => KeyRefView::AltName(name@),
        }
    }
}

/// An operation with the payload that it starts from.
pub enum Operation {
    /// Encrypt the marked fields of `command`, which targets `namespace`.
    Encrypt { namespace: String, command: Document },
    /// Decrypt the encrypted fields of `document`.
    Decrypt { document: Document },
    /// Encrypt `value` under `key` with `algorithm`.
    ExplicitEncrypt { key: KeyRef, algorithm: String, value: Document },
    /// Decrypt `value`.
    ExplicitDecrypt { value: Document },
}

/// The mathematical value of an [`Operation`].
pub enum OperationView {
    Encrypt { namespace: Seq<char>, command: Seq<u8> },
    Decrypt { document: Seq<u8> },
    ExplicitEncrypt { key: KeyRefView, algorithm: Seq<char>, value: Seq<u8> },
    ExplicitDecrypt { value: Seq<u8> },
}

impl View for Operation {
    type V = OperationView;

    open spec fn view(&self) -> OperationView {
        match self {
            Operation::Encrypt { namespace, command } => OperationView::Encrypt {
                namespace: namespace@,
                command: command@,
            },
            Operation::Decrypt { document } => OperationView::Decrypt { document: document@ },
            Operation::ExplicitEncrypt { key, algorithm, value } => OperationView::ExplicitEncrypt {
                key: key@,
                algorithm: algorithm@,
                value: value@,
            },
            Operation::ExplicitDecrypt { value } => OperationView::ExplicitDecrypt {
                value: value@,
            },
        }
    }
}

impl OperationView {
    /// The kind of the operation.
    pub open spec fn kind(self) -> OpKind {
        match self {
            OperationView::Encrypt { .. } => OpKind::Encrypt,
            OperationView::Decrypt { .. } => OpKind::Decrypt,
            OperationView::ExplicitEncrypt { .. } => OpKind::ExplicitEncrypt,
            OperationView::ExplicitDecrypt { .. } => OpKind::ExplicitDecrypt,
        }
    }
}

impl Operation {
    /// The kind of the operation.
    pub fn kind(&self) -> (k: OpKind)
        ensures
            k == self@.kind(),
    {
        match self {
            Operation::Encrypt { .. } => OpKind::Encrypt,
            Operation::Decrypt { .. } => OpKind::Decrypt,
            Operation::ExplicitEncrypt { .. } => OpKind::ExplicitEncrypt,
            Operation::ExplicitDecrypt { .. } => OpKind::ExplicitDecrypt,
        }
    }
}

/// The verdict of the engine on what the operation needs next.
pub enum Demand {
    /// Collection metadata, to be found with this filter.
    CollInfo(Binary),
    /// Query-analysis markings for this command.
    Markings(Binary),
    /// Key documents, to be found in the key vault with this filter.
    Keys(Binary),
    /// These key management round trips.
    Kms(Vec<KmsRequest>),
    /// Nothing more: this is the result of the operation.
    Ready(Binary),
    /// The engine rejects what it was given, with this code and message.
    Rejected(u32, String),
    /// A key management service reported a failure, with this code and message.
    KmsFailed(u32, String),
}

/// The mathematical value of a [`Demand`].
pub enum DemandView {
    CollInfo(Seq<u8>),
    Markings(Seq<u8>),
    Keys(Seq<u8>),
    Kms(Seq<KmsRequestView>),
    Ready(Seq<u8>),
    Rejected(u32, Seq<char>),
    KmsFailed(u32, Seq<char>),
}

/// The values of a sequence of requests.
pub open spec fn request_views(requests: Seq<KmsRequest>) -> Seq<KmsRequestView> {
    requests.map_values(|r: KmsRequest| r@)
}

/// The values of a sequence of outstanding requests.
pub open spec fn kms_views(contexts: Seq<KmsCtx>) -> Seq<KmsCtxView> {
    contexts.map_values(|k: KmsCtx| k@)
}

/// The values of a sequence of documents.
pub open spec fn document_views(documents: Seq<Document>) -> Seq<Seq<u8>> {
    documents.map_values(|d: Document| d@)
}

/// Each request, opened with nothing received.
pub open spec fn opened(requests: Seq<KmsRequestView>) -> Seq<KmsCtxView> {
    requests.map_values(|r: KmsRequestView| KmsCtxView::open(r))
}

impl View for Demand {
    type V = DemandView;

    open spec fn view(&self) -> DemandView {
        match self {
            Demand::CollInfo(filter) => DemandView::CollInfo(filter@),
            Demand::Markings(command) => DemandView::Markings(command@),
            Demand::Keys(filter) => DemandView::Keys(filter@),
            Demand::Kms(requests) => DemandView::Kms(request_views(requests@)),
            Demand::Ready(result) => DemandView::Ready(result@),
            Demand::Rejected(code, message) => DemandView::Rejected(*code, message@),
            Demand::KmsFailed(code, message) => DemandView::KmsFailed(*code, message@),
        }
    }
}

impl DemandView {
    /// The status that the demand reports, when it reports a failure.
    pub open spec fn failure(self) -> Option<StatusView> {
        match self {
            DemandView::Rejected(code, message) => Some(
                StatusView { kind: StatusKind::ClientError, code, message },
            ),
            DemandView::KmsFailed(code, message) => Some(
                StatusView { kind: StatusKind::KmsError, code, message },
            ),
            _ => None,
        }
    }

    /// The state that the demand asks for.
    pub open spec fn target(self) -> CtxState {
        match self {
            DemandView::CollInfo(_) => CtxState::NeedMongoCollinfo,
            DemandView::Markings(_) => CtxState::NeedMongoMarkings,
            DemandView::Keys(_) => CtxState::NeedMongoKeys,
            DemandView::Kms(_) => CtxState::NeedKms,
            DemandView::Ready(_) => CtxState::Ready,
            DemandView::Rejected(_, _) => CtxState::Error,
            DemandView::KmsFailed(_, _) => CtxState::Error,
        }
    }

    /// The payload to send to the collaborator; empty when none is asked.
    pub open spec fn request(self) -> Seq<u8> {
        match self {
            DemandView::CollInfo(filter) => filter,
            DemandView::Markings(command) => command,
            DemandView::Keys(filter) => filter,
            _ => Seq::<u8>::empty(),
        }
    }

    /// The result of the operation; empty while it is not ready.
    pub open spec fn result(self) -> Seq<u8> {
        match self {
            DemandView::Ready(result) => result,
            _ => Seq::<u8>::empty(),
        }
    }
}

} // verus!
