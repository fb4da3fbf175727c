use bson::spec::BinarySubtype;
use bson::Bson;
use fle_context::binary::{Binary, BinaryRef};
use fle_context::context::Context;
use fle_context::demand::{Demand, KeyRef, Operation};
use fle_context::document::Document;
use fle_context::driver::{dispatch, Exchange};
use fle_context::kms::KmsRequest;
use fle_context::state::CtxState;
use fle_context::status::{StatusKind, Violation};

const KEY_ID: [u8; 16] = [0x61; 16];
const KMS_REPLY: &[u8] = b"HTTP/1.1 200 OK\r\nContent-Length: 17\r\n\r\n{\"Plaintext\":\"k\"}";

fn encode(doc: &bson::Document) -> Vec<u8> {
    let mut bytes = Vec::new();
    doc.to_writer(&mut bytes).unwrap();
    bytes
}

fn doc_from_binary(bytes: &[u8]) -> bson::Document {
    bson::Document::from_reader(bytes).unwrap()
}

fn command() -> bson::Document {
    let mut filter = bson::Document::new();
    filter.insert("ssn", "123-45-6789");
    let mut cmd = bson::Document::new();
    cmd.insert("find", "test");
    cmd.insert("filter", filter);
    cmd
}

fn collection_info() -> bson::Document {
    let mut ssn = bson::Document::new();
    ssn.insert("bsonType", "string");
    let mut properties = bson::Document::new();
    properties.insert("ssn", ssn);
    let mut schema = bson::Document::new();
    schema.insert("properties", properties);
    let mut info = bson::Document::new();
    info.insert("name", "test");
    info.insert("schema", schema);
    info
}

fn marked_reply() -> bson::Document {
    let mut reply = bson::Document::new();
    reply.insert("hasEncryptedPlaceholders", true);
    reply.insert("marked", vec![Bson::String("ssn".to_string())]);
    reply
}

fn key_document() -> bson::Document {
    let mut key = bson::Document::new();
    key.insert("_id", bson::Binary { subtype: BinarySubtype::Uuid, bytes: KEY_ID.to_vec() });
    key.insert("keyMaterial", bson::Binary { subtype: BinarySubtype::Generic, bytes: vec![1; 32] });
    key
}

fn seal(plaintext: &str) -> Bson {
    let mut bytes = KEY_ID.to_vec();
    bytes.extend(plaintext.bytes().map(|b| b ^ 0x5a));
    Bson::Binary(bson::Binary { subtype: BinarySubtype::Encrypted, bytes })
}

fn unseal(value: &Bson) -> Bson {
    match value {
        Bson::Binary(bson::Binary { subtype: BinarySubtype::Encrypted, bytes }) => {
            let plain: Vec<u8> = bytes[KEY_ID.len()..].iter().map(|b| b ^ 0x5a).collect();
            Bson::String(String::from_utf8(plain).unwrap())
        }
        other => other.clone(),
    }
}

fn key_filter() -> Demand {
    let mut filter = bson::Document::new();
    filter.insert("_id", bson::Binary { subtype: BinarySubtype::Uuid, bytes: KEY_ID.to_vec() });
    Demand::Keys(Binary::from_vec(encode(&filter)))
}

fn kms_round() -> Demand {
    Demand::Kms(vec![KmsRequest {
        message: Binary::from_vec(b"POST / HTTP/1.1\r\nX-Amz-Target: TrentService.Decrypt\r\n\r\n".to_vec()),
        bytes_needed: KMS_REPLY.len() as u32,
    }])
}

/// A stand-in for the cryptographic engine. It gives the verdicts that the
/// context asks of it, and seals a value by a reversible scrambling.
fn verdict(ctx: &Context) -> Demand {
    let operation = ctx.operation().unwrap();
    match (ctx.state(), operation) {
        (CtxState::NeedMongoCollinfo, Operation::Encrypt { command, .. }) => {
            let info = doc_from_binary(ctx.replies()[0].as_slice());
            let mut marking = doc_from_binary(command.as_slice());
            marking.insert("jsonSchema", info.get_document("schema").unwrap().clone());
            Demand::Markings(Binary::from_vec(encode(&marking)))
        }
        (CtxState::NeedMongoMarkings, _) => {
            let reply = doc_from_binary(ctx.replies()[0].as_slice());
            if reply.get_bool("hasEncryptedPlaceholders").unwrap() {
                key_filter()
            } else {
                Demand::Rejected(1, "nothing is marked".to_string())
            }
        }
        (CtxState::NeedMongoKeys, _) => {
            if ctx.replies().is_empty() {
                Demand::Rejected(1, "key not found".to_string())
            } else {
                kms_round()
            }
        }
        (CtxState::NeedKms, Operation::Encrypt { command, .. }) => {
            let mut result = doc_from_binary(command.as_slice());
            let filter = result.get_document_mut("filter").unwrap();
            let plain = filter.get_str("ssn").unwrap().to_string();
            filter.insert("ssn", seal(&plain));
            Demand::Ready(Binary::from_vec(encode(&result)))
        }
        (CtxState::NeedKms, Operation::Decrypt { document }) => {
            let mut result = doc_from_binary(document.as_slice());
            let filter = result.get_document_mut("filter").unwrap();
            let opened = unseal(filter.get("ssn").unwrap());
            filter.insert("ssn", opened);
            Demand::Ready(Binary::from_vec(encode(&result)))
        }
        (CtxState::NeedKms, Operation::ExplicitEncrypt { value, .. }) => {
            let wrapped = doc_from_binary(value.as_slice());
            let mut result = bson::Document::new();
            result.insert("v", seal(wrapped.get_str("v").unwrap()));
            Demand::Ready(Binary::from_vec(encode(&result)))
        }
        _ => Demand::Rejected(1, "no verdict for this state".to_string()),
    }
}

fn first_verdict(command: &bson::Document) -> Demand {
    let mut filter = bson::Document::new();
    filter.insert("name", command.get_str("find").unwrap());
    Demand::CollInfo(Binary::from_vec(encode(&filter)))
}

fn run_state_machine(ctx: &mut Context, visited: &mut Vec<CtxState>) -> bson::Document {
    let mut result = bson::Document::new();
    loop {
        let state = ctx.state();
        visited.push(state);
        match dispatch(state) {
            Exchange::CollInfo => {
                let output = ctx.mongo_op().unwrap();
                assert_eq!(doc_from_binary(output.as_slice()).get_str("name").unwrap(), "test");
                output.destroy();
                let input = encode(&collection_info());
                assert!(ctx.mongo_feed(Document::parse(&input)));
                let next = verdict(ctx);
                assert!(ctx.mongo_done(next));
            }
            Exchange::Markings => {
                let output = ctx.mongo_op().unwrap();
                assert!(doc_from_binary(output.as_slice()).contains_key("jsonSchema"));
                output.destroy();
                let input = encode(&marked_reply());
                assert!(ctx.mongo_feed(Document::parse(&input)));
                let next = verdict(ctx);
                assert!(ctx.mongo_done(next));
            }
            Exchange::Keys => {
                let output = ctx.mongo_op().unwrap();
                assert!(doc_from_binary(output.as_slice()).contains_key("_id"));
                output.destroy();
                let input = encode(&key_document());
                assert!(ctx.mongo_feed(Document::parse(&input)));
                let next = verdict(ctx);
                assert!(ctx.mongo_done(next));
            }
            Exchange::Kms => {
                loop {
                    let kms = match ctx.next_kms_ctx() {
                        Some(kms) => kms,
                        None => break,
                    };
                    let output = ctx.kms_ctx(kms).unwrap().message().duplicate();
                    assert!(std::str::from_utf8(output.as_slice()).unwrap().starts_with("POST"));
                    output.destroy();
                    assert!(ctx.kms_feed(kms, BinaryRef::new_from(KMS_REPLY)));
                    assert_eq!(0, ctx.kms_ctx(kms).unwrap().bytes_needed());
                }
                let next = verdict(ctx);
                ctx.kms_done(next);
            }
            Exchange::Finalize => {
                let output = ctx.finalize().unwrap();
                result = doc_from_binary(output.as_slice());
                output.destroy();
            }
            Exchange::Stop => break,
            Exchange::Fail => panic!("got error: {}", ctx.status().message()),
            Exchange::Unhandled => panic!("unhandled state {:?}", state),
        }
    }
    result
}

fn assert_is_path(visited: &[CtxState]) {
    assert!(!visited.is_empty());
    for pair in visited.windows(2) {
        assert!(pair[0].may_precede(pair[1]), "{:?} then {:?}", pair[0], pair[1]);
    }
    for (i, state) in visited.iter().enumerate() {
        if i + 1 < visited.len() {
            assert!(!state.terminal());
        }
        if *state != CtxState::NeedKms {
            assert!(!visited[i + 1..].contains(state), "{:?} twice", state);
        }
    }
}

#[test]
fn run() {
    println!("******* ENCRYPTION *******");
    let mut ctx = Context::new();
    let msg = Document::parse(&encode(&command())).unwrap();
    assert!(ctx.encrypt_init("test", msg, first_verdict(&command())));
    let mut visited = Vec::new();
    let result = run_state_machine(&mut ctx, &mut visited);
    ctx.destroy();
    assert_eq!(visited.last(), Some(&CtxState::Done));

    println!("******* DECRYPTION *******");
    let mut ctx = Context::new();
    let mut input_bytes = vec![];
    result.to_writer(&mut input_bytes).unwrap();
    assert!(ctx.decrypt_init(Document::parse(&input_bytes).unwrap(), key_filter()));
    let mut visited = Vec::new();
    let decrypted = run_state_machine(&mut ctx, &mut visited);
    ctx.destroy();
    assert_eq!(decrypted, command());

    println!("******* EXPLICIT ENCRYPTION *******");
    let mut ctx = Context::new();
    let mut key_doc = key_document();
    let key_bytes = match key_doc.get_mut("_id").unwrap() {
        Bson::Binary(bson::Binary { bytes, .. }) => bytes,
        _ => panic!("non-binary bson"),
    };
    let key_id = KeyRef::Id(BinaryRef::new_from(key_bytes).to_binary());
    let mut wrapped = bson::Document::new();
    wrapped.insert("v", "hello");
    let mut wrapped_bytes = vec![];
    wrapped.to_writer(&mut wrapped_bytes).unwrap();
    assert!(ctx.explicit_encrypt_init(
        key_id,
        "AEAD_AES_256_CBC_HMAC_SHA_512-Random",
        Document::parse(&wrapped_bytes).unwrap(),
        key_filter(),
    ));
    let mut visited = Vec::new();
    let result = run_state_machine(&mut ctx, &mut visited);
    ctx.destroy();
    assert_eq!(unseal(result.get("v").unwrap()), Bson::String("hello".to_string()));

    println!("******* EXPLICIT DECRYPTION *******");
}

#[test]
fn encrypt_scenario_visits_every_state_in_order() {
    let mut ctx = Context::new();
    let msg = Document::parse(&encode(&command())).unwrap();
    assert!(ctx.encrypt_init("test", msg, first_verdict(&command())));
    let mut visited = vec![CtxState::Uninitialized];
    let result = run_state_machine(&mut ctx, &mut visited);
    assert_eq!(
        visited,
        vec![
            CtxState::Uninitialized,
            CtxState::NeedMongoCollinfo,
            CtxState::NeedMongoMarkings,
            CtxState::NeedMongoKeys,
            CtxState::NeedKms,
            CtxState::Ready,
            CtxState::Done,
        ]
    );
    assert_is_path(&visited);
    assert_eq!(ctx.state(), CtxState::Done);
    assert!(ctx.status().is_ok());
    assert_eq!(ctx.kms_ctx(0).unwrap().bytes_needed(), 0);
    assert_eq!(ctx.kms_ctx(0).unwrap().response(), KMS_REPLY);

    assert!(!result.is_empty());
    assert_eq!(result.get_str("find").unwrap(), "test");
    match result.get_document("filter").unwrap().get("ssn").unwrap() {
        Bson::Binary(binary) => assert_eq!(binary.subtype, BinarySubtype::Encrypted),
        other => panic!("ssn is not ciphertext: {:?}", other),
    }
}

#[test]
fn encrypt_then_decrypt_gives_back_the_plaintext() {
    let mut ctx = Context::new();
    let msg = Document::parse(&encode(&command())).unwrap();
    assert!(ctx.encrypt_init("test", msg, first_verdict(&command())));
    let encrypted = run_state_machine(&mut ctx, &mut Vec::new());
    assert_ne!(encrypted, command());

    let mut ctx = Context::new();
    assert!(ctx.decrypt_init(Document::parse(&encode(&encrypted)).unwrap(), key_filter()));
    let mut visited = vec![CtxState::Uninitialized];
    let decrypted = run_state_machine(&mut ctx, &mut visited);
    assert_eq!(
        decrypted.get_document("filter").unwrap().get_str("ssn").unwrap(),
        "123-45-6789"
    );
    assert_eq!(decrypted, command());
    assert_eq!(
        visited,
        vec![
            CtxState::Uninitialized,
            CtxState::NeedMongoKeys,
            CtxState::NeedKms,
            CtxState::Ready,
            CtxState::Done,
        ]
    );
    assert_is_path(&visited);
}

#[test]
fn truncated_collection_info_ends_in_error() {
    let mut ctx = Context::new();
    let msg = Document::parse(&encode(&command())).unwrap();
    assert!(ctx.encrypt_init("test", msg, first_verdict(&command())));
    assert_eq!(ctx.state(), CtxState::NeedMongoCollinfo);
    assert!(ctx.mongo_op().is_some());

    let mut input = encode(&collection_info());
    input.truncate(input.len() / 2);
    assert!(!ctx.mongo_feed(Document::parse(&input)));

    assert_eq!(ctx.state(), CtxState::Error);
    assert_eq!(dispatch(ctx.state()), Exchange::Fail);
    assert_eq!(ctx.status().kind(), StatusKind::ClientError);
    assert_eq!(ctx.status().code(), Violation::FailedReply.code());
    assert_eq!(ctx.status().message(), "reply missing or not a well-formed document");

    assert!(!ctx.mongo_done(Demand::Markings(Binary::from_vec(encode(&command())))));
    assert_eq!(ctx.state(), CtxState::Error);
    assert!(ctx.mongo_op().is_none());
    assert!(ctx.replies().is_empty());
}

#[test]
fn collection_info_that_the_engine_rejects_ends_in_error() {
    let mut ctx = Context::new();
    let msg = Document::parse(&encode(&command())).unwrap();
    assert!(ctx.encrypt_init("test", msg, first_verdict(&command())));
    let mut garbled = bson::Document::new();
    garbled.insert("unexpected", 1);
    assert!(ctx.mongo_feed(Document::parse(&encode(&garbled))));
    assert!(!ctx.mongo_done(Demand::Rejected(1, "collection info lacks a schema".to_string())));
    assert_eq!(ctx.state(), CtxState::Error);
    assert_eq!(ctx.status().kind(), StatusKind::ClientError);
    assert_eq!(ctx.status().message(), "collection info lacks a schema");
}

#[test]
fn visited_states_form_a_path_when_the_operation_fails() {
    let mut ctx = Context::new();
    let mut visited = vec![ctx.state()];
    let msg = Document::parse(&encode(&command())).unwrap();
    assert!(ctx.encrypt_init("test", msg, first_verdict(&command())));
    visited.push(ctx.state());
    assert!(ctx.mongo_feed(Document::parse(&encode(&collection_info()))));
    assert!(ctx.mongo_done(kms_round()));
    visited.push(ctx.state());
    assert_eq!(ctx.next_kms_ctx(), Some(0));
    assert!(ctx.kms_feed(0, BinaryRef::new_from(KMS_REPLY)));
    assert!(ctx.kms_done(kms_round()));
    visited.push(ctx.state());
    assert_eq!(ctx.next_kms_ctx(), Some(0));
    assert!(!ctx.kms_done(Demand::Ready(Binary::new())));
    visited.push(ctx.state());
    assert!(!ctx.mongo_feed(None));
    assert_eq!(
        visited,
        vec![
            CtxState::Uninitialized,
            CtxState::NeedMongoCollinfo,
            CtxState::NeedKms,
            CtxState::NeedKms,
            CtxState::Error,
        ]
    );
    assert_is_path(&visited);
}

#[test]
fn driver_does_not_serve_a_context_without_an_operation() {
    let ctx = Context::new();
    assert_eq!(dispatch(ctx.state()), Exchange::Unhandled);
}
