use spacetimedb_lib::Identity;
use ws_session::connection::ConnectionId;
use ws_session::upgrade::{
    begin, choose_connection_id, handle_websocket, Admission, Answer, ClientConfig, Compression,
    Credentials, FramingConfig, IdentityTokenMessage, Lookup, NameOrIdentity, Protocol, Question,
    Rejection, Stage, SubscribeParams, SubscribeQueryParams, Upgrade, UpgradeStep,
    MAX_MESSAGE_SIZE,
};

fn params() -> SubscribeParams {
    SubscribeParams { name_or_identity: NameOrIdentity::Name("quickstart".to_owned()) }
}

fn query(connection_id: Option<u128>, light: bool) -> SubscribeQueryParams {
    SubscribeQueryParams {
        connection_id: connection_id.map(ConnectionId::from_u128),
        compression: Compression::Gzip,
        light,
    }
}

fn auth() -> Credentials {
    Credentials { identity: Identity::ONE, token: "bearer-token".to_owned() }
}

fn asked(step: UpgradeStep, expected: Question) -> Upgrade {
    match step {
        UpgradeStep::Ask { question, upgrade } => {
            assert_eq!(question, expected);
            upgrade
        }
        other => panic!("{other:?}"),
    }
}

fn found() -> Answer {
    Answer::Lookup(Lookup::Found)
}

fn up_to_protocol(connection_id: u128, light: bool) -> Upgrade {
    let step = handle_websocket(params(), query(Some(connection_id), light), auth());
    let upgrade = asked(step, Question::ResolveName(NameOrIdentity::Name("quickstart".to_owned())));
    asked(upgrade.answer(found()), Question::SelectProtocol)
}

#[test]
fn reserved_zero_connection_id() {
    let step = handle_websocket(params(), query(Some(0), false), auth());
    assert_eq!(step, UpgradeStep::Reject(Rejection::ZeroConnectionId));
    assert_eq!(Rejection::ZeroConnectionId.status(), 400);
    assert_eq!(
        Rejection::ZeroConnectionId.message(),
        Some("Invalid connection ID: the all-zeros ConnectionId is reserved.")
    );
}

#[test]
fn zero_from_sixteen_zero_bytes_is_reserved_too() {
    let id = ConnectionId::from_le_byte_array([0u8; 16]);
    let step = begin(params(), query(None, false), auth(), id);
    assert_eq!(step, UpgradeStep::Reject(Rejection::ZeroConnectionId));
}

#[test]
fn a_wanted_connection_id_is_kept() {
    assert_eq!(choose_connection_id(Some(ConnectionId::from_u128(77))), ConnectionId::from_u128(77));
    let step = handle_websocket(params(), query(Some(77), false), auth());
    let upgrade = asked(step, Question::ResolveName(NameOrIdentity::Name("quickstart".to_owned())));
    assert_eq!(upgrade.connection_id(), ConnectionId::from_u128(77));
    assert_eq!(upgrade.stage(), Stage::ResolveName);
}

#[test]
fn a_missing_connection_id_is_drawn() {
    let a = choose_connection_id(None);
    let b = choose_connection_id(None);
    let c = choose_connection_id(None);
    assert!(a != b || b != c);
    match handle_websocket(params(), query(None, false), auth()) {
        UpgradeStep::Ask { question, upgrade } => {
            assert_eq!(question, Question::ResolveName(NameOrIdentity::Name("quickstart".to_owned())));
            assert!(!upgrade.connection_id().is_zero());
        }
        UpgradeStep::Reject(rejection) => assert_eq!(rejection, Rejection::ZeroConnectionId),
        other => panic!("{other:?}"),
    }
}

#[test]
fn a_database_is_named_by_identity_too() {
    let by_identity = SubscribeParams { name_or_identity: NameOrIdentity::Identity(Identity::ONE) };
    let step = handle_websocket(by_identity, query(Some(1), false), auth());
    asked(step, Question::ResolveName(NameOrIdentity::Identity(Identity::ONE)));
}

#[test]
fn an_unknown_database_is_not_found() {
    let step = handle_websocket(params(), query(Some(1), false), auth());
    let upgrade = asked(step, Question::ResolveName(NameOrIdentity::Name("quickstart".to_owned())));
    assert_eq!(upgrade.answer(Answer::Lookup(Lookup::Missing)), UpgradeStep::Reject(Rejection::NotFound));
    assert_eq!(Rejection::NotFound.status(), 404);
    assert_eq!(Rejection::NotFound.message(), None);
}

#[test]
fn no_protocol_is_a_bad_request() {
    let upgrade = up_to_protocol(1, false);
    assert_eq!(upgrade.stage(), Stage::SelectProtocol);
    assert_eq!(upgrade.answer(Answer::Protocol(None)), UpgradeStep::Reject(Rejection::NoProtocol));
    assert_eq!(Rejection::NoProtocol.status(), 400);
    assert_eq!(Rejection::NoProtocol.message(), Some("no valid protocol selected"));
}

#[test]
fn a_missing_record_is_not_found() {
    let upgrade = up_to_protocol(1, false);
    let upgrade = asked(upgrade.answer(Answer::Protocol(Some(Protocol::Text))), Question::FindDatabase);
    assert_eq!(upgrade.answer(Answer::Lookup(Lookup::Missing)), UpgradeStep::Reject(Rejection::NotFound));
}

#[test]
fn no_leader_is_not_found() {
    let upgrade = up_to_protocol(1, false);
    let upgrade = asked(upgrade.answer(Answer::Protocol(Some(Protocol::Text))), Question::FindDatabase);
    let upgrade = asked(upgrade.answer(found()), Question::FindLeader);
    assert_eq!(upgrade.answer(Answer::Lookup(Lookup::Missing)), UpgradeStep::Reject(Rejection::NotFound));
}

#[test]
fn a_failed_lookup_is_an_internal_error() {
    let step = handle_websocket(params(), query(Some(1), false), auth());
    let upgrade = asked(step, Question::ResolveName(NameOrIdentity::Name("quickstart".to_owned())));
    assert_eq!(upgrade.answer(Answer::Lookup(Lookup::Failed)), UpgradeStep::Reject(Rejection::Internal));
    assert_eq!(Rejection::Internal.status(), 500);
    assert_eq!(Rejection::Internal.message(), None);

    let upgrade = up_to_protocol(1, false);
    let upgrade = asked(upgrade.answer(Answer::Protocol(Some(Protocol::Binary))), Question::FindDatabase);
    let upgrade = asked(upgrade.answer(found()), Question::FindLeader);
    assert_eq!(upgrade.answer(Answer::Lookup(Lookup::Failed)), UpgradeStep::Reject(Rejection::Internal));
}

#[test]
fn a_watcher_that_cannot_be_had_is_an_internal_error() {
    for answer in [Lookup::Failed, Lookup::Missing] {
        let upgrade = up_to_protocol(1, false);
        let upgrade = asked(upgrade.answer(Answer::Protocol(Some(Protocol::Binary))), Question::FindDatabase);
        let upgrade = asked(upgrade.answer(found()), Question::FindLeader);
        let upgrade = asked(upgrade.answer(found()), Question::WatchModule);
        assert_eq!(upgrade.answer(Answer::Lookup(answer)), UpgradeStep::Reject(Rejection::Internal));
    }
}

#[test]
fn an_answer_to_another_question_is_an_internal_error() {
    let step = handle_websocket(params(), query(Some(1), false), auth());
    let upgrade = asked(step, Question::ResolveName(NameOrIdentity::Name("quickstart".to_owned())));
    assert_eq!(
        upgrade.answer(Answer::Protocol(Some(Protocol::Text))),
        UpgradeStep::Reject(Rejection::Internal)
    );
    assert_eq!(up_to_protocol(1, false).answer(found()), UpgradeStep::Reject(Rejection::Internal));
    assert_eq!(
        up_to_protocol(1, false).answer(Answer::Lookup(Lookup::Missing)),
        UpgradeStep::Reject(Rejection::Internal)
    );
}

#[test]
fn an_admitted_request_gets_its_session() {
    let upgrade = up_to_protocol(0xabcdef, false);
    let upgrade = asked(upgrade.answer(Answer::Protocol(Some(Protocol::Binary))), Question::FindDatabase);
    let config = ClientConfig {
        protocol: Protocol::Binary,
        compression: Compression::Gzip,
        tx_update_full: true,
    };
    assert_eq!(upgrade.stage(), Stage::FindDatabase(config));
    let upgrade = asked(upgrade.answer(found()), Question::FindLeader);
    assert_eq!(upgrade.stage(), Stage::FindLeader(config));
    let upgrade = asked(upgrade.answer(found()), Question::WatchModule);
    assert_eq!(upgrade.stage(), Stage::WatchModule(config));
    let admission = Admission {
        connection_id: ConnectionId::from_u128(0xabcdef),
        config,
        framing: FramingConfig {
            max_message_size: Some(0x2000000),
            max_frame_size: None,
            accept_unmasked_frames: false,
        },
        first_message: IdentityTokenMessage {
            identity: Identity::ONE,
            token: "bearer-token".to_owned(),
            connection_id: ConnectionId::from_u128(0xabcdef),
        },
    };
    assert_eq!(upgrade.answer(found()), UpgradeStep::Accept(admission));
    assert_eq!(MAX_MESSAGE_SIZE, 32 * 1024 * 1024);
}

#[test]
fn light_responses_switch_full_updates_off() {
    let upgrade = up_to_protocol(5, true);
    let upgrade = asked(upgrade.answer(Answer::Protocol(Some(Protocol::Text))), Question::FindDatabase);
    assert_eq!(
        upgrade.stage(),
        Stage::FindDatabase(ClientConfig {
            protocol: Protocol::Text,
            compression: Compression::Gzip,
            tx_update_full: false,
        })
    );
}
