//! Admission of a WebSocket upgrade request. The caller asks the outside
//! world one question at a time and reports each answer; the machine says
//! what to ask next, or how the request ends.

use crate::connection::{generate_random_connection_id, ConnectionId};
use spacetimedb_lib::Identity;
use vstd::prelude::*;

verus! {

/// `spacetimedb_lib::Identity`: who a client or a database is. It is
/// carried from the request to the session and never looked into.
#[verifier::external_type_specification]
#[verifier::external_body]
pub struct ExIdentity(spacetimedb_lib::Identity);

/// The largest message that the framing layer accepts: 32 MiB.
pub const MAX_MESSAGE_SIZE: usize = 0x2000000;

/// How a request names its database.
#[derive(Debug, PartialEq, Eq)]
pub enum NameOrIdentity {
    Identity(Identity),
    Name(String),
}

pub enum NameOrIdentityView {
    Identity(Identity),
    Name(Seq<char>),
}

impl View for NameOrIdentity {
    type V = NameOrIdentityView;

    open spec fn view(&self) -> NameOrIdentityView {
        match self {
            NameOrIdentity::Identity(identity) => NameOrIdentityView::Identity(*identity),
            NameOrIdentity::Name(name) => NameOrIdentityView::Name(name@),
        }
    }
}

/// The path parameters of the request.
#[derive(Debug, PartialEq, Eq)]
pub struct SubscribeParams {
    pub name_or_identity: NameOrIdentity,
}

/// A compression that the client asks for.
#[derive(Clone, Copy, Debug, PartialEq, Eq, Structural)]
pub enum Compression {
    /// No compression ever.
    Uncompressed,
    Brotli,
    Gzip,
}

/// The query parameters of the request.
#[derive(Clone, Copy, Debug, PartialEq, Eq)]
pub struct SubscribeQueryParams {
    /// The connection id that the client wants; a random one if absent.
    pub connection_id: Option<ConnectionId>,
    pub compression: Compression,
    /// Whether the client wants light responses.
    pub light: bool,
}

/// The subprotocol that the peer selected.
#[derive(Clone, Copy, Debug, PartialEq, Eq, Structural)]
pub enum Protocol {
    Text,
    Binary,
}

/// How the session talks to its client.
#[derive(Clone, Copy, Debug, PartialEq, Eq, Structural)]
pub struct ClientConfig {
    pub protocol: Protocol,
    pub compression: Compression,
    /// Whether transaction updates are sent in full.
    pub tx_update_full: bool,
}

/// The limits that the framing layer is set up with.
#[derive(Clone, Copy, Debug, PartialEq, Eq)]
pub struct FramingConfig {
    pub max_message_size: Option<usize>,
    pub max_frame_size: Option<usize>,
    pub accept_unmasked_frames: bool,
}

/// Who the request comes from, as the authentication layer found.
#[derive(Debug, PartialEq, Eq)]
pub struct Credentials {
    pub identity: Identity,
    /// The bearer token.
    pub token: String,
}

/// The message that tells a client who it is.
#[derive(Debug, PartialEq, Eq)]
pub struct IdentityTokenMessage {
    pub identity: Identity,
    pub token: String,
    pub connection_id: ConnectionId,
}

pub struct IdentityTokenMessageView {
    pub identity: Identity,
    pub token: Seq<char>,
    pub connection_id: ConnectionId,
}

impl View for IdentityTokenMessage {
    type V = IdentityTokenMessageView;

    open spec fn view(&self) -> IdentityTokenMessageView {
        IdentityTokenMessageView {
            identity: self.identity,
            token: self.token@,
            connection_id: self.connection_id,
        }
    }
}

/// Why a request is turned down.
#[derive(Clone, Copy, Debug, PartialEq, Eq, Structural)]
pub enum Rejection {
    /// The request asks for the reserved connection id.
    ZeroConnectionId,
    /// The peer selected neither subprotocol.
    NoProtocol,
    /// The database, or a leader for it, is not there.
    NotFound,
    /// Something failed on this side.
    Internal,
}

/// The HTTP status of each rejection.
pub open spec fn status_of(rejection: Rejection) -> u16 {
    match rejection {
        Rejection::ZeroConnectionId => 400,
        Rejection::NoProtocol => 400,
        Rejection::NotFound => 404,
        Rejection::Internal => 500,
    }
}

/// The body of each rejection that has one.
pub open spec fn message_of(rejection: Rejection) -> Option<Seq<char>> {
    match rejection {
        Rejection::ZeroConnectionId => Some(
            "Invalid connection ID: the all-zeros ConnectionId is reserved."@,
        ),
        Rejection::NoProtocol => Some("no valid protocol selected"@),
        Rejection::NotFound => None,
        Rejection::Internal => None,
    }
}

/// The view of a text that may be absent.
pub open spec fn text_view(text: Option<&'static str>) -> Option<Seq<char>> {
    match text {
        Some(text) => Some(text@),
        None => None,
    }
}

impl Rejection {
    pub fn status(&self) -> (status: u16)
        ensures
            status == status_of(*self),
    {
        match self {
            Rejection::ZeroConnectionId => 400,
            Rejection::NoProtocol => 400,
            Rejection::NotFound => 404,
            Rejection::Internal => 500,
        }
    }

    pub fn message(&self) -> (text: Option<&'static str>)
        ensures
            text_view(text) == message_of(*self),
    {
        match self {
            Rejection::ZeroConnectionId => Some(
                "Invalid connection ID: the all-zeros ConnectionId is reserved.",
            ),
            Rejection::NoProtocol => Some("no valid protocol selected"),
            Rejection::NotFound => None,
            Rejection::Internal => None,
        }
    }
}

/// What a lookup in the outside world came to.
#[derive(Clone, Copy, Debug, PartialEq, Eq, Structural)]
pub enum Lookup {
    Found,
    Missing,
    Failed,
}

/// An answer to a [`Question`].
#[derive(Clone, Copy, Debug, PartialEq, Eq)]
pub enum Answer {
    Lookup(Lookup),
    /// The subprotocol that the peer selected among those offered, if any.
    Protocol(Option<Protocol>),
}

/// What the caller finds out next.
#[derive(Debug, PartialEq, Eq)]
pub enum Question {
    /// Which database the request names.
    ResolveName(NameOrIdentity),
    /// Which subprotocol the peer selects.
    SelectProtocol,
    /// The record of the database.
    FindDatabase,
    /// The leader among the database's replicas.
    FindLeader,
    /// A watcher on the leader's module.
    WatchModule,
}

pub enum QuestionView {
    ResolveName(NameOrIdentityView),
    SelectProtocol,
    FindDatabase,
    FindLeader,
    WatchModule,
}

impl View for Question {
    type V = QuestionView;

    open spec fn view(&self) -> QuestionView {
        match self {
            Question::ResolveName(name) => QuestionView::ResolveName(name@),
            Question::SelectProtocol => QuestionView::SelectProtocol,
            Question::FindDatabase => QuestionView::FindDatabase,
            Question::FindLeader => QuestionView::FindLeader,
            Question::WatchModule => QuestionView::WatchModule,
        }
    }
}

/// The question that is open, with the client's configuration once the
/// subprotocol is known.
#[derive(Clone, Copy, Debug, PartialEq, Eq, Structural)]
pub enum Stage {
    ResolveName,
    SelectProtocol,
    FindDatabase(ClientConfig),
    FindLeader(ClientConfig),
    WatchModule(ClientConfig),
}

/// A request on its way to admission.
#[derive(Debug, PartialEq, Eq)]
pub struct Upgrade {
    stage: Stage,
    connection_id: ConnectionId,
    compression: Compression,
    light: bool,
    identity: Identity,
    token: String,
}

pub struct UpgradeView {
    pub stage: Stage,
    pub connection_id: ConnectionId,
    pub compression: Compression,
    pub light: bool,
    pub identity: Identity,
    pub token: Seq<char>,
}

impl View for Upgrade {
    type V = UpgradeView;

    closed spec fn view(&self) -> UpgradeView {
        UpgradeView {
            stage: self.stage,
            connection_id: self.connection_id,
            compression: self.compression,
            light: self.light,
            identity: self.identity,
            token: self.token@,
        }
    }
}

/// What an admitted request is given.
#[derive(Debug, PartialEq, Eq)]
pub struct Admission {
    pub connection_id: ConnectionId,
    pub config: ClientConfig,
    pub framing: FramingConfig,
    /// The first message for the outbound queue, to be put there before any other.
    pub first_message: IdentityTokenMessage,
}

pub struct AdmissionView {
    pub connection_id: ConnectionId,
    pub config: ClientConfig,
    pub framing: FramingConfig,
    pub first_message: IdentityTokenMessageView,
}

impl View for Admission {
    type V = AdmissionView;

    open spec fn view(&self) -> AdmissionView {
        AdmissionView {
            connection_id: self.connection_id,
            config: self.config,
            framing: self.framing,
            first_message: self.first_message@,
        }
    }
}

/// How one step of the admission ends.
#[derive(Debug, PartialEq, Eq)]
pub enum UpgradeStep {
    /// Ask `question` and answer it to `upgrade`.
    Ask { question: Question, upgrade: Upgrade },
    /// Upgrade the connection and start the session.
    Accept(Admission),
    /// Answer the request with this rejection; no session starts.
    Reject(Rejection),
}

pub enum UpgradeStepView {
    Ask { question: QuestionView, upgrade: UpgradeView },
    Accept(AdmissionView),
    Reject(Rejection),
}

impl View for UpgradeStep {
    type V = UpgradeStepView;

    open spec fn view(&self) -> UpgradeStepView {
        match self {
            UpgradeStep::Ask { question, upgrade } => UpgradeStepView::Ask {
                question: question@,
                upgrade: upgrade@,
            },
            UpgradeStep::Accept(admission) => UpgradeStepView::Accept(admission@),
            UpgradeStep::Reject(rejection) => UpgradeStepView::Reject(*rejection),
        }
    }
}

/// The framing limits of every session: messages up to 32 MiB, frames of
/// any size, and no unmasked frames from the client.
pub open spec fn framing_limits() -> FramingConfig {
    FramingConfig {
        max_message_size: Some(MAX_MESSAGE_SIZE),
        max_frame_size: None,
        accept_unmasked_frames: false,
    }
}

/// The configuration of a client that selected `protocol`: what it asked
/// for, with full transaction updates unless it asked for light ones.
pub open spec fn config_for(protocol: Protocol, compression: Compression, light: bool)
    -> ClientConfig {
    ClientConfig { protocol, compression, tx_update_full: !light }
}

/// The first step on a request whose connection id is settled: the
/// reserved id is turned down, any other goes on to name its database.
pub open spec fn begun(
    name: NameOrIdentityView,
    query: SubscribeQueryParams,
    identity: Identity,
    token: Seq<char>,
    connection_id: ConnectionId,
) -> UpgradeStepView {
    if connection_id@ == 0 {
        UpgradeStepView::Reject(Rejection::ZeroConnectionId)
    } else {
        UpgradeStepView::Ask {
            question: QuestionView::ResolveName(name),
            upgrade: UpgradeView {
                stage: Stage::ResolveName,
                connection_id,
                compression: query.compression,
                light: query.light,
                identity,
                token,
            },
        }
    }
}

impl UpgradeView {
    /// Goes on to the next question.
    pub open spec fn ask(self, question: QuestionView, stage: Stage) -> UpgradeStepView {
        UpgradeStepView::Ask { question, upgrade: UpgradeView { stage, ..self } }
    }

    /// What the session is started with.
    pub open spec fn admission(self, config: ClientConfig) -> AdmissionView {
        AdmissionView {
            connection_id: self.connection_id,
            config,
            framing: framing_limits(),
            first_message: IdentityTokenMessageView {
                identity: self.identity,
                token: self.token,
                connection_id: self.connection_id,
            },
        }
    }

    /// The step on an answer. What was looked for and is missing makes the
    /// request one for something that is not there; a lookup that failed,
    /// or an answer to another question than the open one, is a failure of
    /// this side. A watcher is not looked up, so it cannot be missing: it
    /// failed. Without a subprotocol the request is a bad one.
    pub open spec fn answered(self, answer: Answer) -> UpgradeStepView {
        match answer {
            Answer::Lookup(Lookup::Found) => match self.stage {
                Stage::ResolveName => self.ask(QuestionView::SelectProtocol, Stage::SelectProtocol),
                Stage::SelectProtocol => UpgradeStepView::Reject(Rejection::Internal),
                Stage::FindDatabase(config) => self.ask(
                    QuestionView::FindLeader,
                    Stage::FindLeader(config),
                ),
                Stage::FindLeader(config) => self.ask(
                    QuestionView::WatchModule,
                    Stage::WatchModule(config),
                ),
                Stage::WatchModule(config) => UpgradeStepView::Accept(self.admission(config)),
            },
            Answer::Lookup(Lookup::Missing) => match self.stage {
                Stage::SelectProtocol => UpgradeStepView::Reject(Rejection::Internal),
                Stage::WatchModule(_) => UpgradeStepView::Reject(Rejection::Internal),
                _ => UpgradeStepView::Reject(Rejection::NotFound),
            },
            Answer::Lookup(Lookup::Failed) => UpgradeStepView::Reject(Rejection::Internal),
            Answer::Protocol(selected) => match self.stage {
                Stage::SelectProtocol => match selected {
                    Some(protocol) => self.ask(
                        QuestionView::FindDatabase,
                        Stage::FindDatabase(config_for(protocol, self.compression, self.light)),
                    ),
                    None => UpgradeStepView::Reject(Rejection::NoProtocol),
                },
                _ => UpgradeStepView::Reject(Rejection::Internal),
            },
        }
    }
}

/// The step after `answers` were given one after another, starting at
/// `step`. Once a request is accepted or rejected, answers change nothing.
pub open spec fn driven(step: UpgradeStepView, answers: Seq<Answer>) -> UpgradeStepView
    decreases answers.len(),
{
    if answers.len() == 0 {
        step
    } else {
        match step {
            UpgradeStepView::Ask { upgrade, .. } => driven(
                upgrade.answered(answers[0]),
                answers.skip(1),
            ),
            _ => step,
        }
    }
}

/// A request is admitted only with a connection id other than the reserved
/// one, and only once the database was resolved, the peer selected a
/// subprotocol, and the record, the leader and the watcher were found, in
/// that order. Its session then has the connection id of the request, the
/// configuration that the request asked for, the framing limits of every
/// session, and the identity token as its first message.
pub proof fn lemma_admission(
    name: NameOrIdentityView,
    query: SubscribeQueryParams,
    identity: Identity,
    token: Seq<char>,
    connection_id: ConnectionId,
    answers: Seq<Answer>,
)
    requires
        driven(begun(name, query, identity, token, connection_id), answers) is Accept,
    ensures
        connection_id@ != 0,
        answers.len() >= 5,
        answers[0] == Answer::Lookup(Lookup::Found),
        answers[1] is Protocol && answers[1]->Protocol_0 is Some,
        answers[2] == Answer::Lookup(Lookup::Found),
        answers[3] == Answer::Lookup(Lookup::Found),
        answers[4] == Answer::Lookup(Lookup::Found),
        driven(begun(name, query, identity, token, connection_id), answers)
            == UpgradeStepView::Accept(
            AdmissionView {
                connection_id,
                config: config_for(
                    answers[1]->Protocol_0->0,
                    query.compression,
                    query.light,
                ),
                framing: framing_limits(),
                first_message: IdentityTokenMessageView { identity, token, connection_id },
            },
        ),
{
    let first = begun(name, query, identity, token, connection_id);
    let last = driven(first, answers);
    assert(first is Ask && answers.len() >= 1);
    let second = first->upgrade.answered(answers[0]);
    let rest1 = answers.skip(1);
    assert(last == driven(second, rest1));
    assert(second is Ask && rest1.len() >= 1);
    let third = second->upgrade.answered(rest1[0]);
    let rest2 = rest1.skip(1);
    assert(last == driven(third, rest2));
    assert(third is Ask && rest2.len() >= 1);
    let fourth = third->upgrade.answered(rest2[0]);
    let rest3 = rest2.skip(1);
    assert(last == driven(fourth, rest3));
    assert(fourth is Ask && rest3.len() >= 1);
    let fifth = fourth->upgrade.answered(rest3[0]);
    let rest4 = rest3.skip(1);
    assert(last == driven(fifth, rest4));
    assert(fifth is Ask && rest4.len() >= 1);
    let sixth = fifth->upgrade.answered(rest4[0]);
    assert(last == driven(sixth, rest4.skip(1)));
    assert(sixth is Accept);
    assert(last == sixth);
}

/// The connection id of a request: the one it asks for, or else a random one.
pub fn choose_connection_id(requested: Option<ConnectionId>) -> (id: ConnectionId)
    ensures
        requested matches Some(wanted) ==> id == wanted,
{
    match requested {
        Some(wanted) => wanted,
        None => generate_random_connection_id(),
    }
}

/// The first step on a request whose connection id is `connection_id`.
pub fn begin(
    params: SubscribeParams,
    query: SubscribeQueryParams,
    auth: Credentials,
    connection_id: ConnectionId,
) -> (step: UpgradeStep)
    ensures
        step@ == begun(params.name_or_identity@, query, auth.identity, auth.token@, connection_id),
{
    if connection_id.is_zero() {
        UpgradeStep::Reject(Rejection::ZeroConnectionId)
    } else {
        UpgradeStep::Ask {
            question: Question::ResolveName(params.name_or_identity),
            upgrade: Upgrade {
                stage: Stage::ResolveName,
                connection_id,
                compression: query.compression,
                light: query.light,
                identity: auth.identity,
                token: auth.token,
            },
        }
    }
}

/// The first step on a request. Its connection id is the one it asks for;
/// a request that asks for none gets a random one, which is turned down
/// like any other if it is the reserved id.
pub fn handle_websocket(params: SubscribeParams, query: SubscribeQueryParams, auth: Credentials)
    -> (step: UpgradeStep)
    ensures
        query.connection_id matches Some(wanted) ==> step@ == begun(
            params.name_or_identity@,
            query,
            auth.identity,
            auth.token@,
            wanted,
        ),
        exists|id: ConnectionId|
            step@ == #[trigger] begun(
                params.name_or_identity@,
                query,
                auth.identity,
                auth.token@,
                id,
            ),
{
    let connection_id = choose_connection_id(query.connection_id);
    begin(params, query, auth, connection_id)
}

impl Upgrade {
    /// The connection id that the session will have.
    pub fn connection_id(&self) -> (id: ConnectionId)
        ensures
            id == self@.connection_id,
    {
        self.connection_id
    }

    /// The question that is open.
    pub fn stage(&self) -> (stage: Stage)
        ensures
            stage == self@.stage,
    {
        self.stage
    }

    /// The step on the answer to the open question.
    pub fn answer(self, answer: Answer) -> (step: UpgradeStep)
        ensures
            step@ == self@.answered(answer),
    {
        match answer {
            Answer::Lookup(Lookup::Found) => match self.stage {
                Stage::ResolveName => self.ask(Question::SelectProtocol, Stage::SelectProtocol),
                Stage::SelectProtocol => UpgradeStep::Reject(Rejection::Internal),
                Stage::FindDatabase(config) => self.ask(
                    Question::FindLeader,
                    Stage::FindLeader(config),
                ),
                Stage::FindLeader(config) => self.ask(
                    Question::WatchModule,
                    Stage::WatchModule(config),
                ),
                Stage::WatchModule(config) => UpgradeStep::Accept(
                    Admission {
                        connection_id: self.connection_id,
                        config,
                        framing: FramingConfig {
                            max_message_size: Some(MAX_MESSAGE_SIZE),
                            max_frame_size: None,
                            accept_unmasked_frames: false,
                        },
                        first_message: IdentityTokenMessage {
                            identity: self.identity,
                            token: self.token,
                            connection_id: self.connection_id,
                        },
                    },
                ),
            },
            Answer::Lookup(Lookup::Missing) => match self.stage {
                Stage::SelectProtocol => UpgradeStep::Reject(Rejection::Internal),
                Stage::WatchModule(_) => UpgradeStep::Reject(Rejection::Internal),
                _ => UpgradeStep::Reject(Rejection::NotFound),
            },
            Answer::Lookup(Lookup::Failed) => UpgradeStep::Reject(Rejection::Internal),
            Answer::Protocol(selected) => match self.stage {
                Stage::SelectProtocol => match selected {
                    Some(protocol) => {
                        let config = ClientConfig {
                            protocol,
                            compression: self.compression,
                            tx_update_full: !self.light,
                        };
                        self.ask(Question::FindDatabase, Stage::FindDatabase(config))
                    },
                    None => UpgradeStep::Reject(Rejection::NoProtocol),
                },
                _ => UpgradeStep::Reject(Rejection::Internal),
            },
        }
    }

    fn ask(self, question: Question, stage: Stage) -> (step: UpgradeStep)
        ensures
            step@ == self@.ask(question@, stage),
    {
        UpgradeStep::Ask {
            question,
            upgrade: Upgrade {
                stage,
                connection_id: self.connection_id,
                compression: self.compression,
                light: self.light,
                identity: self.identity,
                token: self.token,
            },
        }
    }
}

} // verus!
