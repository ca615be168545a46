use crate::common::helpers::{chars_within, get_random_string};
use crate::consts::common::VERIFICATION_LINE_SIZE;
use crate::consts::messages::AUTH_FAILED_TMP;
use crate::options::configuration::{JsonReader, ProjectOptions};
use crate::protocol::{
    AnswerTargetEnum, ClientDescription, CommandTargetEnum, LookAsTargetCommandEnum, TargetAsDigit,
};
use crate::transport::{
    Answer, AnswerView, ClientConnectionData, Command, CommandCreationAnswer, CommandView,
    SessionView,
};
use crypto::digest::Digest;
use crypto::sha1::Sha1;
use vstd::prelude::*;
use vstd::string::{StrSliceExecFns, StringExecFns};
use vstd::utf8::encode_utf8;

verus! {

// -- public traits --
/// A request that can be carried out.
pub trait CommandHandle {
    /// The request as a command.
    spec fn work(&self) -> CommandView;

    /// Carries out the request of a known client on the session state of
    /// that client. The request stays as it is.
    fn execute(
        &mut self,
        options: &ProjectOptions,
        connection_data: &mut ClientConnectionData,
    ) -> (answer: Answer)
        requires
            old(self).work().cuid is Some,
        ensures
            final(self).work() == old(self).work(),
            answered(
                old(self).work(),
                options.secret@,
                old(connection_data)@,
                answer@,
                final(connection_data)@,
            ),
    ;
}

/// The SHA-1 digest of `message`, as `rust-crypto` writes it in hexadecimal.
pub uninterp spec fn sha1_hex(message: Seq<u8>) -> Seq<char>;

/// Number of bytes from which on `rust-crypto` refuses a message.
pub open spec fn sha1_input_limit() -> int {
    0x2000_0000_0000_0000
}

/// Feeds `message` to a new `Sha1` with `Digest::input` and reads the digest
/// with `Digest::result_str`. `input` panics on a message whose length in
/// bits does not fit in 64 bits. Nothing is claimed of the digest but that
/// it depends on `message` alone.
#[verifier::external_body]
fn sha1_hex_digest(message: &[u8]) -> (hex: String)
    requires
        message@.len() < sha1_input_limit(),
    ensures
        hex@ == sha1_hex(message@),
{
    let mut hasher = Sha1::new();
    hasher.input(message);
    hasher.result_str()
}

/// The words that answer a failed authentication.
pub open spec fn auth_failed_text() -> Seq<char> {
    "Auth filed! Check secret key?"@
}

/// What a client has to hash: the nonce it was sent, then the secret.
pub open spec fn auth_message(nonce: Seq<u8>, secret: Seq<char>) -> Seq<u8> {
    nonce + encode_utf8(secret)
}

/// The digest a client presents: what follows the first 128 characters of
/// its payload.
pub open spec fn presented_digest(client_data: Seq<char>) -> Seq<char> {
    if client_data.len() > 128 {
        client_data.subrange(128, client_data.len() as int)
    } else {
        Seq::empty()
    }
}

/// True where the payload of an authentication command proves that the
/// client knows the secret: the digest it presents is the SHA-1 digest of
/// the nonce stored for it followed by the secret. The first 128 characters
/// of the payload play no part. A message too long to be hashed proves
/// nothing.
pub open spec fn auth_accepts(client_data: Seq<char>, nonce: Seq<u8>, secret: Seq<char>) -> bool {
    &&& auth_message(nonce, secret).len() < sha1_input_limit()
    &&& sha1_hex(auth_message(nonce, secret)) == presented_digest(client_data)
}

/// What a handler leaves behind: the code and payload of the answer, and
/// the client's session state.
pub struct Outcome {
    pub code: u32,
    pub data: Seq<char>,
    pub session: SessionView,
}

/// What the payload of a client-data command leads to, once it is decoded:
/// the client's own identifier replaces the stored one unless it is empty,
/// and the client is told to wait; a payload that did not decode is an
/// error.
pub open spec fn client_data_outcome(
    record: Option<(u32, Seq<char>)>,
    session: SessionView,
) -> Outcome {
    match record {
        Some((group, cid)) => Outcome {
            code: 6,
            data: Seq::empty(),
            session: if cid.len() > 0 {
                SessionView { cuid: cid, ..session }
            } else {
                session
            },
        },
        None => Outcome { code: 4, data: Seq::empty(), session },
    }
}

/// What a text holds as a client's description.
pub open spec fn client_description(text: Seq<char>) -> Option<(u32, Seq<char>)> {
    if ClientDescription::readable(text) {
        Some(
            (
                crate::json::json_member_u32(text, "group"@)->0,
                crate::json::json_member_string(text, "cid"@)->0,
            ),
        )
    } else {
        None
    }
}

/// True where `outcome` is what handling a command of kind `target` with
/// payload `client_data` may lead to, for a client in state `session` and a
/// server with the secret `secret`.
pub open spec fn handled(
    target: CommandTargetEnum,
    client_data: Seq<char>,
    secret: Seq<char>,
    session: SessionView,
    outcome: Outcome,
) -> bool {
    match target {
        CommandTargetEnum::Unknown => outcome == (Outcome { code: 0, data: Seq::empty(), session }),
        CommandTargetEnum::Quit => outcome == (Outcome { code: 1, data: "buy"@, session }),
        CommandTargetEnum::SigIn => {
            &&& outcome.code == 3
            &&& outcome.data.len() == 128
            &&& chars_within(outcome.data, 48, 126)
            &&& outcome.session == (SessionView { tmp: encode_utf8(outcome.data), ..session })
        },
        CommandTargetEnum::Auth => outcome == (if auth_accepts(client_data, session.tmp, secret) {
            Outcome { code: 5, data: "OK"@, session }
        } else {
            Outcome { code: 4, data: auth_failed_text(), session }
        }),
        CommandTargetEnum::ClientData => outcome == client_data_outcome(
            client_description(client_data),
            session,
        ),
    }
}

/// Handling a command leaves the client in its group.
pub proof fn lemma_handled_keeps_group(
    target: CommandTargetEnum,
    client_data: Seq<char>,
    secret: Seq<char>,
    session: SessionView,
    outcome: Outcome,
)
    requires
        handled(target, client_data, secret, session, outcome),
    ensures
        outcome.session.group == session.group,
{
}

/// True where `answer` and the session state `after` are what answering
/// `command` may lead to, for a client in state `session` and a server with
/// the secret `secret`. The answer goes to the command's client and is
/// neither reserved nor sent.
pub open spec fn answered(
    command: CommandView,
    secret: Seq<char>,
    session: SessionView,
    answer: AnswerView,
    after: SessionView,
) -> bool {
    &&& answer.cuid == command.cuid
    &&& !answer.busy
    &&& !answer.sent
    &&& handled(
        command.target.command_target(),
        command.data,
        secret,
        session,
        Outcome { code: answer.target, data: answer.data, session: after },
    )
}

/// True of the codes of the answers that a client can get before it has
/// authenticated: verification request, greeting, error, quit, unknown and
/// skip.
pub open spec fn open_to_all(code: u32) -> bool {
    code == 3 || code == 5 || code == 4 || code == 1 || code == 0 || code == 2
}

/// A command that needs no authenticated client gets none of the answers
/// that are kept for authenticated clients.
pub proof fn lemma_answers_before_auth(
    command: CommandView,
    secret: Seq<char>,
    session: SessionView,
    answer: AnswerView,
    after: SessionView,
)
    requires
        !command.need_auth(),
        answered(command, secret, session, answer, after),
    ensures
        open_to_all(answer.target),
{
}

/// The answer to a sign-in carries the nonce that is stored for the
/// client.
pub proof fn lemma_sign_in_stores_nonce(
    command: CommandView,
    secret: Seq<char>,
    session: SessionView,
    answer: AnswerView,
    after: SessionView,
)
    requires
        command.target == 2,
        answered(command, secret, session, answer, after),
    ensures
        answer.target == 3,
        after.tmp == encode_utf8(answer.data),
{
}

/// A client's description with an identifier in it changes nothing when
/// it is acted on a second time.
pub proof fn lemma_client_data_idempotent(group: u32, cid: Seq<char>, session: SessionView)
    requires
        cid.len() > 0,
    ensures
        ({
            let once = client_data_outcome(Some((group, cid)), session);
            let twice = client_data_outcome(Some((group, cid)), once.session);
            &&& once.session.cuid == cid
            &&& twice.session == once.session
            &&& twice.code == once.code
        }),
{
}

// === handlers ===
/// Answers a command of no known kind: with nothing.
fn answer_empty(
    client_data: &String,
    connection_data: &mut ClientConnectionData,
    options: &ProjectOptions,
) -> (answer: (u32, String))
    ensures
        handled(
            CommandTargetEnum::Unknown,
            client_data@,
            options.secret@,
            old(connection_data)@,
            Outcome { code: answer.0, data: answer.1@, session: final(connection_data)@ },
        ),
{
    (AnswerTargetEnum::Unknown.to_u32(), String::new())
}

/// Answers a client that wants to leave.
fn client_fast_quit_rquest(
    client_data: &String,
    connection_data: &mut ClientConnectionData,
    options: &ProjectOptions,
) -> (answer: (u32, String))
    ensures
        handled(
            CommandTargetEnum::Quit,
            client_data@,
            options.secret@,
            old(connection_data)@,
            Outcome { code: answer.0, data: answer.1@, session: final(connection_data)@ },
        ),
{
    (AnswerTargetEnum::Quit.to_u32(), String::from_str("buy"))
}

/// Draws a nonce, stores it for the client and sends it as a challenge.
fn answer_verification_request(
    client_data: &String,
    connection_data: &mut ClientConnectionData,
    options: &ProjectOptions,
) -> (answer: (u32, String))
    ensures
        handled(
            CommandTargetEnum::SigIn,
            client_data@,
            options.secret@,
            old(connection_data)@,
            Outcome { code: answer.0, data: answer.1@, session: final(connection_data)@ },
        ),
{
    let key = get_random_string(VERIFICATION_LINE_SIZE);
    connection_data.set_temp_data(key.as_str().as_bytes_vec());
    (AnswerTargetEnum::VerificationRequest.to_u32(), key)
}

/// Checks the digest a client presents against the nonce stored for it and
/// the secret.
fn answer_check_auth(
    client_data: &String,
    connection_data: &mut ClientConnectionData,
    options: &ProjectOptions,
) -> (answer: (u32, String))
    ensures
        handled(
            CommandTargetEnum::Auth,
            client_data@,
            options.secret@,
            old(connection_data)@,
            Outcome { code: answer.0, data: answer.1@, session: final(connection_data)@ },
        ),
{
    let size = client_data.as_str().unicode_len();
    let client_hex = if size > VERIFICATION_LINE_SIZE {
        String::from_str(client_data.as_str().substring_char(VERIFICATION_LINE_SIZE, size))
    } else {
        String::new()
    };
    let mut key_line = connection_data.get_temp_data();
    key_line.extend_from_slice(options.secret.as_str().as_bytes());
    assert(key_line@ == auth_message(connection_data@.tmp, options.secret@));
    let matches = if (key_line.len() as u64) < 0x2000_0000_0000_0000u64 {
        let hex = sha1_hex_digest(key_line.as_slice());
        hex == client_hex
    } else {
        false
    };
    if matches {
        (AnswerTargetEnum::WhoAreYou.to_u32(), String::from_str("OK"))
    } else {
        let mut msg = String::from_str(AUTH_FAILED_TMP);
        msg.append(" ");
        msg.append("Check secret key?");
        proof {
            reveal_strlit("Auth filed!");
            reveal_strlit(" ");
            reveal_strlit("Check secret key?");
            reveal_strlit("Auth filed! Check secret key?");
            assert(msg@ =~= auth_failed_text());
        }
        (AnswerTargetEnum::Error.to_u32(), msg)
    }
}

/// Acts on the payload of a client-data command once it is decoded.
pub fn apply_client_description(
    record: Option<ClientDescription>,
    connection_data: &mut ClientConnectionData,
) -> (answer: (u32, String))
    ensures
        (Outcome { code: answer.0, data: answer.1@, session: final(connection_data)@ })
            == client_data_outcome(
            match record {
                Some(described) => Some((described.group, described.cid@)),
                None => None,
            },
            old(connection_data)@,
        ),
{
    let answer_code: u32;
    match record {
        Some(record) => {
            match record.get_cid() {
                Some(cid) => {
                    connection_data.set_cuid(cid);
                    answer_code = AnswerTargetEnum::Wait.to_u32();
                },
                None => {
                    answer_code = AnswerTargetEnum::Wait.to_u32();
                },
            }
        },
        None => {
            answer_code = AnswerTargetEnum::Error.to_u32();
        },
    }
    (answer_code, String::new())
}

/// Decodes the payload of a client-data command and acts on it.
pub fn take_client_data(
    client_data: &String,
    connection_data: &mut ClientConnectionData,
    options: &ProjectOptions,
) -> (answer: (u32, String))
    ensures
        handled(
            CommandTargetEnum::ClientData,
            client_data@,
            options.secret@,
            old(connection_data)@,
            Outcome { code: answer.0, data: answer.1@, session: final(connection_data)@ },
        ),
{
    let json_record = ClientDescription::read_from_text(client_data.as_str());
    apply_client_description(json_record, connection_data)
}

// === iface ===
/// Handles a command of kind `target` with the handler of that kind.
pub fn get_answer_method(
    target: CommandTargetEnum,
    client_data: &String,
    connection_data: &mut ClientConnectionData,
    options: &ProjectOptions,
) -> (answer: (u32, String))
    ensures
        handled(
            target,
            client_data@,
            options.secret@,
            old(connection_data)@,
            Outcome { code: answer.0, data: answer.1@, session: final(connection_data)@ },
        ),
{
    match target {
        CommandTargetEnum::Unknown => answer_empty(client_data, connection_data, options),
        CommandTargetEnum::Quit => client_fast_quit_rquest(client_data, connection_data, options),
        CommandTargetEnum::SigIn => answer_verification_request(
            client_data,
            connection_data,
            options,
        ),
        CommandTargetEnum::Auth => answer_check_auth(client_data, connection_data, options),
        CommandTargetEnum::ClientData => take_client_data(client_data, connection_data, options),
    }
}

// === ===
impl CommandHandle for Command {
    open spec fn work(&self) -> CommandView {
        self@
    }

    fn execute(
        &mut self,
        options: &ProjectOptions,
        connection_data: &mut ClientConnectionData,
    ) -> (answer: Answer) {
        self.get_answer(options, connection_data)
    }
}

} // verus!
