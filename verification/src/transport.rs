use crate::common::helpers::{chars_within, get_random_digit_string, Description};
use crate::handler::exec::{answered, get_answer_method};
use crate::json::{
    is_json_safe, json_member_bool, json_member_string, json_member_u32, json_safe,
    json_string_literal, quote, read_bool_member, read_string_member, read_u32_member,
};
use crate::options::configuration::{JsonReader, ProjectOptions};
use crate::protocol::{
    ClientGroupEnum, CommandTargetEnum, LookAsTargetAnswerEnum, LookAsTargetCommandEnum,
    TargetAsDigit,
};
use crate::text::{
    all_digits, decimal, is_digit, lemma_decimal_digits, push_decimal, push_signed_decimal,
    signed_decimal, string_from_utf8,
};
use vstd::prelude::*;
use vstd::std_specs::cmp::PartialEqSpecImpl;
use vstd::string::{StrSliceExecFns, StringExecFns};
use vstd::utf8::{decode_utf8, encode_utf8, valid_utf8};

verus! {

// === trait ===
/// A slot that one party at a time may reserve.
pub trait LockManager {
    /// True while the slot is reserved.
    spec fn locked(&self) -> bool;

    /// Reserves the slot unless it is reserved already; tells whether it did.
    fn lock(&mut self) -> (taken: bool)
        ensures
            taken == !old(self).locked(),
            final(self).locked(),
    ;

    /// Tells whether the slot is reserved.
    fn is_locked(&self) -> (busy: bool)
        ensures
            busy == self.locked(),
    ;

    /// Gives the slot up. Tells whether it was free already.
    fn unlock(&mut self) -> (was_free: bool)
        ensures
            was_free == !old(self).locked(),
            !final(self).locked(),
    ;
}

/// A value that travels through the dispatch table.
pub trait TransportConstructor: Sized {
    /// True of a value that holds nothing.
    spec fn blank(&self) -> bool;

    /// True while the next frame starts a new value.
    spec fn awaiting_first_frame(&self) -> bool;

    /// A value that holds nothing.
    fn new() -> (item: Self)
        ensures
            item.blank(),
    ;

    /// Empties the value.
    fn clear(&mut self)
        ensures
            final(self).blank(),
    ;

    /// Tells whether the next frame starts a new value.
    fn is_new(&self) -> (fresh: bool)
        ensures
            fresh == self.awaiting_first_frame(),
    ;

    /// Takes in what `src` carries.
    fn copy(&mut self, src: &Self);
}

/// A value that takes over the state of another.
pub trait TransportCopy {
    /// Takes over the state of `src`.
    fn update(&mut self, src: &Self);
}

/// A value that can be given a client identifier.
pub trait ClientIdConstructor {
    /// The identifier that the value holds.
    spec fn held_cuid(&self) -> Option<Seq<char>>;

    /// Gives the value a new identifier, made for a client at `addr`.
    fn create_cuid(&mut self, addr: &str, options: &ProjectOptions)
        ensures
            final(self).held_cuid() is Some,
            is_minted_cuid(final(self).held_cuid()->0, options.node@, addr@),
    ;

    /// Gives the value the identifier `cuid`.
    fn copy_cuid(&mut self, cuid: &String)
        ensures
            final(self).held_cuid() == Some(cuid@),
    ;
}

/// A value that carries a client identifier.
pub trait CuidSource {
    /// The identifier carried; empty where there is none.
    spec fn cuid_text(&self) -> Seq<char>;

    /// The identifier carried; empty where there is none.
    fn get_cuid(&self) -> (cuid: String)
        ensures
            cuid@ == self.cuid_text(),
    ;
}

/// A value that takes its client identifier from another.
pub trait CuidOwner {
    /// Takes the identifier of `src` unless that is empty; tells whether it
    /// did.
    fn setup_cuid<S: CuidSource>(&mut self, src: &S) -> (taken: bool)
        ensures
            taken == (src.cuid_text().len() > 0),
    ;
}

/// An answer that can be written out for its client.
pub trait AnswerWriter {
    /// The bytes of the frame that carries the answer to its client;
    /// nothing where the answer has no client.
    spec fn frame_bytes(&self) -> Option<Seq<u8>>;

    /// Appends the answer's frame to `stream`; tells whether there was a
    /// frame to append.
    fn write(&self, stream: &mut Vec<u8>) -> (done: bool)
        ensures
            done == (self.frame_bytes() is Some),
            final(stream)@ == old(stream)@ + (match self.frame_bytes() {
                Some(bytes) => bytes,
                None => Seq::empty(),
            }),
    ;
}

/// A request that can be answered.
pub trait CommandCreationAnswer {
    /// The request as a command.
    spec fn request(&self) -> CommandView;

    /// Answers the request of a known client on the session state of that
    /// client.
    fn get_answer(
        &self,
        options: &ProjectOptions,
        connection_data: &mut ClientConnectionData,
    ) -> (answer: Answer)
        requires
            self.request().cuid is Some,
        ensures
            answered(
                self.request(),
                options.secret@,
                old(connection_data)@,
                answer@,
                final(connection_data)@,
            ),
    ;
}

/// A value that is folded together from frames.
pub trait CommandDataCreator {
    /// The code of the kind that the first frame named.
    spec fn kind(&self) -> u32;

    /// The payload gathered so far.
    spec fn payload(&self) -> Seq<char>;

    /// True while more frames are to come.
    spec fn unfinished(&self) -> bool;

    /// Takes in the first frame: its kind, and its payload.
    fn setup(&mut self, src: &JsonBufferCommand)
        ensures
            final(self).kind() == src.target,
            final(self).payload() == old(self).payload() + src.data@,
            final(self).unfinished() == src.part,
    ;

    /// Takes in a further frame: its payload.
    fn append(&mut self, src: &JsonBufferCommand)
        ensures
            final(self).kind() == old(self).kind(),
            final(self).payload() == old(self).payload() + src.data@,
            final(self).unfinished() == src.part,
    ;
}

/// A value that has ready-made samples of itself.
pub trait CreateTestRecord<T> {
    /// The sample of the number `sample`.
    fn create_for_test(sample: u32) -> T;

    /// Tells whether the value is what the sample of the number `sample`
    /// leads to.
    fn check(&self, sample: u32) -> bool;
}

// === struct ===
/// One frame as a client sends it.
pub struct JsonBufferCommand {
    pub target: u32,
    pub part: bool,
    pub cid: String,
    pub data: String,
}

/// One frame as the server sends it.
pub struct JsonBufferAnswer {
    pub target: u32,
    pub cid: String,
    pub data: String,
}

/// A client identifier in the making.
pub struct ClientId {
    uid: String,
}

/// One reply of the server, and the state of the slot that holds it.
pub struct Answer {
    cuid: Option<String>,
    target: u32,
    busy: bool,
    sent: bool,
    data: String,
}

/// One request of a client, and the state of the slot that holds it.
pub struct Command {
    pub cuid: Option<String>,
    target: u32,
    full: bool,
    part: bool,
    busy: bool,
    data: String,
}

/// What the server keeps of one client between a request and its reply.
pub struct ClientConnectionData {
    tmp: Vec<u8>,
    cuid: String,
    group: u32,
}

// === models ===
/// A frame as a value of mathematics.
#[verifier::ext_equal]
pub struct FrameView {
    pub target: u32,
    pub part: bool,
    pub cid: Seq<char>,
    pub data: Seq<char>,
}

/// A command as a value of mathematics.
#[verifier::ext_equal]
pub struct CommandView {
    pub cuid: Option<Seq<char>>,
    pub target: u32,
    pub full: bool,
    pub part: bool,
    pub busy: bool,
    pub data: Seq<char>,
}

/// An answer as a value of mathematics.
#[verifier::ext_equal]
pub struct AnswerView {
    pub cuid: Option<Seq<char>>,
    pub target: u32,
    pub busy: bool,
    pub sent: bool,
    pub data: Seq<char>,
}

/// A client's session state as a value of mathematics.
#[verifier::ext_equal]
pub struct SessionView {
    pub tmp: Seq<u8>,
    pub cuid: Seq<char>,
    pub group: u32,
}

/// The text of an optional string.
pub open spec fn text_of(value: Option<String>) -> Option<Seq<char>> {
    match value {
        Some(text) => Some(text@),
        None => None,
    }
}

/// The identifier that an optional text stands for: empty where there is
/// none.
pub open spec fn cuid_or_empty(cuid: Option<Seq<char>>) -> Seq<char> {
    match cuid {
        Some(text) => text,
        None => Seq::empty(),
    }
}

impl View for JsonBufferCommand {
    type V = FrameView;

    open spec fn view(&self) -> FrameView {
        FrameView { target: self.target, part: self.part, cid: self.cid@, data: self.data@ }
    }
}

impl View for Command {
    type V = CommandView;

    closed spec fn view(&self) -> CommandView {
        CommandView {
            cuid: text_of(self.cuid),
            target: self.target,
            full: self.full,
            part: self.part,
            busy: self.busy,
            data: self.data@,
        }
    }
}

impl View for Answer {
    type V = AnswerView;

    closed spec fn view(&self) -> AnswerView {
        AnswerView {
            cuid: text_of(self.cuid),
            target: self.target,
            busy: self.busy,
            sent: self.sent,
            data: self.data@,
        }
    }
}

impl View for ClientConnectionData {
    type V = SessionView;

    closed spec fn view(&self) -> SessionView {
        SessionView { tmp: self.tmp@, cuid: self.cuid@, group: self.group }
    }
}

impl CommandView {
    /// A command slot that holds nothing.
    pub open spec fn blank() -> CommandView {
        CommandView {
            cuid: None,
            target: 0,
            full: false,
            part: false,
            busy: false,
            data: Seq::empty(),
        }
    }

    /// A complete command is no longer a partial one.
    pub open spec fn wf(self) -> bool {
        self.full ==> !self.part
    }

    /// True where the command may not be served before its client has
    /// authenticated: its code is none of unknown, quit, sign-in and
    /// authentication.
    pub open spec fn need_auth(self) -> bool {
        !(self.target == 2 || self.target == 3 || self.target == 1 || self.target == 0)
    }

    /// The command after the first frame of it was taken in.
    pub open spec fn setup(self, frame: FrameView) -> CommandView {
        CommandView {
            busy: false,
            full: !frame.part,
            part: frame.part,
            data: self.data + frame.data,
            target: frame.target,
            ..self
        }
    }

    /// The command after a further frame of it was taken in.
    pub open spec fn append(self, frame: FrameView) -> CommandView {
        CommandView { full: !frame.part, part: frame.part, data: self.data + frame.data, ..self }
    }

    /// The command after it took over the identifier of `src` and whether
    /// that is complete.
    pub open spec fn update(self, src: CommandView) -> CommandView {
        CommandView { cuid: src.cuid, full: src.full, part: self.part && !src.full, ..self }
    }

    /// The slot after the complete command `src` was put into it.
    pub open spec fn copy(self, src: CommandView) -> CommandView {
        CommandView {
            busy: false,
            part: false,
            full: true,
            target: src.target,
            data: src.data,
            cuid: src.cuid,
        }
    }
}

impl AnswerView {
    /// An answer slot that holds nothing.
    pub open spec fn blank() -> AnswerView {
        AnswerView { cuid: None, target: 0, busy: false, sent: false, data: Seq::empty() }
    }
}

impl SessionView {
    /// The session state of a client of which nothing is known yet.
    pub open spec fn blank() -> SessionView {
        SessionView { tmp: Seq::empty(), cuid: Seq::empty(), group: 3 }
    }

    /// The state without its nonce.
    pub open spec fn clear(self) -> SessionView {
        SessionView { tmp: Seq::empty(), ..self }
    }

    /// The state after nonce and identifier of `src` were copied into it.
    pub open spec fn copy(self, src: SessionView) -> SessionView {
        SessionView { tmp: src.tmp, cuid: src.cuid, ..self }
    }
}

impl FrameView {
    /// The frame that a JSON text holds, if it holds one: an object whose
    /// members `target`, `part`, `cid` and `data` decode as a number, a
    /// boolean and two strings.
    pub open spec fn of_text(content: Seq<char>) -> Option<FrameView> {
        if JsonBufferCommand::readable(content) {
            Some(
                FrameView {
                    target: json_member_u32(content, "target"@)->0,
                    part: json_member_bool(content, "part"@)->0,
                    cid: json_member_string(content, "cid"@)->0,
                    data: json_member_string(content, "data"@)->0,
                },
            )
        } else {
            None
        }
    }
}

impl JsonReader for JsonBufferCommand {
    open spec fn readable(content: Seq<char>) -> bool {
        &&& json_safe(content)
        &&& json_member_u32(content, "target"@) is Some
        &&& json_member_bool(content, "part"@) is Some
        &&& json_member_string(content, "cid"@) is Some
        &&& json_member_string(content, "data"@) is Some
    }

    open spec fn read_of(&self, content: Seq<char>) -> bool {
        Some(self@) == FrameView::of_text(content)
    }

    fn read_from_text(content: &str) -> (value: Option<Self>) {
        if !is_json_safe(content) {
            return None;
        }
        let target = read_u32_member(content, "target");
        let part = read_bool_member(content, "part");
        let cid = read_string_member(content, "cid");
        let data = read_string_member(content, "data");
        match (target, part, cid, data) {
            (Some(target), Some(part), Some(cid), Some(data)) => Some(
                JsonBufferCommand { target, part, cid, data },
            ),
            _ => None,
        }
    }
}

// === impl ===
impl ClientId {
    fn new() -> (id: ClientId)
        ensures
            id.uid@.len() == 0,
    {
        ClientId { uid: String::new() }
    }
}

impl Command {
    /// Tells whether the command is complete.
    pub fn is_full(&self) -> (full: bool)
        ensures
            full == self@.full,
    {
        self.full
    }

    /// The code of the command's kind.
    pub fn get_target(&self) -> (target: u32)
        ensures
            target == self@.target,
    {
        self.target
    }

    /// The payload gathered so far.
    pub fn get_data(&self) -> (data: String)
        ensures
            data@ == self@.data,
    {
        self.data.clone()
    }

    /// Tells whether the command belongs to a client.
    pub fn has_cuid(&self) -> (has: bool)
        ensures
            has == (self@.cuid is Some),
    {
        self.cuid.is_some()
    }

    /// Tells whether the two commands hold the same.
    pub fn same_as(&self, other: &Command) -> (same: bool)
        ensures
            same == (self@ == other@),
    {
        let same_cuid = match (&self.cuid, &other.cuid) {
            (Some(mine), Some(theirs)) => *mine == *theirs,
            (None, None) => true,
            _ => false,
        };
        same_cuid && self.target == other.target && self.full == other.full && self.part
            == other.part && self.busy == other.busy && self.data == other.data
    }

    /// Tells whether the command may be served only for a client that has
    /// authenticated.
    pub fn need_auth(&self) -> (needed: bool)
        ensures
            needed == self@.need_auth(),
    {
        !(self.target == CommandTargetEnum::SigIn.to_u32() || self.target
            == CommandTargetEnum::Auth.to_u32() || self.target == CommandTargetEnum::Quit.to_u32()
            || self.target == CommandTargetEnum::Unknown.to_u32())
    }
}

impl Answer {
    /// Tells whether the answer is marked as sent.
    pub fn is_shipped(&self) -> (sent: bool)
        ensures
            sent == self@.sent,
    {
        self.sent
    }

    /// Marks the answer as sent.
    pub fn shipped(&mut self)
        ensures
            final(self)@ == (AnswerView { sent: true, ..old(self)@ }),
    {
        self.sent = true;
    }

    /// Makes the answer one for the client `cuid` that is still to be sent.
    pub fn complete(&mut self, cuid: String)
        ensures
            final(self)@ == (AnswerView { cuid: Some(cuid@), sent: false, ..old(self)@ }),
    {
        self.cuid = Some(cuid);
        self.sent = false;
    }

    /// The payload of the answer.
    pub fn get_data(&self) -> (data: String)
        ensures
            data@ == self@.data,
    {
        self.data.clone()
    }

    /// Gives the answer the payload `data`.
    pub fn set_data(&mut self, data: String)
        ensures
            final(self)@ == (AnswerView { data: data@, ..old(self)@ }),
    {
        self.data = data;
    }
}

impl ClientConnectionData {
    /// The session state of a client of which nothing is known yet.
    pub fn new() -> (session: Self)
        ensures
            session@ == SessionView::blank(),
    {
        ClientConnectionData {
            cuid: String::new(),
            tmp: Vec::new(),
            group: ClientGroupEnum::Service.to_u32(),
        }
    }

    /// Tells whether anything is known of the client: an identifier or a
    /// nonce.
    pub fn is_exists(&self) -> (exists: bool)
        ensures
            exists == (self@.cuid.len() > 0 || self@.tmp.len() > 0),
    {
        !self.cuid.as_str().is_empty() || self.tmp.len() > 0
    }

    /// Tells whether the client has an identifier.
    pub fn has_cuid(&self) -> (has: bool)
        ensures
            has == (self@.cuid.len() > 0),
    {
        !self.cuid.as_str().is_empty()
    }

    /// Tells whether the client has no identifier.
    pub fn is_cuid_empty(&self) -> (empty: bool)
        ensures
            empty == (self@.cuid.len() == 0),
    {
        self.cuid.as_str().is_empty()
    }

    /// Gives the client the identifier `cuid`.
    pub fn set_cuid(&mut self, cuid: String)
        ensures
            final(self)@ == (SessionView { cuid: cuid@, ..old(self)@ }),
    {
        self.cuid = cuid;
    }

    /// Stores `data` as the client's nonce.
    pub fn set_temp_data(&mut self, data: Vec<u8>)
        ensures
            final(self)@ == (SessionView { tmp: data@, ..old(self)@ }),
    {
        self.tmp = data;
    }

    /// The client's nonce.
    pub fn get_temp_data(&self) -> (data: Vec<u8>)
        ensures
            data@ == self@.tmp,
    {
        self.tmp.clone()
    }

    /// The nonce as a string. The nonce has to be UTF-8.
    pub fn get_temp_data_as_string(&self) -> (text: String)
        requires
            valid_utf8(self@.tmp),
        ensures
            text@ == decode_utf8(self@.tmp),
    {
        match string_from_utf8(self.tmp.clone()) {
            Some(text) => text,
            None => String::new(),
        }
    }

    /// Forgets the nonce. The identifier stays.
    pub fn clear(&mut self)
        ensures
            final(self)@ == old(self)@.clear(),
    {
        self.tmp.clear();
    }

    /// Takes over nonce and identifier of `src`.
    pub fn copy(&mut self, src: &Self)
        ensures
            final(self)@ == old(self)@.copy(src@),
    {
        self.tmp = src.tmp.clone();
        self.cuid = src.cuid.clone();
    }
}

// === impl trait ===
impl PartialEq for ClientConnectionData {
    fn eq(&self, other: &ClientConnectionData) -> (equal: bool) {
        self.cuid == other.cuid
    }
}

impl PartialEqSpecImpl for ClientConnectionData {
    open spec fn obeys_eq_spec() -> bool {
        true
    }

    open spec fn eq_spec(&self, other: &ClientConnectionData) -> bool {
        self@.cuid == other@.cuid
    }
}

impl CuidSource for ClientConnectionData {
    open spec fn cuid_text(&self) -> Seq<char> {
        self@.cuid
    }

    fn get_cuid(&self) -> (cuid: String) {
        self.cuid.clone()
    }
}

impl CuidOwner for ClientConnectionData {
    fn setup_cuid<S: CuidSource>(&mut self, src: &S) -> (taken: bool)
        ensures
            final(self)@ == (if src.cuid_text().len() > 0 {
                SessionView { cuid: src.cuid_text(), ..old(self)@ }
            } else {
                old(self)@
            }),
    {
        let cuid = src.get_cuid();
        if !cuid.as_str().is_empty() {
            self.cuid = cuid;
            true
        } else {
            false
        }
    }
}

impl Clone for ClientConnectionData {
    fn clone(&self) -> (copy: Self)
        ensures
            copy@ == self@,
    {
        ClientConnectionData {
            cuid: self.cuid.clone(),
            tmp: self.tmp.clone(),
            group: self.group,
        }
    }
}

impl LookAsTargetCommandEnum for Command {
    open spec fn command_target(&self) -> CommandTargetEnum {
        self@.target.command_target()
    }

    fn as_target_enum(&self) -> (target: CommandTargetEnum) {
        <u32 as LookAsTargetCommandEnum>::as_target_enum(&self.target)
    }
}

impl CommandDataCreator for Command {
    open spec fn kind(&self) -> u32 {
        self@.target
    }

    open spec fn payload(&self) -> Seq<char> {
        self@.data
    }

    open spec fn unfinished(&self) -> bool {
        self@.part
    }

    /// Takes in the first frame of a command.
    fn setup(&mut self, src: &JsonBufferCommand)
        ensures
            final(self)@ == old(self)@.setup(src@),
            final(self)@.wf(),
    {
        self.busy = false;
        self.full = !src.part;
        self.part = src.part;
        self.data.append(src.data.as_str());
        self.target = src.target;
    }

    /// Takes in a further frame of a command.
    fn append(&mut self, src: &JsonBufferCommand)
        ensures
            final(self)@ == old(self)@.append(src@),
            final(self)@.wf(),
    {
        self.full = !src.part;
        self.part = src.part;
        self.data.append(src.data.as_str());
    }
}

impl CuidOwner for Command {
    fn setup_cuid<S: CuidSource>(&mut self, src: &S) -> (taken: bool)
        ensures
            final(self)@ == (if src.cuid_text().len() > 0 {
                CommandView { cuid: Some(src.cuid_text()), ..old(self)@ }
            } else {
                old(self)@
            }),
    {
        let cuid = src.get_cuid();
        if !cuid.as_str().is_empty() {
            self.cuid = Some(cuid);
            true
        } else {
            false
        }
    }
}

impl CuidSource for Command {
    open spec fn cuid_text(&self) -> Seq<char> {
        cuid_or_empty(self@.cuid)
    }

    fn get_cuid(&self) -> (cuid: String) {
        match &self.cuid {
            Some(cuid) => cuid.clone(),
            None => String::new(),
        }
    }
}

/// The identifier made of a node's name, a client's address, four digits
/// and a time in seconds and nanoseconds.
pub open spec fn cuid_line(
    node: Seq<char>,
    addr: Seq<char>,
    digits: Seq<char>,
    sec: int,
    nsec: int,
) -> Seq<char> {
    node + seq!['-'] + addr + seq!['-'] + digits + seq!['-'] + signed_decimal(sec)
        + signed_decimal(nsec)
}

/// True of the identifiers that can be made for a client at `addr` of the
/// node `node`: four digits from `0` to `8` and a time of day stand in it.
pub open spec fn is_minted_cuid(cuid: Seq<char>, node: Seq<char>, addr: Seq<char>) -> bool {
    exists|digits: Seq<char>, sec: int, nsec: int|
        {
            &&& digits.len() == 4
            &&& chars_within(digits, 48, 57)
            &&& 0 <= nsec < 1_000_000_000
            &&& cuid == #[trigger] cuid_line(node, addr, digits, sec, nsec)
        }
}

/// Reads the clock with `time::get_time`: seconds and nanoseconds since
/// the first second of 1970. The nanoseconds are less than a second; of the
/// seconds nothing is known.
#[verifier::external_body]
fn current_time() -> (now: (i64, i32))
    ensures
        0 <= now.1 < 1_000_000_000,
{
    let now = time::get_time();
    (now.sec, now.nsec)
}

/// Writes an identifier out of its parts.
pub fn compose_cuid(node: &str, addr: &str, digits: &str, sec: i64, nsec: i32) -> (cuid: String)
    ensures
        cuid@ == cuid_line(node@, addr@, digits@, sec as int, nsec as int),
{
    let mut line = String::from_str(node);
    line.push('-');
    line.append(addr);
    line.push('-');
    line.append(digits);
    line.push('-');
    push_signed_decimal(&mut line, sec);
    push_signed_decimal(&mut line, nsec as i64);
    line
}

/// Makes an identifier for a client at `addr` from the node's name, four
/// random digits and the time.
pub fn mint_cuid(addr: &str, options: &ProjectOptions) -> (cuid: String)
    ensures
        is_minted_cuid(cuid@, options.node@, addr@),
{
    let mut new_cuid = ClientId::new();
    new_cuid.create_cuid(addr, options);
    new_cuid.uid
}

impl ClientId {
    /// The identifier held.
    pub closed spec fn uid_text(&self) -> Seq<char> {
        self.uid@
    }
}

impl ClientIdConstructor for ClientId {
    open spec fn held_cuid(&self) -> Option<Seq<char>> {
        Some(self.uid_text())
    }

    /// Makes a new identifier from the node's name, the client's address,
    /// four random digits and the time.
    fn create_cuid(&mut self, addr: &str, options: &ProjectOptions) {
        let iter_time = current_time();
        let digits = get_random_digit_string(4);
        let line = compose_cuid(
            options.node.as_str(),
            addr,
            digits.as_str(),
            iter_time.0,
            iter_time.1,
        );
        self.uid = line;
    }

    fn copy_cuid(&mut self, cuid: &String) {
        self.uid = cuid.clone();
    }
}

impl ClientIdConstructor for Command {
    open spec fn held_cuid(&self) -> Option<Seq<char>> {
        self@.cuid
    }

    fn create_cuid(&mut self, addr: &str, options: &ProjectOptions)
        ensures
            final(self)@ == (CommandView { cuid: final(self)@.cuid, ..old(self)@ }),
    {
        self.cuid = Some(mint_cuid(addr, options));
    }

    fn copy_cuid(&mut self, cuid: &String)
        ensures
            final(self)@ == (CommandView { cuid: Some(cuid@), ..old(self)@ }),
    {
        self.cuid = Some(cuid.clone());
    }
}

impl ClientIdConstructor for Answer {
    open spec fn held_cuid(&self) -> Option<Seq<char>> {
        self@.cuid
    }

    fn create_cuid(&mut self, addr: &str, options: &ProjectOptions)
        ensures
            final(self)@ == (AnswerView { cuid: final(self)@.cuid, ..old(self)@ }),
    {
        self.cuid = Some(mint_cuid(addr, options));
    }

    fn copy_cuid(&mut self, cuid: &String)
        ensures
            final(self)@ == (AnswerView { cuid: Some(cuid@), ..old(self)@ }),
    {
        self.cuid = Some(cuid.clone());
    }
}

impl CuidOwner for Answer {
    fn setup_cuid<S: CuidSource>(&mut self, src: &S) -> (taken: bool)
        ensures
            final(self)@ == (if src.cuid_text().len() > 0 {
                AnswerView { cuid: Some(src.cuid_text()), ..old(self)@ }
            } else {
                old(self)@
            }),
    {
        let cuid = src.get_cuid();
        if !cuid.as_str().is_empty() {
            self.cuid = Some(cuid);
            true
        } else {
            false
        }
    }
}

impl CuidSource for Answer {
    open spec fn cuid_text(&self) -> Seq<char> {
        cuid_or_empty(self@.cuid)
    }

    fn get_cuid(&self) -> (cuid: String) {
        match &self.cuid {
            Some(cuid) => cuid.clone(),
            None => String::new(),
        }
    }
}

impl TransportConstructor for Command {
    open spec fn blank(&self) -> bool {
        self@ == CommandView::blank()
    }

    open spec fn awaiting_first_frame(&self) -> bool {
        !self@.part
    }

    fn new() -> (item: Self)
        ensures
            item@.wf(),
    {
        Command {
            cuid: None,
            target: CommandTargetEnum::Unknown.to_u32(),
            full: false,
            part: false,
            busy: false,
            data: String::new(),
        }
    }

    fn clear(&mut self)
        ensures
            final(self)@.wf(),
    {
        self.busy = false;
        self.part = false;
        self.full = false;
        self.target = CommandTargetEnum::Unknown.to_u32();
        self.cuid = None;
        self.data = String::new();
    }

    fn is_new(&self) -> (fresh: bool) {
        !self.part
    }

    /// Puts the complete command `src` into this slot.
    fn copy(&mut self, src: &Self)
        ensures
            final(self)@ == old(self)@.copy(src@),
            final(self)@.wf(),
    {
        self.busy = false;
        self.part = false;
        self.full = true;
        self.target = src.target;
        self.data = src.data.clone();
        self.cuid = src.cuid.clone();
    }
}

impl TransportConstructor for Answer {
    open spec fn blank(&self) -> bool {
        self@ == AnswerView::blank()
    }

    open spec fn awaiting_first_frame(&self) -> bool {
        false
    }

    fn new() -> (item: Self) {
        Answer {
            cuid: None,
            target: CommandTargetEnum::Unknown.to_u32(),
            busy: false,
            sent: false,
            data: String::new(),
        }
    }

    fn clear(&mut self) {
        self.target = CommandTargetEnum::Unknown.to_u32();
        self.busy = false;
        self.sent = false;
        self.data = String::new();
        self.cuid = None;
    }

    fn is_new(&self) -> (fresh: bool) {
        false
    }

    /// Leaves the answer as it is.
    fn copy(&mut self, src: &Self)
        ensures
            final(self)@ == old(self)@,
    {
    }
}

impl Clone for Answer {
    fn clone(&self) -> (copy: Self)
        ensures
            copy@ == self@,
    {
        Answer {
            cuid: self.cuid.clone(),
            target: self.target,
            busy: self.busy,
            sent: self.sent,
            data: self.data.clone(),
        }
    }
}

impl TargetAsDigit for Answer {
    open spec fn digit(&self) -> u32 {
        self@.target
    }

    fn to_u32(&self) -> (code: u32) {
        self.target
    }
}

impl TransportCopy for Answer {
    /// Takes over everything that `src` holds.
    fn update(&mut self, src: &Self)
        ensures
            final(self)@ == src@,
    {
        self.cuid =
        match &src.cuid {
            Some(value) => Some(value.clone()),
            None => None,
        };
        self.busy = src.busy;
        self.sent = src.sent;
        self.target = src.target;
        self.data = src.data.clone();
    }
}

impl LockManager for Command {
    open spec fn locked(&self) -> bool {
        self@.busy
    }

    fn lock(&mut self) -> (taken: bool)
        ensures
            final(self)@ == (CommandView { busy: true, ..old(self)@ }),
    {
        if !self.busy {
            self.busy = true;
            true
        } else {
            false
        }
    }

    fn is_locked(&self) -> (busy: bool) {
        self.busy
    }

    fn unlock(&mut self) -> (was_free: bool)
        ensures
            final(self)@ == (CommandView { busy: false, ..old(self)@ }),
    {
        if self.busy {
            self.busy = false;
            false
        } else {
            true
        }
    }
}

impl LockManager for Answer {
    open spec fn locked(&self) -> bool {
        self@.busy
    }

    fn lock(&mut self) -> (taken: bool)
        ensures
            final(self)@ == (AnswerView { busy: true, ..old(self)@ }),
    {
        if !self.busy {
            self.busy = true;
            true
        } else {
            false
        }
    }

    fn is_locked(&self) -> (busy: bool) {
        self.busy
    }

    fn unlock(&mut self) -> (was_free: bool)
        ensures
            final(self)@ == (AnswerView { busy: false, ..old(self)@ }),
    {
        if self.busy {
            self.busy = false;
            false
        } else {
            true
        }
    }
}

impl TransportCopy for Command {
    /// Takes over the identifier of `src` and whether it is complete. A
    /// command that becomes complete is no longer a partial one.
    fn update(&mut self, src: &Self)
        ensures
            final(self)@ == old(self)@.update(src@),
            final(self)@.wf(),
    {
        self.cuid =
        match &src.cuid {
            Some(value) => Some(value.clone()),
            None => None,
        };
        self.full = src.full;
        if src.full {
            self.part = false;
        }
    }
}

impl Clone for Command {
    fn clone(&self) -> (copy: Self)
        ensures
            copy@ == self@,
    {
        Command {
            cuid: self.cuid.clone(),
            target: self.target,
            full: self.full,
            part: self.part,
            busy: self.busy,
            data: self.data.clone(),
        }
    }
}

/// The frame that carries an answer to its client: a JSON object with the
/// members `target`, `cid` and `data`, in this order and without spaces.
pub open spec fn answer_frame(target: u32, cid: Seq<char>, data: Seq<char>) -> Seq<char> {
    "{\"target\":"@ + decimal(target as nat) + ",\"cid\":"@ + json_string_literal(cid)
        + ",\"data\":"@ + json_string_literal(data) + "}"@
}

impl JsonBufferAnswer {
    /// The frame as JSON text.
    pub fn encode(&self) -> (text: String)
        ensures
            text@ == answer_frame(self.target, self.cid@, self.data@),
    {
        let mut text = String::from_str("{\"target\":");
        push_decimal(&mut text, self.target as u64);
        text.append(",\"cid\":");
        text.append(quote(&self.cid).as_str());
        text.append(",\"data\":");
        text.append(quote(&self.data).as_str());
        text.append("}");
        text
    }
}

impl AnswerWriter for Answer {
    open spec fn frame_bytes(&self) -> Option<Seq<u8>> {
        match self@.cuid {
            Some(cuid) => Some(encode_utf8(answer_frame(self@.target, cuid, self@.data))),
            None => None,
        }
    }

    /// Appends the frame of an answer that has a client to `stream`. An
    /// answer without a client is not written.
    fn write(&self, stream: &mut Vec<u8>) -> (done: bool) {
        match &self.cuid {
            Some(cid) => {
                let new_data = JsonBufferAnswer {
                    data: self.data.clone(),
                    cid: cid.clone(),
                    target: self.target,
                };
                let text = new_data.encode();
                stream.extend_from_slice(text.as_str().as_bytes());
                assert(stream@ =~= old(stream)@ + encode_utf8(text@));
                true
            },
            None => {
                assert(stream@ =~= old(stream)@ + Seq::<u8>::empty());
                false
            },
        }
    }
}

impl Description for Command {
    open spec fn describable(&self) -> bool {
        self@.cuid is Some
    }

    open spec fn description_text(&self) -> Seq<char> {
        "<command[target:"@ + self@.target.command_target().description_text() + " id:"@
            + self@.cuid->0 + " size:"@ + decimal(encode_utf8(self@.data).len()) + "]>"@
    }

    fn description(&self) -> (text: String) {
        let mut text = String::from_str("<command[target:");
        text.append(
            <u32 as LookAsTargetCommandEnum>::as_target_enum(&self.target).description().as_str(),
        );
        text.append(" id:");
        text.append(self.get_cuid().as_str());
        text.append(" size:");
        push_decimal(&mut text, self.data.as_str().as_bytes().len() as u64);
        text.append("]>");
        text
    }
}

impl Description for Answer {
    open spec fn describable(&self) -> bool {
        self@.cuid is Some
    }

    open spec fn description_text(&self) -> Seq<char> {
        "<answer[target:"@ + self@.target.answer_target().description_text() + " id:"@
            + self@.cuid->0 + " size:"@ + decimal(encode_utf8(self@.data).len()) + "]>"@
    }

    fn description(&self) -> (text: String) {
        let mut text = String::from_str("<answer[target:");
        text.append(
            <u32 as LookAsTargetAnswerEnum>::as_target_enum(&self.target).description().as_str(),
        );
        text.append(" id:");
        text.append(self.get_cuid().as_str());
        text.append(" size:");
        push_decimal(&mut text, self.data.as_str().as_bytes().len() as u64);
        text.append("]>");
        text
    }
}

impl CommandCreationAnswer for Command {
    open spec fn request(&self) -> CommandView {
        self@
    }

    /// Handles the command with the handler of its kind and makes the
    /// answer for its client.
    fn get_answer(
        &self,
        options: &ProjectOptions,
        connection_data: &mut ClientConnectionData,
    ) -> (answer: Answer) {
        let (answer_target, answer_data) = get_answer_method(
            self.as_target_enum(),
            &self.data,
            connection_data,
            options,
        );
        Answer {
            cuid: Some(self.get_cuid()),
            busy: false,
            sent: false,
            data: answer_data,
            target: answer_target,
        }
    }
}

/// True where no character of `text` is a hyphen.
pub open spec fn no_hyphen(text: Seq<char>) -> bool {
    forall|i: int| 0 <= i < text.len() ==> #[trigger] text[i] != '-'
}

/// An identifier put together from its six parts: node, host, port, random
/// digits, seconds and nanoseconds.
pub open spec fn cuid_of_parts(
    node: Seq<char>,
    host: Seq<char>,
    port: Seq<char>,
    digits: Seq<char>,
    sec: Seq<char>,
    nsec: Seq<char>,
) -> Seq<char> {
    node + seq!['-'] + host + seq![':'] + port + seq!['-'] + digits + seq!['-'] + sec + nsec
}

/// True of the texts that have the form of an identifier: a node's name
/// without hyphen, a hyphen, a host without hyphen, a colon, a port of
/// digits, a hyphen, four digits, a hyphen, and two runs of digits. No part
/// is empty.
pub open spec fn has_cuid_format(cuid: Seq<char>) -> bool {
    exists|
        node: Seq<char>,
        host: Seq<char>,
        port: Seq<char>,
        digits: Seq<char>,
        sec: Seq<char>,
        nsec: Seq<char>,
    |
        {
            &&& cuid == #[trigger] cuid_of_parts(node, host, port, digits, sec, nsec)
            &&& node.len() > 0 && no_hyphen(node)
            &&& host.len() > 0 && no_hyphen(host)
            &&& port.len() > 0 && all_digits(port)
            &&& digits.len() == 4 && all_digits(digits)
            &&& sec.len() > 0 && all_digits(sec)
            &&& nsec.len() > 0 && all_digits(nsec)
        }
}

/// An identifier made for a client has the form of an identifier, where
/// the node's name is not empty and holds no hyphen, the client's address is
/// a host without hyphen, a colon and a port of digits, and the clock does
/// not stand before 1970.
pub proof fn lemma_cuid_format(
    node: Seq<char>,
    host: Seq<char>,
    port: Seq<char>,
    digits: Seq<char>,
    sec: int,
    nsec: int,
)
    requires
        node.len() > 0,
        no_hyphen(node),
        host.len() > 0,
        no_hyphen(host),
        port.len() > 0,
        all_digits(port),
        digits.len() == 4,
        chars_within(digits, 48, 57),
        sec >= 0,
        nsec >= 0,
    ensures
        has_cuid_format(cuid_line(node, host + seq![':'] + port, digits, sec, nsec)),
{
    lemma_decimal_digits(sec as nat);
    lemma_decimal_digits(nsec as nat);
    assert(all_digits(digits)) by {
        assert forall|i: int| 0 <= i < digits.len() implies is_digit(#[trigger] digits[i]) by {
            assert(48 <= digits[i] as u32 && (digits[i] as u32) < 57);
        }
    }
    assert(cuid_line(node, host + seq![':'] + port, digits, sec, nsec) =~= cuid_of_parts(
        node,
        host,
        port,
        digits,
        decimal(sec as nat),
        decimal(nsec as nat),
    ));
}

// === samples ===
impl CreateTestRecord<Command> for Command {
    /// A sample command: a blank quit of the client `test_1` for the
    /// sample 1, of the client `test_*` for any other.
    fn create_for_test(sample: u32) -> (record: Command)
        ensures
            record@ == (CommandView {
                cuid: Some(
                    if sample == 1 {
                        "test_1"@
                    } else {
                        "test_*"@
                    },
                ),
                target: 1,
                ..CommandView::blank()
            }),
    {
        match sample {
            1 => {
                Command {
                    cuid: Some(String::from_str("test_1")),
                    target: 1,
                    full: false,
                    part: false,
                    busy: false,
                    data: String::new(),
                }
            },
            _ => {
                Command {
                    cuid: Some(String::from_str("test_*")),
                    target: 1,
                    full: false,
                    part: false,
                    busy: false,
                    data: String::new(),
                }
            },
        }
    }

    /// Tells whether the command is what folding the sample frame of that
    /// number into a new command gives: a complete sign-in for the sample 1,
    /// a partial quit for the sample 2. No other sample passes.
    fn check(&self, sample: u32) -> (passed: bool)
        ensures
            passed == (if sample == 1 {
                self@.full && !self@.part && !self@.busy && self@.target == 2
            } else if sample == 2 {
                !self@.full && self@.part && !self@.busy && self@.target == 1
            } else {
                false
            }),
    {
        match sample {
            1 => { self.full && !self.part && !self.busy && self.target == 2 },
            2 => { !self.full && self.part && !self.busy && self.target == 1 },
            _ => false,
        }
    }
}

impl CreateTestRecord<JsonBufferCommand> for JsonBufferCommand {
    /// A sample frame: a whole sign-in for the sample 1, a partial quit
    /// for any other.
    fn create_for_test(sample: u32) -> (record: JsonBufferCommand)
        ensures
            record@ == (if sample == 1 {
                FrameView { target: 2, part: false, cid: "test_1"@, data: "test_1"@ }
            } else {
                FrameView { target: 1, part: true, cid: "test_0"@, data: "test_0"@ }
            }),
    {
        match sample {
            1 => {
                JsonBufferCommand {
                    target: 2,
                    part: false,
                    cid: String::from_str("test_1"),
                    data: String::from_str("test_1"),
                }
            },
            _ => {
                JsonBufferCommand {
                    target: 1,
                    part: true,
                    cid: String::from_str("test_0"),
                    data: String::from_str("test_0"),
                }
            },
        }
    }

    /// Every frame passes.
    fn check(&self, sample: u32) -> (passed: bool)
        ensures
            passed,
    {
        true
    }
}

} // verus!
