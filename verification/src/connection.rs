use crate::common::helpers::chars_within;
use crate::consts::common::{CONNECTION_FINISH_TIMEOUT, NOTARGET_DELAY};
use crate::handler::exec::{
    answered, lemma_answers_before_auth, lemma_sign_in_stores_nonce, open_to_all,
};
use crate::options::configuration::{JsonReader, ProjectOptions};
use crate::processing::{DispatchTable, TableView};
use crate::protocol::{AnswerTargetEnum, LookAsTargetAnswerEnum, TargetAsDigit};
use crate::text::string_from_utf8;
use crate::transport::{
    cuid_line, cuid_or_empty, is_minted_cuid, mint_cuid, Answer, AnswerView, ClientConnectionData,
    ClientIdConstructor, Command, CommandDataCreator, CommandView, CuidOwner, CuidSource,
    FrameView, JsonBufferCommand, SessionView, TransportConstructor,
};
use vstd::prelude::*;
use vstd::utf8::{decode_utf8, encode_utf8, valid_utf8};

verus! {

/// The frame that the bytes of one read hold, if they hold one: they are
/// UTF-8, and the text is a frame.
pub open spec fn frame_of_bytes(data: Seq<u8>) -> Option<FrameView> {
    if valid_utf8(data) {
        FrameView::of_text(decode_utf8(data))
    } else {
        None
    }
}

/// Decodes the bytes of one read as one frame. `label` names the client
/// for the caller's log and plays no part.
pub fn get_buffer_command_record(data: Vec<u8>, label: &String) -> (record: Option<
    JsonBufferCommand,
>)
    ensures
        record is Some <==> frame_of_bytes(data@) is Some,
        record is Some ==> Some(record->0@) == frame_of_bytes(data@),
{
    match string_from_utf8(data) {
        Some(line) => JsonBufferCommand::read_from_text(line.as_str()),
        None => None,
    }
}

/// The command after one more frame was folded into it: the first frame
/// of a command sets its kind, and brings the new identifier `new_cuid`
/// where there is one; every frame adds its payload, and a frame that is not
/// partial completes the command.
pub open spec fn fold_frame_view(
    command: CommandView,
    frame: FrameView,
    new_cuid: Option<Seq<char>>,
) -> CommandView {
    if !command.part {
        match new_cuid {
            Some(cuid) => CommandView { cuid: Some(cuid), ..command.setup(frame) },
            None => command.setup(frame),
        }
    } else {
        command.append(frame)
    }
}

/// The command after a run of frames was folded into it, one after the
/// other.
pub open spec fn fold_frames(command: CommandView, frames: Seq<FrameView>) -> CommandView
    decreases frames.len(),
{
    if frames.len() == 0 {
        command
    } else {
        fold_frames(fold_frame_view(command, frames.first(), None), frames.drop_first())
    }
}

/// Folds one frame into the command that is being put together; tells
/// whether the command is complete.
pub fn fold_frame(command: &mut Command, buffer: &JsonBufferCommand, new_cuid: Option<String>) -> (done: bool)
    ensures
        final(command)@ == fold_frame_view(
            old(command)@,
            buffer@,
            match new_cuid {
                Some(cuid) => Some(cuid@),
                None => None,
            },
        ),
        done == final(command)@.full,
{
    if command.is_new() {
        command.setup(buffer);
        match new_cuid {
            Some(cuid) => {
                command.copy_cuid(&cuid);
            },
            None => {},
        }
    } else {
        command.append(buffer);
    }
    command.is_full()
}

/// Folds one frame into the command that is being put together, and
/// gives a new command an identifier made for the client at `addr` where
/// `create_cuid` asks for it; tells whether the command is complete.
pub fn prepare_command(
    command: &mut Command,
    buffer: &JsonBufferCommand,
    addr: &str,
    options: &ProjectOptions,
    create_cuid: bool,
) -> (done: bool)
    ensures
        done == final(command)@.full,
        !old(command)@.part && create_cuid ==> {
            &&& final(command)@.cuid is Some
            &&& is_minted_cuid(final(command)@.cuid->0, options.node@, addr@)
            &&& final(command)@ == fold_frame_view(old(command)@, buffer@, final(command)@.cuid)
        },
        !(!old(command)@.part && create_cuid) ==> final(command)@ == fold_frame_view(
            old(command)@,
            buffer@,
            None,
        ),
{
    if command.is_new() && create_cuid {
        fold_frame(command, buffer, Some(mint_cuid(addr, options)))
    } else {
        fold_frame(command, buffer, None)
    }
}

/// The bytes of a read, or nothing where the read failed.
pub open spec fn read_view(read: Option<Vec<u8>>) -> Option<Seq<u8>> {
    match read {
        Some(bytes) => Some(bytes@),
        None => None,
    }
}

/// The number of times that a closing connection tries to record its
/// client as gone: one try for each idle pause that fits into the time it
/// has for that.
pub fn finish_attempts() -> (iter_limit: u32)
    ensures
        iter_limit == 600,
{
    let end_loop_delay: u32 = NOTARGET_DELAY;
    CONNECTION_FINISH_TIMEOUT * 1000 / end_loop_delay
}

/// Where a connection stands in its cycle of request and reply.
#[derive(Clone, Copy, Debug, PartialEq, Eq, Structural)]
pub enum Phase {
    /// The next thing to come is a read from the socket.
    Reading,
    /// A complete command waits to be put into the dispatch table.
    Posting,
    /// The command is in the table; its answer is awaited.
    Waiting,
    /// An answer is to be written to the socket.
    Writing,
    /// The connection is over.
    Closed,
}

/// What one connection keeps of its client.
pub struct ConnectionState {
    auth: bool,
    phase: Phase,
    buffer_command: Command,
    last_cuid: Option<String>,
    connection_data: ClientConnectionData,
    slot: usize,
    close_after_write: bool,
    dropped: bool,
}

/// A connection's state as a value of mathematics.
#[verifier::ext_equal]
pub struct ConnectionView {
    pub auth: bool,
    pub phase: Phase,
    pub pending: CommandView,
    pub last_cuid: Option<Seq<char>>,
    pub session: SessionView,
    pub slot: nat,
    pub close_after_write: bool,
    pub dropped: bool,
}

impl View for ConnectionState {
    type V = ConnectionView;

    closed spec fn view(&self) -> ConnectionView {
        ConnectionView {
            auth: self.auth,
            phase: self.phase,
            pending: self.buffer_command@,
            last_cuid: match self.last_cuid {
                Some(cuid) => Some(cuid@),
                None => None,
            },
            session: self.connection_data@,
            slot: self.slot as nat,
            close_after_write: self.close_after_write,
            dropped: self.dropped,
        }
    }
}

impl ConnectionView {
    /// The state of a connection that was just accepted.
    pub open spec fn fresh() -> ConnectionView {
        ConnectionView {
            auth: false,
            phase: Phase::Reading,
            pending: CommandView::blank(),
            last_cuid: None,
            session: SessionView::blank(),
            slot: 0,
            close_after_write: false,
            dropped: false,
        }
    }

    /// A command in the making belongs to a client from its first frame
    /// on; a command that waits to be posted is complete, and is one that
    /// the client may send.
    pub open spec fn wf(self) -> bool {
        &&& self.pending.wf()
        &&& self.pending.part ==> self.pending.cuid is Some
        &&& self.phase == Phase::Posting ==> {
            &&& self.pending.full
            &&& self.pending.cuid is Some
            &&& self.last_cuid == Some(cuid_or_empty(self.pending.cuid))
            &&& !self.refused()
        }
        &&& self.phase == Phase::Waiting ==> self.last_cuid is Some
    }

    /// True where the command in the making may not go on: it needs an
    /// authenticated client, and the client is not.
    pub open spec fn refused(self) -> bool {
        !self.auth && self.pending.need_auth()
    }

    /// The state after `frame` was folded into the command in the making.
    /// A client without an identifier gets `minted` with the first frame of
    /// a command; a client that has one puts it on the command.
    pub open spec fn folded(self, frame: FrameView, minted: Seq<char>) -> ConnectionView {
        if self.session.cuid.len() == 0 {
            let pending = fold_frame_view(self.pending, frame, Some(minted));
            ConnectionView {
                pending,
                session: if cuid_or_empty(pending.cuid).len() > 0 {
                    SessionView { cuid: cuid_or_empty(pending.cuid), ..self.session }
                } else {
                    self.session
                },
                ..self
            }
        } else {
            ConnectionView {
                pending: CommandView {
                    cuid: Some(self.session.cuid),
                    ..fold_frame_view(self.pending, frame, None)
                },
                ..self
            }
        }
    }

    /// The state after one read from the socket. `read` holds the bytes
    /// read, or nothing where the read failed. A failed read and a read of
    /// fewer than two bytes end the connection. Bytes that are no frame
    /// are dropped, which is noted, and change nothing of the command in the
    /// making. Then a command that needs an authenticated client ends the
    /// connection of a client that is not, and a command that the frame
    /// completed waits to be posted.
    pub open spec fn received(self, read: Option<Seq<u8>>, minted: Seq<char>) -> ConnectionView {
        if self.phase != Phase::Reading {
            self
        } else if read is None || read->0.len() <= 1 {
            ConnectionView { phase: Phase::Closed, dropped: false, ..self }
        } else {
            let frame = frame_of_bytes(read->0);
            let next = match frame {
                Some(frame) => ConnectionView { dropped: false, ..self.folded(frame, minted) },
                None => ConnectionView { dropped: true, ..self },
            };
            if next.refused() {
                ConnectionView { phase: Phase::Closed, ..next }
            } else if frame is Some && next.pending.full {
                ConnectionView {
                    phase: Phase::Posting,
                    last_cuid: Some(cuid_or_empty(next.pending.cuid)),
                    ..next
                }
            } else {
                next
            }
        }
    }

    /// The state after the command was put into slot `index` of the
    /// table.
    pub open spec fn posted(self, index: nat) -> ConnectionView {
        ConnectionView {
            phase: Phase::Waiting,
            slot: index,
            pending: CommandView::blank(),
            ..self
        }
    }

    /// The state after an answer with the code `target` has come: an
    /// answer that says quit or error is written and ends the connection; one
    /// that says skip is not written; one that greets the client is written
    /// and makes the client an authenticated one; any other is written.
    pub open spec fn answered(self, target: u32) -> ConnectionView {
        match target.answer_target() {
            AnswerTargetEnum::Quit => ConnectionView {
                phase: Phase::Writing,
                close_after_write: true,
                ..self
            },
            AnswerTargetEnum::Error => ConnectionView {
                phase: Phase::Writing,
                close_after_write: true,
                ..self
            },
            AnswerTargetEnum::Skip => ConnectionView { phase: Phase::Reading, ..self },
            AnswerTargetEnum::WhoAreYou => ConnectionView {
                auth: true,
                phase: Phase::Writing,
                close_after_write: false,
                ..self
            },
            _ => ConnectionView { phase: Phase::Writing, close_after_write: false, ..self },
        }
    }

    /// True where the answer that the connection waits for is in the
    /// table.
    pub open spec fn answer_there(self, table: TableView) -> bool {
        &&& self.phase == Phase::Waiting
        &&& self.slot < table.len()
        &&& table.answer_ready(self.slot as int, cuid_or_empty(self.last_cuid))
    }

    /// The state after the awaited answer was taken out of the table.
    pub open spec fn collected(self, table: TableView) -> ConnectionView {
        (ConnectionView {
            session: self.session.clear().copy(table.sessions[self.slot as int]),
            ..self
        }).answered(table.answers[self.slot as int].target)
    }

    /// The state after the answer was written, or could not be written.
    pub open spec fn written(self, done: bool) -> ConnectionView {
        if self.phase != Phase::Writing {
            self
        } else if self.close_after_write || !done {
            ConnectionView { phase: Phase::Closed, ..self }
        } else {
            ConnectionView { phase: Phase::Reading, ..self }
        }
    }
}

impl ConnectionState {
    /// The state of a connection that was just accepted.
    pub fn new() -> (state: Self)
        ensures
            state@ == ConnectionView::fresh(),
            state@.wf(),
    {
        ConnectionState {
            auth: false,
            phase: Phase::Reading,
            buffer_command: Command::new(),
            last_cuid: None,
            connection_data: ClientConnectionData::new(),
            slot: 0,
            close_after_write: false,
            dropped: false,
        }
    }

    /// Where the connection stands.
    pub fn phase(&self) -> (phase: Phase)
        ensures
            phase == self@.phase,
    {
        self.phase
    }

    /// Tells whether the client has authenticated.
    pub fn is_authenticated(&self) -> (auth: bool)
        ensures
            auth == self@.auth,
    {
        self.auth
    }

    /// Tells whether the bytes of the last read were dropped because they
    /// were no frame.
    pub fn frame_dropped(&self) -> (dropped: bool)
        ensures
            dropped == self@.dropped,
    {
        self.dropped
    }

    /// The identifier of the last command that was completed.
    pub fn last_cuid(&self) -> (cuid: Option<String>)
        ensures
            crate::transport::text_of(cuid) == self@.last_cuid,
    {
        match &self.last_cuid {
            Some(cuid) => Some(cuid.clone()),
            None => None,
        }
    }

    /// The command in the making.
    pub fn pending_command(&self) -> (command: &Command)
        ensures
            command@ == self@.pending,
    {
        &self.buffer_command
    }

    /// What is known of the client.
    pub fn connection_data(&self) -> (session: &ClientConnectionData)
        ensures
            session@ == self@.session,
    {
        &self.connection_data
    }

    /// Takes in one read from the socket, with `minted` as the identifier
    /// for a client that has none.
    pub fn accept(&mut self, read: Option<Vec<u8>>, minted: String) -> (phase: Phase)
        requires
            old(self)@.wf(),
        ensures
            final(self)@.wf(),
            final(self)@ == old(self)@.received(read_view(read), minted@),
            phase == final(self)@.phase,
    {
        if self.phase != Phase::Reading {
            return self.phase;
        }
        self.dropped = false;
        let data = match read {
            Some(data) => data,
            None => {
                self.phase = Phase::Closed;
                return self.phase;
            },
        };
        if data.len() <= 1 {
            self.phase = Phase::Closed;
            return self.phase;
        }
        let label = String::new();
        let new_json_command = get_buffer_command_record(data, &label);
        let done = match new_json_command {
            Some(json_buffer) => {
                let need_cuid = !self.connection_data.has_cuid();
                let parce_done = if need_cuid {
                    fold_frame(&mut self.buffer_command, &json_buffer, Some(minted))
                } else {
                    fold_frame(&mut self.buffer_command, &json_buffer, None)
                };
                if need_cuid {
                    self.connection_data.setup_cuid(&self.buffer_command);
                } else {
                    self.buffer_command.setup_cuid(&self.connection_data);
                }
                parce_done
            },
            None => {
                self.dropped = true;
                false
            },
        };
        let close = !self.auth && self.buffer_command.need_auth();
        if close {
            self.phase = Phase::Closed;
        } else if done {
            self.last_cuid = Some(self.buffer_command.get_cuid());
            self.phase = Phase::Posting;
        }
        self.phase
    }

    /// Takes in one read from the socket of the client at `addr`. A client
    /// that has no identifier yet gets a new one with the first frame of a
    /// command.
    pub fn receive(&mut self, read: Option<Vec<u8>>, addr: &str, options: &ProjectOptions) -> (phase: Phase)
        requires
            old(self)@.wf(),
        ensures
            final(self)@.wf(),
            exists|minted: Seq<char>|
                is_minted_cuid(minted, options.node@, addr@) && final(self)@ == #[trigger] old(
                    self,
                )@.received(read_view(read), minted),
            phase == final(self)@.phase,
    {
        if !self.connection_data.has_cuid() && self.buffer_command.is_new() {
            let minted = mint_cuid(addr, options);
            self.accept(read, minted)
        } else {
            let phase = self.accept(read, String::new());
            proof {
                let digits = seq!['0', '0', '0', '0'];
                let minted = cuid_line(options.node@, addr@, digits, 0, 0);
                assert(chars_within(digits, 48, 57));
                assert(is_minted_cuid(minted, options.node@, addr@));
                assert(self@ == old(self)@.received(read_view(read), minted));
            }
            phase
        }
    }

    /// Tries once to put the complete command into the table; tells
    /// where the connection stands then. In any phase but that of posting,
    /// and where every slot is reserved, nothing changes.
    pub fn post(&mut self, table: &mut DispatchTable) -> (phase: Phase)
        requires
            old(self)@.wf(),
            old(table)@.wf(),
        ensures
            final(self)@.wf(),
            final(table)@.wf(),
            phase == final(self)@.phase,
            old(self)@.phase != Phase::Posting ==> final(self)@ == old(self)@ && final(table)@
                == old(table)@,
            old(self)@.phase == Phase::Posting ==> exists|index: int|
                {
                    &&& #[trigger] old(table)@.first_free(index)
                    &&& index < old(table)@.len() ==> final(self)@ == old(self)@.posted(
                        index as nat,
                    ) && final(table)@ == old(table)@.posted(
                        index,
                        old(self)@.pending,
                        old(self)@.session,
                    )
                    &&& index == old(table)@.len() ==> final(self)@ == old(self)@ && final(table)@
                        == old(table)@
                },
    {
        if self.phase != Phase::Posting {
            return self.phase;
        }
        let buffer_index = table.send_command_to_workers(
            &self.buffer_command,
            &self.connection_data,
        );
        if buffer_index < table.len() {
            self.buffer_command.clear();
            self.slot = buffer_index;
            self.phase = Phase::Waiting;
        }
        self.phase
    }

    /// Tries once to take the awaited answer out of the table, together
    /// with what the worker has left of the client's session state. Returns
    /// the answer where it was there. In any phase but that of waiting, and
    /// where the answer is not there, nothing changes.
    pub fn collect(&mut self, table: &mut DispatchTable) -> (this_answer: Option<Answer>)
        requires
            old(self)@.wf(),
            old(table)@.wf(),
        ensures
            final(self)@.wf(),
            final(table)@.wf(),
            this_answer is Some <==> old(self)@.answer_there(old(table)@),
            this_answer is Some ==> {
                &&& this_answer->0@ == (AnswerView {
                    busy: true,
                    ..old(table)@.answers[old(self)@.slot as int]
                })
                &&& final(table)@ == old(table)@.taken(old(self)@.slot as int)
                &&& final(self)@ == old(self)@.collected(old(table)@)
            },
            this_answer is None ==> final(self)@ == old(self)@ && final(table)@ == old(table)@,
    {
        if self.phase != Phase::Waiting || self.slot >= table.len() {
            return None;
        }
        let command_cuid = match &self.last_cuid {
            Some(cuid) => cuid.clone(),
            None => String::new(),
        };
        let this_answer = table.wait_answer(self.slot, &command_cuid, &mut self.connection_data);
        match &this_answer {
            Some(answer) => {
                match <u32 as LookAsTargetAnswerEnum>::as_target_enum(&answer.to_u32()) {
                    AnswerTargetEnum::Quit => {
                        self.close_after_write = true;
                        self.phase = Phase::Writing;
                    },
                    AnswerTargetEnum::Error => {
                        self.close_after_write = true;
                        self.phase = Phase::Writing;
                    },
                    AnswerTargetEnum::Skip => {
                        self.phase = Phase::Reading;
                    },
                    AnswerTargetEnum::WhoAreYou => {
                        self.auth = true;
                        self.close_after_write = false;
                        self.phase = Phase::Writing;
                    },
                    _ => {
                        self.close_after_write = false;
                        self.phase = Phase::Writing;
                    },
                }
            },
            None => {},
        }
        this_answer
    }

    /// Takes note that the answer was written, or could not be written.
    pub fn written(&mut self, done: bool) -> (phase: Phase)
        requires
            old(self)@.wf(),
        ensures
            final(self)@.wf(),
            final(self)@ == old(self)@.written(done),
            phase == final(self)@.phase,
    {
        if self.phase == Phase::Writing {
            if self.close_after_write || !done {
                self.phase = Phase::Closed;
            } else {
                self.phase = Phase::Reading;
            }
        }
        self.phase
    }

    /// Records the client of a connection that is over as gone, if the
    /// connection ever completed a command.
    pub fn finish(&self, table: &mut DispatchTable)
        requires
            old(table)@.wf(),
        ensures
            final(table)@.wf(),
            final(table)@ == (match self@.last_cuid {
                Some(cuid) => old(table)@.closed(cuid),
                None => old(table)@,
            }),
    {
        match &self.last_cuid {
            Some(last_client_cuid) => {
                table.mark_closed(last_client_cuid.clone());
            },
            None => {},
        }
    }
}

/// True where a connection in the phase `before` can be in the phase
/// `after` one step later.
pub open spec fn follows(before: Phase, after: Phase) -> bool {
    match before {
        Phase::Reading => after == Phase::Reading || after == Phase::Posting || after
            == Phase::Closed,
        Phase::Posting => after == Phase::Posting || after == Phase::Waiting,
        Phase::Waiting => after == Phase::Waiting || after == Phase::Writing || after
            == Phase::Reading,
        Phase::Writing => after == Phase::Writing || after == Phase::Reading || after
            == Phase::Closed,
        Phase::Closed => after == Phase::Closed,
    }
}

/// True where every phase of `trace` but the first follows the one before
/// it.
pub open spec fn is_run(trace: Seq<Phase>) -> bool {
    forall|i: int| 0 <= i < trace.len() - 1 ==> follows(#[trigger] trace[i], trace[i + 1])
}

/// The number of commands that were completed in the course of `trace`.
pub open spec fn completions(trace: Seq<Phase>) -> nat
    decreases trace.len(),
{
    if trace.len() < 2 {
        0
    } else {
        let before = trace[trace.len() - 2];
        let after = trace[trace.len() - 1];
        completions(trace.drop_last()) + if before == Phase::Reading && after == Phase::Posting {
            1nat
        } else {
            0nat
        }
    }
}

/// The number of answers that the connection had to write in the course
/// of `trace`.
pub open spec fn writes(trace: Seq<Phase>) -> nat
    decreases trace.len(),
{
    if trace.len() < 2 {
        0
    } else {
        let before = trace[trace.len() - 2];
        let after = trace[trace.len() - 1];
        writes(trace.drop_last()) + if before == Phase::Waiting && after == Phase::Writing {
            1nat
        } else {
            0nat
        }
    }
}

/// Every step of a connection leads from a phase to one that follows it.
pub proof fn lemma_steps_follow(
    state: ConnectionView,
    read: Option<Seq<u8>>,
    minted: Seq<char>,
    index: nat,
    table: TableView,
    done: bool,
)
    ensures
        follows(state.phase, state.received(read, minted).phase),
        state.phase == Phase::Posting ==> follows(state.phase, state.posted(index).phase),
        state.phase == Phase::Waiting ==> follows(state.phase, state.collected(table).phase),
        follows(state.phase, state.written(done).phase),
        follows(state.phase, state.phase),
{
}

/// A connection writes at most one answer for each command that it
/// completes: in every run of phases that starts with a read, the answers
/// written are no more than the commands completed.
pub proof fn lemma_one_answer_per_command(trace: Seq<Phase>)
    requires
        trace.len() > 0,
        trace[0] == Phase::Reading,
        is_run(trace),
    ensures
        writes(trace) <= completions(trace),
        trace.last() == Phase::Posting || trace.last() == Phase::Waiting ==> writes(trace)
            < completions(trace),
    decreases trace.len(),
{
    if trace.len() >= 2 {
        let shorter = trace.drop_last();
        assert(is_run(shorter)) by {
            assert forall|i: int| 0 <= i < shorter.len() - 1 implies follows(
                #[trigger] shorter[i],
                shorter[i + 1],
            ) by {
                assert(follows(trace[i], trace[i + 1]));
            }
        }
        lemma_one_answer_per_command(shorter);
        assert(follows(trace[trace.len() - 2], trace[trace.len() - 2 + 1]));
        assert(shorter.last() == trace[trace.len() - 2]);
    }
}

/// A read of no byte or of one byte ends the connection, and so does a
/// read that failed.
pub proof fn lemma_short_read_closes(
    state: ConnectionView,
    read: Option<Seq<u8>>,
    minted: Seq<char>,
)
    requires
        state.phase == Phase::Reading,
        read is None || read->0.len() <= 1,
    ensures
        state.received(read, minted).phase == Phase::Closed,
{
}

/// A command that needs an authenticated client is never posted for a
/// client that is not: the read that brings it ends the connection.
pub proof fn lemma_gate_closes(state: ConnectionView, read: Option<Seq<u8>>, minted: Seq<char>)
    requires
        state.phase == Phase::Reading,
        !state.auth,
    ensures
        ({
            let next = state.received(read, minted);
            next.phase == Phase::Posting ==> !next.pending.need_auth()
        }),
        ({
            let next = state.received(read, minted);
            read is Some && frame_of_bytes(read->0) is Some && next.pending.need_auth()
                ==> next.phase == Phase::Closed
        }),
{
}

/// Folding a run of frames and then another is folding the two runs as
/// one.
pub proof fn lemma_fold_frames_concat(
    command: CommandView,
    first: Seq<FrameView>,
    rest: Seq<FrameView>,
)
    ensures
        fold_frames(command, first + rest) == fold_frames(fold_frames(command, first), rest),
    decreases first.len(),
{
    if first.len() == 0 {
        assert(first + rest =~= rest);
    } else {
        assert((first + rest).first() == first.first());
        assert((first + rest).drop_first() =~= first.drop_first() + rest);
        lemma_fold_frames_concat(
            fold_frame_view(command, first.first(), None),
            first.drop_first(),
            rest,
        );
    }
}

/// Two partial frames and a last one give one command, whether the last
/// frame is folded together with the first two or after them: the command
/// is complete, of the kind that the first frame names, and its payload is
/// the three payloads in a row.
pub proof fn lemma_fold_three_frames(
    command: CommandView,
    f1: FrameView,
    f2: FrameView,
    f3: FrameView,
)
    requires
        !command.part,
        f1.part,
        f2.part,
        !f3.part,
    ensures
        fold_frames(fold_frames(command, seq![f1, f2]), seq![f3]) == fold_frames(
            command,
            seq![f1, f2, f3],
        ),
        fold_frames(command, seq![f1, f2, f3]) == (CommandView {
            busy: false,
            full: true,
            part: false,
            target: f1.target,
            data: command.data + f1.data + f2.data + f3.data,
            cuid: command.cuid,
        }),
{
    lemma_fold_frames_concat(command, seq![f1, f2], seq![f3]);
    assert(seq![f1, f2] + seq![f3] =~= seq![f1, f2, f3]);
    let all = seq![f1, f2, f3];
    let c1 = fold_frame_view(command, f1, None);
    let c2 = fold_frame_view(c1, f2, None);
    let c3 = fold_frame_view(c2, f3, None);
    assert(all.drop_first() =~= seq![f2, f3]);
    assert(seq![f2, f3].drop_first() =~= seq![f3]);
    assert(seq![f3].drop_first() =~= Seq::<FrameView>::empty());
    assert(fold_frames(c3, Seq::<FrameView>::empty()) == c3);
    assert(fold_frames(c2, seq![f3]) == c3);
    assert(fold_frames(c1, seq![f2, f3]) == c3);
    assert(fold_frames(command, all) == c3);
}

/// A client that has not authenticated gets no answer but a verification
/// request, a greeting, an error, a quit, an unknown or a skip: whatever
/// command its connection posts is answered with one of these.
pub proof fn lemma_unauthenticated_answers(
    state: ConnectionView,
    read: Option<Seq<u8>>,
    minted: Seq<char>,
    secret: Seq<char>,
    session: SessionView,
    answer: AnswerView,
    after: SessionView,
)
    requires
        state.phase == Phase::Reading,
        !state.auth,
        state.received(read, minted).phase == Phase::Posting,
        answered(state.received(read, minted).pending, secret, session, answer, after),
    ensures
        open_to_all(answer.target),
{
    lemma_gate_closes(state, read, minted);
    lemma_answers_before_auth(
        state.received(read, minted).pending,
        secret,
        session,
        answer,
        after,
    );
}

/// After a sign-in was served in the slot that a connection waits on, and
/// its answer published there, the connection that takes the answer out has
/// the nonce of the answer's payload as the nonce of its client.
pub proof fn lemma_sign_in_nonce(
    state: ConnectionView,
    table: TableView,
    command: CommandView,
    secret: Seq<char>,
    answer: AnswerView,
    after: SessionView,
)
    requires
        table.wf(),
        state.slot < table.len(),
        command.target == 2,
        answered(command, secret, table.sessions[state.slot as int], answer, after),
    ensures
        ({
            let index = state.slot as int;
            let published = table.served(index, after).published(index, answer);
            &&& published.answers[index].target == 3
            &&& state.collected(published).session.tmp == encode_utf8(
                published.answers[index].data,
            )
        }),
{
    lemma_sign_in_stores_nonce(command, secret, table.sessions[state.slot as int], answer, after);
}

} // verus!
