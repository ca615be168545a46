use crate::consts::common::{NOTARGET_DELAY, STD_LOOP_DELAY};
use crate::handler::exec::{
    answered, handled, lemma_handled_keeps_group, CommandHandle, Outcome,
};
use crate::options::configuration::ProjectOptions;
use crate::protocol::LookAsTargetCommandEnum;
use crate::transport::{
    cuid_or_empty, Answer, AnswerView, ClientConnectionData, Command, CommandView, CuidSource,
    LockManager, SessionView, TransportConstructor, TransportCopy,
};
use vstd::prelude::*;

verus! {

/// The table through which connections and workers meet: a command, an
/// answer and a client's session state for each of its slots, and the
/// identifiers of the clients that have gone.
pub struct DispatchTable {
    commands: Vec<Command>,
    answers: Vec<Answer>,
    sessions: Vec<ClientConnectionData>,
    closed_cuids: Vec<String>,
}

/// A dispatch table as a value of mathematics.
#[verifier::ext_equal]
pub struct TableView {
    pub commands: Seq<CommandView>,
    pub answers: Seq<AnswerView>,
    pub sessions: Seq<SessionView>,
    pub closed_cuids: Seq<Seq<char>>,
}

impl TableView {
    /// The number of slots.
    pub open spec fn len(self) -> nat {
        self.commands.len()
    }

    /// The three rows have one length, of eight slots at least; a complete
    /// command is not partial and belongs to a client; no client is recorded
    /// as gone twice.
    pub open spec fn wf(self) -> bool {
        &&& self.commands.len() >= 8
        &&& self.answers.len() == self.commands.len()
        &&& self.sessions.len() == self.commands.len()
        &&& forall|i: int|
            0 <= i < self.commands.len() ==> (#[trigger] self.commands[i]).wf() && (
            self.commands[i].full ==> self.commands[i].cuid is Some)
        &&& self.closed_cuids.no_duplicates()
    }

    /// True where `index` is the first slot whose command nobody has
    /// reserved, or the number of slots where every command is reserved.
    pub open spec fn first_free(self, index: int) -> bool {
        &&& 0 <= index <= self.commands.len()
        &&& index < self.commands.len() ==> !self.commands[index].busy
        &&& forall|j: int| 0 <= j < index ==> (#[trigger] self.commands[j]).busy
    }

    /// The table after the complete command `command` was put into slot
    /// `index`, and the session state `session` of its client beside it.
    pub open spec fn posted(self, index: int, command: CommandView, session: SessionView) -> TableView {
        TableView {
            commands: self.commands.update(index, self.commands[index].copy(command)),
            sessions: self.sessions.update(index, self.sessions[index].clear().copy(session)),
            ..self
        }
    }

    /// True where the answer in slot `index` is the one that the client
    /// `cuid` waits for: nobody has reserved it, it is for that client, and it
    /// is not marked as sent. An answer for nobody counts as one for the
    /// client with the empty identifier.
    pub open spec fn answer_ready(self, index: int, cuid: Seq<char>) -> bool {
        &&& !self.answers[index].busy
        &&& cuid_or_empty(self.answers[index].cuid) == cuid
        &&& !self.answers[index].sent
    }

    /// The table after the answer in slot `index` was taken out and the
    /// nonce beside it forgotten.
    pub open spec fn taken(self, index: int) -> TableView {
        TableView {
            answers: self.answers.update(index, AnswerView::blank()),
            sessions: self.sessions.update(index, self.sessions[index].clear()),
            ..self
        }
    }

    /// True where the command in slot `index` is complete and nobody has
    /// reserved it.
    pub open spec fn claimable(self, index: int) -> bool {
        self.commands[index].full && !self.commands[index].busy
    }

    /// True where `index` is the first slot whose command a worker may
    /// claim.
    pub open spec fn first_claimable(self, index: int) -> bool {
        &&& 0 <= index < self.commands.len()
        &&& self.claimable(index)
        &&& forall|j: int| 0 <= j < index ==> !#[trigger] self.claimable(j)
    }

    /// True where some slot holds a complete command.
    pub open spec fn any_full(self) -> bool {
        exists|i: int| 0 <= i < self.commands.len() && (#[trigger] self.commands[i]).full
    }

    /// The table after a worker has reserved the command in slot `index`.
    pub open spec fn claimed(self, index: int) -> TableView {
        TableView {
            commands: self.commands.update(
                index,
                CommandView { busy: true, ..self.commands[index] },
            ),
            ..self
        }
    }

    /// True where `command` is the command that a worker has reserved in
    /// slot `index`, and belongs to a client.
    pub open spec fn claim_held(self, index: int, command: CommandView) -> bool {
        &&& 0 <= index < self.commands.len()
        &&& self.commands[index].busy
        &&& self.commands[index] == command
        &&& command.cuid is Some
    }

    /// The table after the command in slot `index` was served: the slot's
    /// command is gone, and `session` is the state of its client.
    pub open spec fn served(self, index: int, session: SessionView) -> TableView {
        TableView {
            commands: self.commands.update(index, CommandView::blank()),
            sessions: self.sessions.update(index, session),
            ..self
        }
    }

    /// The table after a worker's pass has served the command in slot
    /// `index`: the command is gone, `session` is the state of its client,
    /// and `answer` is in the slot where the slot was open for it. No other
    /// slot has changed.
    pub open spec fn passed(self, index: int, answer: AnswerView, session: SessionView) -> TableView {
        let served = self.claimed(index).served(index, session);
        if self.open_for_answer(index) {
            served.published(index, answer)
        } else {
            served
        }
    }

    /// True where slot `index` was served on the way from the table
    /// `before` to this one, for a server with the secret `secret`: its
    /// command is gone, and the answer to that command, for the command's
    /// client and made on the session state that stood beside it, is in
    /// the slot where the slot was open for it, and is `waiting` where it was
    /// not.
    pub open spec fn served_since(
        self,
        before: TableView,
        index: int,
        secret: Seq<char>,
        waiting: Seq<(usize, Answer)>,
    ) -> bool {
        &&& self.commands[index] == CommandView::blank()
        &&& if before.open_for_answer(index) {
            answered(
                before.commands[index],
                secret,
                before.sessions[index],
                self.answers[index],
                self.sessions[index],
            )
        } else {
            &&& self.answers[index] == before.answers[index]
            &&& exists|k: int|
                0 <= k < waiting.len() && (#[trigger] waiting[k]).0 == index && answered(
                    before.commands[index],
                    secret,
                    before.sessions[index],
                    waiting[k].1@,
                    self.sessions[index],
                )
        }
    }

    /// True where an answer can be put into slot `index`: the answer there
    /// is neither marked as sent nor reserved.
    pub open spec fn open_for_answer(self, index: int) -> bool {
        !self.answers[index].sent && !self.answers[index].busy
    }

    /// The table after `answer` was put into slot `index`.
    pub open spec fn published(self, index: int, answer: AnswerView) -> TableView {
        TableView {
            answers: self.answers.update(index, AnswerView { busy: false, ..answer }),
            ..self
        }
    }

    /// The table after the client `cuid` was recorded as gone.
    pub open spec fn closed(self, cuid: Seq<char>) -> TableView {
        TableView {
            closed_cuids: if self.closed_cuids.contains(cuid) {
                self.closed_cuids
            } else {
                self.closed_cuids.push(cuid)
            },
            ..self
        }
    }

    /// True where slot `index` holds in this table what it holds in
    /// `other`.
    pub open spec fn same_slot(self, other: TableView, index: int) -> bool {
        &&& self.commands[index] == other.commands[index]
        &&& self.answers[index] == other.answers[index]
        &&& self.sessions[index] == other.sessions[index]
    }

    /// A table of `size` slots that hold nothing.
    pub open spec fn blank(size: nat) -> TableView {
        TableView {
            commands: Seq::new(size, |i: int| CommandView::blank()),
            answers: Seq::new(size, |i: int| AnswerView::blank()),
            sessions: Seq::new(size, |i: int| SessionView::blank()),
            closed_cuids: Seq::empty(),
        }
    }
}

/// What a worker finds when it looks for a command to serve.
pub enum WorkClaim {
    /// No slot holds a complete command.
    Idle,
    /// Every complete command is reserved by somebody else.
    Contended,
    /// The command of this slot is now reserved for the worker; a copy of
    /// it comes along.
    Claimed(usize, Command),
}

/// What one pass of a worker over the table comes to.
pub enum WorkPass {
    /// No slot holds a complete command.
    Idle,
    /// Every complete command is reserved by somebody else.
    Contended,
    /// The command of this slot was served, and its answer is in the slot.
    Answered(usize),
    /// The command of this slot was served. Its answer comes along: the
    /// slot was not open for it, and it is still to be published there.
    Unpublished(usize, Answer),
}

impl WorkPass {
    /// The pause, in milliseconds, before the worker looks again: long
    /// where no command was complete, short otherwise.
    pub fn pause(&self) -> (delay: u32)
        ensures
            delay == (if self is Idle {
                100u32
            } else {
                10u32
            }),
    {
        match self {
            WorkPass::Idle => NOTARGET_DELAY,
            _ => STD_LOOP_DELAY,
        }
    }
}

impl WorkClaim {
    /// The pause, in milliseconds, before the worker looks again: long
    /// where no command was complete, short otherwise.
    pub fn pause(&self) -> (delay: u32)
        ensures
            delay == (if self is Idle {
                100u32
            } else {
                10u32
            }),
    {
        match self {
            WorkClaim::Idle => NOTARGET_DELAY,
            _ => STD_LOOP_DELAY,
        }
    }
}

impl View for DispatchTable {
    type V = TableView;

    closed spec fn view(&self) -> TableView {
        TableView {
            commands: Seq::new(self.commands@.len(), |i: int| self.commands@[i]@),
            answers: Seq::new(self.answers@.len(), |i: int| self.answers@[i]@),
            sessions: Seq::new(self.sessions@.len(), |i: int| self.sessions@[i]@),
            closed_cuids: Seq::new(self.closed_cuids@.len(), |i: int| self.closed_cuids@[i]@),
        }
    }
}

impl DispatchTable {
    /// A table for a configured `command_buffer`: of that many slots, and of
    /// eight where fewer are asked for. Every slot holds nothing.
    pub fn new(command_buffer: u32) -> (table: Self)
        ensures
            table@ == TableView::blank(
                if command_buffer > 8 {
                    command_buffer as nat
                } else {
                    8
                },
            ),
            table@.wf(),
    {
        let command_buffer_size: usize = if command_buffer > 8 {
            command_buffer as usize
        } else {
            8
        };
        let mut command_pool: Vec<Command> = Vec::new();
        let mut answer_pool: Vec<Answer> = Vec::new();
        let mut connection_data_pool: Vec<ClientConnectionData> = Vec::new();
        let mut count: usize = 0;
        while count < command_buffer_size
            invariant
                count <= command_buffer_size,
                command_pool@.len() == count,
                answer_pool@.len() == count,
                connection_data_pool@.len() == count,
                forall|i: int| 0 <= i < count ==> (#[trigger] command_pool@[i])@ == CommandView::blank(),
                forall|i: int| 0 <= i < count ==> (#[trigger] answer_pool@[i])@ == AnswerView::blank(),
                forall|i: int|
                    0 <= i < count ==> (#[trigger] connection_data_pool@[i])@
                        == SessionView::blank(),
            decreases command_buffer_size - count,
        {
            command_pool.push(Command::new());
            answer_pool.push(Answer::new());
            connection_data_pool.push(ClientConnectionData::new());
            count += 1;
        }
        let table = DispatchTable {
            commands: command_pool,
            answers: answer_pool,
            sessions: connection_data_pool,
            closed_cuids: Vec::new(),
        };
        assert(table@ =~= TableView::blank(command_buffer_size as nat));
        table
    }

    /// The number of slots.
    pub fn len(&self) -> (size: usize)
        ensures
            size == self@.len(),
    {
        self.commands.len()
    }

    /// Puts a complete command into the first slot whose command nobody has
    /// reserved, and the session state of its client beside it. Returns the
    /// slot, or the number of slots where every command is reserved: the
    /// table is then as it was.
    pub fn send_command_to_workers(
        &mut self,
        new_command: &Command,
        current_connection_data: &ClientConnectionData,
    ) -> (buffer_index: usize)
        requires
            old(self)@.wf(),
            new_command@.cuid is Some,
        ensures
            final(self)@.wf(),
            old(self)@.first_free(buffer_index as int),
            buffer_index < old(self)@.len() ==> final(self)@ == old(self)@.posted(
                buffer_index as int,
                new_command@,
                current_connection_data@,
            ),
            buffer_index == old(self)@.len() ==> final(self)@ == old(self)@,
    {
        let buffer_size = self.commands.len();
        let mut index: usize = 0;
        while index < buffer_size
            invariant_except_break
                index <= buffer_size,
                self@ == old(self)@,
                forall|j: int| 0 <= j < index ==> (#[trigger] old(self)@.commands[j]).busy,
            invariant
                buffer_size == old(self)@.len(),
                old(self)@.wf(),
                new_command@.cuid is Some,
            ensures
                index <= buffer_size,
                old(self)@.first_free(index as int),
                index < buffer_size ==> self@ == (TableView {
                    commands: old(self)@.commands.update(
                        index as int,
                        old(self)@.commands[index as int].copy(new_command@),
                    ),
                    ..old(self)@
                }),
                index == buffer_size ==> self@ == old(self)@,
            decreases buffer_size - index,
        {
            if self.commands[index].lock() {
                self.commands[index].copy(new_command);
                self.commands[index].unlock();
                break ;
            }
            index += 1;
        }
        if index < buffer_size {
            self.sessions[index].clear();
            self.sessions[index].copy(current_connection_data);
        }
        index
    }

    /// Takes the answer out of slot `buffer_index` if it is the one that the
    /// client `cuid` waits for, and hands the client's session state back
    /// with it: nonce and identifier are copied into
    /// `current_connection_data`. Where that answer is not there, nothing
    /// changes.
    pub fn wait_answer(
        &mut self,
        buffer_index: usize,
        cuid: &String,
        current_connection_data: &mut ClientConnectionData,
    ) -> (this_answer: Option<Answer>)
        requires
            old(self)@.wf(),
            buffer_index < old(self)@.len(),
        ensures
            final(self)@.wf(),
            this_answer is Some <==> old(self)@.answer_ready(buffer_index as int, cuid@),
            this_answer is Some ==> {
                &&& this_answer->0@ == (AnswerView {
                    busy: true,
                    ..old(self)@.answers[buffer_index as int]
                })
                &&& final(self)@ == old(self)@.taken(buffer_index as int)
                &&& final(current_connection_data)@ == old(current_connection_data)@.clear().copy(
                    old(self)@.sessions[buffer_index as int],
                )
            },
            this_answer is None ==> {
                &&& final(self)@ == old(self)@
                &&& final(current_connection_data)@ == old(current_connection_data)@
            },
    {
        let mut this_answer: Option<Answer> = None;
        let mut has_answer = false;
        if self.answers[buffer_index].lock() {
            let cell_uid = self.answers[buffer_index].get_cuid();
            if cell_uid == *cuid {
                if !self.answers[buffer_index].is_shipped() {
                    has_answer = true;
                    this_answer = Some(self.answers[buffer_index].clone());
                    self.answers[buffer_index].clear();
                }
            }
            self.answers[buffer_index].unlock();
        }
        if has_answer {
            current_connection_data.clear();
            current_connection_data.copy(&self.sessions[buffer_index]);
            self.sessions[buffer_index].clear();
        }
        this_answer
    }

    /// Looks for the first complete command that nobody has reserved, and
    /// reserves it.
    pub fn claim_command(&mut self) -> (claim: WorkClaim)
        requires
            old(self)@.wf(),
        ensures
            final(self)@.wf(),
            match claim {
                WorkClaim::Idle => !old(self)@.any_full() && final(self)@ == old(self)@,
                WorkClaim::Contended => {
                    &&& old(self)@.any_full()
                    &&& forall|i: int|
                        0 <= i < old(self)@.len() ==> !#[trigger] old(self)@.claimable(i)
                    &&& final(self)@ == old(self)@
                },
                WorkClaim::Claimed(index, command) => {
                    &&& old(self)@.first_claimable(index as int)
                    &&& command@ == final(self)@.commands[index as int]
                    &&& command@.cuid is Some
                    &&& final(self)@ == old(self)@.claimed(index as int)
                },
            },
    {
        let buffer_size = self.commands.len();
        let mut skip = true;
        let mut cell_index: usize = 0;
        while cell_index < buffer_size
            invariant
                cell_index <= buffer_size,
                buffer_size == old(self)@.len(),
                self@ == old(self)@,
                self@.wf(),
                forall|j: int| 0 <= j < cell_index ==> !#[trigger] old(self)@.claimable(j),
                skip <==> forall|j: int|
                    0 <= j < cell_index ==> !(#[trigger] old(self)@.commands[j]).full,
            decreases buffer_size - cell_index,
        {
            if self.commands[cell_index].is_full() {
                skip = false;
                if self.commands[cell_index].lock() {
                    let at_work_command = self.commands[cell_index].clone();
                    assert(self@ == old(self)@.claimed(cell_index as int));
                    return WorkClaim::Claimed(cell_index, at_work_command);
                }
                assert(self@ == old(self)@);
            }
            cell_index += 1;
        }
        if skip {
            WorkClaim::Idle
        } else {
            WorkClaim::Contended
        }
    }

    /// Tells whether `command` is the command that a worker holds
    /// reserved in slot `index`, as `claim_command` hands it out.
    pub fn holds_claim(&self, index: usize, command: &Command) -> (held: bool)
        ensures
            held == self@.claim_held(index as int, command@),
    {
        index < self.commands.len() && self.commands[index].is_locked()
            && self.commands[index].same_as(command) && command.has_cuid()
    }

    /// Serves the command that a worker has claimed in slot `at_cell_index`:
    /// frees the slot, answers the command on the session state stored
    /// beside it, and stores the state that this leaves. The answer is
    /// still to be published.
    pub fn serve_command(
        &mut self,
        at_cell_index: usize,
        work_command: Command,
        options: &ProjectOptions,
    ) -> (answer: Answer)
        requires
            old(self)@.wf(),
            old(self)@.claim_held(at_cell_index as int, work_command@),
        ensures
            final(self)@.wf(),
            answered(
                work_command@,
                options.secret@,
                old(self)@.sessions[at_cell_index as int],
                answer@,
                final(self)@.sessions[at_cell_index as int],
            ),
            final(self)@ == old(self)@.served(
                at_cell_index as int,
                final(self)@.sessions[at_cell_index as int],
            ),
    {
        let mut work_command = work_command;
        let mut connection_data = self.sessions[at_cell_index].clone();
        self.commands[at_cell_index].unlock();
        self.commands[at_cell_index].clear();
        let answer = work_command.execute(options, &mut connection_data);
        proof {
            lemma_handled_keeps_group(
                work_command@.target.command_target(),
                work_command@.data,
                options.secret@,
                old(self)@.sessions[at_cell_index as int],
                Outcome {
                    code: answer@.target,
                    data: answer@.data,
                    session: connection_data@,
                },
            );
        }
        self.sessions[at_cell_index].copy(&connection_data);
        proof {
            let served = old(self)@.served(at_cell_index as int, connection_data@);
            assert(self@ == served);
            assert forall|i: int| 0 <= i < served.commands.len() implies (
            #[trigger] served.commands[i]).wf() && (served.commands[i].full
                ==> served.commands[i].cuid is Some) by {
                if i != at_cell_index as int {
                    assert(served.commands[i] == old(self)@.commands[i]);
                }
            }
        }
        answer
    }

    /// One pass of a worker: claims the first complete command that nobody
    /// has reserved, serves it, and puts the answer into the command's own
    /// slot where that is open for it.
    pub fn work_once(&mut self, options: &ProjectOptions) -> (pass: WorkPass)
        requires
            old(self)@.wf(),
        ensures
            final(self)@.wf(),
            match pass {
                WorkPass::Idle => !old(self)@.any_full() && final(self)@ == old(self)@,
                WorkPass::Contended => {
                    &&& old(self)@.any_full()
                    &&& forall|i: int|
                        0 <= i < old(self)@.len() ==> !#[trigger] old(self)@.claimable(i)
                    &&& final(self)@ == old(self)@
                },
                WorkPass::Answered(index) => {
                    &&& old(self)@.first_claimable(index as int)
                    &&& old(self)@.open_for_answer(index as int)
                    &&& answered(
                        old(self)@.commands[index as int],
                        options.secret@,
                        old(self)@.sessions[index as int],
                        final(self)@.answers[index as int],
                        final(self)@.sessions[index as int],
                    )
                    &&& final(self)@ == old(self)@.passed(
                        index as int,
                        final(self)@.answers[index as int],
                        final(self)@.sessions[index as int],
                    )
                },
                WorkPass::Unpublished(index, answer) => {
                    &&& old(self)@.first_claimable(index as int)
                    &&& !old(self)@.open_for_answer(index as int)
                    &&& answered(
                        old(self)@.commands[index as int],
                        options.secret@,
                        old(self)@.sessions[index as int],
                        answer@,
                        final(self)@.sessions[index as int],
                    )
                    &&& final(self)@ == old(self)@.passed(
                        index as int,
                        answer@,
                        final(self)@.sessions[index as int],
                    )
                },
            },
    {
        match self.claim_command() {
            WorkClaim::Idle => WorkPass::Idle,
            WorkClaim::Contended => WorkPass::Contended,
            WorkClaim::Claimed(index, work_command) => {
                let answer = self.serve_command(index, work_command, options);
                if self.publish_answer(index, &answer) {
                    WorkPass::Answered(index)
                } else {
                    WorkPass::Unpublished(index, answer)
                }
            },
        }
    }

    /// Serves every complete command that nobody has reserved, one pass
    /// after the other, each in its own slot. Returns, with their slots, the
    /// answers that are still to be published because their slots were not
    /// open for them. Slots whose commands were not there to be claimed stay
    /// as they are.
    pub fn work_all(&mut self, options: &ProjectOptions) -> (waiting: Vec<(usize, Answer)>)
        requires
            old(self)@.wf(),
        ensures
            final(self)@.wf(),
            final(self)@.len() == old(self)@.len(),
            final(self)@.closed_cuids == old(self)@.closed_cuids,
            forall|i: int| 0 <= i < final(self)@.len() ==> !#[trigger] final(self)@.claimable(i),
            forall|i: int|
                0 <= i < old(self)@.len() && !#[trigger] old(self)@.claimable(i)
                    ==> final(self)@.same_slot(old(self)@, i),
            forall|i: int|
                0 <= i < old(self)@.len() && #[trigger] old(self)@.claimable(i)
                    ==> final(self)@.served_since(old(self)@, i, options.secret@, waiting@),
    {
        let mut waiting: Vec<(usize, Answer)> = Vec::new();
        let ghost mut done: int = 0;
        loop
            invariant
                self@.wf(),
                old(self)@.wf(),
                self@.len() == old(self)@.len(),
                self@.closed_cuids == old(self)@.closed_cuids,
                0 <= done <= self@.len(),
                forall|i: int| 0 <= i < done ==> !#[trigger] self@.claimable(i),
                forall|i: int| done <= i < self@.len() ==> #[trigger] self@.same_slot(old(self)@, i),
                forall|i: int|
                    0 <= i < done && !#[trigger] old(self)@.claimable(i) ==> self@.same_slot(
                        old(self)@,
                        i,
                    ),
                forall|i: int|
                    0 <= i < done && #[trigger] old(self)@.claimable(i) ==> self@.served_since(
                        old(self)@,
                        i,
                        options.secret@,
                        waiting@,
                    ),
            ensures
                forall|i: int| 0 <= i < self@.len() ==> !#[trigger] self@.claimable(i),
                forall|i: int|
                    0 <= i < old(self)@.len() && !#[trigger] old(self)@.claimable(i)
                        ==> self@.same_slot(old(self)@, i),
                forall|i: int|
                    0 <= i < old(self)@.len() && #[trigger] old(self)@.claimable(i)
                        ==> self@.served_since(old(self)@, i, options.secret@, waiting@),
            decreases self@.len() - done,
        {
            let ghost before = self@;
            let ghost listed = waiting@;
            let pass = self.work_once(options);
            match pass {
                WorkPass::Idle => {
                    proof {
                        assert forall|i: int| 0 <= i < self@.len() implies !#[trigger] self@.claimable(
                            i,
                        ) by {
                            if self@.claimable(i) {
                                assert(self@.commands[i].full);
                            }
                        }
                        lemma_unclaimable_slots_are_kept(
                            self@,
                            old(self)@,
                            done,
                            options.secret@,
                            waiting@,
                        );
                    }
                    break ;
                },
                WorkPass::Contended => {
                    proof {
                        lemma_unclaimable_slots_are_kept(
                            self@,
                            old(self)@,
                            done,
                            options.secret@,
                            waiting@,
                        );
                    }
                    break ;
                },
                WorkPass::Answered(index) => {
                    proof {
                        lemma_pass_keeps_served(
                            before,
                            self@,
                            old(self)@,
                            done,
                            index as int,
                            options.secret@,
                            listed,
                            waiting@,
                        );
                        done = index + 1;
                    }
                },
                WorkPass::Unpublished(index, answer) => {
                    waiting.push((index, answer));
                    proof {
                        assert(waiting@ == listed.push((index, answer)));
                        assert(waiting@.drop_last() =~= listed);
                        assert(waiting@.last() == (index, answer));
                        lemma_pass_keeps_served(
                            before,
                            self@,
                            old(self)@,
                            done,
                            index as int,
                            options.secret@,
                            listed,
                            waiting@,
                        );
                        done = index + 1;
                    }
                },
            }
        }
        waiting
    }

    /// Puts `answer` into slot `buffer_index`, for the connection that
    /// waits there, unless the answer in the slot is marked as sent or is
    /// reserved; tells whether it did.
    pub fn publish_answer(&mut self, buffer_index: usize, answer: &Answer) -> (answer_done: bool)
        requires
            old(self)@.wf(),
            buffer_index < old(self)@.len(),
        ensures
            final(self)@.wf(),
            answer_done == old(self)@.open_for_answer(buffer_index as int),
            answer_done ==> final(self)@ == old(self)@.published(buffer_index as int, answer@),
            !answer_done ==> final(self)@ == old(self)@,
    {
        let mut answer_done = false;
        if !self.answers[buffer_index].is_shipped() {
            if self.answers[buffer_index].lock() {
                self.answers[buffer_index].update(answer);
                self.answers[buffer_index].unlock();
                answer_done = true;
            }
        }
        answer_done
    }

    /// Tells whether the client `cuid` is recorded as gone.
    pub fn is_closed(&self, cuid: &String) -> (found: bool)
        ensures
            found == self@.closed_cuids.contains(cuid@),
    {
        let size = self.closed_cuids.len();
        let mut index: usize = 0;
        while index < size
            invariant
                index <= size,
                size == self.closed_cuids@.len(),
                forall|j: int| 0 <= j < index ==> self@.closed_cuids[j] != cuid@,
            decreases size - index,
        {
            if self.closed_cuids[index] == *cuid {
                assert(self@.closed_cuids[index as int] == cuid@);
                return true;
            }
            index += 1;
        }
        false
    }

    /// Records the client `cuid` as gone.
    pub fn mark_closed(&mut self, cuid: String)
        requires
            old(self)@.wf(),
        ensures
            final(self)@.wf(),
            final(self)@ == old(self)@.closed(cuid@),
    {
        if !self.is_closed(&cuid) {
            self.closed_cuids.push(cuid);
            assert(self@.closed_cuids == old(self)@.closed_cuids.push(cuid@));
        }
    }
}

/// Where no command is left to be claimed, the slots that no pass has
/// reached yet held no command to be claimed at the start either.
proof fn lemma_unclaimable_slots_are_kept(
    now: TableView,
    start: TableView,
    done: int,
    secret: Seq<char>,
    waiting: Seq<(usize, Answer)>,
)
    requires
        now.len() == start.len(),
        0 <= done <= now.len(),
        forall|i: int| 0 <= i < now.len() ==> !#[trigger] now.claimable(i),
        forall|i: int| done <= i < now.len() ==> #[trigger] now.same_slot(start, i),
        forall|i: int|
            0 <= i < done && !#[trigger] start.claimable(i) ==> now.same_slot(start, i),
        forall|i: int|
            0 <= i < done && #[trigger] start.claimable(i) ==> now.served_since(
                start,
                i,
                secret,
                waiting,
            ),
    ensures
        forall|i: int|
            0 <= i < start.len() && !#[trigger] start.claimable(i) ==> now.same_slot(start, i),
        forall|i: int|
            0 <= i < start.len() && #[trigger] start.claimable(i) ==> now.served_since(
                start,
                i,
                secret,
                waiting,
            ),
{
    assert forall|i: int| 0 <= i < start.len() && !#[trigger] start.claimable(i) implies now.same_slot(
        start,
        i,
    ) by {
        if i >= done {
            assert(now.same_slot(start, i));
        }
    }
    assert forall|i: int| 0 <= i < start.len() && #[trigger] start.claimable(i) implies now.served_since(
        start,
        i,
        secret,
        waiting,
    ) by {
        if i >= done {
            assert(now.same_slot(start, i));
            assert(!now.claimable(i));
        }
    }
}

/// A pass that serves slot `index` keeps what the passes before it have
/// done, and does for that slot what a pass is to do: every slot up to it is
/// then either as it was at the start or served.
proof fn lemma_pass_keeps_served(
    before: TableView,
    now: TableView,
    start: TableView,
    done: int,
    index: int,
    secret: Seq<char>,
    listed: Seq<(usize, Answer)>,
    waiting: Seq<(usize, Answer)>,
)
    requires
        before.wf(),
        start.wf(),
        before.len() == start.len(),
        before.closed_cuids == start.closed_cuids,
        0 <= done <= before.len(),
        forall|i: int| 0 <= i < done ==> !#[trigger] before.claimable(i),
        forall|i: int| done <= i < before.len() ==> #[trigger] before.same_slot(start, i),
        forall|i: int|
            0 <= i < done && !#[trigger] start.claimable(i) ==> before.same_slot(start, i),
        forall|i: int|
            0 <= i < done && #[trigger] start.claimable(i) ==> before.served_since(
                start,
                i,
                secret,
                listed,
            ),
        before.first_claimable(index),
        now == before.passed(index, now.answers[index], now.sessions[index]),
        before.open_for_answer(index) ==> waiting == listed && answered(
            before.commands[index],
            secret,
            before.sessions[index],
            now.answers[index],
            now.sessions[index],
        ),
        !before.open_for_answer(index) ==> waiting.len() == listed.len() + 1
            && waiting.drop_last() == listed && waiting.last().0 == index && answered(
            before.commands[index],
            secret,
            before.sessions[index],
            waiting.last().1@,
            now.sessions[index],
        ),
    ensures
        done <= index < now.len(),
        now.len() == start.len(),
        now.closed_cuids == start.closed_cuids,
        forall|i: int| 0 <= i < index + 1 ==> !#[trigger] now.claimable(i),
        forall|i: int| index + 1 <= i < now.len() ==> #[trigger] now.same_slot(start, i),
        forall|i: int|
            0 <= i < index + 1 && !#[trigger] start.claimable(i) ==> now.same_slot(start, i),
        forall|i: int|
            0 <= i < index + 1 && #[trigger] start.claimable(i) ==> now.served_since(
                start,
                i,
                secret,
                waiting,
            ),
{
    assert(done <= index) by {
        if index < done {
            assert(!before.claimable(index));
        }
    }
    assert(before.same_slot(start, index));
    assert forall|i: int| 0 <= i < now.len() && i != index implies #[trigger] now.same_slot(
        before,
        i,
    ) by {}
    assert forall|i: int| 0 <= i < index + 1 implies !#[trigger] now.claimable(i) by {
        if i < index {
            assert(now.same_slot(before, i));
            assert(!before.claimable(i));
        }
    }
    assert forall|i: int| index + 1 <= i < now.len() implies #[trigger] now.same_slot(start, i) by {
        assert(now.same_slot(before, i));
        assert(before.same_slot(start, i));
    }
    assert forall|i: int| 0 <= i < index + 1 && !#[trigger] start.claimable(i) implies now.same_slot(
        start,
        i,
    ) by {
        assert(now.same_slot(before, i));
        if i >= done {
            assert(before.same_slot(start, i));
        }
    }
    assert forall|i: int| 0 <= i < index + 1 && #[trigger] start.claimable(i) implies now.served_since(
        start,
        i,
        secret,
        waiting,
    ) by {
        if i == index {
            if !before.open_for_answer(index) {
                let k = waiting.len() - 1;
                assert(waiting[k].0 == index);
            }
        } else {
            assert(now.same_slot(before, i));
            if i >= done {
                assert(before.same_slot(start, i));
                assert(!before.claimable(i));
            } else {
                assert(before.served_since(start, i, secret, listed));
                if !start.open_for_answer(i) {
                    let k = choose|k: int|
                        0 <= k < listed.len() && (#[trigger] listed[k]).0 == i && answered(
                            start.commands[i],
                            secret,
                            start.sessions[i],
                            listed[k].1@,
                            before.sessions[i],
                        );
                    if !before.open_for_answer(index) {
                        assert(waiting[k] == listed[k]);
                    }
                    assert(waiting[k].0 == i);
                }
            }
        }
    }
}

/// The answer that a pass has put into a slot is for the client of the
/// command that stood in that slot, carries what the handler of that
/// command's kind made, and is neither marked as sent nor reserved. The pass
/// has put no answer into any other slot.
pub proof fn lemma_pass_answers_in_its_slot(
    table: TableView,
    index: int,
    other: int,
    secret: Seq<char>,
    answer: AnswerView,
    session: SessionView,
)
    requires
        table.wf(),
        table.first_claimable(index),
        table.open_for_answer(index),
        0 <= other < table.len(),
        other != index,
        answered(table.commands[index], secret, table.sessions[index], answer, session),
    ensures
        ({
            let passed = table.passed(index, answer, session);
            &&& passed.wf()
            &&& passed.answers[index] == answer
            &&& passed.answers[index].cuid == table.commands[index].cuid
            &&& passed.answers[index].cuid is Some
            &&& !passed.answers[index].sent
            &&& !passed.answers[index].busy
            &&& handled(
                table.commands[index].target.command_target(),
                table.commands[index].data,
                secret,
                table.sessions[index],
                Outcome {
                    code: passed.answers[index].target,
                    data: passed.answers[index].data,
                    session: passed.sessions[index],
                },
            )
            &&& passed.commands[index] == CommandView::blank()
            &&& passed.same_slot(table, other)
            &&& passed.answer_ready(index, table.commands[index].cuid->0)
        }),
{
    let passed = table.passed(index, answer, session);
    assert forall|i: int| 0 <= i < passed.commands.len() implies (#[trigger] passed.commands[i]).wf()
        && (passed.commands[i].full ==> passed.commands[i].cuid is Some) by {
        if i != index {
            assert(passed.commands[i] == table.commands[i]);
        }
    }
}

/// A command that a worker has claimed is no longer there to be claimed:
/// whoever looks next finds another slot, or none.
pub proof fn lemma_claim_excludes(table: TableView, index: int)
    requires
        table.first_claimable(index),
    ensures
        !table.claimed(index).claimable(index),
        forall|other: int| #[trigger]
            table.claimed(index).first_claimable(other) ==> other != index,
{
}

/// A command that somebody has reserved is out of reach of everybody
/// else: no command is posted into its slot, no worker claims it, and
/// nothing that happens to answers, to the record of closed clients or at
/// another slot changes it.
pub proof fn lemma_reserved_command_is_kept(
    table: TableView,
    index: int,
    other: int,
    command: CommandView,
    session: SessionView,
    answer: AnswerView,
    cuid: Seq<char>,
)
    requires
        0 <= index < table.len(),
        0 <= other < table.len(),
        table.commands[index].busy,
    ensures
        table.first_free(other) ==> other != index,
        table.first_claimable(other) ==> other != index,
        other != index ==> table.posted(other, command, session).commands[index]
            == table.commands[index],
        other != index ==> table.claimed(other).commands[index] == table.commands[index],
        other != index ==> table.served(other, session).commands[index] == table.commands[index],
        table.published(other, answer).commands[index] == table.commands[index],
        table.taken(other).commands[index] == table.commands[index],
        table.closed(cuid).commands[index] == table.commands[index],
{
}

/// What happens at one slot leaves every other slot as it is.
pub proof fn lemma_steps_keep_other_slots(
    table: TableView,
    index: int,
    other: int,
    command: CommandView,
    session: SessionView,
    answer: AnswerView,
)
    requires
        table.wf(),
        0 <= index < table.len(),
        0 <= other < table.len(),
        other != index,
    ensures
        table.posted(index, command, session).same_slot(table, other),
        table.claimed(index).same_slot(table, other),
        table.served(index, session).same_slot(table, other),
        table.published(index, answer).same_slot(table, other),
        table.taken(index).same_slot(table, other),
{
}

/// A request makes its way through the table once. A command of the
/// client `cuid` is posted into slot `index`, claimed and served there, and
/// its answer published there. Then the answer waits for that client with
/// code and payload as the worker made them, the session state that the
/// worker left is beside it, and once the answer is taken out the slot is
/// blank: a second look finds no answer.
pub proof fn lemma_request_round_trip(
    table: TableView,
    index: int,
    command: CommandView,
    session: SessionView,
    answer: AnswerView,
    after: SessionView,
)
    requires
        table.wf(),
        0 <= index < table.len(),
        table.first_free(index),
        table.open_for_answer(index),
        command.cuid is Some,
        command.cuid->0.len() > 0,
        answer.cuid == command.cuid,
        !answer.sent,
    ensures
        ({
            let cuid = command.cuid->0;
            let posted = table.posted(index, command, session);
            let claimed = posted.claimed(index);
            let served = claimed.served(index, after);
            let published = served.published(index, answer);
            let taken = published.taken(index);
            &&& posted.wf() && claimed.wf() && served.wf() && published.wf() && taken.wf()
            &&& posted.claimable(index)
            &&& posted.commands[index].cuid == command.cuid
            &&& posted.commands[index].target == command.target
            &&& posted.commands[index].data == command.data
            &&& posted.sessions[index].tmp == session.tmp
            &&& posted.sessions[index].cuid == session.cuid
            &&& !claimed.claimable(index)
            &&& served.open_for_answer(index)
            &&& published.answer_ready(index, cuid)
            &&& published.answers[index] == (AnswerView { busy: false, ..answer })
            &&& published.sessions[index] == after
            &&& !taken.answer_ready(index, cuid)
            &&& taken.commands[index] == CommandView::blank()
            &&& taken.answers[index] == AnswerView::blank()
        }),
{
    let posted = table.posted(index, command, session);
    let claimed = posted.claimed(index);
    let served = claimed.served(index, after);
    assert forall|i: int| 0 <= i < posted.commands.len() implies (#[trigger] posted.commands[i]).wf()
        && (posted.commands[i].full ==> posted.commands[i].cuid is Some) by {
        if i != index {
            assert(posted.commands[i] == table.commands[i]);
        }
    }
    assert forall|i: int| 0 <= i < claimed.commands.len() implies (
    #[trigger] claimed.commands[i]).wf() && (claimed.commands[i].full
        ==> claimed.commands[i].cuid is Some) by {
        if i != index {
            assert(claimed.commands[i] == posted.commands[i]);
        }
    }
    assert forall|i: int| 0 <= i < served.commands.len() implies (#[trigger] served.commands[i]).wf()
        && (served.commands[i].full ==> served.commands[i].cuid is Some) by {
        if i != index {
            assert(served.commands[i] == claimed.commands[i]);
        }
    }
}

} // verus!
