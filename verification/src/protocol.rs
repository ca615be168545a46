use crate::common::helpers::Description;
use crate::json::{
    is_json_safe, json_member_string, json_member_u32, json_safe, read_string_member,
    read_u32_member,
};
use crate::options::configuration::JsonReader;
use vstd::prelude::*;
use vstd::string::StringExecFns;

verus! {

/// What a client asks for.
#[derive(Clone, Copy, Debug, PartialEq, Eq, Structural)]
pub enum CommandTargetEnum {
    SigIn,
    Quit,
    Unknown,
    Auth,
    ClientData,
}

/// What the server answers.
#[derive(Clone, Copy, Debug, PartialEq, Eq, Structural)]
pub enum AnswerTargetEnum {
    Skip,
    Quit,
    Unknown,
    VerificationRequest,
    Error,
    WhoAreYou,
    Wait,
}

/// The group a client says it belongs to.
#[derive(Clone, Copy, Debug, PartialEq, Eq, Structural)]
pub enum ClientGroupEnum {
    Service,
    Server,
    Manager,
}

/// The payload of a client-data command: the client's group and the
/// identifier it wants to go on with.
pub struct ClientDescription {
    pub group: u32,
    pub cid: String,
}

/// A value with a code on the wire.
pub trait TargetAsDigit {
    /// The code of the value.
    spec fn digit(&self) -> u32;

    /// The code of the value.
    fn to_u32(&self) -> (code: u32)
        ensures
            code == self.digit(),
    ;
}

/// A value that stands for a kind of command.
pub trait LookAsTargetCommandEnum {
    /// The kind of command the value stands for.
    spec fn command_target(&self) -> CommandTargetEnum;

    /// The kind of command the value stands for.
    fn as_target_enum(&self) -> (target: CommandTargetEnum)
        ensures
            target == self.command_target(),
    ;
}

/// A value that stands for a kind of answer.
pub trait LookAsTargetAnswerEnum {
    /// The kind of answer the value stands for.
    spec fn answer_target(&self) -> AnswerTargetEnum;

    /// The kind of answer the value stands for.
    fn as_target_enum(&self) -> (target: AnswerTargetEnum)
        ensures
            target == self.answer_target(),
    ;
}

/// A value that stands for a group of clients.
pub trait LookAsClientGroupEnum {
    /// The group the value stands for.
    spec fn client_group(&self) -> ClientGroupEnum;

    /// The group the value stands for.
    fn as_target_enum(&self) -> (group: ClientGroupEnum)
        ensures
            group == self.client_group(),
    ;
}

impl ClientDescription {
    /// The identifier the client presented, unless it is empty.
    pub fn get_cid(&self) -> (cid: Option<String>)
        ensures
            self.cid@.len() > 0 ==> cid is Some && cid->0@ == self.cid@,
            self.cid@.len() == 0 ==> cid is None,
    {
        if !self.cid.as_str().is_empty() {
            Some(self.cid.clone())
        } else {
            None
        }
    }
}

impl JsonReader for ClientDescription {
    open spec fn readable(content: Seq<char>) -> bool {
        &&& json_safe(content)
        &&& json_member_u32(content, "group"@) is Some
        &&& json_member_string(content, "cid"@) is Some
    }

    open spec fn read_of(&self, content: Seq<char>) -> bool {
        &&& Some(self.group) == json_member_u32(content, "group"@)
        &&& Some(self.cid@) == json_member_string(content, "cid"@)
    }

    fn read_from_text(content: &str) -> (value: Option<Self>) {
        if !is_json_safe(content) {
            return None;
        }
        let group = read_u32_member(content, "group");
        let cid = read_string_member(content, "cid");
        match (group, cid) {
            (Some(group), Some(cid)) => Some(ClientDescription { group, cid }),
            _ => None,
        }
    }
}

impl TargetAsDigit for CommandTargetEnum {
    open spec fn digit(&self) -> u32 {
        match *self {
            CommandTargetEnum::Unknown => 0,
            CommandTargetEnum::Quit => 1,
            CommandTargetEnum::SigIn => 2,
            CommandTargetEnum::Auth => 3,
            CommandTargetEnum::ClientData => 4,
        }
    }

    fn to_u32(&self) -> (code: u32) {
        match *self {
            CommandTargetEnum::Unknown => 0,
            CommandTargetEnum::Quit => 1,
            CommandTargetEnum::SigIn => 2,
            CommandTargetEnum::Auth => 3,
            CommandTargetEnum::ClientData => 4,
        }
    }
}

impl TargetAsDigit for AnswerTargetEnum {
    open spec fn digit(&self) -> u32 {
        match *self {
            AnswerTargetEnum::Unknown => 0,
            AnswerTargetEnum::Quit => 1,
            AnswerTargetEnum::Skip => 2,
            AnswerTargetEnum::VerificationRequest => 3,
            AnswerTargetEnum::Error => 4,
            AnswerTargetEnum::WhoAreYou => 5,
            AnswerTargetEnum::Wait => 6,
        }
    }

    fn to_u32(&self) -> (code: u32) {
        match *self {
            AnswerTargetEnum::Unknown => 0,
            AnswerTargetEnum::Quit => 1,
            AnswerTargetEnum::Skip => 2,
            AnswerTargetEnum::VerificationRequest => 3,
            AnswerTargetEnum::Error => 4,
            AnswerTargetEnum::WhoAreYou => 5,
            AnswerTargetEnum::Wait => 6,
        }
    }
}

impl TargetAsDigit for ClientGroupEnum {
    open spec fn digit(&self) -> u32 {
        match *self {
            ClientGroupEnum::Manager => 1,
            ClientGroupEnum::Server => 2,
            ClientGroupEnum::Service => 3,
        }
    }

    fn to_u32(&self) -> (code: u32) {
        match *self {
            ClientGroupEnum::Manager => 1,
            ClientGroupEnum::Server => 2,
            ClientGroupEnum::Service => 3,
        }
    }
}

impl Description for CommandTargetEnum {
    open spec fn describable(&self) -> bool {
        true
    }

    open spec fn description_text(&self) -> Seq<char> {
        match *self {
            CommandTargetEnum::Quit => "'quit'"@,
            CommandTargetEnum::Unknown => "'unknown'"@,
            CommandTargetEnum::SigIn => "'sigin'"@,
            CommandTargetEnum::Auth => "'auth'"@,
            CommandTargetEnum::ClientData => "'client data'"@,
        }
    }

    fn description(&self) -> (text: String) {
        String::from_str(
            match *self {
                CommandTargetEnum::Quit => "'quit'",
                CommandTargetEnum::Unknown => "'unknown'",
                CommandTargetEnum::SigIn => "'sigin'",
                CommandTargetEnum::Auth => "'auth'",
                CommandTargetEnum::ClientData => "'client data'",
            },
        )
    }
}

impl Description for AnswerTargetEnum {
    open spec fn describable(&self) -> bool {
        true
    }

    open spec fn description_text(&self) -> Seq<char> {
        match *self {
            AnswerTargetEnum::Quit => "'quit'"@,
            AnswerTargetEnum::Unknown => "'unknown'"@,
            AnswerTargetEnum::Skip => "'skip'"@,
            AnswerTargetEnum::VerificationRequest => "'verification request'"@,
            AnswerTargetEnum::Error => "'error'"@,
            AnswerTargetEnum::WhoAreYou => "'auth successful'"@,
            AnswerTargetEnum::Wait => "'wait'"@,
        }
    }

    fn description(&self) -> (text: String) {
        String::from_str(
            match *self {
                AnswerTargetEnum::Quit => "'quit'",
                AnswerTargetEnum::Unknown => "'unknown'",
                AnswerTargetEnum::Skip => "'skip'",
                AnswerTargetEnum::VerificationRequest => "'verification request'",
                AnswerTargetEnum::Error => "'error'",
                AnswerTargetEnum::WhoAreYou => "'auth successful'",
                AnswerTargetEnum::Wait => "'wait'",
            },
        )
    }
}

impl Description for ClientGroupEnum {
    open spec fn describable(&self) -> bool {
        true
    }

    open spec fn description_text(&self) -> Seq<char> {
        match *self {
            ClientGroupEnum::Manager => "'manager'"@,
            ClientGroupEnum::Server => "'server'"@,
            ClientGroupEnum::Service => "'service'"@,
        }
    }

    fn description(&self) -> (text: String) {
        String::from_str(
            match *self {
                ClientGroupEnum::Manager => "'manager'",
                ClientGroupEnum::Server => "'server'",
                ClientGroupEnum::Service => "'service'",
            },
        )
    }
}

impl LookAsTargetCommandEnum for u32 {
    open spec fn command_target(&self) -> CommandTargetEnum {
        if *self == 1 {
            CommandTargetEnum::Quit
        } else if *self == 2 {
            CommandTargetEnum::SigIn
        } else if *self == 3 {
            CommandTargetEnum::Auth
        } else if *self == 4 {
            CommandTargetEnum::ClientData
        } else {
            CommandTargetEnum::Unknown
        }
    }

    fn as_target_enum(&self) -> (target: CommandTargetEnum) {
        match *self {
            1 => CommandTargetEnum::Quit,
            2 => CommandTargetEnum::SigIn,
            3 => CommandTargetEnum::Auth,
            4 => CommandTargetEnum::ClientData,
            _ => CommandTargetEnum::Unknown,
        }
    }
}

impl LookAsTargetAnswerEnum for u32 {
    open spec fn answer_target(&self) -> AnswerTargetEnum {
        if *self == 1 {
            AnswerTargetEnum::Quit
        } else if *self == 2 {
            AnswerTargetEnum::Skip
        } else if *self == 3 {
            AnswerTargetEnum::VerificationRequest
        } else if *self == 4 {
            AnswerTargetEnum::Error
        } else if *self == 5 {
            AnswerTargetEnum::WhoAreYou
        } else if *self == 6 {
            AnswerTargetEnum::Wait
        } else {
            AnswerTargetEnum::Unknown
        }
    }

    fn as_target_enum(&self) -> (target: AnswerTargetEnum) {
        match *self {
            1 => AnswerTargetEnum::Quit,
            2 => AnswerTargetEnum::Skip,
            3 => AnswerTargetEnum::VerificationRequest,
            4 => AnswerTargetEnum::Error,
            5 => AnswerTargetEnum::WhoAreYou,
            6 => AnswerTargetEnum::Wait,
            _ => AnswerTargetEnum::Unknown,
        }
    }
}

impl LookAsClientGroupEnum for u32 {
    open spec fn client_group(&self) -> ClientGroupEnum {
        if *self == 1 {
            ClientGroupEnum::Manager
        } else if *self == 2 {
            ClientGroupEnum::Server
        } else {
            ClientGroupEnum::Service
        }
    }

    fn as_target_enum(&self) -> (group: ClientGroupEnum) {
        match *self {
            1 => ClientGroupEnum::Manager,
            2 => ClientGroupEnum::Server,
            _ => ClientGroupEnum::Service,
        }
    }
}

/// A code and the kind it stands for give each other back.
pub proof fn lemma_command_code_round_trip(target: CommandTargetEnum)
    ensures
        target.digit().command_target() == target,
{
}

/// An answer's code and the kind it stands for give each other back.
pub proof fn lemma_answer_code_round_trip(target: AnswerTargetEnum)
    ensures
        target.digit().answer_target() == target,
{
}

/// A group's code and the group it stands for give each other back.
pub proof fn lemma_group_code_round_trip(group: ClientGroupEnum)
    ensures
        group.digit().client_group() == group,
{
}

} // verus!
