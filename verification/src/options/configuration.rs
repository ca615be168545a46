use crate::common::helpers::Description;
use crate::consts::common::MIN_BUFFER_SIZE;
use crate::json::{
    is_json_safe, json_member_string, json_member_u32, json_safe, read_string_member,
    read_u32_member,
};
use vstd::prelude::*;
use vstd::string::StringExecFns;

verus! {

/// Port the server listens on where the configuration names no usable
/// address.
pub const DEFAULT_PORT: u16 = 5882;

/// A value that is read from a JSON text.
pub trait JsonReader: Sized {
    /// True where the text holds such a value.
    spec fn readable(content: Seq<char>) -> bool;

    /// True where the value is the one that the text holds.
    spec fn read_of(&self, content: Seq<char>) -> bool;

    /// Reads the value from `content`; `None` where `content` holds none.
    fn read_from_text(content: &str) -> (value: Option<Self>)
        ensures
            value is Some <==> Self::readable(content@),
            value is Some ==> value->0.read_of(content@),
    ;
}

/// The server's configuration. `socket` is the text of the address to
/// listen on, host and port.
pub struct ProjectOptions {
    pub secret: String,
    pub socket: String,
    pub workers: u32,
    pub command_buffer: u32,
    pub node: String,
    pub connection_buffer_size: u32,
}

/// The configuration as its JSON text gives it, member by member.
pub struct JsonOptionRecord {
    pub secret: String,
    pub socket: String,
    pub workers: u32,
    pub node: String,
    pub command_buffer: u32,
    pub connection_buffer_size: u32,
}

/// The address to listen on where none is configured: the local host and
/// the default port.
pub open spec fn default_socket() -> Seq<char> {
    "127.0.0.1:5882"@
}

/// The number of slots that a configured `command_buffer` stands for: never
/// fewer than eight.
pub open spec fn floored_command_buffer(configured: u32) -> u32 {
    if configured > 8 {
        configured
    } else {
        8
    }
}

/// The size of the read buffer that a configured `connection_buffer_size`
/// stands for: never less than 2048 bytes.
pub open spec fn floored_buffer_size(configured: u32) -> u32 {
    if configured < 2048 {
        2048
    } else {
        configured
    }
}

impl ProjectOptions {
    /// The configuration of a server of which nothing is configured.
    pub fn new() -> (options: Self)
        ensures
            options.secret@.len() == 0,
            options.socket@ == default_socket(),
            options.workers == 1,
            options.command_buffer == 1,
            options.node@.len() == 0,
            options.connection_buffer_size == 2048,
    {
        ProjectOptions {
            secret: String::new(),
            socket: String::from_str("127.0.0.1:5882"),
            workers: 1,
            command_buffer: 1,
            node: String::new(),
            connection_buffer_size: 2048,
        }
    }

    /// The configuration that a record stands for. `socket` is the address
    /// that the record's `socket` text was parsed to, written out again, or
    /// `None` where it is no address: the default address takes its place.
    /// The number of slots is raised to eight where the record asks for
    /// fewer, and the size of the read buffer to 2048 bytes where it asks for
    /// less.
    pub fn from_record(record: JsonOptionRecord, socket: Option<String>) -> (options: Self)
        ensures
            options.secret@ == record.secret@,
            options.socket@ == (match socket {
                Some(address) => address@,
                None => default_socket(),
            }),
            options.workers == record.workers,
            options.command_buffer == floored_command_buffer(record.command_buffer),
            options.node@ == record.node@,
            options.connection_buffer_size == floored_buffer_size(
                record.connection_buffer_size,
            ),
            options.command_buffer >= 8,
            options.connection_buffer_size >= 2048,
    {
        let socket = match socket {
            Some(address) => address,
            None => ProjectOptions::new().socket,
        };
        let min_command_pool: u32 = 8;
        ProjectOptions {
            secret: record.secret,
            socket,
            connection_buffer_size: if record.connection_buffer_size < MIN_BUFFER_SIZE {
                MIN_BUFFER_SIZE
            } else {
                record.connection_buffer_size
            },
            workers: record.workers,
            command_buffer: if record.command_buffer > min_command_pool {
                record.command_buffer
            } else {
                min_command_pool
            },
            node: record.node,
        }
    }

    /// The size, in bytes, of the buffer that a connection reads into: the
    /// configured size, raised to 2048 where it is less.
    pub fn read_buffer_size(&self) -> (size: u32)
        ensures
            size == floored_buffer_size(self.connection_buffer_size),
            size >= 2048,
    {
        if self.connection_buffer_size < 2048 {
            2048
        } else {
            self.connection_buffer_size
        }
    }

    /// The number of slots of the dispatch table: the configured number,
    /// raised to eight where it is less.
    pub fn command_pool_size(&self) -> (size: u32)
        ensures
            size == floored_command_buffer(self.command_buffer),
            size >= 8,
    {
        if self.command_buffer > 8 {
            self.command_buffer
        } else {
            8
        }
    }
}

impl Clone for ProjectOptions {
    fn clone(&self) -> (copy: Self)
        ensures
            copy.secret@ == self.secret@,
            copy.socket@ == self.socket@,
            copy.workers == self.workers,
            copy.command_buffer == self.command_buffer,
            copy.node@ == self.node@,
            copy.connection_buffer_size == self.connection_buffer_size,
    {
        ProjectOptions {
            secret: self.secret.clone(),
            socket: self.socket.clone(),
            workers: self.workers,
            command_buffer: self.command_buffer,
            node: self.node.clone(),
            connection_buffer_size: self.connection_buffer_size,
        }
    }
}

impl Description for ProjectOptions {
    open spec fn describable(&self) -> bool {
        true
    }

    open spec fn description_text(&self) -> Seq<char> {
        "Server "@ + self.node@ + " at "@ + self.socket@ + "."@
    }

    fn description(&self) -> (text: String) {
        let mut text = String::from_str("Server ");
        text.append(self.node.as_str());
        text.append(" at ");
        text.append(self.socket.as_str());
        text.append(".");
        text
    }
}

impl JsonReader for JsonOptionRecord {
    open spec fn readable(content: Seq<char>) -> bool {
        &&& json_safe(content)
        &&& json_member_string(content, "secret"@) is Some
        &&& json_member_string(content, "socket"@) is Some
        &&& json_member_u32(content, "workers"@) is Some
        &&& json_member_string(content, "node"@) is Some
        &&& json_member_u32(content, "command_buffer"@) is Some
        &&& json_member_u32(content, "connection_buffer_size"@) is Some
    }

    open spec fn read_of(&self, content: Seq<char>) -> bool {
        &&& Some(self.secret@) == json_member_string(content, "secret"@)
        &&& Some(self.socket@) == json_member_string(content, "socket"@)
        &&& Some(self.workers) == json_member_u32(content, "workers"@)
        &&& Some(self.node@) == json_member_string(content, "node"@)
        &&& Some(self.command_buffer) == json_member_u32(content, "command_buffer"@)
        &&& Some(self.connection_buffer_size) == json_member_u32(
            content,
            "connection_buffer_size"@,
        )
    }

    fn read_from_text(content: &str) -> (value: Option<Self>) {
        if !is_json_safe(content) {
            return None;
        }
        let secret = read_string_member(content, "secret");
        let socket = read_string_member(content, "socket");
        let workers = read_u32_member(content, "workers");
        let node = read_string_member(content, "node");
        let command_buffer = read_u32_member(content, "command_buffer");
        let connection_buffer_size = read_u32_member(content, "connection_buffer_size");
        match (secret, socket, workers, node, command_buffer, connection_buffer_size) {
            (
                Some(secret),
                Some(socket),
                Some(workers),
                Some(node),
                Some(command_buffer),
                Some(connection_buffer_size),
            ) => Some(
                JsonOptionRecord {
                    secret,
                    socket,
                    workers,
                    node,
                    command_buffer,
                    connection_buffer_size,
                },
            ),
            _ => None,
        }
    }
}

} // verus!
