//! Reading another process's command line, one request at a time.
//!
//! The resolver decides; its caller performs. Each step hands back the next
//! request (a process information query or a memory read), and the caller
//! answers it with what the operating system returned. The walk goes from the
//! process information to the environment block, from there to the process
//! parameters, and from there to the command line's UTF-16 text. Any failed
//! or short answer ends the walk with an empty string.
use vstd::prelude::*;

use crate::ntdll::{
    le16, le32, le64, read_u64_le, NT_SUCCESS, PROCESSINFOCLASS, PROCESS_BASIC_INFORMATION,
    PROCESS_BASIC_INFORMATION_SIZE, PROCESS_ENVIRONMENT_BLOCK, PROCESS_ENVIRONMENT_BLOCK_32,
    PROCESS_ENVIRONMENT_BLOCK_32_SIZE, PROCESS_ENVIRONMENT_BLOCK_SIZE,
    RTL_USER_PROCESS_PARAMETERS, RTL_USER_PROCESS_PARAMETERS_32,
    RTL_USER_PROCESS_PARAMETERS_32_SIZE, RTL_USER_PROCESS_PARAMETERS_SIZE,
    WOW64_INFORMATION_SIZE,
};
use crate::wide::{decode_utf16_lossy, units_from_le_bytes, units_le, utf16_lossy};

verus! {

/// Which structure layout a target process uses.
#[derive(Debug, Clone, Copy, PartialEq, Eq, Structural)]
pub enum ProcessImage {
    /// A 64-bit process, like the monitor itself.
    Native,
    /// A 32-bit process under the compatibility layer.
    Wow64,
}

impl ProcessImage {
    pub fn from_wow64(is_wow64: bool) -> (r: ProcessImage)
        ensures
            r == (if is_wow64 { ProcessImage::Wow64 } else { ProcessImage::Native }),
    {
        if is_wow64 {
            ProcessImage::Wow64
        } else {
            ProcessImage::Native
        }
    }
}

/// The query class that yields the environment block's address.
pub open spec fn info_class(image: ProcessImage) -> PROCESSINFOCLASS {
    match image {
        ProcessImage::Native => PROCESSINFOCLASS::ProcessBasicInformation,
        ProcessImage::Wow64 => PROCESSINFOCLASS::ProcessWow64Information,
    }
}

/// The size of the answer to that query.
pub open spec fn info_size(image: ProcessImage) -> nat {
    match image {
        ProcessImage::Native => PROCESS_BASIC_INFORMATION_SIZE as nat,
        ProcessImage::Wow64 => WOW64_INFORMATION_SIZE as nat,
    }
}

/// The environment block's address in the answer to the query.
pub open spec fn peb_address_in(image: ProcessImage, info: Seq<u8>) -> nat {
    match image {
        ProcessImage::Native => le64(info, 8),
        ProcessImage::Wow64 => le64(info, 0),
    }
}

pub open spec fn peb_size(image: ProcessImage) -> nat {
    match image {
        ProcessImage::Native => PROCESS_ENVIRONMENT_BLOCK_SIZE as nat,
        ProcessImage::Wow64 => PROCESS_ENVIRONMENT_BLOCK_32_SIZE as nat,
    }
}

/// The process parameters' address in the environment block.
pub open spec fn parameters_address_in(image: ProcessImage, peb: Seq<u8>) -> nat {
    match image {
        ProcessImage::Native => le64(peb, 32),
        ProcessImage::Wow64 => le32(peb, 16),
    }
}

pub open spec fn parameters_size(image: ProcessImage) -> nat {
    match image {
        ProcessImage::Native => RTL_USER_PROCESS_PARAMETERS_SIZE as nat,
        ProcessImage::Wow64 => RTL_USER_PROCESS_PARAMETERS_32_SIZE as nat,
    }
}

/// The command line's length in bytes, in the process parameters.
pub open spec fn command_line_length_in(image: ProcessImage, params: Seq<u8>) -> nat {
    match image {
        ProcessImage::Native => le16(params, 112),
        ProcessImage::Wow64 => le16(params, 64),
    }
}

/// The command line's address, in the process parameters.
pub open spec fn command_line_address_in(image: ProcessImage, params: Seq<u8>) -> nat {
    match image {
        ProcessImage::Native => le64(params, 120),
        ProcessImage::Wow64 => le32(params, 68),
    }
}

/// The environment block's address from a `ProcessBasicInformation` query:
/// zero where the query failed or answered with the wrong size.
pub fn get_process_peb_address(status: i32, information: &[u8]) -> (r: u64)
    ensures
        r == (if status >= 0 && information@.len() == PROCESS_BASIC_INFORMATION_SIZE {
            le64(information@, 8)
        } else {
            0
        }),
{
    if NT_SUCCESS(status) && information.len() == PROCESS_BASIC_INFORMATION_SIZE {
        PROCESS_BASIC_INFORMATION::from_bytes(information).PebBaseAddress
    } else {
        0
    }
}

/// The 32-bit environment block's address from a `ProcessWow64Information`
/// query: zero where the query failed or answered with the wrong size.
pub fn get_process_peb_address_wow32(status: i32, information: &[u8]) -> (r: u64)
    ensures
        r == (if status >= 0 && information@.len() == WOW64_INFORMATION_SIZE {
            le64(information@, 0)
        } else {
            0
        }),
{
    if NT_SUCCESS(status) && information.len() == WOW64_INFORMATION_SIZE {
        read_u64_le(information, 0)
    } else {
        0
    }
}

/// Where the walk stands.
#[derive(Debug, Clone, Copy, PartialEq, Eq, Structural)]
pub enum Stage {
    QueryingPeb,
    ReadingPeb,
    ReadingParameters,
    ReadingCommandLine,
    Finished,
}

/// What the caller is asked to do next, as the contracts see it.
pub enum Request {
    Query { class: PROCESSINFOCLASS, length: nat },
    Read { address: nat, length: nat },
    Done(Seq<char>),
}

/// What the caller is asked to do next.
#[derive(Debug)]
pub enum ResolverAction {
    /// Query the process information of `class` into a buffer of `length` bytes.
    QueryInformation { class: PROCESSINFOCLASS, length: usize },
    /// Read `length` bytes of the target's memory from `address`.
    ReadMemory { address: u64, length: usize },
    /// The walk is over, with this command line.
    Finished(String),
}

impl View for ResolverAction {
    type V = Request;

    open spec fn view(&self) -> Request {
        match self {
            ResolverAction::QueryInformation { class, length } => Request::Query {
                class: *class,
                length: *length as nat,
            },
            ResolverAction::ReadMemory { address, length } => Request::Read {
                address: *address as nat,
                length: *length as nat,
            },
            ResolverAction::Finished(s) => Request::Done(s@),
        }
    }
}

/// An answer from the caller, as the contracts see it.
pub enum Reply {
    Information { status: i32, buffer: Seq<u8> },
    Memory(Option<Seq<u8>>),
}

/// An answer from the caller.
#[derive(Debug)]
pub enum ResolverEvent {
    /// The status that the query returned and the buffer it filled.
    Information { status: i32, buffer: Vec<u8> },
    /// The bytes read, or `None` where the read failed.
    Memory(Option<Vec<u8>>),
}

impl View for ResolverEvent {
    type V = Reply;

    open spec fn view(&self) -> Reply {
        match self {
            ResolverEvent::Information { status, buffer } => Reply::Information {
                status: *status,
                buffer: buffer@,
            },
            ResolverEvent::Memory(None) => Reply::Memory(None),
            ResolverEvent::Memory(Some(b)) => Reply::Memory(Some(b@)),
        }
    }
}

/// The bytes of a memory answer that delivered exactly `length` bytes; a
/// failed or short read is no answer.
pub open spec fn bytes_read(reply: Reply, length: nat) -> Option<Seq<u8>> {
    match reply {
        Reply::Memory(Some(b)) => if b.len() == length {
            Some(b)
        } else {
            None
        },
        _ => None,
    }
}

/// The resolver's state as the contracts see it.
pub struct ResolverView {
    pub image: ProcessImage,
    pub stage: Stage,
    /// The length of the read that was last asked for.
    pub expected: nat,
}

/// The length asked for matches the stage: the environment block or the
/// process parameters in the target's layout.
pub open spec fn well_formed(s: ResolverView) -> bool {
    &&& s.stage == Stage::ReadingPeb ==> s.expected == peb_size(s.image)
    &&& s.stage == Stage::ReadingParameters ==> s.expected == parameters_size(s.image)
}

/// The walk ends with an empty command line.
pub open spec fn give_up(s: ResolverView) -> (ResolverView, Request) {
    (ResolverView { stage: Stage::Finished, expected: 0, ..s }, Request::Done(seq![]))
}

/// One step of the walk: the next state and request, given an answer.
pub open spec fn next_step(s: ResolverView, reply: Reply) -> (ResolverView, Request) {
    match s.stage {
        Stage::QueryingPeb => match reply {
            Reply::Information { status, buffer } => {
                let address = peb_address_in(s.image, buffer);
                if status >= 0 && buffer.len() == info_size(s.image) && address != 0 {
                    (
                        ResolverView { stage: Stage::ReadingPeb, expected: peb_size(s.image), ..s },
                        Request::Read { address, length: peb_size(s.image) },
                    )
                } else {
                    give_up(s)
                }
            },
            Reply::Memory(_) => give_up(s),
        },
        Stage::ReadingPeb => match bytes_read(reply, s.expected) {
            Some(peb) => {
                let address = parameters_address_in(s.image, peb);
                if address != 0 {
                    (
                        ResolverView {
                            stage: Stage::ReadingParameters,
                            expected: parameters_size(s.image),
                            ..s
                        },
                        Request::Read { address, length: parameters_size(s.image) },
                    )
                } else {
                    give_up(s)
                }
            },
            None => give_up(s),
        },
        Stage::ReadingParameters => match bytes_read(reply, s.expected) {
            Some(params) => {
                let length = command_line_length_in(s.image, params);
                let address = command_line_address_in(s.image, params);
                if length != 0 && address != 0 {
                    (
                        ResolverView { stage: Stage::ReadingCommandLine, expected: length, ..s },
                        Request::Read { address, length },
                    )
                } else {
                    give_up(s)
                }
            },
            None => give_up(s),
        },
        Stage::ReadingCommandLine => match bytes_read(reply, s.expected) {
            Some(text) => (
                ResolverView { stage: Stage::Finished, expected: 0, ..s },
                Request::Done(utf16_lossy(units_le(text))),
            ),
            None => give_up(s),
        },
        Stage::Finished => give_up(s),
    }
}

/// A command line of length zero ends the walk with an empty string: no read
/// of its text is asked for.
pub proof fn lemma_empty_command_line_is_not_read(s: ResolverView, reply: Reply, params: Seq<u8>)
    requires
        s.stage == Stage::ReadingParameters,
        bytes_read(reply, s.expected) == Some(params),
        command_line_length_in(s.image, params) == 0,
    ensures
        next_step(s, reply).1 == Request::Done(seq![]),
        next_step(s, reply).0.stage == Stage::Finished,
{
}

/// A failed query or a failed read, wherever it comes in the walk, ends the
/// walk with an empty command line.
pub proof fn lemma_failed_answer_gives_empty(s: ResolverView, reply: Reply)
    requires
        match reply {
            Reply::Information { status, .. } => status < 0,
            Reply::Memory(bytes) => bytes is None,
        },
    ensures
        next_step(s, reply).1 == Request::Done(seq![]),
        next_step(s, reply).0.stage == Stage::Finished,
{
}

/// A walk whose every answer succeeds reads the command line's text from the
/// address and with the length that the process parameters give, and
/// decodes it as little-endian UTF-16.
pub proof fn lemma_successful_walk(
    image: ProcessImage,
    info: Seq<u8>,
    peb: Seq<u8>,
    params: Seq<u8>,
    text: Seq<u8>,
)
    requires
        info.len() == info_size(image),
        peb_address_in(image, info) != 0,
        peb.len() == peb_size(image),
        parameters_address_in(image, peb) != 0,
        params.len() == parameters_size(image),
        command_line_length_in(image, params) != 0,
        command_line_address_in(image, params) != 0,
        text.len() == command_line_length_in(image, params),
    ensures
        ({
            let s0 = ResolverView { image, stage: Stage::QueryingPeb, expected: 0 };
            let (s1, r1) = next_step(s0, Reply::Information { status: 0, buffer: info });
            let (s2, r2) = next_step(s1, Reply::Memory(Some(peb)));
            let (s3, r3) = next_step(s2, Reply::Memory(Some(params)));
            let (s4, r4) = next_step(s3, Reply::Memory(Some(text)));
            &&& r1 == Request::Read { address: peb_address_in(image, info), length: peb_size(image) }
            &&& r2 == Request::Read {
                address: parameters_address_in(image, peb),
                length: parameters_size(image),
            }
            &&& r3 == Request::Read {
                address: command_line_address_in(image, params),
                length: command_line_length_in(image, params),
            }
            &&& r4 == Request::Done(utf16_lossy(units_le(text)))
            &&& s4.stage == Stage::Finished
        }),
{
}

/// Resolves one process's command line, driven by its caller.
#[derive(Debug)]
pub struct CommandLineResolver {
    image: ProcessImage,
    stage: Stage,
    expected: usize,
}

impl View for CommandLineResolver {
    type V = ResolverView;

    closed spec fn view(&self) -> ResolverView {
        ResolverView { image: self.image, stage: self.stage, expected: self.expected as nat }
    }
}

impl CommandLineResolver {
    /// Starts the walk for a process that does (`is_wow64`) or does not run
    /// under the compatibility layer, with the query for its environment
    /// block's address.
    pub fn new(is_wow64: bool) -> (r: (CommandLineResolver, ResolverAction))
        ensures
            r.0@.image == (if is_wow64 { ProcessImage::Wow64 } else { ProcessImage::Native }),
            r.0@.stage == Stage::QueryingPeb,
            r.0@.expected == 0,
            well_formed(r.0@),
            r.1@ == (Request::Query {
                class: info_class(r.0@.image),
                length: info_size(r.0@.image),
            }),
    {
        let image = ProcessImage::from_wow64(is_wow64);
        let (class, length) = match image {
            ProcessImage::Native => (
                PROCESSINFOCLASS::ProcessBasicInformation,
                PROCESS_BASIC_INFORMATION_SIZE,
            ),
            ProcessImage::Wow64 => (
                PROCESSINFOCLASS::ProcessWow64Information,
                WOW64_INFORMATION_SIZE,
            ),
        };
        (
            CommandLineResolver { image, stage: Stage::QueryingPeb, expected: 0 },
            ResolverAction::QueryInformation { class, length },
        )
    }

    pub fn is_finished(&self) -> (r: bool)
        ensures
            r == (self@.stage == Stage::Finished),
    {
        self.stage == Stage::Finished
    }

    fn give_up(&mut self) -> (r: ResolverAction)
        ensures
            well_formed(final(self)@),
            (final(self)@, r@) == give_up(old(self)@),
    {
        self.stage = Stage::Finished;
        self.expected = 0;
        ResolverAction::Finished(String::new())
    }

    /// Takes the answer to the last request and returns the next one.
    pub fn step(&mut self, event: ResolverEvent) -> (r: ResolverAction)
        requires
            well_formed(old(self)@),
        ensures
            well_formed(final(self)@),
            (final(self)@, r@) == next_step(old(self)@, event@),
    {
        match self.stage {
            Stage::QueryingPeb => {
                let address = match &event {
                    ResolverEvent::Information { status, buffer } => match self.image {
                        ProcessImage::Native => get_process_peb_address(*status, buffer.as_slice()),
                        ProcessImage::Wow64 => get_process_peb_address_wow32(
                            *status,
                            buffer.as_slice(),
                        ),
                    },
                    ResolverEvent::Memory(_) => 0,
                };
                if address == 0 {
                    return self.give_up();
                }
                let length = match self.image {
                    ProcessImage::Native => PROCESS_ENVIRONMENT_BLOCK_SIZE,
                    ProcessImage::Wow64 => PROCESS_ENVIRONMENT_BLOCK_32_SIZE,
                };
                self.stage = Stage::ReadingPeb;
                self.expected = length;
                ResolverAction::ReadMemory { address, length }
            },
            Stage::ReadingPeb => {
                let peb = match self.take_read(event) {
                    Some(b) => b,
                    None => return self.give_up(),
                };
                let address = match self.image {
                    ProcessImage::Native => {
                        PROCESS_ENVIRONMENT_BLOCK::from_bytes(peb.as_slice()).ProcessParameters
                    },
                    ProcessImage::Wow64 => {
                        PROCESS_ENVIRONMENT_BLOCK_32::from_bytes(
                            peb.as_slice(),
                        ).ProcessParameters as u64
                    },
                };
                if address == 0 {
                    return self.give_up();
                }
                let length = match self.image {
                    ProcessImage::Native => RTL_USER_PROCESS_PARAMETERS_SIZE,
                    ProcessImage::Wow64 => RTL_USER_PROCESS_PARAMETERS_32_SIZE,
                };
                self.stage = Stage::ReadingParameters;
                self.expected = length;
                ResolverAction::ReadMemory { address, length }
            },
            Stage::ReadingParameters => {
                let params = match self.take_read(event) {
                    Some(b) => b,
                    None => return self.give_up(),
                };
                let (length, address) = match self.image {
                    ProcessImage::Native => {
                        let p = RTL_USER_PROCESS_PARAMETERS::from_bytes(params.as_slice());
                        (p.CommandLine.Length, p.CommandLine.Buffer)
                    },
                    ProcessImage::Wow64 => {
                        let p = RTL_USER_PROCESS_PARAMETERS_32::from_bytes(params.as_slice());
                        (p.CommandLine.Length, p.CommandLine.Buffer as u64)
                    },
                };
                if length == 0 || address == 0 {
                    return self.give_up();
                }
                self.stage = Stage::ReadingCommandLine;
                self.expected = length as usize;
                ResolverAction::ReadMemory { address, length: length as usize }
            },
            Stage::ReadingCommandLine => {
                let text = match self.take_read(event) {
                    Some(b) => b,
                    None => return self.give_up(),
                };
                let units = units_from_le_bytes(text.as_slice());
                self.stage = Stage::Finished;
                self.expected = 0;
                ResolverAction::Finished(decode_utf16_lossy(units.as_slice()))
            },
            Stage::Finished => self.give_up(),
        }
    }

    /// The bytes of a memory answer of exactly the length asked for.
    fn take_read(&self, event: ResolverEvent) -> (r: Option<Vec<u8>>)
        ensures
            match r {
                Some(b) => bytes_read(event@, self@.expected) == Some(b@),
                None => bytes_read(event@, self@.expected) is None,
            },
    {
        match event {
            ResolverEvent::Memory(Some(b)) => if b.len() == self.expected {
                Some(b)
            } else {
                None
            },
            _ => None,
        }
    }
}

} // verus!
