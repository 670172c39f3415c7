//! The controller of one operation at a time: it says which request goes out
//! next, and what each response changes.
//!
//! The controller does no input or output. Whoever drives it sends the
//! payloads that it hands out, hands it the payloads that arrive, and does to
//! the local file what each reaction asks for.

use crate::listing::{collect_entries, entry_views, listed, lemma_record_count, record_count};
use crate::mavftp::{
    decode, encode, request, DecodeError, EntryInfo, EntryView, MavlinkFtpNak, MavlinkFtpOpcode,
    MavlinkFtpPayload, MavlinkFtpResponse, PayloadView, ResponseView, MAX_DATA_LEN,
};
use crate::text::{final_segment, last_segment};
use crate::wire::{from_le32, read_le32};
use vstd::prelude::*;
use vstd::string::StringSliceAdditionalSpecFns;
use vstd::utf8::encode_utf8;

verus! {

/// Network that every message is addressed to.
pub const TARGET_NETWORK: u8 = 0;

/// System that every message is addressed to.
pub const TARGET_SYSTEM: u8 = 1;

/// Component that every message is addressed to.
pub const TARGET_COMPONENT: u8 = 1;

/// Sequence number of a request that no response has led to.
pub const FIRST_SEQ: u16 = 1;

/// The message that carries one payload to the component it is addressed to.
#[derive(Debug, Clone)]
pub struct FileTransferProtocolData {
    pub target_network: u8,
    pub target_system: u8,
    pub target_component: u8,
    pub payload: Vec<u8>,
}

/// A message as a mathematical record.
pub ghost struct MessageView {
    pub target_network: u8,
    pub target_system: u8,
    pub target_component: u8,
    pub payload: Seq<u8>,
}

impl View for FileTransferProtocolData {
    type V = MessageView;

    open spec fn view(&self) -> MessageView {
        MessageView {
            target_network: self.target_network,
            target_system: self.target_system,
            target_component: self.target_component,
            payload: self.payload@,
        }
    }
}

/// The message that carries a request to the remote side.
pub open spec fn addressed(p: PayloadView) -> MessageView {
    MessageView {
        target_network: TARGET_NETWORK,
        target_system: TARGET_SYSTEM,
        target_component: TARGET_COMPONENT,
        payload: encode(p),
    }
}

/// What is to be done to the local file after a response.
#[derive(Debug)]
pub enum FileAction {
    /// Nothing.
    Nothing,
    /// Open the file of this name, empty; the remote file has this size.
    Create { name: String, size: u32 },
    /// Write the data at the offset. More is to come.
    Write { offset: u32, data: Vec<u8> },
    /// Write the data at the offset. The file is then complete: its checksum
    /// can be computed from what was written.
    Finish { offset: u32, data: Vec<u8> },
}

/// A file action as a mathematical value.
pub ghost enum FileActionView {
    Nothing,
    Create { name: Seq<char>, size: u32 },
    Write { offset: u32, data: Seq<u8> },
    Finish { offset: u32, data: Seq<u8> },
}

impl View for FileAction {
    type V = FileActionView;

    open spec fn view(&self) -> FileActionView {
        match *self {
            FileAction::Nothing => FileActionView::Nothing,
            FileAction::Create { name, size } => FileActionView::Create { name: name@, size },
            FileAction::Write { offset, data } => FileActionView::Write { offset, data: data@ },
            FileAction::Finish { offset, data } => FileActionView::Finish { offset, data: data@ },
        }
    }
}

/// What follows from one response.
#[derive(Debug)]
pub struct Reaction {
    /// What the response has brought.
    pub response: MavlinkFtpResponse,
    /// What is to be done to the local file.
    pub file: FileAction,
    /// The message to send next, if any.
    pub message: Option<FileTransferProtocolData>,
}

/// A reaction as a mathematical record.
pub ghost struct ReactionView {
    pub response: ResponseView,
    pub file: FileActionView,
    pub message: Option<MessageView>,
}

impl View for Reaction {
    type V = ReactionView;

    open spec fn view(&self) -> ReactionView {
        ReactionView {
            response: self.response@,
            file: self.file@,
            message: match self.message {
                Some(message) => Some(message@),
                None => None,
            },
        }
    }
}

/// Why an operation has failed.
#[derive(Debug, Copy, Clone, PartialEq, Eq, Structural)]
pub enum Failure {
    /// The response was no payload.
    Decode(DecodeError),
    /// The remote side rejected the request, for this reason.
    Rejected(MavlinkFtpNak),
    /// A `Nak` that names no reason.
    MalformedNak,
    /// The answer to opening a file did not hold the file's size in four bytes.
    WrongFileSize,
    /// The answer to a checksum request answered another request, or did not
    /// hold the checksum in four bytes.
    WrongChecksum,
    /// An offset has grown past 32 bits.
    OffsetOverflow,
}

/// The operation that a controller is busy with, as it is held in memory.
#[derive(Debug)]
pub enum OperationStatus {
    /// Listing a directory: `offset` entries have been asked for so far.
    ScanningFolder { path: String, offset: u32, entries: Vec<EntryInfo> },
    /// Opening a file, to learn its size.
    OpeningFile { path: String },
    /// Reading the open file: it is known up to `offset`.
    ReadingFile { path: String, offset: u32, file_size: u32 },
    /// Closing all sessions.
    Reset,
    /// Asking for the checksum of a file.
    CalcFileCRC32 { path: String },
    /// Closing the session after a download.
    ClosingSession,
}

/// The operation that a controller is busy with.
pub ghost enum Operation {
    Idle,
    Resetting,
    Listing { path: Seq<char>, offset: u32, entries: Seq<EntryView> },
    Opening { path: Seq<char> },
    Reading { path: Seq<char>, offset: u32, total: u32 },
    Checksum { path: Seq<char> },
    Closing,
}

/// The operation that a status in memory stands for.
pub open spec fn operation_of(status: Option<OperationStatus>) -> Operation {
    match status {
        None => Operation::Idle,
        Some(OperationStatus::Reset) => Operation::Resetting,
        Some(OperationStatus::ScanningFolder { path, offset, entries }) => Operation::Listing {
            path: path@,
            offset,
            entries: entry_views(entries@),
        },
        Some(OperationStatus::OpeningFile { path }) => Operation::Opening { path: path@ },
        Some(OperationStatus::ReadingFile { path, offset, file_size }) => Operation::Reading {
            path: path@,
            offset,
            total: file_size,
        },
        Some(OperationStatus::CalcFileCRC32 { path }) => Operation::Checksum { path: path@ },
        Some(OperationStatus::ClosingSession) => Operation::Closing,
    }
}

/// The state of a controller.
pub ghost struct ControllerView {
    /// The session that every request names.
    pub session: u8,
    /// The operation under way.
    pub status: Operation,
    /// Whether a request is out that no response has answered yet.
    pub waiting: bool,
}

impl ControllerView {
    /// This state with another operation.
    pub open spec fn with_status(self, status: Operation) -> ControllerView {
        ControllerView { session: self.session, status, waiting: self.waiting }
    }

    /// This state once the operation is over: idle, and waiting for nothing.
    pub open spec fn concluded(self) -> ControllerView {
        ControllerView { session: self.session, status: Operation::Idle, waiting: false }
    }

    /// This state with the given operation and nothing awaited.
    pub open spec fn resting(self, status: Operation) -> ControllerView {
        ControllerView { session: self.session, status, waiting: false }
    }

    /// This state once a request has gone out for the given operation.
    pub open spec fn awaiting(self, status: Operation) -> ControllerView {
        ControllerView { session: self.session, status, waiting: true }
    }

    /// This state once a response has come in, before anything else changes.
    pub open spec fn heard(self) -> ControllerView {
        ControllerView { session: self.session, status: self.status, waiting: false }
    }
}

/// A request that carries a path as its data, in UTF-8.
pub open spec fn path_request(
    seq_number: u16,
    session: u8,
    opcode: MavlinkFtpOpcode,
    offset: u32,
    path: Seq<char>,
) -> PayloadView {
    request(
        seq_number,
        session,
        opcode,
        encode_utf8(path).len() as usize,
        offset,
        encode_utf8(path),
    )
}

/// The request that reads on from `offset`, asking for chunks as large as a
/// payload can carry.
pub open spec fn read_request(seq_number: u16, session: u8, offset: u32) -> PayloadView {
    request(
        seq_number,
        session,
        MavlinkFtpOpcode::BurstReadFile,
        MAX_DATA_LEN,
        offset,
        Seq::empty(),
    )
}

/// The request that closes the session.
pub open spec fn terminate_request(seq_number: u16, session: u8) -> PayloadView {
    request(seq_number, session, MavlinkFtpOpcode::TerminateSession, 0, 0, Seq::empty())
}

/// The sequence number after a given one. After the last comes the first.
pub open spec fn next_seq(seq_number: u16) -> u16 {
    if seq_number == u16::MAX {
        0
    } else {
        (seq_number + 1) as u16
    }
}

/// The request that opens the exchange for an operation, whatever the
/// controller waits for. Nothing opens an exchange while the controller is
/// idle or closing a session.
pub open spec fn opening_request(c: ControllerView) -> Option<PayloadView> {
    match c.status {
        Operation::Idle => None,
        Operation::Closing => None,
        Operation::Resetting => Some(
            request(FIRST_SEQ, c.session, MavlinkFtpOpcode::ResetSessions, 0, 0, Seq::empty()),
        ),
        Operation::Listing { path, offset, entries } => Some(
            path_request(FIRST_SEQ, c.session, MavlinkFtpOpcode::ListDirectory, offset, path),
        ),
        Operation::Opening { path } => Some(
            path_request(FIRST_SEQ, c.session, MavlinkFtpOpcode::OpenFileRO, 0, path),
        ),
        Operation::Checksum { path } => Some(
            path_request(FIRST_SEQ, c.session, MavlinkFtpOpcode::CalcFileCRC32, 0, path),
        ),
        Operation::Reading { path, offset, total } => Some(read_request(FIRST_SEQ, c.session, 0)),
    }
}

/// The request that goes out when the controller is asked for one: none
/// while it waits for a response, else the one that opens the exchange.
pub open spec fn polled_request(c: ControllerView) -> Option<PayloadView> {
    if c.waiting {
        None
    } else {
        opening_request(c)
    }
}

/// The state after the controller was asked for a request: it waits for a
/// response from the moment it has handed a request out.
pub open spec fn polled(c: ControllerView) -> ControllerView {
    if polled_request(c) is Some {
        c.awaiting(c.status)
    } else {
        c
    }
}

/// A reaction that asks for nothing.
pub open spec fn quiet(response: ResponseView) -> ReactionView {
    ReactionView { response, file: FileActionView::Nothing, message: None }
}

/// What an `Ack` does while a directory is listed. Every record in it that
/// is not empty counts as one entry asked for, and those that are entries
/// join the listing. If there were any, the next ones are asked for; an `Ack`
/// without records leaves the listing where it was.
pub open spec fn listing_ack(
    c: ControllerView,
    path: Seq<char>,
    offset: u32,
    entries: Seq<EntryView>,
    p: PayloadView,
) -> (ControllerView, Result<ReactionView, Failure>) {
    let count = record_count(p.data, 0);
    if offset + count > u32::MAX {
        (c.concluded(), Err(Failure::OffsetOverflow))
    } else {
        let reached = (offset + count) as u32;
        let status = Operation::Listing {
            path,
            offset: reached,
            entries: entries + listed(p.data, 0, path),
        };
        if count > 0 {
            (
                c.awaiting(status),
                Ok(
                    ReactionView {
                        response: ResponseView::Ack,
                        file: FileActionView::Nothing,
                        message: Some(
                            addressed(
                                path_request(
                                    FIRST_SEQ,
                                    c.session,
                                    MavlinkFtpOpcode::ListDirectory,
                                    reached,
                                    path,
                                ),
                            ),
                        ),
                    },
                ),
            )
        } else {
            (c.resting(status), Ok(quiet(ResponseView::Ack)))
        }
    }
}

/// What an `Ack` does while a file is opened. It must hold the file's size,
/// in four bytes. The local file is then to be created, under the last
/// segment of the remote path, and reading starts with the next request.
pub open spec fn opening_ack(c: ControllerView, path: Seq<char>, p: PayloadView) -> (
    ControllerView,
    Result<ReactionView, Failure>,
) {
    if p.size != 4 || p.data.len() != 4 {
        (c.concluded(), Err(Failure::WrongFileSize))
    } else {
        let total = from_le32(p.data[0], p.data[1], p.data[2], p.data[3]);
        (
            c.resting(Operation::Reading { path, offset: 0, total }),
            Ok(
                ReactionView {
                    response: ResponseView::Ack,
                    file: FileActionView::Create { name: final_segment(path), size: total },
                    message: None,
                },
            ),
        )
    }
}

/// What an `Ack` does while a checksum is asked for. It must answer the
/// checksum request and hold the checksum, in four bytes, which is then the
/// result of the operation.
pub open spec fn checksum_ack(c: ControllerView, p: PayloadView) -> (
    ControllerView,
    Result<ReactionView, Failure>,
) {
    if p.req_opcode != MavlinkFtpOpcode::CalcFileCRC32 || p.data.len() != 4 {
        (c.concluded(), Err(Failure::WrongChecksum))
    } else {
        (
            c.concluded(),
            Ok(
                quiet(
                    ResponseView::CalcFileCRC32(
                        from_le32(p.data[0], p.data[1], p.data[2], p.data[3]),
                    ),
                ),
            ),
        )
    }
}

/// What an `Ack` does while a file is read. Its data belongs at the offset
/// that it names, and the file is then known up to the end of that data.
/// Short of the file's size, more chunks are awaited: those of the burst
/// under way, or, where the burst is complete, those of the next, which is
/// asked for. At the file's size or past it, the file is complete and the
/// session is closed.
pub open spec fn reading_ack(c: ControllerView, path: Seq<char>, total: u32, p: PayloadView) -> (
    ControllerView,
    Result<ReactionView, Failure>,
) {
    if p.offset + p.size > u32::MAX {
        (c.concluded(), Err(Failure::OffsetOverflow))
    } else {
        let reached = (p.offset + p.size) as u32;
        if reached < total {
            (
                c.awaiting(Operation::Reading { path, offset: reached, total }),
                Ok(
                    ReactionView {
                        response: ResponseView::Ack,
                        file: FileActionView::Write { offset: p.offset, data: p.data },
                        message: if p.burst_complete == 1 {
                            Some(
                                addressed(
                                    read_request(next_seq(p.seq_number), c.session, reached),
                                ),
                            )
                        } else {
                            None
                        },
                    },
                ),
            )
        } else {
            (
                c.awaiting(Operation::Closing),
                Ok(
                    ReactionView {
                        response: ResponseView::Ack,
                        file: FileActionView::Finish { offset: p.offset, data: p.data },
                        message: Some(
                            addressed(terminate_request(next_seq(p.seq_number), c.session)),
                        ),
                    },
                ),
            )
        }
    }
}

/// What an `Ack` does to a controller, and what follows from it. The `Ack` is
/// taken as the answer to the operation under way, whichever request it
/// names; only a checksum must name its own.
pub open spec fn on_ack(c: ControllerView, p: PayloadView) -> (
    ControllerView,
    Result<ReactionView, Failure>,
) {
    match c.status {
        Operation::Idle => (c.concluded(), Ok(quiet(ResponseView::NoResponse))),
        Operation::Resetting => (c.concluded(), Ok(quiet(ResponseView::ResetSessions))),
        Operation::Closing => (
            c.concluded(),
            Ok(quiet(ResponseView::TerminateSession(c.session))),
        ),
        Operation::Listing { path, offset, entries } => listing_ack(c, path, offset, entries, p),
        Operation::Opening { path } => opening_ack(c, path, p),
        Operation::Checksum { path } => checksum_ack(c, p),
        Operation::Reading { path, offset, total } => reading_ack(c, path, total, p),
    }
}

/// What a `Nak` does to a controller, and what follows from it. The end of
/// the file or of the listing is how an operation ends well; any other reason
/// is a failure. Either way the operation is over.
pub open spec fn on_nak(c: ControllerView, p: PayloadView) -> (
    ControllerView,
    Result<ReactionView, Failure>,
) {
    if p.data.len() == 0 || MavlinkFtpNak::of_code(p.data[0]) is None {
        (c.concluded(), Err(Failure::MalformedNak))
    } else {
        let reason = MavlinkFtpNak::of_code(p.data[0])->0;
        if reason != MavlinkFtpNak::EOF {
            (c.concluded(), Err(Failure::Rejected(reason)))
        } else {
            match c.status {
                Operation::Listing { path, offset, entries } => (
                    c.concluded(),
                    Ok(quiet(ResponseView::ListDirectory(entries))),
                ),
                _ => (c.concluded(), Ok(quiet(ResponseView::Nak(MavlinkFtpNak::EOF)))),
            }
        }
    }
}

/// What the bytes of a response do to a controller, and what follows from
/// them. The controller stops waiting as soon as anything has come in. Bytes
/// that are no payload end the operation; a payload that is neither `Ack`
/// nor `Nak` changes nothing else.
pub open spec fn on_response(c: ControllerView, bytes: Seq<u8>) -> (
    ControllerView,
    Result<ReactionView, Failure>,
) {
    match decode(bytes) {
        Err(e) => (c.concluded(), Err(Failure::Decode(e))),
        Ok(p) => match p.opcode {
            MavlinkFtpOpcode::Ack => on_ack(c, p),
            MavlinkFtpOpcode::Nak => on_nak(c, p),
            _ => (c.heard(), Ok(quiet(ResponseView::NoResponse))),
        },
    }
}

/// Whether a result in memory is the one that the model gives.
pub open spec fn models(
    result: Result<Reaction, Failure>,
    model: Result<ReactionView, Failure>,
) -> bool {
    match result {
        Ok(reaction) => model == Ok::<ReactionView, Failure>(reaction@),
        Err(failure) => model == Err::<ReactionView, Failure>(failure),
    }
}

/// Asked twice in a row, the controller hands out a request at most once:
/// the first time if an exchange can open and none is under way, and never
/// the second time, which changes nothing.
pub proof fn lemma_one_request_at_a_time(c: ControllerView)
    ensures
        polled_request(c) is Some <==> !c.waiting && c.status !is Idle && c.status !is Closing,
        polled_request(polled(c)) is None,
        polled(polled(c)) == polled(c),
{
}

/// A request is never out without the controller waiting for its answer:
/// whenever a request is handed out, or a response leads to a message, the
/// controller waits afterwards, and hands out nothing until a response has
/// come in.
pub proof fn lemma_request_awaits_response(c: ControllerView, bytes: Seq<u8>)
    ensures
        polled_request(c) is Some ==> polled(c).waiting,
        on_response(c, bytes).1 matches Ok(reaction) && reaction.message is Some ==> on_response(
            c,
            bytes,
        ).0.waiting,
        on_response(c, bytes).0.waiting ==> polled_request(on_response(c, bytes).0) is None,
{
}

/// Every failure ends the operation, and so does every response that brings
/// a result: the controller is idle afterwards and waits for nothing.
pub proof fn lemma_conclusions_are_idle(c: ControllerView, bytes: Seq<u8>)
    ensures
        on_response(c, bytes).1 is Err ==> on_response(c, bytes).0 == c.concluded(),
        on_response(c, bytes).1 matches Ok(reaction) && reaction.response !is Ack
            && reaction.response !is NoResponse ==> on_response(c, bytes).0 == c.concluded(),
        on_response(c, bytes).0.session == c.session,
{
}

/// Only starting an operation leads out of idleness: asked for a request or
/// handed a response, an idle controller stays idle.
pub proof fn lemma_idle_stays_idle(c: ControllerView, bytes: Seq<u8>)
    requires
        c.status is Idle,
    ensures
        polled(c) == c,
        polled_request(c) is None,
        on_response(c, bytes).0 == c.concluded(),
        on_response(c, bytes).1 matches Ok(reaction) ==> reaction.message is None && reaction.file
            is Nothing,
{
}

/// A listing ends only when the remote side says that it is exhausted: an
/// `Ack` never ends it, and one that holds records asks for the next ones.
pub proof fn lemma_listing_ends_on_eof(c: ControllerView, bytes: Seq<u8>)
    requires
        c.status is Listing,
        decode(bytes) matches Ok(p) && p.opcode == MavlinkFtpOpcode::Ack,
        on_response(c, bytes).1 is Ok,
    ensures
        on_response(c, bytes).0.status is Listing,
        on_response(c, bytes).1->Ok_0.response is Ack,
        record_count(decode(bytes)->Ok_0.data, 0) > 0 <==> on_response(
            c,
            bytes,
        ).1->Ok_0.message is Some,
{
}

/// Drives one operation at a time over a channel that carries one request at
/// a time.
pub struct Controller {
    session: u8,
    status: Option<OperationStatus>,
    waiting: bool,
}

impl View for Controller {
    type V = ControllerView;

    closed spec fn view(&self) -> ControllerView {
        ControllerView {
            session: self.session,
            status: operation_of(self.status),
            waiting: self.waiting,
        }
    }
}

/// Wraps a request into the message that carries it.
fn message_for(payload: &MavlinkFtpPayload) -> (message: FileTransferProtocolData)
    ensures
        message@ == addressed(payload@),
{
    FileTransferProtocolData {
        target_network: TARGET_NETWORK,
        target_system: TARGET_SYSTEM,
        target_component: TARGET_COMPONENT,
        payload: payload.to_bytes(),
    }
}

/// The sequence number after a given one.
fn following(seq_number: u16) -> (next: u16)
    ensures
        next == next_seq(seq_number),
{
    if seq_number == u16::MAX {
        0
    } else {
        seq_number + 1
    }
}

impl Controller {
    /// A controller that is idle, on session 0.
    pub fn new() -> (c: Self)
        ensures
            c@ == (ControllerView { session: 0, status: Operation::Idle, waiting: false }),
    {
        Self { session: 0, status: None, waiting: false }
    }

    /// The session that every request names.
    pub fn session(&self) -> (session: u8)
        ensures
            session == self@.session,
    {
        self.session
    }

    /// Whether a request is out that no response has answered yet.
    pub fn is_waiting(&self) -> (waiting: bool)
        ensures
            waiting == self@.waiting,
    {
        self.waiting
    }

    /// The operation under way, if any.
    pub fn status(&self) -> (status: &Option<OperationStatus>)
        ensures
            operation_of(*status) == self@.status,
    {
        &self.status
    }

    /// Starts listing a directory, from its first entry, in place of whatever
    /// was under way.
    pub fn list_directory(&mut self, path: String)
        ensures
            final(self)@ == old(self)@.with_status(
                Operation::Listing { path: path@, offset: 0, entries: Seq::empty() },
            ),
    {
        let entries: Vec<EntryInfo> = Vec::new();
        assert(entry_views(entries@) =~= Seq::empty());
        self.status = Some(OperationStatus::ScanningFolder { path, offset: 0, entries });
    }

    /// Starts downloading a file, in place of whatever was under way: the
    /// file is opened first.
    pub fn read_file(&mut self, path: String)
        ensures
            final(self)@ == old(self)@.with_status(Operation::Opening { path: path@ }),
    {
        self.status = Some(OperationStatus::OpeningFile { path });
    }

    /// Starts closing all sessions, in place of whatever was under way.
    pub fn reset(&mut self)
        ensures
            final(self)@ == old(self)@.with_status(Operation::Resetting),
    {
        self.status = Some(OperationStatus::Reset);
    }

    /// Starts asking for the checksum of a file, in place of whatever was
    /// under way.
    pub fn crc(&mut self, path: String)
        ensures
            final(self)@ == old(self)@.with_status(Operation::Checksum { path: path@ }),
    {
        self.status = Some(OperationStatus::CalcFileCRC32 { path });
    }

    /// Hands out the request to send next, if there is one: none while a
    /// response is awaited, and none without an operation.
    pub fn run(&mut self) -> (payload: Option<MavlinkFtpPayload>)
        ensures
            final(self)@ == polled(old(self)@),
            match payload {
                Some(p) => polled_request(old(self)@) == Some(p@),
                None => polled_request(old(self)@) is None,
            },
    {
        if self.waiting {
            return None;
        }
        let payload = match &self.status {
            Some(OperationStatus::Reset) => Some(
                MavlinkFtpPayload::new_reset_sesions(FIRST_SEQ, self.session),
            ),
            Some(OperationStatus::ScanningFolder { path, offset, entries }) => Some(
                MavlinkFtpPayload::new_list_directory(
                    FIRST_SEQ,
                    self.session,
                    *offset,
                    path.as_str(),
                ),
            ),
            Some(OperationStatus::OpeningFile { path }) => Some(
                MavlinkFtpPayload::new_open_file(FIRST_SEQ, self.session, path.as_str()),
            ),
            Some(OperationStatus::CalcFileCRC32 { path }) => Some(
                MavlinkFtpPayload::new_calc_file_crc32(FIRST_SEQ, self.session, path.as_str()),
            ),
            Some(OperationStatus::ReadingFile { path, offset, file_size }) => Some(
                MavlinkFtpPayload::new_read_file(FIRST_SEQ, self.session, 0, usize::MAX),
            ),
            Some(OperationStatus::ClosingSession) => None,
            None => None,
        };
        if payload.is_some() {
            self.waiting = true;
        }
        payload
    }

    /// Takes the message that has come in, and says what follows from it.
    pub fn parse_mavlink_message(&mut self, message: &FileTransferProtocolData) -> (r: Result<
        Reaction,
        Failure,
    >)
        ensures
            final(self)@ == on_response(old(self)@, message@.payload).0,
            models(r, on_response(old(self)@, message@.payload).1),
    {
        self.waiting = false;
        let payload = match MavlinkFtpPayload::from_bytes(message.payload.as_slice()) {
            Ok(payload) => payload,
            Err(e) => {
                self.status = None;
                return Err(Failure::Decode(e));
            },
        };
        match payload.opcode {
            MavlinkFtpOpcode::Ack => self.acknowledged(payload),
            MavlinkFtpOpcode::Nak => self.rejected(payload),
            _ => Ok(
                Reaction {
                    response: MavlinkFtpResponse::NoResponse,
                    file: FileAction::Nothing,
                    message: None,
                },
            ),
        }
    }

    /// Takes an `Ack`.
    fn acknowledged(&mut self, payload: MavlinkFtpPayload) -> (r: Result<Reaction, Failure>)
        requires
            payload.size == payload.data.len(),
            payload.size < 256,
        ensures
            final(self)@ == on_ack(old(self)@, payload@).0,
            models(r, on_ack(old(self)@, payload@).1),
    {
        let status = self.status.take();
        self.waiting = false;
        match status {
            None => Ok(
                Reaction {
                    response: MavlinkFtpResponse::NoResponse,
                    file: FileAction::Nothing,
                    message: None,
                },
            ),
            Some(OperationStatus::Reset) => Ok(
                Reaction {
                    response: MavlinkFtpResponse::ResetSessions,
                    file: FileAction::Nothing,
                    message: None,
                },
            ),
            Some(OperationStatus::ClosingSession) => Ok(
                Reaction {
                    response: MavlinkFtpResponse::TerminateSession(self.session),
                    file: FileAction::Nothing,
                    message: None,
                },
            ),
            Some(OperationStatus::ScanningFolder { path, offset, entries }) => self.listed_more(
                path,
                offset,
                entries,
                payload,
            ),
            Some(OperationStatus::OpeningFile { path }) => self.opened(path, payload),
            Some(OperationStatus::CalcFileCRC32 { path }) => self.summed(payload),
            Some(OperationStatus::ReadingFile { path, offset, file_size }) => self.read_more(
                path,
                file_size,
                payload,
            ),
        }
    }

    /// Takes an `Ack` while a directory is listed.
    fn listed_more(
        &mut self,
        path: String,
        offset: u32,
        entries: Vec<EntryInfo>,
        payload: MavlinkFtpPayload,
    ) -> (r: Result<Reaction, Failure>)
        requires
            old(self)@ == old(self)@.concluded(),
            payload.data.len() < 256,
        ensures
            final(self)@ == listing_ack(
                old(self)@,
                path@,
                offset,
                entry_views(entries@),
                payload@,
            ).0,
            models(
                r,
                listing_ack(old(self)@, path@, offset, entry_views(entries@), payload@).1,
            ),
    {
        let mut entries = entries;
        let count = collect_entries(payload.data.as_slice(), path.as_str(), &mut entries);
        proof {
            lemma_record_count(payload.data@, 0, path@);
        }
        match offset.checked_add(count as u32) {
            None => Err(Failure::OffsetOverflow),
            Some(reached) => {
                let message = if count > 0 {
                    let next = MavlinkFtpPayload::new_list_directory(
                        FIRST_SEQ,
                        self.session,
                        reached,
                        path.as_str(),
                    );
                    Some(message_for(&next))
                } else {
                    None
                };
                self.waiting = count > 0;
                self.status = Some(
                    OperationStatus::ScanningFolder { path, offset: reached, entries },
                );
                Ok(
                    Reaction {
                        response: MavlinkFtpResponse::Ack,
                        file: FileAction::Nothing,
                        message,
                    },
                )
            },
        }
    }

    /// Takes an `Ack` while a file is opened.
    fn opened(&mut self, path: String, payload: MavlinkFtpPayload) -> (r: Result<
        Reaction,
        Failure,
    >)
        requires
            old(self)@ == old(self)@.concluded(),
            payload.size == payload.data.len(),
        ensures
            final(self)@ == opening_ack(old(self)@, path@, payload@).0,
            models(r, opening_ack(old(self)@, path@, payload@).1),
    {
        if payload.size != 4 {
            return Err(Failure::WrongFileSize);
        }
        let file_size = read_le32(
            payload.data[0],
            payload.data[1],
            payload.data[2],
            payload.data[3],
        );
        let name = last_segment(path.as_str());
        self.status = Some(OperationStatus::ReadingFile { path, offset: 0, file_size });
        Ok(
            Reaction {
                response: MavlinkFtpResponse::Ack,
                file: FileAction::Create { name, size: file_size },
                message: None,
            },
        )
    }

    /// Takes an `Ack` while a checksum is asked for.
    fn summed(&mut self, payload: MavlinkFtpPayload) -> (r: Result<Reaction, Failure>)
        requires
            old(self)@ == old(self)@.concluded(),
        ensures
            final(self)@ == checksum_ack(old(self)@, payload@).0,
            models(r, checksum_ack(old(self)@, payload@).1),
    {
        let answers_checksum = match payload.req_opcode {
            MavlinkFtpOpcode::CalcFileCRC32 => true,
            _ => false,
        };
        if !answers_checksum || payload.data.len() != 4 {
            return Err(Failure::WrongChecksum);
        }
        let crc = read_le32(payload.data[0], payload.data[1], payload.data[2], payload.data[3]);
        Ok(
            Reaction {
                response: MavlinkFtpResponse::CalcFileCRC32(crc),
                file: FileAction::Nothing,
                message: None,
            },
        )
    }

    /// Takes an `Ack` while a file is read.
    fn read_more(&mut self, path: String, file_size: u32, payload: MavlinkFtpPayload) -> (r:
        Result<Reaction, Failure>)
        requires
            old(self)@ == old(self)@.concluded(),
            payload.size < 256,
        ensures
            final(self)@ == reading_ack(old(self)@, path@, file_size, payload@).0,
            models(r, reading_ack(old(self)@, path@, file_size, payload@).1),
    {
        let reached = match payload.offset.checked_add(payload.size as u32) {
            Some(reached) => reached,
            None => {
                return Err(Failure::OffsetOverflow);
            },
        };
        self.waiting = true;
        if reached < file_size {
            let message = if payload.burst_complete == 1 {
                let next = MavlinkFtpPayload::new_read_file(
                    following(payload.seq_number),
                    self.session,
                    reached,
                    usize::MAX,
                );
                Some(message_for(&next))
            } else {
                None
            };
            self.status = Some(OperationStatus::ReadingFile { path, offset: reached, file_size });
            Ok(
                Reaction {
                    response: MavlinkFtpResponse::Ack,
                    file: FileAction::Write { offset: payload.offset, data: payload.data },
                    message,
                },
            )
        } else {
            let next = MavlinkFtpPayload::new_terminate_session(
                following(payload.seq_number),
                self.session,
            );
            let message = Some(message_for(&next));
            self.status = Some(OperationStatus::ClosingSession);
            Ok(
                Reaction {
                    response: MavlinkFtpResponse::Ack,
                    file: FileAction::Finish { offset: payload.offset, data: payload.data },
                    message,
                },
            )
        }
    }

    /// Takes a `Nak`.
    fn rejected(&mut self, payload: MavlinkFtpPayload) -> (r: Result<Reaction, Failure>)
        ensures
            final(self)@ == on_nak(old(self)@, payload@).0,
            models(r, on_nak(old(self)@, payload@).1),
    {
        let status = self.status.take();
        self.waiting = false;
        if payload.data.len() == 0 {
            return Err(Failure::MalformedNak);
        }
        let reason = match MavlinkFtpNak::from_u8(payload.data[0]) {
            Some(reason) => reason,
            None => {
                return Err(Failure::MalformedNak);
            },
        };
        match reason {
            MavlinkFtpNak::EOF => match status {
                Some(OperationStatus::ScanningFolder { path, offset, entries }) => Ok(
                    Reaction {
                        response: MavlinkFtpResponse::ListDirectory(entries),
                        file: FileAction::Nothing,
                        message: None,
                    },
                ),
                _ => Ok(
                    Reaction {
                        response: MavlinkFtpResponse::Nak(MavlinkFtpNak::EOF),
                        file: FileAction::Nothing,
                        message: None,
                    },
                ),
            },
            _ => Err(Failure::Rejected(reason)),
        }
    }
}

} // verus!
