//! Payload records of the file-transfer sub-protocol and their wire form.

use crate::crc32::{crc32, crc32_table, crc_shift8, lemma_feed_by_table};
use crate::text::{chars_of, field_end, find_field_end, parse_size, size_of_field};
use crate::wire::{
    from_le16, from_le32, le16, le32, lemma_le16_bytes, lemma_le16_round_trip, lemma_le32_bytes,
    lemma_le32_round_trip, push_le16, push_le32, read_le16, read_le32,
};
use vstd::prelude::*;
use vstd::slice::{slice_subrange, slice_to_vec};
use vstd::string::{StrSliceExecFns, StringSliceAdditionalSpecFns};

verus! {

/// Commands of the sub-protocol, and the two codes that answer them.
#[derive(Debug, Copy, Clone, PartialEq, Eq, Structural)]
pub enum MavlinkFtpOpcode {
    NoOpcode,
    TerminateSession,
    ResetSessions,
    ListDirectory,
    OpenFileRO,
    ReadFile,
    CreateFile,
    WriteFile,
    RemoveFile,
    CreateDirectory,
    RemoveDirectory,
    OpenFileWO,
    TruncateFile,
    Rename,
    CalcFileCRC32,
    BurstReadFile,
    Ack,
    Nak,
}

impl MavlinkFtpOpcode {
    /// The byte that stands for this opcode on the wire.
    pub open spec fn code(self) -> u8 {
        match self {
            MavlinkFtpOpcode::NoOpcode => 0,
            MavlinkFtpOpcode::TerminateSession => 1,
            MavlinkFtpOpcode::ResetSessions => 2,
            MavlinkFtpOpcode::ListDirectory => 3,
            MavlinkFtpOpcode::OpenFileRO => 4,
            MavlinkFtpOpcode::ReadFile => 5,
            MavlinkFtpOpcode::CreateFile => 6,
            MavlinkFtpOpcode::WriteFile => 7,
            MavlinkFtpOpcode::RemoveFile => 8,
            MavlinkFtpOpcode::CreateDirectory => 9,
            MavlinkFtpOpcode::RemoveDirectory => 10,
            MavlinkFtpOpcode::OpenFileWO => 11,
            MavlinkFtpOpcode::TruncateFile => 12,
            MavlinkFtpOpcode::Rename => 13,
            MavlinkFtpOpcode::CalcFileCRC32 => 14,
            MavlinkFtpOpcode::BurstReadFile => 15,
            MavlinkFtpOpcode::Ack => 128,
            MavlinkFtpOpcode::Nak => 129,
        }
    }

    /// The opcode that a byte stands for, if it stands for one.
    pub open spec fn of_code(code: u8) -> Option<MavlinkFtpOpcode> {
        if code == 0 {
            Some(MavlinkFtpOpcode::NoOpcode)
        } else if code == 1 {
            Some(MavlinkFtpOpcode::TerminateSession)
        } else if code == 2 {
            Some(MavlinkFtpOpcode::ResetSessions)
        } else if code == 3 {
            Some(MavlinkFtpOpcode::ListDirectory)
        } else if code == 4 {
            Some(MavlinkFtpOpcode::OpenFileRO)
        } else if code == 5 {
            Some(MavlinkFtpOpcode::ReadFile)
        } else if code == 6 {
            Some(MavlinkFtpOpcode::CreateFile)
        } else if code == 7 {
            Some(MavlinkFtpOpcode::WriteFile)
        } else if code == 8 {
            Some(MavlinkFtpOpcode::RemoveFile)
        } else if code == 9 {
            Some(MavlinkFtpOpcode::CreateDirectory)
        } else if code == 10 {
            Some(MavlinkFtpOpcode::RemoveDirectory)
        } else if code == 11 {
            Some(MavlinkFtpOpcode::OpenFileWO)
        } else if code == 12 {
            Some(MavlinkFtpOpcode::TruncateFile)
        } else if code == 13 {
            Some(MavlinkFtpOpcode::Rename)
        } else if code == 14 {
            Some(MavlinkFtpOpcode::CalcFileCRC32)
        } else if code == 15 {
            Some(MavlinkFtpOpcode::BurstReadFile)
        } else if code == 128 {
            Some(MavlinkFtpOpcode::Ack)
        } else if code == 129 {
            Some(MavlinkFtpOpcode::Nak)
        } else {
            None
        }
    }

    /// A byte and an opcode stand for each other, or the byte for none.
    pub proof fn lemma_code_of_code(op: MavlinkFtpOpcode, code: u8)
        ensures
            Self::of_code(op.code()) == Some(op),
            Self::of_code(code) == Some(op) <==> op.code() == code,
    {
    }

    pub fn to_u8(self) -> (code: u8)
        ensures
            code == self.code(),
    {
        match self {
            MavlinkFtpOpcode::NoOpcode => 0,
            MavlinkFtpOpcode::TerminateSession => 1,
            MavlinkFtpOpcode::ResetSessions => 2,
            MavlinkFtpOpcode::ListDirectory => 3,
            MavlinkFtpOpcode::OpenFileRO => 4,
            MavlinkFtpOpcode::ReadFile => 5,
            MavlinkFtpOpcode::CreateFile => 6,
            MavlinkFtpOpcode::WriteFile => 7,
            MavlinkFtpOpcode::RemoveFile => 8,
            MavlinkFtpOpcode::CreateDirectory => 9,
            MavlinkFtpOpcode::RemoveDirectory => 10,
            MavlinkFtpOpcode::OpenFileWO => 11,
            MavlinkFtpOpcode::TruncateFile => 12,
            MavlinkFtpOpcode::Rename => 13,
            MavlinkFtpOpcode::CalcFileCRC32 => 14,
            MavlinkFtpOpcode::BurstReadFile => 15,
            MavlinkFtpOpcode::Ack => 128,
            MavlinkFtpOpcode::Nak => 129,
        }
    }

    pub fn from_u8(code: u8) -> (op: Option<MavlinkFtpOpcode>)
        ensures
            op == Self::of_code(code),
    {
        match code {
            0 => Some(MavlinkFtpOpcode::NoOpcode),
            1 => Some(MavlinkFtpOpcode::TerminateSession),
            2 => Some(MavlinkFtpOpcode::ResetSessions),
            3 => Some(MavlinkFtpOpcode::ListDirectory),
            4 => Some(MavlinkFtpOpcode::OpenFileRO),
            5 => Some(MavlinkFtpOpcode::ReadFile),
            6 => Some(MavlinkFtpOpcode::CreateFile),
            7 => Some(MavlinkFtpOpcode::WriteFile),
            8 => Some(MavlinkFtpOpcode::RemoveFile),
            9 => Some(MavlinkFtpOpcode::CreateDirectory),
            10 => Some(MavlinkFtpOpcode::RemoveDirectory),
            11 => Some(MavlinkFtpOpcode::OpenFileWO),
            12 => Some(MavlinkFtpOpcode::TruncateFile),
            13 => Some(MavlinkFtpOpcode::Rename),
            14 => Some(MavlinkFtpOpcode::CalcFileCRC32),
            15 => Some(MavlinkFtpOpcode::BurstReadFile),
            128 => Some(MavlinkFtpOpcode::Ack),
            129 => Some(MavlinkFtpOpcode::Nak),
            _ => None,
        }
    }
}

/// The reason that a `Nak` carries in the first byte of its data.
#[derive(Debug, Copy, Clone, PartialEq, Eq, Structural)]
pub enum MavlinkFtpNak {
    /// No error.
    NoError,
    /// Unknown failure.
    Fail,
    /// Command failed, and an error number was sent back.
    FailErrno,
    /// Payload size is invalid.
    InvalidDataSize,
    /// Session is not currently open.
    InvalidSession,
    /// All available sessions are already in use.
    NoSessionsAvailable,
    /// Offset past the end of the file or of the listing.
    EOF,
    /// Unknown command.
    UnknownCommand,
    /// File or directory already exists.
    FileExists,
    /// File or directory is write protected.
    FileProtected,
    /// File or directory not found.
    FileNotFound,
}

impl MavlinkFtpNak {
    /// The byte that stands for this reason on the wire.
    pub open spec fn code(self) -> u8 {
        match self {
            MavlinkFtpNak::NoError => 0,
            MavlinkFtpNak::Fail => 1,
            MavlinkFtpNak::FailErrno => 2,
            MavlinkFtpNak::InvalidDataSize => 3,
            MavlinkFtpNak::InvalidSession => 4,
            MavlinkFtpNak::NoSessionsAvailable => 5,
            MavlinkFtpNak::EOF => 6,
            MavlinkFtpNak::UnknownCommand => 7,
            MavlinkFtpNak::FileExists => 8,
            MavlinkFtpNak::FileProtected => 9,
            MavlinkFtpNak::FileNotFound => 10,
        }
    }

    /// The reason that a byte stands for, if it stands for one.
    pub open spec fn of_code(code: u8) -> Option<MavlinkFtpNak> {
        if code == 0 {
            Some(MavlinkFtpNak::NoError)
        } else if code == 1 {
            Some(MavlinkFtpNak::Fail)
        } else if code == 2 {
            Some(MavlinkFtpNak::FailErrno)
        } else if code == 3 {
            Some(MavlinkFtpNak::InvalidDataSize)
        } else if code == 4 {
            Some(MavlinkFtpNak::InvalidSession)
        } else if code == 5 {
            Some(MavlinkFtpNak::NoSessionsAvailable)
        } else if code == 6 {
            Some(MavlinkFtpNak::EOF)
        } else if code == 7 {
            Some(MavlinkFtpNak::UnknownCommand)
        } else if code == 8 {
            Some(MavlinkFtpNak::FileExists)
        } else if code == 9 {
            Some(MavlinkFtpNak::FileProtected)
        } else if code == 10 {
            Some(MavlinkFtpNak::FileNotFound)
        } else {
            None
        }
    }

    /// A byte and a reason stand for each other, or the byte for none.
    pub proof fn lemma_code_of_code(nak: MavlinkFtpNak, code: u8)
        ensures
            Self::of_code(nak.code()) == Some(nak),
            Self::of_code(code) == Some(nak) <==> nak.code() == code,
    {
    }

    pub fn to_u8(self) -> (code: u8)
        ensures
            code == self.code(),
    {
        match self {
            MavlinkFtpNak::NoError => 0,
            MavlinkFtpNak::Fail => 1,
            MavlinkFtpNak::FailErrno => 2,
            MavlinkFtpNak::InvalidDataSize => 3,
            MavlinkFtpNak::InvalidSession => 4,
            MavlinkFtpNak::NoSessionsAvailable => 5,
            MavlinkFtpNak::EOF => 6,
            MavlinkFtpNak::UnknownCommand => 7,
            MavlinkFtpNak::FileExists => 8,
            MavlinkFtpNak::FileProtected => 9,
            MavlinkFtpNak::FileNotFound => 10,
        }
    }

    pub fn from_u8(code: u8) -> (nak: Option<MavlinkFtpNak>)
        ensures
            nak == Self::of_code(code),
    {
        match code {
            0 => Some(MavlinkFtpNak::NoError),
            1 => Some(MavlinkFtpNak::Fail),
            2 => Some(MavlinkFtpNak::FailErrno),
            3 => Some(MavlinkFtpNak::InvalidDataSize),
            4 => Some(MavlinkFtpNak::InvalidSession),
            5 => Some(MavlinkFtpNak::NoSessionsAvailable),
            6 => Some(MavlinkFtpNak::EOF),
            7 => Some(MavlinkFtpNak::UnknownCommand),
            8 => Some(MavlinkFtpNak::FileExists),
            9 => Some(MavlinkFtpNak::FileProtected),
            10 => Some(MavlinkFtpNak::FileNotFound),
            _ => None,
        }
    }
}


/// Length of the fixed header that every payload starts with.
pub const HEADER_LEN: usize = 12;

/// Largest number of data bytes that one payload carries.
pub const MAX_DATA_LEN: usize = 239;

/// One request or response of the sub-protocol.
#[derive(Debug, Clone)]
pub struct MavlinkFtpPayload {
    /// Sequence number of the message, chosen by its sender.
    pub seq_number: u16,
    /// Session that a read or a write belongs to.
    pub session: u8,
    /// The command, or `Ack` or `Nak`.
    pub opcode: MavlinkFtpOpcode,
    /// Number of data bytes; in a burst-read request, the chunk size asked for.
    pub size: usize,
    /// In an `Ack` or `Nak`, the opcode of the request that it answers.
    pub req_opcode: MavlinkFtpOpcode,
    /// 1 where no more chunks follow in this burst, 0 where more are pending.
    pub burst_complete: u8,
    /// Reserved byte that aligns the offset.
    pub padding: u8,
    /// Offset into a directory listing or a file.
    pub offset: u32,
    /// Data of the command or of the response.
    pub data: Vec<u8>,
}

/// A payload as a mathematical record: its data is a sequence of bytes.
pub ghost struct PayloadView {
    pub seq_number: u16,
    pub session: u8,
    pub opcode: MavlinkFtpOpcode,
    pub size: usize,
    pub req_opcode: MavlinkFtpOpcode,
    pub burst_complete: u8,
    pub padding: u8,
    pub offset: u32,
    pub data: Seq<u8>,
}

impl View for MavlinkFtpPayload {
    type V = PayloadView;

    open spec fn view(&self) -> PayloadView {
        PayloadView {
            seq_number: self.seq_number,
            session: self.session,
            opcode: self.opcode,
            size: self.size,
            req_opcode: self.req_opcode,
            burst_complete: self.burst_complete,
            padding: self.padding,
            offset: self.offset,
            data: self.data@,
        }
    }
}

/// Why a byte sequence is not a payload.
#[derive(Debug, Copy, Clone, PartialEq, Eq, Structural)]
pub enum DecodeError {
    /// Fewer bytes than the fixed header has.
    TruncatedHeader,
    /// The opcode byte stands for no opcode.
    UnknownOpcode,
    /// The byte of the answered request's opcode stands for no opcode.
    UnknownRequestOpcode,
    /// Fewer data bytes than the header declares.
    TruncatedBody,
}

/// A request as its sender builds it: nothing is answered by it, no burst is
/// under way, and the reserved byte is zero.
pub open spec fn request(
    seq_number: u16,
    session: u8,
    opcode: MavlinkFtpOpcode,
    size: usize,
    offset: u32,
    data: Seq<u8>,
) -> PayloadView {
    PayloadView {
        seq_number,
        session,
        opcode,
        size,
        req_opcode: MavlinkFtpOpcode::NoOpcode,
        burst_complete: 0,
        padding: 0,
        offset,
        data,
    }
}

/// The chunk size that a burst-read request asks for: the bytes still wanted,
/// but never more than one payload can carry.
pub open spec fn chunk_size(size_left: usize) -> usize {
    if size_left > MAX_DATA_LEN {
        MAX_DATA_LEN
    } else {
        size_left
    }
}

/// The fixed header of a payload on the wire. The size field keeps the low
/// eight bits of the payload's size.
pub open spec fn encode_header(p: PayloadView) -> Seq<u8> {
    le16(p.seq_number) + seq![
        p.session,
        p.opcode.code(),
        (p.size % 256) as u8,
        p.req_opcode.code(),
        p.burst_complete,
        p.padding,
    ] + le32(p.offset)
}

/// A payload on the wire: the header, then the data as it is.
pub open spec fn encode(p: PayloadView) -> Seq<u8> {
    encode_header(p) + p.data
}

/// The payload that a byte sequence stands for, or why it stands for none.
/// Bytes after the declared data are ignored.
pub open spec fn decode(bytes: Seq<u8>) -> Result<PayloadView, DecodeError> {
    if bytes.len() < HEADER_LEN {
        Err(DecodeError::TruncatedHeader)
    } else if MavlinkFtpOpcode::of_code(bytes[3]) is None {
        Err(DecodeError::UnknownOpcode)
    } else if MavlinkFtpOpcode::of_code(bytes[5]) is None {
        Err(DecodeError::UnknownRequestOpcode)
    } else if bytes.len() < HEADER_LEN + bytes[4] {
        Err(DecodeError::TruncatedBody)
    } else {
        Ok(
            PayloadView {
                seq_number: from_le16(bytes[0], bytes[1]),
                session: bytes[2],
                opcode: MavlinkFtpOpcode::of_code(bytes[3])->0,
                size: bytes[4] as usize,
                req_opcode: MavlinkFtpOpcode::of_code(bytes[5])->0,
                burst_complete: bytes[6],
                padding: bytes[7],
                offset: from_le32(bytes[8], bytes[9], bytes[10], bytes[11]),
                data: bytes.subrange(HEADER_LEN as int, HEADER_LEN + bytes[4]),
            },
        )
    }
}

/// The header is twelve bytes, each field at its place.
pub proof fn lemma_encode_layout(p: PayloadView)
    ensures
        encode_header(p).len() == HEADER_LEN,
        encode(p).len() == HEADER_LEN + p.data.len(),
        encode(p).subrange(0, 2) == le16(p.seq_number),
        encode(p)[2] == p.session,
        encode(p)[3] == p.opcode.code(),
        encode(p)[4] == p.size % 256,
        encode(p)[5] == p.req_opcode.code(),
        encode(p)[6] == p.burst_complete,
        encode(p)[7] == p.padding,
        encode(p).subrange(8, 12) == le32(p.offset),
        encode(p).subrange(HEADER_LEN as int, encode(p).len() as int) == p.data,
{
    assert(encode(p).subrange(0, 2) =~= le16(p.seq_number));
    assert(encode(p).subrange(8, 12) =~= le32(p.offset));
    assert(encode(p).subrange(HEADER_LEN as int, encode(p).len() as int) =~= p.data);
}

/// Decoding what was encoded gives the payload again, field for field, where
/// the size field says how long the data is and fits in its byte. For any
/// other payload it does not.
pub proof fn lemma_decode_encode(p: PayloadView)
    ensures
        p.size == p.data.len() && p.size < 256 <==> decode(encode(p)) == Ok::<
            PayloadView,
            DecodeError,
        >(p),
{
    lemma_encode_layout(p);
    MavlinkFtpOpcode::lemma_code_of_code(p.opcode, 0);
    MavlinkFtpOpcode::lemma_code_of_code(p.req_opcode, 0);
    lemma_le16_round_trip(p.seq_number);
    lemma_le32_round_trip(p.offset);
    let bytes = encode(p);
    if p.size == p.data.len() && p.size < 256 {
        assert(bytes.subrange(HEADER_LEN as int, HEADER_LEN + bytes[4]) =~= p.data);
    } else if decode(bytes) is Ok {
        let q = decode(bytes)->Ok_0;
        assert(q.size < 256);
        assert(q.data.len() == q.size);
    }
}

/// Every request that carries its data whole comes back from the wire as it
/// was sent: with no data at all, or with as many bytes as the size byte can
/// count.
pub proof fn lemma_request_round_trip(
    seq_number: u16,
    session: u8,
    opcode: MavlinkFtpOpcode,
    offset: u32,
    data: Seq<u8>,
)
    requires
        data.len() < 256,
    ensures
        decode(encode(request(seq_number, session, opcode, data.len() as usize, offset, data)))
            == Ok::<PayloadView, DecodeError>(
            request(seq_number, session, opcode, data.len() as usize, offset, data),
        ),
{
    lemma_decode_encode(request(seq_number, session, opcode, data.len() as usize, offset, data));
}

/// A burst-read request declares the chunk size that it asks for and carries
/// no data. Read back by itself it is cut short, unless it asks for nothing.
pub proof fn lemma_read_request_declares_size(
    seq_number: u16,
    session: u8,
    offset: u32,
    size_left: usize,
)
    ensures
        size_left > 0 ==> decode(
            encode(
                request(
                    seq_number,
                    session,
                    MavlinkFtpOpcode::BurstReadFile,
                    chunk_size(size_left),
                    offset,
                    Seq::empty(),
                ),
            ),
        ) == Err::<PayloadView, DecodeError>(DecodeError::TruncatedBody),
{
    let p = request(
        seq_number,
        session,
        MavlinkFtpOpcode::BurstReadFile,
        chunk_size(size_left),
        offset,
        Seq::empty(),
    );
    lemma_encode_layout(p);
    MavlinkFtpOpcode::lemma_code_of_code(p.opcode, 0);
    MavlinkFtpOpcode::lemma_code_of_code(p.req_opcode, 0);
}

/// Encoding what was decoded gives back the bytes that were read: the header
/// and the declared data.
pub proof fn lemma_encode_decode(bytes: Seq<u8>)
    requires
        decode(bytes) is Ok,
    ensures
        encode(decode(bytes)->Ok_0) == bytes.subrange(0, HEADER_LEN + bytes[4]),
{
    let p = decode(bytes)->Ok_0;
    lemma_encode_layout(p);
    MavlinkFtpOpcode::lemma_code_of_code(p.opcode, bytes[3]);
    MavlinkFtpOpcode::lemma_code_of_code(p.req_opcode, bytes[5]);
    lemma_le16_bytes(bytes[0], bytes[1]);
    lemma_le32_bytes(bytes[8], bytes[9], bytes[10], bytes[11]);
    assert(encode(p) =~= bytes.subrange(0, HEADER_LEN + bytes[4]));
}

/// Too few bytes are never a payload: under twelve the header is cut short,
/// and from there to one less than the header declares the body is. The
/// opcodes are looked at before the body, so an unknown one is reported first.
pub proof fn lemma_decode_truncated(bytes: Seq<u8>)
    ensures
        bytes.len() < HEADER_LEN ==> decode(bytes) == Err::<PayloadView, DecodeError>(
            DecodeError::TruncatedHeader,
        ),
        HEADER_LEN <= bytes.len() < HEADER_LEN + bytes[4] ==> decode(bytes) is Err,
        HEADER_LEN <= bytes.len() < HEADER_LEN + bytes[4] && MavlinkFtpOpcode::of_code(bytes[3])
            is Some && MavlinkFtpOpcode::of_code(bytes[5]) is Some ==> decode(bytes) == Err::<
            PayloadView,
            DecodeError,
        >(DecodeError::TruncatedBody),
{
}

impl MavlinkFtpPayload {
    /// The request that closes every session on the remote side.
    pub fn new_reset_sesions(seq_number: u16, session: u8) -> (p: Self)
        ensures
            p@ == request(seq_number, session, MavlinkFtpOpcode::ResetSessions, 0, 0, Seq::empty()),
    {
        Self {
            seq_number,
            session,
            opcode: MavlinkFtpOpcode::ResetSessions,
            size: 0,
            req_opcode: MavlinkFtpOpcode::NoOpcode,
            burst_complete: 0,
            padding: 0,
            offset: 0,
            data: Vec::new(),
        }
    }

    /// The request that closes one session.
    pub fn new_terminate_session(seq_number: u16, session: u8) -> (p: Self)
        ensures
            p@ == request(
                seq_number,
                session,
                MavlinkFtpOpcode::TerminateSession,
                0,
                0,
                Seq::empty(),
            ),
    {
        Self {
            seq_number,
            session,
            opcode: MavlinkFtpOpcode::TerminateSession,
            size: 0,
            req_opcode: MavlinkFtpOpcode::NoOpcode,
            burst_complete: 0,
            padding: 0,
            offset: 0,
            data: Vec::new(),
        }
    }

    /// The request for the entries of a directory from the given entry on.
    /// The path travels as its bytes.
    pub fn new_list_directory(seq_number: u16, session: u8, offset: u32, path: &str) -> (p: Self)
        ensures
            p@ == request(
                seq_number,
                session,
                MavlinkFtpOpcode::ListDirectory,
                path.spec_bytes().len() as usize,
                offset,
                path.spec_bytes(),
            ),
            p.size == path.spec_bytes().len(),
    {
        let bytes = path.as_bytes();
        Self {
            seq_number,
            session,
            opcode: MavlinkFtpOpcode::ListDirectory,
            size: bytes.len(),
            req_opcode: MavlinkFtpOpcode::NoOpcode,
            burst_complete: 0,
            padding: 0,
            offset,
            data: slice_to_vec(bytes),
        }
    }

    /// The request that opens a file for reading. The path travels as its
    /// bytes.
    pub fn new_open_file(seq_number: u16, session: u8, path: &str) -> (p: Self)
        ensures
            p@ == request(
                seq_number,
                session,
                MavlinkFtpOpcode::OpenFileRO,
                path.spec_bytes().len() as usize,
                0,
                path.spec_bytes(),
            ),
            p.size == path.spec_bytes().len(),
    {
        let bytes = path.as_bytes();
        Self {
            seq_number,
            session,
            opcode: MavlinkFtpOpcode::OpenFileRO,
            size: bytes.len(),
            req_opcode: MavlinkFtpOpcode::NoOpcode,
            burst_complete: 0,
            padding: 0,
            offset: 0,
            data: slice_to_vec(bytes),
        }
    }

    /// The request for a burst of chunks of the open file from the given
    /// offset on. It carries no data: its size is the chunk size asked for.
    pub fn new_read_file(seq_number: u16, session: u8, offset: u32, size_left: usize) -> (p: Self)
        ensures
            p@ == request(
                seq_number,
                session,
                MavlinkFtpOpcode::BurstReadFile,
                chunk_size(size_left),
                offset,
                Seq::empty(),
            ),
    {
        Self {
            seq_number,
            session,
            opcode: MavlinkFtpOpcode::BurstReadFile,
            size: if size_left > MAX_DATA_LEN {
                MAX_DATA_LEN
            } else {
                size_left
            },
            req_opcode: MavlinkFtpOpcode::NoOpcode,
            burst_complete: 0,
            padding: 0,
            offset,
            data: Vec::new(),
        }
    }

    /// The request for the checksum that the remote side computes of a file.
    /// The path travels as its bytes.
    pub fn new_calc_file_crc32(seq_number: u16, session: u8, path: &str) -> (p: Self)
        ensures
            p@ == request(
                seq_number,
                session,
                MavlinkFtpOpcode::CalcFileCRC32,
                path.spec_bytes().len() as usize,
                0,
                path.spec_bytes(),
            ),
            p.size == path.spec_bytes().len(),
    {
        let bytes = path.as_bytes();
        Self {
            seq_number,
            session,
            opcode: MavlinkFtpOpcode::CalcFileCRC32,
            size: bytes.len(),
            req_opcode: MavlinkFtpOpcode::NoOpcode,
            burst_complete: 0,
            padding: 0,
            offset: 0,
            data: slice_to_vec(bytes),
        }
    }

    /// The payload on the wire.
    pub fn to_bytes(&self) -> (bytes: Vec<u8>)
        ensures
            bytes@ == encode(self@),
    {
        let mut bytes: Vec<u8> = Vec::new();
        push_le16(&mut bytes, self.seq_number);
        bytes.push(self.session);
        bytes.push(self.opcode.to_u8());
        bytes.push((self.size % 256) as u8);
        bytes.push(self.req_opcode.to_u8());
        bytes.push(self.burst_complete);
        bytes.push(self.padding);
        push_le32(&mut bytes, self.offset);
        assert(bytes@ =~= encode_header(self@));
        bytes.extend_from_slice(self.data.as_slice());
        bytes
    }

    /// Reads a payload from the wire, or says why the bytes are none.
    pub fn from_bytes(bytes: &[u8]) -> (r: Result<MavlinkFtpPayload, DecodeError>)
        ensures
            match r {
                Ok(p) => decode(bytes@) == Ok::<PayloadView, DecodeError>(p@),
                Err(e) => decode(bytes@) == Err::<PayloadView, DecodeError>(e),
            },
    {
        if bytes.len() < HEADER_LEN {
            return Err(DecodeError::TruncatedHeader);
        }
        let opcode = match MavlinkFtpOpcode::from_u8(bytes[3]) {
            Some(op) => op,
            None => {
                return Err(DecodeError::UnknownOpcode);
            },
        };
        let req_opcode = match MavlinkFtpOpcode::from_u8(bytes[5]) {
            Some(op) => op,
            None => {
                return Err(DecodeError::UnknownRequestOpcode);
            },
        };
        let size: usize = bytes[4] as usize;
        if bytes.len() - HEADER_LEN < size {
            return Err(DecodeError::TruncatedBody);
        }
        Ok(
            MavlinkFtpPayload {
                seq_number: read_le16(bytes[0], bytes[1]),
                session: bytes[2],
                opcode,
                size,
                req_opcode,
                burst_complete: bytes[6],
                padding: bytes[7],
                offset: read_le32(bytes[8], bytes[9], bytes[10], bytes[11]),
                data: slice_to_vec(slice_subrange(bytes, HEADER_LEN, HEADER_LEN + size)),
            },
        )
    }
}


/// The checksum of a file's content, as the remote side computes it: the
/// register starts at zero, takes the bytes in order through the lookup table,
/// and is reported without a final inversion.
pub fn mavlink_crc32(buffer: &[u8]) -> (crc: u32)
    ensures
        crc == crc32(buffer@),
{
    let table = crc32_table();
    let mut crc: u32 = 0;
    let mut i: usize = 0;
    while i < buffer.len()
        invariant
            i <= buffer.len(),
            table.len() == 256,
            forall|k: int| 0 <= k < 256 ==> table[k] == crc_shift8(k as u32),
            crc == crc32(buffer@.take(i as int)),
        decreases buffer.len() - i,
    {
        let b: u8 = buffer[i];
        proof {
            lemma_feed_by_table(crc, b);
            assert(buffer@.take(i + 1).drop_last() =~= buffer@.take(i as int));
        }
        let index: usize = ((crc ^ (b as u32)) & 0xff) as usize;
        crc = table[index] ^ (crc >> 8);
        i = i + 1;
    }
    assert(buffer@.take(i as int) =~= buffer@);
    crc
}


/// What a directory entry is.
#[derive(Debug, Copy, Clone, PartialEq, Eq, Structural)]
pub enum EntryType {
    File,
    Directory,
    Skip,
}

/// One entry of a directory listing.
#[derive(Debug)]
pub struct EntryInfo {
    pub entry_type: EntryType,
    pub name: String,
    /// Size in bytes; 0 for a directory.
    pub size: u32,
}

/// A directory entry as a mathematical record: its name is a sequence of
/// characters.
pub ghost struct EntryView {
    pub entry_type: EntryType,
    pub name: Seq<char>,
    pub size: u32,
}

impl View for EntryInfo {
    type V = EntryView;

    open spec fn view(&self) -> EntryView {
        EntryView { entry_type: self.entry_type, name: self.name@, size: self.size }
    }
}

/// What a response has brought: what an operation ended with, or how far
/// it has come.
#[derive(Debug)]
pub enum MavlinkFtpResponse {
    /// Nothing: the response concerned no operation.
    NoResponse,
    /// The session of this number is closed.
    TerminateSession(u8),
    /// All sessions are closed.
    ResetSessions,
    /// The listing is complete: these are its entries.
    ListDirectory(Vec<EntryInfo>),
    /// The checksum that the remote side computed.
    CalcFileCRC32(u32),
    /// The request was accepted, and the operation goes on.
    Ack,
    /// The remote side ended the operation with this reason.
    Nak(MavlinkFtpNak),
}

/// The kind of entry that the first character of a record names.
pub open spec fn entry_kind(c: char) -> Option<EntryType> {
    if c == 'F' {
        Some(EntryType::File)
    } else if c == 'D' {
        Some(EntryType::Directory)
    } else if c == 'S' {
        Some(EntryType::Skip)
    } else {
        None
    }
}

/// The size that a record states in its second field. A record of one
/// field states none, which counts as 0.
pub open spec fn entry_size(record: Seq<char>) -> Option<u32> {
    let head_end = field_end(record, 0);
    if head_end == record.len() {
        Some(0u32)
    } else {
        size_of_field(record.subrange(head_end + 1, field_end(record, head_end + 1)))
    }
}

/// The entry that a record of a directory listing stands for. Its fields are
/// parted by tabs: the first holds the kind of the entry, in one character,
/// and then its name; the second, where there is one, the size in decimal.
/// Further fields are ignored. An unreadable size is reported before an
/// unknown kind.
pub open spec fn parse_entry(record: Seq<char>) -> Result<EntryView, Seq<char>> {
    let head = record.take(field_end(record, 0));
    if entry_size(record) is None {
        Err("Invalid entry size"@)
    } else if head.len() == 0 || entry_kind(head[0]) is None {
        Err("Invalid entry type"@)
    } else {
        Ok(
            EntryView {
                entry_type: entry_kind(head[0])->0,
                name: head.skip(1),
                size: entry_size(record)->0,
            },
        )
    }
}

/// Reads one record of a directory listing.
pub fn parse_directory_entry(entry: &str) -> (r: Result<EntryInfo, &'static str>)
    ensures
        match r {
            Ok(info) => parse_entry(entry@) == Ok::<EntryView, Seq<char>>(info@),
            Err(message) => parse_entry(entry@) == Err::<EntryView, Seq<char>>(message@),
        },
{
    let chars = chars_of(entry);
    let head_end = find_field_end(chars.as_slice(), 0);
    let size: u32 = if head_end == chars.len() {
        0
    } else {
        let size_end = find_field_end(chars.as_slice(), head_end + 1);
        match parse_size(chars.as_slice(), head_end + 1, size_end) {
            Some(size) => size,
            None => {
                return Err("Invalid entry size");
            },
        }
    };
    if head_end == 0 {
        return Err("Invalid entry type");
    }
    let kind: char = chars[0];
    let entry_type = if kind == 'F' {
        EntryType::File
    } else if kind == 'D' {
        EntryType::Directory
    } else if kind == 'S' {
        EntryType::Skip
    } else {
        return Err("Invalid entry type");
    };
    let name = entry.substring_char(1, head_end).to_owned();
    assert(name@ =~= entry@.take(head_end as int).skip(1));
    Ok(EntryInfo { entry_type, name, size })
}


/// What a response has brought, as a mathematical value.
pub ghost enum ResponseView {
    NoResponse,
    TerminateSession(u8),
    ResetSessions,
    ListDirectory(Seq<EntryView>),
    CalcFileCRC32(u32),
    Ack,
    Nak(MavlinkFtpNak),
}

impl View for MavlinkFtpResponse {
    type V = ResponseView;

    open spec fn view(&self) -> ResponseView {
        match *self {
            MavlinkFtpResponse::NoResponse => ResponseView::NoResponse,
            MavlinkFtpResponse::TerminateSession(session) => ResponseView::TerminateSession(
                session,
            ),
            MavlinkFtpResponse::ResetSessions => ResponseView::ResetSessions,
            MavlinkFtpResponse::ListDirectory(entries) => ResponseView::ListDirectory(
                entries@.map_values(|entry: EntryInfo| entry@),
            ),
            MavlinkFtpResponse::CalcFileCRC32(crc) => ResponseView::CalcFileCRC32(crc),
            MavlinkFtpResponse::Ack => ResponseView::Ack,
            MavlinkFtpResponse::Nak(reason) => ResponseView::Nak(reason),
        }
    }
}

} // verus!
