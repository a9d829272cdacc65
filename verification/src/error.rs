use vstd::prelude::*;

verus! {

/// Error returned by the library: the raw OpenThread status code that a call reported.
#[derive(Debug, PartialEq, Eq, Structural, Clone, Copy)]
pub enum Error {
    InternalError(u32),
}

/// What a raw OpenThread status code means as a `Result`: `0` is success,
/// every other code is an error carrying that code.
pub open spec fn spec_check_status(code: u32) -> Result<(), Error> {
    if code == 0 {
        Ok(())
    } else {
        Err(Error::InternalError(code))
    }
}

/// Turns a raw OpenThread status code into a `Result`.
pub fn check_status(code: u32) -> (r: Result<(), Error>)
    ensures
        r == spec_check_status(code),
        code == 0 ==> r == Ok::<(), Error>(()),
        code != 0 ==> r == Err::<(), Error>(Error::InternalError(code)),
{
    if code != 0 {
        Err(Error::InternalError(code))
    } else {
        Ok(())
    }
}


/// Status codes that OpenThread reports.
#[derive(Debug, PartialEq, Eq, Structural, Clone, Copy)]
pub enum OtError {
    /// No error.
    NoError,
    /// Operation failed.
    Failed,
    /// Message was dropped.
    Drop,
    /// Insufficient buffers.
    NoBufs,
    /// No route available.
    NoRoute,
    /// Service is busy and could not service the operation.
    Busy,
    /// Failed to parse message.
    Parse,
    /// Input arguments are invalid.
    InvalidArgs,
    /// Security checks failed.
    Security,
    /// Address resolution requires an address query operation.
    AddressQuery,
    /// Address is not in the source match table.
    NoAddress,
    /// Operation was aborted.
    Abort,
    /// Function or method is not implemented.
    NotImplemented,
    /// Cannot complete due to invalid state.
    InvalidState,
    /// No acknowledgment was received after the maximum number of frame retries.
    NoAck,
    /// A transmission could not take place due to activity on the channel.
    ChannelAccessFailure,
    /// Not currently attached to a Thread Partition.
    Detached,
    /// FCS check failure while receiving.
    FcsCheckFailure,
    /// No frame received.
    NoFrameReceived,
    /// Received a frame from an unknown neighbor.
    UnknownNeighbor,
    /// Received a frame from an invalid source address.
    InvalidSourceAddress,
    /// Received a frame filtered by the address filter.
    AddressFiltered,
    /// Received a frame filtered by the destination address check.
    DestinationAddressFiltered,
    /// The requested item could not be found.
    NotFound,
    /// The operation is already in progress.
    Already,
    /// The creation of an IPv6 address failed.
    Ip6AddressCreationFailure,
    /// Operation prevented by mode flags.
    NotCapable,
    /// CoAP response or acknowledgment, or DNS or SNTP response, not received.
    ResponseTimeout,
    /// Received a duplicated frame.
    Duplicated,
    /// Message is being dropped from the reassembly list due to timeout.
    ReassemblyTimeout,
    /// Message is not a TMF message.
    NotTmf,
    /// Received a non-lowpan data frame.
    NotLowpanDataFrame,
    /// The link margin was too low.
    LinkMarginLow,
    /// Input (CLI) command is invalid.
    InvalidCommand,
    /// Success or error status is pending and not yet known.
    Pending,
    /// Request rejected.
    Rejected,
    /// Generic error.
    Generic,
    /// A code that OpenThread does not define; it is kept as it came.
    Unknown(u32),
}

/// The codes that OpenThread defines.
pub open spec fn is_known_code(code: u32) -> bool {
    ||| code <= 24
    ||| 26 <= code <= 32
    ||| 34 <= code <= 37
    ||| code == 255
}

impl OtError {
    /// The raw code of a status.
    pub open spec fn spec_code(self) -> u32 {
        match self {
            OtError::NoError => 0,
            OtError::Failed => 1,
            OtError::Drop => 2,
            OtError::NoBufs => 3,
            OtError::NoRoute => 4,
            OtError::Busy => 5,
            OtError::Parse => 6,
            OtError::InvalidArgs => 7,
            OtError::Security => 8,
            OtError::AddressQuery => 9,
            OtError::NoAddress => 10,
            OtError::Abort => 11,
            OtError::NotImplemented => 12,
            OtError::InvalidState => 13,
            OtError::NoAck => 14,
            OtError::ChannelAccessFailure => 15,
            OtError::Detached => 16,
            OtError::FcsCheckFailure => 17,
            OtError::NoFrameReceived => 18,
            OtError::UnknownNeighbor => 19,
            OtError::InvalidSourceAddress => 20,
            OtError::AddressFiltered => 21,
            OtError::DestinationAddressFiltered => 22,
            OtError::NotFound => 23,
            OtError::Already => 24,
            OtError::Ip6AddressCreationFailure => 26,
            OtError::NotCapable => 27,
            OtError::ResponseTimeout => 28,
            OtError::Duplicated => 29,
            OtError::ReassemblyTimeout => 30,
            OtError::NotTmf => 31,
            OtError::NotLowpanDataFrame => 32,
            OtError::LinkMarginLow => 34,
            OtError::InvalidCommand => 35,
            OtError::Pending => 36,
            OtError::Rejected => 37,
            OtError::Generic => 255,
            OtError::Unknown(c) => c,
        }
    }

    /// A status is well formed when `Unknown` holds only codes that OpenThread does not define.
    pub open spec fn wf(self) -> bool {
        self matches OtError::Unknown(c) ==> !is_known_code(c)
    }

    /// Maps a raw OpenThread status code to its variant.
    pub fn from_code(value: u32) -> (r: OtError)
        ensures
            r.wf(),
            r.spec_code() == value,
            (r is Unknown) <==> !is_known_code(value),
            r == spec_from_code(value),
    {
        match value {
        0 => OtError::NoError,
        1 => OtError::Failed,
        2 => OtError::Drop,
        3 => OtError::NoBufs,
        4 => OtError::NoRoute,
        5 => OtError::Busy,
        6 => OtError::Parse,
        7 => OtError::InvalidArgs,
        8 => OtError::Security,
        9 => OtError::AddressQuery,
        10 => OtError::NoAddress,
        11 => OtError::Abort,
        12 => OtError::NotImplemented,
        13 => OtError::InvalidState,
        14 => OtError::NoAck,
        15 => OtError::ChannelAccessFailure,
        16 => OtError::Detached,
        17 => OtError::FcsCheckFailure,
        18 => OtError::NoFrameReceived,
        19 => OtError::UnknownNeighbor,
        20 => OtError::InvalidSourceAddress,
        21 => OtError::AddressFiltered,
        22 => OtError::DestinationAddressFiltered,
        23 => OtError::NotFound,
        24 => OtError::Already,
        26 => OtError::Ip6AddressCreationFailure,
        27 => OtError::NotCapable,
        28 => OtError::ResponseTimeout,
        29 => OtError::Duplicated,
        30 => OtError::ReassemblyTimeout,
        31 => OtError::NotTmf,
        32 => OtError::NotLowpanDataFrame,
        34 => OtError::LinkMarginLow,
        35 => OtError::InvalidCommand,
        36 => OtError::Pending,
        37 => OtError::Rejected,
        255 => OtError::Generic,
            _ => OtError::Unknown(value),
        }
    }

    /// The raw OpenThread status code of this status.
    pub fn code(&self) -> (r: u32)
        ensures
            r == self.spec_code(),
    {
        match *self {
            OtError::NoError => 0,
            OtError::Failed => 1,
            OtError::Drop => 2,
            OtError::NoBufs => 3,
            OtError::NoRoute => 4,
            OtError::Busy => 5,
            OtError::Parse => 6,
            OtError::InvalidArgs => 7,
            OtError::Security => 8,
            OtError::AddressQuery => 9,
            OtError::NoAddress => 10,
            OtError::Abort => 11,
            OtError::NotImplemented => 12,
            OtError::InvalidState => 13,
            OtError::NoAck => 14,
            OtError::ChannelAccessFailure => 15,
            OtError::Detached => 16,
            OtError::FcsCheckFailure => 17,
            OtError::NoFrameReceived => 18,
            OtError::UnknownNeighbor => 19,
            OtError::InvalidSourceAddress => 20,
            OtError::AddressFiltered => 21,
            OtError::DestinationAddressFiltered => 22,
            OtError::NotFound => 23,
            OtError::Already => 24,
            OtError::Ip6AddressCreationFailure => 26,
            OtError::NotCapable => 27,
            OtError::ResponseTimeout => 28,
            OtError::Duplicated => 29,
            OtError::ReassemblyTimeout => 30,
            OtError::NotTmf => 31,
            OtError::NotLowpanDataFrame => 32,
            OtError::LinkMarginLow => 34,
            OtError::InvalidCommand => 35,
            OtError::Pending => 36,
            OtError::Rejected => 37,
            OtError::Generic => 255,
            OtError::Unknown(c) => c,
        }
    }
}

/// The status that a raw code stands for.
pub open spec fn spec_from_code(value: u32) -> OtError {
    match value {
            0 => OtError::NoError,
            1 => OtError::Failed,
            2 => OtError::Drop,
            3 => OtError::NoBufs,
            4 => OtError::NoRoute,
            5 => OtError::Busy,
            6 => OtError::Parse,
            7 => OtError::InvalidArgs,
            8 => OtError::Security,
            9 => OtError::AddressQuery,
            10 => OtError::NoAddress,
            11 => OtError::Abort,
            12 => OtError::NotImplemented,
            13 => OtError::InvalidState,
            14 => OtError::NoAck,
            15 => OtError::ChannelAccessFailure,
            16 => OtError::Detached,
            17 => OtError::FcsCheckFailure,
            18 => OtError::NoFrameReceived,
            19 => OtError::UnknownNeighbor,
            20 => OtError::InvalidSourceAddress,
            21 => OtError::AddressFiltered,
            22 => OtError::DestinationAddressFiltered,
            23 => OtError::NotFound,
            24 => OtError::Already,
            26 => OtError::Ip6AddressCreationFailure,
            27 => OtError::NotCapable,
            28 => OtError::ResponseTimeout,
            29 => OtError::Duplicated,
            30 => OtError::ReassemblyTimeout,
            31 => OtError::NotTmf,
            32 => OtError::NotLowpanDataFrame,
            34 => OtError::LinkMarginLow,
            35 => OtError::InvalidCommand,
            36 => OtError::Pending,
            37 => OtError::Rejected,
            255 => OtError::Generic,
        _ => OtError::Unknown(value),
    }
}

/// Two well-formed statuses with the same code are the same status: decoding
/// the code of a status gives that status back.
pub proof fn lemma_code_injective(a: OtError, b: OtError)
    requires
        a.wf(),
        b.wf(),
        a.spec_code() == b.spec_code(),
    ensures
        a == b,
{
}

/// Decoding any code and taking the code of the result gives the code back.
pub proof fn lemma_decode_then_code(value: u32)
    ensures
        spec_from_code(value).spec_code() == value,
        spec_from_code(value).wf(),
{
}

/// Each status stands for OpenThread's code of the same name, and each of
/// those codes decodes to its status; a code that OpenThread leaves
/// undefined decodes to `Unknown` holding it.
pub proof fn lemma_status_codes(value: u32)
    ensures
        OtError::NoError.spec_code() == 0,
        spec_from_code(0) == OtError::NoError,
        OtError::Failed.spec_code() == 1,
        spec_from_code(1) == OtError::Failed,
        OtError::Drop.spec_code() == 2,
        spec_from_code(2) == OtError::Drop,
        OtError::NoBufs.spec_code() == 3,
        spec_from_code(3) == OtError::NoBufs,
        OtError::NoRoute.spec_code() == 4,
        spec_from_code(4) == OtError::NoRoute,
        OtError::Busy.spec_code() == 5,
        spec_from_code(5) == OtError::Busy,
        OtError::Parse.spec_code() == 6,
        spec_from_code(6) == OtError::Parse,
        OtError::InvalidArgs.spec_code() == 7,
        spec_from_code(7) == OtError::InvalidArgs,
        OtError::Security.spec_code() == 8,
        spec_from_code(8) == OtError::Security,
        OtError::AddressQuery.spec_code() == 9,
        spec_from_code(9) == OtError::AddressQuery,
        OtError::NoAddress.spec_code() == 10,
        spec_from_code(10) == OtError::NoAddress,
        OtError::Abort.spec_code() == 11,
        spec_from_code(11) == OtError::Abort,
        OtError::NotImplemented.spec_code() == 12,
        spec_from_code(12) == OtError::NotImplemented,
        OtError::InvalidState.spec_code() == 13,
        spec_from_code(13) == OtError::InvalidState,
        OtError::NoAck.spec_code() == 14,
        spec_from_code(14) == OtError::NoAck,
        OtError::ChannelAccessFailure.spec_code() == 15,
        spec_from_code(15) == OtError::ChannelAccessFailure,
        OtError::Detached.spec_code() == 16,
        spec_from_code(16) == OtError::Detached,
        OtError::FcsCheckFailure.spec_code() == 17,
        spec_from_code(17) == OtError::FcsCheckFailure,
        OtError::NoFrameReceived.spec_code() == 18,
        spec_from_code(18) == OtError::NoFrameReceived,
        OtError::UnknownNeighbor.spec_code() == 19,
        spec_from_code(19) == OtError::UnknownNeighbor,
        OtError::InvalidSourceAddress.spec_code() == 20,
        spec_from_code(20) == OtError::InvalidSourceAddress,
        OtError::AddressFiltered.spec_code() == 21,
        spec_from_code(21) == OtError::AddressFiltered,
        OtError::DestinationAddressFiltered.spec_code() == 22,
        spec_from_code(22) == OtError::DestinationAddressFiltered,
        OtError::NotFound.spec_code() == 23,
        spec_from_code(23) == OtError::NotFound,
        OtError::Already.spec_code() == 24,
        spec_from_code(24) == OtError::Already,
        OtError::Ip6AddressCreationFailure.spec_code() == 26,
        spec_from_code(26) == OtError::Ip6AddressCreationFailure,
        OtError::NotCapable.spec_code() == 27,
        spec_from_code(27) == OtError::NotCapable,
        OtError::ResponseTimeout.spec_code() == 28,
        spec_from_code(28) == OtError::ResponseTimeout,
        OtError::Duplicated.spec_code() == 29,
        spec_from_code(29) == OtError::Duplicated,
        OtError::ReassemblyTimeout.spec_code() == 30,
        spec_from_code(30) == OtError::ReassemblyTimeout,
        OtError::NotTmf.spec_code() == 31,
        spec_from_code(31) == OtError::NotTmf,
        OtError::NotLowpanDataFrame.spec_code() == 32,
        spec_from_code(32) == OtError::NotLowpanDataFrame,
        OtError::LinkMarginLow.spec_code() == 34,
        spec_from_code(34) == OtError::LinkMarginLow,
        OtError::InvalidCommand.spec_code() == 35,
        spec_from_code(35) == OtError::InvalidCommand,
        OtError::Pending.spec_code() == 36,
        spec_from_code(36) == OtError::Pending,
        OtError::Rejected.spec_code() == 37,
        spec_from_code(37) == OtError::Rejected,
        OtError::Generic.spec_code() == 255,
        spec_from_code(255) == OtError::Generic,
        !is_known_code(value) ==> spec_from_code(value) == OtError::Unknown(value),
        OtError::Unknown(value).spec_code() == value,
{
}

/// A status code is `Ok` exactly when it is zero; every other code is an
/// error carrying that very code.
pub proof fn lemma_check_status(code: u32)
    ensures
        (spec_check_status(code) is Ok) <==> code == 0,
        code != 0 ==> spec_check_status(code) == Err::<(), Error>(Error::InternalError(code)),
{
}

impl From<u32> for OtError {
    fn from(value: u32) -> (r: Self) {
        OtError::from_code(value)
    }
}

impl vstd::std_specs::convert::FromSpecImpl<u32> for OtError {
    open spec fn obeys_from_spec() -> bool {
        true
    }

    open spec fn from_spec(v: u32) -> Self {
        spec_from_code(v)
    }
}

} // verus!
