//! The protocol's vocabulary: package identifiers, command codes, the
//! sensor's confirmation codes, and the data structures it reports.
use vstd::prelude::*;

use crate::bytes::{from_be16, from_be32, u16_from_be, u32_from_be};
use crate::text::{digits, push_digits, push_padded_digits, zero_padded};
use vstd::string::StringExecFns;

verus! {

/// Package identifier
#[derive(Debug, Clone, Copy, PartialEq, Eq, Structural)]
pub enum Pid {
    Command,
    Data,
    Ack,
    End,
}

impl Pid {
    /// The byte that identifies the package kind on the wire.
    pub open spec fn spec_code(self) -> u8 {
        match self {
            Pid::Command => 0x01,
            Pid::Data => 0x02,
            Pid::Ack => 0x07,
            Pid::End => 0x08,
        }
    }

    /// The package kind that the byte `b` names, if any.
    pub open spec fn spec_from_code(b: u8) -> Option<Pid> {
        if b == 0x01 {
            Some(Pid::Command)
        } else if b == 0x02 {
            Some(Pid::Data)
        } else if b == 0x07 {
            Some(Pid::Ack)
        } else if b == 0x08 {
            Some(Pid::End)
        } else {
            None
        }
    }

    /// The byte that identifies the package kind on the wire.
    pub fn code(&self) -> (c: u8)
        ensures
            c == self.spec_code(),
    {
        match self {
            Pid::Command => 0x01,
            Pid::Data => 0x02,
            Pid::Ack => 0x07,
            Pid::End => 0x08,
        }
    }

    /// Reads a package identifier byte.
    pub fn from_code(b: u8) -> (r: Option<Pid>)
        ensures
            r == Self::spec_from_code(b),
    {
        if b == 0x01 {
            Some(Pid::Command)
        } else if b == 0x02 {
            Some(Pid::Data)
        } else if b == 0x07 {
            Some(Pid::Ack)
        } else if b == 0x08 {
            Some(Pid::End)
        } else {
            None
        }
    }
}

/// Every package identifier is read back from its own byte, and only a
/// package identifier's byte is read as one.
pub proof fn lemma_pid_code_roundtrip(p: Pid, b: u8)
    ensures
        Pid::spec_from_code(p.spec_code()) == Some(p),
        Pid::spec_from_code(b) matches Some(q) ==> q.spec_code() == b,
{
}

/// Instruction codes understood by the sensor
#[derive(Debug, Clone, Copy, PartialEq, Eq, Structural)]
pub enum CommandCode {
    SearchLibrary,
    VfyPwd,
    SetPwd,
    LedCtrl,
    CheckSensor,
    GenImg,
    Img2Tz,
    GenTemplate,
    StoreTemplate,
    DeleteTemplate,
    ClearLibrary,
    ReadSysPara,
    GetTemplateCount,
    GetSlotTable,
    GenImgEx,
}

impl CommandCode {
    /// The instruction byte of the command.
    pub open spec fn spec_code(self) -> u8 {
        match self {
            CommandCode::SearchLibrary => 0x04,
            CommandCode::VfyPwd => 0x13,
            CommandCode::SetPwd => 0x12,
            CommandCode::LedCtrl => 0x35,
            CommandCode::CheckSensor => 0x36,
            CommandCode::GenImg => 0x01,
            CommandCode::Img2Tz => 0x02,
            CommandCode::GenTemplate => 0x05,
            CommandCode::StoreTemplate => 0x06,
            CommandCode::DeleteTemplate => 0x0C,
            CommandCode::ClearLibrary => 0x0D,
            CommandCode::ReadSysPara => 0x0F,
            CommandCode::GetTemplateCount => 0x1D,
            CommandCode::GetSlotTable => 0x1F,
            CommandCode::GenImgEx => 0x28,
        }
    }

    /// The instruction byte of the command.
    pub fn code(&self) -> (c: u8)
        ensures
            c == self.spec_code(),
    {
        match self {
            CommandCode::SearchLibrary => 0x04,
            CommandCode::VfyPwd => 0x13,
            CommandCode::SetPwd => 0x12,
            CommandCode::LedCtrl => 0x35,
            CommandCode::CheckSensor => 0x36,
            CommandCode::GenImg => 0x01,
            CommandCode::Img2Tz => 0x02,
            CommandCode::GenTemplate => 0x05,
            CommandCode::StoreTemplate => 0x06,
            CommandCode::DeleteTemplate => 0x0C,
            CommandCode::ClearLibrary => 0x0D,
            CommandCode::ReadSysPara => 0x0F,
            CommandCode::GetTemplateCount => 0x1D,
            CommandCode::GetSlotTable => 0x1F,
            CommandCode::GenImgEx => 0x28,
        }
    }
}

/// Codes returned by the sensor
#[derive(Debug, Clone, Copy, PartialEq, Eq, Structural)]
pub enum ConfirmationCode {
    /// Generic success / status ok code
    Success,
    DataErr,
    NoFinger,
    EnrollErr,
    ErrTooNoisyData,
    ErrTooLittleData,
    ComparisonFailed,
    SearchFailed,
    FileCombinationFailed,
    PageIdBeyondLibrary,
    TemplateInvalid,
    ErrDeletingTemplates,
    ErrClearingLibrary,
    WrongPwd,
    NoValidImage,
    ErrorWritingFlash,
    SensorAbnormal,
}

impl ConfirmationCode {
    /// The byte by which the sensor reports this code.
    pub open spec fn spec_code(self) -> u8 {
        match self {
            ConfirmationCode::Success => 0x00,
            ConfirmationCode::DataErr => 0x01,
            ConfirmationCode::NoFinger => 0x02,
            ConfirmationCode::EnrollErr => 0x03,
            ConfirmationCode::ErrTooNoisyData => 0x06,
            ConfirmationCode::ErrTooLittleData => 0x07,
            ConfirmationCode::ComparisonFailed => 0x08,
            ConfirmationCode::SearchFailed => 0x09,
            ConfirmationCode::FileCombinationFailed => 0x0A,
            ConfirmationCode::PageIdBeyondLibrary => 0x0B,
            ConfirmationCode::TemplateInvalid => 0x0C,
            ConfirmationCode::ErrDeletingTemplates => 0x10,
            ConfirmationCode::ErrClearingLibrary => 0x11,
            ConfirmationCode::WrongPwd => 0x13,
            ConfirmationCode::NoValidImage => 0x15,
            ConfirmationCode::ErrorWritingFlash => 0x18,
            ConfirmationCode::SensorAbnormal => 0x29,
        }
    }

    /// The code that the byte `b` stands for, if any.
    pub open spec fn spec_from_code(b: u8) -> Option<ConfirmationCode> {
        if b == 0x00 {
            Some(ConfirmationCode::Success)
        } else if b == 0x01 {
            Some(ConfirmationCode::DataErr)
        } else if b == 0x02 {
            Some(ConfirmationCode::NoFinger)
        } else if b == 0x03 {
            Some(ConfirmationCode::EnrollErr)
        } else if b == 0x06 {
            Some(ConfirmationCode::ErrTooNoisyData)
        } else if b == 0x07 {
            Some(ConfirmationCode::ErrTooLittleData)
        } else if b == 0x08 {
            Some(ConfirmationCode::ComparisonFailed)
        } else if b == 0x09 {
            Some(ConfirmationCode::SearchFailed)
        } else if b == 0x0A {
            Some(ConfirmationCode::FileCombinationFailed)
        } else if b == 0x0B {
            Some(ConfirmationCode::PageIdBeyondLibrary)
        } else if b == 0x0C {
            Some(ConfirmationCode::TemplateInvalid)
        } else if b == 0x10 {
            Some(ConfirmationCode::ErrDeletingTemplates)
        } else if b == 0x11 {
            Some(ConfirmationCode::ErrClearingLibrary)
        } else if b == 0x13 {
            Some(ConfirmationCode::WrongPwd)
        } else if b == 0x15 {
            Some(ConfirmationCode::NoValidImage)
        } else if b == 0x18 {
            Some(ConfirmationCode::ErrorWritingFlash)
        } else if b == 0x29 {
            Some(ConfirmationCode::SensorAbnormal)
        } else {
            None
        }
    }

    /// The byte by which the sensor reports this code.
    pub fn code(&self) -> (c: u8)
        ensures
            c == self.spec_code(),
    {
        match self {
            ConfirmationCode::Success => 0x00,
            ConfirmationCode::DataErr => 0x01,
            ConfirmationCode::NoFinger => 0x02,
            ConfirmationCode::EnrollErr => 0x03,
            ConfirmationCode::ErrTooNoisyData => 0x06,
            ConfirmationCode::ErrTooLittleData => 0x07,
            ConfirmationCode::ComparisonFailed => 0x08,
            ConfirmationCode::SearchFailed => 0x09,
            ConfirmationCode::FileCombinationFailed => 0x0A,
            ConfirmationCode::PageIdBeyondLibrary => 0x0B,
            ConfirmationCode::TemplateInvalid => 0x0C,
            ConfirmationCode::ErrDeletingTemplates => 0x10,
            ConfirmationCode::ErrClearingLibrary => 0x11,
            ConfirmationCode::WrongPwd => 0x13,
            ConfirmationCode::NoValidImage => 0x15,
            ConfirmationCode::ErrorWritingFlash => 0x18,
            ConfirmationCode::SensorAbnormal => 0x29,
        }
    }

    /// Reads a confirmation code byte; `None` for a byte that names no code.
    pub fn from_code(b: u8) -> (r: Option<ConfirmationCode>)
        ensures
            r == Self::spec_from_code(b),
    {
        if b == 0x00 {
            Some(ConfirmationCode::Success)
        } else if b == 0x01 {
            Some(ConfirmationCode::DataErr)
        } else if b == 0x02 {
            Some(ConfirmationCode::NoFinger)
        } else if b == 0x03 {
            Some(ConfirmationCode::EnrollErr)
        } else if b == 0x06 {
            Some(ConfirmationCode::ErrTooNoisyData)
        } else if b == 0x07 {
            Some(ConfirmationCode::ErrTooLittleData)
        } else if b == 0x08 {
            Some(ConfirmationCode::ComparisonFailed)
        } else if b == 0x09 {
            Some(ConfirmationCode::SearchFailed)
        } else if b == 0x0A {
            Some(ConfirmationCode::FileCombinationFailed)
        } else if b == 0x0B {
            Some(ConfirmationCode::PageIdBeyondLibrary)
        } else if b == 0x0C {
            Some(ConfirmationCode::TemplateInvalid)
        } else if b == 0x10 {
            Some(ConfirmationCode::ErrDeletingTemplates)
        } else if b == 0x11 {
            Some(ConfirmationCode::ErrClearingLibrary)
        } else if b == 0x13 {
            Some(ConfirmationCode::WrongPwd)
        } else if b == 0x15 {
            Some(ConfirmationCode::NoValidImage)
        } else if b == 0x18 {
            Some(ConfirmationCode::ErrorWritingFlash)
        } else if b == 0x29 {
            Some(ConfirmationCode::SensorAbnormal)
        } else {
            None
        }
    }

    /// Whether the code reports a failure: every code but `Success`.
    pub open spec fn spec_is_error(self) -> bool {
        self != ConfirmationCode::Success
    }

    /// Whether the code reports a failure: every code but `Success`.
    pub fn is_error(&self) -> (r: bool)
        ensures
            r == self.spec_is_error(),
    {
        !matches!(self, ConfirmationCode::Success)
    }

    /// A description of the code for people.
    pub open spec fn spec_message(self) -> Seq<char> {
        match self {
            ConfirmationCode::Success => "Ok"@,
            ConfirmationCode::DataErr => "Error when receiving data package"@,
            ConfirmationCode::NoFinger => "No finger on the sensor"@,
            ConfirmationCode::EnrollErr => "Failed to enroll finger"@,
            ConfirmationCode::ErrTooNoisyData => "Failed to generate character file: Too much noise"@,
            ConfirmationCode::ErrTooLittleData => "Failed to generate character file: Lack of features"@,
            ConfirmationCode::ComparisonFailed => "No Match: Comparison of two finger templates"@,
            ConfirmationCode::SearchFailed => "No Match: Searching the template library for the fingerprint"@,
            ConfirmationCode::FileCombinationFailed => "Failed to combine the character files"@,
            ConfirmationCode::PageIdBeyondLibrary => "Adressing a page id beyond the fingerprint library"@,
            ConfirmationCode::TemplateInvalid => "Error reading template form libary: template is invalid"@,
            ConfirmationCode::WrongPwd => "Wrong password"@,
            ConfirmationCode::SensorAbnormal => "Sensor status is abnormal"@,
            ConfirmationCode::NoValidImage => "Finger image not valid"@,
            ConfirmationCode::ErrorWritingFlash => "Write to flash failed"@,
            ConfirmationCode::ErrClearingLibrary => "Failed to clear the template library"@,
            ConfirmationCode::ErrDeletingTemplates => "Failed to delete the specified template(s)"@,
        }
    }

    /// A description of the code for people (what the code's `Display` shows).
    pub fn message(&self) -> (r: &'static str)
        ensures
            r@ == self.spec_message(),
    {
        match self {
            ConfirmationCode::Success => "Ok",
            ConfirmationCode::DataErr => "Error when receiving data package",
            ConfirmationCode::NoFinger => "No finger on the sensor",
            ConfirmationCode::EnrollErr => "Failed to enroll finger",
            ConfirmationCode::ErrTooNoisyData => "Failed to generate character file: Too much noise",
            ConfirmationCode::ErrTooLittleData => "Failed to generate character file: Lack of features",
            ConfirmationCode::ComparisonFailed => "No Match: Comparison of two finger templates",
            ConfirmationCode::SearchFailed => "No Match: Searching the template library for the fingerprint",
            ConfirmationCode::FileCombinationFailed => "Failed to combine the character files",
            ConfirmationCode::PageIdBeyondLibrary => "Adressing a page id beyond the fingerprint library",
            ConfirmationCode::TemplateInvalid => "Error reading template form libary: template is invalid",
            ConfirmationCode::WrongPwd => "Wrong password",
            ConfirmationCode::SensorAbnormal => "Sensor status is abnormal",
            ConfirmationCode::NoValidImage => "Finger image not valid",
            ConfirmationCode::ErrorWritingFlash => "Write to flash failed",
            ConfirmationCode::ErrClearingLibrary => "Failed to clear the template library",
            ConfirmationCode::ErrDeletingTemplates => "Failed to delete the specified template(s)",
        }
    }
}

/// Every confirmation code is read back from its own byte, and only a
/// confirmation code's byte is read as one.
pub proof fn lemma_confirmation_code_roundtrip(c: ConfirmationCode, b: u8)
    ensures
        ConfirmationCode::spec_from_code(c.spec_code()) == Some(c),
        ConfirmationCode::spec_from_code(b) matches Some(d) ==> d.spec_code() == b,
{
}

/// Different confirmation codes are described by different messages.
pub proof fn lemma_messages_distinct(c1: ConfirmationCode, c2: ConfirmationCode)
    ensures
        c1 != c2 ==> c1.spec_message() != c2.spec_message(),
{
    reveal_strlit("Ok");
    reveal_strlit("Error when receiving data package");
    reveal_strlit("No finger on the sensor");
    reveal_strlit("Failed to enroll finger");
    reveal_strlit("Failed to generate character file: Too much noise");
    reveal_strlit("Failed to generate character file: Lack of features");
    reveal_strlit("No Match: Comparison of two finger templates");
    reveal_strlit("No Match: Searching the template library for the fingerprint");
    reveal_strlit("Failed to combine the character files");
    reveal_strlit("Adressing a page id beyond the fingerprint library");
    reveal_strlit("Error reading template form libary: template is invalid");
    reveal_strlit("Wrong password");
    reveal_strlit("Sensor status is abnormal");
    reveal_strlit("Finger image not valid");
    reveal_strlit("Write to flash failed");
    reveal_strlit("Failed to clear the template library");
    reveal_strlit("Failed to delete the specified template(s)");
    if c1 != c2 && c1.spec_message() == c2.spec_message() {
        assert(c1.spec_message().len() == c2.spec_message().len());
        assert(c1.spec_message()[0] == c2.spec_message()[0]);
    }
}

/// The datasheet byte of every package identifier: command 0x01, data 0x02,
/// acknowledge 0x07, end of data 0x08; these four bytes, and only they,
/// are read as package identifiers, each as its own.
pub proof fn lemma_pid_bytes()
    ensures
        Pid::Command.spec_code() == 0x01,
        Pid::Data.spec_code() == 0x02,
        Pid::Ack.spec_code() == 0x07,
        Pid::End.spec_code() == 0x08,
        Pid::spec_from_code(0x01) == Some(Pid::Command),
        Pid::spec_from_code(0x02) == Some(Pid::Data),
        Pid::spec_from_code(0x07) == Some(Pid::Ack),
        Pid::spec_from_code(0x08) == Some(Pid::End),
        forall|b: u8|
            #![trigger Pid::spec_from_code(b)]
            Pid::spec_from_code(b) is Some <==> (b == 0x01 || b == 0x02 || b == 0x07 || b == 0x08),
{
}

/// The datasheet byte of every instruction.
pub proof fn lemma_command_code_bytes()
    ensures
        CommandCode::SearchLibrary.spec_code() == 0x04,
        CommandCode::VfyPwd.spec_code() == 0x13,
        CommandCode::SetPwd.spec_code() == 0x12,
        CommandCode::LedCtrl.spec_code() == 0x35,
        CommandCode::CheckSensor.spec_code() == 0x36,
        CommandCode::GenImg.spec_code() == 0x01,
        CommandCode::Img2Tz.spec_code() == 0x02,
        CommandCode::GenTemplate.spec_code() == 0x05,
        CommandCode::StoreTemplate.spec_code() == 0x06,
        CommandCode::DeleteTemplate.spec_code() == 0x0C,
        CommandCode::ClearLibrary.spec_code() == 0x0D,
        CommandCode::ReadSysPara.spec_code() == 0x0F,
        CommandCode::GetTemplateCount.spec_code() == 0x1D,
        CommandCode::GetSlotTable.spec_code() == 0x1F,
        CommandCode::GenImgEx.spec_code() == 0x28,
{
}

/// The datasheet byte of every confirmation code; these bytes, and only
/// they, are read as confirmation codes, each as its own; and only the code
/// 0x00 reports success.
pub proof fn lemma_confirmation_code_bytes()
    ensures
        ConfirmationCode::Success.spec_code() == 0x00,
        ConfirmationCode::DataErr.spec_code() == 0x01,
        ConfirmationCode::NoFinger.spec_code() == 0x02,
        ConfirmationCode::EnrollErr.spec_code() == 0x03,
        ConfirmationCode::ErrTooNoisyData.spec_code() == 0x06,
        ConfirmationCode::ErrTooLittleData.spec_code() == 0x07,
        ConfirmationCode::ComparisonFailed.spec_code() == 0x08,
        ConfirmationCode::SearchFailed.spec_code() == 0x09,
        ConfirmationCode::FileCombinationFailed.spec_code() == 0x0A,
        ConfirmationCode::PageIdBeyondLibrary.spec_code() == 0x0B,
        ConfirmationCode::TemplateInvalid.spec_code() == 0x0C,
        ConfirmationCode::ErrDeletingTemplates.spec_code() == 0x10,
        ConfirmationCode::ErrClearingLibrary.spec_code() == 0x11,
        ConfirmationCode::WrongPwd.spec_code() == 0x13,
        ConfirmationCode::NoValidImage.spec_code() == 0x15,
        ConfirmationCode::ErrorWritingFlash.spec_code() == 0x18,
        ConfirmationCode::SensorAbnormal.spec_code() == 0x29,
        ConfirmationCode::spec_from_code(0x06) == Some(ConfirmationCode::ErrTooNoisyData),
        ConfirmationCode::spec_from_code(0x07) == Some(ConfirmationCode::ErrTooLittleData),
        ConfirmationCode::spec_from_code(0x09) == Some(ConfirmationCode::SearchFailed),
        forall|b: u8|
            #![trigger ConfirmationCode::spec_from_code(b)]
            ConfirmationCode::spec_from_code(b) is Some <==> (b == 0x00 || b == 0x01 || b == 0x02
                || b == 0x03 || b == 0x06 || b == 0x07 || b == 0x08 || b == 0x09 || b == 0x0A || b
                == 0x0B || b == 0x0C || b == 0x10 || b == 0x11 || b == 0x13 || b == 0x15 || b
                == 0x18 || b == 0x29),
        forall|b: u8|
            #![trigger ConfirmationCode::spec_from_code(b)]
            ConfirmationCode::spec_from_code(b) matches Some(c) ==> c.spec_code() == b,
        forall|c: ConfirmationCode| #[trigger] c.spec_is_error() <==> c.spec_code() != 0x00,
{
}

/// Available character buffers
///
/// _Note:_ The datasheet mentions up to six character buffers,
///         but all commands only specify `CharBuffer1` and `CharBuffer2` as valid.
#[derive(Debug, Clone, Copy, PartialEq, Eq, Structural)]
pub enum CharacterBuffer {
    Buffer1,
    Buffer2,
}

impl CharacterBuffer {
    /// The buffer number sent to the sensor.
    pub open spec fn spec_code(self) -> u8 {
        match self {
            CharacterBuffer::Buffer1 => 0x01,
            CharacterBuffer::Buffer2 => 0x02,
        }
    }

    /// The buffer number sent to the sensor.
    pub fn code(&self) -> (c: u8)
        ensures
            c == self.spec_code(),
    {
        match self {
            CharacterBuffer::Buffer1 => 0x01,
            CharacterBuffer::Buffer2 => 0x02,
        }
    }
}


/// Why reading an exact number of bytes from the serial line failed
#[derive(Debug, Clone, Copy, PartialEq, Eq, Structural)]
pub enum ReadError<E> {
    /// The line ended before the requested bytes were read.
    UnexpectedEof,
    /// The line reported an error.
    Other(E),
}

/// Errors of a command exchange with the sensor
#[derive(Debug)]
#[verifier::reject_recursive_types(E)]
pub enum Error<E> {
    /// UART read error
    ReadErr(ReadError<E>),
    /// UART write error
    WriteErr(E),
    /// Buffer too small for the announced package
    BufTooSmall,
    /// Unexpected package identifier
    InvalidPid,
    /// The returned header is invalid
    InvalidHeader,
    /// Checksum mismatch
    Checksum,
    /// The returned data is invalid
    InvalidContent,
    /// The sensor returned an error confirmation code
    CommandErr(ConfirmationCode),
    /// One of the parameters was invalid
    InvalidParameter,
}

/// The buffer numbers of the character buffers: 1 and 2.
pub proof fn lemma_character_buffer_bytes()
    ensures
        CharacterBuffer::Buffer1.spec_code() == 0x01,
        CharacterBuffer::Buffer2.spec_code() == 0x02,
{
}

impl<E> Error<E> {
    /// A description of the error for people (what the error's `Display`
    /// shows); `line_detail` names the kind of error that the serial line
    /// reported, for a read or write error.
    pub open spec fn spec_message(&self, line_detail: Seq<char>) -> Seq<char> {
        match self {
            Error::ReadErr(ReadError::UnexpectedEof) => "UART read error: unexpected EOF"@,
            Error::ReadErr(ReadError::Other(_)) => "UART read error: "@ + line_detail,
            Error::WriteErr(_) => "UART write error: "@ + line_detail,
            Error::BufTooSmall => "Buffer to small"@,
            Error::InvalidPid => "Unexpected package identifier"@,
            Error::InvalidHeader => "Invalid header received"@,
            Error::Checksum => "Checksum mismatch"@,
            Error::InvalidContent => "Unexpected data received"@,
            Error::CommandErr(code) => "Sensor returned error: "@ + code.spec_message(),
            Error::InvalidParameter => "Invalid parameter"@,
        }
    }

    /// A description of the error for people; `line_detail` names the kind
    /// of error that the serial line reported, for a read or write error.
    pub fn message(&self, line_detail: &str) -> (r: String)
        ensures
            r@ == self.spec_message(line_detail@),
    {
        match self {
            Error::ReadErr(ReadError::UnexpectedEof) => String::from_str(
                "UART read error: unexpected EOF",
            ),
            Error::ReadErr(ReadError::Other(_)) => String::from_str("UART read error: ").concat(
                line_detail,
            ),
            Error::WriteErr(_) => String::from_str("UART write error: ").concat(line_detail),
            Error::BufTooSmall => String::from_str("Buffer to small"),
            Error::InvalidPid => String::from_str("Unexpected package identifier"),
            Error::InvalidHeader => String::from_str("Invalid header received"),
            Error::Checksum => String::from_str("Checksum mismatch"),
            Error::InvalidContent => String::from_str("Unexpected data received"),
            Error::CommandErr(code) => String::from_str("Sensor returned error: ").concat(
                code.message(),
            ),
            Error::InvalidParameter => String::from_str("Invalid parameter"),
        }
    }
}

impl<E> From<ReadError<E>> for Error<E> {
    /// A failed read.
    fn from(value: ReadError<E>) -> (r: Self) {
        Error::ReadErr(value)
    }
}

impl<E> vstd::std_specs::convert::FromSpecImpl<ReadError<E>> for Error<E> {
    open spec fn obeys_from_spec() -> bool {
        true
    }

    open spec fn from_spec(value: ReadError<E>) -> Self {
        Error::ReadErr(value)
    }
}

impl<E> From<E> for Error<E> {
    /// A failed write.
    fn from(value: E) -> (r: Self) {
        Error::WriteErr(value)
    }
}

impl<E> vstd::std_specs::convert::FromSpecImpl<E> for Error<E> {
    open spec fn obeys_from_spec() -> bool {
        true
    }

    open spec fn from_spec(value: E) -> Self {
        Error::WriteErr(value)
    }
}

/// The result of a library search, as the sensor reports it
#[derive(Debug, Clone, Copy, PartialEq, Eq, Structural)]
pub struct SearchResult {
    pub code: ConfirmationCode,
    pub page_id: u16,
    pub score: u16,
}

impl SearchResult {
    /// The search result that `data` encodes: exactly five bytes, a valid
    /// confirmation code followed by the page id and the score, high byte first.
    pub open spec fn spec_parse(data: Seq<u8>) -> Option<SearchResult> {
        if data.len() != 5 {
            None
        } else {
            match ConfirmationCode::spec_from_code(data[0]) {
                None => None,
                Some(code) => Some(
                    SearchResult {
                        code,
                        page_id: from_be16(data[1], data[2]),
                        score: from_be16(data[3], data[4]),
                    },
                ),
            }
        }
    }

    /// Reads a search result from a reply's data.
    pub fn parse(data: &[u8]) -> (r: Option<SearchResult>)
        ensures
            r == Self::spec_parse(data@),
    {
        if data.len() != 5 {
            return None;
        }
        match ConfirmationCode::from_code(data[0]) {
            None => None,
            Some(code) => Some(
                SearchResult {
                    code,
                    page_id: u16_from_be(data[1], data[2]),
                    score: u16_from_be(data[3], data[4]),
                },
            ),
        }
    }
}

/// Sensor system parameters
///
/// Can be obtained by reading the current system parameters from the sensor.
#[derive(Debug, Clone, Copy, PartialEq, Eq, Structural)]
pub struct SystemParameters {
    status: u16,
    /// System identification code, fixed 0x0009
    id: u16,
    finger_library_size: u16,
    security_level: u16,
    device_addr: u32,
    max_packet_size: u16,
    baud_rate: u16,
}

impl SystemParameters {
    pub closed spec fn spec_status(self) -> u16 {
        self.status
    }

    pub closed spec fn spec_id(self) -> u16 {
        self.id
    }

    pub closed spec fn spec_library_size(self) -> u16 {
        self.finger_library_size
    }

    pub closed spec fn spec_security_level(self) -> u16 {
        self.security_level
    }

    pub closed spec fn spec_device_address(self) -> u32 {
        self.device_addr
    }

    /// The raw packet size setting (0 to 3 for 32 to 256 bytes).
    pub closed spec fn spec_packet_size_setting(self) -> u16 {
        self.max_packet_size
    }

    /// The raw baud rate setting (a multiple of 9600 baud).
    pub closed spec fn spec_baud_setting(self) -> u16 {
        self.baud_rate
    }

    /// The parameters that the last 16 bytes of `data` encode, each field
    /// high byte first; `None` when `data` is shorter than that.
    pub closed spec fn spec_from_suffix(data: Seq<u8>) -> Option<SystemParameters> {
        if data.len() < 16 {
            None
        } else {
            let s = data.len() - 16;
            Some(
                SystemParameters {
                    status: from_be16(data[s], data[s + 1]),
                    id: from_be16(data[s + 2], data[s + 3]),
                    finger_library_size: from_be16(data[s + 4], data[s + 5]),
                    security_level: from_be16(data[s + 6], data[s + 7]),
                    device_addr: from_be32(data[s + 8], data[s + 9], data[s + 10], data[s + 11]),
                    max_packet_size: from_be16(data[s + 12], data[s + 13]),
                    baud_rate: from_be16(data[s + 14], data[s + 15]),
                },
            )
        }
    }

    /// The parameters that the last 16 bytes of `data` encode, field by field.
    pub proof fn lemma_from_suffix(data: Seq<u8>)
        ensures
            Self::spec_from_suffix(data) is None <==> data.len() < 16,
            Self::spec_from_suffix(data) matches Some(p) ==> {
                let s = data.len() - 16;
                &&& p.spec_status() == from_be16(data[s], data[s + 1])
                &&& p.spec_id() == from_be16(data[s + 2], data[s + 3])
                &&& p.spec_library_size() == from_be16(data[s + 4], data[s + 5])
                &&& p.spec_security_level() == from_be16(data[s + 6], data[s + 7])
                &&& p.spec_device_address() == from_be32(
                    data[s + 8],
                    data[s + 9],
                    data[s + 10],
                    data[s + 11],
                )
                &&& p.spec_packet_size_setting() == from_be16(data[s + 12], data[s + 13])
                &&& p.spec_baud_setting() == from_be16(data[s + 14], data[s + 15])
            },
    {
    }

    /// Reads the system parameters from the last 16 bytes of `data`; see
    /// [`SystemParameters::lemma_from_suffix`] for the fields.
    pub fn from_suffix(data: &[u8]) -> (r: Option<SystemParameters>)
        ensures
            r == Self::spec_from_suffix(data@),
    {
        if data.len() < 16 {
            return None;
        }
        let s = data.len() - 16;
        Some(
            SystemParameters {
                status: u16_from_be(data[s], data[s + 1]),
                id: u16_from_be(data[s + 2], data[s + 3]),
                finger_library_size: u16_from_be(data[s + 4], data[s + 5]),
                security_level: u16_from_be(data[s + 6], data[s + 7]),
                device_addr: u32_from_be(data[s + 8], data[s + 9], data[s + 10], data[s + 11]),
                max_packet_size: u16_from_be(data[s + 12], data[s + 13]),
                baud_rate: u16_from_be(data[s + 14], data[s + 15]),
            },
        )
    }

    /// Get the finger template library size.
    pub fn get_library_size(&self) -> (r: u16)
        ensures
            r == self.spec_library_size(),
    {
        self.finger_library_size
    }

    /// Get the configured security level.
    pub fn get_security_level(&self) -> (r: u16)
        ensures
            r == self.spec_security_level(),
    {
        self.security_level
    }

    /// Get the configured device address.
    pub fn get_device_address(&self) -> (r: u32)
        ensures
            r == self.spec_device_address(),
    {
        self.device_addr
    }

    /// The packet data size that a packet size setting stands for: 32, 64,
    /// 128 and 256 bytes for the settings 0 to 3 of the datasheet, `0xFFFF`
    /// for every other setting.
    pub open spec fn spec_packet_size(setting: u16) -> u16 {
        if setting == 0 {
            32
        } else if setting == 1 {
            64
        } else if setting == 2 {
            128
        } else if setting == 3 {
            256
        } else {
            0xFFFF
        }
    }

    /// The packet sizes of the settings double from 32 bytes: 32, 64, 128,
    /// 256; every other setting stands for 0xFFFF.
    pub proof fn lemma_packet_sizes(setting: u16)
        ensures
            Self::spec_packet_size(0) == 32,
            1 <= setting <= 3 ==> Self::spec_packet_size(setting) == 2 * Self::spec_packet_size(
                (setting - 1) as u16,
            ),
            setting > 3 ==> Self::spec_packet_size(setting) == 0xFFFF,
    {
    }

    /// Get the configured maximum packet data size.
    ///
    /// 32, 64, 128 and 256 byte sized are specified by the
    /// datasheet.
    /// For ever other value `0xFFFF` is returned.
    pub fn get_max_packet_size(&self) -> (r: u16)
        ensures
            r == Self::spec_packet_size(self.spec_packet_size_setting()),
    {
        match self.max_packet_size {
            0 => 32,
            1 => 64,
            2 => 128,
            3 => 256,
            _ => 0xFFFF,
        }
    }

    /// Get the configured baud rate.
    pub fn get_baud_rate(&self) -> (r: u32)
        ensures
            r == self.spec_baud_setting() * 9600,
    {
        self.baud_rate as u32 * 9600
    }
}


impl SystemParameters {
    /// The parameters written out for people, in one line or, `alternate`,
    /// one line each under a title (what the parameters' `Display` shows).
    pub open spec fn spec_text(self, alternate: bool) -> Seq<char> {
        let library = digits(self.spec_library_size() as nat, 10);
        let security = digits(self.spec_security_level() as nat, 10);
        let packet = digits(Self::spec_packet_size(self.spec_packet_size_setting()) as nat, 10);
        let baud = digits((self.spec_baud_setting() * 9600) as nat, 10);
        let address = digits(self.spec_device_address() as nat, 16);
        if alternate {
            "System Parameters:\n"@ + "  max. library size: "@ + library + "\n"@
                + "  security level: "@ + security + "\n"@ + "  max. packet size: "@ + packet
                + "\n"@ + "  device address: 0x"@ + zero_padded(address, 6) + "\n"@
                + "  configured baud: "@ + baud + "\n"@
        } else {
            "max. library size: "@ + library + ", security level: "@ + security
                + ", max. packet size: "@ + packet + ", device address: "@ + zero_padded(address, 8)
                + ", configured baud: "@ + baud
        }
    }

    /// The parameters written out for people, in one line or, `alternate`,
    /// one line each under a title.
    pub fn to_text(&self, alternate: bool) -> (r: String)
        ensures
            r@ == self.spec_text(alternate),
    {
        let mut s = String::new();
        if alternate {
            s.append("System Parameters:\n");
            s.append("  max. library size: ");
            push_digits(&mut s, self.get_library_size() as u32, 10);
            s.append("\n");
            s.append("  security level: ");
            push_digits(&mut s, self.get_security_level() as u32, 10);
            s.append("\n");
            s.append("  max. packet size: ");
            push_digits(&mut s, self.get_max_packet_size() as u32, 10);
            s.append("\n");
            s.append("  device address: 0x");
            push_padded_digits(&mut s, self.get_device_address(), 16, 6);
            s.append("\n");
            s.append("  configured baud: ");
            push_digits(&mut s, self.get_baud_rate(), 10);
            s.append("\n");
        } else {
            s.append("max. library size: ");
            push_digits(&mut s, self.get_library_size() as u32, 10);
            s.append(", security level: ");
            push_digits(&mut s, self.get_security_level() as u32, 10);
            s.append(", max. packet size: ");
            push_digits(&mut s, self.get_max_packet_size() as u32, 10);
            s.append(", device address: ");
            push_padded_digits(&mut s, self.get_device_address(), 16, 8);
            s.append(", configured baud: ");
            push_digits(&mut s, self.get_baud_rate(), 10);
        }
        assert(s@ =~= self.spec_text(alternate));
        s
    }
}

/// Whether slot `i` (0 to 255) of a slot table page is marked as used: bit
/// `i % 8` of byte `i / 8`, least significant bit first.
pub open spec fn slot_bit(table: Seq<u8>, i: int) -> bool {
    table[i / 8] & (1u8 << ((i % 8) as u8)) != 0
}

/// Slot numbering within a page: slot `i` is bit `i % 8` of byte `i / 8`,
/// counted from the least significant bit, so that slot 0 is the lowest bit
/// of the first byte and slot 255 the highest bit of the last.
pub proof fn lemma_slot_bit_order(table: Seq<u8>, i: int)
    requires
        0 <= i < 256,
        table.len() == 32,
    ensures
        slot_bit(table, i) <==> (table[i / 8] >> ((i % 8) as u8)) % 2 == 1,
        slot_bit(table, 0) <==> table[0] % 2 == 1,
        slot_bit(table, 255) <==> table[31] >= 128,
{
    let b = table[i / 8];
    let k = (i % 8) as u8;
    assert((b & (1u8 << k) != 0) <==> (b >> k) % 2 == 1) by (bit_vector)
        requires
            k < 8,
    ;
    let b0 = table[0];
    assert((b0 & (1u8 << 0u8) != 0) <==> b0 % 2 == 1) by (bit_vector);
    let b31 = table[31];
    assert((b31 & (1u8 << 7u8) != 0) <==> b31 >= 128) by (bit_vector);
}

/// The library slot numbers of the used slots of page `page` from slot
/// `from` on, in ascending order: slot `i` of the page is library slot
/// `page * 256 + i`.
pub open spec fn used_slots(table: Seq<u8>, page: u8, from: int) -> Seq<u16>
    decreases 256 - from,
{
    if from < 0 || from >= 256 {
        Seq::empty()
    } else if slot_bit(table, from) {
        seq![(page * 256 + from) as u16] + used_slots(table, page, from + 1)
    } else {
        used_slots(table, page, from + 1)
    }
}

/// Unused slots contribute nothing: from `a` on, the used slots are those
/// from `j` on when no slot in between is used.
pub proof fn lemma_used_slots_skip(table: Seq<u8>, page: u8, a: int, j: int)
    requires
        0 <= a <= j <= 256,
        forall|k: int| a <= k < j ==> !#[trigger] slot_bit(table, k),
    ensures
        used_slots(table, page, a) == used_slots(table, page, j),
    decreases j - a,
{
    if a < j {
        lemma_used_slots_skip(table, page, a + 1, j);
    }
}

/// The used slots of a page from `from` on are strictly ascending library
/// slot numbers of used slots at or after `from`, and every such slot is
/// among them.
pub proof fn lemma_used_slots(table: Seq<u8>, page: u8, from: int)
    requires
        0 <= from <= 256,
    ensures
        used_slots(table, page, from).len() <= 256 - from,
        forall|a: int, b: int|
            0 <= a < b < used_slots(table, page, from).len() ==> used_slots(table, page, from)[a]
                < used_slots(table, page, from)[b],
        forall|a: int|
            0 <= a < used_slots(table, page, from).len() ==> {
                let k = #[trigger] used_slots(table, page, from)[a] - page * 256;
                &&& from <= k < 256
                &&& slot_bit(table, k)
            },
        forall|k: int|
            from <= k < 256 && #[trigger] slot_bit(table, k) ==> used_slots(
                table,
                page,
                from,
            ).contains((page * 256 + k) as u16),
    decreases 256 - from,
{
    if from < 256 {
        lemma_used_slots(table, page, from + 1);
        let rest = used_slots(table, page, from + 1);
        let all = used_slots(table, page, from);
        if slot_bit(table, from) {
            let s = (page * 256 + from) as u16;
            assert(all == seq![s] + rest);
            assert forall|a: int| 0 <= a < all.len() implies {
                let k = #[trigger] all[a] - page * 256;
                &&& from <= k < 256
                &&& slot_bit(table, k)
            } by {
                if a > 0 {
                    assert(all[a] == rest[a - 1]);
                }
            }
            assert forall|a: int, b: int| 0 <= a < b < all.len() implies all[a] < all[b] by {
                assert(all[b] == rest[b - 1]);
                if a > 0 {
                    assert(all[a] == rest[a - 1]);
                }
            }
            assert forall|k: int|
                from <= k < 256 && #[trigger] slot_bit(table, k) implies all.contains(
                (page * 256 + k) as u16,
            ) by {
                if k == from {
                    assert(all[0] == s);
                } else {
                    let i = choose|i: int| 0 <= i < rest.len() && rest[i] == (page * 256 + k) as u16;
                    assert(all[i + 1] == rest[i]);
                }
            }
        }
    }
}

/// A slot table indicating used fingerprint library slots
///
/// The `SlotTable` represents a page of 256 slots.
///
/// [`SlotTable::next`] yields the absolute slot numbers of the provisioned
/// slots in ascending order.
#[derive(Debug, Clone, Copy)]
pub struct SlotTable {
    table: [u8; 32],
    iter_pos: u16,
    page: u8,
}

impl SlotTable {
    #[verifier::type_invariant]
    spec fn position_in_page(self) -> bool {
        self.iter_pos <= 256
    }

    /// The 32 bytes of the table, 8 slots per byte.
    pub closed spec fn spec_table(self) -> Seq<u8> {
        self.table@
    }

    /// The first slot of the page that has not yet been looked at.
    pub closed spec fn spec_pos(self) -> int {
        self.iter_pos as int
    }

    /// The page number: slot `i` of the table is library slot `page * 256 + i`.
    pub closed spec fn spec_page(self) -> u8 {
        self.page
    }

    /// The library slot numbers of the used slots from the current position
    /// on, in ascending order: what [`SlotTable::next`] yields until `None`.
    pub open spec fn spec_remaining(self) -> Seq<u16> {
        used_slots(self.spec_table(), self.spec_page(), self.spec_pos())
    }

    /// Whether slot `i` of this page is in use.
    pub open spec fn spec_used(self, i: int) -> bool {
        slot_bit(self.spec_table(), i)
    }

    /// The library slot number of slot `i` of this page.
    pub open spec fn spec_slot_number(self, i: int) -> int {
        self.spec_page() * 256 + i
    }

    /// A table of page `page` whose used slots are the set bits of `table`.
    pub fn new(table: [u8; 32], page: u8) -> (r: Self)
        ensures
            r.spec_table() == table@,
            r.spec_pos() == 0,
            r.spec_page() == page,
            r.spec_remaining() == used_slots(table@, page, 0),
    {
        Self { table, iter_pos: 0, page }
    }

    /// Whether the slot at the current position is used; `None` once the
    /// position has passed the page.
    fn is_slot_used(&self) -> (r: Option<bool>)
        ensures
            r == if self.spec_pos() < 256 {
                Some(self.spec_used(self.spec_pos()))
            } else {
                None::<bool>
            },
    {
        proof {
            use_type_invariant(self);
        }
        let byte_idx = self.iter_pos / 8;
        let bit_idx = self.iter_pos % 8;
        if byte_idx >= 32 {
            return None;
        }
        let byte = self.table[byte_idx as usize];
        Some(byte & (1u8 << (bit_idx as u8)) != 0)
    }

    /// The next used slot at or after the current position, as a library slot
    /// number; the position moves past it. `None`, with the position at the
    /// end of the page, when no used slot is left.
    pub fn next(&mut self) -> (r: Option<u16>)
        ensures
            final(self).spec_table() == old(self).spec_table(),
            final(self).spec_page() == old(self).spec_page(),
            0 <= old(self).spec_pos() <= 256,
            0 <= final(self).spec_pos() <= 256,
            r matches Some(s) ==> old(self).spec_remaining() == seq![s] + final(self).spec_remaining(),
            r is None ==> old(self).spec_remaining().len() == 0,
            r is None ==> final(self).spec_remaining().len() == 0,
            r is None <==> forall|k: int|
                old(self).spec_pos() <= k < 256 ==> !#[trigger] old(self).spec_used(k),
            r is None ==> final(self).spec_pos() == 256,
            r matches Some(s) ==> {
                let j = final(self).spec_pos() - 1;
                &&& old(self).spec_pos() <= j < 256
                &&& old(self).spec_used(j)
                &&& forall|k: int| old(self).spec_pos() <= k < j ==> !#[trigger] old(self).spec_used(k)
                &&& s == old(self).spec_slot_number(j)
            },
    {
        proof {
            use_type_invariant(&*self);
        }
        let ghost start = self.spec_pos();
        loop
            invariant
                start <= self.spec_pos() <= 256,
                self.spec_table() == old(self).spec_table(),
                self.spec_page() == old(self).spec_page(),
                start == old(self).spec_pos(),
                forall|k: int| start <= k < self.spec_pos() ==> !#[trigger] old(self).spec_used(k),
            ensures
                start <= self.spec_pos() < 256,
                self.spec_table() == old(self).spec_table(),
                self.spec_page() == old(self).spec_page(),
                old(self).spec_used(self.spec_pos()),
                forall|k: int| start <= k < self.spec_pos() ==> !#[trigger] old(self).spec_used(k),
            decreases 256 - self.spec_pos(),
        {
            match self.is_slot_used() {
                None => {
                    proof {
                        assert forall|k: int| start <= k < 256 implies !#[trigger] slot_bit(
                            self.spec_table(),
                            k,
                        ) by {
                            assert(!old(self).spec_used(k));
                        }
                        lemma_used_slots_skip(
                            self.spec_table(),
                            self.spec_page(),
                            start,
                            256,
                        );
                    }
                    return None;
                },
                Some(true) => {
                    break ;
                },
                Some(false) => {
                    self.iter_pos = self.iter_pos + 1;
                },
            }
        }
        proof {
            assert forall|k: int| start <= k < self.spec_pos() implies !#[trigger] slot_bit(
                self.spec_table(),
                k,
            ) by {
                assert(!old(self).spec_used(k));
            }
            lemma_used_slots_skip(self.spec_table(), self.spec_page(), start, self.spec_pos());
        }
        self.iter_pos = self.iter_pos + 1;
        Some((self.iter_pos - 1) + self.page as u16 * 256)
    }

    /// Every library slot number that the table marks as used at or after the
    /// current position, in ascending order.
    pub fn collect_slots(self) -> (v: Vec<u16>)
        ensures
            v@ == self.spec_remaining(),
            forall|a: int, b: int| 0 <= a < b < v.len() ==> v[a] < v[b],
            forall|a: int|
                0 <= a < v.len() ==> {
                    let k = #[trigger] v[a] - self.spec_page() * 256;
                    &&& self.spec_pos() <= k < 256
                    &&& self.spec_used(k)
                },
            forall|k: int|
                self.spec_pos() <= k < 256 && #[trigger] self.spec_used(k) ==> v@.contains(
                    self.spec_slot_number(k) as u16,
                ),
    {
        proof {
            use_type_invariant(&self);
        }
        let mut table = self;
        let mut v: Vec<u16> = Vec::new();
        loop
            invariant
                table.spec_table() == self.spec_table(),
                table.spec_page() == self.spec_page(),
                self.spec_pos() <= table.spec_pos() <= 256,
                v@ + table.spec_remaining() == self.spec_remaining(),
                forall|a: int, b: int| 0 <= a < b < v.len() ==> v[a] < v[b],
                forall|a: int|
                    0 <= a < v.len() ==> {
                        let k = #[trigger] v[a] - self.spec_page() * 256;
                        &&& self.spec_pos() <= k < table.spec_pos()
                        &&& self.spec_used(k)
                    },
                forall|k: int|
                    self.spec_pos() <= k < table.spec_pos() && #[trigger] self.spec_used(k)
                        ==> v@.contains(self.spec_slot_number(k) as u16),
            decreases 256 - table.spec_pos(),
        {
            let ghost before = table.spec_pos();
            let ghost tb = table;
            let ghost v0 = v@;
            match table.next() {
                None => {
                    proof {
                        assert forall|k: int|
                            self.spec_pos() <= k < 256 && #[trigger] self.spec_used(
                                k,
                            ) implies v@.contains(self.spec_slot_number(k) as u16) by {
                            if k >= before {
                                assert(tb.spec_used(k) == self.spec_used(k));
                            }
                        }
                    }
                    return v;
                },
                Some(s) => {
                    proof {
                        use_type_invariant(&table);
                    }
                    v.push(s);
                    assert(v@ + table.spec_remaining() =~= v0 + tb.spec_remaining());
                    proof {
                        assert forall|k: int|
                            self.spec_pos() <= k < table.spec_pos() && #[trigger] self.spec_used(
                                k,
                            ) implies v@.contains(self.spec_slot_number(k) as u16) by {
                            if k < before {
                                let i = choose|i: int|
                                    0 <= i < v0.len() && v0[i] == self.spec_slot_number(k) as u16;
                                assert(v@[i] == v0[i]);
                            } else {
                                assert(tb.spec_used(k) == self.spec_used(k));
                                assert(k == table.spec_pos() - 1);
                                assert(v@[v.len() - 1] == s);
                            }
                        }
                    }
                },
            }
        }
    }
}

} // verus!
