//! The command sequencing of a session with the sensor.
//!
//! A command is one exchange of packets, or a few: before any command other
//! than the password check, the password is verified once per session, and
//! a library search first reads the system parameters unless they are known.
//! [`R503`] holds the session and decides, step by step, what to send and
//! what to read; the caller moves the bytes over the serial line and reports
//! back what happened as an [`Event`].
use vstd::prelude::*;

use crate::bytes::{be16, be32, from_be16, u16_from_be, u16_to_be, u32_to_be};
use crate::led::LedConfig;
use crate::packet::{spec_checksum, spec_length_field, verify_checksum, Package, PackageHeader, HEADER_LEN, HEADER_MAGIC};
use crate::types::{
    CharacterBuffer, CommandCode, ConfirmationCode, Error, Pid, ReadError, SearchResult, SystemParameters,
};

verus! {

/// A command of the sensor's instruction set
#[derive(Debug, Clone, Copy, PartialEq, Eq, Structural)]
pub enum Command {
    /// Verify the module's handshaking password.
    VfyPwd,
    /// Control the _Aura LED_ ring.
    LedControl(LedConfig),
    /// Check the sensor status.
    CheckSensor,
    /// Collect a finger image into the image buffer.
    GenImage,
    /// Collect a finger image into the image buffer; unlike `GenImage`, a
    /// poor image is reported as `ErrTooLittleData`.
    GenImageEx,
    /// Generate a character file from the finger image into a buffer.
    Img2Tz(CharacterBuffer),
    /// Combine both character buffers into a template.
    GenTemplate,
    /// Store the template of a buffer at a page id of the flash library.
    StoreTemplate(CharacterBuffer, u16),
    /// Search the library, from a start slot on, for the template of a buffer.
    SearchForMatch(CharacterBuffer, u16),
    /// Read the number of stored templates.
    GetLibraryCount,
    /// Delete every stored template.
    EmptyLibrary,
    /// Read the system parameters.
    ReadSystemParameters,
    /// Delete a number of templates from a start slot on.
    DeleteTemplates(u16, u16),
}

/// What a successful command yields
#[derive(Debug, Clone, Copy, PartialEq, Eq, Structural)]
pub enum Reply {
    /// The command was carried out; there is nothing to report.
    Done,
    /// The confirmation code of the sensor.
    Code(ConfirmationCode),
    /// The library slot of the matching template.
    PageId(u16),
    /// The number of stored templates.
    Count(u16),
    /// The system parameters of the sensor.
    Parameters(SystemParameters),
}

/// The payload of the command packet for `cmd`: the instruction code and
/// its parameters, numbers high byte first. A search runs up to
/// `library_size`.
pub open spec fn spec_payload(cmd: Command, pwd: u32, library_size: u16) -> Seq<u8> {
    match cmd {
        Command::VfyPwd => seq![CommandCode::VfyPwd.spec_code()] + be32(pwd),
        Command::LedControl(config) => config.spec_payload(),
        Command::CheckSensor => seq![CommandCode::CheckSensor.spec_code()],
        Command::GenImage => seq![CommandCode::GenImg.spec_code()],
        Command::GenImageEx => seq![CommandCode::GenImgEx.spec_code()],
        Command::Img2Tz(buffer) => seq![CommandCode::Img2Tz.spec_code(), buffer.spec_code()],
        Command::GenTemplate => seq![CommandCode::GenTemplate.spec_code()],
        Command::StoreTemplate(buffer, page_id) => seq![
            CommandCode::StoreTemplate.spec_code(),
            buffer.spec_code(),
        ] + be16(page_id),
        Command::SearchForMatch(buffer, start_id) => seq![
            CommandCode::SearchLibrary.spec_code(),
            buffer.spec_code(),
        ] + be16(start_id) + be16(library_size),
        Command::GetLibraryCount => seq![CommandCode::GetTemplateCount.spec_code()],
        Command::EmptyLibrary => seq![CommandCode::ClearLibrary.spec_code()],
        Command::ReadSystemParameters => seq![CommandCode::ReadSysPara.spec_code()],
        Command::DeleteTemplates(slot, count) => seq![CommandCode::DeleteTemplate.spec_code()]
            + be16(slot) + be16(count),
    }
}

/// The bytes of a command packet to the sensor at `address` carrying `data`.
pub open spec fn spec_request(address: u32, data: Seq<u8>) -> Seq<u8> {
    let length = spec_length_field(data.len());
    PackageHeader { header: HEADER_MAGIC, address, pid: Pid::Command, length }.spec_bytes() + data
        + be16(spec_checksum(Pid::Command, length, data))
}

/// The most payload bytes that a reply to `cmd` may carry.
pub open spec fn spec_reply_capacity(cmd: Command) -> int {
    if cmd is ReadSystemParameters {
        17
    } else {
        12
    }
}

/// What the payload `data` of the sensor's reply to `cmd` means.
///
/// A search reply is five bytes: confirmation code, page id, score. Every
/// other reply starts with a confirmation code, and is invalid without one. A code other than `Success`
/// makes the command fail, but for a sensor check, which also reports
/// `SensorAbnormal` as its result.
pub open spec fn spec_outcome<E>(cmd: Command, data: Seq<u8>) -> Result<Reply, Error<E>> {
    if cmd is SearchForMatch {
        match SearchResult::spec_parse(data) {
            None => Err(Error::InvalidContent),
            Some(result) => if result.code.spec_is_error() {
                Err(Error::CommandErr(result.code))
            } else {
                Ok(Reply::PageId(result.page_id))
            },
        }
    } else if data.len() == 0 {
        Err(Error::InvalidContent)
    } else {
        match ConfirmationCode::spec_from_code(data[0]) {
            None => Err(Error::InvalidContent),
            Some(code) => if code.spec_is_error() && !(cmd is CheckSensor && code
                == ConfirmationCode::SensorAbnormal) {
                Err(Error::CommandErr(code))
            } else {
                match cmd {
                    Command::CheckSensor | Command::GenImage | Command::GenImageEx
                    | Command::Img2Tz(_) | Command::GenTemplate | Command::StoreTemplate(
                        _,
                        _,
                    ) => Ok(Reply::Code(code)),
                    Command::GetLibraryCount => if data.len() < 3 {
                        Err(Error::InvalidContent)
                    } else {
                        Ok(Reply::Count(from_be16(data[1], data[2])))
                    },
                    Command::ReadSystemParameters => match SystemParameters::spec_from_suffix(
                        data,
                    ) {
                        None => Err(Error::InvalidContent),
                        Some(p) => Ok(Reply::Parameters(p)),
                    },
                    _ => Ok(Reply::Done),
                }
            },
        }
    }
}

/// What the nine header bytes `b` of a reply to `cmd` lead to: the header,
/// or the error that ends the command. A header that announces less than
/// the two checksum bytes is invalid.
pub open spec fn spec_header_verdict<E>(cmd: Command, b: Seq<u8>) -> Result<
    PackageHeader,
    Error<E>,
> {
    match PackageHeader::spec_parse(b) {
        None => Err(Error::InvalidPid),
        Some(h) => if h.header != HEADER_MAGIC || h.length < 2 {
            Err(Error::InvalidHeader)
        } else if h.length - 2 > spec_reply_capacity(cmd) {
            Err(Error::BufTooSmall)
        } else {
            Ok(h)
        },
    }
}

/// The payload within the `h.length` bytes `b` that follow the header `h`.
pub open spec fn spec_body_data(h: PackageHeader, b: Seq<u8>) -> Seq<u8> {
    b.take(h.length - 2)
}

/// Whether the last two of the bytes `b` that follow the header `h` hold
/// the checksum of header and payload.
pub open spec fn spec_body_checksum_ok(h: PackageHeader, b: Seq<u8>) -> bool {
    from_be16(b[h.length - 2], b[h.length - 1]) == spec_checksum(
        h.pid,
        h.length,
        spec_body_data(h, b),
    )
}

/// What the bytes `b` that follow the header `h` of a reply to `cmd` lead to.
pub open spec fn spec_body_verdict<E>(cmd: Command, h: PackageHeader, b: Seq<u8>) -> Result<
    Reply,
    Error<E>,
> {
    if !spec_body_checksum_ok(h, b) {
        Err(Error::Checksum)
    } else {
        spec_outcome(cmd, spec_body_data(h, b))
    }
}

/// The part of a command's exchange that is under way
#[derive(Debug, Clone, Copy, PartialEq, Eq, Structural)]
pub enum Stage {
    /// A command packet is being written.
    Sending,
    /// The header of the reply is awaited.
    AwaitingHeader,
    /// The rest of the reply announced by the header is awaited.
    AwaitingBody(PackageHeader),
}

/// A command under way
#[derive(Debug, Clone, Copy, PartialEq, Eq, Structural)]
pub struct Exchange {
    /// The command that the caller asked for.
    pub goal: Command,
    /// The command whose packets are on the line: the goal, or a password
    /// check or parameter read that has to come first.
    pub wire: Command,
    pub stage: Stage,
}

/// What happened on the serial line
#[verifier::reject_recursive_types(E)]
pub enum Event<E> {
    /// The requested bytes were written.
    Sent,
    /// Writing failed.
    SendFailed(E),
    /// The requested number of bytes was read.
    Received(Vec<u8>),
    /// Reading failed.
    ReceiveFailed(ReadError<E>),
}

/// What the caller has to do next
#[derive(Debug)]
#[verifier::reject_recursive_types(E)]
pub enum Action<E> {
    /// Write these bytes to the sensor.
    Send(Vec<u8>),
    /// Read exactly this many bytes from the sensor.
    Receive(usize),
    /// The command is over, with this result.
    Finish(Result<Reply, Error<E>>),
}

/// An [`Event`] as a mathematical value
#[verifier::reject_recursive_types(E)]
pub enum EventView<E> {
    Sent,
    SendFailed(E),
    Received(Seq<u8>),
    ReceiveFailed(ReadError<E>),
}

/// An [`Action`] as a mathematical value
#[verifier::reject_recursive_types(E)]
pub enum ActionView<E> {
    Send(Seq<u8>),
    Receive(int),
    Finish(Result<Reply, Error<E>>),
}

impl<E> View for Event<E> {
    type V = EventView<E>;

    open spec fn view(&self) -> EventView<E> {
        match self {
            Event::Sent => EventView::Sent,
            Event::SendFailed(e) => EventView::SendFailed(*e),
            Event::Received(b) => EventView::Received(b@),
            Event::ReceiveFailed(e) => EventView::ReceiveFailed(*e),
        }
    }
}

impl<E> View for Action<E> {
    type V = ActionView<E>;

    open spec fn view(&self) -> ActionView<E> {
        match self {
            Action::Send(b) => ActionView::Send(b@),
            Action::Receive(n) => ActionView::Receive(*n as int),
            Action::Finish(r) => ActionView::Finish(*r),
        }
    }
}

/// The state of a session with the sensor
pub struct SessionView {
    /// The handshaking password.
    pub pwd: u32,
    /// The module address.
    pub address: u32,
    /// Whether the password has been verified in this session.
    pub authenticated: bool,
    /// The system parameters, once read.
    pub parameters: Option<SystemParameters>,
    /// The command under way, if any.
    pub exchange: Option<Exchange>,
}

/// The library size of the parameters, or zero while they are unknown.
pub open spec fn spec_library_size(parameters: Option<SystemParameters>) -> u16 {
    match parameters {
        Some(p) => p.spec_library_size(),
        None => 0,
    }
}

impl SessionView {
    /// The bytes of the command packet for `cmd` in this session.
    pub open spec fn request(self, cmd: Command) -> Seq<u8> {
        spec_request(
            self.address,
            spec_payload(cmd, self.pwd, spec_library_size(self.parameters)),
        )
    }

    /// The command that has to go on the line next on the way to `goal`:
    /// the password check while it has not succeeded, then, for a search,
    /// the parameter read while the parameters are unknown, then `goal`.
    pub open spec fn schedule(self, goal: Command) -> Command {
        if goal is VfyPwd || !self.authenticated {
            Command::VfyPwd
        } else if goal is SearchForMatch && self.parameters is None {
            Command::ReadSystemParameters
        } else {
            goal
        }
    }

    /// The session with `exchange` under way.
    pub open spec fn with_exchange(self, exchange: Option<Exchange>) -> SessionView {
        SessionView {
            pwd: self.pwd,
            address: self.address,
            authenticated: self.authenticated,
            parameters: self.parameters,
            exchange,
        }
    }

    /// Starting the command `goal`: its first packet is sent.
    pub open spec fn begin<E>(self, goal: Command) -> (SessionView, ActionView<E>) {
        let wire = self.schedule(goal);
        (
            self.with_exchange(Some(Exchange { goal, wire, stage: Stage::Sending })),
            ActionView::Send(self.request(wire)),
        )
    }

    /// The session once `cmd` got the successful reply `reply`: a password
    /// check authenticates it, a parameter read caches the parameters.
    pub open spec fn absorb(self, cmd: Command, reply: Reply) -> SessionView {
        SessionView {
            pwd: self.pwd,
            address: self.address,
            authenticated: self.authenticated || cmd is VfyPwd,
            parameters: match reply {
                Reply::Parameters(p) => Some(p),
                _ => self.parameters,
            },
            exchange: self.exchange,
        }
    }

    /// The command ends with `result`.
    pub open spec fn finish<E>(self, result: Result<Reply, Error<E>>) -> (
        SessionView,
        ActionView<E>,
    ) {
        (self.with_exchange(None), ActionView::Finish(result))
    }

    /// Whether the session is in a state that its own steps reach: a reply
    /// body is awaited only after a header that announced at least the two
    /// checksum bytes and no more than the reply buffer holds.
    pub open spec fn wf(self) -> bool {
        match self.exchange {
            Some(x) => match x.stage {
                Stage::AwaitingBody(h) => 2 <= h.length && h.length - 2 <= spec_reply_capacity(
                    x.wire,
                ),
                _ => true,
            },
            None => true,
        }
    }

    /// Whether `ev` is an event that can follow in this session: the outcome
    /// of the write or the read that was asked for, a read delivering
    /// exactly the bytes asked for.
    pub open spec fn accepts<E>(self, ev: EventView<E>) -> bool {
        match self.exchange {
            None => false,
            Some(x) => match x.stage {
                Stage::Sending => ev is Sent || ev is SendFailed,
                Stage::AwaitingHeader => match ev {
                    EventView::ReceiveFailed(_) => true,
                    EventView::Received(b) => b.len() == HEADER_LEN,
                    _ => false,
                },
                Stage::AwaitingBody(h) => match ev {
                    EventView::ReceiveFailed(_) => true,
                    EventView::Received(b) => b.len() == h.length,
                    _ => false,
                },
            },
        }
    }

    /// The session and the caller's next action after the event `ev`.
    pub open spec fn next<E>(self, ev: EventView<E>) -> (SessionView, ActionView<E>) {
        let x = self.exchange.unwrap();
        match (x.stage, ev) {
            (Stage::Sending, EventView::Sent) => (
                self.with_exchange(
                    Some(Exchange { goal: x.goal, wire: x.wire, stage: Stage::AwaitingHeader }),
                ),
                ActionView::Receive(HEADER_LEN as int),
            ),
            (_, EventView::SendFailed(e)) => self.finish(Err(Error::WriteErr(e))),
            (_, EventView::ReceiveFailed(e)) => self.finish(Err(Error::ReadErr(e))),
            (Stage::AwaitingHeader, EventView::Received(b)) => match spec_header_verdict(
                x.wire,
                b,
            ) {
                Err(err) => self.finish(Err(err)),
                Ok(h) => (
                    self.with_exchange(
                        Some(Exchange { goal: x.goal, wire: x.wire, stage: Stage::AwaitingBody(h) }),
                    ),
                    ActionView::Receive(h.length as int),
                ),
            },
            (Stage::AwaitingBody(h), EventView::Received(b)) => match spec_body_verdict(
                x.wire,
                h,
                b,
            ) {
                Err(err) => self.finish(Err(err)),
                Ok(reply) => {
                    let s = self.absorb(x.wire, reply);
                    if x.wire == x.goal {
                        s.finish(Ok(reply))
                    } else {
                        s.begin(x.goal)
                    }
                },
            },
            _ => (self, ActionView::Receive(0)),
        }
    }
}

/// A session with the R503 fingerprint sensor over the serial line `serial`
pub struct R503<T> {
    serial: T,
    pwd: u32,
    authenticated: bool,
    address: u32,
    parameters: Option<SystemParameters>,
    exchange: Option<Exchange>,
}

impl<T> View for R503<T> {
    type V = SessionView;

    closed spec fn view(&self) -> SessionView {
        SessionView {
            pwd: self.pwd,
            address: self.address,
            authenticated: self.authenticated,
            parameters: self.parameters,
            exchange: self.exchange,
        }
    }
}

/// The payload of the command packet for `cmd`.
pub fn payload(cmd: &Command, pwd: u32, library_size: u16) -> (r: Vec<u8>)
    ensures
        r@ == spec_payload(*cmd, pwd, library_size),
{
    let r = match cmd {
        Command::VfyPwd => {
            let p = u32_to_be(pwd);
            vec![CommandCode::VfyPwd.code(), p[0], p[1], p[2], p[3]]
        },
        Command::LedControl(config) => config.as_bytes(),
        Command::CheckSensor => vec![CommandCode::CheckSensor.code()],
        Command::GenImage => vec![CommandCode::GenImg.code()],
        Command::GenImageEx => vec![CommandCode::GenImgEx.code()],
        Command::Img2Tz(buffer) => vec![CommandCode::Img2Tz.code(), buffer.code()],
        Command::GenTemplate => vec![CommandCode::GenTemplate.code()],
        Command::StoreTemplate(buffer, page_id) => {
            let p = u16_to_be(*page_id);
            vec![CommandCode::StoreTemplate.code(), buffer.code(), p[0], p[1]]
        },
        Command::SearchForMatch(buffer, start_id) => {
            let s = u16_to_be(*start_id);
            let e = u16_to_be(library_size);
            vec![CommandCode::SearchLibrary.code(), buffer.code(), s[0], s[1], e[0], e[1]]
        },
        Command::GetLibraryCount => vec![CommandCode::GetTemplateCount.code()],
        Command::EmptyLibrary => vec![CommandCode::ClearLibrary.code()],
        Command::ReadSystemParameters => vec![CommandCode::ReadSysPara.code()],
        Command::DeleteTemplates(slot, count) => {
            let s = u16_to_be(*slot);
            let c = u16_to_be(*count);
            vec![CommandCode::DeleteTemplate.code(), s[0], s[1], c[0], c[1]]
        },
    };
    assert(r@ =~= spec_payload(*cmd, pwd, library_size));
    r
}

/// The bytes of a command packet to the sensor at `address` carrying `data`.
pub fn request(address: u32, data: &[u8]) -> (r: Vec<u8>)
    ensures
        r@ == spec_request(address, data@),
{
    let pckg = Package::new(Pid::Command, address, data);
    pckg.to_bytes()
}

/// What the payload `data` of the sensor's reply to `cmd` means.
pub fn interpret<E>(cmd: &Command, data: &[u8]) -> (r: Result<Reply, Error<E>>)
    ensures
        r == spec_outcome::<E>(*cmd, data@),
{
    if let Command::SearchForMatch(_, _) = cmd {
        return match SearchResult::parse(data) {
            None => Err(Error::InvalidContent),
            Some(result) => if result.code.is_error() {
                Err(Error::CommandErr(result.code))
            } else {
                Ok(Reply::PageId(result.page_id))
            },
        };
    }
    if data.len() == 0 {
        return Err(Error::InvalidContent);
    }
    let code = match ConfirmationCode::from_code(data[0]) {
        None => {
            return Err(Error::InvalidContent);
        },
        Some(code) => code,
    };
    let abnormal_status = match cmd {
        Command::CheckSensor => code == ConfirmationCode::SensorAbnormal,
        _ => false,
    };
    if code.is_error() && !abnormal_status {
        return Err(Error::CommandErr(code));
    }
    match cmd {
        Command::CheckSensor | Command::GenImage | Command::GenImageEx | Command::Img2Tz(_)
        | Command::GenTemplate | Command::StoreTemplate(_, _) => Ok(Reply::Code(code)),
        Command::GetLibraryCount => {
            if data.len() < 3 {
                Err(Error::InvalidContent)
            } else {
                Ok(Reply::Count(u16_from_be(data[1], data[2])))
            }
        },
        Command::ReadSystemParameters => match SystemParameters::from_suffix(data) {
            None => Err(Error::InvalidContent),
            Some(p) => Ok(Reply::Parameters(p)),
        },
        _ => Ok(Reply::Done),
    }
}

/// Checks the nine header bytes `b` of a reply to `cmd`: the package
/// identifier, the magic number, and that the announced payload fits the
/// reply buffer.
pub fn read_header<E>(cmd: &Command, b: &[u8]) -> (r: Result<PackageHeader, Error<E>>)
    ensures
        r == spec_header_verdict::<E>(*cmd, b@),
{
    let h = match PackageHeader::parse(b) {
        None => {
            return Err(Error::InvalidPid);
        },
        Some(h) => h,
    };
    if h.header != HEADER_MAGIC || h.length < 2 {
        return Err(Error::InvalidHeader);
    }
    let capacity: u16 = match cmd {
        Command::ReadSystemParameters => 17,
        _ => 12,
    };
    if h.length - 2 > capacity {
        return Err(Error::BufTooSmall);
    }
    Ok(h)
}

/// The packet that the header `h` and the `h.length` bytes `b` after it
/// make up: payload, then the checksum high byte first.
pub fn read_body<'a>(h: PackageHeader, b: &'a [u8]) -> (r: Package<'a>)
    requires
        b@.len() == h.length >= 2,
    ensures
        r.pckg_header == h,
        r.data@ == spec_body_data(h, b@),
        r.checksum == from_be16(b@[h.length - 2], b@[h.length - 1]),
        (r.checksum == r.spec_expected_checksum()) == spec_body_checksum_ok(h, b@),
{
    let n = b.len();
    let data = vstd::slice::slice_subrange(b, 0, n - 2);
    Package { pckg_header: h, data, checksum: u16_from_be(b[n - 2], b[n - 1]) }
}

impl<T> R503<T> {
    /// The serial line of the session.
    pub closed spec fn spec_serial(self) -> T {
        self.serial
    }

    /// Create a new R503 struct.
    /// If `pwd` is not supplied the default password `0x00000000` is used,
    /// if `addr` is not supplied the broadcast address `0xFFFFFFFF`.
    pub fn new(serial: T, pwd: Option<u32>, addr: Option<u32>) -> (r: R503<T>)
        ensures
            r.spec_serial() == serial,
            r@ == (SessionView {
                pwd: pwd.unwrap_or(0),
                address: addr.unwrap_or(0xFFFF_FFFF),
                authenticated: false,
                parameters: None,
                exchange: None,
            }),
            r@.wf(),
    {
        R503 {
            serial,
            pwd: match pwd {
                Some(p) => p,
                None => 0,
            },
            authenticated: false,
            address: match addr {
                Some(a) => a,
                None => 0xFFFF_FFFF,
            },
            parameters: None,
            exchange: None,
        }
    }

    /// Deconstruct the R503 instance yielding the contained serial peripheral.
    pub fn destroy(self) -> (r: T)
        ensures
            r == self.spec_serial(),
    {
        self.serial
    }

    /// Get a mutable reference to the underlying serial line
    ///
    /// This might be used for reconfiguration purposes
    /// (e.g. after changing the baud rate).
    pub fn serial(&mut self) -> (r: &mut T)
        ensures
            *r == old(self).spec_serial(),
            final(self).spec_serial() == *final(r),
            final(self)@ == old(self)@,
    {
        &mut self.serial
    }

    /// Whether the password has been verified in this session.
    pub fn is_authenticated(&self) -> (r: bool)
        ensures
            r == self@.authenticated,
    {
        self.authenticated
    }

    /// Marks the session as authenticated, as after a password check, or
    /// not, so that the next command verifies the password first.
    pub fn set_authenticated(&mut self, authenticated: bool)
        ensures
            final(self)@ == (SessionView {
                pwd: old(self)@.pwd,
                address: old(self)@.address,
                authenticated,
                parameters: old(self)@.parameters,
                exchange: old(self)@.exchange,
            }),
            final(self).spec_serial() == old(self).spec_serial(),
    {
        self.authenticated = authenticated;
    }

    /// The bytes of the command packet for `cmd` in this session.
    fn request_for(&self, cmd: &Command) -> (r: Vec<u8>)
        ensures
            r@ == self@.request(*cmd),
    {
        let library_size = match self.parameters {
            Some(p) => p.get_library_size(),
            None => 0,
        };
        let data = payload(cmd, self.pwd, library_size);
        request(self.address, data.as_slice())
    }

    /// The command that has to go on the line next on the way to `goal`.
    fn schedule(&self, goal: &Command) -> (r: Command)
        ensures
            r == self@.schedule(*goal),
    {
        let is_search = match goal {
            Command::SearchForMatch(_, _) => true,
            _ => false,
        };
        match goal {
            Command::VfyPwd => Command::VfyPwd,
            _ => if !self.authenticated {
                Command::VfyPwd
            } else if is_search && self.parameters.is_none() {
                Command::ReadSystemParameters
            } else {
                *goal
            },
        }
    }

    /// Starts the command `goal`, dropping any command under way; the caller
    /// is to send the bytes of the returned action.
    pub fn start<E>(&mut self, goal: Command) -> (r: Action<E>)
        ensures
            (final(self)@, r@) == old(self)@.begin::<E>(goal),
            final(self)@.wf(),
            final(self).spec_serial() == old(self).spec_serial(),
    {
        let wire = self.schedule(&goal);
        let bytes = self.request_for(&wire);
        self.exchange = Some(Exchange { goal, wire, stage: Stage::Sending });
        Action::Send(bytes)
    }

    /// Whether the event `ev` can be taken by [`R503::step`] now.
    pub fn accepts<E>(&self, ev: &Event<E>) -> (r: bool)
        ensures
            r == self@.accepts(ev@),
    {
        let x = match self.exchange {
            None => {
                return false;
            },
            Some(x) => x,
        };
        match x.stage {
            Stage::Sending => match ev {
                Event::Sent | Event::SendFailed(_) => true,
                _ => false,
            },
            Stage::AwaitingHeader => match ev {
                Event::ReceiveFailed(_) => true,
                Event::Received(b) => b.len() == HEADER_LEN,
                _ => false,
            },
            Stage::AwaitingBody(h) => match ev {
                Event::ReceiveFailed(_) => true,
                Event::Received(b) => b.len() == h.length as usize,
                _ => false,
            },
        }
    }

    /// Takes the event `ev` of the command under way and returns what the
    /// caller has to do next.
    pub fn step<E>(&mut self, ev: Event<E>) -> (r: Action<E>)
        requires
            old(self)@.wf(),
            old(self)@.accepts(ev@),
        ensures
            (final(self)@, r@) == old(self)@.next(ev@),
            final(self)@.wf(),
            final(self).spec_serial() == old(self).spec_serial(),
    {
        let x = match self.exchange {
            Some(x) => x,
            None => vstd::pervasive::unreached(),
        };
        match ev {
            Event::Sent => {
                self.exchange = Some(
                    Exchange { goal: x.goal, wire: x.wire, stage: Stage::AwaitingHeader },
                );
                Action::Receive(HEADER_LEN)
            },
            Event::SendFailed(e) => {
                self.exchange = None;
                Action::Finish(Err(Error::WriteErr(e)))
            },
            Event::ReceiveFailed(e) => {
                self.exchange = None;
                Action::Finish(Err(Error::ReadErr(e)))
            },
            Event::Received(b) => match x.stage {
                Stage::AwaitingHeader => match read_header::<E>(&x.wire, b.as_slice()) {
                    Err(err) => {
                        self.exchange = None;
                        Action::Finish(Err(err))
                    },
                    Ok(h) => {
                        self.exchange = Some(
                            Exchange { goal: x.goal, wire: x.wire, stage: Stage::AwaitingBody(h) },
                        );
                        Action::Receive(h.length as usize)
                    },
                },
                Stage::AwaitingBody(h) => {
                    let pckg = read_body(h, b.as_slice());
                    if !verify_checksum(&pckg) {
                        self.exchange = None;
                        return Action::Finish(Err(Error::Checksum));
                    }
                    match interpret::<E>(&x.wire, pckg.data) {
                        Err(err) => {
                            self.exchange = None;
                            Action::Finish(Err(err))
                        },
                        Ok(reply) => {
                            if let Command::VfyPwd = x.wire {
                                self.authenticated = true;
                            }
                            if let Reply::Parameters(p) = reply {
                                self.parameters = Some(p);
                            }
                            if x.wire == x.goal {
                                self.exchange = None;
                                Action::Finish(Ok(reply))
                            } else {
                                self.start(x.goal)
                            }
                        },
                    }
                },
                Stage::Sending => vstd::pervasive::unreached(),
            },
        }
    }
}

/// A reply framed the way this crate frames packets is read back as sent:
/// its header passes the header checks, the body that follows has the
/// announced length and a matching checksum, and the reply means what its
/// payload means.
pub proof fn lemma_reply_read_back<E>(cmd: Command, pid: Pid, address: u32, data: Seq<u8>)
    requires
        data.len() <= spec_reply_capacity(cmd),
    ensures
        ({
            let h = PackageHeader {
                header: HEADER_MAGIC,
                address,
                pid,
                length: spec_length_field(data.len()),
            };
            let body = data + be16(spec_checksum(pid, h.length, data));
            &&& spec_header_verdict::<E>(cmd, h.spec_bytes()) == Ok::<PackageHeader, Error<E>>(h)
            &&& h.length == body.len()
            &&& spec_body_data(h, body) == data
            &&& spec_body_checksum_ok(h, body)
            &&& spec_body_verdict::<E>(cmd, h, body) == spec_outcome::<E>(cmd, data)
        }),
{
    let h = PackageHeader { header: HEADER_MAGIC, address, pid, length: spec_length_field(data.len()) };
    let c = spec_checksum(pid, h.length, data);
    let body = data + be16(c);
    crate::packet::lemma_header_roundtrip(h);
    assert(h.length == data.len() + 2);
    assert(body.take(h.length - 2) =~= data);
    crate::bytes::lemma_be16_roundtrip(c);
    assert(body[h.length - 2] == be16(c)[0]);
    assert(body[h.length - 1] == be16(c)[1]);
}

/// No command but the password check goes on the line before the session is
/// authenticated, whether a command is started or the exchange goes on; and
/// what is sent is the packet of the command on the line.
pub proof fn lemma_commands_wait_for_authentication<E>(
    s: SessionView,
    goal: Command,
    ev: EventView<E>,
)
    ensures
        ({
            let (t, a) = s.begin::<E>(goal);
            &&& t.exchange matches Some(x)
            &&& x.wire is VfyPwd || t.authenticated
            &&& a == ActionView::<E>::Send(t.request(x.wire))
        }),
        s.wf() && s.accepts(ev) ==> ({
            let (t, a) = s.next(ev);
            a is Send ==> {
                &&& t.exchange matches Some(x)
                &&& x.wire is VfyPwd || t.authenticated
                &&& a == ActionView::<E>::Send(t.request(x.wire))
            }
        }),
{
}

/// A session becomes authenticated only by taking the sensor's successful
/// reply to a password check.
pub proof fn lemma_authentication_needs_acknowledged_password<E>(s: SessionView, ev: EventView<E>)
    requires
        s.wf(),
        s.accepts(ev),
        !s.authenticated,
        s.next(ev).0.authenticated,
    ensures
        ({
            &&& s.exchange matches Some(x)
            &&& x.wire is VfyPwd
            &&& x.stage matches Stage::AwaitingBody(h)
            &&& ev matches EventView::Received(b)
            &&& spec_body_verdict::<E>(Command::VfyPwd, h, b) is Ok
        }),
{
}

/// Password, address and, once read, the system parameters stay with the
/// session: no event changes the first two or forgets the last, and a
/// parameter read leaves the parameters it got in the session.
pub proof fn lemma_session_keeps_settings<E>(s: SessionView, ev: EventView<E>, p: SystemParameters)
    requires
        s.wf(),
        s.accepts(ev),
    ensures
        s.next(ev).0.pwd == s.pwd,
        s.next(ev).0.address == s.address,
        s.parameters is Some ==> s.next(ev).0.parameters is Some,
        s.next(ev).1 == ActionView::<E>::Finish(Ok(Reply::Parameters(p))) ==> s.next(
            ev,
        ).0.parameters == Some(p),
{
}

/// A search in an authenticated session whose parameters are known goes on
/// the line at once; otherwise the password check, then the parameter read,
/// come first.
pub proof fn lemma_search_uses_known_parameters(
    s: SessionView,
    buffer: CharacterBuffer,
    start_id: u16,
)
    ensures
        s.authenticated && s.parameters is Some ==> s.schedule(
            Command::SearchForMatch(buffer, start_id),
        ) == Command::SearchForMatch(buffer, start_id),
        !s.authenticated ==> s.schedule(Command::SearchForMatch(buffer, start_id))
            == Command::VfyPwd,
        s.authenticated && s.parameters is None ==> s.schedule(
            Command::SearchForMatch(buffer, start_id),
        ) == Command::ReadSystemParameters,
{
}

/// Every step keeps a session in a state that its steps reach.
pub proof fn lemma_steps_keep_wf<E>(s: SessionView, goal: Command, ev: EventView<E>)
    ensures
        s.begin::<E>(goal).0.wf(),
        s.wf() && s.accepts(ev) ==> s.next(ev).0.wf(),
{
}

/// A command in an authenticated session, whose parameters are known if it
/// is a search, is one exchange: its packet is sent, and a reply framed as
/// this crate frames packets is taken in two reads and ends the command with
/// what the reply's payload means.
pub proof fn lemma_command_exchange<E>(
    s: SessionView,
    goal: Command,
    pid: Pid,
    address: u32,
    data: Seq<u8>,
)
    requires
        s.exchange is None,
        s.authenticated,
        goal is SearchForMatch ==> s.parameters is Some,
        data.len() <= spec_reply_capacity(goal),
    ensures
        ({
            let h = PackageHeader {
                header: HEADER_MAGIC,
                address,
                pid,
                length: spec_length_field(data.len()),
            };
            let body = data + be16(spec_checksum(pid, h.length, data));
            let (s1, a1) = s.begin::<E>(goal);
            let (s2, a2) = s1.next(EventView::<E>::Sent);
            let (s3, a3) = s2.next(EventView::<E>::Received(h.spec_bytes()));
            let (s4, a4) = s3.next(EventView::<E>::Received(body));
            &&& a1 == ActionView::<E>::Send(s.request(goal))
            &&& s1.accepts(EventView::<E>::Sent)
            &&& a2 == ActionView::<E>::Receive(HEADER_LEN as int)
            &&& s2.accepts(EventView::<E>::Received(h.spec_bytes()))
            &&& a3 == ActionView::<E>::Receive(body.len() as int)
            &&& s3.accepts(EventView::<E>::Received(body))
            &&& a4 == ActionView::<E>::Finish(spec_outcome::<E>(goal, data))
            &&& s4.exchange is None
        }),
{
    lemma_reply_read_back::<E>(goal, pid, address, data);
    let h = PackageHeader { header: HEADER_MAGIC, address, pid, length: spec_length_field(data.len()) };
    crate::packet::lemma_header_roundtrip(h);
}

/// The buffer number byte of a character buffer: 1 for the first, 2 for the
/// second.
pub open spec fn buffer_byte(b: CharacterBuffer) -> u8 {
    if b == CharacterBuffer::Buffer1 {
        0x01
    } else {
        0x02
    }
}

/// The payload bytes of every command: the instruction byte of the
/// datasheet, then its parameters, numbers high byte first; a search runs
/// from the start slot to the library size.
pub proof fn lemma_payload_bytes(
    pwd: u32,
    library_size: u16,
    b: CharacterBuffer,
    x: u16,
    y: u16,
    config: LedConfig,
)
    ensures
        spec_payload(Command::VfyPwd, pwd, library_size) == seq![
            0x13u8,
            (pwd / 0x100_0000) as u8,
            ((pwd / 0x1_0000) % 256) as u8,
            ((pwd / 256) % 256) as u8,
            (pwd % 256) as u8,
        ],
        spec_payload(Command::LedControl(config), pwd, library_size) == config.spec_payload(),
        spec_payload(Command::CheckSensor, pwd, library_size) == seq![0x36u8],
        spec_payload(Command::GenImage, pwd, library_size) == seq![0x01u8],
        spec_payload(Command::GenImageEx, pwd, library_size) == seq![0x28u8],
        spec_payload(Command::Img2Tz(b), pwd, library_size) == seq![0x02u8, buffer_byte(b)],
        spec_payload(Command::GenTemplate, pwd, library_size) == seq![0x05u8],
        spec_payload(Command::StoreTemplate(b, x), pwd, library_size) == seq![
            0x06u8,
            buffer_byte(b),
            (x / 256) as u8,
            (x % 256) as u8,
        ],
        spec_payload(Command::SearchForMatch(b, x), pwd, library_size) == seq![
            0x04u8,
            buffer_byte(b),
            (x / 256) as u8,
            (x % 256) as u8,
            (library_size / 256) as u8,
            (library_size % 256) as u8,
        ],
        spec_payload(Command::GetLibraryCount, pwd, library_size) == seq![0x1Du8],
        spec_payload(Command::EmptyLibrary, pwd, library_size) == seq![0x0Du8],
        spec_payload(Command::ReadSystemParameters, pwd, library_size) == seq![0x0Fu8],
        spec_payload(Command::DeleteTemplates(x, y), pwd, library_size) == seq![
            0x0Cu8,
            (x / 256) as u8,
            (x % 256) as u8,
            (y / 256) as u8,
            (y % 256) as u8,
        ],
{
    assert(spec_payload(Command::VfyPwd, pwd, library_size) =~= seq![
        0x13u8,
        (pwd / 0x100_0000) as u8,
        ((pwd / 0x1_0000) % 256) as u8,
        ((pwd / 256) % 256) as u8,
        (pwd % 256) as u8,
    ]);
    assert(spec_payload(Command::StoreTemplate(b, x), pwd, library_size) =~= seq![
        0x06u8,
        buffer_byte(b),
        (x / 256) as u8,
        (x % 256) as u8,
    ]);
    assert(spec_payload(Command::SearchForMatch(b, x), pwd, library_size) =~= seq![
        0x04u8,
        buffer_byte(b),
        (x / 256) as u8,
        (x % 256) as u8,
        (library_size / 256) as u8,
        (library_size % 256) as u8,
    ]);
    assert(spec_payload(Command::DeleteTemplates(x, y), pwd, library_size) =~= seq![
        0x0Cu8,
        (x / 256) as u8,
        (x % 256) as u8,
        (y / 256) as u8,
        (y % 256) as u8,
    ]);
}

/// The layout of a command packet: magic number 0xEF01, the address, the
/// command identifier 0x01, the length (payload plus two), the payload, and
/// the checksum; numbers high byte first.
pub proof fn lemma_request_bytes(address: u32, data: Seq<u8>)
    requires
        data.len() + 2 < 0x1_0000,
    ensures
        ({
            let r = spec_request(address, data);
            let n = data.len() as int;
            &&& r.len() == n + 11
            &&& r[0] == 0xEF && r[1] == 0x01
            &&& r[2] * 0x100_0000 + r[3] * 0x1_0000 + r[4] * 256 + r[5] == address
            &&& r[6] == 0x01
            &&& r[7] * 256 + r[8] == n + 2
            &&& r.subrange(9, 9 + n) == data
            &&& r[9 + n] * 256 + r[10 + n] == spec_checksum(Pid::Command, (n + 2) as u16, data)
        }),
{
    let n = data.len() as int;
    let length = spec_length_field(data.len());
    let h = PackageHeader { header: HEADER_MAGIC, address, pid: Pid::Command, length };
    let c = spec_checksum(Pid::Command, length, data);
    let r = spec_request(address, data);
    crate::packet::lemma_header_bytes(h, Seq::empty());
    crate::bytes::lemma_be16_value(c, 0, 0);
    assert(h.spec_bytes() =~= r.subrange(0, 9));
    assert(r.subrange(9, 9 + n) =~= data);
    assert(r[9 + n] == be16(c)[0] && r[10 + n] == be16(c)[1]);
    assert(r[0] == h.spec_bytes()[0] && r[1] == h.spec_bytes()[1]);
    assert(r[2] == h.spec_bytes()[2] && r[3] == h.spec_bytes()[3]);
    assert(r[4] == h.spec_bytes()[4] && r[5] == h.spec_bytes()[5]);
    assert(r[6] == h.spec_bytes()[6] && r[7] == h.spec_bytes()[7] && r[8] == h.spec_bytes()[8]);
    crate::types::lemma_pid_bytes();
}

/// What a reply says in terms of its bytes: a command succeeds only when
/// the reply's first byte is the success code 0x00 (or, for a sensor check,
/// the abnormal status 0x29); a search reply of five bytes starting with
/// 0x00 is the match at the slot in bytes 1 and 2, and one starting with any
/// other byte is the sensor's error with that code; a template count is in
/// bytes 1 and 2.
pub proof fn lemma_outcome_bytes<E>(cmd: Command, data: Seq<u8>)
    ensures
        spec_outcome::<E>(cmd, data) is Ok ==> data.len() >= 1 && (data[0] == 0x00 || (
        cmd is CheckSensor && data[0] == 0x29)),
        spec_outcome::<E>(cmd, data) matches Err(Error::CommandErr(c)) ==> data.len() >= 1
            && c.spec_code() == data[0] && data[0] != 0x00,
        cmd is SearchForMatch && spec_outcome::<E>(cmd, data) is Ok ==> data.len() == 5,
        cmd is SearchForMatch && data.len() == 5 && data[0] == 0x00 ==> spec_outcome::<E>(cmd, data)
            == Ok::<Reply, Error<E>>(Reply::PageId((data[1] * 256 + data[2]) as u16)),
        cmd is SearchForMatch && data.len() == 5 && data[0] != 0x00 ==> spec_outcome::<E>(
            cmd,
            data,
        ) is Err,
        cmd is SearchForMatch && data.len() == 5 && ConfirmationCode::spec_from_code(data[0])
            == Some(ConfirmationCode::SearchFailed) ==> spec_outcome::<E>(cmd, data) == Err::<
            Reply,
            Error<E>,
        >(Error::CommandErr(ConfirmationCode::SearchFailed)),
        !(cmd is SearchForMatch) && data.len() >= 1 && data[0] != 0x00 && !(cmd is CheckSensor
            && data[0] == 0x29) ==> spec_outcome::<E>(cmd, data) is Err,
        (cmd is VfyPwd || cmd is LedControl || cmd is EmptyLibrary || cmd is DeleteTemplates)
            && data.len() >= 1 && data[0] == 0x00 ==> spec_outcome::<E>(cmd, data) == Ok::<
            Reply,
            Error<E>,
        >(Reply::Done),
        (cmd is CheckSensor || cmd is GenImage || cmd is GenImageEx || cmd is Img2Tz
            || cmd is GenTemplate || cmd is StoreTemplate) && data.len() >= 1 && data[0] == 0x00
            ==> spec_outcome::<E>(cmd, data) == Ok::<Reply, Error<E>>(
            Reply::Code(ConfirmationCode::Success),
        ),
        cmd is CheckSensor && data.len() >= 1 && data[0] == 0x29 ==> spec_outcome::<E>(cmd, data)
            == Ok::<Reply, Error<E>>(Reply::Code(ConfirmationCode::SensorAbnormal)),
        cmd is GetLibraryCount && data.len() >= 3 && data[0] == 0x00 ==> spec_outcome::<E>(
            cmd,
            data,
        ) == Ok::<Reply, Error<E>>(Reply::Count((data[1] * 256 + data[2]) as u16)),
        spec_outcome::<E>(cmd, data) matches Ok(Reply::Parameters(p)) ==> data.len() >= 16 && p.spec_library_size() == data[data.len() - 12] * 256
            + data[data.len() - 11],
        cmd is ReadSystemParameters && data.len() >= 16 && data[0] == 0x00 ==> spec_outcome::<E>(
            cmd,
            data,
        ) is Ok,
{
    crate::types::lemma_confirmation_code_bytes();
    if data.len() >= 3 {
        crate::bytes::lemma_be16_value(0, data[1], data[2]);
    }
    SystemParameters::lemma_from_suffix(data);
    if data.len() >= 16 {
        crate::bytes::lemma_be16_value(0, data[data.len() - 12], data[data.len() - 11]);
    }
}

/// What the nine header bytes of a reply lead to, in terms of the bytes:
/// an unknown package identifier byte is rejected first, then a magic
/// number other than 0xEF01 or a length field below 2, then a payload longer
/// than 12 bytes (17 for the system parameters); any other header is taken.
pub proof fn lemma_header_verdict_bytes<E>(cmd: Command, b: Seq<u8>)
    requires
        b.len() == 9,
    ensures
        ({
            let length = b[7] * 256 + b[8];
            let capacity = if cmd is ReadSystemParameters {
                17int
            } else {
                12int
            };
            &&& !(b[6] == 0x01 || b[6] == 0x02 || b[6] == 0x07 || b[6] == 0x08)
                ==> spec_header_verdict::<E>(cmd, b) == Err::<PackageHeader, Error<E>>(
                Error::InvalidPid,
            )
            &&& (b[6] == 0x01 || b[6] == 0x02 || b[6] == 0x07 || b[6] == 0x08) && (b[0] != 0xEF
                || b[1] != 0x01 || length < 2) ==> spec_header_verdict::<E>(cmd, b) == Err::<
                PackageHeader,
                Error<E>,
            >(Error::InvalidHeader)
            &&& (b[6] == 0x01 || b[6] == 0x02 || b[6] == 0x07 || b[6] == 0x08) && b[0] == 0xEF
                && b[1] == 0x01 && length >= 2 && length - 2 > capacity ==> spec_header_verdict::<
                E,
            >(cmd, b) == Err::<PackageHeader, Error<E>>(Error::BufTooSmall)
            &&& (b[6] == 0x01 || b[6] == 0x02 || b[6] == 0x07 || b[6] == 0x08) && b[0] == 0xEF
                && b[1] == 0x01 && 2 <= length <= capacity + 2 ==> spec_header_verdict::<E>(
                cmd,
                b,
            ) is Ok
            &&& spec_header_verdict::<E>(cmd, b) matches Ok(h) ==> {
                &&& b[0] == 0xEF && b[1] == 0x01
                &&& h.length == length && 2 <= length <= capacity + 2
                &&& h.pid.spec_code() == b[6]
                &&& h.address == b[2] * 0x100_0000 + b[3] * 0x1_0000 + b[4] * 256 + b[5]
            }
        }),
{
    crate::packet::lemma_header_bytes(
        PackageHeader { header: 0, address: 0, pid: Pid::Command, length: 0 },
        b,
    );
    crate::types::lemma_pid_bytes();
    crate::bytes::lemma_be16_value(0, b[0], b[1]);
}

/// What the bytes after a header lead to: the last two are the checksum,
/// high byte first; when it differs from the checksum of the header and
/// the payload before it the reply is rejected, otherwise the reply means
/// what that payload means.
pub proof fn lemma_body_verdict_bytes<E>(cmd: Command, h: PackageHeader, b: Seq<u8>)
    requires
        b.len() == h.length >= 2,
    ensures
        ({
            let n = b.len() - 2;
            let carried = b[n] * 256 + b[n + 1];
            &&& carried != spec_checksum(h.pid, h.length, b.subrange(0, n)) ==> spec_body_verdict::<
                E,
            >(cmd, h, b) == Err::<Reply, Error<E>>(Error::Checksum)
            &&& carried == spec_checksum(h.pid, h.length, b.subrange(0, n)) ==> spec_body_verdict::<
                E,
            >(cmd, h, b) == spec_outcome::<E>(cmd, b.subrange(0, n))
        }),
{
    let n = b.len() - 2;
    crate::bytes::lemma_be16_value(0, b[n], b[n + 1]);
    assert(b.take(n) =~= b.subrange(0, n));
}

/// The reads and the end of an exchange: after the packet is written 9
/// header bytes are read, then as many bytes as the header's length field
/// says; a failed write or read ends the command with that failure.
pub proof fn lemma_exchange_io<E>(
    s: SessionView,
    b: Seq<u8>,
    h: PackageHeader,
    e: E,
    re: ReadError<E>,
)
    requires
        s.exchange is Some,
    ensures
        s.exchange.unwrap().stage is Sending ==> s.next(EventView::<E>::Sent).1
            == ActionView::<E>::Receive(9),
        s.next(EventView::<E>::SendFailed(e)) == (
            s.with_exchange(None),
            ActionView::<E>::Finish(Err(Error::WriteErr(e))),
        ),
        !(s.exchange.unwrap().stage is Sending) ==> s.next(EventView::<E>::ReceiveFailed(re)) == (
            s.with_exchange(None),
            ActionView::<E>::Finish(Err(Error::ReadErr(re))),
        ),
        s.exchange.unwrap().stage is AwaitingHeader && spec_header_verdict::<E>(
            s.exchange.unwrap().wire,
            b,
        ) == Ok::<PackageHeader, Error<E>>(h) ==> s.next(EventView::<E>::Received(b)).1
            == ActionView::<E>::Receive(h.length as int),
{
}

/// Which command goes on the line: the password check whenever the session
/// is not authenticated, and in an authenticated session the command itself
/// but for a search while the parameters are unknown.
pub proof fn lemma_schedule(s: SessionView, goal: Command)
    ensures
        !s.authenticated ==> s.schedule(goal) == Command::VfyPwd,
        goal == Command::VfyPwd ==> s.schedule(goal) == Command::VfyPwd,
        s.authenticated && !(goal is SearchForMatch) ==> s.schedule(goal) == goal,
        s.authenticated && s.parameters is Some ==> s.schedule(goal) == goal,
{
}

/// The effects of an accepted reply: a successful password check
/// authenticates the session, a successful parameter read leaves the
/// parameters it read in the session, and the exchange ends with the reply
/// when the command on the line was the one asked for, or goes on with the
/// next command's packet otherwise.
pub proof fn lemma_reply_effects<E>(s: SessionView, h: PackageHeader, b: Seq<u8>, reply: Reply)
    requires
        s.exchange matches Some(x) && x.stage == Stage::AwaitingBody(h),
        spec_body_verdict::<E>(s.exchange.unwrap().wire, h, b) == Ok::<Reply, Error<E>>(reply),
    ensures
        ({
            let x = s.exchange.unwrap();
            let (t, a) = s.next(EventView::<E>::Received(b));
            &&& x.wire == Command::VfyPwd ==> t.authenticated
            &&& s.authenticated ==> t.authenticated
            &&& reply matches Reply::Parameters(p) ==> t.parameters == Some(p)
            &&& x.wire == x.goal ==> t.exchange is None && a == ActionView::<E>::Finish(Ok(reply))
            &&& x.wire != x.goal ==> (t.exchange matches Some(y) && y.goal == x.goal && y.stage
                == Stage::Sending && a == ActionView::<E>::Send(t.request(y.wire)))
        }),
{
}

} // verus!
