//! The checks and replies of the HTTP interface.
//!
//! A request is first checked and turned into the command to send
//! (`plan_classic_mode`, `plan_manual_mode`); a request that fails its check
//! is answered by `request_error_reply`. Once the command has been sent, or
//! could not be, the reply is built from what happened (`classic_mode_reply`,
//! `manual_mode_reply`, `stop_reply`).

use vstd::prelude::*;
use vstd::string::StrSliceExecFns;

use crate::commands::{
    classic_command_spec, get_classic_mode_command, get_manual_a_command, get_manual_b_command,
    lemma_manual_command_layout, manual_a_command_spec, manual_b_command_spec, MAX_INTENSITY,
};
use crate::text::{format_command, hex_listing_spec, string_push_str};

verus! {

/// The two manual controls: `A` sets the rotation, `B` the suction.
#[derive(Clone, Copy, Debug, PartialEq, Eq, Structural)]
pub enum ControlType {
    /// Control type `A`.
    Rotation,
    /// Control type `B`.
    Suction,
}

/// The control named by a query's `type`: exactly `A` or `B`.
pub open spec fn control_type_spec(s: Seq<char>) -> Option<ControlType> {
    if s == seq!['A'] {
        Some(ControlType::Rotation)
    } else if s == seq!['B'] {
        Some(ControlType::Suction)
    } else {
        None
    }
}

/// A query's `type` names a control exactly when it is that control's letter:
/// reading a type and writing the control back gives the same text, `A` is
/// the rotation and `B` the suction.
pub proof fn lemma_control_type_round_trip(s: Seq<char>, control: ControlType)
    ensures
        control_type_spec(s) == Some(control) <==> s == control.letter_spec(),
        control.letter_spec() == seq!['A'] <==> control == ControlType::Rotation,
        control.letter_spec() == seq!['B'] <==> control == ControlType::Suction,
{
    assert(seq!['A'] != seq!['B']) by {
        assert(seq!['A'][0] != seq!['B'][0]);
    }
}

/// The command that sets a manual control to an intensity.
pub open spec fn manual_command_spec(control: ControlType, intensity: u8) -> Option<Seq<u8>> {
    match control {
        ControlType::Rotation => manual_a_command_spec(intensity),
        ControlType::Suction => manual_b_command_spec(intensity),
    }
}

/// A manual command carries the control and the intensity it was asked for:
/// for every intensity up to 20, the command of a control is the command of
/// the table of that control at that same intensity, its third byte names the
/// control (`0x24` for `A`, `0x27` for `B`) and its fourth byte is the
/// intensity xor `0x62`.
pub proof fn lemma_manual_command_carries_request(control: ControlType, intensity: u8)
    requires
        intensity <= MAX_INTENSITY,
    ensures
        control == ControlType::Rotation ==> manual_command_spec(control, intensity)
            == manual_a_command_spec(intensity),
        control == ControlType::Suction ==> manual_command_spec(control, intensity)
            == manual_b_command_spec(intensity),
        manual_command_spec(control, intensity) matches Some(c) && c.len() == 5 && c[2] == (
        if control == ControlType::Rotation {
            0x24u8
        } else {
            0x27u8
        }) && c[3] == intensity ^ 0x62u8,
{
    lemma_manual_command_layout(intensity);
}

/// Reads a query's `type`: `A` names the rotation, `B` the suction, anything
/// else nothing.
pub fn parse_control_type(s: &str) -> (r: Option<ControlType>)
    ensures
        r == control_type_spec(s@),
{
    if s.unicode_len() != 1 {
        return None;
    }
    let c = s.get_char(0);
    if c == 'A' {
        assert(s@ =~= seq!['A']);
        Some(ControlType::Rotation)
    } else if c == 'B' {
        assert(s@ =~= seq!['B']);
        Some(ControlType::Suction)
    } else {
        None
    }
}

impl ControlType {
    /// The name of the control in queries and replies.
    pub open spec fn letter_spec(self) -> Seq<char> {
        match self {
            ControlType::Rotation => seq!['A'],
            ControlType::Suction => seq!['B'],
        }
    }

    /// The name of the control in queries and replies: `A` or `B`.
    pub fn letter(&self) -> (s: &'static str)
        ensures
            s@ == self.letter_spec(),
    {
        proof {
            reveal_strlit("A");
            reveal_strlit("B");
        }
        match self {
            ControlType::Rotation => "A",
            ControlType::Suction => "B",
        }
    }
}

/// The status of a reply.
#[derive(Clone, Copy, Debug, PartialEq, Eq, Structural)]
pub enum HttpStatus {
    /// 200
    Success,
    /// 400
    BadRequest,
    /// 500
    InternalServerError,
    /// 503
    ServiceUnavailable,
}

impl HttpStatus {
    /// The numeric status code.
    pub open spec fn code_spec(self) -> u16 {
        match self {
            HttpStatus::Success => 200,
            HttpStatus::BadRequest => 400,
            HttpStatus::InternalServerError => 500,
            HttpStatus::ServiceUnavailable => 503,
        }
    }

    /// The numeric status code.
    pub fn code(&self) -> (c: u16)
        ensures
            c == self.code_spec(),
    {
        match self {
            HttpStatus::Success => 200,
            HttpStatus::BadRequest => 400,
            HttpStatus::InternalServerError => 500,
            HttpStatus::ServiceUnavailable => 503,
        }
    }
}

/// Why a request was refused before any command was sent.
#[derive(Clone, Copy, Debug, PartialEq, Eq, Structural)]
pub enum RequestError {
    /// A preset mode outside 1 to 10 was asked for.
    ModeOutOfRange,
    /// An intensity above 20 was asked for.
    IntensityOutOfRange,
    /// A control type other than `A` or `B` was asked for.
    InvalidControlType,
    /// No command was found for a request that passed its checks.
    CommandUnavailable,
}

impl RequestError {
    /// The status with which the refusal is answered.
    pub open spec fn status_spec(self) -> HttpStatus {
        match self {
            RequestError::CommandUnavailable => HttpStatus::InternalServerError,
            _ => HttpStatus::BadRequest,
        }
    }

    /// The text with which the refusal is answered.
    pub open spec fn message_spec(self) -> Seq<char> {
        match self {
            RequestError::ModeOutOfRange => "type 必须在 1-10 之间"@,
            RequestError::IntensityOutOfRange => "intensity 必须在 0-20 之间"@,
            RequestError::InvalidControlType => "type 必须是 A 或 B"@,
            RequestError::CommandUnavailable => "获取命令失败"@,
        }
    }

    /// The status with which the refusal is answered.
    pub fn status(&self) -> (s: HttpStatus)
        ensures
            s == self.status_spec(),
    {
        match self {
            RequestError::CommandUnavailable => HttpStatus::InternalServerError,
            _ => HttpStatus::BadRequest,
        }
    }

    /// The text with which the refusal is answered.
    pub fn message(&self) -> (m: String)
        ensures
            m@ == self.message_spec(),
    {
        match self {
            RequestError::ModeOutOfRange => "type 必须在 1-10 之间".to_owned(),
            RequestError::IntensityOutOfRange => "intensity 必须在 0-20 之间".to_owned(),
            RequestError::InvalidControlType => "type 必须是 A 或 B".to_owned(),
            RequestError::CommandUnavailable => "获取命令失败".to_owned(),
        }
    }
}

/// The text of the reply when no device is connected.
pub open spec fn not_connected_message_spec() -> Seq<char> {
    "设备未连接"@
}

/// The text that introduces the reason why a command could not be sent.
pub open spec fn send_failed_prefix_spec() -> Seq<char> {
    "发送命令失败: "@
}

/// The reason given when no characteristic of the device accepted a command.
pub open spec fn no_writable_characteristic_spec() -> Seq<char> {
    "未能找到可写入的特征值"@
}

/// What became of the attempt to send a command.
pub enum SendOutcome {
    /// No device is connected: nothing was sent.
    NoDevice,
    /// The command was written to the device.
    Delivered,
    /// A call to the Bluetooth stack failed; this is the text of its error.
    CallFailed(String),
    /// No characteristic of the device accepted the command.
    NoWritableCharacteristic,
}

/// The body of a reply, written out as a JSON object by the server.
pub enum ReplyBody {
    /// `{"error": error}`
    Failure { error: String },
    /// `{"status": "success", "mode": mode, "command": command}`
    Classic { mode: u8, command: String },
    /// `{"status": "success", "type": control, "intensity": intensity, "command": command}`
    Manual { control: ControlType, intensity: u8, command: String },
    /// `{"status": "success", "command": "stop", "data": data}`
    Stopped { data: String },
}

/// A reply: its status and its body.
pub struct Reply {
    pub status: HttpStatus,
    pub body: ReplyBody,
}

/// The body of a reply, its texts taken as sequences of characters.
pub enum ReplyBodyView {
    Failure { error: Seq<char> },
    Classic { mode: u8, command: Seq<char> },
    Manual { control: ControlType, intensity: u8, command: Seq<char> },
    Stopped { data: Seq<char> },
}

/// A reply, its texts taken as sequences of characters.
pub struct ReplyView {
    pub status: HttpStatus,
    pub body: ReplyBodyView,
}

impl View for ReplyBody {
    type V = ReplyBodyView;

    open spec fn view(&self) -> ReplyBodyView {
        match self {
            ReplyBody::Failure { error } => ReplyBodyView::Failure { error: error@ },
            ReplyBody::Classic { mode, command } => ReplyBodyView::Classic {
                mode: *mode,
                command: command@,
            },
            ReplyBody::Manual { control, intensity, command } => ReplyBodyView::Manual {
                control: *control,
                intensity: *intensity,
                command: command@,
            },
            ReplyBody::Stopped { data } => ReplyBodyView::Stopped { data: data@ },
        }
    }
}

impl View for Reply {
    type V = ReplyView;

    open spec fn view(&self) -> ReplyView {
        ReplyView { status: self.status, body: self.body@ }
    }
}

/// The reply to a request refused before any command was sent.
pub open spec fn request_error_reply_spec(e: RequestError) -> ReplyView {
    ReplyView {
        status: e.status_spec(),
        body: ReplyBodyView::Failure { error: e.message_spec() },
    }
}

/// The reply once a command has been sent, or could not be: `success` when
/// it was delivered, 503 when no device is connected, 500 with the reason
/// when sending failed.
pub open spec fn outcome_reply_spec(success: ReplyBodyView, outcome: SendOutcome) -> ReplyView {
    match outcome {
        SendOutcome::Delivered => ReplyView { status: HttpStatus::Success, body: success },
        SendOutcome::NoDevice => ReplyView {
            status: HttpStatus::ServiceUnavailable,
            body: ReplyBodyView::Failure { error: not_connected_message_spec() },
        },
        SendOutcome::CallFailed(text) => ReplyView {
            status: HttpStatus::InternalServerError,
            body: ReplyBodyView::Failure { error: send_failed_prefix_spec() + text@ },
        },
        SendOutcome::NoWritableCharacteristic => ReplyView {
            status: HttpStatus::InternalServerError,
            body: ReplyBodyView::Failure {
                error: send_failed_prefix_spec() + no_writable_characteristic_spec(),
            },
        },
    }
}

/// Every reply is either a success or an error object: a request refused
/// before sending is answered with `{"error": ...}` and a status other than
/// 200; after sending, the reply has status 200 and the success body exactly
/// when the command was delivered, and otherwise `{"error": ...}`.
pub proof fn lemma_replies_are_success_or_error(
    e: RequestError,
    success: ReplyBodyView,
    outcome: SendOutcome,
)
    requires
        !(success is Failure),
    ensures
        request_error_reply_spec(e).status != HttpStatus::Success,
        request_error_reply_spec(e).body is Failure,
        (outcome_reply_spec(success, outcome).status == HttpStatus::Success) <==> (
        outcome is Delivered),
        outcome is Delivered ==> outcome_reply_spec(success, outcome).body == success,
        !(outcome is Delivered) ==> outcome_reply_spec(success, outcome).body is Failure,
{
}

/// Answers a request refused before any command was sent: `{"error": ...}`
/// with the status and text of the refusal.
pub fn request_error_reply(e: RequestError) -> (r: Reply)
    ensures
        r@ == request_error_reply_spec(e),
{
    Reply { status: e.status(), body: ReplyBody::Failure { error: e.message() } }
}

fn outcome_reply(success: ReplyBody, outcome: SendOutcome) -> (r: Reply)
    ensures
        r@ == outcome_reply_spec(success@, outcome),
{
    match outcome {
        SendOutcome::Delivered => Reply { status: HttpStatus::Success, body: success },
        SendOutcome::NoDevice => Reply {
            status: HttpStatus::ServiceUnavailable,
            body: ReplyBody::Failure { error: "设备未连接".to_owned() },
        },
        SendOutcome::CallFailed(text) => {
            let mut error = "发送命令失败: ".to_owned();
            string_push_str(&mut error, text.as_str());
            Reply { status: HttpStatus::InternalServerError, body: ReplyBody::Failure { error } }
        },
        SendOutcome::NoWritableCharacteristic => {
            let mut error = "发送命令失败: ".to_owned();
            string_push_str(&mut error, "未能找到可写入的特征值");
            Reply { status: HttpStatus::InternalServerError, body: ReplyBody::Failure { error } }
        },
    }
}

/// Checks a request for a preset mode and finds its command: refused with
/// `ModeOutOfRange` exactly when the mode is outside 1 to 10.
pub fn plan_classic_mode(mode_type: u8) -> (r: Result<Vec<u8>, RequestError>)
    ensures
        r is Ok <==> 1 <= mode_type <= 10,
        r matches Ok(c) ==> classic_command_spec(mode_type) == Some(c@),
        r matches Err(e) ==> e == RequestError::ModeOutOfRange,
{
    if !(1 <= mode_type && mode_type <= 10) {
        return Err(RequestError::ModeOutOfRange);
    }
    match get_classic_mode_command(mode_type) {
        Some(command) => Ok(command),
        None => Err(RequestError::CommandUnavailable),
    }
}

/// Checks a request for a manual control and finds its command. The
/// intensity is checked first: above 20 the request is refused with
/// `IntensityOutOfRange`, whatever its type; otherwise a type other than `A`
/// or `B` is refused with `InvalidControlType`.
pub fn plan_manual_mode(control_type: &str, intensity: u8) -> (r: Result<
    (ControlType, Vec<u8>),
    RequestError,
>)
    ensures
        r is Ok <==> intensity <= MAX_INTENSITY && control_type_spec(control_type@) is Some,
        r matches Ok((control, c)) ==> control_type_spec(control_type@) == Some(control)
            && manual_command_spec(control, intensity) == Some(c@),
        r matches Ok((control, c)) ==> (control == ControlType::Rotation ==> manual_a_command_spec(
            intensity,
        ) == Some(c@)),
        r matches Ok((control, c)) ==> (control == ControlType::Suction ==> manual_b_command_spec(
            intensity,
        ) == Some(c@)),
        r matches Err(e) ==> (e == (if intensity > MAX_INTENSITY {
            RequestError::IntensityOutOfRange
        } else {
            RequestError::InvalidControlType
        })),
{
    if intensity > MAX_INTENSITY {
        return Err(RequestError::IntensityOutOfRange);
    }
    let control = match parse_control_type(control_type) {
        Some(control) => control,
        None => {
            return Err(RequestError::InvalidControlType);
        },
    };
    let command = match control {
        ControlType::Rotation => get_manual_a_command(intensity),
        ControlType::Suction => get_manual_b_command(intensity),
    };
    match command {
        Some(command) => Ok((control, command)),
        None => Err(RequestError::CommandUnavailable),
    }
}

/// The reply to a request for a preset mode whose command was sent (or could
/// not be): on delivery, status 200 with the mode and the command listed in
/// hexadecimal.
pub fn classic_mode_reply(mode_type: u8, command: &[u8], outcome: SendOutcome) -> (r: Reply)
    ensures
        r@ == outcome_reply_spec(
            ReplyBodyView::Classic { mode: mode_type, command: hex_listing_spec(command@) },
            outcome,
        ),
{
    let body = ReplyBody::Classic { mode: mode_type, command: format_command(command) };
    outcome_reply(body, outcome)
}

/// The reply to a request for a manual control whose command was sent (or
/// could not be): on delivery, status 200 with the control, the intensity and
/// the command listed in hexadecimal.
pub fn manual_mode_reply(
    control: ControlType,
    intensity: u8,
    command: &[u8],
    outcome: SendOutcome,
) -> (r: Reply)
    ensures
        r@ == outcome_reply_spec(
            ReplyBodyView::Manual { control, intensity, command: hex_listing_spec(command@) },
            outcome,
        ),
{
    let body = ReplyBody::Manual { control, intensity, command: format_command(command) };
    outcome_reply(body, outcome)
}

/// The reply to a request to stop, once the stop command was sent (or could
/// not be): on delivery, status 200 with the command listed in hexadecimal.
pub fn stop_reply(command: &[u8], outcome: SendOutcome) -> (r: Reply)
    ensures
        r@ == outcome_reply_spec(
            ReplyBodyView::Stopped { data: hex_listing_spec(command@) },
            outcome,
        ),
{
    let body = ReplyBody::Stopped { data: format_command(command) };
    outcome_reply(body, outcome)
}

} // verus!
