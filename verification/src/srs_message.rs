//! The SRS (SimpleRadio Standalone) control protocol: the numeric wire codes of its
//! enumerations, the message-type tags, and the identifiers of SRS clients.
use vstd::prelude::*;

use crate::decimal::{decimal_digits, push_decimal};

verus! {

/// The side an SRS client is on.
#[derive(Clone, Copy, Debug, PartialEq, Eq, Structural)]
pub enum Coalition {
    Spectator,
    Blue,
    Red,
}

/// The number by which the SRS protocol encodes a coalition.
pub open spec fn coalition_code(c: Coalition) -> u64 {
    match c {
        Coalition::Spectator => 0,
        Coalition::Red => 1,
        Coalition::Blue => 2,
    }
}

/// The coalition that an SRS number stands for, if any.
pub open spec fn coalition_of_code(v: u64) -> Option<Coalition> {
    if v == 0 {
        Some(Coalition::Spectator)
    } else if v == 1 {
        Some(Coalition::Red)
    } else if v == 2 {
        Some(Coalition::Blue)
    } else {
        None
    }
}

/// The text of the error for a number that stands for no coalition.
pub open spec fn unknown_coalition_message(v: u64) -> Seq<char> {
    "unknown Coalition value: "@ + decimal_digits(v as nat)
}

impl Coalition {
    /// Encodes the coalition as the SRS protocol does.
    pub fn serialize(&self) -> (r: u64)
        ensures
            r == coalition_code(*self),
    {
        match self {
            Coalition::Spectator => 0,
            Coalition::Red => 1,
            Coalition::Blue => 2,
        }
    }

    /// Decodes an SRS coalition number; any other number is refused with a message that
    /// names it.
    pub fn deserialize(value: u64) -> (r: Result<Coalition, String>)
        ensures
            coalition_of_code(value) is Some ==> r == Ok::<Coalition, String>(
                coalition_of_code(value).unwrap(),
            ),
            coalition_of_code(value) is None ==> (r matches Err(msg) && msg@
                == unknown_coalition_message(value)),
    {
        if value == 0 {
            Ok(Coalition::Spectator)
        } else if value == 1 {
            Ok(Coalition::Red)
        } else if value == 2 {
            Ok(Coalition::Blue)
        } else {
            let mut msg = String::new();
            proof {
                reveal_strlit("unknown Coalition value: ");
            }
            msg.append("unknown Coalition value: ");
            push_decimal(&mut msg, value);
            assert(msg@ =~= unknown_coalition_message(value));
            Err(msg)
        }
    }
}

/// Decoding what encoding gave back yields the coalition again.
pub proof fn lemma_coalition_round_trip(c: Coalition)
    ensures
        coalition_of_code(coalition_code(c)) == Some(c),
{
}

/// A number that decodes to a coalition is that coalition's code.
pub proof fn lemma_coalition_code_unique(v: u64)
    ensures
        coalition_of_code(v) matches Some(c) ==> coalition_code(c) == v,
{
}

/// The modulation of an SRS radio.
#[derive(Clone, Copy, Debug, PartialEq, Eq, Structural)]
pub enum Modulation {
    Am,
    Fm,
    Intercom,
    Disabled,
    HaveQuick,
    Satcom,
    Mids,
}

/// The byte by which the SRS protocol encodes a modulation.
pub open spec fn modulation_code(m: Modulation) -> u8 {
    match m {
        Modulation::Am => 0,
        Modulation::Fm => 1,
        Modulation::Intercom => 2,
        Modulation::Disabled => 3,
        Modulation::HaveQuick => 4,
        Modulation::Satcom => 5,
        Modulation::Mids => 6,
    }
}

/// The modulation that a byte stands for, if any.
pub open spec fn modulation_of_code(v: u8) -> Option<Modulation> {
    if v == 0 {
        Some(Modulation::Am)
    } else if v == 1 {
        Some(Modulation::Fm)
    } else if v == 2 {
        Some(Modulation::Intercom)
    } else if v == 3 {
        Some(Modulation::Disabled)
    } else if v == 4 {
        Some(Modulation::HaveQuick)
    } else if v == 5 {
        Some(Modulation::Satcom)
    } else if v == 6 {
        Some(Modulation::Mids)
    } else {
        None
    }
}

impl Modulation {
    /// The byte that stands for this modulation.
    pub fn to_u8(&self) -> (r: u8)
        ensures
            r == modulation_code(*self),
    {
        match self {
            Modulation::Am => 0,
            Modulation::Fm => 1,
            Modulation::Intercom => 2,
            Modulation::Disabled => 3,
            Modulation::HaveQuick => 4,
            Modulation::Satcom => 5,
            Modulation::Mids => 6,
        }
    }

    /// The modulation that the byte `v` stands for; `None` for a byte that stands for none.
    pub fn from_u8(v: u8) -> (r: Option<Modulation>)
        ensures
            r == modulation_of_code(v),
    {
        if v == 0 {
            Some(Modulation::Am)
        } else if v == 1 {
            Some(Modulation::Fm)
        } else if v == 2 {
            Some(Modulation::Intercom)
        } else if v == 3 {
            Some(Modulation::Disabled)
        } else if v == 4 {
            Some(Modulation::HaveQuick)
        } else if v == 5 {
            Some(Modulation::Satcom)
        } else if v == 6 {
            Some(Modulation::Mids)
        } else {
            None
        }
    }
}

impl Default for Modulation {
    fn default() -> (r: Self)
        ensures
            r == Modulation::Disabled,
    {
        Modulation::Disabled
    }
}

/// Decoding the code of a modulation gives the modulation back, and a byte that decodes
/// is the code of what it decodes to.
pub proof fn lemma_modulation_round_trip(m: Modulation, v: u8)
    ensures
        modulation_of_code(modulation_code(m)) == Some(m),
        modulation_of_code(v) matches Some(n) ==> modulation_code(n) == v,
{
}

/// Where the controls of an SRS radio are.
#[derive(Clone, Copy, Debug, PartialEq, Eq, Structural)]
pub enum RadioSwitchControls {
    Hotas,
    InCockpit,
}

/// The byte by which the SRS protocol encodes the radio switch controls.
pub open spec fn radio_switch_controls_code(c: RadioSwitchControls) -> u8 {
    match c {
        RadioSwitchControls::Hotas => 0,
        RadioSwitchControls::InCockpit => 1,
    }
}

/// The radio switch controls that a byte stands for, if any.
pub open spec fn radio_switch_controls_of_code(v: u8) -> Option<RadioSwitchControls> {
    if v == 0 {
        Some(RadioSwitchControls::Hotas)
    } else if v == 1 {
        Some(RadioSwitchControls::InCockpit)
    } else {
        None
    }
}

impl RadioSwitchControls {
    /// The byte that stands for these controls.
    pub fn to_u8(&self) -> (r: u8)
        ensures
            r == radio_switch_controls_code(*self),
    {
        match self {
            RadioSwitchControls::Hotas => 0,
            RadioSwitchControls::InCockpit => 1,
        }
    }

    /// The controls that the byte `v` stands for; `None` for any other byte.
    pub fn from_u8(v: u8) -> (r: Option<RadioSwitchControls>)
        ensures
            r == radio_switch_controls_of_code(v),
    {
        if v == 0 {
            Some(RadioSwitchControls::Hotas)
        } else if v == 1 {
            Some(RadioSwitchControls::InCockpit)
        } else {
            None
        }
    }
}

impl Default for RadioSwitchControls {
    fn default() -> (r: Self)
        ensures
            r == RadioSwitchControls::Hotas,
    {
        RadioSwitchControls::Hotas
    }
}

/// Decoding the code of the radio switch controls gives them back, and a byte that decodes
/// is the code of what it decodes to.
pub proof fn lemma_radio_switch_controls_round_trip(c: RadioSwitchControls, v: u8)
    ensures
        radio_switch_controls_of_code(radio_switch_controls_code(c)) == Some(c),
        radio_switch_controls_of_code(v) matches Some(d) ==> radio_switch_controls_code(d) == v,
{
}

/// Who controls an IFF transponder.
#[derive(Clone, Copy, Debug, PartialEq, Eq, Structural)]
pub enum IffControlMode {
    Cockpit,
    Overlay,
    Disabled,
}

/// The byte by which the SRS protocol encodes an IFF control mode.
pub open spec fn iff_control_mode_code(m: IffControlMode) -> u8 {
    match m {
        IffControlMode::Cockpit => 0,
        IffControlMode::Overlay => 1,
        IffControlMode::Disabled => 2,
    }
}

/// The IFF control mode that a byte stands for, if any.
pub open spec fn iff_control_mode_of_code(v: u8) -> Option<IffControlMode> {
    if v == 0 {
        Some(IffControlMode::Cockpit)
    } else if v == 1 {
        Some(IffControlMode::Overlay)
    } else if v == 2 {
        Some(IffControlMode::Disabled)
    } else {
        None
    }
}

impl IffControlMode {
    /// The byte that stands for this control mode.
    pub fn to_u8(&self) -> (r: u8)
        ensures
            r == iff_control_mode_code(*self),
    {
        match self {
            IffControlMode::Cockpit => 0,
            IffControlMode::Overlay => 1,
            IffControlMode::Disabled => 2,
        }
    }

    /// The control mode that the byte `v` stands for; `None` for any other byte.
    pub fn from_u8(v: u8) -> (r: Option<IffControlMode>)
        ensures
            r == iff_control_mode_of_code(v),
    {
        if v == 0 {
            Some(IffControlMode::Cockpit)
        } else if v == 1 {
            Some(IffControlMode::Overlay)
        } else if v == 2 {
            Some(IffControlMode::Disabled)
        } else {
            None
        }
    }
}

/// Decoding the code of an IFF control mode gives it back, and a byte that decodes is the
/// code of what it decodes to.
pub proof fn lemma_iff_control_mode_round_trip(m: IffControlMode, v: u8)
    ensures
        iff_control_mode_of_code(iff_control_mode_code(m)) == Some(m),
        iff_control_mode_of_code(v) matches Some(n) ==> iff_control_mode_code(n) == v,
{
}

/// The state of an IFF transponder.
#[derive(Clone, Copy, Debug, PartialEq, Eq, Structural)]
pub enum IffStatus {
    Off,
    Normal,
    Ident,
}

/// The byte by which the SRS protocol encodes an IFF status.
pub open spec fn iff_status_code(s: IffStatus) -> u8 {
    match s {
        IffStatus::Off => 0,
        IffStatus::Normal => 1,
        IffStatus::Ident => 2,
    }
}

/// The IFF status that a byte stands for, if any.
pub open spec fn iff_status_of_code(v: u8) -> Option<IffStatus> {
    if v == 0 {
        Some(IffStatus::Off)
    } else if v == 1 {
        Some(IffStatus::Normal)
    } else if v == 2 {
        Some(IffStatus::Ident)
    } else {
        None
    }
}

impl IffStatus {
    /// The byte that stands for this status.
    pub fn to_u8(&self) -> (r: u8)
        ensures
            r == iff_status_code(*self),
    {
        match self {
            IffStatus::Off => 0,
            IffStatus::Normal => 1,
            IffStatus::Ident => 2,
        }
    }

    /// The status that the byte `v` stands for; `None` for any other byte.
    pub fn from_u8(v: u8) -> (r: Option<IffStatus>)
        ensures
            r == iff_status_of_code(v),
    {
        if v == 0 {
            Some(IffStatus::Off)
        } else if v == 1 {
            Some(IffStatus::Normal)
        } else if v == 2 {
            Some(IffStatus::Ident)
        } else {
            None
        }
    }
}

/// Decoding the code of an IFF status gives it back, and a byte that decodes is the code of
/// what it decodes to.
pub proof fn lemma_iff_status_round_trip(s: IffStatus, v: u8)
    ensures
        iff_status_of_code(iff_status_code(s)) == Some(s),
        iff_status_of_code(v) matches Some(t) ==> iff_status_code(t) == v,
{
}

/// The IFF transponder of an SRS client.
#[derive(Clone, Copy, Debug, PartialEq, Eq, Structural)]
pub struct Transponder {
    pub control: IffControlMode,
    pub mode1: i32,
    pub mode3: i32,
    pub mode4: bool,
    pub mic: i32,
    pub status: IffStatus,
}

/// A transponder that is switched off and not controlled by anyone.
pub open spec fn transponder_off() -> Transponder {
    Transponder {
        control: IffControlMode::Disabled,
        mode1: -1i32,
        mode3: -1i32,
        mode4: false,
        mic: -1i32,
        status: IffStatus::Off,
    }
}

impl Default for Transponder {
    /// A transponder that is switched off and not controlled by anyone.
    fn default() -> (r: Self)
        ensures
            r == transponder_off(),
    {
        Transponder {
            control: IffControlMode::Disabled,
            mode1: -1,
            mode3: -1,
            mode4: false,
            mic: -1,
            status: IffStatus::Off,
        }
    }
}

/// The type tag of an SRS message, carried as the number `V`.
#[derive(Clone, Copy, Debug)]
pub struct MsgType<const V: u8>;

/// The refusal of a message-type number that is not the expected one.
#[derive(Clone, Copy, Debug, PartialEq, Eq, Structural)]
pub struct MsgTypeError;

impl MsgTypeError {
    /// The text of the error.
    pub fn message(&self) -> (r: String)
        ensures
            r@ == "Invalid message type"@,
    {
        String::from_str("Invalid message type")
    }
}

impl<const V: u8> MsgType<V> {
    /// The number that stands for this message type.
    pub fn serialize(&self) -> (r: u8)
        ensures
            r == V,
    {
        V
    }

    /// Accepts the number `value` exactly when it is the tag `V`.
    pub fn deserialize(value: u8) -> (r: Result<MsgType<V>, MsgTypeError>)
        ensures
            r is Ok <==> value == V,
    {
        if value == V {
            Ok(MsgType::<V>)
        } else {
            Err(MsgTypeError)
        }
    }
}

/// The keep-alive message of the SRS protocol.
#[derive(Clone, Debug)]
pub struct PingMessage {
    pub msg_type: MsgType<1>,
    pub version: String,
}

/// The server settings that an SRS server announces, as key and value pairs.
#[derive(Clone, Debug)]
pub struct ServerSettingsMessage {
    pub msg_type: MsgType<4>,
    pub server_settings: Vec<(String, String)>,
    pub version: String,
}

/// The message by which an SRS server refuses a client of another protocol version.
#[derive(Clone, Debug)]
pub struct VersionMismatchMessage {
    pub msg_type: MsgType<6>,
    pub version: String,
}

/// A position of an SRS client, in billionths of degrees (latitude and longitude) and of
/// meters (altitude).
#[derive(Clone, Copy, Debug, PartialEq, Eq, Structural)]
pub struct Position {
    pub lat: i64,
    pub lon: i64,
    pub alt: i64,
}

impl Default for Position {
    fn default() -> (r: Self)
        ensures
            r == (Position { lat: 0, lon: 0, alt: 0 }),
    {
        Position { lat: 0, lon: 0, alt: 0 }
    }
}

/// A radio of an SRS client; frequencies in billionths of Hz.
#[derive(Clone, Copy, Debug, PartialEq, Eq, Structural)]
pub struct Radio {
    pub enc: bool,
    pub enc_key: u8,
    pub freq: i64,
    pub modulation: Modulation,
    pub sec_freq: i64,
    pub retransmit: bool,
}

/// A radio that is switched off: no encryption, both frequencies at 1 Hz.
pub open spec fn radio_off() -> Radio {
    Radio {
        enc: false,
        enc_key: 0,
        freq: 1_000_000_000,
        modulation: Modulation::Disabled,
        sec_freq: 1_000_000_000,
        retransmit: false,
    }
}

impl Default for Radio {
    fn default() -> (r: Self)
        ensures
            r == radio_off(),
    {
        Radio {
            enc: false,
            enc_key: 0,
            freq: 1_000_000_000,
            modulation: Modulation::Disabled,
            sec_freq: 1_000_000_000,
            retransmit: false,
        }
    }
}

/// The radios of an SRS client, the unit they belong to, and its transponder.
#[derive(Clone, Debug)]
pub struct RadioInfo {
    pub radios: Vec<Radio>,
    pub unit: String,
    pub unit_id: u32,
    pub iff: Transponder,
}

/// An SRS client as the messages of the protocol describe it.
#[derive(Clone, Debug)]
pub struct Client {
    pub client_guid: String,
    pub name: String,
    pub seat: u32,
    pub coalition: Coalition,
    pub allow_record: bool,
    pub radio_info: Option<RadioInfo>,
    pub lat_lng_position: Position,
}

/// The message by which a client announces its position and coalition.
#[derive(Clone, Debug)]
pub struct UpdateMessage {
    pub msg_type: MsgType<0>,
    pub client: Client,
    pub version: String,
}

/// The server's answer to a sync request: the clients it knows and its settings.
#[derive(Clone, Debug)]
pub struct SyncMessage {
    pub msg_type: MsgType<2>,
    pub clients: Vec<Client>,
    pub server_settings: Vec<(String, String)>,
    pub version: String,
}

/// The message by which a client asks for the server's clients and settings.
#[derive(Clone, Debug)]
pub struct SyncMessageRequest {
    pub msg_type: MsgType<2>,
    pub client: Client,
    pub version: String,
}

/// The message by which a client announces its radios.
#[derive(Clone, Debug)]
pub struct RadioUpdateMessage {
    pub msg_type: MsgType<3>,
    pub client: Client,
    pub version: String,
}

/// The message by which the server announces that a client left.
#[derive(Clone, Debug)]
pub struct ClientDisconnectMessage {
    pub msg_type: MsgType<5>,
    pub client: Client,
    pub version: String,
}

/// A message that an SRS server sends.
#[derive(Clone, Debug)]
pub enum Message {
    Update(UpdateMessage),
    Ping(PingMessage),
    Sync(SyncMessage),
    RadioUpdate(RadioUpdateMessage),
    ServerSettings(ServerSettingsMessage),
    ClientDisconnect(ClientDisconnectMessage),
    VersionMismatch(VersionMismatchMessage),
}

/// A message that an SRS client sends.
#[derive(Clone, Debug)]
pub enum MessageRequest {
    Update(UpdateMessage),
    Sync(SyncMessageRequest),
    RadioUpdate(RadioUpdateMessage),
}

/// The numbers that the SRS protocol gives each coalition, modulation, radio switch
/// control, IFF control mode and IFF status, both ways: `Spectator` 0, `Red` 1, `Blue` 2;
/// `Am` 0, `Fm` 1, `Intercom` 2, `Disabled` 3, `HaveQuick` 4, `Satcom` 5, `Mids` 6;
/// `Hotas` 0, `InCockpit` 1; `Cockpit` 0, `Overlay` 1, `Disabled` 2; `Off` 0, `Normal` 1,
/// `Ident` 2. No other number stands for anything.
pub proof fn lemma_srs_wire_codes(v: u64, b: u8)
    ensures
        coalition_code(Coalition::Spectator) == 0,
        coalition_code(Coalition::Red) == 1,
        coalition_code(Coalition::Blue) == 2,
        coalition_of_code(0) == Some(Coalition::Spectator),
        coalition_of_code(1) == Some(Coalition::Red),
        coalition_of_code(2) == Some(Coalition::Blue),
        v > 2 ==> coalition_of_code(v) is None,
        modulation_code(Modulation::Am) == 0,
        modulation_code(Modulation::Fm) == 1,
        modulation_code(Modulation::Intercom) == 2,
        modulation_code(Modulation::Disabled) == 3,
        modulation_code(Modulation::HaveQuick) == 4,
        modulation_code(Modulation::Satcom) == 5,
        modulation_code(Modulation::Mids) == 6,
        modulation_of_code(0) == Some(Modulation::Am),
        modulation_of_code(1) == Some(Modulation::Fm),
        modulation_of_code(2) == Some(Modulation::Intercom),
        modulation_of_code(3) == Some(Modulation::Disabled),
        modulation_of_code(4) == Some(Modulation::HaveQuick),
        modulation_of_code(5) == Some(Modulation::Satcom),
        modulation_of_code(6) == Some(Modulation::Mids),
        b > 6 ==> modulation_of_code(b) is None,
        radio_switch_controls_code(RadioSwitchControls::Hotas) == 0,
        radio_switch_controls_code(RadioSwitchControls::InCockpit) == 1,
        radio_switch_controls_of_code(0) == Some(RadioSwitchControls::Hotas),
        radio_switch_controls_of_code(1) == Some(RadioSwitchControls::InCockpit),
        b > 1 ==> radio_switch_controls_of_code(b) is None,
        iff_control_mode_code(IffControlMode::Cockpit) == 0,
        iff_control_mode_code(IffControlMode::Overlay) == 1,
        iff_control_mode_code(IffControlMode::Disabled) == 2,
        iff_control_mode_of_code(0) == Some(IffControlMode::Cockpit),
        iff_control_mode_of_code(1) == Some(IffControlMode::Overlay),
        iff_control_mode_of_code(2) == Some(IffControlMode::Disabled),
        b > 2 ==> iff_control_mode_of_code(b) is None,
        iff_status_code(IffStatus::Off) == 0,
        iff_status_code(IffStatus::Normal) == 1,
        iff_status_code(IffStatus::Ident) == 2,
        iff_status_of_code(0) == Some(IffStatus::Off),
        iff_status_of_code(1) == Some(IffStatus::Normal),
        iff_status_of_code(2) == Some(IffStatus::Ident),
        b > 2 ==> iff_status_of_code(b) is None,
{
}

/// The transponder that a client announces encodes as control mode 2 (disabled) and
/// status 0 (off), with the codes -1 for modes 1 and 3 and for the microphone.
pub proof fn lemma_transponder_off_wire()
    ensures
        iff_control_mode_code(transponder_off().control) == 2,
        iff_status_code(transponder_off().status) == 0,
        transponder_off().mode1 == -1,
        transponder_off().mode3 == -1,
        transponder_off().mic == -1,
        !transponder_off().mode4,
{
}

} // verus!
