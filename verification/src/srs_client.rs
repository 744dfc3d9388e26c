//! An SRS client and the decisions of its connection to the SRS server: what to do with
//! each message, timer tick and voice frame.
use vstd::prelude::*;

use crate::sguid::{base64_url_no_pad, create_sguid, is_random_uuid};
use crate::srs_message::{
    self, transponder_off, Coalition, Message, MessageRequest, Modulation, Position, RadioInfo,
    RadioUpdateMessage, SyncMessageRequest, Transponder, UpdateMessage,
};
use crate::status::string_is;

verus! {

/// The DCS unit that an SRS client speaks for.
#[derive(Clone, Debug)]
pub struct UnitInfo {
    pub id: u32,
    pub name: String,
}

/// An SRS client: its short GUID, its name, the frequency it transmits on (in Hz), the unit
/// it speaks for, if any, and its coalition.
#[derive(Debug)]
pub struct Client {
    sguid: String,
    name: String,
    freq: u64,
    unit: Option<UnitInfo>,
    coalition: Coalition,
}

impl Client {
    /// The client's short GUID.
    pub closed spec fn sguid_view(&self) -> Seq<char> {
        self.sguid@
    }

    /// The client's name.
    pub closed spec fn name_view(&self) -> Seq<char> {
        self.name@
    }

    /// The client's coalition.
    pub closed spec fn coalition_view(&self) -> Coalition {
        self.coalition
    }

    /// The client's frequency.
    pub closed spec fn freq_view(&self) -> u64 {
        self.freq
    }

    /// The id and name of the unit the client speaks for, if any.
    pub closed spec fn unit_view(&self) -> Option<(u32, Seq<char>)> {
        match self.unit {
            Some(u) => Some((u.id, u.name@)),
            None => None,
        }
    }

    /// A client named `name` on the frequency `freq`, with a new short GUID and no unit.
    pub fn new(name: &str, freq: u64, coalition: Coalition) -> (r: Client)
        ensures
            r.sguid_view().len() == 22,
            exists|b: Seq<u8>| is_random_uuid(b) && r.sguid_view() == base64_url_no_pad(b),
            r.name_view() == name@,
            r.freq_view() == freq,
            r.unit_view() is None,
            r.coalition_view() == coalition,
    {
        Client {
            sguid: create_sguid(),
            name: String::from_str(name),
            freq,
            unit: None,
            coalition,
        }
    }

    /// The client's short GUID.
    pub fn sguid(&self) -> (r: &str)
        ensures
            r@ == self.sguid_view(),
    {
        self.sguid.as_str()
    }

    /// The client's name.
    pub fn name(&self) -> (r: &str)
        ensures
            r@ == self.name_view(),
    {
        self.name.as_str()
    }

    /// The client's coalition.
    pub fn coalition(&self) -> (r: Coalition)
        ensures
            r == self.coalition_view(),
    {
        self.coalition
    }

    /// The client's frequency.
    pub fn freq(&self) -> (r: u64)
        ensures
            r == self.freq_view(),
    {
        self.freq
    }

    /// The unit the client speaks for, if any.
    pub fn unit(&self) -> (r: Option<&UnitInfo>)
        ensures
            match r {
                Some(u) => self.unit_view() == Some((u.id, u.name@)),
                None => self.unit_view() is None,
            },
    {
        match &self.unit {
            Some(u) => Some(u),
            None => None,
        }
    }

    /// Makes the client speak for the unit `id` named `name`.
    pub fn set_unit(&mut self, id: u32, name: &str)
        ensures
            final(self).unit_view() == Some((id, name@)),
            final(self).sguid_view() == old(self).sguid_view(),
            final(self).name_view() == old(self).name_view(),
            final(self).freq_view() == old(self).freq_view(),
            final(self).coalition_view() == old(self).coalition_view(),
    {
        self.unit = Some(UnitInfo { id, name: String::from_str(name) });
    }

    /// The unit name and id that the client's radio announces: those of its unit, else its
    /// own name and 0.
    pub fn radio_identity(&self) -> (r: (String, u32))
        ensures
            match self.unit_view() {
                Some((id, name)) => r.0@ == name && r.1 == id,
                None => r.0@ == self.name_view() && r.1 == 0,
            },
    {
        match &self.unit {
            Some(u) => (u.name.clone(), u.id),
            None => (self.name.clone(), 0),
        }
    }
}

/// The SRS protocol version this client speaks.
pub open spec fn srs_version() -> Seq<char> {
    "1.9.0.0"@
}

/// The SRS protocol version this client speaks.
pub fn srs_version_string() -> (r: String)
    ensures
        r@ == srs_version(),
{
    String::from_str("1.9.0.0")
}

/// The highest frequency, in Hz, that is transmitted with FM; higher ones use AM.
pub open spec fn fm_ceiling() -> u64 {
    87_995_000
}

/// The modulation a voice transmission on `freq` uses: FM up to 87.995 MHz, AM above.
pub fn voice_modulation(freq: u64) -> (r: Modulation)
    ensures
        r == (if freq <= fm_ceiling() {
            Modulation::Fm
        } else {
            Modulation::Am
        }),
{
    if freq <= 87_995_000 {
        Modulation::Fm
    } else {
        Modulation::Am
    }
}

/// An error of the connection to the SRS server.
#[derive(Clone, Debug)]
pub enum StreamError {
    /// The network failed, as `text` describes.
    Net(String),
    /// A message could not be encoded or decoded, as `text` describes.
    MessagesCodec(String),
    /// The server speaks another protocol version.
    VersionMismatch { expected: String, encountered: String },
    /// The connection was closed.
    Closed,
}

/// The text of a stream error.
pub open spec fn stream_error_text(e: StreamError) -> Seq<char> {
    match e {
        StreamError::Net(t) => t@,
        StreamError::MessagesCodec(t) => t@,
        StreamError::VersionMismatch { expected, encountered } => "Unsupported SRS server version "@
            + encountered@ + " (expected "@ + expected@ + ")"@,
        StreamError::Closed => "Stream was closed unexpectedly"@,
    }
}

impl StreamError {
    /// The text of the error.
    pub fn message(&self) -> (r: String)
        ensures
            r@ == stream_error_text(*self),
    {
        match self {
            StreamError::Net(t) => t.clone(),
            StreamError::MessagesCodec(t) => t.clone(),
            StreamError::VersionMismatch { expected, encountered } => {
                let mut s = String::from_str("Unsupported SRS server version ");
                s.append(encountered.as_str());
                s.append(" (expected ");
                s.append(expected.as_str());
                s.append(")");
                s
            },
            StreamError::Closed => String::from_str("Stream was closed unexpectedly"),
        }
    }
}

/// The server settings as a map from key to value: the pairs in order, where a later pair
/// for a key replaces an earlier one, as filling a map with them does.
pub open spec fn settings_map(settings: Seq<(String, String)>) -> Map<Seq<char>, Seq<char>>
    decreases settings.len(),
{
    if settings.len() == 0 {
        Map::empty()
    } else {
        settings_map(settings.drop_last()).insert(settings.last().0@, settings.last().1@)
    }
}

/// The value of the server setting `key`, if the server announced one.
pub open spec fn setting_value(settings: Seq<(String, String)>, key: Seq<char>) -> Option<
    Seq<char>,
> {
    if settings_map(settings).dom().contains(key) {
        Some(settings_map(settings)[key])
    } else {
        None
    }
}

/// Whether the server setting `key` has exactly the value `value`.
pub fn setting_is(settings: &Vec<(String, String)>, key: &str, value: &str) -> (r: bool)
    ensures
        r == (setting_value(settings@, key@) == Some(value@)),
{
    let n = settings.len();
    let mut found: Option<usize> = None;
    let mut i: usize = 0;
    while i < n
        invariant
            n == settings@.len(),
            i <= n,
            match found {
                Some(j) => j < i && setting_value(settings@.take(i as int), key@) == Some(
                    settings@[j as int].1@,
                ),
                None => setting_value(settings@.take(i as int), key@) is None,
            },
        decreases n - i,
    {
        assert(settings@.take(i + 1).drop_last() =~= settings@.take(i as int));
        if string_is(&settings[i].0, key) {
            found = Some(i);
        }
        i = i + 1;
    }
    assert(settings@.take(n as int) =~= settings@);
    match found {
        Some(j) => string_is(&settings[j].1, value),
        None => false,
    }
}

/// A message that the SRS server sent, as far as the connection cares about it.
#[derive(Clone, Debug)]
pub enum ControlMessage {
    /// The server refuses this client's protocol version; it speaks `version`.
    VersionMismatch { version: String },
    /// The server announces its settings.
    ServerSettings { settings: Vec<(String, String)> },
    /// Any other message.
    Other,
}

/// What happened on the connection.
#[derive(Clone, Debug)]
pub enum SessionEvent {
    /// The server sent a message.
    Control(ControlMessage),
    /// A voice packet arrived.
    VoiceReceived,
    /// A voice frame is to be transmitted.
    Send,
    /// The server's message stream, the voice stream or the queue of frames to send ended.
    Closed,
    /// The timer for position updates fired; the client is now at `position`.
    PositionTick(Position),
    /// The timer for voice pings fired.
    VoicePing,
    /// The server shuts down.
    Shutdown,
}

/// What the connection does in answer.
#[derive(Clone, Debug, PartialEq, Eq, Structural)]
pub enum SessionAction {
    /// Hand the received message or packet on to the receiver.
    Forward,
    /// Send the voice frame with this header.
    SendVoice { packet_id: u64, frequency: u64, modulation: Modulation, unit_id: u32 },
    /// Send an update of the client's position.
    SendPositionUpdate,
    /// Send a voice ping.
    Ping,
    /// Close the connection and stop.
    Stop,
    /// Nothing.
    Nothing,
}

/// The state of the connection to the SRS server.
#[derive(Clone, Copy, Debug, PartialEq, Eq, Structural)]
pub struct Session {
    /// Whether the server checks the line of sight.
    pub los_enabled: bool,
    /// Whether the server checks the distance.
    pub distance_enabled: bool,
    /// The id of the next voice packet.
    pub packet_id: u64,
    /// The last position announced to the server.
    pub position: Position,
}

/// The id of the voice packet after the one with id `id` (wrapping around).
pub open spec fn next_packet_id(id: u64) -> u64 {
    if id == u64::MAX {
        0
    } else {
        (id + 1) as u64
    }
}

/// The header of the voice frame that `client` sends as packet `packet_id`.
pub open spec fn voice_header(packet_id: u64, client: Client) -> SessionAction {
    SessionAction::SendVoice {
        packet_id,
        frequency: client.freq_view(),
        modulation: if client.freq_view() <= fm_ceiling() {
            Modulation::Fm
        } else {
            Modulation::Am
        },
        unit_id: match client.unit_view() {
            Some((id, _)) => id,
            None => 0,
        },
    }
}

impl Session {
    /// The state of a new connection of a client at `position`: the first voice packet has
    /// the id 1, and neither line of sight nor distance are checked until the server says so.
    pub fn new(position: Position) -> (r: Session)
        ensures
            r == (Session { los_enabled: false, distance_enabled: false, packet_id: 1, position }),
    {
        Session { los_enabled: false, distance_enabled: false, packet_id: 1, position }
    }

    /// Decides what the connection does on `event`, and updates its state.
    ///
    /// A server of another protocol version ends the connection with an error, as does the
    /// end of one of its streams. Server settings switch the line-of-sight check on when
    /// `LOS_ENABLED` is `True`, and the distance check when `DISTANCE_ENABLED` is `true`.
    /// A voice frame goes out with the next packet id, FM up to 87.995 MHz, AM above. A
    /// changed position is only announced while the server checks line of sight or
    /// distance.
    pub fn step(&mut self, client: &Client, event: SessionEvent) -> (r: Result<
        SessionAction,
        StreamError,
    >)
        ensures
            match event {
                SessionEvent::Control(ControlMessage::VersionMismatch { version }) => {
                    &&& r matches Err(StreamError::VersionMismatch { expected, encountered })
                        && expected@ == srs_version() && encountered@ == version@
                    &&& *final(self) == *old(self)
                },
                SessionEvent::Control(ControlMessage::ServerSettings { settings }) => {
                    &&& r == Ok::<SessionAction, StreamError>(SessionAction::Forward)
                    &&& *final(self) == (Session {
                        los_enabled: setting_value(settings@, "LOS_ENABLED"@) == Some("True"@),
                        distance_enabled: setting_value(settings@, "DISTANCE_ENABLED"@) == Some(
                            "true"@,
                        ),
                        ..*old(self)
                    })
                },
                SessionEvent::Control(ControlMessage::Other) | SessionEvent::VoiceReceived => {
                    &&& r == Ok::<SessionAction, StreamError>(SessionAction::Forward)
                    &&& *final(self) == *old(self)
                },
                SessionEvent::Send => {
                    &&& r == Ok::<SessionAction, StreamError>(
                        voice_header(old(self).packet_id, *client),
                    )
                    &&& *final(self) == (Session {
                        packet_id: next_packet_id(old(self).packet_id),
                        ..*old(self)
                    })
                },
                SessionEvent::Closed => {
                    &&& r matches Err(StreamError::Closed)
                    &&& *final(self) == *old(self)
                },
                SessionEvent::PositionTick(p) => if (old(self).los_enabled
                    || old(self).distance_enabled) && p != old(self).position {
                    &&& r == Ok::<SessionAction, StreamError>(SessionAction::SendPositionUpdate)
                    &&& *final(self) == (Session { position: p, ..*old(self) })
                } else {
                    &&& r == Ok::<SessionAction, StreamError>(SessionAction::Nothing)
                    &&& *final(self) == *old(self)
                },
                SessionEvent::VoicePing => {
                    &&& r == Ok::<SessionAction, StreamError>(SessionAction::Ping)
                    &&& *final(self) == *old(self)
                },
                SessionEvent::Shutdown => {
                    &&& r == Ok::<SessionAction, StreamError>(SessionAction::Stop)
                    &&& *final(self) == *old(self)
                },
            },
    {
        match event {
            SessionEvent::Control(ControlMessage::VersionMismatch { version }) => {
                Err(StreamError::VersionMismatch { expected: srs_version_string(), encountered: version })
            },
            SessionEvent::Control(ControlMessage::ServerSettings { settings }) => {
                self.los_enabled = setting_is(&settings, "LOS_ENABLED", "True");
                self.distance_enabled = setting_is(&settings, "DISTANCE_ENABLED", "true");
                Ok(SessionAction::Forward)
            },
            SessionEvent::Control(ControlMessage::Other) => Ok(SessionAction::Forward),
            SessionEvent::VoiceReceived => Ok(SessionAction::Forward),
            SessionEvent::Send => {
                let freq = client.freq();
                let unit_id = match client.unit() {
                    Some(u) => u.id,
                    None => 0,
                };
                let action = SessionAction::SendVoice {
                    packet_id: self.packet_id,
                    frequency: freq,
                    modulation: voice_modulation(freq),
                    unit_id,
                };
                self.packet_id = self.packet_id.wrapping_add(1);
                Ok(action)
            },
            SessionEvent::Closed => Err(StreamError::Closed),
            SessionEvent::PositionTick(p) => {
                if (self.los_enabled || self.distance_enabled) && p != self.position {
                    self.position = p;
                    Ok(SessionAction::SendPositionUpdate)
                } else {
                    Ok(SessionAction::Nothing)
                }
            },
            SessionEvent::VoicePing => Ok(SessionAction::Ping),
            SessionEvent::Shutdown => Ok(SessionAction::Stop),
        }
    }
}

/// Whether the message client `c` describes `client` at `pos`: its short GUID, name and
/// coalition, seat 0, and recording allowed.
pub open spec fn describes(c: srs_message::Client, client: Client, pos: Position) -> bool {
    &&& c.client_guid@ == client.sguid_view()
    &&& c.name@ == client.name_view()
    &&& c.seat == 0
    &&& c.coalition == client.coalition_view()
    &&& c.allow_record
    &&& c.lat_lng_position == pos
}

/// Whether `info` is what `client` announces of its radio: no radios, the unit it speaks
/// for (else its own name and 0), and a transponder that is off.
pub open spec fn announces_radio(info: RadioInfo, client: Client) -> bool {
    &&& info.radios@.len() == 0
    &&& match client.unit_view() {
        Some((id, name)) => info.unit@ == name && info.unit_id == id,
        None => info.unit@ == client.name_view() && info.unit_id == 0,
    }
    &&& info.iff == transponder_off()
}

fn message_client(client: &Client, pos: Position, radio_info: Option<RadioInfo>) -> (r:
    srs_message::Client)
    ensures
        describes(r, *client, pos),
        r.radio_info == radio_info,
{
    srs_message::Client {
        client_guid: String::from_str(client.sguid()),
        name: String::from_str(client.name()),
        seat: 0,
        coalition: client.coalition,
        allow_record: true,
        radio_info,
        lat_lng_position: pos,
    }
}

/// The message by which `client`, at `pos`, announces its radio: no radios, the unit it
/// speaks for, and a transponder that is off.
pub fn create_radio_update_message(client: &Client, pos: Position) -> (r: MessageRequest)
    ensures
        r matches MessageRequest::RadioUpdate(m) && {
            &&& m.version@ == srs_version()
            &&& describes(m.client, *client, pos)
            &&& (m.client.radio_info matches Some(info) && announces_radio(info, *client))
        },
{
    let (unit, unit_id) = client.radio_identity();
    let info = RadioInfo { radios: Vec::new(), unit, unit_id, iff: Transponder::default() };
    MessageRequest::RadioUpdate(
        RadioUpdateMessage {
            msg_type: srs_message::MsgType::<3>,
            client: message_client(client, pos, Some(info)),
            version: srs_version_string(),
        },
    )
}

/// The message by which `client` announces that it is at `pos`.
pub fn create_update_message(client: &Client, pos: Position) -> (r: MessageRequest)
    ensures
        r matches MessageRequest::Update(m) && m.version@ == srs_version() && describes(
            m.client,
            *client,
            pos,
        ) && m.client.radio_info is None,
{
    MessageRequest::Update(
        UpdateMessage {
            msg_type: srs_message::MsgType::<0>,
            client: message_client(client, pos, None),
            version: srs_version_string(),
        },
    )
}

/// The message by which `client`, at `pos`, asks the server for its clients and settings.
pub fn create_sync_message(client: &Client, pos: Position) -> (r: MessageRequest)
    ensures
        r matches MessageRequest::Sync(m) && m.version@ == srs_version() && describes(
            m.client,
            *client,
            pos,
        ) && m.client.radio_info is None,
{
    MessageRequest::Sync(
        SyncMessageRequest {
            msg_type: srs_message::MsgType::<2>,
            client: message_client(client, pos, None),
            version: srs_version_string(),
        },
    )
}

/// What the connection makes of a message of the server: a refusal of its version, its
/// settings, or anything else.
pub fn control_message(msg: Message) -> (r: ControlMessage)
    ensures
        match msg {
            Message::VersionMismatch(m) => r matches ControlMessage::VersionMismatch { version }
                && version@ == m.version@,
            Message::ServerSettings(m) => r matches ControlMessage::ServerSettings { settings }
                && settings@ == m.server_settings@,
            _ => r matches ControlMessage::Other,
        },
{
    match msg {
        Message::VersionMismatch(m) => ControlMessage::VersionMismatch { version: m.version },
        Message::ServerSettings(m) => ControlMessage::ServerSettings {
            settings: m.server_settings,
        },
        _ => ControlMessage::Other,
    }
}

impl Session {
    /// The messages that open the connection of `client`, in the order they are sent:
    /// first the request for the server's clients and settings, then the announcement of
    /// the client's radio, both at the session's position.
    pub fn start(&self, client: &Client) -> (r: Vec<MessageRequest>)
        ensures
            r@.len() == 2,
            r@[0] matches MessageRequest::Sync(m) && {
                &&& m.version@ == srs_version()
                &&& describes(m.client, *client, self.position)
                &&& m.client.radio_info is None
            },
            r@[1] matches MessageRequest::RadioUpdate(m) && {
                &&& m.version@ == srs_version()
                &&& describes(m.client, *client, self.position)
                &&& (m.client.radio_info matches Some(info) && announces_radio(info, *client))
            },
    {
        let mut out: Vec<MessageRequest> = Vec::new();
        out.push(create_sync_message(client, self.position));
        out.push(create_radio_update_message(client, self.position));
        out
    }
}

} // verus!
