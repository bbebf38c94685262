//! Packet kinds of protocol version 754 (Minecraft 1.16.5), their packet
//! ids, and the table that tells which kind a received packet id names.
pub mod clientbound;
pub mod serverbound;
pub mod lib;
pub mod parser;
pub mod pass_through;

use vstd::prelude::*;
use std::collections::HashMap;
use crate::types::{Direction, State};
use crate::protocol::v754::parser::{has_parser, Parser};

verus! {

/// The kinds of packets this proxy knows about.
#[derive(Hash, Eq, PartialEq, Debug, Clone, Copy, Structural)]
pub enum Fid {
    Unparsable,
    Handshake,
    StatusResponse,
    StatusPong,
    StatusRequest,
    StatusPing,
    Disconnect,
    EncRequest,
    LoginSuccess,
    SetCompression,
    PluginRequest,
    LoginStart,
    EncResponse,
    PluginResponse,
    SpawnEntity,
    SpawnXpOrb,
    SpawnLivingEntity,
    SpawnPainting,
    SpawnPlayer,
    AckPlayerDigging,
    ChatMessageClientbound,
    TabCompleteClientbound,
    ChatMessageServerbound,
    ResourcePackSend,
    ClientSettings,
    UpdateHealth,
    PlayerPosition,
    PlayerPositionRotation,
    PlayerAbilities,
    KeepAliveCb,
    KeepAliveSb,
    UpdateScore,
    DisplayScoreboard,
    ScoreboardObjective,
    Teams,
    ResourcePackStatus,
    EntityEffect,
    JoinGame,
    OpenBook,
    WindowItems,
    SetPassenger,
    SteerVehicle,
    EntityAction,
    ChunkData,
    PlayerBlockPlace,
}

/// The packet id of each kind (`Unparsable` has none and gets -1).
pub open spec fn pid_of(fid: Fid) -> i32 {
    match fid {
        Fid::Unparsable => -1i32,
        Fid::Handshake => 0x00,
        Fid::StatusResponse => 0x00,
        Fid::StatusPong => 0x01,
        Fid::StatusRequest => 0x00,
        Fid::StatusPing => 0x01,
        Fid::Disconnect => 0x00,
        Fid::EncRequest => 0x01,
        Fid::LoginSuccess => 0x02,
        Fid::SetCompression => 0x03,
        Fid::PluginRequest => 0x04,
        Fid::LoginStart => 0x00,
        Fid::EncResponse => 0x01,
        Fid::PluginResponse => 0x02,
        Fid::SpawnEntity => 0x00,
        Fid::SpawnXpOrb => 0x01,
        Fid::SpawnLivingEntity => 0x02,
        Fid::SpawnPainting => 0x03,
        Fid::SpawnPlayer => 0x04,
        Fid::AckPlayerDigging => 0x07,
        Fid::ChatMessageClientbound => 0x0E,
        Fid::TabCompleteClientbound => 0x0F,
        Fid::ChatMessageServerbound => 0x03,
        Fid::ResourcePackSend => 0x38,
        Fid::ClientSettings => 0x05,
        Fid::UpdateHealth => 0x49,
        Fid::PlayerPosition => 0x12,
        Fid::PlayerPositionRotation => 0x13,
        Fid::PlayerAbilities => 0x30,
        Fid::KeepAliveCb => 0x1F,
        Fid::KeepAliveSb => 0x10,
        Fid::UpdateScore => 0x4D,
        Fid::DisplayScoreboard => 0x43,
        Fid::ScoreboardObjective => 0x4A,
        Fid::Teams => 0x4C,
        Fid::ResourcePackStatus => 0x21,
        Fid::EntityEffect => 0x59,
        Fid::JoinGame => 0x24,
        Fid::OpenBook => 0x2C,
        Fid::WindowItems => 0x13,
        Fid::SetPassenger => 0x4B,
        Fid::SteerVehicle => 0x1D,
        Fid::EntityAction => 0x1C,
        Fid::ChunkData => 0x20,
        Fid::PlayerBlockPlace => 0x2E,
    }
}

/// The packet id of a packet kind.
pub fn fid_to_pid(fid: Fid) -> (r: i32)
    ensures
        r == pid_of(fid),
{
    match fid {
        Fid::Unparsable => -1,
        Fid::Handshake => 0x00,
        Fid::StatusResponse => 0x00,
        Fid::StatusPong => 0x01,
        Fid::StatusRequest => 0x00,
        Fid::StatusPing => 0x01,
        Fid::Disconnect => 0x00,
        Fid::EncRequest => 0x01,
        Fid::LoginSuccess => 0x02,
        Fid::SetCompression => 0x03,
        Fid::PluginRequest => 0x04,
        Fid::LoginStart => 0x00,
        Fid::EncResponse => 0x01,
        Fid::PluginResponse => 0x02,
        Fid::SpawnEntity => 0x00,
        Fid::SpawnXpOrb => 0x01,
        Fid::SpawnLivingEntity => 0x02,
        Fid::SpawnPainting => 0x03,
        Fid::SpawnPlayer => 0x04,
        Fid::AckPlayerDigging => 0x07,
        Fid::ChatMessageClientbound => 0x0E,
        Fid::TabCompleteClientbound => 0x0F,
        Fid::ChatMessageServerbound => 0x03,
        Fid::ResourcePackSend => 0x38,
        Fid::ClientSettings => 0x05,
        Fid::UpdateHealth => 0x49,
        Fid::PlayerPosition => 0x12,
        Fid::PlayerPositionRotation => 0x13,
        Fid::PlayerAbilities => 0x30,
        Fid::KeepAliveCb => 0x1F,
        Fid::KeepAliveSb => 0x10,
        Fid::UpdateScore => 0x4D,
        Fid::DisplayScoreboard => 0x43,
        Fid::ScoreboardObjective => 0x4A,
        Fid::Teams => 0x4C,
        Fid::ResourcePackStatus => 0x21,
        Fid::EntityEffect => 0x59,
        Fid::JoinGame => 0x24,
        Fid::OpenBook => 0x2C,
        Fid::WindowItems => 0x13,
        Fid::SetPassenger => 0x4B,
        Fid::SteerVehicle => 0x1D,
        Fid::EntityAction => 0x1C,
        Fid::ChunkData => 0x20,
        Fid::PlayerBlockPlace => 0x2E,
    }
}

impl Fid {
    /// The variant's name.
    pub open spec fn name(self) -> Seq<char> {
        match self {
            Fid::Unparsable => "Unparsable"@,
            Fid::Handshake => "Handshake"@,
            Fid::StatusResponse => "StatusResponse"@,
            Fid::StatusPong => "StatusPong"@,
            Fid::StatusRequest => "StatusRequest"@,
            Fid::StatusPing => "StatusPing"@,
            Fid::Disconnect => "Disconnect"@,
            Fid::EncRequest => "EncRequest"@,
            Fid::LoginSuccess => "LoginSuccess"@,
            Fid::SetCompression => "SetCompression"@,
            Fid::PluginRequest => "PluginRequest"@,
            Fid::LoginStart => "LoginStart"@,
            Fid::EncResponse => "EncResponse"@,
            Fid::PluginResponse => "PluginResponse"@,
            Fid::SpawnEntity => "SpawnEntity"@,
            Fid::SpawnXpOrb => "SpawnXpOrb"@,
            Fid::SpawnLivingEntity => "SpawnLivingEntity"@,
            Fid::SpawnPainting => "SpawnPainting"@,
            Fid::SpawnPlayer => "SpawnPlayer"@,
            Fid::AckPlayerDigging => "AckPlayerDigging"@,
            Fid::ChatMessageClientbound => "ChatMessageClientbound"@,
            Fid::TabCompleteClientbound => "TabCompleteClientbound"@,
            Fid::ChatMessageServerbound => "ChatMessageServerbound"@,
            Fid::ResourcePackSend => "ResourcePackSend"@,
            Fid::ClientSettings => "ClientSettings"@,
            Fid::UpdateHealth => "UpdateHealth"@,
            Fid::PlayerPosition => "PlayerPosition"@,
            Fid::PlayerPositionRotation => "PlayerPositionRotation"@,
            Fid::PlayerAbilities => "PlayerAbilities"@,
            Fid::KeepAliveCb => "KeepAliveCb"@,
            Fid::KeepAliveSb => "KeepAliveSb"@,
            Fid::UpdateScore => "UpdateScore"@,
            Fid::DisplayScoreboard => "DisplayScoreboard"@,
            Fid::ScoreboardObjective => "ScoreboardObjective"@,
            Fid::Teams => "Teams"@,
            Fid::ResourcePackStatus => "ResourcePackStatus"@,
            Fid::EntityEffect => "EntityEffect"@,
            Fid::JoinGame => "JoinGame"@,
            Fid::OpenBook => "OpenBook"@,
            Fid::WindowItems => "WindowItems"@,
            Fid::SetPassenger => "SetPassenger"@,
            Fid::SteerVehicle => "SteerVehicle"@,
            Fid::EntityAction => "EntityAction"@,
            Fid::ChunkData => "ChunkData"@,
            Fid::PlayerBlockPlace => "PlayerBlockPlace"@,
        }
    }

    /// The variant's name, the text this kind is shown as.
    pub fn to_string(&self) -> (r: String)
        ensures
            r@ == self.name(),
    {
        match self {
            Fid::Unparsable => String::from_str("Unparsable"),
            Fid::Handshake => String::from_str("Handshake"),
            Fid::StatusResponse => String::from_str("StatusResponse"),
            Fid::StatusPong => String::from_str("StatusPong"),
            Fid::StatusRequest => String::from_str("StatusRequest"),
            Fid::StatusPing => String::from_str("StatusPing"),
            Fid::Disconnect => String::from_str("Disconnect"),
            Fid::EncRequest => String::from_str("EncRequest"),
            Fid::LoginSuccess => String::from_str("LoginSuccess"),
            Fid::SetCompression => String::from_str("SetCompression"),
            Fid::PluginRequest => String::from_str("PluginRequest"),
            Fid::LoginStart => String::from_str("LoginStart"),
            Fid::EncResponse => String::from_str("EncResponse"),
            Fid::PluginResponse => String::from_str("PluginResponse"),
            Fid::SpawnEntity => String::from_str("SpawnEntity"),
            Fid::SpawnXpOrb => String::from_str("SpawnXpOrb"),
            Fid::SpawnLivingEntity => String::from_str("SpawnLivingEntity"),
            Fid::SpawnPainting => String::from_str("SpawnPainting"),
            Fid::SpawnPlayer => String::from_str("SpawnPlayer"),
            Fid::AckPlayerDigging => String::from_str("AckPlayerDigging"),
            Fid::ChatMessageClientbound => String::from_str("ChatMessageClientbound"),
            Fid::TabCompleteClientbound => String::from_str("TabCompleteClientbound"),
            Fid::ChatMessageServerbound => String::from_str("ChatMessageServerbound"),
            Fid::ResourcePackSend => String::from_str("ResourcePackSend"),
            Fid::ClientSettings => String::from_str("ClientSettings"),
            Fid::UpdateHealth => String::from_str("UpdateHealth"),
            Fid::PlayerPosition => String::from_str("PlayerPosition"),
            Fid::PlayerPositionRotation => String::from_str("PlayerPositionRotation"),
            Fid::PlayerAbilities => String::from_str("PlayerAbilities"),
            Fid::KeepAliveCb => String::from_str("KeepAliveCb"),
            Fid::KeepAliveSb => String::from_str("KeepAliveSb"),
            Fid::UpdateScore => String::from_str("UpdateScore"),
            Fid::DisplayScoreboard => String::from_str("DisplayScoreboard"),
            Fid::ScoreboardObjective => String::from_str("ScoreboardObjective"),
            Fid::Teams => String::from_str("Teams"),
            Fid::ResourcePackStatus => String::from_str("ResourcePackStatus"),
            Fid::EntityEffect => String::from_str("EntityEffect"),
            Fid::JoinGame => String::from_str("JoinGame"),
            Fid::OpenBook => String::from_str("OpenBook"),
            Fid::WindowItems => String::from_str("WindowItems"),
            Fid::SetPassenger => String::from_str("SetPassenger"),
            Fid::SteerVehicle => String::from_str("SteerVehicle"),
            Fid::EntityAction => String::from_str("EntityAction"),
            Fid::ChunkData => String::from_str("ChunkData"),
            Fid::PlayerBlockPlace => String::from_str("PlayerBlockPlace"),
        }
    }
}

/// The packet kinds registered for each direction and state, in the order
/// of registration.
pub open spec fn registered(direction: Direction, state: State) -> Seq<Fid> {
    match (direction, state) {
        (Direction::Clientbound, State::Handshaking) => seq![],
        (Direction::Clientbound, State::Status) => seq![Fid::StatusResponse, Fid::StatusPong],
        (Direction::Clientbound, State::Login) => seq![Fid::Disconnect, Fid::EncRequest, Fid::LoginSuccess, Fid::SetCompression, Fid::PluginRequest],
        (Direction::Clientbound, State::Play) => seq![Fid::SpawnEntity, Fid::SpawnXpOrb, Fid::SpawnLivingEntity, Fid::SpawnPainting, Fid::SpawnPlayer, Fid::AckPlayerDigging, Fid::ChatMessageClientbound, Fid::TabCompleteClientbound, Fid::ResourcePackSend, Fid::UpdateHealth, Fid::PlayerAbilities, Fid::KeepAliveCb, Fid::UpdateScore, Fid::DisplayScoreboard, Fid::ScoreboardObjective, Fid::Teams, Fid::EntityEffect, Fid::JoinGame, Fid::OpenBook, Fid::WindowItems, Fid::SetPassenger, Fid::ChunkData],
        (Direction::Serverbound, State::Handshaking) => seq![Fid::Handshake],
        (Direction::Serverbound, State::Status) => seq![Fid::StatusRequest, Fid::StatusPing],
        (Direction::Serverbound, State::Login) => seq![Fid::LoginStart, Fid::EncResponse, Fid::PluginResponse],
        (Direction::Serverbound, State::Play) => seq![Fid::ChatMessageServerbound, Fid::ClientSettings, Fid::PlayerPosition, Fid::PlayerPositionRotation, Fid::KeepAliveSb, Fid::ResourcePackStatus, Fid::SteerVehicle, Fid::EntityAction, Fid::PlayerBlockPlace],
    }
}

/// The id table built from a registration list: each kind is filed under
/// its packet id, a later kind replacing an earlier one with the same id.
pub open spec fn fid_table(fids: Seq<Fid>) -> Map<i32, Fid>
    decreases fids.len(),
{
    if fids.len() == 0 {
        Map::empty()
    } else {
        fid_table(fids.drop_last()).insert(pid_of(fids.last()), fids.last())
    }
}

/// The kind that a packet id names for a direction and state, if any.
pub open spec fn name_of(direction: Direction, state: State, pid: i32) -> Option<Fid> {
    let t = fid_table(registered(direction, state));
    if t.contains_key(pid) {
        Some(t[pid])
    } else {
        None
    }
}

/// The position of a direction and state among the eight tables.
pub open spec fn table_index(direction: Direction, state: State) -> int {
    (match direction {
        Direction::Clientbound => 0int,
        Direction::Serverbound => 4int,
    }) + (match state {
        State::Handshaking => 0int,
        State::Status => 1int,
        State::Login => 2int,
        State::Play => 3int,
    })
}

fn table_index_exec(direction: &Direction, state: &State) -> (r: usize)
    ensures
        r == table_index(*direction, *state),
{
    (match direction {
        Direction::Clientbound => 0,
        Direction::Serverbound => 4,
    }) + (match state {
        State::Handshaking => 0,
        State::Status => 1,
        State::Login => 2,
        State::Play => 3,
    })
}

/// The registration list of a direction and state.
fn registered_fids(direction: Direction, state: State) -> (r: Vec<Fid>)
    ensures
        r@ == registered(direction, state),
{
    match (direction, state) {
        (Direction::Clientbound, State::Handshaking) => vec![],
        (Direction::Clientbound, State::Status) => vec![Fid::StatusResponse, Fid::StatusPong],
        (Direction::Clientbound, State::Login) => vec![Fid::Disconnect, Fid::EncRequest, Fid::LoginSuccess, Fid::SetCompression, Fid::PluginRequest],
        (Direction::Clientbound, State::Play) => vec![Fid::SpawnEntity, Fid::SpawnXpOrb, Fid::SpawnLivingEntity, Fid::SpawnPainting, Fid::SpawnPlayer, Fid::AckPlayerDigging, Fid::ChatMessageClientbound, Fid::TabCompleteClientbound, Fid::ResourcePackSend, Fid::UpdateHealth, Fid::PlayerAbilities, Fid::KeepAliveCb, Fid::UpdateScore, Fid::DisplayScoreboard, Fid::ScoreboardObjective, Fid::Teams, Fid::EntityEffect, Fid::JoinGame, Fid::OpenBook, Fid::WindowItems, Fid::SetPassenger, Fid::ChunkData],
        (Direction::Serverbound, State::Handshaking) => vec![Fid::Handshake],
        (Direction::Serverbound, State::Status) => vec![Fid::StatusRequest, Fid::StatusPing],
        (Direction::Serverbound, State::Login) => vec![Fid::LoginStart, Fid::EncResponse, Fid::PluginResponse],
        (Direction::Serverbound, State::Play) => vec![Fid::ChatMessageServerbound, Fid::ClientSettings, Fid::PlayerPosition, Fid::PlayerPositionRotation, Fid::KeepAliveSb, Fid::ResourcePackStatus, Fid::SteerVehicle, Fid::EntityAction, Fid::PlayerBlockPlace],
    }
}

/// Files each kind of the list under its packet id.
fn build_table(fids: Vec<Fid>) -> (r: HashMap<i32, Fid>)
    ensures
        r@ == fid_table(fids@),
{
    broadcast use vstd::std_specs::hash::group_hash_axioms;
    let mut table: HashMap<i32, Fid> = HashMap::new();
    let mut i: usize = 0;
    while i < fids.len()
        invariant
            i <= fids@.len(),
            table@ == fid_table(fids@.take(i as int)),
        decreases fids@.len() - i,
    {
        let fid = fids[i];
        table.insert(fid_to_pid(fid), fid);
        i = i + 1;
        assert(fids@.take(i as int).drop_last() =~= fids@.take((i - 1) as int));
    }
    assert(fids@.take(i as int) =~= fids@);
    table
}

/// The tables that map packet ids to packet kinds, one for each direction
/// and state.
pub struct Functions {
    map: Vec<HashMap<i32, Fid>>,
    list: Vec<Fid>,
}

/// The packet kinds that get a parser, in the order they are registered.
pub open spec fn parser_kinds() -> Seq<Fid> {
    seq![
        Fid::Handshake,
        Fid::StatusResponse,
        Fid::StatusPong,
        Fid::StatusRequest,
        Fid::StatusPing,
        Fid::Disconnect,
        Fid::EncRequest,
        Fid::LoginSuccess,
        Fid::SetCompression,
        Fid::PluginRequest,
        Fid::LoginStart,
        Fid::EncResponse,
        Fid::PluginResponse,
        Fid::SpawnEntity,
        Fid::SpawnXpOrb,
        Fid::SpawnLivingEntity,
        Fid::SpawnPainting,
        Fid::SpawnPlayer,
        Fid::AckPlayerDigging,
        Fid::ChatMessageClientbound,
        Fid::TabCompleteClientbound,
        Fid::ResourcePackSend,
        Fid::UpdateHealth,
        Fid::PlayerAbilities,
        Fid::KeepAliveCb,
        Fid::UpdateScore,
        Fid::OpenBook,
        Fid::WindowItems,
        Fid::DisplayScoreboard,
        Fid::ScoreboardObjective,
        Fid::Teams,
        Fid::EntityEffect,
        Fid::JoinGame,
        Fid::SetPassenger,
        Fid::ChunkData,
        Fid::ChatMessageServerbound,
        Fid::ClientSettings,
        Fid::PlayerPosition,
        Fid::PlayerPositionRotation,
        Fid::ResourcePackStatus,
        Fid::PlayerBlockPlace,
        Fid::KeepAliveSb,
        Fid::SteerVehicle,
        Fid::EntityAction,
    ]
}

impl Functions {
    #[verifier::type_invariant]
    spec fn tables_match(&self) -> bool {
        &&& self.map@.len() == 8
        &&& forall|d: Direction, s: State| #[trigger]
            self.map@[table_index(d, s)]@ == fid_table(registered(d, s))
    }

    fn new() -> (r: Self)
        ensures
            r.kinds() == Seq::<Fid>::empty(),
    {
        let mut map: Vec<HashMap<i32, Fid>> = Vec::new();
        map.push(build_table(registered_fids(Direction::Clientbound, State::Handshaking)));
        map.push(build_table(registered_fids(Direction::Clientbound, State::Status)));
        map.push(build_table(registered_fids(Direction::Clientbound, State::Login)));
        map.push(build_table(registered_fids(Direction::Clientbound, State::Play)));
        map.push(build_table(registered_fids(Direction::Serverbound, State::Handshaking)));
        map.push(build_table(registered_fids(Direction::Serverbound, State::Status)));
        map.push(build_table(registered_fids(Direction::Serverbound, State::Login)));
        map.push(build_table(registered_fids(Direction::Serverbound, State::Play)));
        assert forall|d: Direction, s: State| #[trigger]
            map@[table_index(d, s)]@ == fid_table(registered(d, s)) by {
            match (d, s) {
                _ => {},
            }
        }
        let r = Functions { map, list: Vec::new() };
        assert(r.kinds() =~= Seq::<Fid>::empty());
        r
    }

    /// The packet kinds registered so far.
    pub closed spec fn kinds(&self) -> Seq<Fid> {
        self.list@
    }

    fn add(&mut self, id: Fid)
        ensures
            final(self).kinds() == old(self).kinds().push(id),
    {
        proof {
            use_type_invariant(&*self);
        }
        let mut list: Vec<Fid> = Vec::new();
        std::mem::swap(&mut list, &mut self.list);
        list.push(id);
        self.list = list;
    }

    /// A parser for a packet kind, when the kind is registered: the kind's
    /// fields in their initial state, or, for a kind whose fields the
    /// library does not hold, an empty body that keeps the packet whole.
    pub fn get(&self, id: &Fid) -> (r: Option<Parser>)
        ensures
            r is Some <==> self.kinds().contains(*id) && has_parser(*id),
            r matches Some(p) ==> p.kind_of() == *id && p.is_fresh(),
    {
        let mut i: usize = 0;
        while i < self.list.len()
            invariant
                i <= self.list@.len(),
                forall|j: int| 0 <= j < i ==> self.list@[j] != *id,
            decreases self.list@.len() - i,
        {
            if self.list[i] == *id {
                return Parser::fresh_for(*id);
            }
            i = i + 1;
        }
        None
    }

    /// The kind that a packet id names in the given direction and state.
    pub fn get_name(&self, direction: &Direction, state: &State, pid: &i32) -> (r: Option<Fid>)
        ensures
            r == name_of(*direction, *state, *pid),
    {
        broadcast use vstd::std_specs::hash::group_hash_axioms;
        proof {
            use_type_invariant(self);
        }
        let t = &self.map[table_index_exec(direction, state)];
        match t.get(pid) {
            Some(f) => Some(*f),
            None => None,
        }
    }
}

/// The id tables of this protocol version, and the parsers registered
/// for its packet kinds.
pub fn get_functions() -> (r: Functions)
    ensures
        r.kinds() == parser_kinds(),
{
    let mut functions = Functions::new();
    functions.add(Fid::Handshake);
    functions.add(Fid::StatusResponse);
    functions.add(Fid::StatusPong);
    functions.add(Fid::StatusRequest);
    functions.add(Fid::StatusPing);
    functions.add(Fid::Disconnect);
    functions.add(Fid::EncRequest);
    functions.add(Fid::LoginSuccess);
    functions.add(Fid::SetCompression);
    functions.add(Fid::PluginRequest);
    functions.add(Fid::LoginStart);
    functions.add(Fid::EncResponse);
    functions.add(Fid::PluginResponse);
    functions.add(Fid::SpawnEntity);
    functions.add(Fid::SpawnXpOrb);
    functions.add(Fid::SpawnLivingEntity);
    functions.add(Fid::SpawnPainting);
    functions.add(Fid::SpawnPlayer);
    functions.add(Fid::AckPlayerDigging);
    functions.add(Fid::ChatMessageClientbound);
    functions.add(Fid::TabCompleteClientbound);
    functions.add(Fid::ResourcePackSend);
    functions.add(Fid::UpdateHealth);
    functions.add(Fid::PlayerAbilities);
    functions.add(Fid::KeepAliveCb);
    functions.add(Fid::UpdateScore);
    functions.add(Fid::OpenBook);
    functions.add(Fid::WindowItems);
    functions.add(Fid::DisplayScoreboard);
    functions.add(Fid::ScoreboardObjective);
    functions.add(Fid::Teams);
    functions.add(Fid::EntityEffect);
    functions.add(Fid::JoinGame);
    functions.add(Fid::SetPassenger);
    functions.add(Fid::ChunkData);
    functions.add(Fid::ChatMessageServerbound);
    functions.add(Fid::ClientSettings);
    functions.add(Fid::PlayerPosition);
    functions.add(Fid::PlayerPositionRotation);
    functions.add(Fid::ResourcePackStatus);
    functions.add(Fid::PlayerBlockPlace);
    functions.add(Fid::KeepAliveSb);
    functions.add(Fid::SteerVehicle);
    functions.add(Fid::EntityAction);
    assert(functions.kinds() =~= parser_kinds());
    functions
}

/// The position of a kind in the registration order (-1 for `Unparsable`).
spec fn parser_index(f: Fid) -> int {
    match f {
        Fid::Unparsable => -1,
        Fid::Handshake => 0,
        Fid::StatusResponse => 1,
        Fid::StatusPong => 2,
        Fid::StatusRequest => 3,
        Fid::StatusPing => 4,
        Fid::Disconnect => 5,
        Fid::EncRequest => 6,
        Fid::LoginSuccess => 7,
        Fid::SetCompression => 8,
        Fid::PluginRequest => 9,
        Fid::LoginStart => 10,
        Fid::EncResponse => 11,
        Fid::PluginResponse => 12,
        Fid::SpawnEntity => 13,
        Fid::SpawnXpOrb => 14,
        Fid::SpawnLivingEntity => 15,
        Fid::SpawnPainting => 16,
        Fid::SpawnPlayer => 17,
        Fid::AckPlayerDigging => 18,
        Fid::ChatMessageClientbound => 19,
        Fid::TabCompleteClientbound => 20,
        Fid::ResourcePackSend => 21,
        Fid::UpdateHealth => 22,
        Fid::PlayerAbilities => 23,
        Fid::KeepAliveCb => 24,
        Fid::UpdateScore => 25,
        Fid::OpenBook => 26,
        Fid::WindowItems => 27,
        Fid::DisplayScoreboard => 28,
        Fid::ScoreboardObjective => 29,
        Fid::Teams => 30,
        Fid::EntityEffect => 31,
        Fid::JoinGame => 32,
        Fid::SetPassenger => 33,
        Fid::ChunkData => 34,
        Fid::ChatMessageServerbound => 35,
        Fid::ClientSettings => 36,
        Fid::PlayerPosition => 37,
        Fid::PlayerPositionRotation => 38,
        Fid::ResourcePackStatus => 39,
        Fid::PlayerBlockPlace => 40,
        Fid::KeepAliveSb => 41,
        Fid::SteerVehicle => 42,
        Fid::EntityAction => 43,
    }
}

/// No entry of the list is `Unparsable`.
spec fn without_unparsable(l: Seq<Fid>) -> bool
    decreases l.len(),
{
    l.len() == 0 || (l.last() != Fid::Unparsable && without_unparsable(l.drop_last()))
}

proof fn lemma_without_unparsable(l: Seq<Fid>)
    requires
        without_unparsable(l),
    ensures
        !l.contains(Fid::Unparsable),
    decreases l.len(),
{
    if l.len() > 0 {
        lemma_without_unparsable(l.drop_last());
        assert forall|i: int| 0 <= i < l.len() implies l[i] != Fid::Unparsable by {
            if i < l.len() - 1 {
                assert(l[i] == l.drop_last()[i]);
            }
        }
    }
}

/// A parser is registered for every packet kind but `Unparsable`; so the
/// registry that `get_functions` builds hands out a parser for every kind
/// but `Unparsable`.
#[verifier::spinoff_prover]
#[verifier::rlimit(60)]
pub proof fn law_every_kind_registered(f: Fid)
    ensures
        parser_kinds().contains(f) <==> f != Fid::Unparsable,
{
    if f == Fid::Unparsable {
        assert(without_unparsable(parser_kinds())) by {
            reveal_with_fuel(without_unparsable, 45);
        }
        lemma_without_unparsable(parser_kinds());
    } else {
        assert(0 <= parser_index(f) < parser_kinds().len() && parser_kinds()[parser_index(f)] == f) by {
            match f {
                _ => {},
            }
        }
    }
}

/// Whatever packet kind the id tables name, the registry that
/// `get_functions` builds holds a parser for it.
pub proof fn law_named_kinds_have_parsers(direction: Direction, state: State, pid: i32)
    ensures
        name_of(direction, state, pid) matches Some(f) ==> parser_kinds().contains(f)
            && has_parser(f),
{
    let l = registered(direction, state);
    lemma_fid_table_sound(l, pid);
    assert(without_unparsable(l)) by {
        reveal_with_fuel(without_unparsable, 23);
        match (direction, state) {
            _ => {},
        }
    }
    lemma_without_unparsable(l);
    if let Some(f) = name_of(direction, state, pid) {
        law_every_kind_registered(f);
    }
}

/// A kind whose id no later kind of the list shares is found under its id.
proof fn lemma_fid_table_finds(l: Seq<Fid>, i: int)
    requires
        0 <= i < l.len(),
        forall|j: int| i < j < l.len() ==> pid_of(#[trigger] l[j]) != pid_of(l[i]),
    ensures
        fid_table(l).contains_key(pid_of(l[i])),
        fid_table(l)[pid_of(l[i])] == l[i],
    decreases l.len(),
{
    if i < l.len() - 1 {
        let d = l.drop_last();
        assert forall|j: int| i < j < d.len() implies pid_of(#[trigger] d[j]) != pid_of(d[i]) by {
            assert(d[j] == l[j]);
        }
        lemma_fid_table_finds(d, i);
        assert(pid_of(l[l.len() - 1]) != pid_of(l[i]));
    }
}

/// Whatever the table holds under an id is a kind of the list with that id.
proof fn lemma_fid_table_sound(l: Seq<Fid>, pid: i32)
    ensures
        fid_table(l).contains_key(pid) ==> l.contains(fid_table(l)[pid]) && pid_of(
            fid_table(l)[pid],
        ) == pid,
    decreases l.len(),
{
    if l.len() > 0 {
        lemma_fid_table_sound(l.drop_last(), pid);
        if fid_table(l).contains_key(pid) && pid != pid_of(l.last()) {
            let f = fid_table(l.drop_last())[pid];
            let k = choose|k: int| 0 <= k < l.drop_last().len() && l.drop_last()[k] == f;
            assert(l[k] == f);
        } else if fid_table(l).contains_key(pid) {
            assert(l[l.len() - 1] == l.last());
        }
    }
}

/// The id table resolves every registered kind's id back to that kind,
/// and whatever it resolves an id to is a registered kind with that id.
pub proof fn law_id_table_resolves(direction: Direction, state: State, pid: i32, i: int)
    requires
        0 <= i < registered(direction, state).len(),
    ensures
        name_of(direction, state, pid_of(registered(direction, state)[i])) == Some(
            registered(direction, state)[i],
        ),
        name_of(direction, state, pid) matches Some(f) ==> registered(direction, state).contains(f)
            && pid_of(f) == pid,
{
    let l = registered(direction, state);
    assert forall|j: int| i < j < l.len() implies pid_of(#[trigger] l[j]) != pid_of(l[i]) by {
        match (direction, state) {
            _ => {},
        }
    }
    lemma_fid_table_finds(l, i);
    lemma_fid_table_sound(l, pid);
}

/// The ids of the clientbound packets of the status state in protocol 754, and the
/// kinds the id table names by them.
pub proof fn law_ids_clientbound_status()
    ensures
        pid_of(Fid::StatusResponse) == 0x00,
        name_of(Direction::Clientbound, State::Status, 0x00) == Some(Fid::StatusResponse),
        pid_of(Fid::StatusPong) == 0x01,
        name_of(Direction::Clientbound, State::Status, 0x01) == Some(Fid::StatusPong),
{
    law_id_table_resolves(Direction::Clientbound, State::Status, 0, 0);
    law_id_table_resolves(Direction::Clientbound, State::Status, 0, 1);
}

/// The ids of the clientbound packets of the login state in protocol 754, and the
/// kinds the id table names by them.
pub proof fn law_ids_clientbound_login()
    ensures
        pid_of(Fid::Disconnect) == 0x00,
        name_of(Direction::Clientbound, State::Login, 0x00) == Some(Fid::Disconnect),
        pid_of(Fid::EncRequest) == 0x01,
        name_of(Direction::Clientbound, State::Login, 0x01) == Some(Fid::EncRequest),
        pid_of(Fid::LoginSuccess) == 0x02,
        name_of(Direction::Clientbound, State::Login, 0x02) == Some(Fid::LoginSuccess),
        pid_of(Fid::SetCompression) == 0x03,
        name_of(Direction::Clientbound, State::Login, 0x03) == Some(Fid::SetCompression),
        pid_of(Fid::PluginRequest) == 0x04,
        name_of(Direction::Clientbound, State::Login, 0x04) == Some(Fid::PluginRequest),
{
    law_id_table_resolves(Direction::Clientbound, State::Login, 0, 0);
    law_id_table_resolves(Direction::Clientbound, State::Login, 0, 1);
    law_id_table_resolves(Direction::Clientbound, State::Login, 0, 2);
    law_id_table_resolves(Direction::Clientbound, State::Login, 0, 3);
    law_id_table_resolves(Direction::Clientbound, State::Login, 0, 4);
}

/// The ids of the clientbound packets of the play state in protocol 754, and the
/// kinds the id table names by them.
pub proof fn law_ids_clientbound_play()
    ensures
        pid_of(Fid::SpawnEntity) == 0x00,
        name_of(Direction::Clientbound, State::Play, 0x00) == Some(Fid::SpawnEntity),
        pid_of(Fid::SpawnXpOrb) == 0x01,
        name_of(Direction::Clientbound, State::Play, 0x01) == Some(Fid::SpawnXpOrb),
        pid_of(Fid::SpawnLivingEntity) == 0x02,
        name_of(Direction::Clientbound, State::Play, 0x02) == Some(Fid::SpawnLivingEntity),
        pid_of(Fid::SpawnPainting) == 0x03,
        name_of(Direction::Clientbound, State::Play, 0x03) == Some(Fid::SpawnPainting),
        pid_of(Fid::SpawnPlayer) == 0x04,
        name_of(Direction::Clientbound, State::Play, 0x04) == Some(Fid::SpawnPlayer),
        pid_of(Fid::AckPlayerDigging) == 0x07,
        name_of(Direction::Clientbound, State::Play, 0x07) == Some(Fid::AckPlayerDigging),
        pid_of(Fid::ChatMessageClientbound) == 0x0E,
        name_of(Direction::Clientbound, State::Play, 0x0E) == Some(Fid::ChatMessageClientbound),
        pid_of(Fid::TabCompleteClientbound) == 0x0F,
        name_of(Direction::Clientbound, State::Play, 0x0F) == Some(Fid::TabCompleteClientbound),
        pid_of(Fid::ResourcePackSend) == 0x38,
        name_of(Direction::Clientbound, State::Play, 0x38) == Some(Fid::ResourcePackSend),
        pid_of(Fid::UpdateHealth) == 0x49,
        name_of(Direction::Clientbound, State::Play, 0x49) == Some(Fid::UpdateHealth),
        pid_of(Fid::PlayerAbilities) == 0x30,
        name_of(Direction::Clientbound, State::Play, 0x30) == Some(Fid::PlayerAbilities),
        pid_of(Fid::KeepAliveCb) == 0x1F,
        name_of(Direction::Clientbound, State::Play, 0x1F) == Some(Fid::KeepAliveCb),
        pid_of(Fid::UpdateScore) == 0x4D,
        name_of(Direction::Clientbound, State::Play, 0x4D) == Some(Fid::UpdateScore),
        pid_of(Fid::DisplayScoreboard) == 0x43,
        name_of(Direction::Clientbound, State::Play, 0x43) == Some(Fid::DisplayScoreboard),
        pid_of(Fid::ScoreboardObjective) == 0x4A,
        name_of(Direction::Clientbound, State::Play, 0x4A) == Some(Fid::ScoreboardObjective),
        pid_of(Fid::Teams) == 0x4C,
        name_of(Direction::Clientbound, State::Play, 0x4C) == Some(Fid::Teams),
        pid_of(Fid::EntityEffect) == 0x59,
        name_of(Direction::Clientbound, State::Play, 0x59) == Some(Fid::EntityEffect),
        pid_of(Fid::JoinGame) == 0x24,
        name_of(Direction::Clientbound, State::Play, 0x24) == Some(Fid::JoinGame),
        pid_of(Fid::OpenBook) == 0x2C,
        name_of(Direction::Clientbound, State::Play, 0x2C) == Some(Fid::OpenBook),
        pid_of(Fid::WindowItems) == 0x13,
        name_of(Direction::Clientbound, State::Play, 0x13) == Some(Fid::WindowItems),
        pid_of(Fid::SetPassenger) == 0x4B,
        name_of(Direction::Clientbound, State::Play, 0x4B) == Some(Fid::SetPassenger),
        pid_of(Fid::ChunkData) == 0x20,
        name_of(Direction::Clientbound, State::Play, 0x20) == Some(Fid::ChunkData),
{
    law_id_table_resolves(Direction::Clientbound, State::Play, 0, 0);
    law_id_table_resolves(Direction::Clientbound, State::Play, 0, 1);
    law_id_table_resolves(Direction::Clientbound, State::Play, 0, 2);
    law_id_table_resolves(Direction::Clientbound, State::Play, 0, 3);
    law_id_table_resolves(Direction::Clientbound, State::Play, 0, 4);
    law_id_table_resolves(Direction::Clientbound, State::Play, 0, 5);
    law_id_table_resolves(Direction::Clientbound, State::Play, 0, 6);
    law_id_table_resolves(Direction::Clientbound, State::Play, 0, 7);
    law_id_table_resolves(Direction::Clientbound, State::Play, 0, 8);
    law_id_table_resolves(Direction::Clientbound, State::Play, 0, 9);
    law_id_table_resolves(Direction::Clientbound, State::Play, 0, 10);
    law_id_table_resolves(Direction::Clientbound, State::Play, 0, 11);
    law_id_table_resolves(Direction::Clientbound, State::Play, 0, 12);
    law_id_table_resolves(Direction::Clientbound, State::Play, 0, 13);
    law_id_table_resolves(Direction::Clientbound, State::Play, 0, 14);
    law_id_table_resolves(Direction::Clientbound, State::Play, 0, 15);
    law_id_table_resolves(Direction::Clientbound, State::Play, 0, 16);
    law_id_table_resolves(Direction::Clientbound, State::Play, 0, 17);
    law_id_table_resolves(Direction::Clientbound, State::Play, 0, 18);
    law_id_table_resolves(Direction::Clientbound, State::Play, 0, 19);
    law_id_table_resolves(Direction::Clientbound, State::Play, 0, 20);
    law_id_table_resolves(Direction::Clientbound, State::Play, 0, 21);
}

/// The ids of the serverbound packets of the handshaking state in protocol 754, and the
/// kinds the id table names by them.
pub proof fn law_ids_serverbound_handshaking()
    ensures
        pid_of(Fid::Unparsable) == -1,
        pid_of(Fid::Handshake) == 0x00,
        name_of(Direction::Serverbound, State::Handshaking, 0x00) == Some(Fid::Handshake),
{
    law_id_table_resolves(Direction::Serverbound, State::Handshaking, 0, 0);
}

/// The ids of the serverbound packets of the status state in protocol 754, and the
/// kinds the id table names by them.
pub proof fn law_ids_serverbound_status()
    ensures
        pid_of(Fid::StatusRequest) == 0x00,
        name_of(Direction::Serverbound, State::Status, 0x00) == Some(Fid::StatusRequest),
        pid_of(Fid::StatusPing) == 0x01,
        name_of(Direction::Serverbound, State::Status, 0x01) == Some(Fid::StatusPing),
{
    law_id_table_resolves(Direction::Serverbound, State::Status, 0, 0);
    law_id_table_resolves(Direction::Serverbound, State::Status, 0, 1);
}

/// The ids of the serverbound packets of the login state in protocol 754, and the
/// kinds the id table names by them.
pub proof fn law_ids_serverbound_login()
    ensures
        pid_of(Fid::LoginStart) == 0x00,
        name_of(Direction::Serverbound, State::Login, 0x00) == Some(Fid::LoginStart),
        pid_of(Fid::EncResponse) == 0x01,
        name_of(Direction::Serverbound, State::Login, 0x01) == Some(Fid::EncResponse),
        pid_of(Fid::PluginResponse) == 0x02,
        name_of(Direction::Serverbound, State::Login, 0x02) == Some(Fid::PluginResponse),
{
    law_id_table_resolves(Direction::Serverbound, State::Login, 0, 0);
    law_id_table_resolves(Direction::Serverbound, State::Login, 0, 1);
    law_id_table_resolves(Direction::Serverbound, State::Login, 0, 2);
}

/// The ids of the serverbound packets of the play state in protocol 754, and the
/// kinds the id table names by them.
pub proof fn law_ids_serverbound_play()
    ensures
        pid_of(Fid::ChatMessageServerbound) == 0x03,
        name_of(Direction::Serverbound, State::Play, 0x03) == Some(Fid::ChatMessageServerbound),
        pid_of(Fid::ClientSettings) == 0x05,
        name_of(Direction::Serverbound, State::Play, 0x05) == Some(Fid::ClientSettings),
        pid_of(Fid::PlayerPosition) == 0x12,
        name_of(Direction::Serverbound, State::Play, 0x12) == Some(Fid::PlayerPosition),
        pid_of(Fid::PlayerPositionRotation) == 0x13,
        name_of(Direction::Serverbound, State::Play, 0x13) == Some(Fid::PlayerPositionRotation),
        pid_of(Fid::KeepAliveSb) == 0x10,
        name_of(Direction::Serverbound, State::Play, 0x10) == Some(Fid::KeepAliveSb),
        pid_of(Fid::ResourcePackStatus) == 0x21,
        name_of(Direction::Serverbound, State::Play, 0x21) == Some(Fid::ResourcePackStatus),
        pid_of(Fid::SteerVehicle) == 0x1D,
        name_of(Direction::Serverbound, State::Play, 0x1D) == Some(Fid::SteerVehicle),
        pid_of(Fid::EntityAction) == 0x1C,
        name_of(Direction::Serverbound, State::Play, 0x1C) == Some(Fid::EntityAction),
        pid_of(Fid::PlayerBlockPlace) == 0x2E,
        name_of(Direction::Serverbound, State::Play, 0x2E) == Some(Fid::PlayerBlockPlace),
{
    law_id_table_resolves(Direction::Serverbound, State::Play, 0, 0);
    law_id_table_resolves(Direction::Serverbound, State::Play, 0, 1);
    law_id_table_resolves(Direction::Serverbound, State::Play, 0, 2);
    law_id_table_resolves(Direction::Serverbound, State::Play, 0, 3);
    law_id_table_resolves(Direction::Serverbound, State::Play, 0, 4);
    law_id_table_resolves(Direction::Serverbound, State::Play, 0, 5);
    law_id_table_resolves(Direction::Serverbound, State::Play, 0, 6);
    law_id_table_resolves(Direction::Serverbound, State::Play, 0, 7);
    law_id_table_resolves(Direction::Serverbound, State::Play, 0, 8);
}

} // verus!
