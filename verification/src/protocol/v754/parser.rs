//! A parser for each packet kind that the proxy reads: the packet's
//! fields in their initial state, ready to be filled from a packet body.
use vstd::prelude::*;
use crate::protocol::v754::Fid;
use crate::protocol::v754::pass_through::PassThrough;
use crate::types::State;
use crate::protocol::v754::clientbound::play::ack_player_digging::DiggingStatus;
use crate::protocol::v754::clientbound::play::chat_message::ChatMessagePosition;
use crate::protocol::v754::clientbound::play::display_scoreboard::ScoreboardPosition;
use crate::protocol::v754::clientbound::play::spawn_painting::FacingDirection;
use crate::protocol::v754::clientbound::play::tab_complete::TabCompleteMatch;
use crate::protocol::v754::clientbound::play::teams::TeamMode;
use crate::protocol::v754::serverbound::play::client_settings::{ChatMode, Hand};
use crate::protocol::v754::serverbound::play::entity_action::Action;
use crate::protocol::v754::serverbound::play::resource_pack_status::ResourcePackResponse;
use crate::protocol::v754::serverbound::handshaking::handshake::Handshake;
use crate::protocol::v754::serverbound::status::status_request::StatusRequest;
use crate::serverbound::status::StatusPing;
use crate::protocol::v754::clientbound::login::disconnect::Disconnect;
use crate::protocol::v754::clientbound::login::login_success::LoginSuccess;
use crate::protocol::v754::clientbound::login::set_compression::SetCompression;
use crate::protocol::v754::serverbound::login::login_start::LoginStart;
use crate::protocol::v754::lib::serverbound::login::enc_response::EncResponse;
use crate::serverbound::login::PluginResponse;
use crate::protocol::v754::clientbound::play::spawn_entity::SpawnEntity;
use crate::protocol::v754::lib::clientbound::play::spawn_living_entity::SpawnLivingEntity;
use crate::protocol::v754::clientbound::play::spawn_painting::SpawnPainting;
use crate::protocol::v754::clientbound::play::spawn_player::SpawnPlayer;
use crate::protocol::v754::clientbound::play::ack_player_digging::AckPlayerDigging;
use crate::protocol::v754::clientbound::play::chat_message::ChatMessageClientbound;
use crate::protocol::v754::clientbound::play::tab_complete::TabCompleteClientbound;
use crate::protocol::v754::clientbound::play::resource_pack_send::ResourcePackSend;
use crate::protocol::v754::clientbound::play::update_health::UpdateHealth;
use crate::protocol::v754::clientbound::play::player_abilities::PlayerAbilities;
use crate::protocol::v754::clientbound::play::keepalive::KeepAliveCb;
use crate::protocol::v754::clientbound::play::update_score::UpdateScore;
use crate::protocol::v754::clientbound::play::open_book::OpenBook;
use crate::protocol::v754::clientbound::play::window_items::WindowItems;
use crate::protocol::v754::clientbound::play::display_scoreboard::DisplayScoreboard;
use crate::protocol::v754::clientbound::play::teams::Teams;
use crate::protocol::v754::clientbound::play::entity_effect::EntityEffect;
use crate::protocol::v754::clientbound::play::set_passenger::SetPassenger;
use crate::protocol::v754::clientbound::play::chunk_data::ChunkData;
use crate::protocol::v754::serverbound::play::chat_message::ChatMessageServerbound;
use crate::protocol::v754::serverbound::play::client_settings::ClientSettings;
use crate::protocol::v754::serverbound::play::player_position::PlayerPosition;
use crate::protocol::v754::serverbound::play::player_position_and_rotation::PlayerPositionRotation;
use crate::protocol::v754::serverbound::play::resource_pack_status::ResourcePackStatus;
use crate::protocol::v754::serverbound::play::player_block_placement::PlayerBlockPlace;
use crate::protocol::v754::serverbound::play::keepalive::KeepAliveSb;
use crate::protocol::v754::serverbound::play::steer_vehicle::SteerVehicle;
use crate::protocol::v754::serverbound::play::entity_action::EntityAction;

verus! {

/// The fields of one packet kind.
pub enum Parser {
    Handshake(Handshake),
    StatusRequest(StatusRequest),
    StatusPing(StatusPing),
    Disconnect(Disconnect),
    LoginSuccess(LoginSuccess),
    SetCompression(SetCompression),
    LoginStart(LoginStart),
    EncResponse(EncResponse),
    PluginResponse(PluginResponse),
    SpawnEntity(SpawnEntity),
    SpawnLivingEntity(SpawnLivingEntity),
    SpawnPainting(SpawnPainting),
    SpawnPlayer(SpawnPlayer),
    AckPlayerDigging(AckPlayerDigging),
    ChatMessageClientbound(ChatMessageClientbound),
    TabCompleteClientbound(TabCompleteClientbound),
    ResourcePackSend(ResourcePackSend),
    UpdateHealth(UpdateHealth),
    PlayerAbilities(PlayerAbilities),
    KeepAliveCb(KeepAliveCb),
    UpdateScore(UpdateScore),
    OpenBook(OpenBook),
    WindowItems(WindowItems),
    DisplayScoreboard(DisplayScoreboard),
    Teams(Teams),
    EntityEffect(EntityEffect),
    SetPassenger(SetPassenger),
    ChunkData(ChunkData),
    ChatMessageServerbound(ChatMessageServerbound),
    ClientSettings(ClientSettings),
    PlayerPosition(PlayerPosition),
    PlayerPositionRotation(PlayerPositionRotation),
    ResourcePackStatus(ResourcePackStatus),
    PlayerBlockPlace(PlayerBlockPlace),
    KeepAliveSb(KeepAliveSb),
    SteerVehicle(SteerVehicle),
    EntityAction(EntityAction),
    /// A packet whose fields the library does not hold, kept whole.
    PassThrough(PassThrough),
}

/// Whether there is a parser for a packet kind: for every kind but
/// `Unparsable`.
pub open spec fn has_parser(id: Fid) -> bool {
    id != Fid::Unparsable
}

/// Whether the library holds the fields of a packet kind (it does not for
/// the status answers, the encryption and plugin requests, experience orbs,
/// scoreboard objectives and the join-game packet, which it keeps whole).
pub open spec fn holds_fields(id: Fid) -> bool {
    match id {
        Fid::Unparsable | Fid::StatusResponse | Fid::StatusPong | Fid::EncRequest
        | Fid::PluginRequest | Fid::SpawnXpOrb | Fid::ScoreboardObjective | Fid::JoinGame => false,
        _ => true,
    }
}

impl Parser {
    /// The packet kind whose fields these are.
    pub open spec fn kind_of(&self) -> Fid {
        match self {
            Parser::Handshake(_) => Fid::Handshake,
            Parser::StatusRequest(_) => Fid::StatusRequest,
            Parser::StatusPing(_) => Fid::StatusPing,
            Parser::Disconnect(_) => Fid::Disconnect,
            Parser::LoginSuccess(_) => Fid::LoginSuccess,
            Parser::SetCompression(_) => Fid::SetCompression,
            Parser::LoginStart(_) => Fid::LoginStart,
            Parser::EncResponse(_) => Fid::EncResponse,
            Parser::PluginResponse(_) => Fid::PluginResponse,
            Parser::SpawnEntity(_) => Fid::SpawnEntity,
            Parser::SpawnLivingEntity(_) => Fid::SpawnLivingEntity,
            Parser::SpawnPainting(_) => Fid::SpawnPainting,
            Parser::SpawnPlayer(_) => Fid::SpawnPlayer,
            Parser::AckPlayerDigging(_) => Fid::AckPlayerDigging,
            Parser::ChatMessageClientbound(_) => Fid::ChatMessageClientbound,
            Parser::TabCompleteClientbound(_) => Fid::TabCompleteClientbound,
            Parser::ResourcePackSend(_) => Fid::ResourcePackSend,
            Parser::UpdateHealth(_) => Fid::UpdateHealth,
            Parser::PlayerAbilities(_) => Fid::PlayerAbilities,
            Parser::KeepAliveCb(_) => Fid::KeepAliveCb,
            Parser::UpdateScore(_) => Fid::UpdateScore,
            Parser::OpenBook(_) => Fid::OpenBook,
            Parser::WindowItems(_) => Fid::WindowItems,
            Parser::DisplayScoreboard(_) => Fid::DisplayScoreboard,
            Parser::Teams(_) => Fid::Teams,
            Parser::EntityEffect(_) => Fid::EntityEffect,
            Parser::SetPassenger(_) => Fid::SetPassenger,
            Parser::ChunkData(_) => Fid::ChunkData,
            Parser::ChatMessageServerbound(_) => Fid::ChatMessageServerbound,
            Parser::ClientSettings(_) => Fid::ClientSettings,
            Parser::PlayerPosition(_) => Fid::PlayerPosition,
            Parser::PlayerPositionRotation(_) => Fid::PlayerPositionRotation,
            Parser::ResourcePackStatus(_) => Fid::ResourcePackStatus,
            Parser::PlayerBlockPlace(_) => Fid::PlayerBlockPlace,
            Parser::KeepAliveSb(_) => Fid::KeepAliveSb,
            Parser::SteerVehicle(_) => Fid::SteerVehicle,
            Parser::EntityAction(_) => Fid::EntityAction,
            Parser::PassThrough(p) => p.kind,
        }
    }

    /// The fields hold their initial values.
    pub open spec fn is_fresh(&self) -> bool {
        match self {
            Parser::Handshake(r) => {
                &&& r.protocol_version == 0
                &&& r.server_address@ == Seq::<char>::empty()
                &&& r.server_port == 0
                &&& r.next_state == State::Handshaking
            },
            Parser::StatusRequest(_) => true,
            Parser::StatusPing(r) => {
                &&& r.payload == 0
            },
            Parser::Disconnect(r) => {
                &&& r.reason@ == Seq::<char>::empty()
            },
            Parser::LoginSuccess(r) => {
                &&& r.uuid == 0
                &&& r.username@ == Seq::<char>::empty()
            },
            Parser::SetCompression(r) => {
                &&& r.threshold == 0
            },
            Parser::LoginStart(r) => {
                &&& r.username@ == Seq::<char>::empty()
            },
            Parser::EncResponse(r) => {
                &&& r.shared_secret_length == 0
                &&& r.shared_secret@ == Seq::<u8>::empty()
                &&& r.verify_token_length == 0
                &&& r.verify_token@ == Seq::<u8>::empty()
            },
            Parser::PluginResponse(r) => {
                &&& r.message_id == 0
                &&& r.success == false
                &&& r.data@ == Seq::<u8>::empty()
            },
            Parser::SpawnEntity(r) => {
                &&& r.entity_id == 0
                &&& r.object_uuid == 0
                &&& r.entity_type == 0
                &&& r.x == 0
                &&& r.y == 0
                &&& r.z == 0
                &&& r.pitch == 0
                &&& r.yaw == 0
                &&& r.data == 0
                &&& r.velocity_x == 0
                &&& r.velocity_y == 0
                &&& r.velocity_z == 0
            },
            Parser::SpawnLivingEntity(r) => {
                &&& r.entity_id == 0
                &&& r.object_uuid == 0
                &&& r.entity_type == 0
                &&& r.x == 0
                &&& r.y == 0
                &&& r.z == 0
                &&& r.yaw == 0
                &&& r.pitch == 0
                &&& r.head_pitch == 0
                &&& r.velocity_x == 0
                &&& r.velocity_y == 0
                &&& r.velocity_z == 0
            },
            Parser::SpawnPainting(r) => {
                &&& r.entity_id == 0
                &&& r.object_uuid == 0
                &&& r.motive == 0
                &&& r.x == 0
                &&& r.y == 0
                &&& r.z == 0
                &&& r.direction == FacingDirection::North
            },
            Parser::SpawnPlayer(r) => {
                &&& r.entity_id == 0
                &&& r.player_uuid == 0
                &&& r.x == 0
                &&& r.y == 0
                &&& r.z == 0
                &&& r.yaw == 0
                &&& r.pitch == 0
            },
            Parser::AckPlayerDigging(r) => {
                &&& r.x == 0
                &&& r.y == 0
                &&& r.z == 0
                &&& r.block == 0
                &&& r.status == DiggingStatus::Started
                &&& r.successful == false
            },
            Parser::ChatMessageClientbound(r) => {
                &&& r.data@ == Seq::<char>::empty()
                &&& r.position == ChatMessagePosition::Chat
                &&& r.sender == 0
            },
            Parser::TabCompleteClientbound(r) => {
                &&& r.id == 0
                &&& r.start == 0
                &&& r.length == 0
                &&& r.count == 0
                &&& r.matches@ == Seq::<TabCompleteMatch>::empty()
            },
            Parser::ResourcePackSend(r) => {
                &&& r.url@ == Seq::<char>::empty()
                &&& r.hash@ == Seq::<char>::empty()
            },
            Parser::UpdateHealth(r) => {
                &&& r.health == 0
                &&& r.food == 0
                &&& r.food_saturation == 0
            },
            Parser::PlayerAbilities(r) => {
                &&& r.flags == 0
                &&& r.flying_speed == 0
                &&& r.fov_modifier == 0
            },
            Parser::KeepAliveCb(r) => {
                &&& r.keep_alive_id == 0
            },
            Parser::UpdateScore(r) => {
                &&& r.entity_name@ == Seq::<char>::empty()
                &&& r.action == 0
                &&& r.objective_name@ == Seq::<char>::empty()
                &&& r.value == None::<i32>
            },
            Parser::OpenBook(r) => {
                &&& r.hand == 0
            },
            Parser::WindowItems(r) => {
                &&& r.window_id == 0
                &&& r.count == 0
                &&& r.slot_data@.len() == 0
            },
            Parser::DisplayScoreboard(r) => {
                &&& r.position == ScoreboardPosition::List
                &&& r.name@ == Seq::<char>::empty()
            },
            Parser::Teams(r) => {
                &&& r.team_name@ == Seq::<char>::empty()
                &&& r.mode == TeamMode::Create
                &&& r.team_display_name@ == Seq::<char>::empty()
                &&& r.friendly_flags == 0
                &&& r.name_tag_visibility@ == Seq::<char>::empty()
                &&& r.collision_rule@ == Seq::<char>::empty()
                &&& r.team_color == 0
                &&& r.team_prefix@ == Seq::<char>::empty()
                &&& r.team_suffix@ == Seq::<char>::empty()
                &&& r.entity_count == 0
                &&& r.entities@ == Seq::<String>::empty()
            },
            Parser::EntityEffect(r) => {
                &&& r.entity_id == 0
                &&& r.effect_id == 0
                &&& r.amplifier == 0
                &&& r.duration == 0
                &&& r.flags == 0
            },
            Parser::SetPassenger(r) => {
                &&& r.entity_id == 0
                &&& r.passenger_count == 0
                &&& r.passengers@ == Seq::<i32>::empty()
            },
            Parser::ChunkData(r) => {
                &&& r.chunk_x == 0
                &&& r.chunk_z == 0
                &&& !r.full_chunk
                &&& r.primary_bit_mask == 0
                &&& r.biomes_length is None
                &&& r.biomes is None
                &&& r.size == 0
                &&& r.data@.len() == 0
                &&& r.number_of_block_entities == 0
                &&& r.block_entities@.len() == 0
            },
            Parser::ChatMessageServerbound(r) => {
                &&& r.message@ == Seq::<char>::empty()
            },
            Parser::ClientSettings(r) => {
                &&& r.locale@ == Seq::<char>::empty()
                &&& r.view_distance == 0
                &&& r.chat_mode == ChatMode::Enabled
                &&& r.chat_colors == false
                &&& r.displayed_skin_parts == 0
                &&& r.main_hand == Hand::Right
            },
            Parser::PlayerPosition(r) => {
                &&& r.x == 0
                &&& r.feet_y == 0
                &&& r.z == 0
                &&& r.on_ground == false
            },
            Parser::PlayerPositionRotation(r) => {
                &&& r.x == 0
                &&& r.feet_y == 0
                &&& r.z == 0
                &&& r.yaw == 0
                &&& r.pitch == 0
                &&& r.on_ground == false
            },
            Parser::ResourcePackStatus(r) => {
                &&& r.result == ResourcePackResponse::Success
            },
            Parser::PlayerBlockPlace(r) => {
                &&& r.hand == 0
                &&& r.location == (0i32, 0i32, 0i32)
                &&& r.face == 0
                &&& r.cursor_pos_x == 0
                &&& r.cursor_pos_y == 0
                &&& r.cursor_pos_z == 0
                &&& r.inside_block == false
            },
            Parser::KeepAliveSb(r) => {
                &&& r.keep_alive_id == 0
            },
            Parser::SteerVehicle(r) => {
                &&& r.sideways == 0
                &&& r.forward == 0
                &&& r.flags == 0
            },
            Parser::EntityAction(r) => {
                &&& r.entity_id == 0
                &&& r.action_id == Action::StartSneaking
                &&& r.jump_boost == 0
            },
            Parser::PassThrough(p) => p.body@ == Seq::<u8>::empty(),
        }
    }

    /// The packet kind whose fields these are.
    pub fn kind(&self) -> (r: Fid)
        ensures
            r == self.kind_of(),
    {
        match self {
            Parser::Handshake(_) => Fid::Handshake,
            Parser::StatusRequest(_) => Fid::StatusRequest,
            Parser::StatusPing(_) => Fid::StatusPing,
            Parser::Disconnect(_) => Fid::Disconnect,
            Parser::LoginSuccess(_) => Fid::LoginSuccess,
            Parser::SetCompression(_) => Fid::SetCompression,
            Parser::LoginStart(_) => Fid::LoginStart,
            Parser::EncResponse(_) => Fid::EncResponse,
            Parser::PluginResponse(_) => Fid::PluginResponse,
            Parser::SpawnEntity(_) => Fid::SpawnEntity,
            Parser::SpawnLivingEntity(_) => Fid::SpawnLivingEntity,
            Parser::SpawnPainting(_) => Fid::SpawnPainting,
            Parser::SpawnPlayer(_) => Fid::SpawnPlayer,
            Parser::AckPlayerDigging(_) => Fid::AckPlayerDigging,
            Parser::ChatMessageClientbound(_) => Fid::ChatMessageClientbound,
            Parser::TabCompleteClientbound(_) => Fid::TabCompleteClientbound,
            Parser::ResourcePackSend(_) => Fid::ResourcePackSend,
            Parser::UpdateHealth(_) => Fid::UpdateHealth,
            Parser::PlayerAbilities(_) => Fid::PlayerAbilities,
            Parser::KeepAliveCb(_) => Fid::KeepAliveCb,
            Parser::UpdateScore(_) => Fid::UpdateScore,
            Parser::OpenBook(_) => Fid::OpenBook,
            Parser::WindowItems(_) => Fid::WindowItems,
            Parser::DisplayScoreboard(_) => Fid::DisplayScoreboard,
            Parser::Teams(_) => Fid::Teams,
            Parser::EntityEffect(_) => Fid::EntityEffect,
            Parser::SetPassenger(_) => Fid::SetPassenger,
            Parser::ChunkData(_) => Fid::ChunkData,
            Parser::ChatMessageServerbound(_) => Fid::ChatMessageServerbound,
            Parser::ClientSettings(_) => Fid::ClientSettings,
            Parser::PlayerPosition(_) => Fid::PlayerPosition,
            Parser::PlayerPositionRotation(_) => Fid::PlayerPositionRotation,
            Parser::ResourcePackStatus(_) => Fid::ResourcePackStatus,
            Parser::PlayerBlockPlace(_) => Fid::PlayerBlockPlace,
            Parser::KeepAliveSb(_) => Fid::KeepAliveSb,
            Parser::SteerVehicle(_) => Fid::SteerVehicle,
            Parser::EntityAction(_) => Fid::EntityAction,
            Parser::PassThrough(p) => p.kind,
        }
    }

    /// The fields of a packet kind in their initial state, when the
    /// library holds that kind.
    pub fn fresh_for(id: Fid) -> (r: Option<Parser>)
        ensures
            r is Some <==> has_parser(id),
            r matches Some(p) ==> p.kind_of() == id && p.is_fresh() && (p is PassThrough
                <==> !holds_fields(id)),
    {
        match id {
            Fid::Handshake => Some(Parser::Handshake(Handshake::default())),
            Fid::StatusRequest => Some(Parser::StatusRequest(StatusRequest::empty())),
            Fid::StatusPing => Some(Parser::StatusPing(StatusPing::empty())),
            Fid::Disconnect => Some(Parser::Disconnect(Disconnect::empty())),
            Fid::LoginSuccess => Some(Parser::LoginSuccess(LoginSuccess::default())),
            Fid::SetCompression => Some(Parser::SetCompression(SetCompression::empty())),
            Fid::LoginStart => Some(Parser::LoginStart(LoginStart::empty())),
            Fid::EncResponse => Some(Parser::EncResponse(EncResponse::empty())),
            Fid::PluginResponse => Some(Parser::PluginResponse(PluginResponse::empty())),
            Fid::SpawnEntity => Some(Parser::SpawnEntity(SpawnEntity::default())),
            Fid::SpawnLivingEntity => Some(Parser::SpawnLivingEntity(SpawnLivingEntity::empty())),
            Fid::SpawnPainting => Some(Parser::SpawnPainting(SpawnPainting::empty())),
            Fid::SpawnPlayer => Some(Parser::SpawnPlayer(SpawnPlayer::default())),
            Fid::AckPlayerDigging => Some(Parser::AckPlayerDigging(AckPlayerDigging::empty())),
            Fid::ChatMessageClientbound => Some(Parser::ChatMessageClientbound(ChatMessageClientbound::default())),
            Fid::TabCompleteClientbound => Some(Parser::TabCompleteClientbound(TabCompleteClientbound::empty())),
            Fid::ResourcePackSend => Some(Parser::ResourcePackSend(ResourcePackSend::empty())),
            Fid::UpdateHealth => Some(Parser::UpdateHealth(UpdateHealth::empty())),
            Fid::PlayerAbilities => Some(Parser::PlayerAbilities(PlayerAbilities::empty())),
            Fid::KeepAliveCb => Some(Parser::KeepAliveCb(KeepAliveCb::default())),
            Fid::UpdateScore => Some(Parser::UpdateScore(UpdateScore::empty())),
            Fid::OpenBook => Some(Parser::OpenBook(OpenBook::empty())),
            Fid::WindowItems => Some(Parser::WindowItems(WindowItems::empty())),
            Fid::DisplayScoreboard => Some(Parser::DisplayScoreboard(DisplayScoreboard::empty())),
            Fid::Teams => Some(Parser::Teams(Teams::empty())),
            Fid::EntityEffect => Some(Parser::EntityEffect(EntityEffect::empty())),
            Fid::SetPassenger => Some(Parser::SetPassenger(SetPassenger::empty())),
            Fid::ChunkData => Some(Parser::ChunkData(ChunkData::default())),
            Fid::ChatMessageServerbound => Some(Parser::ChatMessageServerbound(ChatMessageServerbound::empty())),
            Fid::ClientSettings => Some(Parser::ClientSettings(ClientSettings::empty())),
            Fid::PlayerPosition => Some(Parser::PlayerPosition(PlayerPosition::default())),
            Fid::PlayerPositionRotation => Some(Parser::PlayerPositionRotation(PlayerPositionRotation::empty())),
            Fid::ResourcePackStatus => Some(Parser::ResourcePackStatus(ResourcePackStatus::empty())),
            Fid::PlayerBlockPlace => Some(Parser::PlayerBlockPlace(PlayerBlockPlace::default())),
            Fid::KeepAliveSb => Some(Parser::KeepAliveSb(KeepAliveSb::default())),
            Fid::SteerVehicle => Some(Parser::SteerVehicle(SteerVehicle::empty())),
            Fid::EntityAction => Some(Parser::EntityAction(EntityAction::empty())),
            Fid::StatusResponse | Fid::StatusPong | Fid::EncRequest | Fid::PluginRequest
            | Fid::SpawnXpOrb | Fid::ScoreboardObjective | Fid::JoinGame => Some(
                Parser::PassThrough(PassThrough::empty(id)),
            ),
            Fid::Unparsable => None,
        }
    }
}

} // verus!
