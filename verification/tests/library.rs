use maion::fmt::{decimal_string, hex_string, list_string, option_string, unsigned_string};
use maion::packet::Packet;
use maion::protocol::v754::clientbound::play::chunk_data::{ChunkData, ChunkSection};
use maion::protocol::v754::clientbound::play::keepalive::KeepAliveCb;
use maion::protocol::v754::clientbound::play::set_passenger::SetPassenger;
use maion::protocol::v754::clientbound::play::teams::{TeamMode, Teams};
use maion::protocol::v754::clientbound::play::window_items::WindowItems;
use maion::protocol::v754::lib::serverbound::login::enc_response::EncResponse;
use maion::protocol::v754::parser::Parser;
use maion::protocol::v754::serverbound::handshaking::handshake::Handshake;
use maion::protocol::v754::serverbound::login::login_start::{AuthResponse, AuthSubResponse, LoginStart};
use maion::protocol::v754::serverbound::play::entity_action::{Action, EntityAction};
use maion::protocol::v754::{fid_to_pid, get_functions, Fid};
use maion::raw_packet::RawPacket;
use maion::serverbound::login::PluginResponse;
use maion::types::{Direction, SharedState, State};
use maion::protocol::v754::clientbound::play::ack_player_digging::{AckPlayerDigging, DiggingStatus};
use maion::protocol::v754::clientbound::play::update_score::UpdateScore;
use maion::protocol::v754::clientbound::play::display_scoreboard::{DisplayScoreboard, ScoreboardPosition};
use maion::protocol::v754::clientbound::login::login_success::LoginSuccess;
use maion::protocol::v754::lib::clientbound::login::login_success::LoginSuccess as LoginSuccessHex;
use maion::protocol::v754::serverbound::play::client_settings::{ChatMode, ClientSettings, Hand};
use maion::serverbound::status::{StatusPing, StatusRequest};
use maion::protocol::v754::clientbound::play::chat_message::{ChatMessageClientbound, ChatMessagePosition};
use maion::protocol::v754::clientbound::play::entity_effect::EntityEffect;
use maion::protocol::v754::clientbound::play::player_abilities::PlayerAbilities;
use maion::protocol::v754::serverbound::play::steer_vehicle::SteerVehicle;
use maion::replies::{first_answer, next_plugin_to_ask};
use maion::protocol::v754::pass_through::PassThrough;
use maion::utils::{connection_id_from, generate_connection_id, generate_message_packet, make_string_fixed_length, rainbowfy};

fn varint(v: i32) -> Vec<u8> {
    let mut p = RawPacket::new();
    p.encode_varint(v);
    p.get_vec()
}

fn string_bytes(s: &str) -> Vec<u8> {
    let mut v = varint(s.len() as i32);
    v.extend_from_slice(s.as_bytes());
    v
}

fn message_bytes(text: &str) -> Vec<u8> {
    let json = format!(
        "{{\"extra\":[{{\"color\":\"red\",\"text\":\"proxy\"}},{{\"text\":\"> {}\"}}],\"text\":\"\"}}",
        text
    );
    let mut v = string_bytes(&json);
    v.push(1);
    v.extend_from_slice(&[0u8; 16]);
    v
}

fn body(p: &Packet) -> Vec<u8> {
    p.data.get_vec()
}

#[test]
fn every_field_type_reads_back() {
    let mut p = RawPacket::new();
    p.encode_bool(true);
    p.encode_byte(-5);
    p.encode_ubyte(200);
    p.encode_short(-1234);
    p.encode_ushort(54321);
    p.encode_int(-7);
    p.encode_long(-9_000_000_000);
    p.encode_float(1.5f32.to_bits());
    p.encode_double(2.25f64.to_bits());
    p.encode_string("héllo".to_string());
    p.encode_varint(-300);
    p.encode_varlong(1 << 40);
    p.encode_uuid(0x0123_4567_89ab_cdef_0123_4567_89ab_cdef);
    assert_eq!(p.decode_bool(), Ok(true));
    assert_eq!(p.decode_byte(), Ok(-5));
    assert_eq!(p.decode_ubyte(), Ok(200));
    assert_eq!(p.decode_short(), Ok(-1234));
    assert_eq!(p.decode_ushort(), Ok(54321));
    assert_eq!(p.decode_int(), Ok(-7));
    assert_eq!(p.decode_long(), Ok(-9_000_000_000));
    assert_eq!(f32::from_bits(p.decode_float().unwrap()), 1.5);
    assert_eq!(f64::from_bits(p.decode_double().unwrap()), 2.25);
    assert_eq!(p.decode_string(), Ok("héllo".to_string()));
    assert_eq!(p.decode_varint(), Ok(-300));
    assert_eq!(p.decode_varlong(), Ok(1 << 40));
    assert_eq!(p.decode_uuid(), Ok(0x0123_4567_89ab_cdef_0123_4567_89ab_cdef));
    assert_eq!(p.len(), 0);
}

#[test]
fn position_reads_back_in_its_range() {
    let mut p = RawPacket::new();
    p.encode_position((-1000, 5, 20));
    assert_eq!(p.decode_position(), Ok((-1000, 5, 20)));
}

#[test]
fn position_high_coordinates_come_back_shifted() {
    let mut p = RawPacket::new();
    p.encode_position((100, 64, 30));
    assert_eq!(p.decode_position(), Ok((100 - 24, 64 - 14, 30 - 24)));
}

#[test]
fn reading_past_the_end_fails() {
    let mut p = RawPacket::new();
    assert_eq!(p.decode_bool(), Err(()));
    assert_eq!(p.decode_int(), Err(()));
    assert_eq!(p.decode_long(), Err(()));
    assert_eq!(p.decode_varint(), Err(()));
    p.push(0x80);
    assert_eq!(p.decode_varint(), Err(()));
    let mut q = RawPacket::from(vec![1, 2, 3]);
    assert_eq!(q.read(4), Err(()));
    assert_eq!(q.read(2), Ok(vec![1, 2]));
    assert_eq!(q.get_vec(), vec![3]);
}

#[test]
fn a_bool_byte_other_than_zero_or_one_is_refused() {
    let mut p = RawPacket::from(vec![2]);
    assert_eq!(p.decode_bool(), Err(()));
}

#[test]
fn a_sixth_varint_byte_is_refused() {
    let mut p = RawPacket::from(vec![0x80, 0x80, 0x80, 0x80, 0x80, 0x01]);
    assert_eq!(p.decode_varint(), Err(()));
}

#[test]
fn a_string_longer_than_the_packet_is_refused() {
    let mut p = RawPacket::from(vec![5, b'a', b'b']);
    assert_eq!(p.decode_string(), Err(()));
}

#[test]
fn prepend_length_puts_the_length_in_front() {
    let mut p = RawPacket::from(vec![9; 130]);
    p.prepend_length();
    let v = p.get_vec();
    assert_eq!(&v[..2], &[0x82, 0x01]);
    assert_eq!(v.len(), 132);
}

#[test]
fn raw_packet_default_is_empty() {
    let p = RawPacket::default();
    assert_eq!(p.len(), 0);
}

#[test]
fn packet_ids_of_kinds() {
    assert_eq!(fid_to_pid(Fid::Unparsable), -1);
    assert_eq!(fid_to_pid(Fid::KeepAliveCb), 0x1F);
    assert_eq!(fid_to_pid(Fid::ChunkData), 0x20);
    assert_eq!(fid_to_pid(Fid::PlayerBlockPlace), 0x2E);
    assert_eq!(Fid::ChatMessageServerbound.to_string(), "ChatMessageServerbound");
    assert_eq!(Direction::Clientbound.to_string(), "Clientbound");
}

#[test]
fn id_table_names_packets() {
    let f = get_functions();
    assert_eq!(
        f.get_name(&Direction::Serverbound, &State::Play, &0x03),
        Some(Fid::ChatMessageServerbound)
    );
    assert_eq!(f.get_name(&Direction::Clientbound, &State::Play, &0x20), Some(Fid::ChunkData));
    assert_eq!(f.get_name(&Direction::Serverbound, &State::Handshaking, &0x00), Some(Fid::Handshake));
    assert_eq!(f.get_name(&Direction::Clientbound, &State::Handshaking, &0x00), None);
    assert_eq!(f.get_name(&Direction::Serverbound, &State::Play, &0x7f), None);
}

#[test]
fn registry_hands_out_fresh_parsers() {
    let f = get_functions();
    match f.get(&Fid::KeepAliveCb) {
        Some(Parser::KeepAliveCb(k)) => assert_eq!(k.keep_alive_id, 0),
        _ => panic!("no keep-alive parser"),
    }
    let p = f.get(&Fid::ChunkData).unwrap();
    assert_eq!(p.kind(), Fid::ChunkData);
    match f.get(&Fid::JoinGame) {
        Some(Parser::PassThrough(p)) => {
            assert_eq!(p.kind, Fid::JoinGame);
            assert!(p.body.is_empty());
        },
        _ => panic!("no join-game parser"),
    }
    assert!(f.get(&Fid::SpawnXpOrb).is_some());
    assert!(f.get(&Fid::ScoreboardObjective).is_some());
    assert!(f.get(&Fid::Unparsable).is_none());
    let named = f.get_name(&Direction::Clientbound, &State::Play, &0x24).unwrap();
    assert_eq!(named, Fid::JoinGame);
    assert!(f.get(&named).is_some());
}

fn packable_chunk() -> ChunkData {
    let mut c = ChunkData::default();
    c.chunk_x = 3;
    c.chunk_z = -2;
    c.primary_bit_mask = 1;
    c.heightmaps = nbt::Blob::new();
    c.data = vec![Some(ChunkSection {
        block_count: 4,
        bits_per_block: 4,
        palette: Some(vec![0, 5, 9]),
        data_array_length: 256,
        block_ids_array: vec![5, 9, 0, 5],
    })];
    c
}

#[test]
fn chunk_sections_read_back_after_editing() {
    let c = packable_chunk();
    let out = c.edit_packet().unwrap();
    assert_eq!(out.len(), 1);
    assert_eq!(out[0].0.pid, 0x20);
    assert_eq!(out[0].1, Direction::Clientbound);
    let bytes = body(&out[0].0);
    assert_eq!(&bytes[..8], &[0, 0, 0, 3, 0xff, 0xff, 0xff, 0xfe]);
    assert_eq!(bytes[8], 0);
    assert_eq!(bytes[9], 1);
    assert_eq!(&bytes[10..14], &[0x0a, 0, 0, 0]);
    let mut back = ChunkData::default();
    assert_eq!(back.parse_packet(RawPacket::from(bytes)), Ok(()));
    assert_eq!(back.chunk_x, 3);
    assert_eq!(back.chunk_z, -2);
    assert_eq!(back.data.len(), 16);
    let s = back.data[0].as_ref().unwrap();
    assert_eq!(s.block_count, 4);
    assert_eq!(s.bits_per_block, 4);
    assert_eq!(s.palette, Some(vec![0, 5, 9]));
    assert_eq!(s.data_array_length, 256);
    assert_eq!(s.block_ids_array.len(), 256 * 16);
    assert_eq!(&s.block_ids_array[..5], &[5, 9, 0, 5, 0]);
    assert!(back.data[1..].iter().all(|d| d.is_none()));
}

#[test]
fn chunk_first_long_packs_palette_positions() {
    let c = packable_chunk();
    let out = c.edit_packet().unwrap();
    let bytes = body(&out[0].0);
    // x, z, full, mask, heightmaps, section data size (2 bytes), block count,
    // bits, palette (length and three entries), long count (2 bytes)
    let start = 8 + 1 + 1 + 4 + 2 + 2 + 1 + 4 + 2;
    assert_eq!(&bytes[start..start + 8], &0x1021u64.to_be_bytes());
}

#[test]
fn chunk_with_truncated_sections_is_refused() {
    let mut p = RawPacket::new();
    p.encode_int(0);
    p.encode_int(0);
    p.encode_bool(false);
    p.encode_varint(1);
    p.push_slice(&[0x0a, 0, 0, 0]);
    p.encode_varint(2);
    p.push_slice(&[0, 1]);
    p.encode_varint(0);
    let mut c = ChunkData::default();
    assert_eq!(c.parse_packet(p), Err(()));
    assert_eq!(c.data.len(), 0);
    assert_eq!(c.primary_bit_mask, 1);
    assert_eq!(c.size, 2);
}

#[test]
fn chunk_with_negative_size_is_refused() {
    let mut p = RawPacket::new();
    p.encode_int(0);
    p.encode_int(0);
    p.encode_bool(false);
    p.encode_varint(0);
    p.push_slice(&[0x0a, 0, 0, 0]);
    p.encode_varint(-1);
    let mut c = ChunkData::default();
    assert_eq!(c.parse_packet(p), Err(()));
    assert_eq!(c.size, -1);
}

#[test]
fn chunk_with_bad_heightmaps_is_refused() {
    let mut p = RawPacket::new();
    p.encode_int(0);
    p.encode_int(0);
    p.encode_bool(false);
    p.encode_varint(0);
    p.push_slice(&[0x01, 0, 0, 0]);
    let mut c = ChunkData::default();
    assert_eq!(c.parse_packet(p), Err(()));
}

#[test]
fn full_chunk_biomes_are_read() {
    let mut p = RawPacket::new();
    p.encode_int(1);
    p.encode_int(1);
    p.encode_bool(true);
    p.encode_varint(0);
    p.push_slice(&[0x0a, 0, 0, 0]);
    p.encode_varint(2);
    p.encode_varint(7);
    p.encode_varint(300);
    p.encode_varint(0);
    p.encode_varint(0);
    let mut c = ChunkData::default();
    assert_eq!(c.parse_packet(p), Ok(()));
    assert_eq!(c.biomes_length, Some(2));
    assert_eq!(c.biomes, Some(vec![7, 300]));
    assert_eq!(c.data.len(), 16);
}

#[test]
fn window_items_with_no_slots() {
    let mut w = WindowItems::empty();
    let mut p = RawPacket::new();
    p.encode_ubyte(3);
    p.encode_short(0);
    assert_eq!(w.parse_packet(p), Ok(()));
    assert_eq!(w.window_id, 3);
    let out = w.edit_packet().unwrap();
    assert_eq!(body(&out[0].0), vec![3, 0, 0]);
    assert_eq!(out[0].0.pid, 0x13);
}

#[test]
fn keep_alive_is_echoed_both_ways() {
    let mut k = KeepAliveCb::default();
    let mut p = RawPacket::new();
    p.encode_long(42);
    assert_eq!(k.parse_packet(p), Ok(()));
    let out = k.edit_packet().unwrap();
    assert_eq!(out.len(), 2);
    assert_eq!(out[0].0.pid, 0x10);
    assert_eq!(out[0].1, Direction::Serverbound);
    assert_eq!(out[1].0.pid, 0x1F);
    assert_eq!(out[1].1, Direction::Clientbound);
    assert_eq!(body(&out[0].0), 42i64.to_be_bytes().to_vec());
    assert_eq!(k.get_printable(), "42");
}

#[test]
fn entity_action_is_resent_with_a_big_jump() {
    let e = EntityAction { entity_id: 5, action_id: Action::StartJumpWithHorse, jump_boost: 3 };
    let out = e.edit_packet().unwrap();
    let mut back = EntityAction::empty();
    assert_eq!(back.parse_packet(RawPacket::from(body(&out[0].0))), Ok(()));
    assert_eq!(back.entity_id, 5);
    assert_eq!(back.action_id, Action::StartJumpWithHorse);
    assert_eq!(back.jump_boost, 10000);
    assert_eq!(e.get_printable(), "5 StartJumpWithHorse 3");
}

#[test]
fn handshake_reads_back() {
    let h = Handshake {
        protocol_version: 754,
        server_address: "mc.example.org".to_string(),
        server_port: 25565,
        next_state: State::Login,
    };
    let p = h.encode_packet().unwrap();
    assert_eq!(p.pid, 0);
    let mut back = Handshake::default();
    assert_eq!(back.parse_packet(p.data), Ok(()));
    assert_eq!(back.protocol_version, 754);
    assert_eq!(back.server_address, "mc.example.org");
    assert_eq!(back.server_port, 25565);
    assert_eq!(back.next_state, State::Login);
    assert_eq!(back.get_printable(), "754 mc.example.org:25565 Login");
    let mut status = SharedState::new();
    assert_eq!(back.update_status(&mut status), Ok(()));
    assert_eq!(status.state, State::Login);
}

#[test]
fn handshake_to_play_cannot_be_written() {
    let mut h = Handshake::default();
    h.next_state = State::Play;
    assert!(h.encode_packet().is_err());
}

#[test]
fn handshake_with_unknown_next_state_is_refused() {
    let mut p = RawPacket::new();
    p.encode_varint(754);
    p.encode_string("a".to_string());
    p.encode_ushort(1);
    p.encode_varint(3);
    let mut h = Handshake::default();
    assert_eq!(h.parse_packet(p), Err(()));
    assert_eq!(h.protocol_version, 754);
    assert_eq!(h.server_address, "a");
    assert_eq!(h.server_port, 1);
    assert_eq!(h.next_state, State::Handshaking);
}

#[test]
fn passengers_kicked_off_get_a_notice() {
    let s = SetPassenger { entity_id: 1, passenger_count: 0, passengers: vec![] };
    let out = s.edit_packet().unwrap();
    assert_eq!(out.len(), 1);
    assert_eq!(out[0].0.pid, 0x0E);
    assert_eq!(body(&out[0].0), message_bytes("Horse tried to kick you off!"));
    let s2 = SetPassenger { entity_id: 1, passenger_count: 2, passengers: vec![4, 300] };
    let out2 = s2.edit_packet().unwrap();
    assert_eq!(out2[0].0.pid, 0x4B);
    assert_eq!(body(&out2[0].0), vec![1, 2, 4, 0xac, 0x02]);
    assert_eq!(s2.get_printable(), "1 2 [4, 300]");
}

#[test]
fn message_packet_bytes() {
    let p = generate_message_packet("hi").unwrap();
    assert_eq!(p.pid, 0x0E);
    assert_eq!(body(&p), message_bytes("hi"));
}

#[test]
fn rainbow_colours_skip_spaces() {
    assert_eq!(rainbowfy("ab c".to_string()), "&ca&6b &ac");
    assert_eq!(rainbowfy("abcdefg".to_string()), "&ca&6b&ec&ad&be&5f&cg");
}

#[test]
fn long_strings_are_cut_in_the_middle() {
    assert_eq!(make_string_fixed_length("alongstringlikethis".to_string(), 15), "alongs...kethis");
    assert_eq!(make_string_fixed_length("alongstringlikethis".to_string(), 7), "al...is");
    assert_eq!(make_string_fixed_length("short".to_string(), 7), "short");
}

#[test]
fn connection_ids_are_thirty_letters_or_digits() {
    let id = generate_connection_id();
    assert_eq!(id.len(), 30);
    assert!(id.bytes().all(|b| b.is_ascii_alphanumeric()));
}

#[test]
fn number_forms() {
    assert_eq!(decimal_string(-120), "-120");
    assert_eq!(decimal_string(0), "0");
    assert_eq!(unsigned_string(u128::MAX), u128::MAX.to_string());
    assert_eq!(hex_string(0xbeef), "beef");
    assert_eq!(list_string(&vec![]), "[]");
    assert_eq!(list_string(&vec![-1, 2]), "[-1, 2]");
    assert_eq!(option_string(Some(-4)), "Some(-4)");
    assert_eq!(option_string(None), "None");
}

#[test]
fn encryption_response_shows_hex() {
    let e = EncResponse {
        shared_secret_length: 2,
        shared_secret: vec![0xde, 0xad],
        verify_token_length: 16,
        verify_token: (0u8..16).collect(),
    };
    assert_eq!(e.get_printable(), "2 dead 16 00010203...0c0d0e0f");
}

#[test]
fn plugin_response_shows_hex() {
    let p = PluginResponse { message_id: 9, success: true, data: vec![1, 0xab] };
    assert_eq!(p.get_printable(), "9 true 01ab");
}

#[test]
fn teams_show_only_updates() {
    let mut t = Teams::empty();
    t.team_name = "red".to_string();
    t.team_prefix = "[R]".to_string();
    t.team_suffix = "!".to_string();
    assert_eq!(t.get_printable(), "");
    t.mode = TeamMode::Update;
    assert_eq!(t.get_printable(), "red [R] !");
}

#[test]
fn failed_authentication_disconnects() {
    let l = LoginStart { username: "steve".to_string() };
    let refused = l
        .auth_reply(&AuthSubResponse { success: false, message: String::new() })
        .unwrap();
    assert_eq!(refused[0].0.pid, 0x00);
    assert_eq!(refused[0].1, Direction::Clientbound);
    assert_eq!(body(&refused[0].0), string_bytes("{\"text\":\"Failed to authenticate\"}"));
    assert!(l.auth_reply(&AuthSubResponse { success: true, message: String::new() }).is_none());
}

#[test]
fn authentication_fills_in_the_session() {
    let l = LoginStart { username: "steve".to_string() };
    let mut status = SharedState::new();
    status.server_ip = "1.2.3.4".to_string();
    status.user_ip = "5.6.7.8".to_string();
    let req = l.auth_request(&status);
    assert_eq!(req.username, "steve");
    assert_eq!(req.mc_server_address, "1.2.3.4");
    assert_eq!(req.login_ip, "5.6.7.8");
    LoginStart::apply_auth(
        &mut status,
        AuthResponse { authentication_token: "tok".to_string(), uuid: "u-1".to_string() },
    );
    assert_eq!(status.access_token, "tok");
    assert_eq!(status.uuid, "u-1");
    assert_eq!(status.server_ip, "1.2.3.4");
}

#[test]
fn log_lines_of_packets() {
    let a = AckPlayerDigging { x: -3, y: 64, z: 7, block: 12, status: DiggingStatus::Finished, successful: true };
    assert_eq!(a.get_printable(), "-3 64 7 12 Finished true");
    let u = UpdateScore {
        entity_name: "bob".to_string(),
        action: 1,
        objective_name: "kills".to_string(),
        value: None,
    };
    assert_eq!(u.get_printable(), "bob 1 kills None");
    let d = DisplayScoreboard { position: ScoreboardPosition::Sidebar, name: "top".to_string() };
    assert_eq!(d.get_printable(), "Sidebar top");
    let l = LoginSuccess { uuid: 255, username: "al".to_string() };
    assert_eq!(l.get_printable(), "255 al");
    let lh = LoginSuccessHex { uuid: 255, username: "al".to_string() };
    assert_eq!(lh.get_printable(), "ff al");
    let c = ClientSettings {
        locale: "en_us".to_string(),
        view_distance: 12,
        chat_mode: ChatMode::CommandsOnly,
        chat_colors: false,
        displayed_skin_parts: 127,
        main_hand: Hand::Right,
    };
    assert_eq!(c.get_printable(), "en_us 12 CommandsOnly false 127 Right");
    let p = StatusPing { payload: -9 };
    assert_eq!(p.get_printable(), "-9");
    let r = StatusRequest {};
    assert_eq!(r.get_printable(), "");
}

#[test]
fn generated_messages_read_back_as_system_messages() {
    let p = generate_message_packet("hello there").unwrap();
    let mut m = ChatMessageClientbound::default();
    assert_eq!(m.parse_packet(p.data), Ok(()));
    assert_eq!(
        m.data,
        "{\"extra\":[{\"color\":\"red\",\"text\":\"proxy\"},{\"text\":\"> hello there\"}],\"text\":\"\"}"
    );
    assert_eq!(m.position, ChatMessagePosition::SystemMessage);
    assert_eq!(m.sender, 0);
}

#[test]
fn passed_on_packets_read_back() {
    let e = EntityEffect { entity_id: 77, effect_id: 3, amplifier: 1, duration: 600, flags: 2 };
    let (out, _) = e.edit_packet(SharedState::new(), vec![None, None]).unwrap();
    let mut back = EntityEffect::empty();
    assert_eq!(back.parse_packet(RawPacket::from(body(&out[0].0))), Ok(()));
    assert_eq!((back.entity_id, back.effect_id, back.amplifier, back.duration, back.flags), (77, 3, 1, 600, 2));

    let a = PlayerAbilities { flags: 6, flying_speed: 0.05f32.to_bits(), fov_modifier: 0.1f32.to_bits() };
    let (out, _) = a.edit_packet(SharedState::new(), vec![]).unwrap();
    let mut back = PlayerAbilities::empty();
    assert_eq!(back.parse_packet(RawPacket::from(body(&out[0].0))), Ok(()));
    assert_eq!((back.flags, back.flying_speed, back.fov_modifier), (6, a.flying_speed, a.fov_modifier));

    let v = SteerVehicle { sideways: 0.98f32.to_bits(), forward: (-0.5f32).to_bits(), flags: 1 };
    let out = v.edit_packet().unwrap();
    let mut back = SteerVehicle::empty();
    assert_eq!(back.parse_packet(RawPacket::from(body(&out[0].0))), Ok(()));
    assert_eq!((back.sideways, back.forward, back.flags), (v.sideways, v.forward, 1));
}

#[test]
fn unmodelled_packets_pass_through_unchanged() {
    let mut p = PassThrough::empty(Fid::JoinGame);
    assert_eq!(p.parse_packet(RawPacket::from(vec![1, 2, 3])), Ok(()));
    assert!(!p.packet_editing());
    let out = p.edit_packet(Direction::Clientbound).unwrap();
    assert_eq!(out[0].0.pid, 0x24);
    assert_eq!(body(&out[0].0), vec![1, 2, 3]);
    assert_eq!(out[0].1, Direction::Clientbound);
}

#[test]
fn the_first_plugin_answer_decides() {
    assert_eq!(first_answer(vec![None, Some(2), Some(3)]), Some(2));
    assert_eq!(first_answer::<i32>(vec![None, None]), None);
    assert_eq!(first_answer::<i32>(vec![]), None);
}

#[test]
fn plugin_answer_replaces_the_effect() {
    let e = EntityEffect { entity_id: 1, effect_id: 2, amplifier: 0, duration: 5, flags: 0 };
    let notice = generate_message_packet("no").unwrap();
    let (out, _) = e
        .edit_packet(SharedState::new(), vec![None, Some(vec![(notice, Direction::Clientbound)]), Some(vec![])])
        .unwrap();
    assert_eq!(out.len(), 1);
    assert_eq!(out[0].0.pid, 0x0E);
}

#[test]
fn connection_ids_are_made_of_the_drawn_bytes() {
    let bytes: Vec<u8> = b"abcdefghijklmnopqrstuvwxyz0123".to_vec();
    assert_eq!(connection_id_from(&bytes), "abcdefghijklmnopqrstuvwxyz0123");
}

#[test]
fn nbt_with_a_negative_length_is_refused_unread() {
    let mut p = RawPacket::from(vec![0x0a, 0x00, 0x00, 0x07, 0x00, 0x00, 0xff, 0xff, 0xff, 0xff]);
    assert!(p.decode_nbt().is_err());
    let mut q = RawPacket::from(vec![0x0a, 0x00, 0x00, 0x09, 0x00, 0x00, 0x01, 0x7f, 0xff, 0xff, 0xff, 0x00]);
    assert!(q.decode_nbt().is_err());
}

#[test]
fn nbt_nesting_is_bounded() {
    fn nested(depth: usize) -> Vec<u8> {
        let mut v = vec![0x0a, 0x00, 0x00];
        for _ in 0..depth {
            v.extend_from_slice(&[0x0a, 0x00, 0x00]);
        }
        for _ in 0..=depth {
            v.push(0x00);
        }
        v
    }
    let mut shallow = RawPacket::from(nested(10));
    assert!(shallow.decode_nbt().is_ok());
    assert_eq!(shallow.len(), 0);
    let mut deep = RawPacket::from(nested(600));
    assert!(deep.decode_nbt().is_err());
}

#[test]
fn nbt_blob_round_trips() {
    let mut blob = nbt::Blob::new();
    blob.insert("a", 5i8).unwrap();
    let mut p = RawPacket::new();
    p.encode_nbt(&blob);
    assert_eq!(p.get_vec()[0], 10);
    assert_eq!(p.decode_nbt().unwrap(), blob);
    assert_eq!(p.len(), 0);
}

#[test]
fn chat_reads_as_a_string() {
    let mut p = RawPacket::new();
    p.encode_string("{\"text\":\"hi\"}".to_string());
    let mut q = RawPacket::from(p.get_vec());
    assert_eq!(p.decode_chat(), q.decode_string());
    assert_eq!(p.get_vec(), q.get_vec());
}

#[test]
fn strings_with_a_negative_length_or_bad_utf8_are_refused() {
    let mut p = RawPacket::from(vec![0xff, 0xff, 0xff, 0xff, 0x0f]);
    assert_eq!(p.decode_string(), Err(()));
    let mut q = RawPacket::from(vec![2, 0xff, 0xfe, 7]);
    assert_eq!(q.decode_string(), Err(()));
    assert_eq!(q.get_vec(), vec![7]);
}

#[test]
fn chunk_keeps_the_block_entities_read_before_a_bad_one() {
    let mut p = RawPacket::new();
    p.encode_int(3);
    p.encode_int(4);
    p.encode_bool(false);
    p.encode_varint(0);
    p.push_slice(&[0x0a, 0, 0, 0]);
    p.encode_varint(0);
    p.encode_varint(2);
    p.push_slice(&[0x0a, 0, 0, 0]);
    p.push_slice(&[0x01]);
    let mut c = ChunkData::default();
    assert_eq!(c.parse_packet(p), Err(()));
    assert_eq!(c.chunk_x, 3);
    assert_eq!(c.chunk_z, 4);
    assert_eq!(c.data.len(), 16);
    assert_eq!(c.number_of_block_entities, 2);
    assert_eq!(c.block_entities.len(), 1);
}

#[test]
fn passengers_read_before_a_short_list_stay() {
    let mut p = RawPacket::new();
    p.encode_varint(9);
    p.encode_varint(3);
    p.encode_varint(5);
    p.encode_varint(6);
    let mut s = SetPassenger { entity_id: 0, passenger_count: 0, passengers: vec![1] };
    assert_eq!(s.parse_packet(p), Err(()));
    assert_eq!(s.entity_id, 9);
    assert_eq!(s.passenger_count, 3);
    assert_eq!(s.passengers, vec![1, 5, 6]);
}

#[test]
fn teams_keep_the_fields_read_before_a_failure() {
    let mut p = RawPacket::new();
    p.encode_string("red".to_string());
    p.encode_byte(3);
    p.encode_varint(3);
    p.encode_string("alice".to_string());
    p.encode_string("bob".to_string());
    let mut t = Teams::empty();
    assert_eq!(t.parse_packet(p), Err(()));
    assert_eq!(t.team_name, "red");
    assert_eq!(t.mode, TeamMode::Create);
    assert_eq!(t.entity_count, 3);
    assert_eq!(t.entities, vec!["alice".to_string(), "bob".to_string()]);
}

#[test]
fn teams_with_unknown_mode_keep_the_name() {
    let mut p = RawPacket::new();
    p.encode_string("blue".to_string());
    p.encode_byte(9);
    let mut t = Teams::empty();
    assert_eq!(t.parse_packet(p), Err(()));
    assert_eq!(t.team_name, "blue");
    assert_eq!(t.mode, TeamMode::Create);
}

#[test]
fn plugins_are_asked_in_order_until_one_answers() {
    let none: Vec<Option<i32>> = vec![];
    assert_eq!(next_plugin_to_ask(&none, 3), Some(0));
    assert_eq!(next_plugin_to_ask(&vec![None::<i32>], 3), Some(1));
    assert_eq!(next_plugin_to_ask(&vec![None, Some(5)], 3), None);
    assert_eq!(next_plugin_to_ask(&vec![None::<i32>, None, None], 3), None);
    assert_eq!(next_plugin_to_ask(&none, 0), None);
}

#[test]
fn asking_lazily_gives_the_first_answer() {
    let all = vec![None, Some(2), Some(3)];
    let mut asked: Vec<Option<i32>> = Vec::new();
    while let Some(i) = next_plugin_to_ask(&asked, all.len()) {
        asked.push(all[i]);
    }
    assert_eq!(asked, vec![None, Some(2)]);
    assert_eq!(first_answer(asked), Some(2));
    assert_eq!(first_answer(all), Some(2));
}

#[test]
fn assembled_chunk_carries_the_given_compounds() {
    let mut c = ChunkData::default();
    c.chunk_x = 1;
    c.number_of_block_entities = 1;
    let out = c
        .assemble_chunk(vec![0x0a, 0, 0, 0], vec![vec![0x0a, 0, 1, 0x41, 0]])
        .unwrap();
    assert_eq!(out.len(), 1);
    assert_eq!(out[0].0.pid, 0x20);
    assert_eq!(out[0].1, Direction::Clientbound);
    let bytes = body(&out[0].0);
    assert_eq!(
        bytes,
        vec![0, 0, 0, 1, 0, 0, 0, 0, 0, 0, 0x0a, 0, 0, 0, 0, 1, 0x0a, 0, 1, 0x41, 0]
    );
    let mut back = ChunkData::default();
    assert_eq!(back.parse_packet(RawPacket::from(bytes)), Ok(()));
    assert_eq!(back.chunk_x, 1);
    assert_eq!(back.number_of_block_entities, 1);
    assert_eq!(back.block_entities.len(), 1);
}

#[test]
fn assembled_chunk_with_bad_heightmaps_is_refused() {
    let c = ChunkData::default();
    assert!(c.assemble_chunk(vec![0x01, 0, 0], vec![]).is_err());
}

#[test]
fn chunk_with_block_entities_reads_back_after_editing() {
    let mut p = RawPacket::new();
    p.encode_int(7);
    p.encode_int(8);
    p.encode_bool(false);
    p.encode_varint(0);
    p.push_slice(&[0x0a, 0, 0, 0]);
    p.encode_varint(0);
    p.encode_varint(2);
    p.push_slice(&[0x0a, 0, 0, 0]);
    p.push_slice(&[0x0a, 0, 0, 0]);
    let mut c = ChunkData::default();
    assert_eq!(c.parse_packet(p), Ok(()));
    let out = c.edit_packet().unwrap();
    let mut back = ChunkData::default();
    assert_eq!(back.parse_packet(RawPacket::from(body(&out[0].0))), Ok(()));
    assert_eq!(back.chunk_x, 7);
    assert_eq!(back.chunk_z, 8);
    assert!(!back.full_chunk);
    assert_eq!(back.primary_bit_mask, 0);
    assert_eq!(back.number_of_block_entities, 2);
    assert_eq!(back.block_entities.len(), 2);
}

#[test]
fn login_without_the_service_sends_nothing() {
    assert_eq!(LoginStart::answer_without_service(false).map(|v| v.len()), Some(0));
    assert!(LoginStart::answer_without_service(true).is_none());
}
