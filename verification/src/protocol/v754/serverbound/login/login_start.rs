use vstd::prelude::*;
use crate::raw_packet::RawPacket;
use crate::wire::{Step, and_then, string_step};
use crate::packet::{sent, Packet};
use crate::protocol::v754::{fid_to_pid, pid_of, Fid};
use crate::replies::one;
use crate::types::{Direction, SharedState};
use crate::wire::string_bytes;

verus! {

/// The client starts logging in with a user name.
#[derive(Clone)]
pub struct LoginStart {
    pub username: String,
}

/// The fields of the packet, in the order they are read.
pub open spec fn login_start_step(s: Seq<u8>) -> Step<Seq<char>> {
    and_then(string_step(s), |username: Seq<char>, r1: Seq<u8>|
    Step::Done(username, r1))
}

impl LoginStart {
    pub fn empty() -> (r: Self)
        ensures
            r.username@ == Seq::<char>::empty(),
    {
        Self { username: String::new() }
    }

    /// Reads the fields from the packet body; on failure the fields keep
    /// their values.
    pub fn parse_packet(&mut self, packet: RawPacket) -> (r: Result<(), ()>)
        ensures
            match login_start_step(packet@) {
                Step::Done(v, _) => {
                    &&& r is Ok
                    &&& final(self).username@ == v
                },
                _ => r is Err && *final(self) == *old(self),
            },
    {
        let mut packet = packet;
        let username = packet.decode_string()?;
        self.username = username;
        Ok(())
    }

    pub fn get_printable(&self) -> (r: String)
        ensures
            r@ == self.username@,
    {
        self.username.clone()
    }

    pub fn packet_editing(&self) -> (r: bool)
        ensures
            r,
    {
        true
    }

    /// What to answer a login with before the authentication service is
    /// asked: without the service, nothing is sent and the login goes on;
    /// with it, there is no answer yet (`None`).
    pub fn answer_without_service(service_enabled: bool) -> (r: Option<Vec<(Packet, Direction)>>)
        ensures
            r is None <==> service_enabled,
            r matches Some(v) ==> v@.len() == 0,
    {
        if service_enabled {
            None
        } else {
            Some(Vec::new())
        }
    }

    /// What to do with the authentication service's first answer: when
    /// no client listens for the name, the Disconnect packet to send
    /// instead of going on.
    pub fn auth_reply(&self, answer: &AuthSubResponse) -> (r: Option<Vec<(Packet, Direction)>>)
        ensures
            answer.success ==> r is None,
            !answer.success ==> (r matches Some(v) && sent(v@) == auth_refused()),
    {
        if answer.success {
            None
        } else {
            let mut new_packet = RawPacket::new();
            new_packet.encode_string(String::from_str("{\"text\":\"Failed to authenticate\"}"));
            Some(one(Packet::from(new_packet, fid_to_pid(Fid::Disconnect)), Direction::Clientbound))
        }
    }

    /// What the proxy asks the authentication service when a client logs
    /// in: the name, the server it connects to, and where it comes from.
    pub fn auth_request(&self, status: &SharedState) -> (r: AuthRequest)
        ensures
            r.username@ == self.username@,
            r.mc_server_address@ == status.server_ip@,
            r.login_ip@ == status.user_ip@,
    {
        AuthRequest {
            username: self.username.clone(),
            mc_server_address: status.server_ip.clone(),
            login_ip: status.user_ip.clone(),
        }
    }

    /// Takes over the access token and UUID that the authentication
    /// service handed out.
    pub fn apply_auth(status: &mut SharedState, answer: AuthResponse)
        ensures
            *final(status) == (SharedState {
                access_token: answer.authentication_token,
                uuid: answer.uuid,
                ..*old(status)
            }),
    {
        status.access_token = answer.authentication_token;
        status.uuid = answer.uuid;
    }
}


/// What the proxy asks the authentication service.
pub struct AuthRequest {
    pub username: String,
    pub mc_server_address: String,
    pub login_ip: String,
}

/// The authentication service's final answer: the access token and UUID
/// to log in with.
pub struct AuthResponse {
    pub authentication_token: String,
    pub uuid: String,
}

/// The authentication service's first answer: whether a client is
/// listening for the name.
pub struct AuthSubResponse {
    pub success: bool,
    pub message: String,
}

/// The reply to the client when no client listens for its name: a
/// Disconnect packet with the reason "Failed to authenticate".
pub open spec fn auth_refused() -> Seq<((i32, Seq<u8>), Direction)> {
    seq![
        (
            (pid_of(Fid::Disconnect), string_bytes("{\"text\":\"Failed to authenticate\"}"@)),
            Direction::Clientbound,
        ),
    ]
}

} // verus!
