use vstd::prelude::*;
use crate::fmt::{bool_string, bool_text, decimal, decimal_string, hex_bytes};
use crate::utils::{fixed_text, hex_field};
use crate::protocol::v754::serverbound::login::login_start::login_start_step;
use crate::protocol::v754::lib::serverbound::login::enc_response::enc_response_step;
use crate::raw_packet::RawPacket;
use crate::wire::{and_then, bool_step, take_step, varint_step, Step};

verus! {

/// The client starts logging in with a user name.
#[derive(Clone)]
pub struct LoginStart {
    pub username: String,
}

impl LoginStart {
    /// The fields as the log line shows them.
    pub fn get_printable(&self) -> (r: String)
        ensures
            r@ == self.username@,
    {
        let mut s = self.username.clone();
        s
    }

    pub fn empty() -> (r: Self)
        ensures
            r.username@ == Seq::<char>::empty(),
    {
        Self { username: String::new() }
    }

    /// Reads the user name; on failure it keeps its value.
    pub fn parse_packet(&mut self, packet: RawPacket) -> (r: Result<(), ()>)
        ensures
            match login_start_step(packet@) {
                Step::Done(v, _) => r is Ok && final(self).username@ == v,
                _ => r is Err && *final(self) == *old(self),
            },
    {
        let mut packet = packet;
        self.username = packet.decode_string()?;
        Ok(())
    }
}

/// The client answers the server's encryption request.
#[derive(Clone)]
pub struct EncResponse {
    pub shared_secret_length: i32,
    pub shared_secret: Vec<u8>,
    pub verify_token_length: i32,
    pub verify_token: Vec<u8>,
}

impl EncResponse {
    pub fn packet_editing(&self) -> (r: bool)
        ensures
            r,
    {
        true
    }

    /// The fields as the log line shows them, each byte list as
    /// hexadecimal cut to 20 characters.
    pub fn get_printable(&self) -> (r: String)
        ensures
            r@ == decimal(self.shared_secret_length as int) + " "@ + fixed_text(
                hex_bytes(self.shared_secret@),
                20,
            ) + " "@ + decimal(self.verify_token_length as int) + " "@ + fixed_text(
                hex_bytes(self.verify_token@),
                20,
            ),
    {
        let mut s = decimal_string(self.shared_secret_length as i128);
        s.append(" ");
        s.append(hex_field(&self.shared_secret, 20).as_str());
        s.append(" ");
        s.append(decimal_string(self.verify_token_length as i128).as_str());
        s.append(" ");
        s.append(hex_field(&self.verify_token, 20).as_str());
        s
    }

    pub fn empty() -> (r: Self)
        ensures
            r.shared_secret_length == 0,
            r.shared_secret@ == Seq::<u8>::empty(),
            r.verify_token_length == 0,
            r.verify_token@ == Seq::<u8>::empty(),
    {
        Self {
            shared_secret_length: 0,
            shared_secret: Vec::new(),
            verify_token_length: 0,
            verify_token: Vec::new(),
        }
    }

    /// Reads the fields from the packet body one after the other; on
    /// failure the fields read before keep their new values.
    pub fn parse_packet(&mut self, packet: RawPacket) -> (r: Result<(), ()>)
        ensures
            r is Ok <==> enc_response_step(packet@) is Done,
            match varint_step(packet@) {
                Step::Done(secret_length, r1) => {
                    &&& final(self).shared_secret_length == secret_length
                    &&& (
                    match take_step(r1, (secret_length as usize) as nat) {
                        Step::Done(secret, r2) => {
                            &&& final(self).shared_secret@ == secret
                            &&& (
                            match varint_step(r2) {
                                Step::Done(token_length, r3) => {
                                    &&& final(self).verify_token_length == token_length
                                    &&& (
                                    match take_step(r3, (token_length as usize) as nat) {
                                        Step::Done(token, r4) => {
                                            &&& final(self).verify_token@ == token
                                            &&& (
                                            r is Ok
                                            )
                                        },
                                        _ => r is Err && final(self).verify_token == old(self).verify_token,
                                    }
                                    )
                                },
                                _ => r is Err && final(self).verify_token_length == old(self).verify_token_length && final(self).verify_token == old(self).verify_token,
                            }
                            )
                        },
                        _ => r is Err && final(self).shared_secret == old(self).shared_secret && final(self).verify_token_length == old(self).verify_token_length && final(self).verify_token == old(self).verify_token,
                    }
                    )
                },
                _ => r is Err && *final(self) == *old(self),
            },
    {
        let mut packet = packet;
        let shared_secret_length = packet.decode_varint()?;
        self.shared_secret_length = shared_secret_length;
        let shared_secret = packet.read(shared_secret_length as usize)?;
        self.shared_secret = shared_secret;
        let verify_token_length = packet.decode_varint()?;
        self.verify_token_length = verify_token_length;
        let verify_token = packet.read(verify_token_length as usize)?;
        self.verify_token = verify_token;
        Ok(())
    }
}

/// The client answers a login plugin request.
#[derive(Clone)]
pub struct PluginResponse {
    pub message_id: i32,
    pub success: bool,
    pub data: Vec<u8>,
}

/// The fields of the packet: message id, success flag, and all the bytes
/// that follow.
pub open spec fn plugin_response_step(s: Seq<u8>) -> Step<(i32, bool, Seq<u8>)> {
    and_then(varint_step(s), |message_id: i32, r1: Seq<u8>|
    and_then(bool_step(r1), |success: bool, r2: Seq<u8>|
    Step::Done((message_id, success, r2), r2)))
}

impl PluginResponse {
    /// The fields as the log line shows them, the data as hexadecimal cut
    /// to 30 characters.
    pub fn get_printable(&self) -> (r: String)
        ensures
            r@ == decimal(self.message_id as int) + " "@ + bool_text(self.success) + " "@
                + fixed_text(hex_bytes(self.data@), 30),
    {
        let mut s = decimal_string(self.message_id as i128);
        s.append(" ");
        s.append(bool_string(self.success).as_str());
        s.append(" ");
        s.append(hex_field(&self.data, 30).as_str());
        s
    }

    pub fn empty() -> (r: Self)
        ensures
            r.message_id == 0,
            r.success == false,
            r.data@ == Seq::<u8>::empty(),
    {
        Self { message_id: 0, success: false, data: Vec::new() }
    }

    /// Reads the fields from the packet body one after the other; on
    /// failure the fields read before keep their new values.
    pub fn parse_packet(&mut self, packet: RawPacket) -> (r: Result<(), ()>)
        ensures
            r is Ok <==> plugin_response_step(packet@) is Done,
            match varint_step(packet@) {
                Step::Done(message_id, r1) => {
                    &&& final(self).message_id == message_id
                    &&& match bool_step(r1) {
                        Step::Done(success, r2) => {
                            &&& r is Ok
                            &&& final(self).success == success
                            &&& final(self).data@ == r2
                        },
                        _ => r is Err && final(self).success == old(self).success
                            && final(self).data == old(self).data,
                    }
                },
                _ => r is Err && *final(self) == *old(self),
            },
    {
        let mut packet = packet;
        let message_id = packet.decode_varint()?;
        self.message_id = message_id;
        let success = packet.decode_bool()?;
        self.success = success;
        self.data = packet.get_vec();
        Ok(())
    }
}

} // verus!
