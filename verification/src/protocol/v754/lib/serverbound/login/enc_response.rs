use vstd::prelude::*;
use crate::fmt::{bool_string, bool_text, decimal, decimal_string, hex_bytes};
use crate::utils::{fixed_text, hex_field};
use crate::raw_packet::RawPacket;
use crate::wire::{and_then, take_step, varint_step, Step};

verus! {

/// The client answers the server's encryption request.
#[derive(Clone)]
pub struct EncResponse {
    pub shared_secret_length: i32,
    pub shared_secret: Vec<u8>,
    pub verify_token_length: i32,
    pub verify_token: Vec<u8>,
}

/// The fields of the packet: a VarInt length and that many bytes of shared
/// secret, then a VarInt length and that many bytes of verify token.  A
/// negative length, taken as a `usize`, is too long for any packet.
pub open spec fn enc_response_step(s: Seq<u8>) -> Step<(i32, Seq<u8>, i32, Seq<u8>)> {
    and_then(varint_step(s), |secret_length: i32, r1: Seq<u8>|
    and_then(take_step(r1, (secret_length as usize) as nat), |secret: Seq<u8>, r2: Seq<u8>|
    and_then(varint_step(r2), |token_length: i32, r3: Seq<u8>|
    and_then(take_step(r3, (token_length as usize) as nat), |token: Seq<u8>, r4: Seq<u8>|
    Step::Done((secret_length, secret, token_length, token), r4)))))
}

impl EncResponse {
    /// The fields as the log line shows them, each byte list as
    /// hexadecimal cut to 20 characters.
    pub fn get_printable(&self) -> (r: String)
        ensures
            r@ == decimal(self.shared_secret_length as int) + " "@ + fixed_text(
                hex_bytes(self.shared_secret@),
                20,
            ) + " "@ + decimal(self.verify_token_length as int) + " "@ + fixed_text(
                hex_bytes(self.verify_token@),
                20,
            ),
    {
        let mut s = decimal_string(self.shared_secret_length as i128);
        s.append(" ");
        s.append(hex_field(&self.shared_secret, 20).as_str());
        s.append(" ");
        s.append(decimal_string(self.verify_token_length as i128).as_str());
        s.append(" ");
        s.append(hex_field(&self.verify_token, 20).as_str());
        s
    }

    pub fn empty() -> (r: Self)
        ensures
            r.shared_secret_length == 0,
            r.shared_secret@ == Seq::<u8>::empty(),
            r.verify_token_length == 0,
            r.verify_token@ == Seq::<u8>::empty(),
    {
        Self {
            shared_secret_length: 0,
            shared_secret: Vec::new(),
            verify_token_length: 0,
            verify_token: Vec::new(),
        }
    }

    /// Reads the fields from the packet body one after the other; on
    /// failure the fields read before keep their new values.
    pub fn parse_packet(&mut self, packet: RawPacket) -> (r: Result<(), ()>)
        ensures
            r is Ok <==> enc_response_step(packet@) is Done,
            match varint_step(packet@) {
                Step::Done(secret_length, r1) => {
                    &&& final(self).shared_secret_length == secret_length
                    &&& (
                    match take_step(r1, (secret_length as usize) as nat) {
                        Step::Done(secret, r2) => {
                            &&& final(self).shared_secret@ == secret
                            &&& (
                            match varint_step(r2) {
                                Step::Done(token_length, r3) => {
                                    &&& final(self).verify_token_length == token_length
                                    &&& (
                                    match take_step(r3, (token_length as usize) as nat) {
                                        Step::Done(token, r4) => {
                                            &&& final(self).verify_token@ == token
                                            &&& (
                                            r is Ok
                                            )
                                        },
                                        _ => r is Err && final(self).verify_token == old(self).verify_token,
                                    }
                                    )
                                },
                                _ => r is Err && final(self).verify_token_length == old(self).verify_token_length && final(self).verify_token == old(self).verify_token,
                            }
                            )
                        },
                        _ => r is Err && final(self).shared_secret == old(self).shared_secret && final(self).verify_token_length == old(self).verify_token_length && final(self).verify_token == old(self).verify_token,
                    }
                    )
                },
                _ => r is Err && *final(self) == *old(self),
            },
    {
        let mut packet = packet;
        let shared_secret_length = packet.decode_varint()?;
        self.shared_secret_length = shared_secret_length;
        let shared_secret = packet.read(shared_secret_length as usize)?;
        self.shared_secret = shared_secret;
        let verify_token_length = packet.decode_varint()?;
        self.verify_token_length = verify_token_length;
        let verify_token = packet.read(verify_token_length as usize)?;
        self.verify_token = verify_token;
        Ok(())
    }
}

} // verus!
