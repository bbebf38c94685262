use vstd::prelude::*;
use crate::raw_packet::RawPacket;
use crate::wire::{Step, and_then, varint_step};

verus! {

/// The client reports what became of a resource pack.
#[derive(Clone)]
pub struct ResourcePackStatus {
    pub result: ResourcePackResponse,
}

/// The fields of the packet, in the order they are read.
pub open spec fn resource_pack_status_step(s: Seq<u8>) -> Step<ResourcePackResponse> {
    and_then(resource_pack_response_step(s), |result: ResourcePackResponse, r1: Seq<u8>|
    Step::Done(result, r1))
}

impl ResourcePackStatus {
    /// The fields as the log line shows them.
    pub fn get_printable(&self) -> (r: String)
        ensures
            r@ == self.result.name(),
    {
        let mut s = self.result.name_string();
        s
    }

    pub fn empty() -> (r: Self)
        ensures
            r.result == ResourcePackResponse::Success,
    {
        Self { result: ResourcePackResponse::Success }
    }

    /// Reads the fields from the packet body; on failure the fields keep
    /// their values.
    pub fn parse_packet(&mut self, packet: RawPacket) -> (r: Result<(), ()>)
        ensures
            match resource_pack_status_step(packet@) {
                Step::Done(v, _) => {
                    &&& r is Ok
                    &&& final(self).result == v
                },
                _ => r is Err && *final(self) == *old(self),
            },
    {
        let mut packet = packet;
        let result = match resource_pack_response_from(packet.decode_varint()?) {
            Some(e) => e,
            None => return Err(()),
        };
        self.result = result;
        Ok(())
    }
}

/// What became of a resource pack.
#[derive(Clone, Copy, Debug, PartialEq, Eq, Structural)]
pub enum ResourcePackResponse {
    Success,
    Declined,
    Failed,
    Accepted,
}

impl ResourcePackResponse {
    /// The variant's name, as the `{:?}` form shows it.
    pub open spec fn name(self) -> Seq<char> {
        match self {
            ResourcePackResponse::Success => "Success"@,
            ResourcePackResponse::Declined => "Declined"@,
            ResourcePackResponse::Failed => "Failed"@,
            ResourcePackResponse::Accepted => "Accepted"@,
        }
    }

    /// The variant's name.
    pub fn name_string(&self) -> (r: String)
        ensures
            r@ == self.name(),
    {
        match self {
            ResourcePackResponse::Success => String::from_str("Success"),
            ResourcePackResponse::Declined => String::from_str("Declined"),
            ResourcePackResponse::Failed => String::from_str("Failed"),
            ResourcePackResponse::Accepted => String::from_str("Accepted"),
        }
    }
}

/// The `ResourcePackResponse` a number stands for.
pub open spec fn resource_pack_response_of(n: i32) -> Option<ResourcePackResponse> {
    if n == 0 {
        Some(ResourcePackResponse::Success)
    } else if n == 1 {
        Some(ResourcePackResponse::Declined)
    } else if n == 2 {
        Some(ResourcePackResponse::Failed)
    } else if n == 3 {
        Some(ResourcePackResponse::Accepted)
    } else {
        None
    }
}

/// Reading a `ResourcePackResponse`: any other number is refused.
pub open spec fn resource_pack_response_step(s: Seq<u8>) -> Step<ResourcePackResponse> {
    and_then(
        varint_step(s),
        |n: i32, r: Seq<u8>|
            match resource_pack_response_of(n) {
                Some(e) => Step::Done(e, r),
                None => Step::Fail(r),
            },
    )
}

fn resource_pack_response_from(n: i32) -> (r: Option<ResourcePackResponse>)
    ensures
        r == resource_pack_response_of(n),
{
    match n {
        0 => Some(ResourcePackResponse::Success),
        1 => Some(ResourcePackResponse::Declined),
        2 => Some(ResourcePackResponse::Failed),
        3 => Some(ResourcePackResponse::Accepted),
        _ => None,
    }
}


/// The answers of Resource Pack Status as the protocol numbers them: 0
/// loaded, 1 declined, 2 failed to download, 3 accepted; no other number
/// is an answer.
pub proof fn law_resource_pack_response_numbers(n: i32)
    ensures
        resource_pack_response_of(n) == Some(ResourcePackResponse::Success) <==> n == 0,
        resource_pack_response_of(n) == Some(ResourcePackResponse::Declined) <==> n == 1,
        resource_pack_response_of(n) == Some(ResourcePackResponse::Failed) <==> n == 2,
        resource_pack_response_of(n) == Some(ResourcePackResponse::Accepted) <==> n == 3,
        resource_pack_response_of(n) is None <==> !(0 <= n <= 3),
{
}

} // verus!
