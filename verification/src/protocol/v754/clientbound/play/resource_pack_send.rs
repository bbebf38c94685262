use vstd::prelude::*;
use crate::raw_packet::RawPacket;
use crate::wire::{and_then, string_step, Step};

verus! {

/// The server asks the client to use a resource pack.
pub struct ResourcePackSend {
    pub url: String,
    pub hash: String,
}

/// The fields of a Resource Pack Send packet: url, then hash.
pub open spec fn resource_pack_send_step(s: Seq<u8>) -> Step<(Seq<char>, Seq<char>)> {
    and_then(
        string_step(s),
        |url: Seq<char>, r: Seq<u8>|
            and_then(string_step(r), |hash: Seq<char>, r2: Seq<u8>| Step::Done((url, hash), r2)),
    )
}

impl ResourcePackSend {
    /// The fields as the log line shows them.
    pub fn get_printable(&self) -> (r: String)
        ensures
            r@ == self.url@ + " "@ + self.hash@,
    {
        let mut s = self.url.clone();
        s.append(" ");
        s.append(self.hash.as_str());
        s
    }

    pub fn empty() -> (r: Self)
        ensures
            r.url@ == Seq::<char>::empty(),
            r.hash@ == Seq::<char>::empty(),
    {
        Self { url: String::new(), hash: String::new() }
    }

    /// Reads the url, then the hash; on failure a url read before stays.
    pub fn parse_packet(&mut self, packet: RawPacket) -> (r: Result<(), ()>)
        ensures
            r is Ok <==> resource_pack_send_step(packet@) is Done,
            match string_step(packet@) {
                Step::Done(url, r1) => {
                    &&& final(self).url@ == url
                    &&& match string_step(r1) {
                        Step::Done(hash, _) => r is Ok && final(self).hash@ == hash,
                        _ => r is Err && final(self).hash == old(self).hash,
                    }
                },
                _ => r is Err && *final(self) == *old(self),
            },
    {
        let mut packet = packet;
        let url = packet.decode_string()?;
        self.url = url;
        let hash = packet.decode_string()?;
        self.hash = hash;
        Ok(())
    }
}

} // verus!
