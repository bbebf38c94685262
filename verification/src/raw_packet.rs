//! A growable byte buffer from which packet fields are read front first
//! and to which they are written at the end.
use vstd::prelude::*;
use crate::text::string_from_utf8;
use crate::nbt_blob::{nbt_screen, nbt_step, nbt_written, read_nbt_blob, write_nbt_blob};
use crate::wire::{varint_list_step, string_list_step, be_u16, be_u32, be_u64, u16_be, u32_be, u64_be, u128_be, bool_step, byte_step, ubyte_step, short_step, ushort_step, int_step, uint_step, long_step, ulong_step, uuid_step, string_step, string_bytes, position_step, position_packed, var_encode_u64, varlong_bits, varlong_bytes, varlong_step, var_give_up, step_res, step_rest, take_step, var_encode_u32, var_end, varint_bits, varint_bytes, varint_step, Step};

verus! {

/// Holds the raw (unparsed) bytes of a packet.
#[derive(Debug, Clone)]
pub struct RawPacket {
    data: Vec<u8>,
}

impl View for RawPacket {
    type V = Seq<u8>;

    closed spec fn view(&self) -> Seq<u8> {
        self.data@
    }
}

impl RawPacket {
    pub fn new() -> (r: RawPacket)
        ensures
            r@ == Seq::<u8>::empty(),
    {
        RawPacket { data: Vec::new() }
    }

    pub fn from(packet_data: Vec<u8>) -> (r: RawPacket)
        ensures
            r@ == packet_data@,
    {
        RawPacket { data: packet_data }
    }

    pub fn push(&mut self, data: u8)
        ensures
            final(self)@ == old(self)@.push(data),
    {
        self.data.push(data)
    }

    pub fn push_vec(&mut self, data: Vec<u8>)
        ensures
            final(self)@ == old(self)@ + data@,
    {
        let mut data = data;
        self.data.append(&mut data)
    }

    pub fn push_slice(&mut self, data: &[u8])
        ensures
            final(self)@ == old(self)@ + data@,
    {
        let ghost start = self@;
        let mut i: usize = 0;
        while i < data.len()
            invariant
                i <= data@.len(),
                self@ == start + data@.take(i as int),
            decreases data@.len() - i,
        {
            self.data.push(data[i]);
            i = i + 1;
            assert(data@.take(i as int) == data@.take((i - 1) as int).push(data@[i - 1]));
        }
        assert(data@.take(i as int) == data@);
    }

    pub fn len(&self) -> (r: usize)
        ensures
            r == self@.len(),
    {
        self.data.len()
    }

    pub fn get_slice(&self) -> (r: &[u8])
        ensures
            r@ == self@,
    {
        self.data.as_slice()
    }

    pub fn get_vec(&self) -> (r: Vec<u8>)
        ensures
            r@ == self@,
    {
        let r = self.data.clone();
        assert(r@ =~= self.data@);
        r
    }

    pub fn clear(&mut self)
        ensures
            final(self)@ == Seq::<u8>::empty(),
    {
        self.data = Vec::new();
    }

    /// Takes `amount` bytes from the front; fails, leaving the packet as it
    /// was, when fewer are left.
    pub fn read(&mut self, amount: usize) -> (r: Result<Vec<u8>, ()>)
        ensures
            r matches Ok(v) ==> take_step(old(self)@, amount as nat) == Step::Done(v@, final(self)@),
            r is Err ==> take_step(old(self)@, amount as nat) == Step::<Seq<u8>>::Fail(final(self)@),
    {
        if self.data.len() < amount {
            return Err(());
        }
        let mut rest = self.data.split_off(amount);
        core::mem::swap(&mut self.data, &mut rest);
        Ok(rest)
    }

    pub fn set(&mut self, value: Vec<u8>)
        ensures
            final(self)@ == value@,
    {
        self.data = value;
    }

    /// Prepends the current length as a VarInt (the length taken modulo 2^32).
    pub fn prepend_length(&mut self)
        ensures
            final(self)@ == varint_bytes(old(self)@.len() as i32) + old(self)@,
    {
        let mut prepending = Self::new();
        prepending.encode_varint(self.data.len() as i32);
        prepending.push_vec(self.get_vec());
        self.set(prepending.get_vec());
    }

    /// Reads a boolean: one byte, 0 or 1.
    pub fn decode_bool(&mut self) -> (r: Result<bool, ()>)
        ensures
            r == step_res(bool_step(old(self)@)),
            final(self)@ == step_rest(bool_step(old(self)@)),
    {
        let b = self.read(1)?;
        if b[0] == 0x00 {
            Ok(false)
        } else if b[0] == 0x01 {
            Ok(true)
        } else {
            Err(())
        }
    }

    /// Reads a signed byte.
    pub fn decode_byte(&mut self) -> (r: Result<i8, ()>)
        ensures
            r == step_res(byte_step(old(self)@)),
            final(self)@ == step_rest(byte_step(old(self)@)),
    {
        let b = self.read(1)?;
        Ok(b[0] as i8)
    }

    /// Reads an unsigned byte.
    pub fn decode_ubyte(&mut self) -> (r: Result<u8, ()>)
        ensures
            r == step_res(ubyte_step(old(self)@)),
            final(self)@ == step_rest(ubyte_step(old(self)@)),
    {
        let b = self.read(1)?;
        Ok(b[0])
    }

    /// Reads a big-endian signed 16-bit integer.
    pub fn decode_short(&mut self) -> (r: Result<i16, ()>)
        ensures
            r == step_res(short_step(old(self)@)),
            final(self)@ == step_rest(short_step(old(self)@)),
    {
        let b = self.read(2)?;
        Ok(be_u16_of(&b) as i16)
    }

    /// Reads a big-endian unsigned 16-bit integer.
    pub fn decode_ushort(&mut self) -> (r: Result<u16, ()>)
        ensures
            r == step_res(ushort_step(old(self)@)),
            final(self)@ == step_rest(ushort_step(old(self)@)),
    {
        let b = self.read(2)?;
        Ok(be_u16_of(&b))
    }

    /// Reads a big-endian signed 32-bit integer.
    pub fn decode_int(&mut self) -> (r: Result<i32, ()>)
        ensures
            r == step_res(int_step(old(self)@)),
            final(self)@ == step_rest(int_step(old(self)@)),
    {
        let b = self.read(4)?;
        Ok(be_u32_at(&b, 0) as i32)
    }

    /// Reads a big-endian signed 64-bit integer.
    pub fn decode_long(&mut self) -> (r: Result<i64, ()>)
        ensures
            r == step_res(long_step(old(self)@)),
            final(self)@ == step_rest(long_step(old(self)@)),
    {
        let b = self.read(8)?;
        Ok(be_u64_at(&b, 0) as i64)
    }

    /// Reads a big-endian unsigned 64-bit integer.
    pub fn decode_ulong(&mut self) -> (r: Result<u64, ()>)
        ensures
            r == step_res(ulong_step(old(self)@)),
            final(self)@ == step_rest(ulong_step(old(self)@)),
    {
        let b = self.read(8)?;
        Ok(be_u64_at(&b, 0))
    }

    /// Reads a 32-bit IEEE 754 float, handed back as its bit pattern.
    pub fn decode_float(&mut self) -> (r: Result<u32, ()>)
        ensures
            r == step_res(uint_step(old(self)@)),
            final(self)@ == step_rest(uint_step(old(self)@)),
    {
        let b = self.read(4)?;
        Ok(be_u32_at(&b, 0))
    }

    /// Reads a 64-bit IEEE 754 float, handed back as its bit pattern.
    pub fn decode_double(&mut self) -> (r: Result<u64, ()>)
        ensures
            r == step_res(ulong_step(old(self)@)),
            final(self)@ == step_rest(ulong_step(old(self)@)),
    {
        let b = self.read(8)?;
        Ok(be_u64_at(&b, 0))
    }

    /// Reads a string: a VarInt byte count, then that many bytes of UTF-8.
    pub fn decode_string(&mut self) -> (r: Result<String, ()>)
        ensures
            match string_step(old(self)@) {
                Step::Done(v, rest) => r matches Ok(s) && s@ == v && final(self)@ == rest,
                Step::Fail(rest) => r is Err && final(self)@ == rest,
                Step::Crash => false,
            },
    {
        let string_length = self.decode_varint()?;
        if string_length < 0 {
            return Err(());
        }
        let bytes = self.read(string_length as usize)?;
        match string_from_utf8(bytes) {
            Some(s) => Ok(s),
            None => Err(()),
        }
    }

    /// Reads a chat message (a JSON string).
    pub fn decode_chat(&mut self) -> (r: Result<String, ()>)
        ensures
            match string_step(old(self)@) {
                Step::Done(v, rest) => r matches Ok(s) && s@ == v && final(self)@ == rest,
                Step::Fail(rest) => r is Err && final(self)@ == rest,
                Step::Crash => false,
            },
    {
        self.decode_string()
    }

    /// Reads an identifier (a namespaced string).
    pub fn decode_identifier(&mut self) -> (r: Result<String, ()>)
        ensures
            match string_step(old(self)@) {
                Step::Done(v, rest) => r matches Ok(s) && s@ == v && final(self)@ == rest,
                Step::Fail(rest) => r is Err && final(self)@ == rest,
                Step::Crash => false,
            },
    {
        self.decode_string()
    }

    /// Reads a packed block position.
    pub fn decode_position(&mut self) -> (r: Result<(i64, i64, i64), ()>)
        ensures
            r == step_res(position_step(old(self)@)),
            final(self)@ == step_rest(position_step(old(self)@)),
    {
        let b = self.read(8)?;
        let val: i64 = be_u64_at(&b, 0) as i64;
        let mut x: i64 = val >> 38;
        let mut y: i64 = val & 0xFFF;
        let mut z: i64 = (((val as u64) << 26) as i64) >> 38;
        if x >= 27 {
            x = x - 24;
        }
        if y >= 9 {
            y = y - 14;
        }
        if z >= 27 {
            z = z - 24;
        }
        Ok((x, y, z))
    }

    /// Reads an angle (one byte, in 256ths of a turn).
    pub fn decode_angle(&mut self) -> (r: Result<u8, ()>)
        ensures
            r == step_res(ubyte_step(old(self)@)),
            final(self)@ == step_rest(ubyte_step(old(self)@)),
    {
        let b = self.read(1)?;
        Ok(b[0])
    }

    /// Reads a UUID: a big-endian 128-bit integer.
    pub fn decode_uuid(&mut self) -> (r: Result<u128, ()>)
        ensures
            r == step_res(uuid_step(old(self)@)),
            final(self)@ == step_rest(uuid_step(old(self)@)),
    {
        let b = self.read(16)?;
        let hi = be_u64_at(&b, 0);
        let lo = be_u64_at(&b, 8);
        Ok(((hi as u128) << 64) | (lo as u128))
    }

    pub fn encode_bool(&mut self, value: bool)
        ensures
            final(self)@ == old(self)@.push(if value { 1u8 } else { 0u8 }),
    {
        self.push(
            match value {
                true => 0x01,
                false => 0x00,
            },
        );
    }

    pub fn encode_byte(&mut self, value: i8)
        ensures
            final(self)@ == old(self)@.push(value as u8),
    {
        self.push(value as u8);
    }

    pub fn encode_ubyte(&mut self, value: u8)
        ensures
            final(self)@ == old(self)@.push(value),
    {
        self.push(value);
    }

    pub fn encode_short(&mut self, value: i16)
        ensures
            final(self)@ == old(self)@ + u16_be(value as u16),
    {
        self.push_u16(value as u16);
    }

    pub fn encode_ushort(&mut self, value: u16)
        ensures
            final(self)@ == old(self)@ + u16_be(value),
    {
        self.push_u16(value);
    }

    pub fn encode_int(&mut self, value: i32)
        ensures
            final(self)@ == old(self)@ + u32_be(value as u32),
    {
        self.push_u32(value as u32);
    }

    pub fn encode_long(&mut self, value: i64)
        ensures
            final(self)@ == old(self)@ + u64_be(value as u64),
    {
        self.push_u64(value as u64);
    }

    /// Writes a 32-bit IEEE 754 float given by its bit pattern.
    pub fn encode_float(&mut self, value: u32)
        ensures
            final(self)@ == old(self)@ + u32_be(value),
    {
        self.push_u32(value);
    }

    /// Writes a 64-bit IEEE 754 float given by its bit pattern.
    pub fn encode_double(&mut self, value: u64)
        ensures
            final(self)@ == old(self)@ + u64_be(value),
    {
        self.push_u64(value);
    }

    /// Writes a string: its UTF-8 byte count as a VarInt, then the bytes.
    pub fn encode_string(&mut self, message: String)
        ensures
            final(self)@ == old(self)@ + string_bytes(message@),
    {
        let bytes = message.as_str().as_bytes();
        self.encode_varint(bytes.len() as i32);
        self.push_slice(bytes);
        proof {
            let n: usize = bytes.len();
            assert((n as i32) as u32 == n as u32) by (bit_vector);
            assert(varint_bytes(n as i32) == var_encode_u32(n as u32));
        }
    }

    /// Writes a packed block position.
    pub fn encode_position(&mut self, value: (i32, i32, i32))
        ensures
            final(self)@ == old(self)@ + u64_be(position_packed(value.0, value.1, value.2)),
    {
        let (x, y, z) = value;
        let packed: u64 = (((x as u64) & 0x3FFFFFF) << 38) | (((z as u64) & 0x3FFFFFF) << 12) | ((y
            as u64) & 0xFFF);
        self.push_u64(packed);
    }

    pub fn encode_uuid(&mut self, value: u128)
        ensures
            final(self)@ == old(self)@ + u128_be(value),
    {
        self.push_u64((value >> 64) as u64);
        self.push_u64(value as u64);
        assert(u128_be(value) == u64_be((value >> 64u128) as u64) + u64_be(value as u64));
    }

    /// Reads one NBT compound from the front.
    pub fn decode_nbt(&mut self) -> (r: Result<nbt::Blob, ()>)
        ensures
            match nbt_step(old(self)@) {
                Step::Done(_, rest) => r is Ok && final(self)@ == rest,
                _ => r is Err,
            },
    {
        if !nbt_screen(&self.data) {
            return Err(());
        }
        let (blob, n) = match read_nbt_blob(self.get_slice()) {
            Some(found) => found,
            None => return Err(()),
        };
        let _ = self.read(n);
        Ok(blob)
    }

    /// Appends the binary form of an NBT compound.
    pub fn encode_nbt(&mut self, blob: &nbt::Blob)
        ensures
            exists|b: Seq<u8>| nbt_written(b) && final(self)@ == old(self)@ + b,
    {
        let bytes = write_nbt_blob(blob);
        let ghost b = bytes@;
        self.push_vec(bytes);
        assert(nbt_written(b) && self@ == old(self)@ + b);
    }

    fn push_u16(&mut self, value: u16)
        ensures
            final(self)@ == old(self)@ + u16_be(value),
    {
        let ghost start = self@;
        self.push((value >> 8) as u8);
        self.push(value as u8);
        assert(self@ =~= start + u16_be(value));
    }

    fn push_u32(&mut self, value: u32)
        ensures
            final(self)@ == old(self)@ + u32_be(value),
    {
        let ghost start = self@;
        self.push((value >> 24) as u8);
        self.push((value >> 16) as u8);
        self.push((value >> 8) as u8);
        self.push(value as u8);
        assert(self@ =~= start + u32_be(value));
    }

    pub(crate) fn push_u64(&mut self, value: u64)
        ensures
            final(self)@ == old(self)@ + u64_be(value),
    {
        let ghost start = self@;
        self.push_u32((value >> 32) as u32);
        self.push_u32(value as u32);
        assert(self@ =~= start + u64_be(value));
    }

    /// Reads a VarInt: up to five bytes, seven bits each, least significant
    /// group first.
    pub fn decode_varint(&mut self) -> (r: Result<i32, ()>)
        ensures
            r == step_res(varint_step(old(self)@)),
            final(self)@ == step_rest(varint_step(old(self)@)),
    {
        let ghost s = self@;
        let mut num_read: u32 = 0;
        let mut result: u32 = 0;
        loop
            invariant
                s == old(self)@,
                num_read <= 5,
                num_read <= s.len(),
                self@ == s.skip(num_read as int),
                result == varint_bits(s, num_read as nat),
                var_end(s, 0, 5) == var_end(s, num_read as nat, 5),
            decreases 6 - num_read,
        {
            let ghost before = self@;
            let bytes = match self.read(1) {
                Ok(b) => b,
                Err(()) => {
                    assert(self@ == before);
                    assert(num_read == s.len());
                    assert(var_end(s, num_read as nat, 5) is None);
                    assert(before =~= var_give_up(s, 5));
                    assert(varint_step(s) == Step::<i32>::Fail(var_give_up(s, 5)));
                    return Err(());
                },
            };
            let read = bytes[0];
            assert(read == s[num_read as int]);
            if num_read == 5 {
                assert(var_end(s, 5, 5) is None);
                assert(self@ =~= var_give_up(s, 5));
                return Err(());
            }
            let value: u32 = (read & 0x7f) as u32;
            result = result | (value << (7 * num_read));
            num_read = num_read + 1;
            assert(result == varint_bits(s, num_read as nat));
            assert(self@ =~= s.skip(num_read as int));
            if read & 0x80 == 0 {
                assert(read & 0x80 == 0 ==> read < 0x80) by (bit_vector);
                assert(var_end(s, (num_read - 1) as nat, 5) == Some(num_read as nat));
                return Ok(result as i32);
            }
            assert(read & 0x80 != 0 ==> read >= 0x80) by (bit_vector);
        }
    }

    /// Writes a VarInt.
    pub fn encode_varint(&mut self, v: i32)
        ensures
            final(self)@ == old(self)@ + varint_bytes(v),
    {
        let mut value: u32 = v as u32;
        loop
            invariant_except_break
                self@ + var_encode_u32(value) == old(self)@ + varint_bytes(v),
            ensures
                self@ == old(self)@ + varint_bytes(v),
            decreases value,
        {
            let ghost before = self@;
            let ghost old_value = value;
            let mut temp: u8 = (value & 0b01111111) as u8;
            value = value >> 7;
            if value != 0 {
                temp = temp | 0b10000000;
            }
            self.push(temp);
            assert(value != 0 ==> value < old_value) by (bit_vector)
                requires
                    value == old_value >> 7u32,
            ;
            if value == 0 {
                assert(self@ == before + var_encode_u32(old_value));
                break;
            }
            assert(var_encode_u32(old_value) == seq![temp] + var_encode_u32(value));
            assert(self@ + var_encode_u32(value) == before + var_encode_u32(old_value));
        }
    }
    /// Reads a VarLong: up to ten bytes, seven bits each, least significant
    /// group first.
    pub fn decode_varlong(&mut self) -> (r: Result<i64, ()>)
        ensures
            r == step_res(varlong_step(old(self)@)),
            final(self)@ == step_rest(varlong_step(old(self)@)),
    {
        let ghost s = self@;
        let mut num_read: u64 = 0;
        let mut result: u64 = 0;
        loop
            invariant
                s == old(self)@,
                num_read <= 10,
                num_read <= s.len(),
                self@ == s.skip(num_read as int),
                result == varlong_bits(s, num_read as nat),
                var_end(s, 0, 10) == var_end(s, num_read as nat, 10),
            decreases 11 - num_read,
        {
            let ghost before = self@;
            let bytes = match self.read(1) {
                Ok(b) => b,
                Err(()) => {
                    assert(self@ == before);
                    assert(num_read == s.len());
                    assert(var_end(s, num_read as nat, 10) is None);
                    assert(before =~= var_give_up(s, 10));
                    assert(varlong_step(s) == Step::<i64>::Fail(var_give_up(s, 10)));
                    return Err(());
                },
            };
            let read = bytes[0];
            assert(read == s[num_read as int]);
            if num_read == 10 {
                assert(var_end(s, 10, 10) is None);
                assert(self@ =~= var_give_up(s, 10));
                return Err(());
            }
            let value: u64 = (read & 0x7f) as u64;
            result = result | (value << (7 * num_read));
            num_read = num_read + 1;
            assert(result == varlong_bits(s, num_read as nat));
            assert(self@ =~= s.skip(num_read as int));
            if read & 0x80 == 0 {
                assert(read & 0x80 == 0 ==> read < 0x80) by (bit_vector);
                assert(var_end(s, (num_read - 1) as nat, 10) == Some(num_read as nat));
                return Ok(result as i64);
            }
            assert(read & 0x80 != 0 ==> read >= 0x80) by (bit_vector);
        }
    }

    /// Writes a VarLong.
    pub fn encode_varlong(&mut self, v: i64)
        ensures
            final(self)@ == old(self)@ + varlong_bytes(v),
    {
        let mut value: u64 = v as u64;
        loop
            invariant_except_break
                self@ + var_encode_u64(value) == old(self)@ + varlong_bytes(v),
            ensures
                self@ == old(self)@ + varlong_bytes(v),
            decreases value,
        {
            let ghost before = self@;
            let ghost old_value = value;
            let mut temp: u8 = (value & 0b01111111) as u8;
            value = value >> 7;
            if value != 0 {
                temp = temp | 0b10000000;
            }
            self.push(temp);
            assert(value != 0 ==> value < old_value) by (bit_vector)
                requires
                    value == old_value >> 7u64,
            ;
            if value == 0 {
                assert(self@ == before + var_encode_u64(old_value));
                break;
            }
            assert(var_encode_u64(old_value) == seq![temp] + var_encode_u64(value));
            assert(self@ + var_encode_u64(value) == before + var_encode_u64(old_value));
        }
    }
}

/// The big-endian value of the two bytes at the front.
fn be_u16_of(b: &Vec<u8>) -> (r: u16)
    requires
        b@.len() >= 2,
    ensures
        r == be_u16(b@),
{
    ((b[0] as u16) << 8) | (b[1] as u16)
}

/// The big-endian value of the two bytes at index `i`.
pub(crate) fn be_u16_at(b: &Vec<u8>, i: usize) -> (r: u16)
    requires
        i + 2 <= b.len(),
    ensures
        r == be_u16(b@.skip(i as int)),
{
    ((b[i] as u16) << 8) | (b[i + 1] as u16)
}

/// The big-endian value of the four bytes at index `i`.
pub(crate) fn be_u32_at(b: &Vec<u8>, i: usize) -> (r: u32)
    requires
        i + 4 <= b.len(),
    ensures
        r == be_u32(b@.skip(i as int)),
{
    ((b[i] as u32) << 24) | ((b[i + 1] as u32) << 16) | ((b[i + 2] as u32) << 8) | (b[i + 3] as u32)
}

/// The big-endian value of the eight bytes at index `i`.
fn be_u64_at(b: &Vec<u8>, i: usize) -> (r: u64)
    requires
        i + 8 <= b.len(),
    ensures
        r == be_u64(b@.skip(i as int)),
{
    let hi = be_u32_at(b, i);
    let lo = be_u32_at(b, i + 4);
    assert(b@.skip(i as int).skip(4) =~= b@.skip(i + 4));
    ((hi as u64) << 32) | (lo as u64)
}

/// Reads `count` VarInts from the packet.
pub(crate) fn decode_varint_list(packet: &mut RawPacket, count: i32) -> (r: Result<Vec<i32>, ()>)
    ensures
        match varint_list_step(old(packet)@, count as int) {
            Step::Done(v, rest) => r matches Ok(l) && l@ == v && final(packet)@ == rest,
            _ => r is Err,
        },
{
    let ghost s = packet@;
    let mut list: Vec<i32> = Vec::new();
    let mut i: i32 = 0;
    while i < count
        invariant
            s == old(packet)@,
            0 <= i,
            count > 0 ==> i <= count,
            count <= 0 ==> i == 0,
            varint_list_step(s, i as int) == Step::Done(list@, packet@),
        decreases count - i,
    {
        let v = match packet.decode_varint() {
            Ok(v) => v,
            Err(()) => {
                assert(varint_list_step(s, i + 1) is Fail);
                proof {
                    lemma_varint_list_fail_stays(s, i + 1, count as int);
                }
                return Err(());
            },
        };
        list.push(v);
        i = i + 1;
    }
    assert(varint_list_step(s, count as int) == varint_list_step(s, i as int));
    Ok(list)
}

/// Once reading the first `i` VarInts fails, reading more fails too.
pub(crate) proof fn lemma_varint_list_fail_stays(s: Seq<u8>, i: int, n: int)
    requires
        0 < i <= n,
        varint_list_step(s, i) is Fail,
    ensures
        varint_list_step(s, n) is Fail,
    decreases n - i,
{
    if i < n {
        lemma_varint_list_fail_stays(s, i, n - 1);
    }
}

/// Once reading the first `i` strings fails, reading more fails too.
pub(crate) proof fn lemma_string_list_fail_stays(s: Seq<u8>, i: int, n: int)
    requires
        0 < i <= n,
        string_list_step(s, i) is Fail,
    ensures
        string_list_step(s, n) is Fail,
    decreases n - i,
{
    if i < n {
        lemma_string_list_fail_stays(s, i, n - 1);
    }
}

impl Default for RawPacket {
    fn default() -> (r: Self)
        ensures
            r@ == Seq::<u8>::empty(),
    {
        Self::new()
    }
}

} // verus!
