//! State shared between the two halves of a proxied connection.
use vstd::prelude::*;

verus! {

/// The protocol state of a connection; its number on the wire is the
/// variant's position (0 for `Handshaking` up to 3 for `Play`).
#[derive(Debug, Clone, Copy, PartialEq, Eq, Hash, Structural)]
pub enum State {
    Handshaking,
    Status,
    Login,
    Play,
}

impl State {
    /// The variant's name, as the `{:?}` form shows it.
    pub open spec fn name(self) -> Seq<char> {
        match self {
            State::Handshaking => "Handshaking"@,
            State::Status => "Status"@,
            State::Login => "Login"@,
            State::Play => "Play"@,
        }
    }

    /// The variant's name.
    pub fn name_string(&self) -> (r: String)
        ensures
            r@ == self.name(),
    {
        match self {
            State::Handshaking => String::from_str("Handshaking"),
            State::Status => String::from_str("Status"),
            State::Login => String::from_str("Login"),
            State::Play => String::from_str("Play"),
        }
    }
}

/// What the proxy knows about a connection.
#[derive(Clone)]
pub struct SharedState {
    pub compress: u32,
    pub state: State,
    pub secret_key: [u8; 16],
    pub access_token: String,
    pub uuid: String,
    pub server_ip: String,
    pub user_ip: String,
    pub connection_id: String,
}

impl SharedState {
    /// The state of a fresh connection: no compression, handshaking, an
    /// all-zero key and empty strings.
    pub open spec fn is_fresh(&self) -> bool {
        &&& self.compress == 0
        &&& self.state == State::Handshaking
        &&& self.secret_key@ == Seq::new(16, |i: int| 0u8)
        &&& self.access_token@ == Seq::<char>::empty()
        &&& self.uuid@ == Seq::<char>::empty()
        &&& self.server_ip@ == Seq::<char>::empty()
        &&& self.user_ip@ == Seq::<char>::empty()
        &&& self.connection_id@ == Seq::<char>::empty()
    }

    /// Every field of `self` holds what the same field of `other` holds.
    pub open spec fn same_as(&self, other: &SharedState) -> bool {
        &&& self.compress == other.compress
        &&& self.state == other.state
        &&& self.secret_key@ == other.secret_key@
        &&& self.access_token@ == other.access_token@
        &&& self.uuid@ == other.uuid@
        &&& self.server_ip@ == other.server_ip@
        &&& self.user_ip@ == other.user_ip@
        &&& self.connection_id@ == other.connection_id@
    }

    pub fn new() -> (r: SharedState)
        ensures
            r.is_fresh(),
    {
        let r = Self {
            compress: 0,
            state: State::Handshaking,
            secret_key: [0; 16],
            access_token: String::new(),
            uuid: String::new(),
            server_ip: String::new(),
            user_ip: String::new(),
            connection_id: String::new(),
        };
        assert(r.secret_key@ =~= Seq::new(16, |i: int| 0u8));
        r
    }

    /// Replaces every field with the one of `new_state`.
    pub fn set(&mut self, new_state: SharedState)
        ensures
            final(self).same_as(&new_state),
    {
        self.compress = new_state.compress;
        self.state = new_state.state;
        self.secret_key = new_state.secret_key;
        self.access_token = new_state.access_token;
        self.uuid = new_state.uuid;
        self.server_ip = new_state.server_ip;
        self.user_ip = new_state.user_ip;
        self.connection_id = new_state.connection_id;
    }
}

impl Default for SharedState {
    fn default() -> (r: Self)
        ensures
            r.is_fresh(),
    {
        Self::new()
    }
}

/// Which way a packet travels.
#[derive(Debug, PartialEq, Eq, Hash, Copy, Clone, Structural)]
pub enum Direction {
    Serverbound,
    Clientbound,
}

impl Direction {
    /// The variant's name.
    pub open spec fn name(self) -> Seq<char> {
        match self {
            Direction::Serverbound => "Serverbound"@,
            Direction::Clientbound => "Clientbound"@,
        }
    }

    /// The variant's name, the text this kind is shown as.
    pub fn to_string(&self) -> (r: String)
        ensures
            r@ == self.name(),
    {
        match self {
            Direction::Serverbound => String::from_str("Serverbound"),
            Direction::Clientbound => String::from_str("Clientbound"),
        }
    }
}

/// An inventory slot: whether it holds an item, and if so the item's id,
/// count and NBT data.
#[derive(Debug)]
pub struct Slot {
    pub present: bool,
    pub item_id: Option<i32>,
    pub item_count: Option<i8>,
    pub nbt: Option<nbt::Blob>,
}

} // verus!
