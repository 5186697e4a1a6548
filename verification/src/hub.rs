//! The signaling server's live registry: which connections are open, which
//! device is online on which connection, each online device's current
//! one-time password, and the pairing sessions whose SDP/ICE messages are
//! relayed between two connections.

use vstd::prelude::*;
use dashmap::{DashMap, DashSet};

verus! {

/// The two connections of a pairing session.
#[derive(Debug, Clone, Copy, PartialEq, Eq, Structural)]
pub struct SessionPeers {
    pub a: u128,
    pub b: u128,
}

impl SessionPeers {
    /// The peer across the session from `me`, if `me` belongs to it.
    pub open spec fn spec_other(self, me: u128) -> Option<u128> {
        if self.a == me {
            Some(self.b)
        } else if self.b == me {
            Some(self.a)
        } else {
            None
        }
    }

    /// The peer across the session from `me`, if `me` belongs to it.
    pub fn other(&self, me: u128) -> (r: Option<u128>)
        ensures
            r == self.spec_other(me),
    {
        if self.a == me {
            Some(self.b)
        } else if self.b == me {
            Some(self.a)
        } else {
            None
        }
    }
}

/// Crossing a session twice leads back to where one started.
pub proof fn lemma_other_involution(p: SessionPeers, me: u128)
    requires
        p.spec_other(me) is Some,
        p.a != p.b,
    ensures
        p.spec_other(p.spec_other(me)->Some_0) == Some(me),
{
}

/// Why a message could not be relayed.
#[derive(Debug, Clone, Copy, PartialEq, Eq, Structural)]
pub enum RelayError {
    UnknownSession,
    NotPartOfSession,
    PeerDisconnected,
}

impl RelayError {
    /// The message reported to the sender.
    pub open spec fn spec_text(self) -> Seq<char> {
        match self {
            RelayError::UnknownSession => "unknown session"@,
            RelayError::NotPartOfSession => "not part of session"@,
            RelayError::PeerDisconnected => "peer disconnected"@,
        }
    }

    /// The message reported to the sender.
    pub fn text(self) -> (r: String)
        ensures
            r@ == self.spec_text(),
    {
        match self {
            RelayError::UnknownSession => String::from_str("unknown session"),
            RelayError::NotPartOfSession => String::from_str("not part of session"),
            RelayError::PeerDisconnected => String::from_str("peer disconnected"),
        }
    }
}

/// The abstract state of the registry.
pub struct HubView {
    pub connections: Set<u128>,
    pub online: Map<Seq<char>, u128>,
    pub otp: Map<Seq<char>, Seq<char>>,
    pub sessions: Map<Seq<char>, SessionPeers>,
}

/// Where a message on session `sid` from `me` goes.
pub open spec fn spec_relay_target(v: HubView, me: u128, sid: Seq<char>) -> Result<u128, RelayError> {
    if !v.sessions.contains_key(sid) {
        Err(RelayError::UnknownSession)
    } else {
        match v.sessions[sid].spec_other(me) {
            None => Err(RelayError::NotPartOfSession),
            Some(o) => if v.connections.contains(o) {
                Ok(o)
            } else {
                Err(RelayError::PeerDisconnected)
            },
        }
    }
}

/// `dashmap::DashMap`, the concurrent hash map the registry is kept in.
#[verifier::external_type_specification]
#[verifier::external_body]
#[verifier::reject_recursive_types(K)]
#[verifier::reject_recursive_types(V)]
#[verifier::reject_recursive_types(S)]
pub struct ExDashMap<K, V, S>(DashMap<K, V, S>);

/// `dashmap::DashSet`, the concurrent hash set of open connections.
#[verifier::external_type_specification]
#[verifier::external_body]
#[verifier::reject_recursive_types(K)]
#[verifier::reject_recursive_types(S)]
pub struct ExDashSet<K, S>(DashSet<K, S>);

/// The connection IDs in a set of open connections.
pub uninterp spec fn connection_ids(s: DashSet<u128>) -> Set<u128>;

/// The entries of a device-to-connection map.
pub uninterp spec fn online_entries(m: DashMap<String, u128>) -> Map<Seq<char>, u128>;

/// The entries of a device-to-password map.
pub uninterp spec fn otp_entries(m: DashMap<String, String>) -> Map<Seq<char>, Seq<char>>;

/// The entries of a session-to-peers map, the peers as (controller, host).
pub uninterp spec fn session_entries(m: DashMap<String, (u128, u128)>) -> Map<Seq<char>, (u128, u128)>;

/// `DashSet::new`: an empty set.
#[verifier::external_body]
fn connections_new() -> (r: DashSet<u128>)
    ensures
        connection_ids(r) == Set::<u128>::empty(),
{
    DashSet::new()
}

/// `DashSet::insert`: the set gains `c`.
#[verifier::external_body]
fn connections_insert(s: &mut DashSet<u128>, c: u128)
    ensures
        connection_ids(*final(s)) == connection_ids(*old(s)).insert(c),
{
    s.insert(c);
}

/// `DashSet::remove`: the set loses `c`.
#[verifier::external_body]
fn connections_remove(s: &mut DashSet<u128>, c: u128)
    ensures
        connection_ids(*final(s)) == connection_ids(*old(s)).remove(c),
{
    s.remove(&c);
}

/// `DashSet::contains`: whether `c` is in the set.
#[verifier::external_body]
fn connections_contains(s: &DashSet<u128>, c: u128) -> (r: bool)
    ensures
        r == connection_ids(*s).contains(c),
{
    s.contains(&c)
}

/// `DashMap::new`: an empty map.
#[verifier::external_body]
fn online_new() -> (r: DashMap<String, u128>)
    ensures
        online_entries(r).dom() == Set::<Seq<char>>::empty(),
{
    DashMap::new()
}

/// `DashMap::insert`: `k` now maps to `v`.
#[verifier::external_body]
fn online_insert(m: &mut DashMap<String, u128>, k: String, v: u128)
    ensures
        online_entries(*final(m)) == online_entries(*old(m)).insert(k@, v),
{
    m.insert(k, v);
}

/// `DashMap::remove`: `k` no longer maps to anything.
#[verifier::external_body]
fn online_remove(m: &mut DashMap<String, u128>, k: &str)
    ensures
        online_entries(*final(m)) == online_entries(*old(m)).remove(k@),
{
    m.remove(k);
}

/// `DashMap::get`: the value `k` maps to, if any (copied out).
#[verifier::external_body]
fn online_get(m: &DashMap<String, u128>, k: &str) -> (r: Option<u128>)
    ensures
        r == (if online_entries(*m).contains_key(k@) {
            Some(online_entries(*m)[k@])
        } else {
            None
        }),
{
    match m.get(k) {
        Some(entry) => Some(*entry.value()),
        None => None,
    }
}

/// `DashMap::new`: an empty map.
#[verifier::external_body]
fn otps_new() -> (r: DashMap<String, String>)
    ensures
        otp_entries(r).dom() == Set::<Seq<char>>::empty(),
{
    DashMap::new()
}

/// `DashMap::insert`: `k` now maps to `v`.
#[verifier::external_body]
fn otps_insert(m: &mut DashMap<String, String>, k: String, v: String)
    ensures
        otp_entries(*final(m)) == otp_entries(*old(m)).insert(k@, v@),
{
    m.insert(k, v);
}

/// `DashMap::remove`: `k` no longer maps to anything.
#[verifier::external_body]
fn otps_remove(m: &mut DashMap<String, String>, k: &str)
    ensures
        otp_entries(*final(m)) == otp_entries(*old(m)).remove(k@),
{
    m.remove(k);
}

/// `DashMap::get`: the value `k` maps to, if any (cloned out).
#[verifier::external_body]
fn otps_get(m: &DashMap<String, String>, k: &str) -> (r: Option<String>)
    ensures
        match r {
            Some(v) => otp_entries(*m).contains_key(k@) && otp_entries(*m)[k@] == v@,
            None => !otp_entries(*m).contains_key(k@),
        },
{
    match m.get(k) {
        Some(entry) => Some(entry.value().clone()),
        None => None,
    }
}

/// `DashMap::new`: an empty map.
#[verifier::external_body]
fn sessions_new() -> (r: DashMap<String, (u128, u128)>)
    ensures
        session_entries(r).dom() == Set::<Seq<char>>::empty(),
{
    DashMap::new()
}

/// `DashMap::insert`: `k` now maps to `v`.
#[verifier::external_body]
fn sessions_insert(m: &mut DashMap<String, (u128, u128)>, k: String, v: (u128, u128))
    ensures
        session_entries(*final(m)) == session_entries(*old(m)).insert(k@, v),
{
    m.insert(k, v);
}

/// `DashMap::get`: the value `k` maps to, if any (copied out).
#[verifier::external_body]
fn sessions_get(m: &DashMap<String, (u128, u128)>, k: &str) -> (r: Option<(u128, u128)>)
    ensures
        r == (if session_entries(*m).contains_key(k@) {
            Some(session_entries(*m)[k@])
        } else {
            None
        }),
{
    match m.get(k) {
        Some(entry) => Some(*entry.value()),
        None => None,
    }
}

/// The session peers of a stored (controller, host) pair.
pub open spec fn peers_of(p: (u128, u128)) -> SessionPeers {
    SessionPeers { a: p.0, b: p.1 }
}

/// The pairing sessions, keyed by session id. `longest` bounds the length
/// of every id in the table, which is what makes a fresh id always
/// available.
pub struct SessionTable {
    entries: DashMap<String, (u128, u128)>,
    longest: Ghost<nat>,
}

impl View for SessionTable {
    type V = Map<Seq<char>, SessionPeers>;

    closed spec fn view(&self) -> Map<Seq<char>, SessionPeers> {
        session_entries(self.entries).map_values(|p: (u128, u128)| peers_of(p))
    }
}

impl SessionTable {
    #[verifier::type_invariant]
    spec fn ids_bounded(self) -> bool {
        forall|k: Seq<char>| #[trigger] session_entries(self.entries).contains_key(k) ==> k.len() <= self.longest@
    }

    /// No sessions.
    pub fn new() -> (r: SessionTable)
        ensures
            r@ == Map::<Seq<char>, SessionPeers>::empty(),
    {
        let r = SessionTable { entries: sessions_new(), longest: Ghost(0) };
        assert(r@ =~= Map::<Seq<char>, SessionPeers>::empty());
        r
    }

    /// Records session `id` between `controller` and `host`.
    pub fn insert(&mut self, id: String, controller: u128, host: u128)
        ensures
            final(self)@ == old(self)@.insert(id@, SessionPeers { a: controller, b: host }),
    {
        proof {
            use_type_invariant(&*self);
        }
        let ghost k = id@;
        let ghost bound = if self.longest@ >= k.len() {
            self.longest@
        } else {
            k.len()
        };
        let mut entries = sessions_new();
        std::mem::swap(&mut entries, &mut self.entries);
        sessions_insert(&mut entries, id, (controller, host));
        self.longest = Ghost(bound);
        self.entries = entries;
        assert(self@ =~= old(self)@.insert(k, SessionPeers { a: controller, b: host }));
    }

    /// The (controller, host) pair of session `id`, if there is one.
    pub fn get(&self, id: &str) -> (r: Option<(u128, u128)>)
        ensures
            r matches Some(p) ==> self@.contains_key(id@) && self@[id@] == peers_of(p),
            r is None ==> !self@.contains_key(id@),
    {
        sessions_get(&self.entries, id)
    }

    /// A session id not in the table: `candidate` itself when it is free,
    /// else `candidate` lengthened with `0`s until it is longer than every
    /// id in the table.
    pub fn fresh_id(&self, candidate: String) -> (r: String)
        ensures
            !self@.contains_key(r@),
            !self@.contains_key(candidate@) ==> r@ == candidate@,
    {
        proof {
            use_type_invariant(self);
        }
        let mut r = candidate;
        while sessions_get(&self.entries, r.as_str()).is_some()
            invariant
                forall|k: Seq<char>| #[trigger] session_entries(self.entries).contains_key(k) ==> k.len() <= self.longest@,
                r@.len() >= candidate@.len(),
                r@.len() == candidate@.len() ==> r@ == candidate@,
                r@ != candidate@ ==> session_entries(self.entries).contains_key(candidate@),
            decreases self.longest@ + 1 - r@.len(),
        {
            assert(session_entries(self.entries).contains_key(r@));
            crate::text::push_char(&mut r, '0');
        }
        r
    }
}

/// The live registry of the signaling server.
pub struct SignalingHub {
    connections: DashSet<u128>,
    device_online: DashMap<String, u128>,
    otp: DashMap<String, String>,
    sessions: SessionTable,
}

impl View for SignalingHub {
    type V = HubView;

    closed spec fn view(&self) -> HubView {
        HubView {
            connections: connection_ids(self.connections),
            online: online_entries(self.device_online),
            otp: otp_entries(self.otp),
            sessions: self.sessions@,
        }
    }
}

impl SignalingHub {
    /// An empty registry.
    pub fn new() -> (r: SignalingHub)
        ensures
            r@.connections == Set::<u128>::empty(),
            r@.online == Map::<Seq<char>, u128>::empty(),
            r@.otp == Map::<Seq<char>, Seq<char>>::empty(),
            r@.sessions == Map::<Seq<char>, SessionPeers>::empty(),
    {
        let r = SignalingHub {
            connections: connections_new(),
            device_online: online_new(),
            otp: otps_new(),
            sessions: SessionTable::new(),
        };
        assert(r@.online =~= Map::<Seq<char>, u128>::empty());
        assert(r@.otp =~= Map::<Seq<char>, Seq<char>>::empty());
        assert(r@.sessions =~= Map::<Seq<char>, SessionPeers>::empty());
        r
    }

    /// Records a newly opened connection.
    pub fn open_connection(&mut self, conn: u128)
        ensures
            final(self)@.connections == old(self)@.connections.insert(conn),
            final(self)@.online == old(self)@.online,
            final(self)@.otp == old(self)@.otp,
            final(self)@.sessions == old(self)@.sessions,
    {
        connections_insert(&mut self.connections, conn);
    }

    /// Forgets a closed connection and, when it had registered a device,
    /// takes that device offline and drops its one-time password.
    pub fn close_connection(&mut self, conn: u128, my_device: Option<&str>)
        ensures
            final(self)@.connections == old(self)@.connections.remove(conn),
            final(self)@.online == match my_device {
                Some(d) => old(self)@.online.remove(d@),
                None => old(self)@.online,
            },
            final(self)@.otp == match my_device {
                Some(d) => old(self)@.otp.remove(d@),
                None => old(self)@.otp,
            },
            final(self)@.sessions == old(self)@.sessions,
    {
        connections_remove(&mut self.connections, conn);
        if let Some(d) = my_device {
            online_remove(&mut self.device_online, d);
            otps_remove(&mut self.otp, d);
        }
    }

    /// Whether a connection is open.
    pub fn is_connected(&self, conn: u128) -> (r: bool)
        ensures
            r == self@.connections.contains(conn),
    {
        connections_contains(&self.connections, conn)
    }

    /// Marks a device online on `conn` with a fresh one-time password.
    pub fn register_online(&mut self, device_id: String, conn: u128, otp: String)
        ensures
            final(self)@.connections == old(self)@.connections,
            final(self)@.online == old(self)@.online.insert(device_id@, conn),
            final(self)@.otp == old(self)@.otp.insert(device_id@, otp@),
            final(self)@.sessions == old(self)@.sessions,
    {
        let key = device_id.clone();
        online_insert(&mut self.device_online, key, conn);
        otps_insert(&mut self.otp, device_id, otp);
    }

    /// Whether a device is online.
    pub fn is_online(&self, device_id: &str) -> (r: bool)
        ensures
            r == self@.online.contains_key(device_id@),
    {
        online_get(&self.device_online, device_id).is_some()
    }

    /// The connection a device is online on.
    pub fn online_connection(&self, device_id: &str) -> (r: Option<u128>)
        ensures
            r == (if self@.online.contains_key(device_id@) {
                Some(self@.online[device_id@])
            } else {
                None
            }),
    {
        online_get(&self.device_online, device_id)
    }

    /// Whether `candidate` is the device's current one-time password.
    pub fn otp_matches(&self, device_id: &str, candidate: &str) -> (r: bool)
        ensures
            r == (self@.otp.contains_key(device_id@) && self@.otp[device_id@] == candidate@),
    {
        match otps_get(&self.otp, device_id) {
            Some(current) => crate::text::str_eq(current.as_str(), candidate),
            None => false,
        }
    }

    /// Opens a pairing session between a controller and a host connection.
    pub fn open_session(&mut self, session_id: String, controller: u128, host: u128)
        ensures
            final(self)@.connections == old(self)@.connections,
            final(self)@.online == old(self)@.online,
            final(self)@.otp == old(self)@.otp,
            final(self)@.sessions == old(self)@.sessions.insert(session_id@, SessionPeers { a: controller, b: host }),
    {
        self.sessions.insert(session_id, controller, host);
    }

    /// A session id that no session has yet: `candidate` itself when it is
    /// free.
    pub fn fresh_session_id(&self, candidate: String) -> (r: String)
        ensures
            !self@.sessions.contains_key(r@),
            !self@.sessions.contains_key(candidate@) ==> r@ == candidate@,
    {
        self.sessions.fresh_id(candidate)
    }

    /// The connection a message on session `session_id` from `me` must be
    /// relayed to.
    pub fn relay_target(&self, me: u128, session_id: &str) -> (r: Result<u128, RelayError>)
        ensures
            r == spec_relay_target(self@, me, session_id@),
    {
        let stored = match self.sessions.get(session_id) {
            None => return Err(RelayError::UnknownSession),
            Some(p) => p,
        };
        let peers = SessionPeers { a: stored.0, b: stored.1 };
        assert(self@.sessions[session_id@] == peers);
        match peers.other(me) {
            None => Err(RelayError::NotPartOfSession),
            Some(o) => if connections_contains(&self.connections, o) {
                Ok(o)
            } else {
                Err(RelayError::PeerDisconnected)
            },
        }
    }

    /// Takes a removed device offline and drops its one-time password;
    /// returns the open connection it was online on, which should be told.
    pub fn kick_device(&mut self, device_id: &str) -> (r: Option<u128>)
        ensures
            final(self)@.connections == old(self)@.connections,
            final(self)@.online == old(self)@.online.remove(device_id@),
            final(self)@.otp == old(self)@.otp.remove(device_id@),
            final(self)@.sessions == old(self)@.sessions,
            r == (if old(self)@.online.contains_key(device_id@) && old(self)@.connections.contains(
                old(self)@.online[device_id@],
            ) {
                Some(old(self)@.online[device_id@])
            } else {
                None
            }),
    {
        let live = self.online_connection(device_id);
        online_remove(&mut self.device_online, device_id);
        otps_remove(&mut self.otp, device_id);
        match live {
            Some(c) => if connections_contains(&self.connections, c) {
                Some(c)
            } else {
                None
            },
            None => None,
        }
    }
}

/// Both members of a session reach each other while both are connected:
/// what one sends on the session is relayed to the other, in either
/// direction.
pub proof fn lemma_relay_symmetric(v: HubView, sid: Seq<char>)
    requires
        v.sessions.contains_key(sid),
        v.sessions[sid].a != v.sessions[sid].b,
        v.connections.contains(v.sessions[sid].a),
        v.connections.contains(v.sessions[sid].b),
    ensures
        spec_relay_target(v, v.sessions[sid].a, sid) == Ok::<u128, RelayError>(v.sessions[sid].b),
        spec_relay_target(v, v.sessions[sid].b, sid) == Ok::<u128, RelayError>(v.sessions[sid].a),
{
}

/// Nothing is ever relayed to a connection that is not open, nor to a
/// connection that is not the sender's peer in the session.
pub proof fn lemma_relay_only_to_open_peer(v: HubView, me: u128, sid: Seq<char>)
    ensures
        spec_relay_target(v, me, sid) matches Ok(t) ==> v.connections.contains(t) && v.sessions.contains_key(sid)
            && v.sessions[sid].spec_other(me) == Some(t),
{
}

/// A new pairing never disturbs an existing one: when a session opens under
/// an id no session had (as `on_db_reply` guarantees), every session already
/// in the table keeps its peers, messages on it are relayed exactly as
/// before, and the new session relays between the two connections paired.
pub proof fn lemma_new_session_keeps_others(v: HubView, sid: Seq<char>, peers: SessionPeers, other: Seq<char>, me: u128)
    requires
        !v.sessions.contains_key(sid),
        v.sessions.contains_key(other),
    ensures
        other != sid,
        v.sessions.insert(sid, peers)[other] == v.sessions[other],
        spec_relay_target(HubView { sessions: v.sessions.insert(sid, peers), ..v }, me, other) == spec_relay_target(v, me, other),
        spec_relay_target(HubView { sessions: v.sessions.insert(sid, peers), ..v }, me, sid) == match peers.spec_other(me) {
            None => Err(RelayError::NotPartOfSession),
            Some(o) => if v.connections.contains(o) {
                Ok(o)
            } else {
                Err(RelayError::PeerDisconnected)
            },
        },
{
}

/// Every online device has a current one-time password, and no other
/// device has one.
pub open spec fn otp_in_step(v: HubView) -> bool {
    v.online.dom() =~= v.otp.dom()
}

/// The registry keeps one-time passwords in step with who is online: it
/// starts so, and registering a device online (`register_online`) or taking
/// one offline (`close_connection`, `kick_device`) keeps it so, since both
/// maps change together.
pub proof fn lemma_otp_stays_in_step(v: HubView, device: Seq<char>, conn: u128, otp: Seq<char>)
    ensures
        otp_in_step(HubView {
            connections: Set::empty(),
            online: Map::empty(),
            otp: Map::empty(),
            sessions: Map::empty(),
        }),
        otp_in_step(v) ==> otp_in_step(HubView { online: v.online.insert(device, conn), otp: v.otp.insert(device, otp), ..v }),
        otp_in_step(v) ==> otp_in_step(HubView { online: v.online.remove(device), otp: v.otp.remove(device), ..v }),
{
}

} // verus!
