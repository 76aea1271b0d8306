//! Remote sectors: nodes, connections, frame buffers for remote desktops,
//! and the synchronisation packets exchanged with remote nodes.
//!
//! Times are milliseconds; the caller supplies the current time.
use vstd::prelude::*;
use crate::text::{push_str, string_of, u64_to_string};
use crate::ids::{uuid_text, id_to_string};
use crate::idmap::IdMap;
use crate::model::{Sector, SectorView, HubView, string_views};
use crate::shell_session::capped;
use base64::Engine;

verus! {

/// State of a remote node.
#[derive(Debug, Clone, PartialEq, Eq)]
pub enum RemoteStatus {
    Online,
    Offline,
    Connecting,
    AuthenticationRequired,
    Error(String),
}

/// How a sector is reached.
#[derive(Debug, Clone, Copy, PartialEq, Eq, Structural)]
pub enum ConnectionType {
    Local,
    TOSNative,
    SSH,
    HTTP,
}

/// A known remote node.
#[derive(Debug, Clone, PartialEq, Eq)]
pub struct RemoteNodeInfo {
    pub id: u128,
    pub hostname: String,
    pub address: String,
    /// "TOS", "Linux", "MacOS", ...
    pub os_type: String,
    pub version: String,
    pub status: RemoteStatus,
}

/// Pixel layout of a frame buffer.
#[derive(Debug, Clone, Copy, PartialEq, Eq)]
pub enum FrameBufferFormat {
    RGBA,
    BGRA,
    /// e.g. JPEG, PNG
    Compressed,
}

/// A synchronisation packet. Presence coordinates are in thousandths of
/// the view.
#[derive(Debug, Clone)]
pub enum SyncPacket {
    /// Full sector state
    SectorState(Sector),
    /// A new terminal line of a hub
    TerminalDelta { hub_id: u128, line: String },
    /// A participant's pointer
    PresenceUpdate { participant_id: u128, x_milli: i32, y_milli: i32 },
    /// A command to run on the host
    CommandRelay { hub_id: u128, command: String },
    /// Keep-alive
    Heartbeat,
    /// Remote desktop frame
    FrameBufferUpdate { width: u32, height: u32, data: Vec<u8>, timestamp: u64 },
    AuthRequest { token: String },
    AuthResponse { success: bool, message: String },
}

/// The frame buffer of a remote desktop.
#[derive(Debug, Clone, PartialEq, Eq)]
pub struct RemoteFrameBuffer {
    pub width: u32,
    pub height: u32,
    pub data: Vec<u8>,
    /// Time of the last update
    pub last_update_ms: u64,
    pub format: FrameBufferFormat,
}

/// The character of a six-bit value in the standard base64 alphabet:
/// `A`-`Z`, `a`-`z`, `0`-`9`, `+` and `/`.
pub open spec fn base64_char(v: int) -> char {
    if v < 26 {
        (65 + v) as char
    } else if v < 52 {
        (97 + v - 26) as char
    } else if v < 62 {
        (48 + v - 52) as char
    } else if v == 62 {
        '+'
    } else {
        '/'
    }
}

/// `data` encoded in standard base64 with padding (RFC 4648): each group of
/// three bytes becomes four characters of six bits each, most significant
/// first; a last group of two bytes ends in one `=`, of one byte in two.
pub open spec fn base64_standard(data: Seq<u8>) -> Seq<char>
    decreases data.len(),
{
    if data.len() == 0 {
        Seq::empty()
    } else if data.len() == 1 {
        let a = data[0] as int;
        seq![base64_char(a / 4), base64_char((a % 4) * 16), '=', '=']
    } else if data.len() == 2 {
        let a = data[0] as int;
        let b = data[1] as int;
        seq![base64_char(a / 4), base64_char((a % 4) * 16 + b / 16), base64_char((b % 16) * 4), '=']
    } else {
        let a = data[0] as int;
        let b = data[1] as int;
        let c = data[2] as int;
        seq![
            base64_char(a / 4),
            base64_char((a % 4) * 16 + b / 16),
            base64_char((b % 16) * 4 + c / 64),
            base64_char(c % 64),
        ] + base64_standard(data.subrange(3, data.len() as int))
    }
}

/// Calls `base64::engine::general_purpose::STANDARD.encode`: the standard
/// alphabet with padding, so the text is `base64_standard` of the bytes,
/// four characters per started group of three bytes. The crate panics when
/// that length overflows `usize`.
#[verifier::external_body]
fn encode_base64(data: &Vec<u8>) -> (s: String)
    requires
        (data@.len() / 3) * 4 + 4 <= usize::MAX,
    ensures
        s@ == base64_standard(data@),
        s@.len() == (data@.len() + 2) / 3 * 4,
{
    base64::engine::general_purpose::STANDARD.encode(data)
}

/// Elapsed time from `then` to `now`, never negative.
pub open spec fn elapsed_ms(now: u64, then: u64) -> int {
    if now >= then {
        now - then
    } else {
        0
    }
}

impl RemoteFrameBuffer {
    /// A black RGBA frame of the given size, updated at `now`.
    pub fn new(width: u32, height: u32, now: u64) -> (fb: RemoteFrameBuffer)
        requires
            width * height * 4 <= u32::MAX,
        ensures
            fb.width == width,
            fb.height == height,
            fb.data@.len() == width * height * 4,
            forall|i: int| 0 <= i < fb.data@.len() ==> fb.data@[i] == 0,
            fb.last_update_ms == now,
            fb.format == FrameBufferFormat::RGBA,
    {
        assert(width * height * 4 <= u32::MAX);
        let n: usize = (width * height * 4) as usize;
        let mut data: Vec<u8> = Vec::new();
        let mut i: usize = 0;
        while i < n
            invariant
                0 <= i <= n,
                data@.len() == i,
                forall|j: int| 0 <= j < i ==> data@[j] == 0,
            decreases n - i,
        {
            data.push(0);
            i = i + 1;
        }
        RemoteFrameBuffer { width, height, data, last_update_ms: now, format: FrameBufferFormat::RGBA }
    }

    /// Replaces the frame.
    pub fn update(&mut self, data: Vec<u8>, format: FrameBufferFormat, now: u64)
        ensures
            *final(self) == (RemoteFrameBuffer { data, format, last_update_ms: now, ..*old(self) }),
    {
        self.data = data;
        self.format = format;
        self.last_update_ms = now;
    }

    /// The frame as base64 text, for HTML.
    pub fn to_base64(&self) -> (s: String)
        requires
            (self.data@.len() / 3) * 4 + 4 <= usize::MAX,
        ensures
            s@ == base64_standard(self.data@),
    {
        encode_base64(&self.data)
    }

    pub open spec fn stale(self, threshold_ms: u64, now: u64) -> bool {
        elapsed_ms(now, self.last_update_ms) > threshold_ms
    }

    /// Whether more than `threshold_ms` passed since the last update.
    pub fn is_stale(&self, threshold_ms: u64, now: u64) -> (b: bool)
        ensures
            b == self.stale(threshold_ms, now),
    {
        if now >= self.last_update_ms {
            now - self.last_update_ms > threshold_ms
        } else {
            false
        }
    }
}

/// A connection to a remote node. The network stream itself is held by the
/// caller.
#[derive(Debug, Clone, PartialEq, Eq)]
pub struct RemoteConnection {
    pub node_id: u128,
    pub connection_type: ConnectionType,
    pub last_sync_ms: u64,
    pub frame_buffer: Option<RemoteFrameBuffer>,
    pub authenticated: bool,
    pub latency_ms: u64,
    pub stream_quality: u8,
}

/// A connection after a frame buffer update packet: a buffer is created at
/// the packet's size if there is none, and takes the packet's pixels.
pub open spec fn with_frame(c: RemoteConnection, p: SyncPacket, now: u64) -> RemoteConnection {
    match p {
        SyncPacket::FrameBufferUpdate { width, height, data, .. } => RemoteConnection {
            frame_buffer: Some(
                match c.frame_buffer {
                    Some(fb) => RemoteFrameBuffer { data, format: FrameBufferFormat::RGBA, last_update_ms: now, ..fb },
                    None => RemoteFrameBuffer { width, height, data, last_update_ms: now, format: FrameBufferFormat::RGBA },
                },
            ),
            ..c
        },
        _ => c,
    }
}

impl RemoteConnection {
    /// A fresh, unauthenticated connection synchronised at `now`.
    pub fn new(node_id: u128, connection_type: ConnectionType, now: u64) -> (c: RemoteConnection)
        ensures
            c == (RemoteConnection {
                node_id,
                connection_type,
                last_sync_ms: now,
                frame_buffer: None,
                authenticated: false,
                latency_ms: 0,
                stream_quality: 100,
            }),
    {
        RemoteConnection {
            node_id,
            connection_type,
            last_sync_ms: now,
            frame_buffer: None,
            authenticated: false,
            latency_ms: 0,
            stream_quality: 100,
        }
    }

    /// Sets up a black frame buffer of the given size.
    pub fn init_frame_buffer(&mut self, width: u32, height: u32, now: u64)
        requires
            width * height * 4 <= u32::MAX,
        ensures
            final(self).frame_buffer matches Some(fb) && fb.width == width && fb.height == height
                && fb.data@.len() == width * height * 4,
            final(self).node_id == old(self).node_id,
            final(self).authenticated == old(self).authenticated,
    {
        self.frame_buffer = Some(RemoteFrameBuffer::new(width, height, now));
    }

    /// Applies a frame buffer update packet; other packets change nothing.
    /// The frame takes the packet's pixels without the black frame the
    /// size would first allocate.
    pub fn update_frame_buffer(&mut self, packet: SyncPacket, now: u64)
        ensures
            *final(self) == with_frame(*old(self), packet, now),
    {
        match packet {
            SyncPacket::FrameBufferUpdate { width, height, data, .. } => {
                match &mut self.frame_buffer {
                    Some(fb) => {
                        fb.update(data, FrameBufferFormat::RGBA, now);
                    },
                    None => {
                        self.frame_buffer = Some(RemoteFrameBuffer {
                            width,
                            height,
                            data,
                            last_update_ms: now,
                            format: FrameBufferFormat::RGBA,
                        });
                    },
                }
            },
            _ => {},
        }
    }
}


/// The first sector with identifier `id`.
pub open spec fn sector_at(ss: Seq<Sector>, id: u128, i: int) -> bool {
    0 <= i < ss.len() && ss[i].id == id && forall|j: int| 0 <= j < i ==> ss[j].id != id
}

/// The first hub with identifier `id`, scanning sectors in order and the
/// hubs of each in order.
pub open spec fn hub_at(ss: Seq<Sector>, id: u128, si: int, hi: int) -> bool {
    &&& 0 <= si < ss.len()
    &&& 0 <= hi < ss[si].hubs@.len()
    &&& ss[si].hubs@[hi].id == id
    &&& forall|j: int| 0 <= j < hi ==> ss[si].hubs@[j].id != id
    &&& forall|k: int, j: int| 0 <= k < si && 0 <= j < ss[k].hubs@.len() ==> ss[k].hubs@[j].id != id
}

pub open spec fn has_hub(ss: Seq<Sector>, id: u128) -> bool {
    exists|k: int, j: int| 0 <= k < ss.len() && 0 <= j < ss[k].hubs@.len() && ss[k].hubs@[j].id == id
}

/// A sector state replaces the sector with its identifier, or is added.
fn apply_sector_state(sectors: &mut Vec<Sector>, remote_sector: Sector)
    ensures
        if exists|i: int| sector_at(old(sectors)@, remote_sector.id, i) {
            exists|i: int| sector_at(old(sectors)@, remote_sector.id, i) && final(sectors)@ == old(sectors)@.update(i, remote_sector)
        } else {
            final(sectors)@ == old(sectors)@.push(remote_sector)
        },
{
    let mut i: usize = 0;
    while i < sectors.len()
        invariant
            0 <= i <= sectors@.len(),
            sectors@ == old(sectors)@,
            forall|j: int| 0 <= j < i ==> sectors@[j].id != remote_sector.id,
        decreases sectors@.len() - i,
    {
        if sectors[i].id == remote_sector.id {
            assert(sector_at(old(sectors)@, remote_sector.id, i as int));
            sectors.set(i, remote_sector);
            return;
        }
        i = i + 1;
    }
    sectors.push(remote_sector);
}

/// A terminal line goes to the first hub with the identifier, which keeps
/// its last hundred lines when `keep_last_hundred` is set.
#[verifier::spinoff_prover]
pub(crate) fn apply_terminal_delta(sectors: &mut Vec<Sector>, hub_id: u128, line: String, keep_last_hundred: bool)
    ensures
        delta_applied(old(sectors)@, final(sectors)@, hub_id, line, keep_last_hundred),
{
    let mut si: usize = 0;
    while si < sectors.len()
        invariant
            0 <= si <= sectors@.len(),
            sectors@ == old(sectors)@,
            forall|k: int, j: int| 0 <= k < si && 0 <= j < sectors@[k].hubs@.len() ==> sectors@[k].hubs@[j].id != hub_id,
        decreases sectors@.len() - si,
    {
        let mut hi: usize = 0;
        while hi < sectors[si].hubs.len()
            invariant
                0 <= si < sectors@.len(),
                0 <= hi <= sectors@[si as int].hubs@.len(),
                sectors@ == old(sectors)@,
                forall|k: int, j: int| 0 <= k < si && 0 <= j < sectors@[k].hubs@.len() ==> sectors@[k].hubs@[j].id != hub_id,
                forall|j: int| 0 <= j < hi ==> sectors@[si as int].hubs@[j].id != hub_id,
            decreases sectors@[si as int].hubs@.len() - hi,
        {
            if sectors[si].hubs[hi].id == hub_id {
                assert(hub_at(old(sectors)@, hub_id, si as int, hi as int));
                let ghost s0 = sectors@[si as int];
                let mut out: Vec<String> = Vec::new();
                std::mem::swap(&mut out, &mut sectors[si].hubs[hi].terminal_output);
                let ghost before = out@;
                out.push(line);
                if keep_last_hundred && out.len() > 100 {
                    out.remove(0);
                }
                assert(string_views(out@) =~= kept_lines(string_views(before).push(line@), keep_last_hundred));
                sectors[si].hubs[hi].terminal_output = out;
                assert(sectors@[si as int]@.hubs =~= s0@.hubs.update(hi as int, HubView {
                    terminal_output: kept_lines(string_views(before).push(line@), keep_last_hundred),
                    ..s0.hubs@[hi as int]@
                }));
                return;
            }
            hi = hi + 1;
        }
        assert forall|k: int, j: int| 0 <= k < si + 1 && 0 <= j < sectors@[k].hubs@.len() implies sectors@[k].hubs@[j].id
            != hub_id by {
            if k == si as int {
                assert(j < hi);
            }
        }
        si = si + 1;
    }
    assert(!has_hub(old(sectors)@, hub_id));
}

/// The lines of a hub, capped to the last hundred when `cap` is set.
pub open spec fn kept_lines(lines: Seq<Seq<char>>, cap: bool) -> Seq<Seq<char>> {
    if cap {
        capped(lines)
    } else {
        lines
    }
}

/// `new` is `old` with `line` appended to the first hub `hub_id`, if any,
/// capped when `cap` is set.
pub open spec fn delta_applied(old: Seq<Sector>, new: Seq<Sector>, hub_id: u128, line: String, cap: bool) -> bool {
    if has_hub(old, hub_id) {
        exists|si: int, hi: int| hub_at(old, hub_id, si, hi) && {
            let h = old[si].hubs@[hi];
            &&& new.len() == old.len()
            &&& forall|k: int| 0 <= k < old.len() && k != si ==> new[k] == old[k]
            &&& new[si]@ == SectorView {
                hubs: old[si]@.hubs.update(hi, HubView {
                    terminal_output: kept_lines(string_views(h.terminal_output@).push(line@), cap),
                    ..h@
                }),
                ..old[si]@
            }
        }
    } else {
        new == old
    }
}

/// The manager of remote nodes and connections. Frame buffer listeners are
/// kept by the caller.
#[derive(Debug)]
pub struct RemoteManager {
    pub nodes: IdMap<RemoteNodeInfo>,
    pub active_connections: IdMap<RemoteConnection>,
    /// Authentication tokens by node
    pub auth_store: IdMap<String>,
    /// Relayed commands waiting to run: hub and command
    pub command_queue: Vec<(u128, String)>,
}

/// The connection after a packet, besides its frame buffer: heartbeats
/// refresh the synchronisation time, authentication requests compare the
/// token with the stored one, responses set the outcome.
pub open spec fn conn_after(c: RemoteConnection, p: SyncPacket, stored: Option<Seq<char>>, now: u64) -> RemoteConnection {
    let c1 = with_frame(c, p, now);
    match p {
        SyncPacket::Heartbeat => RemoteConnection { last_sync_ms: now, ..c1 },
        SyncPacket::AuthRequest { token } => RemoteConnection {
            authenticated: stored == Some(token@),
            ..c1
        },
        SyncPacket::AuthResponse { success, .. } => RemoteConnection { authenticated: success, ..c1 },
        _ => c1,
    }
}

impl RemoteManager {
    /// A manager with no node.
    pub fn new() -> (m: RemoteManager)
        ensures
            m.nodes@ == Map::<u128, RemoteNodeInfo>::empty(),
            m.active_connections@ == Map::<u128, RemoteConnection>::empty(),
            m.auth_store@ == Map::<u128, String>::empty(),
            m.command_queue@.len() == 0,
    {
        RemoteManager {
            nodes: IdMap::new(),
            active_connections: IdMap::new(),
            auth_store: IdMap::new(),
            command_queue: Vec::new(),
        }
    }

    /// Registers a node.
    pub fn register_node(&mut self, info: RemoteNodeInfo)
        ensures
            final(self).nodes@ == old(self).nodes@.insert(info.id, info),
            final(self).active_connections@ == old(self).active_connections@,
            final(self).auth_store@ == old(self).auth_store@,
            final(self).command_queue@ == old(self).command_queue@,
    {
        self.nodes.insert(info.id, info);
    }

    /// Links to a registered node at `now`.
    pub fn connect(&mut self, node_id: u128, conn_type: ConnectionType, now: u64) -> (r: Result<RemoteConnection, String>)
        ensures
            !old(self).nodes@.dom().contains(node_id) ==> r is Err && r->Err_0@ == "Node "@ + uuid_text(node_id)
                + " not found"@ && final(self).active_connections@ == old(self).active_connections@,
            old(self).nodes@.dom().contains(node_id) ==> r == Ok::<RemoteConnection, String>(
                RemoteConnection::spec_new(node_id, conn_type, now),
            ) && final(self).active_connections@ == old(self).active_connections@.insert(
                node_id,
                RemoteConnection::spec_new(node_id, conn_type, now),
            ),
            final(self).nodes@ == old(self).nodes@,
            final(self).auth_store@ == old(self).auth_store@,
            final(self).command_queue@ == old(self).command_queue@,
    {
        if !self.nodes.contains_key(node_id) {
            let mut m: Vec<char> = Vec::new();
            push_str(&mut m, "Node ");
            let t = id_to_string(node_id);
            push_str(&mut m, t.as_str());
            push_str(&mut m, " not found");
            return Err(string_of(&m));
        }
        let connection = RemoteConnection::new(node_id, conn_type, now);
        self.active_connections.insert(node_id, RemoteConnection::new(node_id, conn_type, now));
        Ok(connection)
    }

    /// Drops the link to a node.
    pub fn disconnect(&mut self, node_id: u128)
        ensures
            final(self).active_connections@ == old(self).active_connections@.remove(node_id),
            final(self).nodes@ == old(self).nodes@,
            final(self).auth_store@ == old(self).auth_store@,
            final(self).command_queue@ == old(self).command_queue@,
    {
        self.active_connections.remove(node_id);
    }

    /// Marks a linked node as synchronised at `now`.
    pub fn sync_node(&mut self, node_id: u128, now: u64) -> (r: Result<(), String>)
        ensures
            old(self).active_connections@.dom().contains(node_id) ==> r is Ok
                && final(self).active_connections@ == old(self).active_connections@.insert(
                node_id,
                RemoteConnection { last_sync_ms: now, ..old(self).active_connections@[node_id] },
            ),
            !old(self).active_connections@.dom().contains(node_id) ==> r is Err && r->Err_0@
                == "Not connected"@ && final(self).active_connections@ == old(self).active_connections@,
            final(self).nodes@ == old(self).nodes@,
            final(self).auth_store@ == old(self).auth_store@,
            final(self).command_queue@ == old(self).command_queue@,
    {
        match self.active_connections.remove(node_id) {
            Some(mut c) => {
                c.last_sync_ms = now;
                self.active_connections.insert(node_id, c);
                assert(self.active_connections@ =~= old(self).active_connections@.insert(
                    node_id,
                    RemoteConnection { last_sync_ms: now, ..old(self).active_connections@[node_id] },
                ));
                Ok(())
            },
            None => Err(String::from_str("Not connected")),
        }
    }

    /// Handles a packet from `node_id` at `now`: the connection's frame
    /// buffer, heartbeat and authentication; sector states replace the
    /// sector with the same identifier (or are added); terminal lines go to
    /// the first hub with the identifier (keeping its last hundred lines);
    /// relayed commands are queued.
    pub fn process_packet(&mut self, node_id: u128, packet: SyncPacket, sectors: &mut Vec<Sector>, now: u64) -> (r: Result<(), String>)
        ensures
            r is Ok,
            final(self).nodes@ == old(self).nodes@,
            final(self).auth_store@ == old(self).auth_store@,
            old(self).active_connections@.dom().contains(node_id) ==> final(self).active_connections@
                == old(self).active_connections@.insert(
                node_id,
                conn_after(
                    old(self).active_connections@[node_id],
                    packet,
                    if old(self).auth_store@.dom().contains(node_id) {
                        Some(old(self).auth_store@[node_id]@)
                    } else {
                        None
                    },
                    now,
                ),
            ),
            !old(self).active_connections@.dom().contains(node_id) ==> final(self).active_connections@
                == old(self).active_connections@,
            match packet {
                SyncPacket::CommandRelay { hub_id, command } => final(self).command_queue@
                    == old(self).command_queue@.push((hub_id, command)),
                _ => final(self).command_queue@ == old(self).command_queue@,
            },
            match packet {
                SyncPacket::SectorState(s) => if exists|i: int| sector_at(old(sectors)@, s.id, i) {
                    exists|i: int| sector_at(old(sectors)@, s.id, i) && final(sectors)@ == old(sectors)@.update(i, s)
                } else {
                    final(sectors)@ == old(sectors)@.push(s)
                },
                SyncPacket::TerminalDelta { hub_id, line } => delta_applied(old(sectors)@, final(sectors)@, hub_id, line, true),
                _ => final(sectors)@ == old(sectors)@,
            },
    {
        let stored_ok = match &packet {
            SyncPacket::AuthRequest { token } => match self.auth_store.get(node_id) {
                Some(t) => *t == *token,
                None => false,
            },
            _ => false,
        };
        let ghost old_conns = self.active_connections@;
        let taken = self.active_connections.remove(node_id);
        match packet {
            SyncPacket::SectorState(remote_sector) => {
                self.restore(node_id, taken);
                apply_sector_state(sectors, remote_sector);
            },
            SyncPacket::TerminalDelta { hub_id, line } => {
                self.restore(node_id, taken);
                apply_terminal_delta(sectors, hub_id, line, true);
            },
            SyncPacket::CommandRelay { hub_id, command } => {
                self.restore(node_id, taken);
                self.command_queue.push((hub_id, command));
            },
            SyncPacket::FrameBufferUpdate { width, height, data, timestamp } => {
                match taken {
                    Some(mut c) => {
                        c.update_frame_buffer(SyncPacket::FrameBufferUpdate { width, height, data, timestamp }, now);
                        self.active_connections.insert(node_id, c);
                    },
                    None => {},
                }
            },
            SyncPacket::Heartbeat => {
                match taken {
                    Some(mut c) => {
                        c.last_sync_ms = now;
                        self.active_connections.insert(node_id, c);
                    },
                    None => {},
                }
            },
            SyncPacket::AuthRequest { token } => {
                match taken {
                    Some(mut c) => {
                        c.authenticated = stored_ok;
                        self.active_connections.insert(node_id, c);
                    },
                    None => {},
                }
            },
            SyncPacket::AuthResponse { success, message } => {
                match taken {
                    Some(mut c) => {
                        c.authenticated = success;
                        self.active_connections.insert(node_id, c);
                    },
                    None => {},
                }
            },
            SyncPacket::PresenceUpdate { .. } => {
                self.restore(node_id, taken);
            },
        }
        assert(self.active_connections@ =~= if old_conns.dom().contains(node_id) {
            old_conns.insert(
                node_id,
                conn_after(
                    old_conns[node_id],
                    packet,
                    if old(self).auth_store@.dom().contains(node_id) {
                        Some(old(self).auth_store@[node_id]@)
                    } else {
                        None
                    },
                    now,
                ),
            )
        } else {
            old_conns
        });
        Ok(())
    }

    fn restore(&mut self, node_id: u128, taken: Option<RemoteConnection>)
        ensures
            match taken {
                Some(c) => final(self).active_connections@ == old(self).active_connections@.insert(node_id, c),
                None => final(self).active_connections@ == old(self).active_connections@,
            },
            final(self).nodes@ == old(self).nodes@,
            final(self).auth_store@ == old(self).auth_store@,
            final(self).command_queue@ == old(self).command_queue@,
    {
        match taken {
            Some(c) => self.active_connections.insert(node_id, c),
            None => {},
        }
    }

    /// Runs a queued relayed command of a hub.
    pub fn execute_command_relay(&mut self, hub_id: u128, command: &str) -> (r: Result<String, String>)
        ensures
            (exists|i: int| 0 <= i < old(self).command_queue@.len() && old(self).command_queue@[i].0 == hub_id)
                <==> r is Ok,
            r matches Ok(t) ==> exists|i: int| 0 <= i < old(self).command_queue@.len()
                && old(self).command_queue@[i].0 == hub_id && (forall|j: int| 0 <= j < i ==> old(self).command_queue@[j].0 != hub_id)
                && t@ == "Executed: "@ + old(self).command_queue@[i].1@,
            r matches Err(e) ==> e@ == "Command not found in queue"@,
            final(self).command_queue@ == old(self).command_queue@,
    {
        let mut i: usize = 0;
        while i < self.command_queue.len()
            invariant
                0 <= i <= self.command_queue@.len(),
                forall|j: int| 0 <= j < i ==> self.command_queue@[j].0 != hub_id,
            decreases self.command_queue@.len() - i,
        {
            if self.command_queue[i].0 == hub_id {
                let mut t: Vec<char> = Vec::new();
                push_str(&mut t, "Executed: ");
                push_str(&mut t, self.command_queue[i].1.as_str());
                assert(t@ =~= "Executed: "@ + self.command_queue@[i as int].1@);
                return Ok(string_of(&t));
            }
            i = i + 1;
        }
        Err(String::from_str("Command not found in queue"))
    }

    /// A terminal line packet.
    pub fn create_terminal_packet(&self, hub_id: u128, line: String) -> (p: SyncPacket)
        ensures
            p matches SyncPacket::TerminalDelta { hub_id: h, line: l } && h == hub_id && l == line,
    {
        SyncPacket::TerminalDelta { hub_id, line }
    }

    /// A frame buffer packet stamped with `timestamp` (milliseconds).
    pub fn create_frame_buffer_packet(&self, width: u32, height: u32, data: Vec<u8>, timestamp: u64) -> (p: SyncPacket)
        ensures
            p matches SyncPacket::FrameBufferUpdate { width: w, height: h, data: d, timestamp: t } && w == width
                && h == height && d == data && t == timestamp,
    {
        SyncPacket::FrameBufferUpdate { width, height, data, timestamp }
    }

    /// The frame buffer of a node's connection.
    pub fn get_frame_buffer(&self, node_id: u128) -> (r: Option<&RemoteFrameBuffer>)
        ensures
            match r {
                Some(fb) => self.active_connections@.dom().contains(node_id)
                    && self.active_connections@[node_id].frame_buffer == Some(*fb),
                None => !self.active_connections@.dom().contains(node_id)
                    || self.active_connections@[node_id].frame_buffer is None,
            },
    {
        match self.active_connections.get(node_id) {
            Some(c) => match &c.frame_buffer {
                Some(fb) => Some(fb),
                None => None,
            },
            None => None,
        }
    }

    /// Whether a node's frame buffer is missing or stale at `now`.
    pub fn is_frame_buffer_stale(&self, node_id: u128, threshold_ms: u64, now: u64) -> (b: bool)
        ensures
            b == (match if self.active_connections@.dom().contains(node_id) {
                self.active_connections@[node_id].frame_buffer
            } else {
                None
            } {
                Some(fb) => fb.stale(threshold_ms, now),
                None => true,
            }),
    {
        match self.get_frame_buffer(node_id) {
            Some(fb) => fb.is_stale(threshold_ms, now),
            None => true,
        }
    }
}

/// The name `{:?}` gives a connection type.
pub open spec fn connection_type_name(t: ConnectionType) -> Seq<char> {
    match t {
        ConnectionType::Local => "Local"@,
        ConnectionType::TOSNative => "TOSNative"@,
        ConnectionType::SSH => "SSH"@,
        ConnectionType::HTTP => "HTTP"@,
    }
}

fn connection_type_str(t: ConnectionType) -> (s: &'static str)
    ensures
        s@ == connection_type_name(t),
{
    match t {
        ConnectionType::Local => "Local",
        ConnectionType::TOSNative => "TOSNative",
        ConnectionType::SSH => "SSH",
        ConnectionType::HTTP => "HTTP",
    }
}

/// The sector that stands for a linked node: named after the node's host
/// name and address, in the remote accent colour, with one fresh hub that
/// reports the link.
pub open spec fn remote_sector(node: RemoteNodeInfo, conn_type: ConnectionType, hub_id: u128, home: Seq<char>) -> SectorView {
    SectorView {
        id: node.id,
        name: node.hostname@ + " @ "@ + node.address@,
        color: "#66ccff"@,
        host: node.address@,
        connection_type: conn_type,
        hubs: seq![
            HubView {
                terminal_output: seq!["LINK ESTABLISHED TO "@ + node.address@ + " via "@ + connection_type_name(conn_type)],
                ..crate::reset::fresh_hub(hub_id, home)
            },
        ],
        participants: seq![],
        active_hub_index: 0,
        icon: "\u{1f310}"@,
        portal_active: false,
        portal_url: None,
        description: "Remote session on "@ + node.hostname@,
        sector_type_name: "operations"@,
    }
}

impl RemoteManager {
    /// Whether the node is registered and linked.
    pub open spec fn linked(self, node_id: u128) -> bool {
        self.nodes@.dom().contains(node_id) && self.active_connections@.dom().contains(node_id)
    }

    /// The sector for a registered, linked node, whose hub gets the
    /// identifier `hub_id` and starts in `home`; `None` for any other node.
    pub fn create_remote_sector_with(&self, node_id: u128, hub_id: u128, home: String) -> (r: Option<Sector>)
        ensures
            r is Some <==> self.linked(node_id),
            r is Some ==> r->0@ == remote_sector(
                self.nodes@[node_id],
                self.active_connections@[node_id].connection_type,
                hub_id,
                home@,
            ),
    {
        let node = match self.nodes.get(node_id) {
            Some(n) => n,
            None => return None,
        };
        let conn = match self.active_connections.get(node_id) {
            Some(c) => c,
            None => return None,
        };
        let mut name: Vec<char> = Vec::new();
        push_str(&mut name, node.hostname.as_str());
        push_str(&mut name, " @ ");
        push_str(&mut name, node.address.as_str());
        let mut line: Vec<char> = Vec::new();
        push_str(&mut line, "LINK ESTABLISHED TO ");
        push_str(&mut line, node.address.as_str());
        push_str(&mut line, " via ");
        push_str(&mut line, connection_type_str(conn.connection_type));
        let mut desc: Vec<char> = Vec::new();
        push_str(&mut desc, "Remote session on ");
        push_str(&mut desc, node.hostname.as_str());
        let mut hub = crate::model::CommandHub::blank();
        hub.id = hub_id;
        hub.current_directory = home;
        hub.left_region_visible = true;
        hub.terminal_output.push(string_of(&line));
        let mut hubs: Vec<crate::model::CommandHub> = Vec::new();
        hubs.push(hub);
        let sector = Sector {
            id: node.id,
            name: string_of(&name),
            color: String::from_str("#66ccff"),
            host: String::from_str(node.address.as_str()),
            connection_type: conn.connection_type,
            hubs,
            participants: Vec::new(),
            active_hub_index: 0,
            icon: String::from_str("\u{1f310}"),
            portal_active: false,
            portal_url: None,
            description: string_of(&desc),
            sector_type_name: String::from_str("operations"),
        };
        proof {
            reveal_strlit("\u{1f310}");
            reveal_strlit("operations");
            reveal_strlit("#66ccff");
            assert(sector@.hubs[0].terminal_output =~= seq![
                "LINK ESTABLISHED TO "@ + node.address@ + " via "@ + connection_type_name(conn.connection_type)]);
            assert(sector@.hubs[0] == remote_sector(*node, conn.connection_type, hub_id, home@).hubs[0]);
            assert(sector@.hubs =~= remote_sector(*node, conn.connection_type, hub_id, home@).hubs);
        }
        Some(sector)
    }

    /// The sector for a registered, linked node (`None` for any other),
    /// with a fresh random identifier for its hub, which starts in the home
    /// directory, or `/` where there is none.
    pub fn create_remote_sector(&self, node_id: u128) -> (r: Option<Sector>)
        ensures
            r is Some <==> self.linked(node_id),
            r is Some ==> r->0@ == remote_sector(
                self.nodes@[node_id],
                self.active_connections@[node_id].connection_type,
                r->0@.hubs[0].id,
                r->0@.hubs[0].current_directory,
            ),
    {
        let hub_id = crate::ids::new_id();
        let home = crate::clock::home_or_root();
        self.create_remote_sector_with(node_id, hub_id, home)
    }
}

impl RemoteConnection {
    pub open spec fn spec_new(node_id: u128, connection_type: ConnectionType, now: u64) -> RemoteConnection {
        RemoteConnection {
            node_id,
            connection_type,
            last_sync_ms: now,
            frame_buffer: None,
            authenticated: false,
            latency_ms: 0,
            stream_quality: 100,
        }
    }
}

/// Authentication succeeds exactly with the stored token, and a refused
/// request leaves the connection unauthenticated.
pub proof fn law_auth_matches_stored_token(c: RemoteConnection, token: String, stored: Option<Seq<char>>, now: u64)
    ensures
        conn_after(c, SyncPacket::AuthRequest { token }, stored, now).authenticated <==> stored == Some(token@),
{
}

} // verus!
