//! Linking remote nodes as sectors: the requests that add a remote sector
//! or connect to an address register a node, link it, and add the sector
//! that stands for it. Starting the shell of the new hub is the caller's
//! work; the shell is then registered as an application of that hub.
use vstd::prelude::*;
use crate::dispatch::IpcDispatcher;
use crate::model::{Application, AppView, HubView, SectorView, StateView};
use crate::remote::{remote_sector, ConnectionType, RemoteConnection, RemoteNodeInfo, RemoteStatus};
use crate::text::{push_str, string_of};

verus! {

/// `n` is the node registered for a link: the given identifier, host name
/// and address, an online TOS node of version 1.0.0.
pub open spec fn node_is(n: RemoteNodeInfo, id: u128, hostname: Seq<char>, address: Seq<char>) -> bool {
    &&& n.id == id
    &&& n.hostname@ == hostname
    &&& n.address@ == address
    &&& n.os_type@ == "TOS"@
    &&& n.version@ == "1.0.0"@
    &&& n.status == RemoteStatus::Online
}

/// `d1` is `d0` after node `id` was registered as described, linked by
/// `conn_type` at `now`, and its sector (hub `hub_id`, starting in `home`)
/// added after the others.
pub open spec fn linked_as(
    d0: IpcDispatcher,
    d1: IpcDispatcher,
    id: u128,
    hostname: Seq<char>,
    address: Seq<char>,
    conn_type: ConnectionType,
    hub_id: u128,
    home: Seq<char>,
    now: u64,
) -> bool {
    let node = d1.remote.nodes@[id];
    &&& node_is(node, id, hostname, address)
    &&& d1.remote.nodes@ == d0.remote.nodes@.insert(id, node)
    &&& d1.remote.active_connections@ == d0.remote.active_connections@.insert(
        id,
        RemoteConnection::spec_new(id, conn_type, now),
    )
    &&& d1.remote.auth_store@ == d0.remote.auth_store@
    &&& d1.remote.command_queue@ == d0.remote.command_queue@
    &&& d1.security == d0.security
    &&& d1.state@ == StateView {
        sectors: d0.state@.sectors.push(remote_sector(node, conn_type, hub_id, home)),
        ..d0.state@
    }
}

/// The application that stands for the shell of a remote hub.
pub open spec fn shell_app(id: u128, pid: u32) -> AppView {
    AppView { id, title: "ssh"@, app_class: "Shell"@, pid: Some(pid) }
}

/// The state with the shell registered as the first application of hub
/// `hi` of sector `si`, and focused there.
pub open spec fn shell_registered(s: StateView, si: int, hi: int, app: AppView) -> StateView {
    let sec = s.sectors[si];
    let h = sec.hubs[hi];
    StateView {
        sectors: s.sectors.update(
            si,
            SectorView {
                hubs: sec.hubs.update(
                    hi,
                    HubView { applications: h.applications.push(app), active_app_index: Some(0), ..h },
                ),
                ..sec
            },
        ),
        ..s
    }
}

impl IpcDispatcher {
    fn link_node(
        &mut self,
        node_id: u128,
        hostname: String,
        address: String,
        conn_type: ConnectionType,
        hub_id: u128,
        home: String,
        now: u64,
    )
        ensures
            linked_as(*old(self), *final(self), node_id, hostname@, address@, conn_type, hub_id, home@, now),
    {
        let ghost d0 = *self;
        let ghost (hn, ad) = (hostname@, address@);
        let info = RemoteNodeInfo {
            id: node_id,
            hostname,
            address,
            os_type: String::from_str("TOS"),
            version: String::from_str("1.0.0"),
            status: RemoteStatus::Online,
        };
        proof {
            reveal_strlit("TOS");
            reveal_strlit("1.0.0");
        }
        let ghost node = info;
        self.remote.register_node(info);
        let _ = self.remote.connect(node_id, conn_type, now);
        assert(self.remote.nodes@[node_id] == node);
        match self.remote.create_remote_sector_with(node_id, hub_id, home) {
            Some(sector) => {
                self.state.sectors.push(sector);
                assert(self.state@.sectors =~= d0.state@.sectors.push(
                    remote_sector(node, conn_type, hub_id, home@),
                ));
            },
            None => {},
        }
    }

    /// Handles a request for a remote sector: node `node_id` (the demo node
    /// REMOTE-NODE-01 at 10.0.4.15) is registered and linked over SSH at
    /// `now`, and its sector, whose hub is `hub_id` and starts in `home`, is
    /// added. Returns the host the hub's shell is to reach.
    pub fn add_remote_sector_at(&mut self, node_id: u128, hub_id: u128, home: String, now: u64) -> (host: String)
        ensures
            linked_as(
                *old(self),
                *final(self),
                node_id,
                "REMOTE-NODE-01"@,
                "10.0.4.15"@,
                ConnectionType::SSH,
                hub_id,
                home@,
                now,
            ),
            host@ == "10.0.4.15"@,
    {
        self.link_node(
            node_id,
            String::from_str("REMOTE-NODE-01"),
            String::from_str("10.0.4.15"),
            ConnectionType::SSH,
            hub_id,
            home,
            now,
        );
        String::from_str("10.0.4.15")
    }

    /// `add_remote_sector_at` with fresh random identifiers for the node and
    /// the hub, and the home directory (or `/`). Returns the hub and the
    /// host its shell is to reach.
    pub fn add_remote_sector(&mut self, now: u64) -> (r: (u128, String))
        ensures
            exists|node_id: u128, home: Seq<char>|
                #[trigger] linked_as(
                    *old(self),
                    *final(self),
                    node_id,
                    "REMOTE-NODE-01"@,
                    "10.0.4.15"@,
                    ConnectionType::SSH,
                    r.0,
                    home,
                    now,
                ),
            r.1@ == "10.0.4.15"@,
    {
        let node_id = crate::ids::new_id();
        let hub_id = crate::ids::new_id();
        let home = crate::clock::home_or_root();
        let ghost hv = home@;
        let ghost d0 = *self;
        let host = self.add_remote_sector_at(node_id, hub_id, home, now);
        let r = (hub_id, host);
        assert(linked_as(d0, *self, node_id, "REMOTE-NODE-01"@, "10.0.4.15"@, ConnectionType::SSH, r.0, hv, now));
        r
    }

    /// Handles a request to connect to `address`: node `node_id`, named
    /// REMOTE- and the address, is registered and linked natively at `now`,
    /// and its sector, whose hub is `hub_id` and starts in `home`, is added.
    pub fn connect_remote_at(&mut self, address: &str, node_id: u128, hub_id: u128, home: String, now: u64)
        ensures
            linked_as(
                *old(self),
                *final(self),
                node_id,
                "REMOTE-"@ + address@,
                address@,
                ConnectionType::TOSNative,
                hub_id,
                home@,
                now,
            ),
    {
        let mut name: Vec<char> = Vec::new();
        push_str(&mut name, "REMOTE-");
        push_str(&mut name, address);
        self.link_node(
            node_id,
            string_of(&name),
            String::from_str(address),
            ConnectionType::TOSNative,
            hub_id,
            home,
            now,
        );
    }

    /// `connect_remote_at` with fresh random identifiers for the node and
    /// the hub, and the home directory (or `/`).
    pub fn connect_remote(&mut self, address: &str, now: u64)
        ensures
            exists|node_id: u128, hub_id: u128, home: Seq<char>|
                #[trigger] linked_as(
                    *old(self),
                    *final(self),
                    node_id,
                    "REMOTE-"@ + address@,
                    address@,
                    ConnectionType::TOSNative,
                    hub_id,
                    home,
                    now,
                ),
    {
        let node_id = crate::ids::new_id();
        let hub_id = crate::ids::new_id();
        let home = crate::clock::home_or_root();
        let ghost hv = home@;
        let ghost d0 = *self;
        self.connect_remote_at(address, node_id, hub_id, home, now);
        assert(linked_as(d0, *self, node_id, "REMOTE-"@ + address@, address@, ConnectionType::TOSNative, hub_id, hv, now));
    }

    /// Registers the shell `pid` started for hub `hi` of sector `si` as
    /// that hub's application `app_id`, and focuses it. Returns whether the
    /// hub exists; where it does not, nothing changes.
    pub fn register_shell(&mut self, si: usize, hi: usize, app_id: u128, pid: u32) -> (done: bool)
        ensures
            done == (si < old(self).state@.sectors.len() && hi < old(self).state@.sectors[si as int].hubs.len()),
            done ==> final(self).state@ == shell_registered(old(self).state@, si as int, hi as int, shell_app(app_id, pid)),
            !done ==> final(self).state@ == old(self).state@,
            final(self).security == old(self).security,
            final(self).remote == old(self).remote,
    {
        if si >= self.state.sectors.len() || hi >= self.state.sectors[si].hubs.len() {
            return false;
        }
        let ghost s0 = self.state@;
        let app = Application {
            id: app_id,
            title: String::from_str("ssh"),
            app_class: String::from_str("Shell"),
            pid: Some(pid),
        };
        proof {
            reveal_strlit("ssh");
            reveal_strlit("Shell");
        }
        let mut sector = crate::model::Sector {
            id: 0,
            name: String::new(),
            color: String::new(),
            host: String::new(),
            connection_type: ConnectionType::Local,
            hubs: Vec::new(),
            participants: Vec::new(),
            active_hub_index: 0,
            icon: String::new(),
            portal_active: false,
            portal_url: None,
            description: String::new(),
            sector_type_name: String::new(),
        };
        std::mem::swap(&mut sector, &mut self.state.sectors[si]);
        let mut hub = crate::model::CommandHub::blank();
        std::mem::swap(&mut hub, &mut sector.hubs[hi]);
        assert(hub@ == s0.sectors[si as int].hubs[hi as int]);
        hub.applications.push(app);
        hub.active_app_index = Some(0);
        assert(hub@.applications =~= s0.sectors[si as int].hubs[hi as int].applications.push(
            shell_app(app_id, pid),
        ));
        std::mem::swap(&mut hub, &mut sector.hubs[hi]);
        std::mem::swap(&mut sector, &mut self.state.sectors[si]);
        let ghost want = shell_registered(s0, si as int, hi as int, shell_app(app_id, pid));
        assert(self.state@.sectors[si as int].hubs =~= want.sectors[si as int].hubs);
        assert(self.state@.sectors =~= want.sectors);
        true
    }
}

} // verus!
