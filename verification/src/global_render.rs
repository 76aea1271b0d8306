//! The global overview as HTML: the command-center header, a card for each
//! sector (its mode, remote link, portal, icon, hubs and participants), and
//! the cards that create a sector or link a remote node. The render mode,
//! the time and the stardate come from the caller.
use vstd::prelude::*;
use crate::ids::{id_to_string, uuid_text};
use crate::model::{CommandHubMode, Sector, SectorView, StateView, TosState};
use crate::remote::ConnectionType;
use crate::text::{chars_of, dec, push_chars, push_str, push_u64, replace_all, replace_str, string_of, to_uppercase,
    uppercased};

verus! {

/// What the overview shows besides the compositor state.
pub struct GlobalRenderContext {
    /// The render mode, as `{:?}` names it
    pub render_mode: String,
    pub time: String,
    pub stardate: String,
}

pub const GLOBAL_HEADER_0: &'static str = "<div class=\"tactical-header\" style=\"--header-accent: var(--lcars-blue);\">\n                <div class=\"header-left\">\n                    <h1 class=\"header-title large\">TOS COMMAND CENTER</h1>\n                </div>\n                <div class=\"header-center\"></div>\n                <div class=\"header-right\">\n                    <div class=\"telemetry-bar-inline\" style=\"display:flex; gap:30px; align-items:center;\">\n                        <div class=\"telemetry-item\">\n                            <span class=\"label\">System Time</span>\n                            <span class=\"value\" id=\"tos-sys-time\" style=\"color:var(--lcars-orange); font-weight:700; font-size:1.2rem;\">";
pub const GLOBAL_HEADER_1: &'static str = "</span>\n                        </div>\n                        <div class=\"telemetry-item\">\n                            <span class=\"label\">Ambience</span>\n                            <div class=\"ambience-controls\" style=\"display:flex; gap:5px;\">\n                                <button class=\"bezel-btn mini\" onclick=\"window.ipc.postMessage('play_audio:AmbientHum')\">HUM</button>\n                                <button class=\"bezel-btn mini\" onclick=\"window.ipc.postMessage('play_audio:BridgeChirps')\">CHIRP</button>\n                            </div>\n                        </div>\n                        <div class=\"telemetry-item\" style=\"display:flex; gap:5px;\">\n                            <button class=\"bezel-btn mini comms-toggle-btn\" onclick=\"window.ipc.postMessage('toggle_comms')\">COMMS</button>\n                            <button class=\"bezel-btn mini minimap-toggle-btn\" onclick=\"window.ipc.postMessage('semantic_event:ToggleMiniMap')\">MAP</button>\n                        </div>\n                        <div class=\"telemetry-item\">\n                            <span class=\"label\">Stardate</span>\n                            <span class=\"value\" id=\"tos-stardate\" style=\"color:var(--lcars-orange); font-weight:700; font-size:1.2rem;\">";
pub const GLOBAL_HEADER_2: &'static str = "</span>\n                        </div>\n                    </div>\n                </div>\n            </div>";
pub const GLOBAL_GRID_0: &'static str = "<div class=\"global-grid mode-";
pub const GLOBAL_GRID_1: &'static str = "\">";
pub const REMOTE_TOS_0: &'static str = "<div class=\"remote-tag\">TOS // ";
pub const REMOTE_TOS_1: &'static str = "</div>";
pub const REMOTE_SSH_0: &'static str = "<div class=\"remote-tag\">SSH // ";
pub const REMOTE_SSH_1: &'static str = "</div>";
pub const REMOTE_HTTP_0: &'static str = "<div class=\"remote-tag\">HTTP // ";
pub const REMOTE_HTTP_1: &'static str = "</div>";
pub const SECTOR_CARD_0: &'static str = "<div class=\"sector-card command-hub ";
pub const SECTOR_CARD_1: &'static str = "\" onclick=\"this.classList.add('expanding'); setTimeout(() => window.ipc.postMessage('select_sector:";
pub const SECTOR_CARD_2: &'static str = "'), 300)\">\n                    <div class=\"tactical-header mini\" style=\"--header-accent: ";
pub const SECTOR_CARD_3: &'static str = ";\">\n                        <div class=\"header-left\">\n                            <button class=\"bezel-btn mini\">ZOOM IN</button>\n                            <button class=\"bezel-btn mini\">NAV</button>\n                        </div>\n                        <div class=\"header-center\">\n                            <div class=\"three-way-toggle\">\n                                <div class=\"toggle-segment ";
pub const SECTOR_CARD_4: &'static str = "\">CMD</div>\n                                <div class=\"toggle-segment ";
pub const SECTOR_CARD_5: &'static str = "\">DIR</div>\n                                <div class=\"toggle-segment ";
pub const SECTOR_CARD_6: &'static str = "\">ACT</div>\n                            </div>\n                        </div>\n                        <div class=\"header-right\">\n                            <div class=\"hub-info-inline\" style=\"display:flex; gap:10px; align-items:center;\">\n                                <div class=\"hub-metadata\">\n                                    <span class=\"hub-sector-name\" style=\"font-weight:800; color:";
pub const SECTOR_CARD_7: &'static str = "; font-size: 0.8rem;\">";
pub const SECTOR_CARD_8: &'static str = "</span>\n                                </div>\n                            </div>\n                        </div>\n                    </div>\n                    \n                    <div class=\"hub-content mini\" style=\"display:flex; flex-direction:column; justify-content:center; align-items:center; background:rgba(0,0,0,0.5);\">\n                        ";
pub const SECTOR_CARD_9: &'static str = "\n                        ";
pub const SECTOR_CARD_10: &'static str = "\n                        <div style=\"font-size: 4rem; margin:10px 0; filter: drop-shadow(0 0 10px ";
pub const SECTOR_CARD_11: &'static str = ");\">";
pub const SECTOR_CARD_12: &'static str = "</div>\n                        <div style=\"display:flex; gap:5px;\">\n                            <span class=\"pill\" style=\"background:#4CAF50; color:black; font-size:0.6rem; padding:2px 6px; border-radius:10px;\">";
pub const SECTOR_CARD_13: &'static str = " HUBS</span>\n                            <span class=\"pill\" style=\"background:#4CAF50; color:black; font-size:0.6rem; padding:2px 6px; border-radius:10px;\">";
pub const SECTOR_CARD_14: &'static str = " USERS</span>\n                        </div>\n                    </div>\n\n                    <div class=\"unified-prompt mini\">\n                        <div class=\"center-section\">\n                            <div class=\"prompt-container\" style=\"display:flex; align-items:center;\">\n                                <div class=\"prompt-prefix\" style=\"color:var(--lcars-orange); font-family:var(--font-mono); font-weight:800; font-size:0.8rem; margin-right:10px;\">TOS@";
pub const SECTOR_CARD_15: &'static str = " ></div>\n                                <div style=\"width:8px; height:1rem; background:rgba(255,255,255,0.7); animation:blink-soft 1s infinite;\"></div>\n                            </div>\n                        </div>\n                    </div>\n                </div>";
pub const PORTAL_TAG: &'static str = "<div class=\"portal-tag\">PORTAL ACTIVE</div>";
pub const CREATE_CARD: &'static str = "<div class=\"sector-card command-hub create-card orange\" onclick=\"window.ipc.postMessage('create_sector')\">\n            <div class=\"tactical-header mini\" style=\"--header-accent: var(--lcars-orange);\">\n                <div class=\"header-left\"><button class=\"bezel-btn mini\">NEW</button></div>\n                <div class=\"header-center\"></div>\n                <div class=\"header-right\"><span class=\"hub-sector-name\" style=\"font-weight:800; color:var(--lcars-orange); font-size:0.8rem;\">INIT MODULE</span></div>\n            </div>\n            \n            <div class=\"hub-content mini\" style=\"display:flex; flex-direction:column; justify-content:center; align-items:center;\">\n                <div style=\"font-size: 4rem; opacity: 0.8; color: var(--lcars-orange);\">+</div>\n                <div style=\"font-size: 1rem; opacity: 0.6; font-weight:800; letter-spacing:2px; margin-top:10px;\">CREATE SECTOR</div>\n            </div>\n            <div class=\"unified-prompt mini\"></div>\n            <div class=\"mini-prompt\"></div>\n        </div>";
pub const REMOTE_CARD: &'static str = "<div class=\"sector-card remote-card green\">\n            <div class=\"mini-bezel\">REMOTE CONNECTION</div>\n            <div class=\"left-indicators\"></div>\n            <div class=\"card-body\">\n                <div class=\"card-icon\">\u{1f4e1}</div>\n                <div class=\"sector-name\" style=\"font-size: 1.5rem;\">LINK NODE</div>\n                <p class=\"sector-desc\">Establish a persistent tactical link to a remote TOS installation via IP/Hostname.</p>\n                <div class=\"remote-input-group\">\n                    <input type=\"text\" id=\"remote-host-input\" placeholder=\"ADDRESS (e.g. 192.168.1.50)\" \n                           onkeyup=\"if(event.key==='Enter') window.ipc.postMessage('connect_remote:' + this.value)\">\n                </div>\n                <div style=\"margin-top: 15px;\">\n                    <button class=\"execute-btn\" onclick=\"const val = document.getElementById('remote-host-input').value; if(val) window.ipc.postMessage('connect_remote:' + val)\">CONNECT</button>\n                </div>\n            </div>\n            <div class=\"right-indicators\"></div>\n            <div class=\"mini-prompt\"></div>\n        </div>";
pub const REMOTE_TAG_CLASS: &'static str = "class=\"remote-tag\"";
pub const REMOTE_TAG_STYLE: &'static str = "style=\"font-family:var(--font-mono);font-size:0.6rem;color:var(--lcars-orange);background:rgba(255,153,0,0.1);padding:2px 6px;border-radius:4px;font-weight:800;\"";
pub const PORTAL_TAG_CLASS: &'static str = "class=\"portal-tag\"";
pub const PORTAL_TAG_STYLE: &'static str = "style=\"font-family:var(--font-mono);font-size:0.6rem;color:var(--lcars-purple);background:rgba(204,153,204,0.1);padding:2px 6px;border-radius:4px;font-weight:800;\"";
/// The header of the global overview.
pub open spec fn global_header_html(time: Seq<char>, stardate: Seq<char>) -> Seq<char> {
    GLOBAL_HEADER_0@
        + time
        + GLOBAL_HEADER_1@
        + stardate
        + GLOBAL_HEADER_2@
}

/// The opening of the sector grid.
pub open spec fn global_grid_html(mode: Seq<char>) -> Seq<char> {
    GLOBAL_GRID_0@
        + mode
        + GLOBAL_GRID_1@
}

/// The tag of a natively linked sector.
pub open spec fn remote_tos_html(host: Seq<char>) -> Seq<char> {
    REMOTE_TOS_0@
        + host
        + REMOTE_TOS_1@
}

/// The tag of a sector reached over SSH.
pub open spec fn remote_ssh_html(host: Seq<char>) -> Seq<char> {
    REMOTE_SSH_0@
        + host
        + REMOTE_SSH_1@
}

/// The tag of a sector reached over HTTP.
pub open spec fn remote_http_html(host: Seq<char>) -> Seq<char> {
    REMOTE_HTTP_0@
        + host
        + REMOTE_HTTP_1@
}

/// The card of a sector.
pub open spec fn sector_card_html(color_class: Seq<char>, index: nat, color: Seq<char>, active_cmd: Seq<char>, active_dir: Seq<char>, active_act: Seq<char>, name: Seq<char>, remote_indicator: Seq<char>, portal_tag: Seq<char>, icon: Seq<char>, hubs: nat, participants: nat) -> Seq<char> {
    SECTOR_CARD_0@
        + color_class
        + SECTOR_CARD_1@
        + dec(index)
        + SECTOR_CARD_2@
        + color
        + SECTOR_CARD_3@
        + active_cmd
        + SECTOR_CARD_4@
        + active_dir
        + SECTOR_CARD_5@
        + active_act
        + SECTOR_CARD_6@
        + color
        + SECTOR_CARD_7@
        + name
        + SECTOR_CARD_8@
        + remote_indicator
        + SECTOR_CARD_9@
        + portal_tag
        + SECTOR_CARD_10@
        + color
        + SECTOR_CARD_11@
        + icon
        + SECTOR_CARD_12@
        + dec(hubs)
        + SECTOR_CARD_13@
        + dec(participants)
        + SECTOR_CARD_14@
        + name
        + SECTOR_CARD_15@
}

pub const GRID_CLOSE: &'static str = "</div>";

/// The colour class of a sector colour.
pub open spec fn color_class(c: Seq<char>) -> Seq<char> {
    if c == "#ff9900"@ {
        "orange"@
    } else if c == "#9999cc"@ {
        "blue"@
    } else if c == "#cc99cc"@ {
        "purple"@
    } else {
        "green"@
    }
}

/// The tag of a remote sector, restyled inline; none for a local one.
pub open spec fn remote_indicator(sec: SectorView) -> Seq<char> {
    match sec.connection_type {
        ConnectionType::Local => Seq::empty(),
        ConnectionType::TOSNative => replace_all(remote_tos_html(sec.host), REMOTE_TAG_CLASS@, REMOTE_TAG_STYLE@),
        ConnectionType::SSH => replace_all(remote_ssh_html(sec.host), REMOTE_TAG_CLASS@, REMOTE_TAG_STYLE@),
        ConnectionType::HTTP => replace_all(remote_http_html(sec.host), REMOTE_TAG_CLASS@, REMOTE_TAG_STYLE@),
    }
}

/// The portal tag of a sector whose portal is open, restyled inline.
pub open spec fn portal_tag(sec: SectorView) -> Seq<char> {
    if sec.portal_active {
        replace_all(PORTAL_TAG@, PORTAL_TAG_CLASS@, PORTAL_TAG_STYLE@)
    } else {
        Seq::empty()
    }
}

pub open spec fn lit_if(b: bool, s: Seq<char>) -> Seq<char> {
    if b { s } else { ""@ }
}

/// The card of sector `i`, with the mode of its active hub.
pub open spec fn sector_card(sec: SectorView, i: nat) -> Seq<char> {
    let mode = sec.hubs[sec.active_hub_index as int].mode;
    sector_card_html(
        color_class(sec.color),
        i,
        sec.color,
        lit_if(mode == CommandHubMode::Command, "active"@),
        lit_if(mode == CommandHubMode::Directory, "active"@),
        lit_if(mode == CommandHubMode::Activity, "active"@),
        uppercased(sec.name),
        remote_indicator(sec),
        portal_tag(sec),
        sec.icon,
        sec.hubs.len(),
        sec.participants.len(),
    )
}

/// The cards of the first `n` sectors.
pub open spec fn sector_cards(ss: Seq<SectorView>, n: nat) -> Seq<char>
    decreases n,
{
    if n == 0 {
        Seq::empty()
    } else {
        sector_cards(ss, (n - 1) as nat) + sector_card(ss[n - 1], (n - 1) as nat)
    }
}

/// The global overview.
pub open spec fn global_page(s: StateView, ctx: GlobalRenderContext) -> Seq<char> {
    global_header_html(ctx.time@, ctx.stardate@) + global_grid_html(ctx.render_mode@) + sector_cards(
        s.sectors,
        s.sectors.len(),
    ) + CREATE_CARD@ + REMOTE_CARD@ + GRID_CLOSE@
}

/// Every sector's active hub exists.
pub open spec fn overview_drawable(s: StateView) -> bool {
    forall|i: int| 0 <= i < s.sectors.len() ==> #[trigger] s.sectors[i].active_hub_index < s.sectors[i].hubs.len()
}

fn push_global_header_html(out: &mut Vec<char>, time: &str, stardate: &str)
    ensures
        final(out)@ == old(out)@ + global_header_html(time@, stardate@),
{
    let ghost start = out@;
    push_str(out, GLOBAL_HEADER_0);
    push_str(out, time);
    push_str(out, GLOBAL_HEADER_1);
    push_str(out, stardate);
    push_str(out, GLOBAL_HEADER_2);
    assert(out@ =~= start + global_header_html(time@, stardate@));
}

fn push_global_grid_html(out: &mut Vec<char>, mode: &str)
    ensures
        final(out)@ == old(out)@ + global_grid_html(mode@),
{
    let ghost start = out@;
    push_str(out, GLOBAL_GRID_0);
    push_str(out, mode);
    push_str(out, GLOBAL_GRID_1);
    assert(out@ =~= start + global_grid_html(mode@));
}

fn push_remote_tos_html(out: &mut Vec<char>, host: &str)
    ensures
        final(out)@ == old(out)@ + remote_tos_html(host@),
{
    let ghost start = out@;
    push_str(out, REMOTE_TOS_0);
    push_str(out, host);
    push_str(out, REMOTE_TOS_1);
    assert(out@ =~= start + remote_tos_html(host@));
}

fn push_remote_ssh_html(out: &mut Vec<char>, host: &str)
    ensures
        final(out)@ == old(out)@ + remote_ssh_html(host@),
{
    let ghost start = out@;
    push_str(out, REMOTE_SSH_0);
    push_str(out, host);
    push_str(out, REMOTE_SSH_1);
    assert(out@ =~= start + remote_ssh_html(host@));
}

fn push_remote_http_html(out: &mut Vec<char>, host: &str)
    ensures
        final(out)@ == old(out)@ + remote_http_html(host@),
{
    let ghost start = out@;
    push_str(out, REMOTE_HTTP_0);
    push_str(out, host);
    push_str(out, REMOTE_HTTP_1);
    assert(out@ =~= start + remote_http_html(host@));
}

fn push_sector_card_html(out: &mut Vec<char>, color_class: &str, index: u64, color: &str, active_cmd: &str, active_dir: &str, active_act: &str, name: &str, remote_indicator: &Vec<char>, portal_tag: &Vec<char>, icon: &str, hubs: u64, participants: u64)
    ensures
        final(out)@ == old(out)@ + sector_card_html(color_class@, index as nat, color@, active_cmd@, active_dir@, active_act@, name@, remote_indicator@, portal_tag@, icon@, hubs as nat, participants as nat),
{
    let ghost start = out@;
    push_str(out, SECTOR_CARD_0);
    push_str(out, color_class);
    push_str(out, SECTOR_CARD_1);
    push_u64(out, index);
    push_str(out, SECTOR_CARD_2);
    push_str(out, color);
    push_str(out, SECTOR_CARD_3);
    push_str(out, active_cmd);
    push_str(out, SECTOR_CARD_4);
    push_str(out, active_dir);
    push_str(out, SECTOR_CARD_5);
    push_str(out, active_act);
    push_str(out, SECTOR_CARD_6);
    push_str(out, color);
    push_str(out, SECTOR_CARD_7);
    push_str(out, name);
    push_str(out, SECTOR_CARD_8);
    push_chars(out, remote_indicator);
    push_str(out, SECTOR_CARD_9);
    push_chars(out, portal_tag);
    push_str(out, SECTOR_CARD_10);
    push_str(out, color);
    push_str(out, SECTOR_CARD_11);
    push_str(out, icon);
    push_str(out, SECTOR_CARD_12);
    push_u64(out, hubs);
    push_str(out, SECTOR_CARD_13);
    push_u64(out, participants);
    push_str(out, SECTOR_CARD_14);
    push_str(out, name);
    push_str(out, SECTOR_CARD_15);
    assert(out@ =~= start + sector_card_html(color_class@, index as nat, color@, active_cmd@, active_dir@, active_act@, name@, remote_indicator@, portal_tag@, icon@, hubs as nat, participants as nat));
}

fn restyled(tag: &Vec<char>, class: &str, style: &str) -> (v: Vec<char>)
    requires
        class@.len() > 0,
    ensures
        v@ == replace_all(tag@, class@, style@),
{
    let c = chars_of(class);
    let st = chars_of(style);
    replace_str(tag, &c, &st)
}

fn push_sector_card(out: &mut Vec<char>, sec: &Sector, i: usize)
    requires
        sec@.active_hub_index < sec@.hubs.len(),
    ensures
        final(out)@ == old(out)@ + sector_card(sec@, i as nat),
{
    proof {
        reveal_strlit("#ff9900");
        reveal_strlit("#9999cc");
        reveal_strlit("#cc99cc");
        reveal_strlit("orange");
        reveal_strlit("blue");
        reveal_strlit("purple");
        reveal_strlit("green");
        reveal_strlit("active");
        reveal_strlit("");
        reveal_strlit("class=\"remote-tag\"");
        reveal_strlit("class=\"portal-tag\"");
    }
    let cc = chars_of(sec.color.as_str());
    let class = if crate::text::eq_str(&cc, "#ff9900") {
        "orange"
    } else if crate::text::eq_str(&cc, "#9999cc") {
        "blue"
    } else if crate::text::eq_str(&cc, "#cc99cc") {
        "purple"
    } else {
        "green"
    };
    let mut tag: Vec<char> = Vec::new();
    match sec.connection_type {
        ConnectionType::Local => {},
        ConnectionType::TOSNative => push_remote_tos_html(&mut tag, sec.host.as_str()),
        ConnectionType::SSH => push_remote_ssh_html(&mut tag, sec.host.as_str()),
        ConnectionType::HTTP => push_remote_http_html(&mut tag, sec.host.as_str()),
    }
    let remote = match sec.connection_type {
        ConnectionType::Local => Vec::new(),
        _ => restyled(&tag, REMOTE_TAG_CLASS, REMOTE_TAG_STYLE),
    };
    assert(remote@ == remote_indicator(sec@));
    let portal = if sec.portal_active {
        restyled(&chars_of(PORTAL_TAG), PORTAL_TAG_CLASS, PORTAL_TAG_STYLE)
    } else {
        Vec::new()
    };
    assert(portal@ == portal_tag(sec@));
    let hub = &sec.hubs[sec.active_hub_index];
    assert(hub@ == sec@.hubs[sec@.active_hub_index as int]);
    let name = to_uppercase(sec.name.as_str());
    let a_cmd = if hub.mode == CommandHubMode::Command { "active" } else { "" };
    let a_dir = if hub.mode == CommandHubMode::Directory { "active" } else { "" };
    let a_act = if hub.mode == CommandHubMode::Activity { "active" } else { "" };
    push_sector_card_html(
        out,
        class,
        i as u64,
        sec.color.as_str(),
        a_cmd,
        a_dir,
        a_act,
        name.as_str(),
        &remote,
        &portal,
        sec.icon.as_str(),
        sec.hubs.len() as u64,
        sec.participants.len() as u64,
    );
}

/// Draws the global overview.
pub fn render_global_overview(state: &TosState, ctx: &GlobalRenderContext) -> (html: String)
    requires
        overview_drawable(state@),
    ensures
        html@ == global_page(state@, *ctx),
{
    let mut out: Vec<char> = Vec::new();
    push_global_header_html(&mut out, ctx.time.as_str(), ctx.stardate.as_str());
    push_global_grid_html(&mut out, ctx.render_mode.as_str());
    let ghost head = out@;
    let ghost ss = state@.sectors;
    let mut k: usize = 0;
    while k < state.sectors.len()
        invariant
            0 <= k <= state.sectors@.len(),
            ss == state@.sectors,
            overview_drawable(state@),
            out@ == head + sector_cards(ss, k as nat),
        decreases state.sectors@.len() - k,
    {
        assert(ss[k as int] == state.sectors@[k as int]@);
        assert(ss[k as int].active_hub_index < ss[k as int].hubs.len());
        push_sector_card(&mut out, &state.sectors[k], k);
        k = k + 1;
        assert(out@ =~= head + sector_cards(ss, k as nat));
    }
    push_str(&mut out, CREATE_CARD);
    push_str(&mut out, REMOTE_CARD);
    push_str(&mut out, GRID_CLOSE);
    assert(out@ =~= global_page(state@, *ctx));
    string_of(&out)
}

} // verus!
