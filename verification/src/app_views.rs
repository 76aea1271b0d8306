//! The surfaces of a focused application: a local application (a shell's
//! output, or the mock surface of another application, with any portal
//! approval request), a remote desktop (its latest frame, or a placeholder,
//! under a bezel with the link's latency and quality), and the detail and
//! buffer inspectors (process resources; a hex dump of process memory).
//! What the compositor state does not hold comes from the caller.
use vstd::prelude::*;
use crate::collaboration::Participant;
use crate::dispatch::{joined_words, push_joined};
use crate::hub_render::concat_all;
use crate::ids::{id_to_string, uuid_text};
use crate::model::{string_views, AppView, Sector, SectorView, StateView, TosState, Viewport};
use crate::procstat::ProcessStats;
use crate::remote::{base64_standard, ConnectionType, RemoteManager};
use crate::text::{chars_of, contains, contains_seq, dec, push_chars, push_str, push_u64, slice_vec, string_of,
    to_uppercase, uppercased};

verus! {

/// What an application surface shows besides the compositor state.
pub struct AppRenderContext {
    /// The render mode, as `{:?}` names it
    pub render_mode: String,
    /// What loaded modules draw over the application
    pub module_overlays: Vec<String>,
    /// The sector whose portal awaits approval, while one does
    pub portal_request: Option<String>,
    /// The time shown on the surface
    pub time: String,
    /// The compositor's version
    pub version: String,
    /// The application's process statistics, where they could be read
    pub stats: Option<ProcessStats>,
}

pub const PORTAL_APPROVAL_0: &'static str = "<div class=\"portal-approval-overlay\">\n                    <div class=\"approval-dialog\">\n                        <div class=\"approval-title\">TACTICAL APPROVAL REQUIRED</div>\n                        <div class=\"approval-message\">\n                            Web portal access requested for sector:<br>\n                            <strong>";
pub const PORTAL_APPROVAL_1: &'static str = "</strong>\n                        </div>\n                        <div class=\"approval-warning\">\n                            \u{26a0}\u{fe0f} This will expose the sector to external web access.<br>\n                            Tactile approval required on host machine.\n                        </div>\n                        <div class=\"approval-actions\">\n                            <button class=\"approval-btn approve\" onclick=\"window.ipc.postMessage('approve_portal')\">\n                                \u{2713} APPROVE\n                            </button>\n                            <button class=\"approval-btn deny\" onclick=\"window.ipc.postMessage('deny_portal')\">\n                                \u{2717} DENY\n                            </button>\n                        </div>\n                    </div>\n                </div>";
pub const APP_CONTAINER_0: &'static str = "<div class=\"application-container render-";
pub const APP_CONTAINER_1: &'static str = "\">\n                ";
pub const APP_CONTAINER_2: &'static str = "\n                <div class=\"application-surface\" onclick=\"window.ipc.postMessage('zoom_in')\">\n                    ";
pub const APP_CONTAINER_3: &'static str = "\n                </div>\n            </div>";
pub const TERMINAL_CONTENT_0: &'static str = "<pre class=\"terminal-content\">";
pub const TERMINAL_CONTENT_1: &'static str = "</pre>";
pub const APP_MOCK_0: &'static str = "<div class=\"app-mock-content\">\n                        <div class=\"app-surface-header\">\n                            <div class=\"status-indicator active\"></div>\n                            <div class=\"app-id-badge\">";
pub const APP_MOCK_1: &'static str = " // SEQ: ";
pub const APP_MOCK_2: &'static str = "</div>\n                            <div class=\"system-time\">";
pub const APP_MOCK_3: &'static str = "</div>\n                        </div>\n                        <div class=\"app-surface-body\">\n                            <div class=\"data-stream\">\n                                <div class=\"data-stream-title\">DATAFEED // REAL-TIME ANALYTICS</div>\n                                ";
pub const APP_MOCK_4: &'static str = "\n                                <div class=\"mock-data-entry\">INITIALIZING SUBSYSTEMS...</div>\n                                <div class=\"mock-data-entry\">ATTACHING TO KERNEL V";
pub const APP_MOCK_5: &'static str = "...</div>\n                                <div class=\"mock-data-entry\">ESTABLISHING DATA BUFFER...</div>\n                                <div class=\"mock-data-block\">\n                                    <div class=\"graph-bar\" style=\"width: 85%\"></div>\n                                    <div class=\"graph-bar\" style=\"width: 62%\"></div>\n                                    <div class=\"graph-bar\" style=\"width: 94%\"></div>\n                                </div>\n                            </div>\n                        </div>\n                        <div class=\"app-surface-footer\">\n                            <div class=\"footer-stat\">ID: ";
pub const APP_MOCK_6: &'static str = "</div>\n                            <div class=\"footer-stat\">VRAM: 128MB</div>\n                            <div class=\"footer-stat\">LOAD: ";
pub const APP_MOCK_7: &'static str = "</div>\n                            <div class=\"bezel-btn mini\" onclick=\"window.ipc.postMessage('tactical_reset')\">RECALIBRATE</div>\n                        </div>\n                    </div>";
pub const REMOTE_PARTICIPANT_0: &'static str = "<div class=\"participant-avatar\" style=\"background: ";
pub const REMOTE_PARTICIPANT_1: &'static str = ";\" title=\"";
pub const REMOTE_PARTICIPANT_2: &'static str = " (";
pub const REMOTE_PARTICIPANT_3: &'static str = ")\"></div>";
pub const FRAME_BUFFER_0: &'static str = "<div class=\"remote-frame-buffer\">\n                    <img src=\"data:image/png;base64,";
pub const FRAME_BUFFER_1: &'static str = "\" style=\"width: 100%; height: 100%; object-fit: contain;\" />\n                </div>";
pub const DESKTOP_PLACEHOLDER_0: &'static str = "<div class=\"remote-desktop-placeholder\">\n                    <div class=\"status-indicator ripple\"></div>\n                    <div class=\"link-label\">RECEIVING STREAM: ";
pub const DESKTOP_PLACEHOLDER_1: &'static str = "</div>\n                    <div class=\"link-sub\">PROTOCOL: ";
pub const DESKTOP_PLACEHOLDER_2: &'static str = " // SYNC-ACTIVE</div>\n                    \n                    <div class=\"desktop-mock-ui\">\n                        <div class=\"mock-window\"></div>\n                        <div class=\"mock-window\"></div>\n                    </div>\n                </div>";
pub const REMOTE_DESKTOP_0: &'static str = "<div class=\"application-container remote-desktop-view render-";
pub const REMOTE_DESKTOP_1: &'static str = "\">\n                <div class=\"tactical-bezel ";
pub const REMOTE_DESKTOP_2: &'static str = "\">\n                    <div class=\"bezel-top\">\n                        <div class=\"bezel-title\">";
pub const REMOTE_DESKTOP_3: &'static str = " // ";
pub const REMOTE_DESKTOP_4: &'static str = " // ";
pub const REMOTE_DESKTOP_5: &'static str = " // ";
pub const REMOTE_DESKTOP_6: &'static str = "MS // Q:";
pub const REMOTE_DESKTOP_7: &'static str = "%</div>\n                        <div class=\"bezel-participants\">";
pub const REMOTE_DESKTOP_8: &'static str = "</div>\n                        <div class=\"bezel-handle\" onclick=\"window.ipc.postMessage('toggle_bezel')\">\n                            <div class=\"chevron\"></div>\n                        </div>\n                    </div>\n                    <div class=\"bezel-expanded-content\">\n                        <div class=\"bezel-group\">\n                            <div class=\"bezel-btn\" onclick=\"window.ipc.postMessage('zoom_out')\">ZOOM OUT</div>\n                            <div class=\"bezel-btn\" onclick=\"window.ipc.postMessage('split_viewport')\">SPLIT VIEW</div>\n                        </div>\n                        <div class=\"bezel-group sliders\">\n                             <div class=\"action-slider\">\n                                <span>STREAM QUALITY</span>\n                                <input type=\"range\" min=\"1\" max=\"100\" value=\"";
pub const REMOTE_DESKTOP_9: &'static str = "\" onchange=\"window.ipc.postMessage('set_stream_quality:' + this.value)\">\n                             </div>\n                             <div class=\"action-slider\">\n                                <span>LATENCY MITIGATION</span>\n                                <input type=\"range\" min=\"1\" max=\"100\" value=\"40\">\n                             </div>\n                        </div>\n                        <div class=\"bezel-group\">\n                            <div class=\"bezel-btn\" onclick=\"window.ipc.postMessage('invite_participant:Operator')\">+ INVITE OPERATOR</div>\n                            <div class=\"bezel-btn\" onclick=\"window.ipc.postMessage('invite_participant:Viewer')\">+ INVITE VIEWER</div>\n                            <div class=\"bezel-btn danger\" onclick=\"window.ipc.postMessage('terminate_remote_link')\">TERMINATE LINK</div>\n                        </div>\n                    </div>\n                </div>\n                <div class=\"application-surface remote-stream-surface\">\n                    ";
pub const REMOTE_DESKTOP_10: &'static str = "\n                </div>\n            </div>";
pub const DETAIL_INSPECTOR_0: &'static str = "<div class=\"inspector-container detail-inspector render-";
pub const DETAIL_INSPECTOR_1: &'static str = "\">\n                <div class=\"inspector-header\">\n                    <div class=\"header-main\">NODE INSPECTOR // LEVEL 4</div>\n                    <div class=\"header-sub\">";
pub const DETAIL_INSPECTOR_2: &'static str = " // ";
pub const DETAIL_INSPECTOR_3: &'static str = "</div>\n                </div>\n                \n                <div class=\"inspector-grid\">\n                    <div class=\"inspector-section\">\n                        <div class=\"section-title\">SYSTEM RESOURCES</div>\n                        <div class=\"section-body\">\n                            <div class=\"stat-row\"><span class=\"label\">PID</span> <span class=\"val\">";
pub const DETAIL_INSPECTOR_4: &'static str = "</span></div>\n                            <div class=\"stat-row\"><span class=\"label\">CPU USAGE</span> <span class=\"val\">";
pub const DETAIL_INSPECTOR_5: &'static str = "</span></div>\n                            <div class=\"stat-row\"><span class=\"label\">MEM RESIDENT</span> <span class=\"val\">";
pub const DETAIL_INSPECTOR_6: &'static str = "</span></div>\n                            <div class=\"stat-row\"><span class=\"label\">UPTIME</span> <span class=\"val\">";
pub const DETAIL_INSPECTOR_7: &'static str = "</span></div>\n                        </div>\n                    </div>\n\n                    <div class=\"inspector-section\">\n                        <div class=\"section-title\">SECURITY & SCOPE</div>\n                        <div class=\"section-body\">\n                            <div class=\"stat-row\"><span class=\"label\">PERMISSIONS</span> <span class=\"val\">";
pub const DETAIL_INSPECTOR_8: &'static str = "</span></div>\n                            <div class=\"stat-row\"><span class=\"label\">SANDBOX</span> <span class=\"val\">ACTIVE</span></div>\n                            <div class=\"stat-row\"><span class=\"label\">DECORATION</span> <span class=\"val\">";
pub const DETAIL_INSPECTOR_9: &'static str = "</span></div>\n                            <div class=\"bezel-btn mini\" onclick=\"window.ipc.postMessage('zoom_to:BufferInspector')\">MEMORY DUMP</div>\n                        </div>\n                    </div>\n\n                    <div class=\"inspector-section full-width\">\n                        <div class=\"section-title\">COLLABORATION GRAPH</div>\n                        <div class=\"section-body collab-list\">\n                            <div class=\"stat-row\"><span class=\"label\">PARTICIPANTS</span> <span class=\"val\">";
pub const DETAIL_INSPECTOR_10: &'static str = "</span></div>\n                            <div class=\"stat-row\"><span class=\"label\">FOLLOW MODE</span> <span class=\"val\">OFF</span></div>\n                        </div>\n                    </div>\n                </div>\n\n                <div class=\"inspector-footer\">\n                    <button class=\"bezel-btn\" onclick=\"window.ipc.postMessage('zoom_out')\">RETURN TO OVERVIEW</button>\n                    <button class=\"bezel-btn danger\" onclick=\"window.ipc.postMessage('kill_app')\">TERMINATE NODE</button>\n                </div>\n            </div>";
pub const BUFFER_DENIED_0: &'static str = "<div class=\"inspector-container buffer-inspector render-";
pub const BUFFER_DENIED_1: &'static str = " access-denied\">\n                <div class=\"inspector-header\">BUFFER HEX DUMP // LEVEL 5</div>\n                <div class=\"access-denied-message\">\n                    <div class=\"lock-icon\">\u{1f512}</div>\n                    <div class=\"denied-title\">ACCESS DENIED</div>\n                    <div class=\"denied-reason\">DEEP INSPECTION PRIVILEGE REQUIRED</div>\n                    <div class=\"denied-instruction\">Execute 'enable-deep-inspection' to unlock</div>\n                </div>\n                <div class=\"inspector-footer\" onclick=\"window.ipc.postMessage('zoom_out')\">BACK</div>\n            </div>";
pub const BUFFER_INSPECTOR_0: &'static str = "<div class=\"inspector-container buffer-inspector render-";
pub const BUFFER_INSPECTOR_1: &'static str = "\">\n            <div class=\"inspector-header\">BUFFER HEX DUMP // LEVEL 5</div>\n            <div class=\"buffer-hex\">\n";
pub const BUFFER_INSPECTOR_2: &'static str = "\n            </div>\n            <div class=\"inspector-footer\" onclick=\"window.ipc.postMessage('zoom_out')\">BACK</div>\n        </div>";
/// The request to approve a sector's web portal.
pub open spec fn portal_approval_html(sector: Seq<char>) -> Seq<char> {
    PORTAL_APPROVAL_0@
        + sector
        + PORTAL_APPROVAL_1@
}

/// The surface of a focused application.
pub open spec fn app_container_html(mode: Seq<char>, portal_approval: Seq<char>, app_content: Seq<char>) -> Seq<char> {
    APP_CONTAINER_0@
        + mode
        + APP_CONTAINER_1@
        + portal_approval
        + APP_CONTAINER_2@
        + app_content
        + APP_CONTAINER_3@
}

/// The output of a shell application.
pub open spec fn terminal_content_html(lines: Seq<char>, modules: Seq<char>) -> Seq<char> {
    TERMINAL_CONTENT_0@
        + lines
        + TERMINAL_CONTENT_1@
        + modules
}

/// The surface of another application.
pub open spec fn app_mock_html(title: Seq<char>, uuid_short: Seq<char>, time: Seq<char>, module_content: Seq<char>, version: Seq<char>, pid: Seq<char>, mem: Seq<char>) -> Seq<char> {
    APP_MOCK_0@
        + title
        + APP_MOCK_1@
        + uuid_short
        + APP_MOCK_2@
        + time
        + APP_MOCK_3@
        + module_content
        + APP_MOCK_4@
        + version
        + APP_MOCK_5@
        + pid
        + APP_MOCK_6@
        + mem
        + APP_MOCK_7@
}

/// A participant of a remote desktop.
pub open spec fn remote_participant_html(color: Seq<char>, name: Seq<char>, role: Seq<char>) -> Seq<char> {
    REMOTE_PARTICIPANT_0@
        + color
        + REMOTE_PARTICIPANT_1@
        + name
        + REMOTE_PARTICIPANT_2@
        + role
        + REMOTE_PARTICIPANT_3@
}

/// The latest frame of a remote desktop.
pub open spec fn frame_buffer_html(data: Seq<char>) -> Seq<char> {
    FRAME_BUFFER_0@
        + data
        + FRAME_BUFFER_1@
}

/// A remote desktop waiting for frames.
pub open spec fn desktop_placeholder_html(host: Seq<char>, protocol: Seq<char>) -> Seq<char> {
    DESKTOP_PLACEHOLDER_0@
        + host
        + DESKTOP_PLACEHOLDER_1@
        + protocol
        + DESKTOP_PLACEHOLDER_2@
}

/// The remote desktop view.
pub open spec fn remote_desktop_html(mode: Seq<char>, bezel_class: Seq<char>, title: Seq<char>, host: Seq<char>, protocol: Seq<char>, latency: nat, quality: nat, participants_html: Seq<char>, stream_content: Seq<char>) -> Seq<char> {
    REMOTE_DESKTOP_0@
        + mode
        + REMOTE_DESKTOP_1@
        + bezel_class
        + REMOTE_DESKTOP_2@
        + title
        + REMOTE_DESKTOP_3@
        + host
        + REMOTE_DESKTOP_4@
        + protocol
        + REMOTE_DESKTOP_5@
        + dec(latency)
        + REMOTE_DESKTOP_6@
        + dec(quality)
        + REMOTE_DESKTOP_7@
        + participants_html
        + REMOTE_DESKTOP_8@
        + dec(quality)
        + REMOTE_DESKTOP_9@
        + stream_content
        + REMOTE_DESKTOP_10@
}

/// The detail inspector.
pub open spec fn detail_inspector_html(mode: Seq<char>, title: Seq<char>, id: Seq<char>, pid: Seq<char>, cpu: Seq<char>, mem: Seq<char>, uptime: Seq<char>, perms: Seq<char>, deco: Seq<char>, participants: nat) -> Seq<char> {
    DETAIL_INSPECTOR_0@
        + mode
        + DETAIL_INSPECTOR_1@
        + title
        + DETAIL_INSPECTOR_2@
        + id
        + DETAIL_INSPECTOR_3@
        + pid
        + DETAIL_INSPECTOR_4@
        + cpu
        + DETAIL_INSPECTOR_5@
        + mem
        + DETAIL_INSPECTOR_6@
        + uptime
        + DETAIL_INSPECTOR_7@
        + perms
        + DETAIL_INSPECTOR_8@
        + deco
        + DETAIL_INSPECTOR_9@
        + dec(participants)
        + DETAIL_INSPECTOR_10@
}

/// The buffer inspector without the deep-inspection privilege.
pub open spec fn buffer_denied_html(mode: Seq<char>) -> Seq<char> {
    BUFFER_DENIED_0@
        + mode
        + BUFFER_DENIED_1@
}

/// The buffer inspector.
pub open spec fn buffer_inspector_html(mode: Seq<char>, hex_dump: Seq<char>) -> Seq<char> {
    BUFFER_INSPECTOR_0@
        + mode
        + BUFFER_INSPECTOR_1@
        + hex_dump
        + BUFFER_INSPECTOR_2@
}

/// The viewport focuses an application that exists.
pub open spec fn focus_ok(s: StateView, vp: Viewport) -> bool {
    &&& vp.sector_index < s.sectors.len()
    &&& vp.hub_index < s.sectors[vp.sector_index as int].hubs.len()
    &&& 0 <= crate::bezel::focus_index(vp) < s.sectors[vp.sector_index as int].hubs[vp.hub_index as int].applications.len()
}

/// Whether an application is a shell: its class names a shell or terminal.
pub open spec fn is_shell(app: AppView) -> bool {
    contains_seq(app.app_class, "Shell"@) || contains_seq(app.app_class, "terminal"@)
}

/// The process id shown on the surface.
pub open spec fn surface_pid(app: AppView) -> Seq<char> {
    match app.pid {
        Some(p) => dec(p as nat),
        None => "TOS-SYS"@,
    }
}

/// The memory load shown on the surface.
pub open spec fn surface_mem(app: AppView, stats: Option<ProcessStats>) -> Seq<char> {
    match (app.pid, stats) {
        (Some(_), Some(st)) => dec((st.memory_bytes / 1024 / 1024) as nat) + "MB"@,
        _ => "---MB"@,
    }
}

/// The surface of the focused application.
pub open spec fn app_page(s: StateView, vp: Viewport, ctx: AppRenderContext) -> Seq<char> {
    let sec = s.sectors[vp.sector_index as int];
    let hub = sec.hubs[vp.hub_index as int];
    let app = hub.applications[crate::bezel::focus_index(vp)];
    let modules = concat_all(ctx.module_overlays@, ctx.module_overlays@.len());
    app_container_html(
        ctx.render_mode@,
        match ctx.portal_request {
            Some(n) => portal_approval_html(n@),
            None => Seq::empty(),
        },
        if is_shell(app) {
            terminal_content_html(joined_words(hub.terminal_output, "\n"@), modules)
        } else {
            app_mock_html(
                uppercased(app.title),
                uuid_text(app.id).take(8),
                ctx.time@,
                modules,
                ctx.version@,
                surface_pid(app),
                surface_mem(app, ctx.stats),
            )
        },
    )
}

/// The protocol of a link, as the remote bezel names it.
pub open spec fn protocol_name(t: ConnectionType) -> Seq<char> {
    match t {
        ConnectionType::Local => "LOCAL"@,
        ConnectionType::TOSNative => "TOS-NATIVE"@,
        ConnectionType::SSH => "SSH-PTY"@,
        ConnectionType::HTTP => "HTTP-FALLBACK"@,
    }
}

pub open spec fn remote_participants(ps: Seq<Participant>, n: nat) -> Seq<char>
    decreases n,
{
    if n == 0 {
        Seq::empty()
    } else {
        remote_participants(ps, (n - 1) as nat) + remote_participant_html(
            ps[n - 1].color@,
            ps[n - 1].name@,
            ps[n - 1].role.display(),
        )
    }
}

/// The stream of a remote sector: its latest frame, or a placeholder.
pub open spec fn stream_content(sec: SectorView, remote: RemoteManager) -> Seq<char> {
    let conns = remote.active_connections@;
    if conns.dom().contains(sec.id) && conns[sec.id].frame_buffer is Some {
        frame_buffer_html(base64_standard(conns[sec.id].frame_buffer->0.data@))
    } else {
        desktop_placeholder_html(sec.host, protocol_name(sec.connection_type))
    }
}

/// The latency and quality of the link to a sector (zero when unlinked).
pub open spec fn link_figures(sec: SectorView, remote: RemoteManager) -> (u64, u8) {
    let conns = remote.active_connections@;
    if conns.dom().contains(sec.id) {
        (conns[sec.id].latency_ms, conns[sec.id].stream_quality)
    } else {
        (0, 0)
    }
}

/// The remote desktop of the focused application's sector.
pub open spec fn remote_page(s: StateView, vp: Viewport, remote: RemoteManager, mode: Seq<char>) -> Seq<char> {
    let sec = s.sectors[vp.sector_index as int];
    let app = sec.hubs[vp.hub_index as int].applications[crate::bezel::focus_index(vp)];
    let (latency, quality) = link_figures(sec, remote);
    remote_desktop_html(
        mode,
        if vp.bezel_expanded { "expanded"@ } else { "collapsed"@ },
        uppercased(app.title),
        sec.host,
        protocol_name(sec.connection_type),
        latency as nat,
        quality as nat,
        remote_participants(sec.participants, sec.participants.len()),
        stream_content(sec, remote),
    )
}

/// Frames small enough to encode.
pub open spec fn frames_encodable(remote: RemoteManager) -> bool {
    forall|id: u128| #[trigger] remote.active_connections@.dom().contains(id)
        && remote.active_connections@[id].frame_buffer is Some ==> (remote.active_connections@[id].frame_buffer->0.data@.len()
            / 3) * 4 + 4 <= usize::MAX
}


/// Statistics the detail inspector shows of a process.
pub struct InspectorStats {
    /// Processor usage, in tenths of a percent
    pub cpu_tenths: u32,
    pub memory_bytes: u64,
    pub uptime_seconds: u64,
    pub uid: u32,
}

/// What the inspectors show besides the compositor state.
pub struct InspectorContext {
    /// The render mode, as `{:?}` names it
    pub render_mode: String,
    /// The focused process's statistics, where they could be read
    pub stats: Option<InspectorStats>,
    /// The application's decoration policy, as `{:?}` names it
    pub decoration: String,
    /// Whether deep inspection is allowed
    pub deep_inspection_active: bool,
    /// A sample of the focused process's memory
    pub buffer_sample: Vec<u8>,
}

/// `n` in decimal, padded with zeros to at least `w` digits.
pub open spec fn padded(n: nat, w: nat) -> Seq<char> {
    let d = dec(n);
    if d.len() < w {
        Seq::new((w - d.len()) as nat, |i: int| '0') + d
    } else {
        d
    }
}

/// A duration as hours, minutes and seconds.
pub open spec fn hms(t: nat) -> Seq<char> {
    padded(t / 3600, 2) + ":"@ + padded((t % 3600) / 60, 2) + ":"@ + padded(t % 60, 2)
}

/// Tenths printed with one decimal.
pub open spec fn one_tenth(t: nat) -> Seq<char> {
    crate::hub_render::tenths_text(t)
}

/// The texts of the resources section: process id, processor, memory,
/// uptime and permissions.
pub open spec fn inspector_texts(app: AppView, stats: Option<InspectorStats>) -> (Seq<char>, Seq<char>, Seq<char>, Seq<char>, Seq<char>) {
    match (app.pid, stats) {
        (Some(p), Some(st)) => (
            dec(p as nat),
            one_tenth(st.cpu_tenths as nat) + "%"@,
            dec((st.memory_bytes / 1024 / 1024) as nat) + " MB"@,
            hms(st.uptime_seconds as nat),
            "UID: "@ + padded(st.uid as nat, 4),
        ),
        (Some(p), None) => (dec(p as nat), "0.0%"@, "--- MB"@, "00:00:00"@, "----"@),
        _ => ("N/A"@, "0.0%"@, "--- MB"@, "00:00:00"@, "----"@),
    }
}

/// The detail inspector of the focused application.
pub open spec fn detail_page(s: StateView, vp: Viewport, ctx: InspectorContext) -> Seq<char> {
    let sec = s.sectors[vp.sector_index as int];
    let app = sec.hubs[vp.hub_index as int].applications[crate::bezel::focus_index(vp)];
    let (pid, cpu, mem, up, perms) = inspector_texts(app, ctx.stats);
    detail_inspector_html(
        ctx.render_mode@,
        uppercased(app.title),
        uuid_text(app.id).take(8),
        pid,
        cpu,
        mem,
        up,
        perms,
        ctx.decoration@,
        sec.participants.len(),
    )
}

/// The UTF-8 encoding of a character.
pub open spec fn utf8_char(c: char) -> Seq<u8> {
    let v = c as u32;
    if v < 0x80 {
        seq![v as u8]
    } else if v < 0x800 {
        seq![(0xC0 + v / 64) as u8, (0x80 + v % 64) as u8]
    } else if v < 0x10000 {
        seq![(0xE0 + v / 4096) as u8, (0x80 + (v / 64) % 64) as u8, (0x80 + v % 64) as u8]
    } else {
        seq![(0xF0 + v / 262144) as u8, (0x80 + (v / 4096) % 64) as u8, (0x80 + (v / 64) % 64) as u8, (0x80 + v % 64) as u8]
    }
}

/// The UTF-8 encoding of a text (`str::as_bytes`).
pub open spec fn utf8(s: Seq<char>) -> Seq<u8>
    decreases s.len(),
{
    if s.len() == 0 {
        Seq::empty()
    } else {
        utf8(s.drop_last()) + utf8_char(s.last())
    }
}

/// `b` cut or padded with zero bytes to `n` bytes.
pub open spec fn resized(b: Seq<u8>, n: nat) -> Seq<u8> {
    if b.len() >= n {
        b.take(n as int)
    } else {
        b + Seq::new((n - b.len()) as nat, |i: int| 0u8)
    }
}

/// The buffer shown for an application: its process's sample, or a mock
/// naming it.
pub open spec fn shown_buffer(app: AppView, sample: Seq<u8>) -> Seq<u8> {
    match app.pid {
        Some(_) => sample,
        None => resized(utf8("MOCK BUFFER FOR "@ + app.title), 512),
    }
}

pub open spec fn hex_byte(b: u8) -> Seq<char> {
    seq![crate::ids::hex_char((b / 16) as nat), crate::ids::hex_char((b % 16) as nat)]
}

/// Four lower-case hexadecimal digits.
pub open spec fn hex4(n: nat) -> Seq<char> {
    seq![
        crate::ids::hex_char((n / 4096) % 16),
        crate::ids::hex_char((n / 256) % 16),
        crate::ids::hex_char((n / 16) % 16),
        crate::ids::hex_char(n % 16)
    ]
}

/// Each byte in hexadecimal followed by a space.
pub open spec fn hex_bytes(c: Seq<u8>) -> Seq<char>
    decreases c.len(),
{
    if c.len() == 0 {
        Seq::empty()
    } else {
        hex_bytes(c.drop_last()) + hex_byte(c.last()) + " "@
    }
}

/// Printable bytes as characters, others as dots.
pub open spec fn ascii_of(c: Seq<u8>) -> Seq<char>
    decreases c.len(),
{
    if c.len() == 0 {
        Seq::empty()
    } else {
        ascii_of(c.drop_last()).push(if 32 <= c.last() <= 126 { c.last() as char } else { '.' })
    }
}

/// `s` padded with spaces to at least `w` characters.
pub open spec fn pad_to(s: Seq<char>, w: nat) -> Seq<char> {
    if s.len() < w {
        s + Seq::new((w - s.len()) as nat, |i: int| ' ')
    } else {
        s
    }
}

/// Bytes `16 i` to `16 i + 16` of `b` (fewer at the end).
pub open spec fn chunk(b: Seq<u8>, i: nat) -> Seq<u8> {
    b.subrange((16 * i) as int, if 16 * i + 16 <= b.len() { (16 * i + 16) as int } else { b.len() as int })
}

/// A line of the dump: offset, bytes and their characters.
pub open spec fn dump_line(c: Seq<u8>, offset: nat) -> Seq<char> {
    hex4(offset) + ": "@ + pad_to(hex_bytes(c), 48) + "  "@ + ascii_of(c) + "\n"@
}

/// The first `k` lines of the dump of `b`.
pub open spec fn dump_lines(b: Seq<u8>, k: nat) -> Seq<char>
    decreases k,
{
    if k == 0 {
        Seq::empty()
    } else {
        dump_lines(b, (k - 1) as nat) + dump_line(chunk(b, (k - 1) as nat), 16 * (k - 1) as nat)
    }
}

/// The hex dump of the first 256 bytes of `b`, sixteen to a line.
pub open spec fn hex_dump(b: Seq<u8>) -> Seq<char> {
    let t = if b.len() > 256 { b.take(256) } else { b };
    dump_lines(t, (t.len() + 15) / 16)
}

/// The buffer inspector of the focused application: the dump, or the
/// refusal without the deep-inspection privilege.
pub open spec fn buffer_page(s: StateView, vp: Viewport, ctx: InspectorContext) -> Seq<char> {
    let app = s.sectors[vp.sector_index as int].hubs[vp.hub_index as int].applications[crate::bezel::focus_index(vp)];
    if !ctx.deep_inspection_active {
        buffer_denied_html(ctx.render_mode@)
    } else {
        buffer_inspector_html(ctx.render_mode@, hex_dump(shown_buffer(app, ctx.buffer_sample@)))
    }
}

fn push_portal_approval_html(out: &mut Vec<char>, sector: &str)
    ensures
        final(out)@ == old(out)@ + portal_approval_html(sector@),
{
    let ghost start = out@;
    push_str(out, PORTAL_APPROVAL_0);
    push_str(out, sector);
    push_str(out, PORTAL_APPROVAL_1);
    assert(out@ =~= start + portal_approval_html(sector@));
}

fn push_app_container_html(out: &mut Vec<char>, mode: &str, portal_approval: &Vec<char>, app_content: &Vec<char>)
    ensures
        final(out)@ == old(out)@ + app_container_html(mode@, portal_approval@, app_content@),
{
    let ghost start = out@;
    push_str(out, APP_CONTAINER_0);
    push_str(out, mode);
    push_str(out, APP_CONTAINER_1);
    push_chars(out, portal_approval);
    push_str(out, APP_CONTAINER_2);
    push_chars(out, app_content);
    push_str(out, APP_CONTAINER_3);
    assert(out@ =~= start + app_container_html(mode@, portal_approval@, app_content@));
}

fn push_terminal_content_html(out: &mut Vec<char>, lines: &Vec<char>, modules: &Vec<char>)
    ensures
        final(out)@ == old(out)@ + terminal_content_html(lines@, modules@),
{
    let ghost start = out@;
    push_str(out, TERMINAL_CONTENT_0);
    push_chars(out, lines);
    push_str(out, TERMINAL_CONTENT_1);
    push_chars(out, modules);
    assert(out@ =~= start + terminal_content_html(lines@, modules@));
}

fn push_app_mock_html(out: &mut Vec<char>, title: &str, uuid_short: &Vec<char>, time: &str, module_content: &Vec<char>, version: &str, pid: &Vec<char>, mem: &Vec<char>)
    ensures
        final(out)@ == old(out)@ + app_mock_html(title@, uuid_short@, time@, module_content@, version@, pid@, mem@),
{
    let ghost start = out@;
    push_str(out, APP_MOCK_0);
    push_str(out, title);
    push_str(out, APP_MOCK_1);
    push_chars(out, uuid_short);
    push_str(out, APP_MOCK_2);
    push_str(out, time);
    push_str(out, APP_MOCK_3);
    push_chars(out, module_content);
    push_str(out, APP_MOCK_4);
    push_str(out, version);
    push_str(out, APP_MOCK_5);
    push_chars(out, pid);
    push_str(out, APP_MOCK_6);
    push_chars(out, mem);
    push_str(out, APP_MOCK_7);
    assert(out@ =~= start + app_mock_html(title@, uuid_short@, time@, module_content@, version@, pid@, mem@));
}

fn push_remote_participant_html(out: &mut Vec<char>, color: &str, name: &str, role: &str)
    ensures
        final(out)@ == old(out)@ + remote_participant_html(color@, name@, role@),
{
    let ghost start = out@;
    push_str(out, REMOTE_PARTICIPANT_0);
    push_str(out, color);
    push_str(out, REMOTE_PARTICIPANT_1);
    push_str(out, name);
    push_str(out, REMOTE_PARTICIPANT_2);
    push_str(out, role);
    push_str(out, REMOTE_PARTICIPANT_3);
    assert(out@ =~= start + remote_participant_html(color@, name@, role@));
}

fn push_frame_buffer_html(out: &mut Vec<char>, data: &str)
    ensures
        final(out)@ == old(out)@ + frame_buffer_html(data@),
{
    let ghost start = out@;
    push_str(out, FRAME_BUFFER_0);
    push_str(out, data);
    push_str(out, FRAME_BUFFER_1);
    assert(out@ =~= start + frame_buffer_html(data@));
}

fn push_desktop_placeholder_html(out: &mut Vec<char>, host: &str, protocol: &str)
    ensures
        final(out)@ == old(out)@ + desktop_placeholder_html(host@, protocol@),
{
    let ghost start = out@;
    push_str(out, DESKTOP_PLACEHOLDER_0);
    push_str(out, host);
    push_str(out, DESKTOP_PLACEHOLDER_1);
    push_str(out, protocol);
    push_str(out, DESKTOP_PLACEHOLDER_2);
    assert(out@ =~= start + desktop_placeholder_html(host@, protocol@));
}

fn push_remote_desktop_html(out: &mut Vec<char>, mode: &str, bezel_class: &str, title: &str, host: &str, protocol: &str, latency: u64, quality: u64, participants_html: &Vec<char>, stream_content: &Vec<char>)
    ensures
        final(out)@ == old(out)@ + remote_desktop_html(mode@, bezel_class@, title@, host@, protocol@, latency as nat, quality as nat, participants_html@, stream_content@),
{
    let ghost start = out@;
    push_str(out, REMOTE_DESKTOP_0);
    push_str(out, mode);
    push_str(out, REMOTE_DESKTOP_1);
    push_str(out, bezel_class);
    push_str(out, REMOTE_DESKTOP_2);
    push_str(out, title);
    push_str(out, REMOTE_DESKTOP_3);
    push_str(out, host);
    push_str(out, REMOTE_DESKTOP_4);
    push_str(out, protocol);
    push_str(out, REMOTE_DESKTOP_5);
    push_u64(out, latency);
    push_str(out, REMOTE_DESKTOP_6);
    push_u64(out, quality);
    push_str(out, REMOTE_DESKTOP_7);
    push_chars(out, participants_html);
    push_str(out, REMOTE_DESKTOP_8);
    push_u64(out, quality);
    push_str(out, REMOTE_DESKTOP_9);
    push_chars(out, stream_content);
    push_str(out, REMOTE_DESKTOP_10);
    assert(out@ =~= start + remote_desktop_html(mode@, bezel_class@, title@, host@, protocol@, latency as nat, quality as nat, participants_html@, stream_content@));
}

fn push_detail_inspector_html(out: &mut Vec<char>, mode: &str, title: &str, id: &Vec<char>, pid: &Vec<char>, cpu: &Vec<char>, mem: &Vec<char>, uptime: &Vec<char>, perms: &Vec<char>, deco: &str, participants: u64)
    ensures
        final(out)@ == old(out)@ + detail_inspector_html(mode@, title@, id@, pid@, cpu@, mem@, uptime@, perms@, deco@, participants as nat),
{
    let ghost start = out@;
    push_str(out, DETAIL_INSPECTOR_0);
    push_str(out, mode);
    push_str(out, DETAIL_INSPECTOR_1);
    push_str(out, title);
    push_str(out, DETAIL_INSPECTOR_2);
    push_chars(out, id);
    push_str(out, DETAIL_INSPECTOR_3);
    push_chars(out, pid);
    push_str(out, DETAIL_INSPECTOR_4);
    push_chars(out, cpu);
    push_str(out, DETAIL_INSPECTOR_5);
    push_chars(out, mem);
    push_str(out, DETAIL_INSPECTOR_6);
    push_chars(out, uptime);
    push_str(out, DETAIL_INSPECTOR_7);
    push_chars(out, perms);
    push_str(out, DETAIL_INSPECTOR_8);
    push_str(out, deco);
    push_str(out, DETAIL_INSPECTOR_9);
    push_u64(out, participants);
    push_str(out, DETAIL_INSPECTOR_10);
    assert(out@ =~= start + detail_inspector_html(mode@, title@, id@, pid@, cpu@, mem@, uptime@, perms@, deco@, participants as nat));
}

fn push_buffer_denied_html(out: &mut Vec<char>, mode: &str)
    ensures
        final(out)@ == old(out)@ + buffer_denied_html(mode@),
{
    let ghost start = out@;
    push_str(out, BUFFER_DENIED_0);
    push_str(out, mode);
    push_str(out, BUFFER_DENIED_1);
    assert(out@ =~= start + buffer_denied_html(mode@));
}

fn push_buffer_inspector_html(out: &mut Vec<char>, mode: &str, hex_dump: &Vec<char>)
    ensures
        final(out)@ == old(out)@ + buffer_inspector_html(mode@, hex_dump@),
{
    let ghost start = out@;
    push_str(out, BUFFER_INSPECTOR_0);
    push_str(out, mode);
    push_str(out, BUFFER_INSPECTOR_1);
    push_chars(out, hex_dump);
    push_str(out, BUFFER_INSPECTOR_2);
    assert(out@ =~= start + buffer_inspector_html(mode@, hex_dump@));
}

fn focused_app<'a>(state: &'a TosState, vp: &Viewport) -> (r: (&'a Sector, &'a crate::model::CommandHub, &'a crate::model::Application))
    requires
        focus_ok(state@, *vp),
    ensures
        r.0@ == state@.sectors[vp.sector_index as int],
        r.1@ == state@.sectors[vp.sector_index as int].hubs[vp.hub_index as int],
        r.2@ == state@.sectors[vp.sector_index as int].hubs[vp.hub_index as int].applications[crate::bezel::focus_index(
            *vp,
        )],
{
    let sector = &state.sectors[vp.sector_index];
    let hub = &sector.hubs[vp.hub_index];
    let ai = match vp.active_app_index {
        Some(i) => i,
        None => 0,
    };
    (sector, hub, &hub.applications[ai])
}

/// Draws the surface of the focused application.
pub fn render_app(state: &TosState, viewport: &Viewport, ctx: &AppRenderContext) -> (html: String)
    requires
        focus_ok(state@, *viewport),
    ensures
        html@ == app_page(state@, *viewport, *ctx),
{
    let (sector, hub, app) = focused_app(state, viewport);
    let mut modules: Vec<char> = Vec::new();
    let mut k: usize = 0;
    while k < ctx.module_overlays.len()
        invariant
            0 <= k <= ctx.module_overlays@.len(),
            modules@ == concat_all(ctx.module_overlays@, k as nat),
        decreases ctx.module_overlays@.len() - k,
    {
        push_str(&mut modules, ctx.module_overlays[k].as_str());
        k = k + 1;
    }
    let mut approval: Vec<char> = Vec::new();
    match &ctx.portal_request {
        Some(n) => push_portal_approval_html(&mut approval, n.as_str()),
        None => {},
    }
    let class = chars_of(app.app_class.as_str());
    let shell = contains(&class, &chars_of("Shell")) || contains(&class, &chars_of("terminal"));
    let mut content: Vec<char> = Vec::new();
    if shell {
        let mut lines: Vec<char> = Vec::new();
        push_joined(&mut lines, &hub.terminal_output, "\n");
        push_terminal_content_html(&mut content, &lines, &modules);
    } else {
        let idt = id_to_string(app.id);
        let idc = chars_of(idt.as_str());
        let short = slice_vec(&idc, 0, 8);
        assert(short@ =~= uuid_text(app.id).take(8));
        let mut pid: Vec<char> = Vec::new();
        match app.pid {
            Some(p) => push_u64(&mut pid, p as u64),
            None => push_str(&mut pid, "TOS-SYS"),
        }
        let mut mem: Vec<char> = Vec::new();
        match (app.pid, ctx.stats) {
            (Some(_), Some(st)) => {
                push_u64(&mut mem, st.memory_bytes / 1024 / 1024);
                push_str(&mut mem, "MB");
            },
            _ => push_str(&mut mem, "---MB"),
        }
        let title = to_uppercase(app.title.as_str());
        push_app_mock_html(
            &mut content,
            title.as_str(),
            &short,
            ctx.time.as_str(),
            &modules,
            ctx.version.as_str(),
            &pid,
            &mem,
        );
    }
    let mut out: Vec<char> = Vec::new();
    push_app_container_html(&mut out, ctx.render_mode.as_str(), &approval, &content);
    string_of(&out)
}

/// Draws the remote desktop of the focused application's sector.
pub fn render_remote_desktop(state: &TosState, viewport: &Viewport, remote: &RemoteManager, render_mode: &str) -> (html: String)
    requires
        focus_ok(state@, *viewport),
        frames_encodable(*remote),
    ensures
        html@ == remote_page(state@, *viewport, *remote, render_mode@),
{
    let (sector, hub, app) = focused_app(state, viewport);
    let protocol = match sector.connection_type {
        ConnectionType::Local => "LOCAL",
        ConnectionType::TOSNative => "TOS-NATIVE",
        ConnectionType::SSH => "SSH-PTY",
        ConnectionType::HTTP => "HTTP-FALLBACK",
    };
    proof {
        reveal_strlit("LOCAL");
        reveal_strlit("TOS-NATIVE");
        reveal_strlit("SSH-PTY");
        reveal_strlit("HTTP-FALLBACK");
        reveal_strlit("expanded");
        reveal_strlit("collapsed");
    }
    let mut people: Vec<char> = Vec::new();
    let ghost ps = sector@.participants;
    let mut k: usize = 0;
    while k < sector.participants.len()
        invariant
            0 <= k <= sector.participants@.len(),
            ps == sector.participants@,
            people@ == remote_participants(ps, k as nat),
        decreases sector.participants@.len() - k,
    {
        let p = &sector.participants[k];
        let role = p.role.to_string();
        push_remote_participant_html(&mut people, p.color.as_str(), p.name.as_str(), role.as_str());
        k = k + 1;
    }
    let mut stream: Vec<char> = Vec::new();
    match remote.get_frame_buffer(sector.id) {
        Some(fb) => {
            let data = fb.to_base64();
            push_frame_buffer_html(&mut stream, data.as_str());
        },
        None => push_desktop_placeholder_html(&mut stream, sector.host.as_str(), protocol),
    }
    let (latency, quality): (u64, u8) = match remote.active_connections.get(sector.id) {
        Some(c) => (c.latency_ms, c.stream_quality),
        None => (0, 0),
    };
    let bezel = if viewport.bezel_expanded {
        "expanded"
    } else {
        "collapsed"
    };
    let title = to_uppercase(app.title.as_str());
    let mut out: Vec<char> = Vec::new();
    push_remote_desktop_html(
        &mut out,
        render_mode,
        bezel,
        title.as_str(),
        sector.host.as_str(),
        protocol,
        latency,
        quality as u64,
        &people,
        &stream,
    );
    string_of(&out)
}


fn push_padded(out: &mut Vec<char>, n: u64, w: usize)
    ensures
        final(out)@ == old(out)@ + padded(n as nat, w as nat),
{
    let mut d: Vec<char> = Vec::new();
    push_u64(&mut d, n);
    assert(d@ =~= dec(n as nat));
    let ghost start = out@;
    if d.len() < w {
        let mut k: usize = 0;
        let z = w - d.len();
        while k < z
            invariant
                0 <= k <= z,
                out@ == start + Seq::new(k as nat, |i: int| '0'),
            decreases z - k,
        {
            out.push('0');
            k = k + 1;
            assert(out@ =~= start + Seq::new(k as nat, |i: int| '0'));
        }
    }
    push_chars(out, &d);
}

fn push_hms(out: &mut Vec<char>, t: u64)
    ensures
        final(out)@ == old(out)@ + hms(t as nat),
{
    let ghost start = out@;
    push_padded(out, t / 3600, 2);
    push_str(out, ":");
    push_padded(out, (t % 3600) / 60, 2);
    push_str(out, ":");
    push_padded(out, t % 60, 2);
    proof {
        reveal_strlit(":");
    }
    assert(out@ =~= start + hms(t as nat));
}

fn push_one_tenth(out: &mut Vec<char>, t: u32)
    ensures
        final(out)@ == old(out)@ + one_tenth(t as nat),
{
    let ghost start = out@;
    push_u64(out, (t / 10) as u64);
    out.push('.');
    out.push((48u8 + (t % 10) as u8) as char);
    assert(out@ =~= start + one_tenth(t as nat));
}

/// Draws the detail inspector of the focused application.
pub fn render_detail_inspector(state: &TosState, viewport: &Viewport, ctx: &InspectorContext) -> (html: String)
    requires
        focus_ok(state@, *viewport),
    ensures
        html@ == detail_page(state@, *viewport, *ctx),
{
    let (sector, hub, app) = focused_app(state, viewport);
    let mut pid: Vec<char> = Vec::new();
    let mut cpu: Vec<char> = Vec::new();
    let mut mem: Vec<char> = Vec::new();
    let mut up: Vec<char> = Vec::new();
    let mut perms: Vec<char> = Vec::new();
    match (app.pid, &ctx.stats) {
        (Some(p), Some(st)) => {
            push_u64(&mut pid, p as u64);
            push_one_tenth(&mut cpu, st.cpu_tenths);
            push_str(&mut cpu, "%");
            push_u64(&mut mem, st.memory_bytes / 1024 / 1024);
            push_str(&mut mem, " MB");
            push_hms(&mut up, st.uptime_seconds);
            push_str(&mut perms, "UID: ");
            push_padded(&mut perms, st.uid as u64, 4);
        },
        (Some(p), None) => {
            push_u64(&mut pid, p as u64);
            push_str(&mut cpu, "0.0%");
            push_str(&mut mem, "--- MB");
            push_str(&mut up, "00:00:00");
            push_str(&mut perms, "----");
        },
        _ => {
            push_str(&mut pid, "N/A");
            push_str(&mut cpu, "0.0%");
            push_str(&mut mem, "--- MB");
            push_str(&mut up, "00:00:00");
            push_str(&mut perms, "----");
        },
    }
    let idt = id_to_string(app.id);
    let idc = chars_of(idt.as_str());
    let short = slice_vec(&idc, 0, 8);
    assert(short@ =~= uuid_text(app.id).take(8));
    let title = to_uppercase(app.title.as_str());
    let mut out: Vec<char> = Vec::new();
    push_detail_inspector_html(
        &mut out,
        ctx.render_mode.as_str(),
        title.as_str(),
        &short,
        &pid,
        &cpu,
        &mem,
        &up,
        &perms,
        ctx.decoration.as_str(),
        sector.participants.len() as u64,
    );
    string_of(&out)
}

fn push_utf8_char(out: &mut Vec<u8>, c: char)
    ensures
        final(out)@ == old(out)@ + utf8_char(c),
{
    let v = c as u32;
    let ghost start = out@;
    if v < 0x80 {
        out.push(v as u8);
    } else if v < 0x800 {
        out.push((0xC0 + v / 64) as u8);
        out.push((0x80 + v % 64) as u8);
    } else if v < 0x10000 {
        out.push((0xE0 + v / 4096) as u8);
        out.push((0x80 + (v / 64) % 64) as u8);
        out.push((0x80 + v % 64) as u8);
    } else {
        assert(v <= 0x10FFFF);
        out.push((0xF0 + v / 262144) as u8);
        out.push((0x80 + (v / 4096) % 64) as u8);
        out.push((0x80 + (v / 64) % 64) as u8);
        out.push((0x80 + v % 64) as u8);
    }
    assert(out@ =~= start + utf8_char(c));
}

/// The UTF-8 bytes of `cs`.
fn utf8_bytes(cs: &Vec<char>) -> (b: Vec<u8>)
    ensures
        b@ == utf8(cs@),
{
    let mut b: Vec<u8> = Vec::new();
    let mut i: usize = 0;
    while i < cs.len()
        invariant
            0 <= i <= cs@.len(),
            b@ == utf8(cs@.take(i as int)),
        decreases cs@.len() - i,
    {
        push_utf8_char(&mut b, cs[i]);
        assert(cs@.take(i + 1).drop_last() =~= cs@.take(i as int));
        i = i + 1;
    }
    assert(cs@.take(i as int) =~= cs@);
    b
}

fn mock_buffer(title: &String) -> (b: Vec<u8>)
    ensures
        b@ == resized(utf8("MOCK BUFFER FOR "@ + title@), 512),
{
    let mut cs = chars_of("MOCK BUFFER FOR ");
    let t = chars_of(title.as_str());
    push_chars(&mut cs, &t);
    let raw = utf8_bytes(&cs);
    let mut b: Vec<u8> = Vec::new();
    let mut i: usize = 0;
    let n: usize = if raw.len() > 512 { 512 } else { raw.len() };
    while i < n
        invariant
            0 <= i <= n,
            n <= raw@.len(),
            n <= 512,
            b@ == raw@.take(i as int),
        decreases n - i,
    {
        b.push(raw[i]);
        i = i + 1;
        assert(b@ =~= raw@.take(i as int));
    }
    let ghost taken = b@;
    while b.len() < 512
        invariant
            n <= b@.len() <= 512,
            b@ == taken + Seq::new((b@.len() - n) as nat, |j: int| 0u8),
        decreases 512 - b@.len(),
    {
        b.push(0);
        assert(b@ =~= taken + Seq::new((b@.len() - n) as nat, |j: int| 0u8));
    }
    assert(b@ =~= resized(raw@, 512));
    b
}

fn hex_digit(d: u8) -> (c: char)
    requires
        d < 16,
    ensures
        c == crate::ids::hex_char(d as nat),
{
    if d < 10 {
        (48 + d) as char
    } else {
        (87 + d) as char
    }
}

fn push_dump_line(out: &mut Vec<char>, c: &[u8], offset: u64)
    requires
        offset < 65536,
    ensures
        final(out)@ == old(out)@ + dump_line(c@, offset as nat),
{
    let ghost start = out@;
    out.push(hex_digit(((offset / 4096) % 16) as u8));
    out.push(hex_digit(((offset / 256) % 16) as u8));
    out.push(hex_digit(((offset / 16) % 16) as u8));
    out.push(hex_digit((offset % 16) as u8));
    push_str(out, ": ");
    let mut hex: Vec<char> = Vec::new();
    let mut ascii: Vec<char> = Vec::new();
    let mut k: usize = 0;
    while k < c.len()
        invariant
            0 <= k <= c@.len(),
            hex@ == hex_bytes(c@.take(k as int)),
            ascii@ == ascii_of(c@.take(k as int)),
        decreases c@.len() - k,
    {
        let b = c[k];
        hex.push(hex_digit(b / 16));
        hex.push(hex_digit(b % 16));
        hex.push(' ');
        ascii.push(
            if 32 <= b && b <= 126 {
                b as char
            } else {
                '.'
            },
        );
        proof {
            reveal_strlit(" ");
            assert(c@.take(k + 1).drop_last() =~= c@.take(k as int));
        }
        k = k + 1;
    }
    assert(c@.take(k as int) =~= c@);
    let ghost hv = hex@;
    while hex.len() < 48
        invariant
            hv.len() <= hex@.len() <= 48 || (hex@ == hv && hv.len() >= 48),
            hex@ == hv + Seq::new((hex@.len() - hv.len()) as nat, |j: int| ' '),
        decreases 48 - hex@.len(),
    {
        hex.push(' ');
        assert(hex@ =~= hv + Seq::new((hex@.len() - hv.len()) as nat, |j: int| ' '));
    }
    assert(hex@ =~= pad_to(hv, 48));
    push_chars(out, &hex);
    push_str(out, "  ");
    push_chars(out, &ascii);
    push_str(out, "\n");
    proof {
        reveal_strlit(": ");
        reveal_strlit("  ");
        reveal_strlit("\n");
    }
    assert(out@ =~= start + dump_line(c@, offset as nat));
}

fn push_hex_dump(out: &mut Vec<char>, b: &Vec<u8>)
    ensures
        final(out)@ == old(out)@ + hex_dump(b@),
{
    let n: usize = if b.len() > 256 { 256 } else { b.len() };
    let ghost t = if b@.len() > 256 { b@.take(256) } else { b@ };
    let ghost start = out@;
    let lines: usize = (n + 15) / 16;
    let mut i: usize = 0;
    while i < lines
        invariant
            0 <= i <= lines,
            lines == (n + 15) / 16,
            n == t.len(),
            n <= 256,
            n <= b@.len(),
            forall|j: int| 0 <= j < n ==> t[j] == b@[j],
            out@ == start + dump_lines(t, i as nat),
        decreases lines - i,
    {
        let lo = 16 * i;
        let hi = if 16 * i + 16 <= n { 16 * i + 16 } else { n };
        let c = slice_u8(b, lo, hi);
        assert(c@ =~= chunk(t, i as nat));
        push_dump_line(out, c.as_slice(), (16 * i) as u64);
        i = i + 1;
    }
}

fn slice_u8(b: &Vec<u8>, lo: usize, hi: usize) -> (v: Vec<u8>)
    requires
        lo <= hi <= b@.len(),
    ensures
        v@ == b@.subrange(lo as int, hi as int),
{
    let mut v: Vec<u8> = Vec::new();
    let mut k: usize = lo;
    while k < hi
        invariant
            lo <= k <= hi,
            hi <= b@.len(),
            v@ == b@.subrange(lo as int, k as int),
        decreases hi - k,
    {
        v.push(b[k]);
        k = k + 1;
        assert(v@ =~= b@.subrange(lo as int, k as int));
    }
    v
}

/// Draws the buffer inspector of the focused application.
pub fn render_buffer_inspector(state: &TosState, viewport: &Viewport, ctx: &InspectorContext) -> (html: String)
    requires
        focus_ok(state@, *viewport),
    ensures
        html@ == buffer_page(state@, *viewport, *ctx),
{
    let (sector, hub, app) = focused_app(state, viewport);
    let mut out: Vec<char> = Vec::new();
    if !ctx.deep_inspection_active {
        push_buffer_denied_html(&mut out, ctx.render_mode.as_str());
        return string_of(&out);
    }
    let mock;
    let buffer = match app.pid {
        Some(_) => &ctx.buffer_sample,
        None => {
            mock = mock_buffer(&app.title);
            &mock
        },
    };
    let mut dump: Vec<char> = Vec::new();
    push_hex_dump(&mut dump, buffer);
    push_buffer_inspector_html(&mut out, ctx.render_mode.as_str(), &dump);
    string_of(&out)
}

} // verus!
