//! Overlays drawn over the compositor: the direct comms channel and the
//! system configuration modal, and the HTML escaping they share.
use vstd::prelude::*;
use crate::model::{CommsMessage, StateView, TosState};
use crate::security::{html_escape, html_escaped};
use crate::bezel::{one_decimal, push_one_decimal};
use crate::text::{chars_of, milli_text, push_milli, push_str, replace_char, replace_char_vec, string_of};

verus! {

pub const PERF_ALERT_0: &'static str = "<div class=\"tactical-alert perflo-alert\">\n            <div class=\"alert-title\">TACTICAL ALERT // PERFORMANCE CRITICAL</div>\n            <div class=\"alert-stats\">CURRENT FPS: ";
pub const PERF_ALERT_1: &'static str = " // DEPTH THROTTLE ACTIVE</div>\n            <div class=\"alert-actions\">\n                <button onclick=\"window.ipc.postMessage('optimize_system')\">OPTIMIZE RESOURCES</button>\n                <button onclick=\"window.ipc.postMessage('tactical_reset')\">TACTICAL RESET</button>\n            </div>\n        </div>";

/// The performance alert overlay for a rate in thousandths of a frame per
/// second: nothing without an alert.
pub open spec fn performance_overlay(fps_milli: u32, alert: bool) -> Seq<char> {
    if alert {
        PERF_ALERT_0@ + one_decimal(fps_milli as nat) + PERF_ALERT_1@
    } else {
        Seq::empty()
    }
}

/// Renders the performance alert overlay.
pub fn render_performance_overlay(fps_milli: u32, alert: bool) -> (html: String)
    ensures
        html@ == performance_overlay(fps_milli, alert),
{
    let mut out: Vec<char> = Vec::new();
    if alert {
        push_str(&mut out, PERF_ALERT_0);
        push_one_decimal(&mut out, fps_milli);
        push_str(&mut out, PERF_ALERT_1);
    }
    assert(out@ =~= performance_overlay(fps_milli, alert));
    string_of(&out)
}

/// `s` with the HTML special characters, the apostrophe included, escaped.
pub open spec fn escaped_html(s: Seq<char>) -> Seq<char> {
    replace_char(html_escaped(s), '\'', "&#39;"@)
}

/// Escapes `&`, `<`, `>`, `"` and `'` for HTML.
pub fn escape_html(s: &str) -> (r: String)
    ensures
        r@ == escaped_html(s@),
{
    let e = html_escape(s);
    let c = chars_of(e.as_str());
    let out = replace_char_vec(&c, '\'', "&#39;");
    string_of(&out)
}

/// A message of the comms channel.
pub open spec fn comms_line(m: CommsMessage) -> Seq<char> {
    COMMS_LINE_0@ + m.timestamp@ + COMMS_LINE_1@ + m.from@ + COMMS_LINE_2@ + m.body@ + COMMS_LINE_3@
}

/// The messages of `ms`, one after another.
pub open spec fn comms_lines(ms: Seq<CommsMessage>) -> Seq<char>
    decreases ms.len(),
{
    if ms.len() == 0 {
        Seq::empty()
    } else {
        comms_lines(ms.drop_last()) + comms_line(ms.last())
    }
}

/// The ten latest messages, oldest first.
pub open spec fn latest_messages(ms: Seq<CommsMessage>) -> Seq<CommsMessage> {
    if ms.len() > 10 {
        ms.skip(ms.len() - 10)
    } else {
        ms
    }
}

/// The comms overlay: nothing while it is hidden.
pub open spec fn comms_overlay(s: StateView) -> Seq<char> {
    if s.comms_visible {
        COMMS_HEAD@ + comms_lines(latest_messages(s.comms_messages)) + COMMS_TAIL@
    } else {
        Seq::empty()
    }
}

pub const COMMS_LINE_0: &'static str = "<div class=\"comms-msg\">\n                <span class=\"comms-time\">[";
pub const COMMS_LINE_1: &'static str = "]</span>\n                <span class=\"comms-from\">";
pub const COMMS_LINE_2: &'static str = ":</span>\n                <span class=\"comms-body\">";
pub const COMMS_LINE_3: &'static str = "</span>\n            </div>";
pub const COMMS_HEAD: &'static str = "<div class=\"comms-overlay\">\n            <div class=\"comms-header\">DIRECT COMMS // ENCRYPTED</div>\n            <div class=\"comms-list\">\n                ";
pub const COMMS_TAIL: &'static str = "\n            </div>\n            <div class=\"comms-input-area\">\n                <input type=\"text\" class=\"comms-input\" placeholder=\"BROADCAST...\" \n                       onkeyup=\"if(event.key==='Enter') { window.ipc.postMessage('send_comms:' + this.value); this.value = ''; }\">\n            </div>\n        </div>";

/// The overlay of the direct comms channel, with the ten latest messages.
pub fn render_comms_overlay(state: &TosState) -> (html: String)
    ensures
        html@ == comms_overlay(state@),
{
    if !state.comms_visible {
        return String::new();
    }
    let n = state.comms_messages.len();
    let start: usize = if n > 10 { n - 10 } else { 0 };
    let ghost ms = state@.comms_messages;
    let ghost latest = latest_messages(ms);
    assert(latest =~= ms.skip(start as int));
    let mut out: Vec<char> = Vec::new();
    push_str(&mut out, COMMS_HEAD);
    let ghost head = out@;
    let mut i: usize = start;
    while i < n
        invariant
            start <= i <= n,
            n == ms.len(),
            ms == state@.comms_messages,
            out@ == head + comms_lines(ms.subrange(start as int, i as int)),
        decreases n - i,
    {
        let m = &state.comms_messages[i];
        push_str(&mut out, COMMS_LINE_0);
        push_str(&mut out, m.timestamp.as_str());
        push_str(&mut out, COMMS_LINE_1);
        push_str(&mut out, m.from.as_str());
        push_str(&mut out, COMMS_LINE_2);
        push_str(&mut out, m.body.as_str());
        push_str(&mut out, COMMS_LINE_3);
        assert(ms.subrange(start as int, i + 1).drop_last() =~= ms.subrange(start as int, i as int));
        assert(out@ =~= head + comms_lines(ms.subrange(start as int, i + 1)));
        i = i + 1;
    }
    assert(ms.subrange(start as int, n as int) =~= latest);
    push_str(&mut out, COMMS_TAIL);
    string_of(&out)
}

/// The settings modal: nothing while it is closed.
pub open spec fn settings_modal(s: StateView) -> Seq<char> {
    if s.settings_open {
        SETTINGS_0@ + "active"@ + SETTINGS_1@ + milli_text(s.fps_milli as nat) + SETTINGS_2@ + milli_text(s.fps_milli as nat)
            + SETTINGS_3@ + (if s.performance_alert { "active"@ } else { Seq::empty() }) + SETTINGS_4@
    } else {
        Seq::empty()
    }
}

pub const SETTINGS_0: &'static str = "<div class=\"tactical-minimap active-overlay settings-modal-overlay\" style=\"opacity: 0.98; left: 10%; right: 10%; top: 10%; bottom: 10%; z-index: 1000; display: flex; flex-direction: column;\">\n            <div class=\"minimap-header\" style=\"flex: 0 0 auto;\">\n                <span class=\"depth-badge\">CFG</span>\n                <span class=\"header-title\">SYSTEM CONFIGURATION</span>\n                <div class=\"minimap-close\" style=\"float: right; cursor: pointer;\" onclick=\"window.ipc.postMessage('close_settings')\">\u{d7}</div>\n            </div>\n            \n            <div class=\"minimap-content\" style=\"flex: 1 1 auto; display: flex; flex-direction: row; overflow: hidden; background: rgba(0,0,0,0.8); padding: 0;\">\n                <div class=\"settings-sidebar\" style=\"width: 250px; border-right: 2px solid var(--tactical-blue); padding: 15px; display: flex; flex-direction: column; gap: 10px;\">\n                    <div class=\"bezel-btn active\" style=\"text-align: left; padding: 10px;\">GENERAL &amp; SYSTEM</div>\n                    <div class=\"bezel-btn\" style=\"text-align: left; padding: 10px;\">ACCESSIBILITY &amp; INPUT</div>\n                    <div class=\"bezel-btn\" style=\"text-align: left; padding: 10px;\">TACTICAL &amp; SECURITY</div>\n                    <div class=\"bezel-btn\" style=\"text-align: left; padding: 10px;\">SECTOR OVERRIDES</div>\n                </div>\n                \n                <div class=\"settings-main-panel\" style=\"flex: 1; padding: 20px; overflow-y: auto;\">\n                    <div class=\"bezel-section\">\n                        <div class=\"section-label\">THEME &amp; APPEARANCE</div>\n                        <div class=\"bezel-group\">\n                            <span style=\"color: var(--lcars-orange);\">Data Visualization Aesthetic</span>\n                            <div class=\"three-way-toggle\" style=\"margin-left: 20px; flex: 1; max-width: 300px;\">\n                                <div class=\"toggle-segment ";
pub const SETTINGS_1: &'static str = "\">LCARS CURVES</div>\n                                <div class=\"toggle-segment\">HIGH-CONTRAST</div>\n                            </div>\n                        </div>\n                    </div>\n                    \n                    <div class=\"bezel-section\" style=\"margin-top: 30px;\">\n                        <div class=\"section-label\">PERFORMANCE &amp; THRESHOLDS</div>\n                        <div class=\"bezel-group sliders\" style=\"flex-direction: column; gap: 20px;\">\n                            <div class=\"action-slider\">\n                                <span>TARGET FPS</span>\n                                <input type=\"range\" min=\"30\" max=\"144\" step=\"1\" value=\"";
pub const SETTINGS_2: &'static str = "\" oninput=\"document.getElementById('fps-val-setting').innerText = this.value; window.ipc.postMessage('set_fps:' + this.value)\">\n                                <span id=\"fps-val-setting\" style=\"min-width: 40px; color: white;\">";
pub const SETTINGS_3: &'static str = "</span>\n                            </div>\n                            <div class=\"bezel-group\" style=\"padding-top: 10px;\">\n                                <span style=\"margin-right: 20px; color: var(--lcars-orange);\">Performance Mode</span>\n                                <button class=\"bezel-btn mini ";
pub const SETTINGS_4: &'static str = "\" onclick=\"window.ipc.postMessage('optimize_system')\">OPTIMIZE RESOURCES</button>\n                            </div>\n                        </div>\n                    </div>\n                    \n                    <div class=\"bezel-section\" style=\"margin-top: 30px;\">\n                        <div class=\"section-label\">AUDIO &amp; HAPTICS</div>\n                        <div class=\"bezel-group sliders\">\n                            <div class=\"action-slider\">\n                                <span>Master Volume</span>\n                                <input type=\"range\" min=\"0\" max=\"100\" step=\"5\" value=\"80\" onchange=\"window.ipc.postMessage('set_master_volume:' + this.value)\">\n                            </div>\n                            <div class=\"action-slider\">\n                                <span>UI Feedback</span>\n                                <input type=\"range\" min=\"0\" max=\"100\" step=\"5\" value=\"60\">\n                            </div>\n                        </div>\n                    </div>\n                    \n                    <div class=\"bezel-section\" style=\"margin-top: 30px;\">\n                        <div class=\"section-label\">SECURITY CONSTRAINTS</div>\n                        <div class=\"bezel-group\" style=\"gap: 15px;\">\n                            <button class=\"bezel-btn active\">SANDBOXING: ENABLED</button>\n                            <button class=\"bezel-btn active\">CONFIRM DRAGS: ENABLED</button>\n                            <button class=\"bezel-btn danger\" onclick=\"window.ipc.postMessage('enable-deep-inspection')\">ACTIVATE DEEP INSPECTION</button>\n                        </div>\n                    </div>\n                </div>\n            </div>\n        </div>";

/// The system configuration modal, showing the frame rate.
pub fn render_settings_modal(state: &TosState) -> (html: String)
    ensures
        html@ == settings_modal(state@),
{
    if !state.settings_open {
        return String::new();
    }
    let mut out: Vec<char> = Vec::new();
    push_str(&mut out, SETTINGS_0);
    push_str(&mut out, "active");
    push_str(&mut out, SETTINGS_1);
    push_milli(&mut out, state.fps_milli);
    push_str(&mut out, SETTINGS_2);
    push_milli(&mut out, state.fps_milli);
    push_str(&mut out, SETTINGS_3);
    if state.performance_alert {
        push_str(&mut out, "active");
    }
    push_str(&mut out, SETTINGS_4);
    assert(out@ =~= settings_modal(state@));
    string_of(&out)
}

} // verus!
