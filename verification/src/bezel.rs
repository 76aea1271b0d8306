//! The tactical bezel drawn along a viewport: collapsed, it shows the level
//! (application, hub with its mode switch and autocomplete drawer, global
//! overview) with the sector's participants; expanded, it adds the
//! confirmation slider, calibration and portal controls, metrics and quick
//! actions. What the compositor state does not hold (the local
//! participant's permissions, the sector's priority, the application's
//! icon, suggestions and calibration) comes in a `BezelContext`.
use vstd::prelude::*;
use crate::collaboration::Participant;
use crate::ids::{id_to_string, uuid_text};
use crate::model::{HierarchyLevel, CommandHubMode, Sector, SectorView, StateView, TosState, Viewport};
use crate::shell_api::CommandSuggestion;
use crate::text::{chars_of, dec, digit_char, milli_text, push_chars, push_milli, push_str, push_u64, replace_char,
    replace_char_vec, slice_vec, string_of, to_uppercase, uppercased};

verus! {

/// Whether the bezel is open.
#[derive(Debug, Clone, Copy, PartialEq, Eq, Structural)]
pub enum BezelState {
    Collapsed,
    Expanded,
}

/// What the bezel shows besides the compositor state.
pub struct BezelContext {
    /// The participant at this display
    pub local_participant_id: u128,
    /// Whether the local participant may switch modes
    pub can_switch_mode: bool,
    /// Whether the local participant may manage (reset) the sector
    pub can_manage_sector: bool,
    /// The sector's priority score, in tenths
    pub priority_tenths: u32,
    /// The focused application's icon, if it has one
    pub app_icon: Option<String>,
    /// The shell's suggestions for the hub
    pub suggestions: Vec<CommandSuggestion>,
    /// The focused application's calibration, in thousandths, where set
    pub app_priority_milli: Option<u32>,
    pub app_gain_milli: Option<u32>,
    pub app_sensitivity_milli: Option<u32>,
}

/// A value in thousandths printed with one decimal (`{:.1}`), rounded to
/// the nearest tenth, ties to even.
pub open spec fn one_decimal(m: nat) -> Seq<char> {
    let q = m / 100;
    let r = m % 100;
    let t: nat = if r > 50 || (r == 50 && q % 2 == 1) { q + 1 } else { q };
    dec(t / 10) + seq!['.', digit_char((t % 10) as int)]
}

pub(crate) fn push_one_decimal(out: &mut Vec<char>, m: u32)
    ensures
        final(out)@ == old(out)@ + one_decimal(m as nat),
{
    let q = m / 100;
    let r = m % 100;
    let t: u32 = if r > 50 || (r == 50 && q % 2 == 1) {
        q + 1
    } else {
        q
    };
    let ghost start = out@;
    push_u64(out, (t / 10) as u64);
    out.push('.');
    out.push((48u8 + (t % 10) as u8) as char);
    assert(out@ =~= start + one_decimal(m as nat));
}

pub const AVATAR_IMG_0: &'static str = "<img src=\"";
pub const AVATAR_IMG_1: &'static str = "\" alt=\"";
pub const AVATAR_IMG_2: &'static str = "\" />";
pub const AVATAR_INITIAL_0: &'static str = "<span>";
pub const AVATAR_INITIAL_1: &'static str = "</span>";
pub const AVATAR_0: &'static str = "<div class=\"collab-avatar ";
pub const AVATAR_1: &'static str = "\" style=\"--avatar-color:";
pub const AVATAR_2: &'static str = ";\" title=\"";
pub const AVATAR_3: &'static str = " (";
pub const AVATAR_4: &'static str = ")\">\n                ";
pub const AVATAR_5: &'static str = "\n            </div>";
pub const BEZEL_FOCUS_0: &'static str = "<div class=\"tactical-bezel collapsed l3-bezel ";
pub const BEZEL_FOCUS_1: &'static str = "\" style=\"--bezel-accent:";
pub const BEZEL_FOCUS_2: &'static str = ";\">\n                            <div class=\"bezel-chips top\">\n                                <div class=\"chip\"></div><div class=\"chip\"></div>\n                            </div>\n                            <div class=\"bezel-top\">\n                                <div class=\"bezel-left\">\n                                    <span class=\"bezel-icon\">";
pub const BEZEL_FOCUS_3: &'static str = "</span>\n                                    <span class=\"bezel-title\">";
pub const BEZEL_FOCUS_4: &'static str = "</span>\n                                </div>\n                                <div class=\"bezel-right\">\n                                    <button class=\"bezel-btn mini zoom-out\" onclick=\"window.ipc.postMessage('zoom_out')\" title=\"Zoom Out (ESC)\">\u{25b2}</button>\n                                    <div class=\"bezel-handle\" onclick=\"window.ipc.postMessage('toggle_bezel')\">\n                                        <div class=\"chevron\"></div>\n                                    </div>\n                                </div>\n                            </div>\n                            <div class=\"bezel-chips bottom\">\n                                <div class=\"chip\"></div>\n                            </div>\n                        </div>";
pub const SUGGESTION_0: &'static str = "<div class=\"suggestion-item\" onclick=\"window.ipc.postMessage('stage_command:";
pub const SUGGESTION_1: &'static str = "')\">\n                                <span class=\"suggestion-cmd\">";
pub const SUGGESTION_2: &'static str = "</span>\n                                <span class=\"suggestion-desc\">";
pub const SUGGESTION_3: &'static str = "</span>\n                            </div>";
pub const BEZEL_HUB_0: &'static str = "<div class=\"tactical-bezel collapsed hub-bezel ";
pub const BEZEL_HUB_1: &'static str = "\" style=\"--bezel-accent:";
pub const BEZEL_HUB_2: &'static str = ";\">\n                            <div class=\"bezel-chips top\">\n                                <div class=\"chip\"></div><div class=\"chip\"></div><div class=\"chip\"></div>\n                            </div>\n                            <div class=\"bezel-top\">\n                                <div class=\"bezel-left\">\n                                    <button class=\"bezel-btn mini toggle-left-region\" onclick=\"window.ipc.postMessage('toggle_left_region')\" title=\"Toggle Region\">\u{25e7}</button>\n                                    <div class=\"three-way-toggle\">\n                                        <div class=\"toggle-segment ";
pub const BEZEL_HUB_3: &'static str = " ";
pub const BEZEL_HUB_4: &'static str = "\" onclick=\"";
pub const BEZEL_HUB_5: &'static str = "\">CMD</div>\n                                        <div class=\"toggle-segment ";
pub const BEZEL_HUB_6: &'static str = " ";
pub const BEZEL_HUB_7: &'static str = "\" onclick=\"";
pub const BEZEL_HUB_8: &'static str = "\">DIR</div>\n                                        <div class=\"toggle-segment ";
pub const BEZEL_HUB_9: &'static str = " ";
pub const BEZEL_HUB_10: &'static str = "\" onclick=\"";
pub const BEZEL_HUB_11: &'static str = "\">ACT</div>\n                                    </div>\n                                </div>\n                                <div class=\"bezel-center\">\n                                    <span class=\"bezel-title\">";
pub const BEZEL_HUB_12: &'static str = "</span>\n                                </div>\n                                <div class=\"bezel-right\">\n                                    <div class=\"collaboration-avatars\">\n                                        ";
pub const BEZEL_HUB_13: &'static str = "\n                                    </div>\n                                    <button class=\"bezel-btn mini toggle-output-mode\" onclick=\"window.ipc.postMessage('toggle_output_mode')\" title=\"Perspective Mode\">\u{2b1a}</button>\n                                    <div class=\"bezel-handle\" onclick=\"window.ipc.postMessage('toggle_bezel')\">\n                                        <div class=\"chevron\"></div>\n                                    </div>\n                                </div>\n                            </div>\n                        </div>\n                        <div class=\"autocomplete-drawer ";
pub const BEZEL_HUB_14: &'static str = "\">\n                            <div class=\"drawer-header\">TACTICAL AUTOCOMPLETE // SUGGESTIONS</div>\n                            <div class=\"drawer-content\">\n                                ";
pub const BEZEL_HUB_15: &'static str = "\n                            </div>\n                        </div>";
pub const BEZEL_GLOBAL_0: &'static str = "<div class=\"tactical-bezel collapsed global-bezel ";
pub const BEZEL_GLOBAL_1: &'static str = "\" style=\"--bezel-accent:";
pub const BEZEL_GLOBAL_2: &'static str = ";\">\n                            <div class=\"bezel-top\">\n                                <div class=\"bezel-left\">\n                                    <button class=\"bezel-btn mini settings-gear\" onclick=\"window.ipc.postMessage('open_settings')\" title=\"Settings\" ";
pub const BEZEL_GLOBAL_3: &'static str = ">\u{2699}</button>\n                                    <span class=\"bezel-title\">GLOBAL OVERVIEW</span>\n                                </div>\n                                <div class=\"bezel-right\">\n                                    <div class=\"collaboration-avatars\">\n                                        ";
pub const BEZEL_GLOBAL_4: &'static str = "\n                                    </div>\n                                    <button class=\"bezel-btn mini add-sector\" onclick=\"window.ipc.postMessage('add_sector')\" title=\"Add Sector\" ";
pub const BEZEL_GLOBAL_5: &'static str = ">+</button>\n                                    <div class=\"bezel-handle\" onclick=\"window.ipc.postMessage('toggle_bezel')\">\n                                        <div class=\"chevron\"></div>\n                                    </div>\n                                </div>\n                            </div>\n                        </div>";
pub const BEZEL_PLAIN_0: &'static str = "<div class=\"tactical-bezel collapsed\" style=\"--bezel-accent:";
pub const BEZEL_PLAIN_1: &'static str = ";\">\n                            <div class=\"bezel-top\">\n                                <span class=\"bezel-title\">";
pub const BEZEL_PLAIN_2: &'static str = "</span>\n                                <div class=\"bezel-handle\" onclick=\"window.ipc.postMessage('toggle_bezel')\">\n                                    <div class=\"chevron\"></div>\n                                </div>\n                            </div>\n                        </div>";
pub const BEZEL_SLIDER_0: &'static str = "<div class=\"bezel-section\">\n                        <div class=\"section-label\">SECURITY TACTILE CONFIRMATION REQUIRED</div>\n                        <div class=\"dangerous-overlay\" style=\"position:relative; background:transparent;\">\n                            <div class=\"dangerous-command\" style=\"margin-bottom:20px;\">";
pub const BEZEL_SLIDER_1: &'static str = "</div>\n                            <div class=\"slider-track\" style=\"width:100%; max-width:400px;\">\n                                <input type=\"range\" class=\"confirm-slider\" min=\"0\" max=\"100\" value=\"0\" \n                                    oninput=\"if(this.value == 100) { window.ipc.postMessage('prompt_submit:";
pub const BEZEL_SLIDER_2: &'static str = "'); window.ipc.postMessage('toggle_bezel'); }\"\n                                    onchange=\"if(this.value < 100) { this.value = 0; }\">\n                                <div class=\"slider-label\">SLIDE TO CONFIRM</div>\n                            </div>\n                            <button class=\"bezel-btn danger\" style=\"margin-top:20px;\" onclick=\"window.ipc.postMessage('stage_command:')\">ABORT ACTION</button>\n                        </div>\n                    </div>";
pub const BEZEL_CALIBRATION_0: &'static str = "<div class=\"bezel-section\">\n                            <div class=\"section-label\">PROCESS CALIBRATION</div>\n                            <div class=\"bezel-group sliders\">\n                                 <div class=\"action-slider\">\n                                    <span>PRIORITY</span>\n                                    <input type=\"range\" min=\"1\" max=\"10\" step=\"1\" value=\"";
pub const BEZEL_CALIBRATION_1: &'static str = "\" oninput=\"window.ipc.postMessage('update_setting:priority:' + this.value)\">\n                                 </div>\n                                 <div class=\"action-slider\">\n                                    <span>GAIN</span>\n                                    <input type=\"range\" min=\"0\" max=\"100\" step=\"1\" value=\"";
pub const BEZEL_CALIBRATION_2: &'static str = "\" oninput=\"window.ipc.postMessage('update_setting:gain:' + this.value)\">\n                                 </div>\n                                 <div class=\"action-slider\">\n                                    <span>SENSITIVITY</span>\n                                    <input type=\"range\" min=\"0\" max=\"100\" step=\"1\" value=\"";
pub const BEZEL_CALIBRATION_3: &'static str = "\" oninput=\"window.ipc.postMessage('update_setting:sensitivity:' + this.value)\">\n                                 </div>\n                            </div>\n                        </div>\n                        <div class=\"bezel-section\">\n                            <div class=\"section-label\">PORTAL & CONNECTIVITY</div>\n                            <div class=\"bezel-group\">\n                                <button class=\"bezel-btn ";
pub const BEZEL_CALIBRATION_4: &'static str = "\" onclick=\"window.ipc.postMessage('toggle_portal')\">";
pub const BEZEL_CALIBRATION_5: &'static str = "</button>\n                            </div>\n                            ";
pub const BEZEL_CALIBRATION_6: &'static str = "\n                        </div>\n                        <div class=\"bezel-section\">\n                            <div class=\"section-label\">NAVIGATION</div>\n                            <div class=\"bezel-group\">\n                                <button class=\"bezel-btn\" onclick=\"window.ipc.postMessage('zoom_out')\">ZOOM OUT</button>\n                                <button class=\"bezel-btn\" onclick=\"window.ipc.postMessage('split_viewport')\">SPLIT VIEW</button>\n                                <button class=\"bezel-btn\" onclick=\"window.ipc.postMessage('zoom_to:DetailInspector')\">INSPECT</button>\n                                <button class=\"bezel-btn danger\" onclick=\"window.ipc.postMessage('kill_app')\">CLOSE PROCESS</button>\n                            </div>\n                        </div>";
pub const BEZEL_EXPANDED_0: &'static str = "<div class=\"tactical-bezel expanded ";
pub const BEZEL_EXPANDED_1: &'static str = "\" style=\"--bezel-accent:";
pub const BEZEL_EXPANDED_2: &'static str = ";\">\n                    <div class=\"bezel-chips top\">\n                        <div class=\"chip\"></div><div class=\"chip\"></div><div class=\"chip\"></div><div class=\"chip\"></div>\n                    </div>\n                    <div class=\"bezel-top\">\n                        <div class=\"bezel-left\">\n                            <span class=\"bezel-title\">";
pub const BEZEL_EXPANDED_3: &'static str = " // EXPANDED TACTICAL VIEW</span>\n                        </div>\n                        <div class=\"bezel-right\">\n                            <div class=\"bezel-handle\" onclick=\"window.ipc.postMessage('toggle_bezel')\">\n                                <div class=\"chevron\"></div>\n                            </div>\n                        </div>\n                    </div>\n                    <div class=\"bezel-expanded-content\">\n                        ";
pub const BEZEL_EXPANDED_4: &'static str = "\n                        ";
pub const BEZEL_EXPANDED_5: &'static str = "\n                        <div class=\"bezel-section\">\n                            <div class=\"section-label\">LEVEL METRICS</div>\n                            <div class=\"bezel-group\">\n                                <div class=\"footer-stat\">FPS: ";
pub const BEZEL_EXPANDED_6: &'static str = "</div>\n                                <div class=\"footer-stat\">LATENCY: 0.4ms</div>\n                                <div class=\"footer-stat\">SYNC: ACTIVE</div>\n                            </div>\n                        </div>\n                        <div class=\"bezel-section\">\n                            <div class=\"section-label\">QUICK ACTIONS</div>\n                            <div class=\"bezel-group\">\n                                <button class=\"bezel-btn mini\" onclick=\"window.ipc.postMessage('semantic_event:ToggleMiniMap')\">MINIMAP</button>\n                                <button class=\"bezel-btn mini\" onclick=\"window.ipc.postMessage('semantic_event:ToggleComms')\">COMMS</button>\n                                <button class=\"bezel-btn mini danger\" onclick=\"window.ipc.postMessage('tactical_reset')\" ";
pub const BEZEL_EXPANDED_7: &'static str = ">RESET</button>\n                            </div>\n                        </div>\n                    </div>\n                </div>";
pub const PORTAL_URL_0: &'static str = "<div class='footer-stat'>URL: ";
pub const PORTAL_URL_1: &'static str = "</div>";
/// An avatar picture.
pub open spec fn avatar_image(url: Seq<char>, name: Seq<char>) -> Seq<char> {
    AVATAR_IMG_0@
        + url
        + AVATAR_IMG_1@
        + name
        + AVATAR_IMG_2@
}

/// An avatar drawn as an initial.
pub open spec fn avatar_initial(initial: Seq<char>) -> Seq<char> {
    AVATAR_INITIAL_0@
        + initial
        + AVATAR_INITIAL_1@
}

/// A participant's avatar.
pub open spec fn avatar_html(local_class: Seq<char>, color: Seq<char>, name: Seq<char>, role: Seq<char>, content: Seq<char>) -> Seq<char> {
    AVATAR_0@
        + local_class
        + AVATAR_1@
        + color
        + AVATAR_2@
        + name
        + AVATAR_3@
        + role
        + AVATAR_4@
        + content
        + AVATAR_5@
}

/// The collapsed bezel of a focused application.
pub open spec fn focus_bezel_html(priority_class: Seq<char>, color: Seq<char>, icon: Seq<char>, title: Seq<char>) -> Seq<char> {
    BEZEL_FOCUS_0@
        + priority_class
        + BEZEL_FOCUS_1@
        + color
        + BEZEL_FOCUS_2@
        + icon
        + BEZEL_FOCUS_3@
        + title
        + BEZEL_FOCUS_4@
}

/// A suggestion of the autocomplete drawer.
pub open spec fn suggestion_html(command: Seq<char>, text: Seq<char>, description: Seq<char>) -> Seq<char> {
    SUGGESTION_0@
        + command
        + SUGGESTION_1@
        + text
        + SUGGESTION_2@
        + description
        + SUGGESTION_3@
}

/// The collapsed bezel of a command hub.
pub open spec fn hub_bezel_html(priority_class: Seq<char>, color: Seq<char>, cmd_active: Seq<char>, disabled_switch: Seq<char>, cmd_onclick: Seq<char>, dir_active: Seq<char>, dir_onclick: Seq<char>, act_active: Seq<char>, act_onclick: Seq<char>, title: Seq<char>, avatars: Seq<char>, drawer_active_class: Seq<char>, suggestions: Seq<char>) -> Seq<char> {
    BEZEL_HUB_0@
        + priority_class
        + BEZEL_HUB_1@
        + color
        + BEZEL_HUB_2@
        + cmd_active
        + BEZEL_HUB_3@
        + disabled_switch
        + BEZEL_HUB_4@
        + cmd_onclick
        + BEZEL_HUB_5@
        + dir_active
        + BEZEL_HUB_6@
        + disabled_switch
        + BEZEL_HUB_7@
        + dir_onclick
        + BEZEL_HUB_8@
        + act_active
        + BEZEL_HUB_9@
        + disabled_switch
        + BEZEL_HUB_10@
        + act_onclick
        + BEZEL_HUB_11@
        + title
        + BEZEL_HUB_12@
        + avatars
        + BEZEL_HUB_13@
        + drawer_active_class
        + BEZEL_HUB_14@
        + suggestions
        + BEZEL_HUB_15@
}

/// The collapsed bezel of the global overview.
pub open spec fn global_bezel_html(priority_class: Seq<char>, color: Seq<char>, disabled_manage: Seq<char>, avatars: Seq<char>) -> Seq<char> {
    BEZEL_GLOBAL_0@
        + priority_class
        + BEZEL_GLOBAL_1@
        + color
        + BEZEL_GLOBAL_2@
        + disabled_manage
        + BEZEL_GLOBAL_3@
        + avatars
        + BEZEL_GLOBAL_4@
        + disabled_manage
        + BEZEL_GLOBAL_5@
}

/// The collapsed bezel of the other levels.
pub open spec fn plain_bezel_html(color: Seq<char>, title: Seq<char>) -> Seq<char> {
    BEZEL_PLAIN_0@
        + color
        + BEZEL_PLAIN_1@
        + title
        + BEZEL_PLAIN_2@
}

/// The confirmation slider for a dangerous command.
pub open spec fn bezel_slider_html(cmd: Seq<char>) -> Seq<char> {
    BEZEL_SLIDER_0@
        + cmd
        + BEZEL_SLIDER_1@
        + cmd
        + BEZEL_SLIDER_2@
}

/// The calibration and portal sections of a focused application.
pub open spec fn calibration_html(priority: nat, gain: nat, sensitivity: nat, portal_active_class: Seq<char>, portal_label: Seq<char>, portal_url: Seq<char>) -> Seq<char> {
    BEZEL_CALIBRATION_0@
        + milli_text(priority)
        + BEZEL_CALIBRATION_1@
        + milli_text(gain)
        + BEZEL_CALIBRATION_2@
        + milli_text(sensitivity)
        + BEZEL_CALIBRATION_3@
        + portal_active_class
        + BEZEL_CALIBRATION_4@
        + portal_label
        + BEZEL_CALIBRATION_5@
        + portal_url
        + BEZEL_CALIBRATION_6@
}

/// The expanded bezel.
pub open spec fn expanded_bezel_html(priority_class: Seq<char>, color: Seq<char>, title: Seq<char>, slider: Seq<char>, level_specific: Seq<char>, fps: nat, disabled_manage: Seq<char>) -> Seq<char> {
    BEZEL_EXPANDED_0@
        + priority_class
        + BEZEL_EXPANDED_1@
        + color
        + BEZEL_EXPANDED_2@
        + title
        + BEZEL_EXPANDED_3@
        + slider
        + BEZEL_EXPANDED_4@
        + level_specific
        + BEZEL_EXPANDED_5@
        + one_decimal(fps)
        + BEZEL_EXPANDED_6@
        + disabled_manage
        + BEZEL_EXPANDED_7@
}

/// The address of an open portal.
pub open spec fn portal_url_html(url: Seq<char>) -> Seq<char> {
    PORTAL_URL_0@
        + url
        + PORTAL_URL_1@
}

/// The initial of a name in capitals, or `?` for an empty name.
pub open spec fn initial_of(name: Seq<char>) -> Seq<char> {
    if name.len() == 0 {
        "?"@
    } else {
        uppercased(name.take(1))
    }
}

/// A participant's avatar, marked when it is the local one.
pub open spec fn avatar(p: Participant, local: u128) -> Seq<char> {
    avatar_html(
        if p.id == local { "local"@ } else { ""@ },
        p.color@,
        p.name@,
        p.role.spec_as_str(),
        match p.avatar_url {
            Some(u) => avatar_image(u@, p.name@),
            None => avatar_initial(initial_of(p.name@)),
        },
    )
}

/// The avatars of the first `n` participants.
pub open spec fn avatars(ps: Seq<Participant>, local: u128, n: nat) -> Seq<char>
    decreases n,
{
    if n == 0 {
        Seq::empty()
    } else {
        avatars(ps, local, (n - 1) as nat) + avatar(ps[n - 1], local)
    }
}

/// A suggestion of the drawer, its command's apostrophes escaped.
pub open spec fn suggestion(s: CommandSuggestion) -> Seq<char> {
    suggestion_html(replace_char(s.command@, '\'', "\\'"@), s.text@, s.description@)
}

/// The first `n` suggestions.
pub open spec fn suggestions(ss: Seq<CommandSuggestion>, n: nat) -> Seq<char>
    decreases n,
{
    if n == 0 {
        Seq::empty()
    } else {
        suggestions(ss, (n - 1) as nat) + suggestion(ss[n - 1])
    }
}

/// The application a viewport focuses (the first when none is set).
pub open spec fn focus_index(vp: Viewport) -> int {
    match vp.active_app_index {
        Some(i) => i as int,
        None => 0,
    }
}

/// The title of the bezel: the focused application and its class, or the
/// sector's name, in capitals.
pub open spec fn bezel_title(s: StateView, vp: Viewport, level: HierarchyLevel) -> Seq<char> {
    let sec = s.sectors[vp.sector_index as int];
    if level == HierarchyLevel::ApplicationFocus {
        let app = sec.hubs[vp.hub_index as int].applications[focus_index(vp)];
        uppercased(app.title) + " // "@ + uppercased(app.app_class)
    } else {
        uppercased(sec.name)
    }
}

/// The icon of the bezel: the focused application's, else the sector's.
pub open spec fn bezel_icon(sec: SectorView, ctx: BezelContext, level: HierarchyLevel) -> Seq<char> {
    if level == HierarchyLevel::ApplicationFocus {
        match ctx.app_icon {
            Some(i) => i@,
            None => sec.icon,
        }
    } else {
        sec.icon
    }
}

/// The class of a priority score in tenths: high from 8, medium from 5.
pub open spec fn priority_class(t: u32) -> Seq<char> {
    if t >= 80 {
        "priority-high"@
    } else if t >= 50 {
        "priority-medium"@
    } else {
        "priority-low"@
    }
}

pub open spec fn active_if(b: bool) -> Seq<char> {
    if b { "active"@ } else { ""@ }
}

pub open spec fn disabled_unless(b: bool) -> Seq<char> {
    if b { ""@ } else { "disabled"@ }
}

/// The handler of a mode tab: none when switching is not allowed.
pub open spec fn mode_onclick(allowed: bool, mode: Seq<char>) -> Seq<char> {
    if allowed { "window.ipc.postMessage('set_mode:"@ + mode + "')"@ } else { ""@ }
}

/// The collapsed bezel.
pub open spec fn collapsed_bezel(s: StateView, vp: Viewport, level: HierarchyLevel, ctx: BezelContext) -> Seq<char> {
    let sec = s.sectors[vp.sector_index as int];
    let pc = priority_class(ctx.priority_tenths);
    let title = bezel_title(s, vp, level);
    let ps = sec.participants;
    match level {
        HierarchyLevel::ApplicationFocus => focus_bezel_html(pc, sec.color, bezel_icon(sec, ctx, level), title),
        HierarchyLevel::CommandHub => {
            let hub = sec.hubs[vp.hub_index as int];
            let sw = ctx.can_switch_mode;
            hub_bezel_html(
                pc,
                sec.color,
                active_if(hub.mode == CommandHubMode::Command),
                disabled_unless(sw),
                mode_onclick(sw, "Command"@),
                active_if(hub.mode == CommandHubMode::Directory),
                mode_onclick(sw, "Directory"@),
                active_if(hub.mode == CommandHubMode::Activity),
                mode_onclick(sw, "Activity"@),
                title,
                avatars(ps, ctx.local_participant_id, ps.len()),
                active_if(ctx.suggestions@.len() > 0),
                suggestions(ctx.suggestions@, ctx.suggestions@.len()),
            )
        },
        HierarchyLevel::GlobalOverview => global_bezel_html(
            pc,
            sec.color,
            disabled_unless(ctx.can_manage_sector),
            avatars(ps, ctx.local_participant_id, ps.len()),
        ),
        _ => plain_bezel_html(sec.color, title),
    }
}

/// The expanded bezel.
pub open spec fn expanded_bezel(s: StateView, vp: Viewport, level: HierarchyLevel, ctx: BezelContext) -> Seq<char> {
    let sec = s.sectors[vp.sector_index as int];
    let hub = sec.hubs[vp.hub_index as int];
    let slider = match hub.confirmation_required {
        Some(c) => bezel_slider_html(c),
        None => Seq::empty(),
    };
    let specific = if level == HierarchyLevel::ApplicationFocus {
        calibration_html(
            match ctx.app_priority_milli { Some(v) => v as nat, None => 5000 },
            match ctx.app_gain_milli { Some(v) => v as nat, None => 75000 },
            match ctx.app_sensitivity_milli { Some(v) => v as nat, None => 40000 },
            active_if(sec.portal_active),
            if sec.portal_active { "DISABLE PORTAL"@ } else { "EXPORT PORTAL"@ },
            match sec.portal_url {
                Some(u) => portal_url_html(u),
                None => Seq::empty(),
            },
        )
    } else {
        Seq::empty()
    };
    expanded_bezel_html(
        priority_class(ctx.priority_tenths),
        sec.color,
        uppercased(bezel_title(s, vp, level)),
        slider,
        specific,
        s.fps_milli as nat,
        disabled_unless(ctx.can_manage_sector),
    )
}

/// The bezel of a viewport at a level.
pub open spec fn bezel(s: StateView, vp: Viewport, level: HierarchyLevel, b: BezelState, ctx: BezelContext) -> Seq<char> {
    match b {
        BezelState::Collapsed => collapsed_bezel(s, vp, level, ctx),
        BezelState::Expanded => expanded_bezel(s, vp, level, ctx),
    }
}

/// The bezel can be drawn: the viewport's sector exists, its hub where the
/// bezel shows one, and its focused application at the application level.
pub open spec fn bezel_drawable(s: StateView, vp: Viewport, level: HierarchyLevel, b: BezelState) -> bool {
    let sec = s.sectors[vp.sector_index as int];
    &&& vp.sector_index < s.sectors.len()
    &&& (level == HierarchyLevel::ApplicationFocus || level == HierarchyLevel::CommandHub || b == BezelState::Expanded)
        ==> vp.hub_index < sec.hubs.len()
    &&& level == HierarchyLevel::ApplicationFocus ==> 0 <= focus_index(vp) < sec.hubs[vp.hub_index as int].applications.len()
}

fn push_avatar_image(out: &mut Vec<char>, url: &str, name: &str)
    ensures
        final(out)@ == old(out)@ + avatar_image(url@, name@),
{
    let ghost start = out@;
    push_str(out, AVATAR_IMG_0);
    push_str(out, url);
    push_str(out, AVATAR_IMG_1);
    push_str(out, name);
    push_str(out, AVATAR_IMG_2);
    assert(out@ =~= start + avatar_image(url@, name@));
}

fn push_avatar_initial(out: &mut Vec<char>, initial: &str)
    ensures
        final(out)@ == old(out)@ + avatar_initial(initial@),
{
    let ghost start = out@;
    push_str(out, AVATAR_INITIAL_0);
    push_str(out, initial);
    push_str(out, AVATAR_INITIAL_1);
    assert(out@ =~= start + avatar_initial(initial@));
}

fn push_avatar_html(out: &mut Vec<char>, local_class: &str, color: &str, name: &str, role: &str, content: &Vec<char>)
    ensures
        final(out)@ == old(out)@ + avatar_html(local_class@, color@, name@, role@, content@),
{
    let ghost start = out@;
    push_str(out, AVATAR_0);
    push_str(out, local_class);
    push_str(out, AVATAR_1);
    push_str(out, color);
    push_str(out, AVATAR_2);
    push_str(out, name);
    push_str(out, AVATAR_3);
    push_str(out, role);
    push_str(out, AVATAR_4);
    push_chars(out, content);
    push_str(out, AVATAR_5);
    assert(out@ =~= start + avatar_html(local_class@, color@, name@, role@, content@));
}

fn push_focus_bezel_html(out: &mut Vec<char>, priority_class: &str, color: &str, icon: &str, title: &str)
    ensures
        final(out)@ == old(out)@ + focus_bezel_html(priority_class@, color@, icon@, title@),
{
    let ghost start = out@;
    push_str(out, BEZEL_FOCUS_0);
    push_str(out, priority_class);
    push_str(out, BEZEL_FOCUS_1);
    push_str(out, color);
    push_str(out, BEZEL_FOCUS_2);
    push_str(out, icon);
    push_str(out, BEZEL_FOCUS_3);
    push_str(out, title);
    push_str(out, BEZEL_FOCUS_4);
    assert(out@ =~= start + focus_bezel_html(priority_class@, color@, icon@, title@));
}

fn push_suggestion_html(out: &mut Vec<char>, command: &Vec<char>, text: &str, description: &str)
    ensures
        final(out)@ == old(out)@ + suggestion_html(command@, text@, description@),
{
    let ghost start = out@;
    push_str(out, SUGGESTION_0);
    push_chars(out, command);
    push_str(out, SUGGESTION_1);
    push_str(out, text);
    push_str(out, SUGGESTION_2);
    push_str(out, description);
    push_str(out, SUGGESTION_3);
    assert(out@ =~= start + suggestion_html(command@, text@, description@));
}

fn push_hub_bezel_html(out: &mut Vec<char>, priority_class: &str, color: &str, cmd_active: &str, disabled_switch: &str, cmd_onclick: &str, dir_active: &str, dir_onclick: &str, act_active: &str, act_onclick: &str, title: &str, avatars: &Vec<char>, drawer_active_class: &str, suggestions: &Vec<char>)
    ensures
        final(out)@ == old(out)@ + hub_bezel_html(priority_class@, color@, cmd_active@, disabled_switch@, cmd_onclick@, dir_active@, dir_onclick@, act_active@, act_onclick@, title@, avatars@, drawer_active_class@, suggestions@),
{
    let ghost start = out@;
    push_str(out, BEZEL_HUB_0);
    push_str(out, priority_class);
    push_str(out, BEZEL_HUB_1);
    push_str(out, color);
    push_str(out, BEZEL_HUB_2);
    push_str(out, cmd_active);
    push_str(out, BEZEL_HUB_3);
    push_str(out, disabled_switch);
    push_str(out, BEZEL_HUB_4);
    push_str(out, cmd_onclick);
    push_str(out, BEZEL_HUB_5);
    push_str(out, dir_active);
    push_str(out, BEZEL_HUB_6);
    push_str(out, disabled_switch);
    push_str(out, BEZEL_HUB_7);
    push_str(out, dir_onclick);
    push_str(out, BEZEL_HUB_8);
    push_str(out, act_active);
    push_str(out, BEZEL_HUB_9);
    push_str(out, disabled_switch);
    push_str(out, BEZEL_HUB_10);
    push_str(out, act_onclick);
    push_str(out, BEZEL_HUB_11);
    push_str(out, title);
    push_str(out, BEZEL_HUB_12);
    push_chars(out, avatars);
    push_str(out, BEZEL_HUB_13);
    push_str(out, drawer_active_class);
    push_str(out, BEZEL_HUB_14);
    push_chars(out, suggestions);
    push_str(out, BEZEL_HUB_15);
    assert(out@ =~= start + hub_bezel_html(priority_class@, color@, cmd_active@, disabled_switch@, cmd_onclick@, dir_active@, dir_onclick@, act_active@, act_onclick@, title@, avatars@, drawer_active_class@, suggestions@));
}

fn push_global_bezel_html(out: &mut Vec<char>, priority_class: &str, color: &str, disabled_manage: &str, avatars: &Vec<char>)
    ensures
        final(out)@ == old(out)@ + global_bezel_html(priority_class@, color@, disabled_manage@, avatars@),
{
    let ghost start = out@;
    push_str(out, BEZEL_GLOBAL_0);
    push_str(out, priority_class);
    push_str(out, BEZEL_GLOBAL_1);
    push_str(out, color);
    push_str(out, BEZEL_GLOBAL_2);
    push_str(out, disabled_manage);
    push_str(out, BEZEL_GLOBAL_3);
    push_chars(out, avatars);
    push_str(out, BEZEL_GLOBAL_4);
    push_str(out, disabled_manage);
    push_str(out, BEZEL_GLOBAL_5);
    assert(out@ =~= start + global_bezel_html(priority_class@, color@, disabled_manage@, avatars@));
}

fn push_plain_bezel_html(out: &mut Vec<char>, color: &str, title: &str)
    ensures
        final(out)@ == old(out)@ + plain_bezel_html(color@, title@),
{
    let ghost start = out@;
    push_str(out, BEZEL_PLAIN_0);
    push_str(out, color);
    push_str(out, BEZEL_PLAIN_1);
    push_str(out, title);
    push_str(out, BEZEL_PLAIN_2);
    assert(out@ =~= start + plain_bezel_html(color@, title@));
}

fn push_bezel_slider_html(out: &mut Vec<char>, cmd: &str)
    ensures
        final(out)@ == old(out)@ + bezel_slider_html(cmd@),
{
    let ghost start = out@;
    push_str(out, BEZEL_SLIDER_0);
    push_str(out, cmd);
    push_str(out, BEZEL_SLIDER_1);
    push_str(out, cmd);
    push_str(out, BEZEL_SLIDER_2);
    assert(out@ =~= start + bezel_slider_html(cmd@));
}

fn push_calibration_html(out: &mut Vec<char>, priority: u32, gain: u32, sensitivity: u32, portal_active_class: &str, portal_label: &str, portal_url: &Vec<char>)
    ensures
        final(out)@ == old(out)@ + calibration_html(priority as nat, gain as nat, sensitivity as nat, portal_active_class@, portal_label@, portal_url@),
{
    let ghost start = out@;
    push_str(out, BEZEL_CALIBRATION_0);
    push_milli(out, priority);
    push_str(out, BEZEL_CALIBRATION_1);
    push_milli(out, gain);
    push_str(out, BEZEL_CALIBRATION_2);
    push_milli(out, sensitivity);
    push_str(out, BEZEL_CALIBRATION_3);
    push_str(out, portal_active_class);
    push_str(out, BEZEL_CALIBRATION_4);
    push_str(out, portal_label);
    push_str(out, BEZEL_CALIBRATION_5);
    push_chars(out, portal_url);
    push_str(out, BEZEL_CALIBRATION_6);
    assert(out@ =~= start + calibration_html(priority as nat, gain as nat, sensitivity as nat, portal_active_class@, portal_label@, portal_url@));
}

fn push_expanded_bezel_html(out: &mut Vec<char>, priority_class: &str, color: &str, title: &str, slider: &Vec<char>, level_specific: &Vec<char>, fps: u32, disabled_manage: &str)
    ensures
        final(out)@ == old(out)@ + expanded_bezel_html(priority_class@, color@, title@, slider@, level_specific@, fps as nat, disabled_manage@),
{
    let ghost start = out@;
    push_str(out, BEZEL_EXPANDED_0);
    push_str(out, priority_class);
    push_str(out, BEZEL_EXPANDED_1);
    push_str(out, color);
    push_str(out, BEZEL_EXPANDED_2);
    push_str(out, title);
    push_str(out, BEZEL_EXPANDED_3);
    push_chars(out, slider);
    push_str(out, BEZEL_EXPANDED_4);
    push_chars(out, level_specific);
    push_str(out, BEZEL_EXPANDED_5);
    push_one_decimal(out, fps);
    push_str(out, BEZEL_EXPANDED_6);
    push_str(out, disabled_manage);
    push_str(out, BEZEL_EXPANDED_7);
    assert(out@ =~= start + expanded_bezel_html(priority_class@, color@, title@, slider@, level_specific@, fps as nat, disabled_manage@));
}

fn push_portal_url_html(out: &mut Vec<char>, url: &str)
    ensures
        final(out)@ == old(out)@ + portal_url_html(url@),
{
    let ghost start = out@;
    push_str(out, PORTAL_URL_0);
    push_str(out, url);
    push_str(out, PORTAL_URL_1);
    assert(out@ =~= start + portal_url_html(url@));
}

fn push_avatar(out: &mut Vec<char>, p: &Participant, local: u128)
    ensures
        final(out)@ == old(out)@ + avatar(*p, local),
{
    let local_class = if p.id == local {
        "local"
    } else {
        ""
    };
    proof {
        reveal_strlit("local");
        reveal_strlit("");
    }
    let mut content: Vec<char> = Vec::new();
    match &p.avatar_url {
        Some(u) => push_avatar_image(&mut content, u.as_str(), p.name.as_str()),
        None => {
            let cs = chars_of(p.name.as_str());
            let initial = if cs.len() == 0 {
                proof {
                    reveal_strlit("?");
                }
                String::from_str("?")
            } else {
                let first = slice_vec(&cs, 0, 1);
                assert(first@ =~= p.name@.take(1));
                let f = string_of(&first);
                to_uppercase(f.as_str())
            };
            push_avatar_initial(&mut content, initial.as_str());
        },
    }
    push_avatar_html(out, local_class, p.color.as_str(), p.name.as_str(), p.role.as_str(), &content);
}

fn push_avatars(out: &mut Vec<char>, ps: &Vec<Participant>, local: u128)
    ensures
        final(out)@ == old(out)@ + avatars(ps@, local, ps@.len()),
{
    let ghost start = out@;
    let mut k: usize = 0;
    while k < ps.len()
        invariant
            0 <= k <= ps@.len(),
            out@ == start + avatars(ps@, local, k as nat),
        decreases ps@.len() - k,
    {
        push_avatar(out, &ps[k], local);
        k = k + 1;
        assert(out@ =~= start + avatars(ps@, local, k as nat));
    }
}

fn push_suggestions(out: &mut Vec<char>, ss: &Vec<CommandSuggestion>)
    ensures
        final(out)@ == old(out)@ + suggestions(ss@, ss@.len()),
{
    let ghost start = out@;
    let mut k: usize = 0;
    while k < ss.len()
        invariant
            0 <= k <= ss@.len(),
            out@ == start + suggestions(ss@, k as nat),
        decreases ss@.len() - k,
    {
        let s = &ss[k];
        let cs = chars_of(s.command.as_str());
        let cmd = replace_char_vec(&cs, '\'', "\\'");
        proof {
            reveal_strlit("\\'");
        }
        push_suggestion_html(out, &cmd, s.text.as_str(), s.description.as_str());
        k = k + 1;
        assert(out@ =~= start + suggestions(ss@, k as nat));
    }
}

fn title_of(state: &TosState, vp: &Viewport, level: HierarchyLevel) -> (t: String)
    requires
        bezel_drawable(state@, *vp, level, BezelState::Collapsed),
    ensures
        t@ == bezel_title(state@, *vp, level),
{
    let sector = &state.sectors[vp.sector_index];
    if level == HierarchyLevel::ApplicationFocus {
        let hub = &sector.hubs[vp.hub_index];
        let ai = match vp.active_app_index {
            Some(i) => i,
            None => 0,
        };
        let app = &hub.applications[ai];
        let mut v: Vec<char> = Vec::new();
        let t = to_uppercase(app.title.as_str());
        push_str(&mut v, t.as_str());
        push_str(&mut v, " // ");
        let c = to_uppercase(app.app_class.as_str());
        push_str(&mut v, c.as_str());
        string_of(&v)
    } else {
        to_uppercase(sector.name.as_str())
    }
}

fn mode_onclick_text(allowed: bool, mode: &str) -> (v: Vec<char>)
    ensures
        v@ == mode_onclick(allowed, mode@),
{
    let mut v: Vec<char> = Vec::new();
    if allowed {
        push_str(&mut v, "window.ipc.postMessage('set_mode:");
        push_str(&mut v, mode);
        push_str(&mut v, "')");
    } else {
        proof {
            reveal_strlit("");
        }
    }
    v
}

fn active_str(b: bool) -> (s: &'static str)
    ensures
        s@ == active_if(b),
{
    proof {
        reveal_strlit("active");
        reveal_strlit("");
    }
    if b {
        "active"
    } else {
        ""
    }
}

fn disabled_str(b: bool) -> (s: &'static str)
    ensures
        s@ == disabled_unless(b),
{
    proof {
        reveal_strlit("disabled");
        reveal_strlit("");
    }
    if b {
        ""
    } else {
        "disabled"
    }
}

fn priority_str(t: u32) -> (s: &'static str)
    ensures
        s@ == priority_class(t),
{
    proof {
        reveal_strlit("priority-high");
        reveal_strlit("priority-medium");
        reveal_strlit("priority-low");
    }
    if t >= 80 {
        "priority-high"
    } else if t >= 50 {
        "priority-medium"
    } else {
        "priority-low"
    }
}

fn push_collapsed(out: &mut Vec<char>, state: &TosState, vp: &Viewport, level: HierarchyLevel, ctx: &BezelContext)
    requires
        bezel_drawable(state@, *vp, level, BezelState::Collapsed),
    ensures
        final(out)@ == old(out)@ + collapsed_bezel(state@, *vp, level, *ctx),
{
    let sector = &state.sectors[vp.sector_index];
    let ghost sec = state@.sectors[vp.sector_index as int];
    assert(sector@ == sec);
    let pc = priority_str(ctx.priority_tenths);
    let title = title_of(state, vp, level);
    match level {
        HierarchyLevel::ApplicationFocus => {
            let icon = match &ctx.app_icon {
                Some(i) => i.as_str(),
                None => sector.icon.as_str(),
            };
            push_focus_bezel_html(out, pc, sector.color.as_str(), icon, title.as_str());
        },
        HierarchyLevel::CommandHub => {
            let hub = &sector.hubs[vp.hub_index];
            assert(hub@ == sec.hubs[vp.hub_index as int]);
            let sw = ctx.can_switch_mode;
            let mut av: Vec<char> = Vec::new();
            push_avatars(&mut av, &sector.participants, ctx.local_participant_id);
            let mut sugg: Vec<char> = Vec::new();
            push_suggestions(&mut sugg, &ctx.suggestions);
            let cmd_on = string_of(&mode_onclick_text(sw, "Command"));
            let dir_on = string_of(&mode_onclick_text(sw, "Directory"));
            let act_on = string_of(&mode_onclick_text(sw, "Activity"));
            proof {
                reveal_strlit("Command");
                reveal_strlit("Directory");
                reveal_strlit("Activity");
            }
            push_hub_bezel_html(
                out,
                pc,
                sector.color.as_str(),
                active_str(hub.mode == CommandHubMode::Command),
                disabled_str(sw),
                cmd_on.as_str(),
                active_str(hub.mode == CommandHubMode::Directory),
                dir_on.as_str(),
                active_str(hub.mode == CommandHubMode::Activity),
                act_on.as_str(),
                title.as_str(),
                &av,
                active_str(ctx.suggestions.len() > 0),
                &sugg,
            );
        },
        HierarchyLevel::GlobalOverview => {
            let mut av: Vec<char> = Vec::new();
            push_avatars(&mut av, &sector.participants, ctx.local_participant_id);
            push_global_bezel_html(out, pc, sector.color.as_str(), disabled_str(ctx.can_manage_sector), &av);
        },
        _ => {
            push_plain_bezel_html(out, sector.color.as_str(), title.as_str());
        },
    }
}

fn push_expanded(out: &mut Vec<char>, state: &TosState, vp: &Viewport, level: HierarchyLevel, ctx: &BezelContext)
    requires
        bezel_drawable(state@, *vp, level, BezelState::Expanded),
    ensures
        final(out)@ == old(out)@ + expanded_bezel(state@, *vp, level, *ctx),
{
    let sector = &state.sectors[vp.sector_index];
    let ghost sec = state@.sectors[vp.sector_index as int];
    assert(sector@ == sec);
    let hub = &sector.hubs[vp.hub_index];
    assert(hub@ == sec.hubs[vp.hub_index as int]);
    let mut slider: Vec<char> = Vec::new();
    match &hub.confirmation_required {
        Some(c) => push_bezel_slider_html(&mut slider, c.as_str()),
        None => {},
    }
    let mut specific: Vec<char> = Vec::new();
    if level == HierarchyLevel::ApplicationFocus {
        let prio = match ctx.app_priority_milli {
            Some(v) => v,
            None => 5000,
        };
        let gain = match ctx.app_gain_milli {
            Some(v) => v,
            None => 75000,
        };
        let sens = match ctx.app_sensitivity_milli {
            Some(v) => v,
            None => 40000,
        };
        let label = if sector.portal_active {
            "DISABLE PORTAL"
        } else {
            "EXPORT PORTAL"
        };
        proof {
            reveal_strlit("DISABLE PORTAL");
            reveal_strlit("EXPORT PORTAL");
        }
        let mut url: Vec<char> = Vec::new();
        match &sector.portal_url {
            Some(u) => push_portal_url_html(&mut url, u.as_str()),
            None => {},
        }
        push_calibration_html(&mut specific, prio, gain, sens, active_str(sector.portal_active), label, &url);
    }
    let title = title_of(state, vp, level);
    let caps = to_uppercase(title.as_str());
    push_expanded_bezel_html(
        out,
        priority_str(ctx.priority_tenths),
        sector.color.as_str(),
        caps.as_str(),
        &slider,
        &specific,
        state.fps_milli,
        disabled_str(ctx.can_manage_sector),
    );
}

/// Draws the bezel of a viewport at a level.
pub fn render_bezel(state: &TosState, viewport: &Viewport, level: HierarchyLevel, bezel_state: BezelState, ctx: &BezelContext) -> (html: String)
    requires
        bezel_drawable(state@, *viewport, level, bezel_state),
    ensures
        html@ == bezel(state@, *viewport, level, bezel_state, *ctx),
{
    let mut out: Vec<char> = Vec::new();
    match bezel_state {
        BezelState::Collapsed => push_collapsed(&mut out, state, viewport, level, ctx),
        BezelState::Expanded => push_expanded(&mut out, state, viewport, level, ctx),
    }
    string_of(&out)
}

} // verus!
