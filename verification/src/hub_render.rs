//! The command hub as HTML: the tactical header with the sector and its
//! participants, the confirmation overlay, the terminal output, the view of
//! the hub's mode (command chips, directory browser, activity tiles) and
//! the unified prompt. What the compositor state does not hold (the render
//! mode, the clock, favourites and suggestions, a local directory read from
//! disk, process statistics, module overlays, templates, the voice
//! indicator) comes in a `HubRenderContext`.
use vstd::prelude::*;
use crate::collaboration::Participant;
use crate::dirsort::{shown_entries, shown_local_entries, LocalEntry};
use crate::ids::{id_to_string, uuid_text};
use crate::model::{string_views, AppView, Application, CommandHub, CommandHubMode, HubView, MenuView, Sector,
    SectorView, StateView, TosState, Viewport};
use crate::procstat::ProcessStats;
use crate::ai::AiMessage;
use crate::search::SearchResult;
use crate::hub_modes::{ai_view, search_view, push_ai_view, push_search_view, AI_SUBMIT};
use crate::remote::ConnectionType;
use crate::render::{escape_html, escaped_html};
use crate::scan::{split_char, split_on, split_whitespace, words};
use crate::shell_api::{CommandSuggestion, DirectoryEntry, EntryType, EntryView, ListingView};
use crate::text::{chars_eq, chars_of, dec, dec_int, digit_char, eq_str, lowercased, milli_text, push_chars, push_i64,
    push_milli, push_str, push_u64, replace_char, replace_char_vec, slice_vec, string_of, to_lowercase, to_uppercase,
    uppercased};

verus! {

/// What the compositor shows of an application besides its state.
pub struct AppInfo {
    pub icon: Option<String>,
    /// Whether the application is a placeholder of the compositor
    pub is_dummy: bool,
    /// Its process's statistics, where they could be read
    pub stats: Option<ProcessStats>,
}

/// What the hub view shows besides the compositor state.
pub struct HubRenderContext {
    /// The render mode, as `{:?}` names it
    pub render_mode: String,
    /// Whether some participant follows another
    pub following_active: bool,
    /// The time shown in the header
    pub time: String,
    /// The favourites of the sector's type (`LABEL:command`), if its type
    /// is known
    pub favourites: Option<Vec<String>>,
    /// The shell's suggestions for the hub
    pub suggestions: Vec<CommandSuggestion>,
    /// The hub's directory read from disk (with readable metadata), or the
    /// error that stopped the reading; used for a local hub without a shell
    /// listing
    pub local_listing: Result<Vec<LocalEntry>, String>,
    /// One for each application of the hub, in order
    pub app_infos: Vec<AppInfo>,
    /// What loaded modules draw over the hub
    pub module_overlays: Vec<String>,
    /// Saved sector templates: name and description
    pub templates: Vec<(String, String)>,
    pub voice_indicator: String,
    /// The voice help, while listening
    pub voice_help: Option<String>,
    /// The conversation with the assistant
    pub ai_history: Vec<AiMessage>,
    /// Whether the assistant is answering
    pub ai_generating: bool,
    /// The results of the last search
    pub search_results: Vec<SearchResult>,
}

pub const HUB_OPEN_0: &'static str = "<div class=\"command-hub ";
pub const HUB_OPEN_1: &'static str = " ";
pub const HUB_OPEN_2: &'static str = " ";
pub const HUB_OPEN_3: &'static str = " render-";
pub const HUB_OPEN_4: &'static str = "\">";
pub const PARTICIPANT_0: &'static str = "<div class=\"participant-avatar\" style=\"background-color: ";
pub const PARTICIPANT_1: &'static str = "\" title=\"";
pub const PARTICIPANT_2: &'static str = " (";
pub const PARTICIPANT_3: &'static str = ")\" onclick=\"window.ipc.postMessage('follow_participant:";
pub const PARTICIPANT_4: &'static str = "')\">";
pub const PARTICIPANT_5: &'static str = "</div>";
pub const HUB_HEADER_0: &'static str = "<div class=\"tactical-header\" style=\"--header-accent: ";
pub const HUB_HEADER_1: &'static str = ";\">\n                <div class=\"header-left\">\n                    <button class=\"bezel-action-btn\" onclick=\"window.ipc.postMessage('zoom_out')\" title=\"Zoom Out\">ZOOM OUT</button>\n                    <button class=\"bezel-action-btn\" onclick=\"window.ipc.postMessage('toggle_output_mode')\" title=\"Standard / Centered Perspective\">OUTPUT</button>\n                    <button class=\"bezel-action-btn\" onclick=\"window.ipc.postMessage('toggle_left_region')\" title=\"Toggle Left Favourites\">FAVS</button>\n                </div>\n                <div class=\"header-center\">\n                    <div class=\"three-way-toggle\">\n                        <div class=\"toggle-segment ";
pub const HUB_HEADER_2: &'static str = "\" onclick=\"window.ipc.postMessage('set_mode:Command')\">COMMAND</div>\n                        <div class=\"toggle-segment ";
pub const HUB_HEADER_3: &'static str = "\" onclick=\"window.ipc.postMessage('set_mode:Directory')\">DIRECTORY</div>\n                        <div class=\"toggle-segment ";
pub const HUB_HEADER_4: &'static str = "\" onclick=\"window.ipc.postMessage('set_mode:Activity')\">ACTIVITY</div>\n                    </div>\n                </div>\n                <div class=\"header-right\">\n                    <div class=\"hub-info-inline\" style=\"display:flex; gap:15px; align-items:center;\">\n                        <div class=\"hub-metadata\">\n                            <span class=\"hub-sector-name\" style=\"font-weight:800; color:";
pub const HUB_HEADER_5: &'static str = ";\">";
pub const HUB_HEADER_6: &'static str = "</span>\n                            <span class=\"hub-host\" style=\"font-size:0.7rem; opacity:0.6; margin-left:10px;\">";
pub const HUB_HEADER_7: &'static str = "</span>\n                        </div>\n                        ";
pub const HUB_HEADER_8: &'static str = "\n                        <div class=\"hub-participants\" style=\"display:flex; gap:5px;\">\n                            ";
pub const HUB_HEADER_9: &'static str = "\n                        </div>\n                        <div class=\"telemetry-item\" style=\"display:flex; gap:15px; align-items:center;\">\n                            <button class=\"bezel-action-btn comms-toggle-btn\" onclick=\"window.ipc.postMessage('toggle_comms')\">COMMS</button>\n                            <button class=\"bezel-action-btn minimap-toggle-btn\" onclick=\"window.ipc.postMessage('semantic_event:ToggleMiniMap')\">MAP</button>\n                            <div class=\"bezel-clock\" style=\"position: relative; top: 0; left: 0; margin-left: 5px;\">";
pub const HUB_HEADER_10: &'static str = "</div>\n                        </div>\n                    </div>\n                </div>\n            </div>";
pub const HUB_DANGER_0: &'static str = "<div class=\"dangerous-overlay\">\n                    <div class=\"alert-header\">TACTICAL ALERT // DANGEROUS COMMAND DETECTED</div>\n                    <div class=\"alert-subline\">EXECUTION BLOCKED PENDING TACTILE CONFIRMATION</div>\n                    <div class=\"dangerous-command\">SPEC: ";
pub const HUB_DANGER_1: &'static str = "</div>\n                    <div class=\"confirmation-zone\">\n                        <div class=\"slider-track\">\n                            <input type=\"range\" class=\"confirm-slider\" min=\"0\" max=\"100\" value=\"0\" \n                                oninput=\"if(this.value == 100) { window.ipc.postMessage('prompt_submit:";
pub const HUB_DANGER_2: &'static str = "'); }\"\n                                onchange=\"if(this.value < 100) { this.value = 0; }\">\n                            <div class=\"slider-label\">SLIDE TO CONFIRM EXECUTION</div>\n                        </div>\n                    </div>\n                    <div class=\"bezel-btn danger\" onclick=\"window.ipc.postMessage('stage_command:')\">ABORT ACTION</div>\n                </div>";
pub const LOG_LINE_0: &'static str = "<div class=\"log-line\">";
pub const LOG_LINE_1: &'static str = "</div>";
pub const TERMINAL_0: &'static str = "<div class=\"terminal-container background-layer\">\n                <div class=\"terminal-output\" id=\"hub-term-";
pub const TERMINAL_1: &'static str = "\">\n                    ";
pub const TERMINAL_2: &'static str = "\n                </div>\n            </div>";
pub const FAV_CHIP_0: &'static str = "<button class=\"chip-btn\" onclick=\"window.ipc.postMessage('stage_command:";
pub const FAV_CHIP_1: &'static str = " ')\">";
pub const FAV_CHIP_2: &'static str = "</button>";
pub const SUGGESTION_CHIP_0: &'static str = "<button class=\"chip-btn priority-high\" onclick=\"window.ipc.postMessage('stage_command:";
pub const SUGGESTION_CHIP_1: &'static str = "')\" title=\"";
pub const SUGGESTION_CHIP_2: &'static str = "\">";
pub const SUGGESTION_CHIP_3: &'static str = "</button>";
pub const COMMAND_VIEW_0: &'static str = "<div class=\"command-view foreground-layer\">\n                    <div class=\"left-chip-region\">\n                        <div class=\"chip-region-title\" style=\"font-size:0.7em;color:var(--lcars-orange);margin-bottom:10px;\">FAVORITES</div>\n                        ";
pub const COMMAND_VIEW_1: &'static str = "\n                    </div>\n                    <div class=\"terminal-spacer\" style=\"flex:1; pointer-events:none;\"></div>\n                    <div class=\"right-chip-region\">\n                        <div class=\"chip-region-title\" style=\"font-size:0.7em;color:var(--lcars-orange);margin-bottom:10px;\">SUGGESTIONS</div>\n                        ";
pub const COMMAND_VIEW_2: &'static str = "\n                    </div>\n                </div>";
pub const BREADCRUMB_0: &'static str = "<span class=\"path-sep\">/</span><span class=\"breadcrumb\" onclick=\"window.ipc.postMessage('dir_navigate:";
pub const BREADCRUMB_1: &'static str = "')\">";
pub const BREADCRUMB_2: &'static str = "</span>";
pub const SHELL_DIR_0: &'static str = "<div class=\"file-item staging-item ";
pub const SHELL_DIR_1: &'static str = "\" \n                                        onclick=\"window.ipc.postMessage('dir_navigate:";
pub const SHELL_DIR_2: &'static str = "')\"\n                                        oncontextmenu=\"event.preventDefault(); window.ipc.postMessage('dir_context:";
pub const SHELL_DIR_3: &'static str = ";' + event.clientX + ';' + event.clientY)\">\n                                        <div class=\"file-selector\" onclick=\"event.stopPropagation(); window.ipc.postMessage('dir_toggle_select:";
pub const SHELL_DIR_4: &'static str = "')\"></div>\n                                        <span class=\"file-icon folder\"></span> ";
pub const SHELL_DIR_5: &'static str = "/\n                                    </div>";
pub const SHELL_FILE_0: &'static str = "<div class=\"file-item staging-item ";
pub const SHELL_FILE_1: &'static str = "\" \n                                        onclick=\"window.ipc.postMessage('dir_pick_file:";
pub const SHELL_FILE_2: &'static str = "')\"\n                                        oncontextmenu=\"event.preventDefault(); window.ipc.postMessage('dir_context:";
pub const SHELL_FILE_3: &'static str = ";' + event.clientX + ';' + event.clientY)\">\n                                        <div class=\"file-selector\" onclick=\"event.stopPropagation(); window.ipc.postMessage('dir_toggle_select:";
pub const SHELL_FILE_4: &'static str = "')\"></div>\n                                        <span class=\"file-icon file\"></span>\n                                        <div class=\"file-info\">\n                                            <div class=\"file-name\">";
pub const SHELL_FILE_5: &'static str = "</div>\n                                            <div class=\"file-meta\">";
pub const SHELL_FILE_6: &'static str = "</div>\n                                        </div>\n                                    </div>";
pub const LOCAL_DIR_0: &'static str = "<div class=\"file-item staging-item ";
pub const LOCAL_DIR_1: &'static str = "\" \n                                    onclick=\"window.ipc.postMessage('dir_navigate:";
pub const LOCAL_DIR_2: &'static str = "')\"\n                                    oncontextmenu=\"event.preventDefault(); window.ipc.postMessage('dir_context:";
pub const LOCAL_DIR_3: &'static str = ";' + event.clientX + ';' + event.clientY)\">\n                                    <div class=\"file-selector\" onclick=\"event.stopPropagation(); window.ipc.postMessage('dir_toggle_select:";
pub const LOCAL_DIR_4: &'static str = "')\"></div>\n                                    <span class=\"file-icon folder\"></span> ";
pub const LOCAL_DIR_5: &'static str = "/\n                                </div>";
pub const LOCAL_FILE_0: &'static str = "<div class=\"file-item staging-item ";
pub const LOCAL_FILE_1: &'static str = "\" \n                                    onclick=\"window.ipc.postMessage('dir_pick_file:";
pub const LOCAL_FILE_2: &'static str = "')\"\n                                    oncontextmenu=\"event.preventDefault(); window.ipc.postMessage('dir_context:";
pub const LOCAL_FILE_3: &'static str = ";' + event.clientX + ';' + event.clientY)\">\n                                    <div class=\"file-selector\" onclick=\"event.stopPropagation(); window.ipc.postMessage('dir_toggle_select:";
pub const LOCAL_FILE_4: &'static str = "')\"></div>\n                                    <span class=\"file-icon ";
pub const LOCAL_FILE_5: &'static str = "\"></span>\n                                    <div class=\"file-info\">\n                                        <div class=\"file-name\">";
pub const LOCAL_FILE_6: &'static str = "</div>\n                                        <div class=\"file-meta\">";
pub const LOCAL_FILE_7: &'static str = " // ";
pub const LOCAL_FILE_8: &'static str = "</div>\n                                    </div>\n                                </div>";
pub const HIDDEN_TOGGLE_0: &'static str = "<div class=\"file-item action-item\" onclick=\"window.ipc.postMessage('dir_toggle_hidden')\">\n                                <span class=\"file-icon\"></span> ";
pub const HIDDEN_TOGGLE_1: &'static str = " FILES\n                            </div>";
pub const DIR_ERROR_0: &'static str = "<div class=\"file-item error-item\">\n                                <span class=\"file-icon\"></span> ACCESS DENIED: ";
pub const DIR_ERROR_1: &'static str = "\n                            </div>";
pub const FILE_TOOLBAR_0: &'static str = "<div class=\"action-toolbar\">\n                                    <div class=\"toolbar-label\">";
pub const FILE_TOOLBAR_1: &'static str = " FILES SELECTED</div>\n                                    <div class=\"toolbar-actions\">\n                                        <button class=\"bezel-btn\" onclick=\"window.ipc.postMessage('dir_batch_copy')\">REPLICATE</button>\n                                        <button class=\"bezel-btn danger\" onclick=\"window.ipc.postMessage('dir_batch_delete')\">PURGE</button>\n                                        <button class=\"bezel-btn\" onclick=\"window.ipc.postMessage('dir_clear_select')\">CLEAR</button>\n                                    </div>\n                                </div>";
pub const MENU_ITEM_0: &'static str = "<div class=\"menu-item\" onclick=\"window.ipc.postMessage('stage_command:";
pub const MENU_ITEM_1: &'static str = "'); window.ipc.postMessage('dir_close_context')\">";
pub const MENU_ITEM_2: &'static str = "</div>";
pub const CONTEXT_MENU_0: &'static str = "<div class=\"context-menu-overlay\" onclick=\"window.ipc.postMessage('dir_close_context')\">\n                                    <div class=\"context-menu\" style=\"left: ";
pub const CONTEXT_MENU_1: &'static str = "px; top: ";
pub const CONTEXT_MENU_2: &'static str = "px;\" onclick=\"event.stopPropagation()\">\n                                        <div class=\"menu-header\">";
pub const CONTEXT_MENU_3: &'static str = "</div>\n                                        ";
pub const CONTEXT_MENU_4: &'static str = "\n                                    </div>\n                                </div>";
pub const APP_TILE_0: &'static str = "<div class=\"app-tile staging-item ";
pub const APP_TILE_1: &'static str = "\">\n                            <div class=\"file-selector\" onclick=\"event.stopPropagation(); window.ipc.postMessage('app_toggle_select:";
pub const APP_TILE_2: &'static str = "')\"></div>\n                            <div class=\"app-tile-header\" onclick=\"window.ipc.postMessage('stage_command:focus ";
pub const APP_TILE_3: &'static str = "')\">\n                                <div class=\"app-tile-icon\">";
pub const APP_TILE_4: &'static str = "</div>\n                                <div class=\"app-tile-info\">\n                                    <div class=\"app-title\">";
pub const APP_TILE_5: &'static str = "</div>\n                                    <div class=\"app-class\">";
pub const APP_TILE_6: &'static str = "</div>\n                                    <div class=\"app-pid\" style=\"font-size: 0.7em; color: var(--tos-gold); opacity: 0.7;\">";
pub const APP_TILE_7: &'static str = "</div>\n                                </div>\n                            </div>\n                            <div class=\"app-tile-stats\">\n                                <div class=\"stat\">";
pub const APP_TILE_8: &'static str = "</div>\n                                <div class=\"stat\">";
pub const APP_TILE_9: &'static str = "</div>\n                            </div>\n                            <div class=\"app-tile-actions\">\n                                <button class=\"tile-btn\" onclick=\"window.ipc.postMessage('signal_app:";
pub const APP_TILE_10: &'static str = ";INT')\">SIGINT</button>\n                                <button class=\"tile-btn danger\" onclick=\"window.ipc.postMessage('kill_app:";
pub const APP_TILE_11: &'static str = "')\">KILL</button>\n                            </div>\n                        </div>";
pub const APP_TOOLBAR_0: &'static str = "<div class=\"action-toolbar\">\n                        <div class=\"toolbar-label\">";
pub const APP_TOOLBAR_1: &'static str = " APPS SELECTED</div>\n                        <div class=\"toolbar-actions\">\n                            <button class=\"bezel-btn danger\" onclick=\"window.ipc.postMessage('app_batch_kill')\">KILL</button>\n                            <button class=\"bezel-btn\" onclick=\"window.ipc.postMessage('app_batch_signal:INT')\">SIGINT</button>\n                            <button class=\"bezel-btn\" onclick=\"window.ipc.postMessage('dir_clear_select')\">CLEAR</button>\n                        </div>\n                    </div>";
pub const ACTIVITY_VIEW_0: &'static str = "<div class=\"activity-view foreground-layer\">\n                        <div class=\"activity-section\">\n                            <div class=\"section-title\">ACTIVE PROCESSES</div>\n                            ";
pub const ACTIVITY_VIEW_1: &'static str = "\n                            <div class=\"activity-grid\">\n                                ";
pub const ACTIVITY_VIEW_2: &'static str = "\n                                <div class=\"app-tile add-tile\" onclick=\"window.ipc.postMessage('spawn_app')\">\n                                    <span>+ NEW PROCESS</span>\n                                </div>\n                            </div>\n                        </div>\n                        <div class=\"activity-section\">\n                            <div class=\"section-title\">MODULE DATA FEEDS</div>\n                            <div class=\"module-data-grid\">\n                                ";
pub const ACTIVITY_VIEW_3: &'static str = "\n                            </div>\n                        </div>\n                        <div class=\"activity-section\">\n                            <div class=\"section-title\">SECTOR TEMPLATES</div>\n                            <div class=\"template-registry\">\n                                ";
pub const ACTIVITY_VIEW_4: &'static str = "\n                                <div class=\"template-item action-item\" onclick=\"window.ipc.postMessage('save_template:Current-Sector')\">\n                                    <div class=\"template-name\">+ SAVE CURRENT AS TEMPLATE</div>\n                                </div>\n                            </div>\n                        </div>\n                    </div>";
pub const TEMPLATE_0: &'static str = "<div class=\"template-item\" onclick=\"window.ipc.postMessage('load_template:";
pub const TEMPLATE_1: &'static str = "')\">\n                                    <div class=\"template-name\">";
pub const TEMPLATE_2: &'static str = "</div>\n                                    <div class=\"template-meta\">";
pub const TEMPLATE_3: &'static str = "</div>\n                                </div>";
pub const PROMPT_0: &'static str = "<div class=\"unified-prompt\">\n                <div class=\"left-section\">\n                    <div class=\"three-way-toggle\">\n                        <div class=\"toggle-segment ";
pub const PROMPT_1: &'static str = "\" onclick=\"window.ipc.postMessage('set_mode:Command')\">CMD</div>\n                        <div class=\"toggle-segment ";
pub const PROMPT_2: &'static str = "\" onclick=\"window.ipc.postMessage('set_mode:Search')\">SEARCH</div>\n                        <div class=\"toggle-segment ";
pub const PROMPT_3: &'static str = "\" onclick=\"window.ipc.postMessage('set_mode:Ai')\">AI</div>\n                    </div>\n                </div>\n                <div class=\"center-section\">\n                    <div class=\"prompt-container\">\n                        <div class=\"prompt-prefix\">TOS@";
pub const PROMPT_4: &'static str = " ></div>\n                        <input type=\"text\" id=\"terminal-input\" value=\"";
pub const PROMPT_5: &'static str = "\" \n                            onkeydown=\"window.handlePromptKey(event)\" \n                            oninput=\"window.handlePromptInput(event)\"\n                            autofocus>\n                    </div>\n                </div>\n                <div class=\"right-section\">\n                    <div class=\"prompt-controls\">\n                        <div class=\"voice-trigger\" style=\"font-size:1.5rem;cursor:pointer;\" onclick=\"window.ipc.postMessage('semantic_event:VoiceCommandStart')\">\n                            ";
pub const PROMPT_6: &'static str = "\n                        </div>\n                        ";
pub const PROMPT_7: &'static str = "\n                        <div class=\"stop-btn\" onclick=\"window.ipc.postMessage('semantic_event:StopOperation')\" title=\"STOP (Ctrl+Shift+C)\">\u{23f9}\u{fe0f}</div>\n                    </div>\n                </div>\n            </div>";
pub const VOICE_OVERLAY_0: &'static str = "<div class=\"voice-overlay\">\n                    ";
pub const VOICE_OVERLAY_1: &'static str = "\n                </div>";
pub const FOLLOW_ACTIVE: &'static str = "<div class=\"follow-indicator active\">FOLLOW MODE ACTIVE</div>";
pub const HUB_CONTENT: &'static str = "<div class=\"hub-content\">";
pub const DIRECTORY_VIEW: &'static str = "<div class=\"directory-view foreground-layer\">\n                    <div class=\"path-bar breadcrumbs\">";
pub const BREADCRUMB_ROOT: &'static str = "<span class=\"breadcrumb\" onclick=\"window.ipc.postMessage('dir_navigate:/')\">ROOT</span>";
pub const DIRECTORY_ACTIONS: &'static str = "<div class=\"directory-actions\">\n                    <button class=\"bezel-btn\" onclick=\"window.ipc.postMessage('stage_command:mkdir ')\">NEW FOLDER</button>\n                    <button class=\"bezel-btn\" onclick=\"window.ipc.postMessage('dir_action_copy')\">COPY</button>\n                    <button class=\"bezel-btn\" onclick=\"window.ipc.postMessage('dir_action_paste')\">PASTE</button>\n                    <button class=\"bezel-btn\" onclick=\"window.ipc.postMessage('stage_command:mv ')\">RENAME</button>\n                    <button class=\"bezel-btn\" onclick=\"window.ipc.postMessage('dir_toggle_hidden')\">TOGGLE HIDDEN</button>\n                    <button class=\"bezel-btn danger\" onclick=\"window.ipc.postMessage('stage_command:rm ')\">DELETE</button>\n                    <button class=\"bezel-btn\" onclick=\"window.ipc.postMessage('dir_navigate:.')\">REFRESH</button>\n                </div>";
pub const FILE_GRID: &'static str = "<div class=\"file-grid\">";
pub const PARENT_ENTRY: &'static str = "<div class=\"file-item staging-item\" onclick=\"window.ipc.postMessage('dir_navigate:..')\">\n                    <span class=\"file-icon folder\"></span> ..\n                </div>";
pub const WAITING_FOR_SHELL: &'static str = "<div class=\"file-item status-item\">WAITING FOR SHELL...</div>";
pub const NO_TEMPLATES: &'static str = "<div class=\"template-item empty\">NO TEMPLATES FOUND</div>";
/// The opening of a command hub with its classes.
pub open spec fn hub_open_html(mode_type_class: Seq<char>, perspective_class: Seq<char>, region_class: Seq<char>, mode: Seq<char>) -> Seq<char> {
    HUB_OPEN_0@
        + mode_type_class
        + HUB_OPEN_1@
        + perspective_class
        + HUB_OPEN_2@
        + region_class
        + HUB_OPEN_3@
        + mode
        + HUB_OPEN_4@
}

/// A participant of the header.
pub open spec fn participant_html(color: Seq<char>, name: Seq<char>, role: Seq<char>, initials: Seq<char>, id: u128) -> Seq<char> {
    PARTICIPANT_0@
        + color
        + PARTICIPANT_1@
        + name
        + PARTICIPANT_2@
        + role
        + PARTICIPANT_3@
        + uuid_text(id)
        + PARTICIPANT_4@
        + initials
        + PARTICIPANT_5@
}

/// The tactical header of a hub.
pub open spec fn hub_header_html(color: Seq<char>, cmd_active: Seq<char>, dir_active: Seq<char>, act_active: Seq<char>, name: Seq<char>, host: Seq<char>, follow_indicator: Seq<char>, participants_html: Seq<char>, time: Seq<char>) -> Seq<char> {
    HUB_HEADER_0@
        + color
        + HUB_HEADER_1@
        + cmd_active
        + HUB_HEADER_2@
        + dir_active
        + HUB_HEADER_3@
        + act_active
        + HUB_HEADER_4@
        + color
        + HUB_HEADER_5@
        + name
        + HUB_HEADER_6@
        + host
        + HUB_HEADER_7@
        + follow_indicator
        + HUB_HEADER_8@
        + participants_html
        + HUB_HEADER_9@
        + time
        + HUB_HEADER_10@
}

/// The overlay for a command awaiting confirmation.
pub open spec fn hub_danger_html(cmd: Seq<char>) -> Seq<char> {
    HUB_DANGER_0@
        + cmd
        + HUB_DANGER_1@
        + cmd
        + HUB_DANGER_2@
}

/// A line of terminal output.
pub open spec fn log_line_html(line: Seq<char>) -> Seq<char> {
    LOG_LINE_0@
        + line
        + LOG_LINE_1@
}

/// The terminal output of a hub.
pub open spec fn terminal_html(hub_id: u128, lines: Seq<char>) -> Seq<char> {
    TERMINAL_0@
        + uuid_text(hub_id)
        + TERMINAL_1@
        + lines
        + TERMINAL_2@
}

/// A favourite command chip.
pub open spec fn favourite_chip_html(cmd: Seq<char>, label: Seq<char>) -> Seq<char> {
    FAV_CHIP_0@
        + cmd
        + FAV_CHIP_1@
        + label
        + FAV_CHIP_2@
}

/// A suggestion chip.
pub open spec fn suggestion_chip_html(cmd: Seq<char>, description: Seq<char>, text: Seq<char>) -> Seq<char> {
    SUGGESTION_CHIP_0@
        + cmd
        + SUGGESTION_CHIP_1@
        + description
        + SUGGESTION_CHIP_2@
        + text
        + SUGGESTION_CHIP_3@
}

/// The command view with its chip regions.
pub open spec fn command_view_html(left: Seq<char>, right: Seq<char>) -> Seq<char> {
    COMMAND_VIEW_0@
        + left
        + COMMAND_VIEW_1@
        + right
        + COMMAND_VIEW_2@
}

/// A breadcrumb of the path bar.
pub open spec fn breadcrumb_html(path: Seq<char>, name: Seq<char>) -> Seq<char> {
    BREADCRUMB_0@
        + path
        + BREADCRUMB_1@
        + name
        + BREADCRUMB_2@
}

/// A directory of a shell listing.
pub open spec fn shell_dir_html(selected_class: Seq<char>, escaped: Seq<char>, display: Seq<char>) -> Seq<char> {
    SHELL_DIR_0@
        + selected_class
        + SHELL_DIR_1@
        + escaped
        + SHELL_DIR_2@
        + escaped
        + SHELL_DIR_3@
        + escaped
        + SHELL_DIR_4@
        + display
        + SHELL_DIR_5@
}

/// A file of a shell listing.
pub open spec fn shell_file_html(selected_class: Seq<char>, escaped: Seq<char>, display: Seq<char>, size: Seq<char>) -> Seq<char> {
    SHELL_FILE_0@
        + selected_class
        + SHELL_FILE_1@
        + escaped
        + SHELL_FILE_2@
        + escaped
        + SHELL_FILE_3@
        + escaped
        + SHELL_FILE_4@
        + display
        + SHELL_FILE_5@
        + size
        + SHELL_FILE_6@
}

/// A directory read from the file system.
pub open spec fn local_dir_html(selected_class: Seq<char>, escaped: Seq<char>, display: Seq<char>) -> Seq<char> {
    LOCAL_DIR_0@
        + selected_class
        + LOCAL_DIR_1@
        + escaped
        + LOCAL_DIR_2@
        + escaped
        + LOCAL_DIR_3@
        + escaped
        + LOCAL_DIR_4@
        + display
        + LOCAL_DIR_5@
}

/// A file read from the file system.
pub open spec fn local_file_html(selected_class: Seq<char>, escaped: Seq<char>, ext_class: Seq<char>, display: Seq<char>, size: Seq<char>, ext: Seq<char>) -> Seq<char> {
    LOCAL_FILE_0@
        + selected_class
        + LOCAL_FILE_1@
        + escaped
        + LOCAL_FILE_2@
        + escaped
        + LOCAL_FILE_3@
        + escaped
        + LOCAL_FILE_4@
        + ext_class
        + LOCAL_FILE_5@
        + display
        + LOCAL_FILE_6@
        + size
        + LOCAL_FILE_7@
        + ext
        + LOCAL_FILE_8@
}

/// The hidden-files toggle.
pub open spec fn hidden_toggle_html(label: Seq<char>) -> Seq<char> {
    HIDDEN_TOGGLE_0@
        + label
        + HIDDEN_TOGGLE_1@
}

/// A directory that could not be read.
pub open spec fn dir_error_html(error: Seq<char>) -> Seq<char> {
    DIR_ERROR_0@
        + error
        + DIR_ERROR_1@
}

/// The toolbar for selected files.
pub open spec fn file_toolbar_html(count: nat) -> Seq<char> {
    FILE_TOOLBAR_0@
        + dec(count)
        + FILE_TOOLBAR_1@
}

/// An action of the context menu.
pub open spec fn menu_item_html(cmd: Seq<char>, action: Seq<char>) -> Seq<char> {
    MENU_ITEM_0@
        + cmd
        + MENU_ITEM_1@
        + action
        + MENU_ITEM_2@
}

/// The context menu of an entry.
pub open spec fn context_menu_html(x: i32, y: i32, target: Seq<char>, actions: Seq<char>) -> Seq<char> {
    CONTEXT_MENU_0@
        + dec_int(x as int)
        + CONTEXT_MENU_1@
        + dec_int(y as int)
        + CONTEXT_MENU_2@
        + target
        + CONTEXT_MENU_3@
        + actions
        + CONTEXT_MENU_4@
}

/// The tile of an application.
pub open spec fn app_tile_html(selected_class: Seq<char>, id: u128, title: Seq<char>, icon: Seq<char>, class: Seq<char>, pid: Seq<char>, cpu: Seq<char>, mem: Seq<char>) -> Seq<char> {
    APP_TILE_0@
        + selected_class
        + APP_TILE_1@
        + uuid_text(id)
        + APP_TILE_2@
        + title
        + APP_TILE_3@
        + icon
        + APP_TILE_4@
        + title
        + APP_TILE_5@
        + class
        + APP_TILE_6@
        + pid
        + APP_TILE_7@
        + cpu
        + APP_TILE_8@
        + mem
        + APP_TILE_9@
        + uuid_text(id)
        + APP_TILE_10@
        + uuid_text(id)
        + APP_TILE_11@
}

/// The toolbar for selected applications.
pub open spec fn app_toolbar_html(count: nat) -> Seq<char> {
    APP_TOOLBAR_0@
        + dec(count)
        + APP_TOOLBAR_1@
}

/// The activity view.
pub open spec fn activity_view_html(toolbar_html: Seq<char>, apps_html: Seq<char>, modules_html: Seq<char>, templates_html: Seq<char>) -> Seq<char> {
    ACTIVITY_VIEW_0@
        + toolbar_html
        + ACTIVITY_VIEW_1@
        + apps_html
        + ACTIVITY_VIEW_2@
        + modules_html
        + ACTIVITY_VIEW_3@
        + templates_html
        + ACTIVITY_VIEW_4@
}

/// A sector template.
pub open spec fn template_html(name: Seq<char>, description: Seq<char>) -> Seq<char> {
    TEMPLATE_0@
        + name
        + TEMPLATE_1@
        + name
        + TEMPLATE_2@
        + description
        + TEMPLATE_3@
}

/// The unified prompt.
pub open spec fn prompt_html(cmd_active: Seq<char>, search_active: Seq<char>, ai_active: Seq<char>, sector: Seq<char>, prompt: Seq<char>, voice_indicator: Seq<char>, ai_control: Seq<char>) -> Seq<char> {
    PROMPT_0@
        + cmd_active
        + PROMPT_1@
        + search_active
        + PROMPT_2@
        + ai_active
        + PROMPT_3@
        + sector
        + PROMPT_4@
        + prompt
        + PROMPT_5@
        + voice_indicator
        + PROMPT_6@
        + ai_control
        + PROMPT_7@
}

/// The voice overlay.
pub open spec fn voice_overlay_html(help: Seq<char>) -> Seq<char> {
    VOICE_OVERLAY_0@
        + help
        + VOICE_OVERLAY_1@
}

pub const DIV_CLOSE: &'static str = "</div>";
pub const DEFAULT_ICON: &'static str = "\u{2699}\u{fe0f}";

/// The class of a hub's mode.
pub open spec fn mode_type_class(m: CommandHubMode) -> Seq<char> {
    match m {
        CommandHubMode::Command => "mode-command"@,
        CommandHubMode::Directory => "mode-directory"@,
        CommandHubMode::Activity => "mode-activity"@,
        CommandHubMode::Search => "mode-search"@,
        CommandHubMode::Ai => "mode-ai"@,
    }
}

pub open spec fn class_if(b: bool, c: Seq<char>) -> Seq<char> {
    if b { c } else { ""@ }
}

/// `s` with its apostrophes escaped for a script string.
pub open spec fn escape_apos(s: Seq<char>) -> Seq<char> {
    replace_char(s, '\'', "\\'"@)
}

/// The first character of each word.
pub open spec fn first_chars(ws: Seq<Seq<char>>) -> Seq<char>
    decreases ws.len(),
{
    if ws.len() == 0 {
        Seq::empty()
    } else {
        first_chars(ws.drop_last()).push(ws.last()[0])
    }
}

/// A participant in the header, with the initials of the words of its name.
pub open spec fn participant(p: Participant) -> Seq<char> {
    participant_html(p.color@, p.name@, p.role.display(), first_chars(words(p.name@)), p.id)
}

pub open spec fn participants(ps: Seq<Participant>, n: nat) -> Seq<char>
    decreases n,
{
    if n == 0 {
        Seq::empty()
    } else {
        participants(ps, (n - 1) as nat) + participant(ps[n - 1])
    }
}

/// The header of a hub.
pub open spec fn header(sec: SectorView, hub: HubView, ctx: HubRenderContext) -> Seq<char> {
    hub_header_html(
        sec.color,
        class_if(hub.mode == CommandHubMode::Command, "active"@),
        class_if(hub.mode == CommandHubMode::Directory, "active"@),
        class_if(hub.mode == CommandHubMode::Activity, "active"@),
        uppercased(sec.name),
        sec.host,
        class_if(ctx.following_active, FOLLOW_ACTIVE@),
        participants(sec.participants, sec.participants.len()),
        ctx.time@,
    )
}

/// The first `n` lines of output, escaped.
pub open spec fn log_lines(lines: Seq<Seq<char>>, n: nat) -> Seq<char>
    decreases n,
{
    if n == 0 {
        Seq::empty()
    } else {
        log_lines(lines, (n - 1) as nat) + log_line_html(escaped_html(lines[n - 1]))
    }
}

/// A favourite `LABEL:command` as a chip; nothing without a colon.
pub open spec fn favourite(f: Seq<char>) -> Seq<char> {
    match crate::text::char_index(f, ':') {
        Some(i) => favourite_chip_html(escape_apos(f.skip(i + 1)), uppercased(f.take(i))),
        None => Seq::empty(),
    }
}

pub open spec fn favourites(fs: Seq<String>, n: nat) -> Seq<char>
    decreases n,
{
    if n == 0 {
        Seq::empty()
    } else {
        favourites(fs, (n - 1) as nat) + favourite(fs[n - 1]@)
    }
}

/// The chips offered when there is no favourite.
pub open spec fn default_chips() -> Seq<char> {
    favourite_chip_html("ls -F"@, "LS"@) + favourite_chip_html("git status"@, "GIT STATUS"@) + favourite_chip_html(
        "ps aux"@,
        "PROCESSES"@,
    ) + favourite_chip_html("source ~/.config/fish/config.fish"@, "RELOAD"@)
}

pub open spec fn suggestion_chips(ss: Seq<CommandSuggestion>, n: nat) -> Seq<char>
    decreases n,
{
    if n == 0 {
        Seq::empty()
    } else {
        let s = ss[n - 1];
        suggestion_chips(ss, (n - 1) as nat) + suggestion_chip_html(
            escape_apos(s.command@),
            escape_apos(s.description@),
            s.text@,
        )
    }
}

/// The command view: favourites (or the defaults) and suggestions.
pub open spec fn command_view(ctx: HubRenderContext) -> Seq<char> {
    let favs = match ctx.favourites {
        Some(fs) => favourites(fs@, fs@.len()),
        None => Seq::empty(),
    };
    command_view_html(
        if favs.len() == 0 { default_chips() } else { favs },
        suggestion_chips(ctx.suggestions@, ctx.suggestions@.len()),
    )
}

/// A path component that names something (not empty, `.` or `..`).
pub open spec fn is_normal(p: Seq<char>) -> bool {
    p.len() > 0 && p != "."@ && p != ".."@
}

/// The named components among the first `n` parts.
pub open spec fn normal_parts(ps: Seq<Seq<char>>, n: nat) -> Seq<Seq<char>>
    decreases n,
{
    if n == 0 {
        Seq::empty()
    } else if is_normal(ps[n - 1]) {
        normal_parts(ps, (n - 1) as nat).push(ps[n - 1])
    } else {
        normal_parts(ps, (n - 1) as nat)
    }
}

/// The named components of a path, in order.
pub open spec fn components(path: Seq<char>) -> Seq<Seq<char>> {
    let ps = split_on(path, '/');
    normal_parts(ps, ps.len())
}

/// Components joined by `/`.
pub open spec fn joined(ps: Seq<Seq<char>>) -> Seq<char>
    decreases ps.len(),
{
    if ps.len() == 0 {
        Seq::empty()
    } else if ps.len() == 1 {
        ps[0]
    } else {
        joined(ps.drop_last()) + "/"@ + ps.last()
    }
}

/// Breadcrumbs for the first `n` components.
pub open spec fn crumbs(cs: Seq<Seq<char>>, n: nat) -> Seq<char>
    decreases n,
{
    if n == 0 {
        Seq::empty()
    } else {
        crumbs(cs, (n - 1) as nat) + breadcrumb_html(escape_apos(joined(cs.take(n as int))), uppercased(cs[n - 1]))
    }
}

/// `n / d` rounded to the nearest whole, ties to even.
pub open spec fn rounded_div(n: nat, d: nat) -> nat {
    let q = n / d;
    let r = n % d;
    if 2 * r > d || (2 * r == d && q % 2 == 1) {
        q + 1
    } else {
        q
    }
}

/// Tenths printed with one decimal.
pub open spec fn tenths_text(t: nat) -> Seq<char> {
    dec(t / 10) + seq!['.', digit_char((t % 10) as int)]
}

/// The size of a listed file: megabytes with one decimal above a
/// megabyte, else whole kilobytes.
pub open spec fn size_text(size: nat) -> Seq<char> {
    if size > 1048576 {
        tenths_text(rounded_div(size * 10, 1048576)) + "MB"@
    } else {
        dec(size / 1024) + "KB"@
    }
}

/// The size of a file read from disk, in megabytes of 1024.1 squared
/// bytes above a megabyte.
pub open spec fn local_size_text(size: nat) -> Seq<char> {
    if size > 1048576 {
        tenths_text(rounded_div(size * 1000, 104878081)) + "MB"@
    } else {
        dec(size / 1024) + "KB"@
    }
}

pub open spec fn selected_class(hub: HubView, name: Seq<char>) -> Seq<char> {
    class_if(hub.selected_files.contains(name), "selected"@)
}

/// An entry of a shell listing.
pub open spec fn shell_entry(hub: HubView, e: EntryView) -> Seq<char> {
    if !hub.show_hidden_files && e.is_hidden {
        Seq::empty()
    } else if e.entry_type == EntryType::Directory {
        shell_dir_html(selected_class(hub, e.name), escape_apos(e.name), uppercased(e.name))
    } else {
        shell_file_html(selected_class(hub, e.name), escape_apos(e.name), uppercased(e.name), size_text(e.size as nat))
    }
}

pub open spec fn shell_entries(hub: HubView, es: Seq<EntryView>, n: nat) -> Seq<char>
    decreases n,
{
    if n == 0 {
        Seq::empty()
    } else {
        shell_entries(hub, es, (n - 1) as nat) + shell_entry(hub, es[n - 1])
    }
}

/// The extension of a file name, as `Path::extension` gives it: what
/// follows the last dot, unless the name has no dot or only a leading one.
pub open spec fn extension(name: Seq<char>) -> Option<Seq<char>> {
    match last_dot(name, name.len()) {
        Some(i) => if i == 0 {
            None
        } else {
            Some(name.skip(i + 1))
        },
        None => None,
    }
}

/// The last dot among the first `n` characters.
pub open spec fn last_dot(name: Seq<char>, n: nat) -> Option<int>
    decreases n,
{
    if n == 0 {
        None
    } else if name[n - 1] == '.' {
        Some(n - 1)
    } else {
        last_dot(name, (n - 1) as nat)
    }
}

/// The extension shown for a file, in capitals: `FILE` without one.
pub open spec fn ext_caps(name: Seq<char>) -> Seq<char> {
    uppercased(
        match extension(name) {
            Some(e) => e,
            None => "FILE"@,
        },
    )
}

pub open spec fn local_dirs(hub: HubView, es: Seq<LocalEntry>, n: nat) -> Seq<char>
    decreases n,
{
    if n == 0 {
        Seq::empty()
    } else {
        let e = es[n - 1];
        local_dirs(hub, es, (n - 1) as nat) + local_dir_html(
            selected_class(hub, e.name@),
            escape_apos(e.name@),
            uppercased(e.name@),
        )
    }
}

pub open spec fn local_files(hub: HubView, es: Seq<LocalEntry>, n: nat) -> Seq<char>
    decreases n,
{
    if n == 0 {
        Seq::empty()
    } else {
        let e = es[n - 1];
        let ext = ext_caps(e.name@);
        local_files(hub, es, (n - 1) as nat) + local_file_html(
            selected_class(hub, e.name@),
            escape_apos(e.name@),
            lowercased(ext),
            uppercased(e.name@),
            local_size_text(e.size as nat),
            ext,
        )
    }
}

/// A directory read from disk: its directories, then its files, then the
/// hidden-files toggle; or the error, in capitals.
pub open spec fn local_listing(hub: HubView, l: Result<Vec<LocalEntry>, String>) -> Seq<char> {
    match l {
        Ok(es) => {
            let ds = shown_entries(es@, hub.show_hidden_files, true);
            let fs = shown_entries(es@, hub.show_hidden_files, false);
            local_dirs(hub, ds, ds.len()) + local_files(hub, fs, fs.len()) + hidden_toggle_html(
                if hub.show_hidden_files { "HIDE HIDDEN"@ } else { "SHOW HIDDEN"@ },
            )
        },
        Err(e) => dir_error_html(uppercased(e@)),
    }
}

/// The entries of the file grid: the shell's listing for a remote hub or
/// one the shell reported (waiting while there is none), else the disk.
pub open spec fn listing_view(sec: SectorView, hub: HubView, ctx: HubRenderContext) -> Seq<char> {
    if sec.connection_type != ConnectionType::Local || hub.shell_listing is Some {
        match hub.shell_listing {
            Some(l) => shell_entries(hub, l.entries, l.entries.len()),
            None => WAITING_FOR_SHELL@,
        }
    } else {
        local_listing(hub, ctx.local_listing)
    }
}

/// The command a context-menu action stages.
pub open spec fn menu_command(action: Seq<char>, target: Seq<char>) -> Seq<char> {
    if action == "OPEN"@ {
        "view "@ + target
    } else if action == "COPY"@ {
        "cp "@ + target + " "@
    } else if action == "DELETE"@ {
        "rm "@ + target
    } else if action == "RENAME"@ {
        "mv "@ + target + " "@
    } else {
        action
    }
}

pub open spec fn menu_items(m: MenuView, n: nat) -> Seq<char>
    decreases n,
{
    if n == 0 {
        Seq::empty()
    } else {
        let a = m.actions[n - 1];
        menu_items(m, (n - 1) as nat) + menu_item_html(escape_apos(menu_command(a, m.target)), a)
    }
}

/// The top of the directory view: breadcrumbs, actions and the parent
/// entry of the file grid.
pub open spec fn directory_head(hub: HubView) -> Seq<char> {
    let cs = components(hub.current_directory);
    DIRECTORY_VIEW@ + BREADCRUMB_ROOT@ + crumbs(cs, cs.len()) + DIV_CLOSE@ + DIRECTORY_ACTIONS@ + FILE_GRID@
        + PARENT_ENTRY@
}

/// The bottom of the directory view: the toolbar for a selection and the
/// context menu.
pub open spec fn directory_tail(hub: HubView) -> Seq<char> {
    DIV_CLOSE@ + class_if(hub.selected_files.len() > 0, file_toolbar_html(hub.selected_files.len())) + match hub.context_menu {
        Some(m) => context_menu_html(m.x, m.y, uppercased(m.target), menu_items(m, m.actions.len())),
        None => Seq::empty(),
    } + DIV_CLOSE@
}

/// The directory view.
pub open spec fn directory_view(sec: SectorView, hub: HubView, ctx: HubRenderContext) -> Seq<char> {
    directory_head(hub) + listing_view(sec, hub, ctx) + directory_tail(hub)
}

/// The process texts of an application tile: its id, processor and memory.
pub open spec fn app_texts(app: AppView, info: AppInfo) -> (Seq<char>, Seq<char>, Seq<char>) {
    match app.pid {
        Some(p) => (
            "PID: "@ + dec(p as nat),
            match info.stats {
                Some(st) => "CPU: "@ + tenths_text(st.cpu_usage_tenths as nat) + "%"@,
                None => "CPU: ---"@,
            },
            match info.stats {
                Some(st) => "MEM: "@ + dec((st.memory_bytes / 1024 / 1024) as nat) + "MB"@,
                None => "MEM: ---"@,
            },
        ),
        None => if info.is_dummy {
            ("PID: [TOS]"@, "CPU: 0.0%"@, "MEM: <1MB"@)
        } else {
            ("PID: ---"@, "CPU: ---"@, "MEM: ---"@)
        },
    }
}

/// The tile of an application.
pub open spec fn app_tile(hub: HubView, app: AppView, info: AppInfo) -> Seq<char> {
    let (pid, cpu, mem) = app_texts(app, info);
    app_tile_html(
        selected_class(hub, uuid_text(app.id)),
        app.id,
        uppercased(app.title),
        match info.icon {
            Some(i) => i@,
            None => DEFAULT_ICON@,
        },
        uppercased(app.app_class),
        pid,
        cpu,
        mem,
    )
}

pub open spec fn app_tiles(hub: HubView, infos: Seq<AppInfo>, n: nat) -> Seq<char>
    decreases n,
{
    if n == 0 {
        Seq::empty()
    } else {
        app_tiles(hub, infos, (n - 1) as nat) + app_tile(hub, hub.applications[n - 1], infos[n - 1])
    }
}

pub open spec fn concat_all(v: Seq<String>, n: nat) -> Seq<char>
    decreases n,
{
    if n == 0 {
        Seq::empty()
    } else {
        concat_all(v, (n - 1) as nat) + v[n - 1]@
    }
}

pub open spec fn templates(ts: Seq<(String, String)>, n: nat) -> Seq<char>
    decreases n,
{
    if n == 0 {
        Seq::empty()
    } else {
        templates(ts, (n - 1) as nat) + template_html(ts[n - 1].0@, ts[n - 1].1@)
    }
}

/// The activity view: the applications, module overlays and templates.
pub open spec fn activity_view(hub: HubView, ctx: HubRenderContext) -> Seq<char> {
    let ts = templates(ctx.templates@, ctx.templates@.len());
    activity_view_html(
        class_if(hub.selected_files.len() > 0, app_toolbar_html(hub.selected_files.len())),
        app_tiles(hub, ctx.app_infos@, hub.applications.len()),
        concat_all(ctx.module_overlays@, ctx.module_overlays@.len()),
        if ts.len() == 0 { NO_TEMPLATES@ } else { ts },
    )
}

/// The view of the hub's mode.
pub open spec fn mode_view(sec: SectorView, hub: HubView, ctx: HubRenderContext) -> Seq<char> {
    match hub.mode {
        CommandHubMode::Command => command_view(ctx),
        CommandHubMode::Directory => directory_view(sec, hub, ctx),
        CommandHubMode::Activity => activity_view(hub, ctx),
        CommandHubMode::Ai => ai_view(ctx.ai_history@, ctx.ai_generating),
        CommandHubMode::Search => search_view(ctx.search_results@),
    }
}

/// The whole hub of a viewport.
pub open spec fn hub_page(s: StateView, vp: Viewport, ctx: HubRenderContext) -> Seq<char> {
    let sec = s.sectors[vp.sector_index as int];
    let hub = sec.hubs[vp.hub_index as int];
    hub_open_html(
        mode_type_class(hub.mode),
        class_if(hub.output_mode_centered, "perspective-centered"@),
        class_if(!hub.left_region_visible, "left-region-hidden"@),
        ctx.render_mode@,
    ) + header(sec, hub, ctx) + HUB_CONTENT@ + match hub.confirmation_required {
        Some(c) => hub_danger_html(c),
        None => Seq::empty(),
    } + terminal_html(hub.id, log_lines(hub.terminal_output, hub.terminal_output.len())) + mode_view(sec, hub, ctx)
        + DIV_CLOSE@ + prompt_html(
            class_if(hub.mode == CommandHubMode::Command || hub.mode == CommandHubMode::Directory || hub.mode
                == CommandHubMode::Activity, "active"@),
            class_if(hub.mode == CommandHubMode::Search, "active"@),
            class_if(hub.mode == CommandHubMode::Ai, "active"@),
            uppercased(sec.name),
            hub.prompt,
            ctx.voice_indicator@,
            class_if(hub.mode == CommandHubMode::Ai, AI_SUBMIT@),
        )
        + DIV_CLOSE@ + match ctx.voice_help {
        Some(h) => voice_overlay_html(h@),
        None => Seq::empty(),
    }
}

/// The hub can be drawn: its sector and hub exist, and there is an entry
/// of application information for each of its applications.
pub open spec fn hub_drawable(s: StateView, vp: Viewport, ctx: HubRenderContext) -> bool {
    &&& vp.sector_index < s.sectors.len()
    &&& vp.hub_index < s.sectors[vp.sector_index as int].hubs.len()
    &&& ctx.app_infos@.len() == s.sectors[vp.sector_index as int].hubs[vp.hub_index as int].applications.len()
}

fn push_hub_open_html(out: &mut Vec<char>, mode_type_class: &str, perspective_class: &str, region_class: &str, mode: &str)
    ensures
        final(out)@ == old(out)@ + hub_open_html(mode_type_class@, perspective_class@, region_class@, mode@),
{
    let ghost start = out@;
    push_str(out, HUB_OPEN_0);
    push_str(out, mode_type_class);
    push_str(out, HUB_OPEN_1);
    push_str(out, perspective_class);
    push_str(out, HUB_OPEN_2);
    push_str(out, region_class);
    push_str(out, HUB_OPEN_3);
    push_str(out, mode);
    push_str(out, HUB_OPEN_4);
    assert(out@ =~= start + hub_open_html(mode_type_class@, perspective_class@, region_class@, mode@));
}

fn push_participant_html(out: &mut Vec<char>, color: &str, name: &str, role: &str, initials: &Vec<char>, id: u128)
    ensures
        final(out)@ == old(out)@ + participant_html(color@, name@, role@, initials@, id),
{
    let ghost start = out@;
    let id_text = id_to_string(id);
    push_str(out, PARTICIPANT_0);
    push_str(out, color);
    push_str(out, PARTICIPANT_1);
    push_str(out, name);
    push_str(out, PARTICIPANT_2);
    push_str(out, role);
    push_str(out, PARTICIPANT_3);
    push_str(out, id_text.as_str());
    push_str(out, PARTICIPANT_4);
    push_chars(out, initials);
    push_str(out, PARTICIPANT_5);
    assert(out@ =~= start + participant_html(color@, name@, role@, initials@, id));
}

fn push_hub_header_html(out: &mut Vec<char>, color: &str, cmd_active: &str, dir_active: &str, act_active: &str, name: &str, host: &str, follow_indicator: &str, participants_html: &Vec<char>, time: &str)
    ensures
        final(out)@ == old(out)@ + hub_header_html(color@, cmd_active@, dir_active@, act_active@, name@, host@, follow_indicator@, participants_html@, time@),
{
    let ghost start = out@;
    push_str(out, HUB_HEADER_0);
    push_str(out, color);
    push_str(out, HUB_HEADER_1);
    push_str(out, cmd_active);
    push_str(out, HUB_HEADER_2);
    push_str(out, dir_active);
    push_str(out, HUB_HEADER_3);
    push_str(out, act_active);
    push_str(out, HUB_HEADER_4);
    push_str(out, color);
    push_str(out, HUB_HEADER_5);
    push_str(out, name);
    push_str(out, HUB_HEADER_6);
    push_str(out, host);
    push_str(out, HUB_HEADER_7);
    push_str(out, follow_indicator);
    push_str(out, HUB_HEADER_8);
    push_chars(out, participants_html);
    push_str(out, HUB_HEADER_9);
    push_str(out, time);
    push_str(out, HUB_HEADER_10);
    assert(out@ =~= start + hub_header_html(color@, cmd_active@, dir_active@, act_active@, name@, host@, follow_indicator@, participants_html@, time@));
}

fn push_hub_danger_html(out: &mut Vec<char>, cmd: &str)
    ensures
        final(out)@ == old(out)@ + hub_danger_html(cmd@),
{
    let ghost start = out@;
    push_str(out, HUB_DANGER_0);
    push_str(out, cmd);
    push_str(out, HUB_DANGER_1);
    push_str(out, cmd);
    push_str(out, HUB_DANGER_2);
    assert(out@ =~= start + hub_danger_html(cmd@));
}

fn push_log_line_html(out: &mut Vec<char>, line: &Vec<char>)
    ensures
        final(out)@ == old(out)@ + log_line_html(line@),
{
    let ghost start = out@;
    push_str(out, LOG_LINE_0);
    push_chars(out, line);
    push_str(out, LOG_LINE_1);
    assert(out@ =~= start + log_line_html(line@));
}

fn push_terminal_html(out: &mut Vec<char>, hub_id: u128, lines: &Vec<char>)
    ensures
        final(out)@ == old(out)@ + terminal_html(hub_id, lines@),
{
    let ghost start = out@;
    let hub_id_text = id_to_string(hub_id);
    push_str(out, TERMINAL_0);
    push_str(out, hub_id_text.as_str());
    push_str(out, TERMINAL_1);
    push_chars(out, lines);
    push_str(out, TERMINAL_2);
    assert(out@ =~= start + terminal_html(hub_id, lines@));
}

fn push_favourite_chip_html(out: &mut Vec<char>, cmd: &Vec<char>, label: &str)
    ensures
        final(out)@ == old(out)@ + favourite_chip_html(cmd@, label@),
{
    let ghost start = out@;
    push_str(out, FAV_CHIP_0);
    push_chars(out, cmd);
    push_str(out, FAV_CHIP_1);
    push_str(out, label);
    push_str(out, FAV_CHIP_2);
    assert(out@ =~= start + favourite_chip_html(cmd@, label@));
}

fn push_suggestion_chip_html(out: &mut Vec<char>, cmd: &Vec<char>, description: &Vec<char>, text: &str)
    ensures
        final(out)@ == old(out)@ + suggestion_chip_html(cmd@, description@, text@),
{
    let ghost start = out@;
    push_str(out, SUGGESTION_CHIP_0);
    push_chars(out, cmd);
    push_str(out, SUGGESTION_CHIP_1);
    push_chars(out, description);
    push_str(out, SUGGESTION_CHIP_2);
    push_str(out, text);
    push_str(out, SUGGESTION_CHIP_3);
    assert(out@ =~= start + suggestion_chip_html(cmd@, description@, text@));
}

fn push_command_view_html(out: &mut Vec<char>, left: &Vec<char>, right: &Vec<char>)
    ensures
        final(out)@ == old(out)@ + command_view_html(left@, right@),
{
    let ghost start = out@;
    push_str(out, COMMAND_VIEW_0);
    push_chars(out, left);
    push_str(out, COMMAND_VIEW_1);
    push_chars(out, right);
    push_str(out, COMMAND_VIEW_2);
    assert(out@ =~= start + command_view_html(left@, right@));
}

fn push_breadcrumb_html(out: &mut Vec<char>, path: &Vec<char>, name: &str)
    ensures
        final(out)@ == old(out)@ + breadcrumb_html(path@, name@),
{
    let ghost start = out@;
    push_str(out, BREADCRUMB_0);
    push_chars(out, path);
    push_str(out, BREADCRUMB_1);
    push_str(out, name);
    push_str(out, BREADCRUMB_2);
    assert(out@ =~= start + breadcrumb_html(path@, name@));
}

fn push_shell_dir_html(out: &mut Vec<char>, selected_class: &str, escaped: &Vec<char>, display: &str)
    ensures
        final(out)@ == old(out)@ + shell_dir_html(selected_class@, escaped@, display@),
{
    let ghost start = out@;
    push_str(out, SHELL_DIR_0);
    push_str(out, selected_class);
    push_str(out, SHELL_DIR_1);
    push_chars(out, escaped);
    push_str(out, SHELL_DIR_2);
    push_chars(out, escaped);
    push_str(out, SHELL_DIR_3);
    push_chars(out, escaped);
    push_str(out, SHELL_DIR_4);
    push_str(out, display);
    push_str(out, SHELL_DIR_5);
    assert(out@ =~= start + shell_dir_html(selected_class@, escaped@, display@));
}

fn push_shell_file_html(out: &mut Vec<char>, selected_class: &str, escaped: &Vec<char>, display: &str, size: &Vec<char>)
    ensures
        final(out)@ == old(out)@ + shell_file_html(selected_class@, escaped@, display@, size@),
{
    let ghost start = out@;
    push_str(out, SHELL_FILE_0);
    push_str(out, selected_class);
    push_str(out, SHELL_FILE_1);
    push_chars(out, escaped);
    push_str(out, SHELL_FILE_2);
    push_chars(out, escaped);
    push_str(out, SHELL_FILE_3);
    push_chars(out, escaped);
    push_str(out, SHELL_FILE_4);
    push_str(out, display);
    push_str(out, SHELL_FILE_5);
    push_chars(out, size);
    push_str(out, SHELL_FILE_6);
    assert(out@ =~= start + shell_file_html(selected_class@, escaped@, display@, size@));
}

fn push_local_dir_html(out: &mut Vec<char>, selected_class: &str, escaped: &Vec<char>, display: &str)
    ensures
        final(out)@ == old(out)@ + local_dir_html(selected_class@, escaped@, display@),
{
    let ghost start = out@;
    push_str(out, LOCAL_DIR_0);
    push_str(out, selected_class);
    push_str(out, LOCAL_DIR_1);
    push_chars(out, escaped);
    push_str(out, LOCAL_DIR_2);
    push_chars(out, escaped);
    push_str(out, LOCAL_DIR_3);
    push_chars(out, escaped);
    push_str(out, LOCAL_DIR_4);
    push_str(out, display);
    push_str(out, LOCAL_DIR_5);
    assert(out@ =~= start + local_dir_html(selected_class@, escaped@, display@));
}

fn push_local_file_html(out: &mut Vec<char>, selected_class: &str, escaped: &Vec<char>, ext_class: &str, display: &str, size: &Vec<char>, ext: &str)
    ensures
        final(out)@ == old(out)@ + local_file_html(selected_class@, escaped@, ext_class@, display@, size@, ext@),
{
    let ghost start = out@;
    push_str(out, LOCAL_FILE_0);
    push_str(out, selected_class);
    push_str(out, LOCAL_FILE_1);
    push_chars(out, escaped);
    push_str(out, LOCAL_FILE_2);
    push_chars(out, escaped);
    push_str(out, LOCAL_FILE_3);
    push_chars(out, escaped);
    push_str(out, LOCAL_FILE_4);
    push_str(out, ext_class);
    push_str(out, LOCAL_FILE_5);
    push_str(out, display);
    push_str(out, LOCAL_FILE_6);
    push_chars(out, size);
    push_str(out, LOCAL_FILE_7);
    push_str(out, ext);
    push_str(out, LOCAL_FILE_8);
    assert(out@ =~= start + local_file_html(selected_class@, escaped@, ext_class@, display@, size@, ext@));
}

fn push_hidden_toggle_html(out: &mut Vec<char>, label: &str)
    ensures
        final(out)@ == old(out)@ + hidden_toggle_html(label@),
{
    let ghost start = out@;
    push_str(out, HIDDEN_TOGGLE_0);
    push_str(out, label);
    push_str(out, HIDDEN_TOGGLE_1);
    assert(out@ =~= start + hidden_toggle_html(label@));
}

fn push_dir_error_html(out: &mut Vec<char>, error: &str)
    ensures
        final(out)@ == old(out)@ + dir_error_html(error@),
{
    let ghost start = out@;
    push_str(out, DIR_ERROR_0);
    push_str(out, error);
    push_str(out, DIR_ERROR_1);
    assert(out@ =~= start + dir_error_html(error@));
}

fn push_file_toolbar_html(out: &mut Vec<char>, count: u64)
    ensures
        final(out)@ == old(out)@ + file_toolbar_html(count as nat),
{
    let ghost start = out@;
    push_str(out, FILE_TOOLBAR_0);
    push_u64(out, count);
    push_str(out, FILE_TOOLBAR_1);
    assert(out@ =~= start + file_toolbar_html(count as nat));
}

fn push_menu_item_html(out: &mut Vec<char>, cmd: &Vec<char>, action: &str)
    ensures
        final(out)@ == old(out)@ + menu_item_html(cmd@, action@),
{
    let ghost start = out@;
    push_str(out, MENU_ITEM_0);
    push_chars(out, cmd);
    push_str(out, MENU_ITEM_1);
    push_str(out, action);
    push_str(out, MENU_ITEM_2);
    assert(out@ =~= start + menu_item_html(cmd@, action@));
}

fn push_context_menu_html(out: &mut Vec<char>, x: i32, y: i32, target: &str, actions: &Vec<char>)
    ensures
        final(out)@ == old(out)@ + context_menu_html(x, y, target@, actions@),
{
    let ghost start = out@;
    push_str(out, CONTEXT_MENU_0);
    push_i64(out, x as i64);
    push_str(out, CONTEXT_MENU_1);
    push_i64(out, y as i64);
    push_str(out, CONTEXT_MENU_2);
    push_str(out, target);
    push_str(out, CONTEXT_MENU_3);
    push_chars(out, actions);
    push_str(out, CONTEXT_MENU_4);
    assert(out@ =~= start + context_menu_html(x, y, target@, actions@));
}

fn push_app_tile_html(out: &mut Vec<char>, selected_class: &str, id: u128, title: &str, icon: &str, class: &str, pid: &Vec<char>, cpu: &Vec<char>, mem: &Vec<char>)
    ensures
        final(out)@ == old(out)@ + app_tile_html(selected_class@, id, title@, icon@, class@, pid@, cpu@, mem@),
{
    let ghost start = out@;
    let id_text = id_to_string(id);
    push_str(out, APP_TILE_0);
    push_str(out, selected_class);
    push_str(out, APP_TILE_1);
    push_str(out, id_text.as_str());
    push_str(out, APP_TILE_2);
    push_str(out, title);
    push_str(out, APP_TILE_3);
    push_str(out, icon);
    push_str(out, APP_TILE_4);
    push_str(out, title);
    push_str(out, APP_TILE_5);
    push_str(out, class);
    push_str(out, APP_TILE_6);
    push_chars(out, pid);
    push_str(out, APP_TILE_7);
    push_chars(out, cpu);
    push_str(out, APP_TILE_8);
    push_chars(out, mem);
    push_str(out, APP_TILE_9);
    push_str(out, id_text.as_str());
    push_str(out, APP_TILE_10);
    push_str(out, id_text.as_str());
    push_str(out, APP_TILE_11);
    assert(out@ =~= start + app_tile_html(selected_class@, id, title@, icon@, class@, pid@, cpu@, mem@));
}

fn push_app_toolbar_html(out: &mut Vec<char>, count: u64)
    ensures
        final(out)@ == old(out)@ + app_toolbar_html(count as nat),
{
    let ghost start = out@;
    push_str(out, APP_TOOLBAR_0);
    push_u64(out, count);
    push_str(out, APP_TOOLBAR_1);
    assert(out@ =~= start + app_toolbar_html(count as nat));
}

fn push_activity_view_html(out: &mut Vec<char>, toolbar_html: &Vec<char>, apps_html: &Vec<char>, modules_html: &Vec<char>, templates_html: &Vec<char>)
    ensures
        final(out)@ == old(out)@ + activity_view_html(toolbar_html@, apps_html@, modules_html@, templates_html@),
{
    let ghost start = out@;
    push_str(out, ACTIVITY_VIEW_0);
    push_chars(out, toolbar_html);
    push_str(out, ACTIVITY_VIEW_1);
    push_chars(out, apps_html);
    push_str(out, ACTIVITY_VIEW_2);
    push_chars(out, modules_html);
    push_str(out, ACTIVITY_VIEW_3);
    push_chars(out, templates_html);
    push_str(out, ACTIVITY_VIEW_4);
    assert(out@ =~= start + activity_view_html(toolbar_html@, apps_html@, modules_html@, templates_html@));
}

fn push_template_html(out: &mut Vec<char>, name: &str, description: &str)
    ensures
        final(out)@ == old(out)@ + template_html(name@, description@),
{
    let ghost start = out@;
    push_str(out, TEMPLATE_0);
    push_str(out, name);
    push_str(out, TEMPLATE_1);
    push_str(out, name);
    push_str(out, TEMPLATE_2);
    push_str(out, description);
    push_str(out, TEMPLATE_3);
    assert(out@ =~= start + template_html(name@, description@));
}

fn push_prompt_html(out: &mut Vec<char>, cmd_active: &str, search_active: &str, ai_active: &str, sector: &str, prompt: &str, voice_indicator: &str, ai_control: &str)
    ensures
        final(out)@ == old(out)@ + prompt_html(cmd_active@, search_active@, ai_active@, sector@, prompt@, voice_indicator@, ai_control@),
{
    let ghost start = out@;
    push_str(out, PROMPT_0);
    push_str(out, cmd_active);
    push_str(out, PROMPT_1);
    push_str(out, search_active);
    push_str(out, PROMPT_2);
    push_str(out, ai_active);
    push_str(out, PROMPT_3);
    push_str(out, sector);
    push_str(out, PROMPT_4);
    push_str(out, prompt);
    push_str(out, PROMPT_5);
    push_str(out, voice_indicator);
    push_str(out, PROMPT_6);
    push_str(out, ai_control);
    push_str(out, PROMPT_7);
    assert(out@ =~= start + prompt_html(cmd_active@, search_active@, ai_active@, sector@, prompt@, voice_indicator@, ai_control@));
}

fn push_voice_overlay_html(out: &mut Vec<char>, help: &str)
    ensures
        final(out)@ == old(out)@ + voice_overlay_html(help@),
{
    let ghost start = out@;
    push_str(out, VOICE_OVERLAY_0);
    push_str(out, help);
    push_str(out, VOICE_OVERLAY_1);
    assert(out@ =~= start + voice_overlay_html(help@));
}

fn class_str(b: bool, c: &'static str) -> (s: &'static str)
    ensures
        s@ == class_if(b, c@),
{
    proof {
        reveal_strlit("");
    }
    if b {
        c
    } else {
        ""
    }
}

fn escape_apos_vec(s: &[char]) -> (v: Vec<char>)
    ensures
        v@ == escape_apos(s@),
{
    proof {
        reveal_strlit("\\'");
    }
    replace_char_vec(s, '\'', "\\'")
}

fn push_participant(out: &mut Vec<char>, p: &Participant)
    ensures
        final(out)@ == old(out)@ + participant(*p),
{
    let cs = chars_of(p.name.as_str());
    let ws = split_whitespace(&cs);
    let ghost wv = words(p.name@);
    let mut initials: Vec<char> = Vec::new();
    let mut k: usize = 0;
    while k < ws.len()
        invariant
            0 <= k <= ws@.len(),
            crate::scan::views(ws@) == wv,
            forall|t: int| 0 <= t < ws@.len() ==> ws@[t]@.len() > 0,
            initials@ == first_chars(wv.take(k as int)),
        decreases ws@.len() - k,
    {
        assert(ws@[k as int]@ == wv[k as int]);
        initials.push(ws[k][0]);
        k = k + 1;
        assert(wv.take(k as int).drop_last() =~= wv.take(k - 1));
    }
    assert(wv.take(k as int) =~= wv);
    let role = p.role.to_string();
    push_participant_html(out, p.color.as_str(), p.name.as_str(), role.as_str(), &initials, p.id);
}

fn push_participants(out: &mut Vec<char>, ps: &Vec<Participant>)
    ensures
        final(out)@ == old(out)@ + participants(ps@, ps@.len()),
{
    let ghost start = out@;
    let mut k: usize = 0;
    while k < ps.len()
        invariant
            0 <= k <= ps@.len(),
            out@ == start + participants(ps@, k as nat),
        decreases ps@.len() - k,
    {
        push_participant(out, &ps[k]);
        k = k + 1;
        assert(out@ =~= start + participants(ps@, k as nat));
    }
}

fn push_header(out: &mut Vec<char>, sector: &Sector, hub: &CommandHub, ctx: &HubRenderContext)
    ensures
        final(out)@ == old(out)@ + header(sector@, hub@, *ctx),
{
    let mut ps: Vec<char> = Vec::new();
    push_participants(&mut ps, &sector.participants);
    let name = to_uppercase(sector.name.as_str());
    proof {
        reveal_strlit("active");
    }
    push_hub_header_html(
        out,
        sector.color.as_str(),
        class_str(hub.mode == CommandHubMode::Command, "active"),
        class_str(hub.mode == CommandHubMode::Directory, "active"),
        class_str(hub.mode == CommandHubMode::Activity, "active"),
        name.as_str(),
        sector.host.as_str(),
        class_str(ctx.following_active, FOLLOW_ACTIVE),
        &ps,
        ctx.time.as_str(),
    );
}

fn push_log_lines(out: &mut Vec<char>, lines: &Vec<String>)
    ensures
        final(out)@ == old(out)@ + log_lines(string_views(lines@), lines@.len()),
{
    let ghost start = out@;
    let ghost lv = string_views(lines@);
    let mut k: usize = 0;
    while k < lines.len()
        invariant
            0 <= k <= lines@.len(),
            lv == string_views(lines@),
            out@ == start + log_lines(lv, k as nat),
        decreases lines@.len() - k,
    {
        let e = escape_html(lines[k].as_str());
        let ev = chars_of(e.as_str());
        push_log_line_html(out, &ev);
        k = k + 1;
        assert(out@ =~= start + log_lines(lv, k as nat));
    }
}

fn push_favourite(out: &mut Vec<char>, f: &String)
    ensures
        final(out)@ == old(out)@ + favourite(f@),
{
    let cs = chars_of(f.as_str());
    match crate::text::find_char(&cs, ':') {
        Some(i) => {
            assert(i < cs.len());
            let label = slice_vec(&cs, 0, i);
            let cmd = slice_vec(&cs, i + 1, cs.len());
            assert(label@ =~= f@.take(i as int));
            assert(cmd@ =~= f@.skip(i + 1));
            let l = string_of(&label);
            let lu = to_uppercase(l.as_str());
            let esc = escape_apos_vec(&cmd);
            push_favourite_chip_html(out, &esc, lu.as_str());
        },
        None => {},
    }
}

fn push_command_view(out: &mut Vec<char>, ctx: &HubRenderContext)
    ensures
        final(out)@ == old(out)@ + command_view(*ctx),
{
    let mut left: Vec<char> = Vec::new();
    match &ctx.favourites {
        Some(fs) => {
            let mut k: usize = 0;
            while k < fs.len()
                invariant
                    0 <= k <= fs@.len(),
                    left@ == favourites(fs@, k as nat),
                decreases fs@.len() - k,
            {
                let ghost before = left@;
                push_favourite(&mut left, &fs[k]);
                k = k + 1;
                assert(left@ =~= favourites(fs@, k as nat));
            }
        },
        None => {},
    }
    if left.len() == 0 {
        let c1 = chars_of("ls -F");
        let c2 = chars_of("git status");
        let c3 = chars_of("ps aux");
        let c4 = chars_of("source ~/.config/fish/config.fish");
        push_favourite_chip_html(&mut left, &c1, "LS");
        push_favourite_chip_html(&mut left, &c2, "GIT STATUS");
        push_favourite_chip_html(&mut left, &c3, "PROCESSES");
        push_favourite_chip_html(&mut left, &c4, "RELOAD");
        assert(left@ =~= default_chips());
    }
    let mut right: Vec<char> = Vec::new();
    let mut k: usize = 0;
    while k < ctx.suggestions.len()
        invariant
            0 <= k <= ctx.suggestions@.len(),
            right@ == suggestion_chips(ctx.suggestions@, k as nat),
        decreases ctx.suggestions@.len() - k,
    {
        let s = &ctx.suggestions[k];
        let cmd = escape_apos_vec(&chars_of(s.command.as_str()));
        let desc = escape_apos_vec(&chars_of(s.description.as_str()));
        push_suggestion_chip_html(&mut right, &cmd, &desc, s.text.as_str());
        k = k + 1;
        assert(right@ =~= suggestion_chips(ctx.suggestions@, k as nat));
    }
    push_command_view_html(out, &left, &right);
}


fn push_crumbs(out: &mut Vec<char>, path: &String)
    ensures
        final(out)@ == old(out)@ + crumbs(components(path@), components(path@).len()),
{
    let cs = chars_of(path.as_str());
    let parts = split_char(&cs, '/');
    let ghost ps = split_on(path@, '/');
    let ghost start = out@;
    let mut names: Vec<Vec<char>> = Vec::new();
    let mut cur: Vec<char> = Vec::new();
    let mut k: usize = 0;
    while k < parts.len()
        invariant
            0 <= k <= parts@.len(),
            crate::scan::views(parts@) == ps,
            crate::scan::views(names@) == normal_parts(ps, k as nat),
            cur@ == joined(normal_parts(ps, k as nat)),
            out@ == start + crumbs(normal_parts(ps, k as nat), normal_parts(ps, k as nat).len()),
        decreases parts@.len() - k,
    {
        let p = &parts[k];
        assert(p@ == ps[k as int]);
        let ghost before = normal_parts(ps, k as nat);
        if p.len() > 0 && !eq_str(p, ".") && !eq_str(p, "..") {
            let ghost now = before.push(p@);
            assert(normal_parts(ps, (k + 1) as nat) == now);
            let ghost cur0 = cur@;
            if names.len() > 0 {
                cur.push('/');
            }
            crate::text::push_chars(&mut cur, p);
            proof {
                reveal_strlit("/");
                assert(now.last() == p@);
                if before.len() == 0 {
                    assert(now.len() == 1);
                    assert(cur@ =~= p@);
                } else {
                    assert(now.drop_last() =~= before);
                    assert(cur@ =~= cur0 + "/"@ + p@);
                }
            }
            assert(cur@ =~= joined(now));
            let ghost nb = names@;
            let piece = slice_vec(p, 0, p.len());
            assert(piece@ =~= p@);
            names.push(piece);
            assert(crate::scan::views(names@) =~= crate::scan::views(nb).push(p@));
            assert(crate::scan::views(names@) =~= now);
            let esc = escape_apos_vec(&cur);
            let s = string_of(p);
            let up = to_uppercase(s.as_str());
            assert(now.take(now.len() as int) =~= now);
            push_breadcrumb_html(out, &esc, up.as_str());
            assert(now.take(now.len() - 1) =~= before);
            proof {
                lemma_crumbs_prefix(now, before);
            }
        }
        k = k + 1;
    }
}

proof fn lemma_crumbs_prefix(now: Seq<Seq<char>>, before: Seq<Seq<char>>)
    requires
        now.len() == before.len() + 1,
        forall|i: int| 0 <= i < before.len() ==> now[i] == before[i],
    ensures
        crumbs(now, before.len()) == crumbs(before, before.len()),
{
    lemma_crumbs_agree(now, before, before.len());
}

proof fn lemma_crumbs_agree(a: Seq<Seq<char>>, b: Seq<Seq<char>>, n: nat)
    requires
        n <= a.len(),
        n <= b.len(),
        forall|i: int| 0 <= i < n ==> a[i] == b[i],
    ensures
        crumbs(a, n) == crumbs(b, n),
    decreases n,
{
    if n > 0 {
        lemma_crumbs_agree(a, b, (n - 1) as nat);
        assert(a.take(n as int) =~= b.take(n as int));
    }
}

fn push_shell_entries(out: &mut Vec<char>, hub: &CommandHub, es: &Vec<DirectoryEntry>)
    ensures
        final(out)@ == old(out)@ + shell_entries(hub@, es@.map_values(|e: DirectoryEntry| e@), es@.len()),
{
    let ghost ev = es@.map_values(|e: DirectoryEntry| e@);
    let ghost start = out@;
    let mut k: usize = 0;
    while k < es.len()
        invariant
            0 <= k <= es@.len(),
            ev == es@.map_values(|e: DirectoryEntry| e@),
            out@ == start + shell_entries(hub@, ev, k as nat),
        decreases es@.len() - k,
    {
        let e = &es[k];
        assert(ev[k as int] == e@);
        let ghost before = out@;
        if !hub.show_hidden_files && e.is_hidden {
        } else {
            let sel = contains_name(&hub.selected_files, &chars_of(e.name.as_str()));
            let sc = class_str(sel, "selected");
            proof {
                reveal_strlit("selected");
            }
            let esc = escape_apos_vec(&chars_of(e.name.as_str()));
            let up = to_uppercase(e.name.as_str());
            match e.entry_type {
                EntryType::Directory => push_shell_dir_html(out, sc, &esc, up.as_str()),
                _ => {
                    let size = size_chars(e.size, false);
                    push_shell_file_html(out, sc, &esc, up.as_str(), &size);
                },
            }
        }
        k = k + 1;
        assert(out@ =~= start + shell_entries(hub@, ev, k as nat));
    }
}

/// Whether `name` is among the names of `v`.
fn contains_name(v: &Vec<String>, name: &Vec<char>) -> (b: bool)
    ensures
        b == string_views(v@).contains(name@),
{
    let mut k: usize = 0;
    while k < v.len()
        invariant
            0 <= k <= v@.len(),
            forall|t: int| 0 <= t < k ==> v@[t]@ != name@,
        decreases v@.len() - k,
    {
        let c = chars_of(v[k].as_str());
        if chars_eq(&c, name) {
            assert(string_views(v@)[k as int] == name@);
            return true;
        }
        k = k + 1;
    }
    assert forall|t: int| 0 <= t < string_views(v@).len() implies string_views(v@)[t] != name@ by {
        assert(string_views(v@)[t] == v@[t]@);
    }
    false
}

fn push_tenths(out: &mut Vec<char>, t: u64)
    ensures
        final(out)@ == old(out)@ + tenths_text(t as nat),
{
    let ghost start = out@;
    push_u64(out, t / 10);
    out.push('.');
    out.push((48u8 + (t % 10) as u8) as char);
    assert(out@ =~= start + tenths_text(t as nat));
}

fn rounded_div_exec(n: u128, d: u128) -> (r: u128)
    requires
        d > 0,
        n < 0x1_0000_0000_0000_0000_0000_0000,
        d < 0x1_0000_0000_0000_0000,
    ensures
        r == rounded_div(n as nat, d as nat),
        r <= n / d + 1,
{
    let q = n / d;
    let r = n % d;
    if 2 * r > d || (2 * r == d && q % 2 == 1) {
        q + 1
    } else {
        q
    }
}

/// The size text of a file: from a listing, or (`local`) from the disk.
fn size_chars(size: u64, local: bool) -> (v: Vec<char>)
    ensures
        v@ == if local { local_size_text(size as nat) } else { size_text(size as nat) },
{
    let mut v: Vec<char> = Vec::new();
    if size > 1048576 {
        let big = size as u128;
        let t = if local {
            assert((big * 1000) / 104878081 < 0xffff_ffff_ffff_ffff);
            rounded_div_exec(big * 1000, 104878081)
        } else {
            assert((big * 10) / 1048576 < 0xffff_ffff_ffff_ffff);
            rounded_div_exec(big * 10, 1048576)
        };
        push_tenths(&mut v, t as u64);
        push_str(&mut v, "MB");
    } else {
        push_u64(&mut v, size / 1024);
        push_str(&mut v, "KB");
    }
    v
}


fn extension_exec(name: &Vec<char>) -> (r: Option<Vec<char>>)
    ensures
        match r {
            Some(v) => extension(name@) == Some(v@),
            None => extension(name@) is None,
        },
{
    let mut i: usize = name.len();
    while i > 0
        invariant
            0 <= i <= name@.len(),
            last_dot(name@, name@.len()) == last_dot(name@, i as nat),
        decreases i,
    {
        if name[i - 1] == '.' {
            if i - 1 == 0 {
                return None;
            }
            return Some(slice_vec(name, i, name.len()));
        }
        i = i - 1;
    }
    None
}

fn push_local_dirs(out: &mut Vec<char>, hub: &CommandHub, es: &Vec<LocalEntry>)
    ensures
        final(out)@ == old(out)@ + local_dirs(hub@, es@, es@.len()),
{
    let ghost start = out@;
    let mut k: usize = 0;
    while k < es.len()
        invariant
            0 <= k <= es@.len(),
            out@ == start + local_dirs(hub@, es@, k as nat),
        decreases es@.len() - k,
    {
        let e = &es[k];
        let nc = chars_of(e.name.as_str());
        let sc = class_str(contains_name(&hub.selected_files, &nc), "selected");
        proof {
            reveal_strlit("selected");
        }
        let esc = escape_apos_vec(&nc);
        let up = to_uppercase(e.name.as_str());
        push_local_dir_html(out, sc, &esc, up.as_str());
        k = k + 1;
        assert(out@ =~= start + local_dirs(hub@, es@, k as nat));
    }
}

fn push_local_files(out: &mut Vec<char>, hub: &CommandHub, es: &Vec<LocalEntry>)
    ensures
        final(out)@ == old(out)@ + local_files(hub@, es@, es@.len()),
{
    let ghost start = out@;
    let mut k: usize = 0;
    while k < es.len()
        invariant
            0 <= k <= es@.len(),
            out@ == start + local_files(hub@, es@, k as nat),
        decreases es@.len() - k,
    {
        let e = &es[k];
        let nc = chars_of(e.name.as_str());
        let sc = class_str(contains_name(&hub.selected_files, &nc), "selected");
        proof {
            reveal_strlit("selected");
            reveal_strlit("FILE");
        }
        let esc = escape_apos_vec(&nc);
        let up = to_uppercase(e.name.as_str());
        let ext_raw = match extension_exec(&nc) {
            Some(x) => string_of(&x),
            None => String::from_str("FILE"),
        };
        let ext = to_uppercase(ext_raw.as_str());
        assert(ext@ == ext_caps(e.name@));
        let ext_class = to_lowercase(ext.as_str());
        let size = size_chars(e.size, true);
        push_local_file_html(out, sc, &esc, ext_class.as_str(), up.as_str(), &size, ext.as_str());
        k = k + 1;
        assert(out@ =~= start + local_files(hub@, es@, k as nat));
    }
}

fn push_listing(out: &mut Vec<char>, sector: &Sector, hub: &CommandHub, ctx: &HubRenderContext)
    ensures
        final(out)@ == old(out)@ + listing_view(sector@, hub@, *ctx),
{
    if sector.connection_type != ConnectionType::Local || hub.shell_listing.is_some() {
        match &hub.shell_listing {
            Some(l) => push_shell_entries(out, hub, &l.entries),
            None => push_str(out, WAITING_FOR_SHELL),
        }
    } else {
        match &ctx.local_listing {
            Ok(es) => {
                let ghost start = out@;
                let ds = shown_local_entries(es, hub.show_hidden_files, true);
                let fs = shown_local_entries(es, hub.show_hidden_files, false);
                push_local_dirs(out, hub, &ds);
                push_local_files(out, hub, &fs);
                let label = if hub.show_hidden_files {
                    "HIDE HIDDEN"
                } else {
                    "SHOW HIDDEN"
                };
                proof {
                    reveal_strlit("HIDE HIDDEN");
                    reveal_strlit("SHOW HIDDEN");
                }
                push_hidden_toggle_html(out, label);
                assert(out@ =~= start + local_listing(hub@, ctx.local_listing));
            },
            Err(e) => {
                let up = to_uppercase(e.as_str());
                push_dir_error_html(out, up.as_str());
            },
        }
    }
}

fn menu_command_exec(action: &String, target: &String) -> (v: Vec<char>)
    ensures
        v@ == menu_command(action@, target@),
{
    let a = chars_of(action.as_str());
    let mut v: Vec<char> = Vec::new();
    proof {
        reveal_strlit("OPEN");
        reveal_strlit("COPY");
        reveal_strlit("DELETE");
        reveal_strlit("RENAME");
    }
    if eq_str(&a, "OPEN") {
        push_str(&mut v, "view ");
        push_str(&mut v, target.as_str());
    } else if eq_str(&a, "COPY") {
        push_str(&mut v, "cp ");
        push_str(&mut v, target.as_str());
        push_str(&mut v, " ");
    } else if eq_str(&a, "DELETE") {
        push_str(&mut v, "rm ");
        push_str(&mut v, target.as_str());
    } else if eq_str(&a, "RENAME") {
        push_str(&mut v, "mv ");
        push_str(&mut v, target.as_str());
        push_str(&mut v, " ");
    } else {
        push_str(&mut v, action.as_str());
    }
    v
}

fn push_menu(out: &mut Vec<char>, m: &crate::model::ContextMenu)
    ensures
        final(out)@ == old(out)@ + context_menu_html(m@.x, m@.y, uppercased(m@.target), menu_items(m@, m@.actions.len())),
{
    let ghost mv = m@;
    let mut items: Vec<char> = Vec::new();
    let mut k: usize = 0;
    while k < m.actions.len()
        invariant
            0 <= k <= m.actions@.len(),
            mv == m@,
            mv.actions.len() == m.actions@.len(),
            items@ == menu_items(mv, k as nat),
        decreases m.actions@.len() - k,
    {
        let a = &m.actions[k];
        assert(mv.actions[k as int] == a@);
        let cmd = menu_command_exec(a, &m.target);
        let esc = escape_apos_vec(&cmd);
        push_menu_item_html(&mut items, &esc, a.as_str());
        k = k + 1;
        assert(items@ =~= menu_items(mv, k as nat));
    }
    let up = to_uppercase(m.target.as_str());
    push_context_menu_html(out, m.x, m.y, up.as_str(), &items);
}

fn push_directory_head(out: &mut Vec<char>, hub: &CommandHub)
    ensures
        final(out)@ == old(out)@ + directory_head(hub@),
{
    let ghost start = out@;
    push_str(out, DIRECTORY_VIEW);
    push_str(out, BREADCRUMB_ROOT);
    push_crumbs(out, &hub.current_directory);
    push_str(out, DIV_CLOSE);
    push_str(out, DIRECTORY_ACTIONS);
    push_str(out, FILE_GRID);
    push_str(out, PARENT_ENTRY);
    assert(out@ =~= start + directory_head(hub@));
}

fn push_directory_tail(out: &mut Vec<char>, hub: &CommandHub)
    ensures
        final(out)@ == old(out)@ + directory_tail(hub@),
{
    let ghost start = out@;
    push_str(out, DIV_CLOSE);
    let mut toolbar: Vec<char> = Vec::new();
    if hub.selected_files.len() > 0 {
        push_file_toolbar_html(&mut toolbar, hub.selected_files.len() as u64);
    }
    proof {
        reveal_strlit("");
    }
    push_chars(out, &toolbar);
    match &hub.context_menu {
        Some(m) => push_menu(out, m),
        None => {},
    }
    push_str(out, DIV_CLOSE);
    assert(out@ =~= start + directory_tail(hub@));
}

fn push_directory_view(out: &mut Vec<char>, sector: &Sector, hub: &CommandHub, ctx: &HubRenderContext)
    ensures
        final(out)@ == old(out)@ + directory_view(sector@, hub@, *ctx),
{
    let ghost start = out@;
    push_directory_head(out, hub);
    push_listing(out, sector, hub, ctx);
    push_directory_tail(out, hub);
    assert(out@ =~= start + directory_view(sector@, hub@, *ctx));
}


fn app_texts_exec(app: &Application, info: &AppInfo) -> (r: (Vec<char>, Vec<char>, Vec<char>))
    ensures
        (r.0@, r.1@, r.2@) == app_texts(app@, *info),
{
    let mut pid: Vec<char> = Vec::new();
    let mut cpu: Vec<char> = Vec::new();
    let mut mem: Vec<char> = Vec::new();
    match app.pid {
        Some(p) => {
            push_str(&mut pid, "PID: ");
            push_u64(&mut pid, p as u64);
            match info.stats {
                Some(st) => {
                    push_str(&mut cpu, "CPU: ");
                    push_tenths(&mut cpu, st.cpu_usage_tenths as u64);
                    push_str(&mut cpu, "%");
                    push_str(&mut mem, "MEM: ");
                    push_u64(&mut mem, st.memory_bytes / 1024 / 1024);
                    push_str(&mut mem, "MB");
                },
                None => {
                    push_str(&mut cpu, "CPU: ---");
                    push_str(&mut mem, "MEM: ---");
                },
            }
        },
        None => {
            if info.is_dummy {
                push_str(&mut pid, "PID: [TOS]");
                push_str(&mut cpu, "CPU: 0.0%");
                push_str(&mut mem, "MEM: <1MB");
            } else {
                push_str(&mut pid, "PID: ---");
                push_str(&mut cpu, "CPU: ---");
                push_str(&mut mem, "MEM: ---");
            }
        },
    }
    (pid, cpu, mem)
}

fn push_app_tiles(out: &mut Vec<char>, hub: &CommandHub, infos: &Vec<AppInfo>)
    requires
        infos@.len() == hub@.applications.len(),
    ensures
        final(out)@ == old(out)@ + app_tiles(hub@, infos@, hub@.applications.len()),
{
    let ghost start = out@;
    let ghost hv = hub@;
    let mut k: usize = 0;
    while k < hub.applications.len()
        invariant
            0 <= k <= hub.applications@.len(),
            hv == hub@,
            hv.applications.len() == hub.applications@.len(),
            infos@.len() == hub.applications@.len(),
            out@ == start + app_tiles(hv, infos@, k as nat),
        decreases hub.applications@.len() - k,
    {
        let app = &hub.applications[k];
        assert(hv.applications[k as int] == app@);
        let info = &infos[k];
        let (pid, cpu, mem) = app_texts_exec(app, info);
        let idt = id_to_string(app.id);
        let sel = contains_name(&hub.selected_files, &chars_of(idt.as_str()));
        let sc = class_str(sel, "selected");
        proof {
            reveal_strlit("selected");
        }
        let icon = match &info.icon {
            Some(i) => i.as_str(),
            None => DEFAULT_ICON,
        };
        let title = to_uppercase(app.title.as_str());
        let class = to_uppercase(app.app_class.as_str());
        push_app_tile_html(out, sc, app.id, title.as_str(), icon, class.as_str(), &pid, &cpu, &mem);
        k = k + 1;
        assert(out@ =~= start + app_tiles(hv, infos@, k as nat));
    }
}

fn push_activity_view(out: &mut Vec<char>, hub: &CommandHub, ctx: &HubRenderContext)
    requires
        ctx.app_infos@.len() == hub@.applications.len(),
    ensures
        final(out)@ == old(out)@ + activity_view(hub@, *ctx),
{
    let mut toolbar: Vec<char> = Vec::new();
    if hub.selected_files.len() > 0 {
        push_app_toolbar_html(&mut toolbar, hub.selected_files.len() as u64);
    }
    let mut apps: Vec<char> = Vec::new();
    push_app_tiles(&mut apps, hub, &ctx.app_infos);
    let mut modules: Vec<char> = Vec::new();
    let mut k: usize = 0;
    while k < ctx.module_overlays.len()
        invariant
            0 <= k <= ctx.module_overlays@.len(),
            modules@ == concat_all(ctx.module_overlays@, k as nat),
        decreases ctx.module_overlays@.len() - k,
    {
        push_str(&mut modules, ctx.module_overlays[k].as_str());
        k = k + 1;
    }
    let mut ts: Vec<char> = Vec::new();
    let mut k: usize = 0;
    while k < ctx.templates.len()
        invariant
            0 <= k <= ctx.templates@.len(),
            ts@ == templates(ctx.templates@, k as nat),
        decreases ctx.templates@.len() - k,
    {
        let t = &ctx.templates[k];
        push_template_html(&mut ts, t.0.as_str(), t.1.as_str());
        k = k + 1;
    }
    if ts.len() == 0 {
        push_str(&mut ts, NO_TEMPLATES);
    }
    proof {
        reveal_strlit("");
    }
    push_activity_view_html(out, &toolbar, &apps, &modules, &ts);
}

/// Draws the command hub of a viewport.
pub fn render_hub(state: &TosState, viewport: &Viewport, ctx: &HubRenderContext) -> (html: String)
    requires
        hub_drawable(state@, *viewport, *ctx),
    ensures
        html@ == hub_page(state@, *viewport, *ctx),
{
    let sector = &state.sectors[viewport.sector_index];
    let ghost sec = state@.sectors[viewport.sector_index as int];
    assert(sector@ == sec);
    let hub = &sector.hubs[viewport.hub_index];
    assert(hub@ == sec.hubs[viewport.hub_index as int]);
    let mut out: Vec<char> = Vec::new();
    let mtc = match hub.mode {
        CommandHubMode::Command => "mode-command",
        CommandHubMode::Directory => "mode-directory",
        CommandHubMode::Activity => "mode-activity",
        CommandHubMode::Search => "mode-search",
        CommandHubMode::Ai => "mode-ai",
    };
    proof {
        reveal_strlit("mode-command");
        reveal_strlit("mode-directory");
        reveal_strlit("mode-activity");
        reveal_strlit("mode-search");
        reveal_strlit("mode-ai");
        reveal_strlit("perspective-centered");
        reveal_strlit("left-region-hidden");
        reveal_strlit("active");
        reveal_strlit("");
    }
    push_hub_open_html(
        &mut out,
        mtc,
        class_str(hub.output_mode_centered, "perspective-centered"),
        class_str(!hub.left_region_visible, "left-region-hidden"),
        ctx.render_mode.as_str(),
    );
    push_header(&mut out, sector, hub, ctx);
    push_str(&mut out, HUB_CONTENT);
    match &hub.confirmation_required {
        Some(c) => push_hub_danger_html(&mut out, c.as_str()),
        None => {},
    }
    let mut lines: Vec<char> = Vec::new();
    push_log_lines(&mut lines, &hub.terminal_output);
    push_terminal_html(&mut out, hub.id, &lines);
    match hub.mode {
        CommandHubMode::Command => push_command_view(&mut out, ctx),
        CommandHubMode::Directory => push_directory_view(&mut out, sector, hub, ctx),
        CommandHubMode::Activity => push_activity_view(&mut out, hub, ctx),
        CommandHubMode::Ai => push_ai_view(&mut out, &ctx.ai_history, ctx.ai_generating),
        CommandHubMode::Search => push_search_view(&mut out, &ctx.search_results),
    }
    push_str(&mut out, DIV_CLOSE);
    let name = to_uppercase(sector.name.as_str());
    let classic = match hub.mode {
        CommandHubMode::Command | CommandHubMode::Directory | CommandHubMode::Activity => true,
        _ => false,
    };
    let searching = match hub.mode {
        CommandHubMode::Search => true,
        _ => false,
    };
    let asking = match hub.mode {
        CommandHubMode::Ai => true,
        _ => false,
    };
    push_prompt_html(
        &mut out,
        class_str(classic, "active"),
        class_str(searching, "active"),
        class_str(asking, "active"),
        name.as_str(),
        hub.prompt.as_str(),
        ctx.voice_indicator.as_str(),
        class_str(asking, AI_SUBMIT),
    );
    push_str(&mut out, DIV_CLOSE);
    match &ctx.voice_help {
        Some(h) => push_voice_overlay_html(&mut out, h.as_str()),
        None => {},
    }
    assert(out@ =~= hub_page(state@, *viewport, *ctx));
    string_of(&out)
}

} // verus!
