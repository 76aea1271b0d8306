//! Security: detection of dangerous commands, their tactile confirmation,
//! and the audit log.
//!
//! Fractions (slider distance, voice confidence, confirmation progress) are
//! in thousandths; times are milliseconds supplied by the caller, and
//! timestamps are text supplied by the caller.
use vstd::prelude::*;
use crate::text::{push_str, push_u64, push_u128, string_of, chars_of, push_chars, dec, replace_char, replace_char_vec};
use crate::ids::{uuid_text, id_to_string, new_id};
use crate::idmap::IdMap;
use crate::pattern::{CompiledPattern, regex_valid, regex_finds};

verus! {

/// Risk level of an operation.
#[derive(Debug, Clone, Copy, PartialEq, Eq, PartialOrd, Ord)]
pub enum RiskLevel {
    /// Informational only
    Low,
    /// Requires simple confirmation
    Medium,
    /// Requires tactile confirmation
    High,
    /// Requires multi-factor confirmation
    Critical,
}

/// Direction of a slider confirmation.
#[derive(Debug, Clone, Copy, PartialEq, Eq)]
pub enum SlideDirection {
    Left,
    Right,
    Up,
    Down,
}

/// A point of a confirmation pattern.
#[derive(Debug, Clone, Copy, PartialEq, Eq)]
pub struct PatternPoint {
    pub x: u32,
    pub y: u32,
}

/// How a dangerous command is confirmed.
#[derive(Debug, Clone, PartialEq, Eq)]
pub enum TactileMethod {
    /// Hold a button or key
    Hold { duration_ms: u64, target: String },
    /// Slide a control; distance in thousandths of the screen
    Slider { distance_milli: u32, direction: SlideDirection },
    /// Say a phrase with the required confidence, in thousandths
    Voice { phrase: String, confidence_milli: u32 },
    /// Press several buttons together
    MultiButton { button_count: usize, buttons: Vec<String> },
    /// Draw a pattern
    Pattern { sequence: Vec<PatternPoint> },
}

pub enum MethodView {
    Hold { duration_ms: u64, target: Seq<char> },
    Slider { distance_milli: u32, direction: SlideDirection },
    Voice { phrase: Seq<char>, confidence_milli: u32 },
    MultiButton { button_count: usize, buttons: Seq<Seq<char>> },
    Pattern { sequence: Seq<PatternPoint> },
}

impl View for TactileMethod {
    type V = MethodView;

    open spec fn view(&self) -> MethodView {
        match self {
            TactileMethod::Hold { duration_ms, target } => MethodView::Hold { duration_ms: *duration_ms, target: target@ },
            TactileMethod::Slider { distance_milli, direction } => MethodView::Slider {
                distance_milli: *distance_milli,
                direction: *direction,
            },
            TactileMethod::Voice { phrase, confidence_milli } => MethodView::Voice {
                phrase: phrase@,
                confidence_milli: *confidence_milli,
            },
            TactileMethod::MultiButton { button_count, buttons } => MethodView::MultiButton {
                button_count: *button_count,
                buttons: buttons@.map_values(|b: String| b@),
            },
            TactileMethod::Pattern { sequence } => MethodView::Pattern { sequence: sequence@ },
        }
    }
}

fn dup_strings(v: &Vec<String>) -> (w: Vec<String>)
    ensures
        w@.map_values(|b: String| b@) == v@.map_values(|b: String| b@),
{
    let mut w: Vec<String> = Vec::new();
    let mut i: usize = 0;
    while i < v.len()
        invariant
            0 <= i <= v@.len(),
            w@.len() == i,
            forall|j: int| 0 <= j < i ==> w@[j]@ == v@[j]@,
        decreases v@.len() - i,
    {
        w.push(v[i].clone());
        i = i + 1;
    }
    assert(w@.map_values(|b: String| b@) =~= v@.map_values(|b: String| b@));
    w
}

fn dup_points(v: &Vec<PatternPoint>) -> (w: Vec<PatternPoint>)
    ensures
        w@ == v@,
{
    let mut w: Vec<PatternPoint> = Vec::new();
    let mut i: usize = 0;
    while i < v.len()
        invariant
            0 <= i <= v@.len(),
            w@ == v@.take(i as int),
        decreases v@.len() - i,
    {
        w.push(v[i]);
        i = i + 1;
        assert(w@ =~= v@.take(i as int));
    }
    assert(v@.take(i as int) =~= v@);
    w
}

impl TactileMethod {
    /// A copy of the method.
    pub fn duplicate(&self) -> (m: TactileMethod)
        ensures
            m@ == self@,
    {
        match self {
            TactileMethod::Hold { duration_ms, target } => TactileMethod::Hold { duration_ms: *duration_ms, target: target.clone() },
            TactileMethod::Slider { distance_milli, direction } => TactileMethod::Slider {
                distance_milli: *distance_milli,
                direction: *direction,
            },
            TactileMethod::Voice { phrase, confidence_milli } => TactileMethod::Voice {
                phrase: phrase.clone(),
                confidence_milli: *confidence_milli,
            },
            TactileMethod::MultiButton { button_count, buttons } => TactileMethod::MultiButton {
                button_count: *button_count,
                buttons: dup_strings(buttons),
            },
            TactileMethod::Pattern { sequence } => TactileMethod::Pattern { sequence: dup_points(sequence) },
        }
    }
}

/// A dangerous command pattern.
#[derive(Debug, Clone, PartialEq, Eq)]
pub struct DangerousPattern {
    /// Pattern name
    pub name: String,
    /// Regular expression
    pub pattern: String,
    pub risk_level: RiskLevel,
    /// Warning message
    pub message: String,
    /// Confirmation the command needs
    pub required_confirmation: TactileMethod,
    /// Whether an override is allowed
    pub allow_override: bool,
}

pub struct PatternView {
    pub name: Seq<char>,
    pub pattern: Seq<char>,
    pub risk_level: RiskLevel,
    pub message: Seq<char>,
    pub required_confirmation: MethodView,
    pub allow_override: bool,
}

impl View for DangerousPattern {
    type V = PatternView;

    open spec fn view(&self) -> PatternView {
        PatternView {
            name: self.name@,
            pattern: self.pattern@,
            risk_level: self.risk_level,
            message: self.message@,
            required_confirmation: self.required_confirmation@,
            allow_override: self.allow_override,
        }
    }
}

impl DangerousPattern {
    /// A copy of the pattern.
    pub fn duplicate(&self) -> (p: DangerousPattern)
        ensures
            p@ == self@,
    {
        DangerousPattern {
            name: self.name.clone(),
            pattern: self.pattern.clone(),
            risk_level: self.risk_level,
            message: self.message.clone(),
            required_confirmation: self.required_confirmation.duplicate(),
            allow_override: self.allow_override,
        }
    }
}

/// The default dangerous patterns: name, expression, risk, message,
/// confirmation, override.
pub open spec fn default_security_patterns() -> Seq<PatternView> {
    seq![
        PatternView {
            name: "rm_rf_root"@,
            pattern: "rm\\s+(-[a-zA-Z]*f[a-zA-Z]*\\s+)?(-[a-zA-Z]*r[a-zA-Z]*\\s+)?/+"@,
            risk_level: RiskLevel::Critical,
            message: "This will recursively delete the entire filesystem!"@,
            required_confirmation: MethodView::MultiButton {
                button_count: 3,
                buttons: seq!["ctrl"@, "alt"@, "delete"@],
            },
            allow_override: false,
        },
        PatternView {
            name: "dd_to_device"@,
            pattern: "dd\\s+.*\\s+of=/dev/[sh]d[a-z]"@,
            risk_level: RiskLevel::Critical,
            message: "This will overwrite a storage device directly!"@,
            required_confirmation: MethodView::Voice {
                phrase: "I confirm this will destroy data"@,
                confidence_milli: 900,
            },
            allow_override: false,
        },
        PatternView {
            name: "mkfs"@,
            pattern: "mkfs\\.\\w+\\s+/dev/"@,
            risk_level: RiskLevel::Critical,
            message: "This will format a filesystem and destroy all data!"@,
            required_confirmation: MethodView::Slider { distance_milli: 800, direction: SlideDirection::Right },
            allow_override: false,
        },
        PatternView {
            name: "write_to_device"@,
            pattern: "[>|&]\\s*/dev/[sh]d[a-z]"@,
            risk_level: RiskLevel::High,
            message: "Writing directly to block devices can corrupt data"@,
            required_confirmation: MethodView::Hold { duration_ms: 3000, target: "space"@ },
            allow_override: true,
        },
        PatternView {
            name: "chmod_777_recursive"@,
            pattern: "chmod\\s+(-[a-zA-Z]*R[a-zA-Z]*\\s+)?777\\s+(-[a-zA-Z]*R[a-zA-Z]*\\s+)?/"@,
            risk_level: RiskLevel::High,
            message: "This will make all files world-writable recursively"@,
            required_confirmation: MethodView::Hold { duration_ms: 2000, target: "space"@ },
            allow_override: true,
        },
        PatternView {
            name: "fork_bomb"@,
            pattern: ":\\(\\)\\s*\\{\\s*:\\s*\\|:\\s*&\\s*\\}\\s*;"@,
            risk_level: RiskLevel::High,
            message: "This is a fork bomb that will crash the system"@,
            required_confirmation: MethodView::Pattern {
                sequence: seq![PatternPoint { x: 0, y: 0 }, PatternPoint { x: 1, y: 1 }, PatternPoint { x: 2, y: 0 }],
            },
            allow_override: false,
        },
        PatternView {
            name: "wget_pipe_sh"@,
            pattern: "wget\\s+.*\\s*\\|\\s*(ba)?sh"@,
            risk_level: RiskLevel::Medium,
            message: "Piping downloaded content directly to shell is dangerous"@,
            required_confirmation: MethodView::Hold { duration_ms: 1500, target: "space"@ },
            allow_override: true,
        },
        PatternView {
            name: "curl_pipe_sh"@,
            pattern: "curl\\s+.*\\s*\\|\\s*(ba)?sh"@,
            risk_level: RiskLevel::Medium,
            message: "Piping downloaded content directly to shell is dangerous"@,
            required_confirmation: MethodView::Hold { duration_ms: 1500, target: "space"@ },
            allow_override: true,
        },
    ]
}

fn hold(duration_ms: u64) -> (m: TactileMethod)
    ensures
        m@ == (MethodView::Hold { duration_ms, target: "space"@ }),
{
    TactileMethod::Hold { duration_ms, target: String::from_str("space") }
}

fn pat(name: &str, pattern: &str, risk_level: RiskLevel, message: &str, required_confirmation: TactileMethod, allow_override: bool) -> (p: DangerousPattern)
    ensures
        p@ == (PatternView {
            name: name@,
            pattern: pattern@,
            risk_level,
            message: message@,
            required_confirmation: required_confirmation@,
            allow_override,
        }),
{
    DangerousPattern {
        name: String::from_str(name),
        pattern: String::from_str(pattern),
        risk_level,
        message: String::from_str(message),
        required_confirmation,
        allow_override,
    }
}

/// The security configuration.
#[derive(Debug, Clone, PartialEq, Eq)]
pub struct SecurityConfig {
    /// Detect dangerous commands
    pub enable_detection: bool,
    /// Keep the audit log
    pub enable_audit_log: bool,
    /// Where the audit log is written
    pub audit_log_path: String,
    /// Most audit entries kept in memory
    pub max_audit_entries: usize,
    pub default_confirmation: TactileMethod,
    pub patterns: Vec<DangerousPattern>,
    /// Confirm every destructive command
    pub confirm_all_destructive: bool,
    /// Time allowed for a confirmation, in seconds
    pub confirmation_timeout_secs: u64,
}

impl SecurityConfig {
    /// The default dangerous patterns.
    pub fn default_patterns() -> (v: Vec<DangerousPattern>)
        ensures
            v@.map_values(|p: DangerousPattern| p@) == default_security_patterns(),
    {
        let mut buttons: Vec<String> = Vec::new();
        buttons.push(String::from_str("ctrl"));
        buttons.push(String::from_str("alt"));
        buttons.push(String::from_str("delete"));
        let mut seq: Vec<PatternPoint> = Vec::new();
        seq.push(PatternPoint { x: 0, y: 0 });
        seq.push(PatternPoint { x: 1, y: 1 });
        seq.push(PatternPoint { x: 2, y: 0 });
        assert(buttons@.map_values(|b: String| b@) =~= seq!["ctrl"@, "alt"@, "delete"@]);
        assert(seq@ =~= seq![PatternPoint { x: 0, y: 0 }, PatternPoint { x: 1, y: 1 }, PatternPoint { x: 2, y: 0 }]);
        let mb = TactileMethod::MultiButton { button_count: 3, buttons };
        assert(mb@ =~= default_security_patterns()[0].required_confirmation);
        let pt = TactileMethod::Pattern { sequence: seq };
        assert(pt@ =~= default_security_patterns()[5].required_confirmation);
        let mut v: Vec<DangerousPattern> = Vec::new();
        v.push(pat("rm_rf_root", "rm\\s+(-[a-zA-Z]*f[a-zA-Z]*\\s+)?(-[a-zA-Z]*r[a-zA-Z]*\\s+)?/+", RiskLevel::Critical,
            "This will recursively delete the entire filesystem!", mb, false));
        v.push(pat("dd_to_device", "dd\\s+.*\\s+of=/dev/[sh]d[a-z]", RiskLevel::Critical,
            "This will overwrite a storage device directly!",
            TactileMethod::Voice { phrase: String::from_str("I confirm this will destroy data"), confidence_milli: 900 }, false));
        v.push(pat("mkfs", "mkfs\\.\\w+\\s+/dev/", RiskLevel::Critical, "This will format a filesystem and destroy all data!",
            TactileMethod::Slider { distance_milli: 800, direction: SlideDirection::Right }, false));
        v.push(pat("write_to_device", "[>|&]\\s*/dev/[sh]d[a-z]", RiskLevel::High,
            "Writing directly to block devices can corrupt data", hold(3000), true));
        v.push(pat("chmod_777_recursive", "chmod\\s+(-[a-zA-Z]*R[a-zA-Z]*\\s+)?777\\s+(-[a-zA-Z]*R[a-zA-Z]*\\s+)?/",
            RiskLevel::High, "This will make all files world-writable recursively", hold(2000), true));
        v.push(pat("fork_bomb", ":\\(\\)\\s*\\{\\s*:\\s*\\|:\\s*&\\s*\\}\\s*;", RiskLevel::High,
            "This is a fork bomb that will crash the system", pt, false));
        v.push(pat("wget_pipe_sh", "wget\\s+.*\\s*\\|\\s*(ba)?sh", RiskLevel::Medium,
            "Piping downloaded content directly to shell is dangerous", hold(1500), true));
        v.push(pat("curl_pipe_sh", "curl\\s+.*\\s*\\|\\s*(ba)?sh", RiskLevel::Medium,
            "Piping downloaded content directly to shell is dangerous", hold(1500), true));
        assert(v@.map_values(|p: DangerousPattern| p@) =~= default_security_patterns());
        v
    }

    /// Detection and audit on, a thousand entries kept, two-second hold of
    /// the space bar, the default patterns, a thirty-second timeout.
    pub fn default() -> (c: SecurityConfig)
        ensures
            c.enable_detection && c.enable_audit_log && c.confirm_all_destructive,
            c.audit_log_path@ == "/var/log/tos/security.log"@,
            c.max_audit_entries == 1000,
            c.default_confirmation@ == (MethodView::Hold { duration_ms: 2000, target: "space"@ }),
            c.patterns@.map_values(|p: DangerousPattern| p@) == default_security_patterns(),
            c.confirmation_timeout_secs == 30,
    {
        SecurityConfig {
            enable_detection: true,
            enable_audit_log: true,
            audit_log_path: String::from_str("/var/log/tos/security.log"),
            max_audit_entries: 1000,
            default_confirmation: hold(2000),
            patterns: Self::default_patterns(),
            confirm_all_destructive: true,
            confirmation_timeout_secs: 30,
        }
    }
}

/// `s` with `&`, `<`, `>` and `"` written as HTML entities.
pub open spec fn html_escaped(s: Seq<char>) -> Seq<char> {
    replace_char(replace_char(replace_char(replace_char(s, '&', "&amp;"@), '<', "&lt;"@), '>', "&gt;"@), '"', "&quot;"@)
}

/// Escapes HTML special characters.
pub fn html_escape(s: &str) -> (r: String)
    ensures
        r@ == html_escaped(s@),
{
    let c0 = chars_of(s);
    let c1 = replace_char_vec(&c0, '&', "&amp;");
    let c2 = replace_char_vec(&c1, '<', "&lt;");
    let c3 = replace_char_vec(&c2, '>', "&gt;");
    let c4 = replace_char_vec(&c3, '"', "&quot;");
    string_of(&c4)
}


/// A security event of the audit log.
#[derive(Debug, Clone, PartialEq, Eq)]
pub enum SecurityEvent {
    DangerousCommandDetected { command: String, risk_level: RiskLevel, user: String, sector_id: u128, timestamp: String },
    ConfirmationStarted { method: TactileMethod, command: String, user: String, timestamp: String },
    ConfirmationCompleted { method: TactileMethod, command: String, user: String, success: bool, timestamp: String },
    CommandExecuted { command: String, user: String, sector_id: u128, confirmation_method: TactileMethod, timestamp: String },
    CommandBlocked { command: String, user: String, sector_id: u128, reason: String, timestamp: String },
    Authentication { user: String, success: bool, method: String, timestamp: String },
    RoleChange { user: String, old_role: String, new_role: String, changed_by: String, timestamp: String },
}

pub enum EventView {
    DangerousCommandDetected { command: Seq<char>, risk_level: RiskLevel, user: Seq<char>, sector_id: u128, timestamp: Seq<char> },
    ConfirmationStarted { method: MethodView, command: Seq<char>, user: Seq<char>, timestamp: Seq<char> },
    ConfirmationCompleted { method: MethodView, command: Seq<char>, user: Seq<char>, success: bool, timestamp: Seq<char> },
    CommandExecuted { command: Seq<char>, user: Seq<char>, sector_id: u128, confirmation_method: MethodView, timestamp: Seq<char> },
    CommandBlocked { command: Seq<char>, user: Seq<char>, sector_id: u128, reason: Seq<char>, timestamp: Seq<char> },
    Authentication { user: Seq<char>, success: bool, method: Seq<char>, timestamp: Seq<char> },
    RoleChange { user: Seq<char>, old_role: Seq<char>, new_role: Seq<char>, changed_by: Seq<char>, timestamp: Seq<char> },
}

impl View for SecurityEvent {
    type V = EventView;

    open spec fn view(&self) -> EventView {
        match self {
            SecurityEvent::DangerousCommandDetected { command, risk_level, user, sector_id, timestamp } =>
                EventView::DangerousCommandDetected {
                command: command@,
                risk_level: *risk_level,
                user: user@,
                sector_id: *sector_id,
                timestamp: timestamp@,
            },
            SecurityEvent::ConfirmationStarted { method, command, user, timestamp } => EventView::ConfirmationStarted {
                method: method@,
                command: command@,
                user: user@,
                timestamp: timestamp@,
            },
            SecurityEvent::ConfirmationCompleted { method, command, user, success, timestamp } =>
                EventView::ConfirmationCompleted {
                method: method@,
                command: command@,
                user: user@,
                success: *success,
                timestamp: timestamp@,
            },
            SecurityEvent::CommandExecuted { command, user, sector_id, confirmation_method, timestamp } =>
                EventView::CommandExecuted {
                command: command@,
                user: user@,
                sector_id: *sector_id,
                confirmation_method: confirmation_method@,
                timestamp: timestamp@,
            },
            SecurityEvent::CommandBlocked { command, user, sector_id, reason, timestamp } => EventView::CommandBlocked {
                command: command@,
                user: user@,
                sector_id: *sector_id,
                reason: reason@,
                timestamp: timestamp@,
            },
            SecurityEvent::Authentication { user, success, method, timestamp } => EventView::Authentication {
                user: user@,
                success: *success,
                method: method@,
                timestamp: timestamp@,
            },
            SecurityEvent::RoleChange { user, old_role, new_role, changed_by, timestamp } => EventView::RoleChange {
                user: user@,
                old_role: old_role@,
                new_role: new_role@,
                changed_by: changed_by@,
                timestamp: timestamp@,
            },
        }
    }
}

impl EventView {
    /// The user an event concerns.
    pub open spec fn user(self) -> Seq<char> {
        match self {
            EventView::DangerousCommandDetected { user, .. } => user,
            EventView::ConfirmationStarted { user, .. } => user,
            EventView::ConfirmationCompleted { user, .. } => user,
            EventView::CommandExecuted { user, .. } => user,
            EventView::CommandBlocked { user, .. } => user,
            EventView::Authentication { user, .. } => user,
            EventView::RoleChange { user, .. } => user,
        }
    }

    /// The sector an event concerns, if any.
    pub open spec fn sector(self) -> Option<u128> {
        match self {
            EventView::DangerousCommandDetected { sector_id, .. } => Some(sector_id),
            EventView::CommandExecuted { sector_id, .. } => Some(sector_id),
            EventView::CommandBlocked { sector_id, .. } => Some(sector_id),
            _ => None,
        }
    }
}

impl SecurityEvent {
    fn user_str(&self) -> (u: &String)
        ensures
            u@ == self@.user(),
    {
        match self {
            SecurityEvent::DangerousCommandDetected { user, .. } => user,
            SecurityEvent::ConfirmationStarted { user, .. } => user,
            SecurityEvent::ConfirmationCompleted { user, .. } => user,
            SecurityEvent::CommandExecuted { user, .. } => user,
            SecurityEvent::CommandBlocked { user, .. } => user,
            SecurityEvent::Authentication { user, .. } => user,
            SecurityEvent::RoleChange { user, .. } => user,
        }
    }

    fn sector(&self) -> (s: Option<u128>)
        ensures
            s == self@.sector(),
    {
        match self {
            SecurityEvent::DangerousCommandDetected { sector_id, .. } => Some(*sector_id),
            SecurityEvent::CommandExecuted { sector_id, .. } => Some(*sector_id),
            SecurityEvent::CommandBlocked { sector_id, .. } => Some(*sector_id),
            _ => None,
        }
    }
}

/// The views of audit entries.
pub open spec fn event_views(v: Seq<SecurityEvent>) -> Seq<EventView> {
    v.map_values(|e: SecurityEvent| e@)
}

/// The audit log after an event: recorded when auditing is on, the oldest
/// entry dropped beyond the bound.
pub open spec fn logged(log: Seq<EventView>, e: EventView, enabled: bool, max: usize) -> Seq<EventView> {
    if !enabled {
        log
    } else if log.len() + 1 > max {
        log.push(e).drop_first()
    } else {
        log.push(e)
    }
}

/// A confirmation in progress.
#[derive(Debug, Clone, PartialEq, Eq)]
pub struct ConfirmationSession {
    pub id: u128,
    pub command: String,
    pub risk_level: RiskLevel,
    pub required_method: TactileMethod,
    /// Progress in thousandths (a multi-button confirmation counts one
    /// thousand per button)
    pub progress_milli: u32,
    /// When the session started
    pub start_ms: u64,
    pub user: String,
    pub sector_id: u128,
}

pub struct SessionView {
    pub id: u128,
    pub command: Seq<char>,
    pub risk_level: RiskLevel,
    pub required_method: MethodView,
    pub progress_milli: u32,
    pub start_ms: u64,
    pub user: Seq<char>,
    pub sector_id: u128,
}

impl View for ConfirmationSession {
    type V = SessionView;

    open spec fn view(&self) -> SessionView {
        SessionView {
            id: self.id,
            command: self.command@,
            risk_level: self.risk_level,
            required_method: self.required_method@,
            progress_milli: self.progress_milli,
            start_ms: self.start_ms,
            user: self.user@,
            sector_id: self.sector_id,
        }
    }
}

impl ConfirmationSession {
    fn duplicate(&self) -> (c: ConfirmationSession)
        ensures
            c@ == self@,
    {
        ConfirmationSession {
            id: self.id,
            command: self.command.clone(),
            risk_level: self.risk_level,
            required_method: self.required_method.duplicate(),
            progress_milli: self.progress_milli,
            start_ms: self.start_ms,
            user: self.user.clone(),
            sector_id: self.sector_id,
        }
    }
}

/// A pattern with its compiled expression.
#[derive(Debug)]
pub struct CachedPattern {
    pattern: DangerousPattern,
    re: CompiledPattern,
}

impl CachedPattern {
    #[verifier::type_invariant]
    closed spec fn inv(self) -> bool {
        self.re.source_view() == self.pattern.pattern@
    }

    pub closed spec fn pattern_view(self) -> PatternView {
        self.pattern@
    }

    pub closed spec fn spec_pattern(self) -> DangerousPattern {
        self.pattern
    }

    fn matches(&self, command: &str) -> (b: bool)
        ensures
            b == regex_finds(self.pattern_view().pattern, command@),
    {
        proof {
            use_type_invariant(self);
        }
        self.re.is_match(command)
    }

    fn pattern(&self) -> (p: &DangerousPattern)
        ensures
            *p == self.spec_pattern(),
            p@ == self.pattern_view(),
    {
        &self.pattern
    }
}


/// The security manager.
#[derive(Debug)]
pub struct SecurityManager {
    pub config: SecurityConfig,
    pub audit_log: Vec<SecurityEvent>,
    pub active_sessions: IdMap<ConfirmationSession>,
    /// The configured patterns that compile, with their expressions
    pub pattern_cache: Vec<CachedPattern>,
}

/// `i` is the first cached pattern that finds the command.
pub open spec fn first_match(cache: Seq<CachedPattern>, command: Seq<char>, i: int) -> bool {
    0 <= i < cache.len() && regex_finds(cache[i].pattern_view().pattern, command) && forall|j: int|
        0 <= j < i ==> !regex_finds(cache[j].pattern_view().pattern, command)
}

/// The progress a confirmation needs, in thousandths.
pub open spec fn needed_milli(m: MethodView) -> int {
    match m {
        MethodView::MultiButton { button_count, .. } => button_count * 1000,
        _ => 1000,
    }
}

fn compile_patterns(patterns: &Vec<DangerousPattern>) -> (cache: Vec<CachedPattern>)
    ensures
        cache@.map_values(|c: CachedPattern| c.pattern_view()) == patterns@.map_values(
            |p: DangerousPattern| p@,
        ).filter(|p: PatternView| regex_valid(p.pattern)),
{
    let ghost pv = patterns@.map_values(|p: DangerousPattern| p@);
    let ghost f = |p: PatternView| regex_valid(p.pattern);
    let mut cache: Vec<CachedPattern> = Vec::new();
    let mut i: usize = 0;
    while i < patterns.len()
        invariant
            0 <= i <= patterns@.len(),
            pv == patterns@.map_values(|p: DangerousPattern| p@),
            f == (|p: PatternView| regex_valid(p.pattern)),
            cache@.map_values(|c: CachedPattern| c.pattern_view()) == pv.take(i as int).filter(f),
        decreases patterns@.len() - i,
    {
        reveal_with_fuel(Seq::filter, 1);
        assert(pv.take(i + 1).drop_last() =~= pv.take(i as int));
        let p = &patterns[i];
        match CompiledPattern::compile(p.pattern.as_str()) {
            Some(re) => {
                let c = CachedPattern { pattern: p.duplicate(), re };
                cache.push(c);
            },
            None => {},
        }
        assert(cache@.map_values(|c: CachedPattern| c.pattern_view()) =~= pv.take(i + 1).filter(f));
        i = i + 1;
    }
    assert(pv.take(i as int) =~= pv);
    cache
}

/// Confirmation of `command` started under session `session_id` at `now`,
/// stamped `timestamp`, taking the manager from `s0` to `s1` with result `r`:
/// without detection or a matching pattern nothing changes and there is no
/// session; otherwise the first matching pattern's risk and method make the
/// new session, which becomes active, and the detection and the start are
/// audited.
pub open spec fn confirmation_started(
    s0: SecurityManager,
    s1: SecurityManager,
    command: Seq<char>,
    user: Seq<char>,
    sector_id: u128,
    session_id: u128,
    now: u64,
    timestamp: Seq<char>,
    r: Option<ConfirmationSession>,
) -> bool {
    &&& (match r {
        None => {
            &&& (!s0.config.enable_detection || forall|i: int| 0 <= i < s0.cache().len()
                ==> !regex_finds(s0.cache()[i].pattern_view().pattern, command))
            &&& s1.audit_log@ == s0.audit_log@
            &&& s1.active_sessions@ == s0.active_sessions@
        },
        Some(s) => exists|i: int| {
            &&& s0.config.enable_detection
            &&& first_match(s0.cache(), command, i)
            &&& s@ == (SessionView {
                id: session_id,
                command: command,
                risk_level: s0.cache()[i].pattern_view().risk_level,
                required_method: s0.cache()[i].pattern_view().required_confirmation,
                progress_milli: 0,
                start_ms: now,
                user: user,
                sector_id,
            })
            &&& s1.active_sessions@.dom() == s0.active_sessions@.dom().insert(session_id)
            &&& s1.active_sessions@[session_id]@ == s@
            &&& forall|k: u128| k != session_id && s0.active_sessions@.dom().contains(k)
                ==> s1.active_sessions@[k] == s0.active_sessions@[k]
            &&& event_views(s1.audit_log@) == logged(
                logged(
                    event_views(s0.audit_log@),
                    EventView::DangerousCommandDetected {
                        command: command,
                        risk_level: s.risk_level,
                        user: user,
                        sector_id,
                        timestamp: timestamp,
                    },
                    s0.config.enable_audit_log,
                    s0.config.max_audit_entries,
                ),
                EventView::ConfirmationStarted {
                    method: s@.required_method,
                    command: command,
                    user: user,
                    timestamp: timestamp,
                },
                s0.config.enable_audit_log,
                s0.config.max_audit_entries,
            )
        },
    })
    &&& (s1.config == s0.config)
    &&& (s1.cache() == s0.cache())
}

impl SecurityManager {
    /// The cached patterns, in configuration order.
    pub open spec fn cache(self) -> Seq<CachedPattern> {
        self.pattern_cache@
    }

    /// A manager with the default configuration.
    pub fn new() -> (m: SecurityManager)
        ensures
            m.config.patterns@.map_values(|p: DangerousPattern| p@) == default_security_patterns(),
            m.cache().map_values(|c: CachedPattern| c.pattern_view()) == default_security_patterns().filter(
                |p: PatternView| regex_valid(p.pattern),
            ),
            m.audit_log@.len() == 0,
            m.active_sessions@ == Map::<u128, ConfirmationSession>::empty(),
            m.config.max_audit_entries == 1000 && m.config.enable_audit_log && m.config.enable_detection,
            m.config.confirmation_timeout_secs == 30,
    {
        Self::with_config(SecurityConfig::default())
    }

    /// A manager with the given configuration; the patterns that compile
    /// are cached, in order.
    pub fn with_config(config: SecurityConfig) -> (m: SecurityManager)
        ensures
            m.config == config,
            m.cache().map_values(|c: CachedPattern| c.pattern_view()) == config.patterns@.map_values(
                |p: DangerousPattern| p@,
            ).filter(|p: PatternView| regex_valid(p.pattern)),
            m.audit_log@.len() == 0,
            m.active_sessions@ == Map::<u128, ConfirmationSession>::empty(),
    {
        let pattern_cache = compile_patterns(&config.patterns);
        SecurityManager { config, audit_log: Vec::new(), active_sessions: IdMap::new(), pattern_cache }
    }

    /// Whether a confirmation is in progress.
    pub fn is_resetting(&self) -> (b: bool)
        ensures
            b == (self.active_sessions@.dom().len() > 0),
    {
        self.active_sessions.len() > 0
    }

    /// The first cached pattern that the command matches, with its risk;
    /// none when detection is off.
    pub fn check_command(&self, command: &str) -> (r: Option<(RiskLevel, &DangerousPattern)>)
        ensures
            !self.config.enable_detection ==> r is None,
            self.config.enable_detection ==> match r {
                Some((risk, p)) => exists|i: int| first_match(self.cache(), command@, i) && *p
                    == self.cache()[i].spec_pattern() && risk == p.risk_level,
                None => forall|i: int| 0 <= i < self.cache().len() ==> !regex_finds(
                    self.cache()[i].pattern_view().pattern,
                    command@,
                ),
            },
    {
        if !self.config.enable_detection {
            return None;
        }
        let mut i: usize = 0;
        while i < self.pattern_cache.len()
            invariant
                0 <= i <= self.pattern_cache@.len(),
                self.config.enable_detection,
                forall|j: int| 0 <= j < i ==> !regex_finds(self.pattern_cache@[j].pattern_view().pattern, command@),
            decreases self.pattern_cache@.len() - i,
        {
            if self.pattern_cache[i].matches(command) {
                let p = self.pattern_cache[i].pattern();
                assert(first_match(self.cache(), command@, i as int));
                return Some((p.risk_level, p));
            }
            i = i + 1;
        }
        None
    }

    fn log_event(&mut self, event: SecurityEvent)
        ensures
            event_views(final(self).audit_log@) == logged(
                event_views(old(self).audit_log@),
                event@,
                old(self).config.enable_audit_log,
                old(self).config.max_audit_entries,
            ),
            final(self).config == old(self).config,
            final(self).active_sessions@ == old(self).active_sessions@,
            final(self).cache() == old(self).cache(),
    {
        if !self.config.enable_audit_log {
            return;
        }
        self.audit_log.push(event);
        if self.audit_log.len() > self.config.max_audit_entries {
            self.audit_log.remove(0);
        }
        assert(event_views(self.audit_log@) =~= logged(
            event_views(old(self).audit_log@),
            event@,
            old(self).config.enable_audit_log,
            old(self).config.max_audit_entries,
        ));
    }

    /// Starts confirming a dangerous command under session `session_id` at
    /// `now`, stamped `timestamp`: when the command matches a pattern, the
    /// detection and the start are audited and the session, requiring the
    /// pattern's confirmation, becomes active.
    pub fn start_confirmation_at(&mut self, command: &str, user: &str, sector_id: u128, session_id: u128, now: u64, timestamp: &str) -> (r: Option<ConfirmationSession>)
        ensures
            confirmation_started(*old(self), *final(self), command@, user@, sector_id, session_id, now, timestamp@, r),
    {
        let (risk_level, method) = match self.check_command(command) {
            Some((rl, p)) => (rl, p.required_confirmation.duplicate()),
            None => {
                return None;
            },
        };
        let session = ConfirmationSession {
            id: session_id,
            command: String::from_str(command),
            risk_level,
            required_method: method.duplicate(),
            progress_milli: 0,
            start_ms: now,
            user: String::from_str(user),
            sector_id,
        };
        self.log_event(SecurityEvent::DangerousCommandDetected {
            command: String::from_str(command),
            risk_level,
            user: String::from_str(user),
            sector_id,
            timestamp: String::from_str(timestamp),
        });
        self.log_event(SecurityEvent::ConfirmationStarted {
            method,
            command: String::from_str(command),
            user: String::from_str(user),
            timestamp: String::from_str(timestamp),
        });
        let copy = session.duplicate();
        self.active_sessions.insert(session_id, session);
        Some(copy)
    }

    /// Starts confirming a dangerous command now, under a fresh session.
    pub fn start_confirmation(&mut self, command: &str, user: &str, sector_id: u128) -> (r: Option<ConfirmationSession>)
        ensures
            exists|session_id: u128, now: u64, timestamp: Seq<char>|
                #[trigger] confirmation_started(*old(self), *final(self), command@, user@, sector_id, session_id, now, timestamp, r),
            r is None ==> final(self).audit_log@ == old(self).audit_log@,
            r matches Some(s) ==> s.command@ == command@ && s.user@ == user@ && s.progress_milli == 0
                && final(self).active_sessions@.dom().contains(s.id),
    {
        let id = new_id();
        let now = crate::clock::now_ms();
        let now_u: u64 = if now < 0 { 0 } else { now as u64 };
        let ts = crate::clock::now_rfc3339();
        self.start_confirmation_at(command, user, sector_id, id, now_u, ts.as_str())
    }

    /// Records confirmation progress (clamped to ten thousand thousandths)
    /// and tells whether it suffices.
    pub fn update_progress(&mut self, session_id: u128, progress_milli: u32) -> (r: Option<bool>)
        ensures
            !old(self).active_sessions@.dom().contains(session_id) ==> r is None
                && final(self).active_sessions@ == old(self).active_sessions@,
            old(self).active_sessions@.dom().contains(session_id) ==> {
                let p: u32 = if progress_milli > 10000 { 10000 } else { progress_milli };
                let s = old(self).active_sessions@[session_id];
                &&& r == Some(p >= needed_milli(s.required_method@))
                &&& final(self).active_sessions@.dom() == old(self).active_sessions@.dom()
                &&& final(self).active_sessions@[session_id]@ == (SessionView { progress_milli: p, ..s@ })
                &&& forall|k: u128| k != session_id && old(self).active_sessions@.dom().contains(k)
                    ==> final(self).active_sessions@[k] == old(self).active_sessions@[k]
            },
            final(self).audit_log@ == old(self).audit_log@,
            final(self).config == old(self).config,
            final(self).cache() == old(self).cache(),
    {
        let p: u32 = if progress_milli > 10000 { 10000 } else { progress_milli };
        match self.active_sessions.remove(session_id) {
            Some(mut s) => {
                s.progress_milli = p;
                let required: u64 = match &s.required_method {
                    TactileMethod::MultiButton { button_count, .. } => {
                        if *button_count as u64 > u64::MAX / 1000 {
                            u64::MAX
                        } else {
                            *button_count as u64 * 1000
                        }
                    },
                    _ => 1000,
                };
                let done = p as u64 >= required;
                self.active_sessions.insert(session_id, s);
                Some(done)
            },
            None => None,
        }
    }

    /// Ends a session, stamped `timestamp`: its completion is audited, then
    /// the execution (on success) or the block.
    pub fn complete_confirmation_at(&mut self, session_id: u128, success: bool, timestamp: &str) -> (r: Option<ConfirmationSession>)
        ensures
            !old(self).active_sessions@.dom().contains(session_id) ==> r is None
                && final(self).audit_log@ == old(self).audit_log@ && final(self).active_sessions@
                == old(self).active_sessions@,
            old(self).active_sessions@.dom().contains(session_id) ==> {
                let s = old(self).active_sessions@[session_id]@;
                let on = old(self).config.enable_audit_log;
                let max = old(self).config.max_audit_entries;
                let l1 = logged(
                    event_views(old(self).audit_log@),
                    EventView::ConfirmationCompleted {
                        method: s.required_method,
                        command: s.command,
                        user: s.user,
                        success,
                        timestamp: timestamp@,
                    },
                    on,
                    max,
                );
                &&& r matches Some(x) && x@ == s
                &&& final(self).active_sessions@ == old(self).active_sessions@.remove(session_id)
                &&& event_views(final(self).audit_log@) == if success {
                    logged(l1, EventView::CommandExecuted {
                        command: s.command,
                        user: s.user,
                        sector_id: s.sector_id,
                        confirmation_method: s.required_method,
                        timestamp: timestamp@,
                    }, on, max)
                } else {
                    logged(l1, EventView::CommandBlocked {
                        command: s.command,
                        user: s.user,
                        sector_id: s.sector_id,
                        reason: "Confirmation failed or cancelled"@,
                        timestamp: timestamp@,
                    }, on, max)
                }
            },
            final(self).config == old(self).config,
            final(self).cache() == old(self).cache(),
    {
        let session = match self.active_sessions.remove(session_id) {
            Some(s) => s,
            None => {
                return None;
            },
        };
        self.log_event(SecurityEvent::ConfirmationCompleted {
            method: session.required_method.duplicate(),
            command: session.command.clone(),
            user: session.user.clone(),
            success,
            timestamp: String::from_str(timestamp),
        });
        if success {
            self.log_event(SecurityEvent::CommandExecuted {
                command: session.command.clone(),
                user: session.user.clone(),
                sector_id: session.sector_id,
                confirmation_method: session.required_method.duplicate(),
                timestamp: String::from_str(timestamp),
            });
        } else {
            self.log_event(SecurityEvent::CommandBlocked {
                command: session.command.clone(),
                user: session.user.clone(),
                sector_id: session.sector_id,
                reason: String::from_str("Confirmation failed or cancelled"),
                timestamp: String::from_str(timestamp),
            });
        }
        Some(session)
    }

    /// Cancels a session: a failed completion.
    pub fn cancel_confirmation_at(&mut self, session_id: u128, timestamp: &str) -> (r: Option<ConfirmationSession>)
        ensures
            final(self).active_sessions@ == old(self).active_sessions@.remove(session_id),
            r is Some <==> old(self).active_sessions@.dom().contains(session_id),
            final(self).config == old(self).config,
    {
        self.complete_confirmation_at(session_id, false, timestamp)
    }

    /// Whether the session has run out of time at `now`; a timed-out
    /// session is cancelled.
    pub fn check_timeout_at(&mut self, session_id: u128, now: u64, timestamp: &str) -> (b: bool)
        ensures
            b == (old(self).active_sessions@.dom().contains(session_id) && crate::reset::since(
                now,
                old(self).active_sessions@[session_id].start_ms,
            ) / 1000 >= old(self).config.confirmation_timeout_secs),
            b ==> final(self).active_sessions@ == old(self).active_sessions@.remove(session_id),
            !b ==> final(self).active_sessions@ == old(self).active_sessions@ && final(self).audit_log@
                == old(self).audit_log@,
    {
        let timed_out = match self.active_sessions.get(session_id) {
            Some(s) => {
                let e: u64 = if now >= s.start_ms { (now - s.start_ms) / 1000 } else { 0 };
                e >= self.config.confirmation_timeout_secs
            },
            None => false,
        };
        if timed_out {
            self.cancel_confirmation_at(session_id, timestamp);
        }
        timed_out
    }

    /// The latest `count` audit entries, newest first.
    pub fn get_audit_log(&self, count: usize) -> (v: Vec<&SecurityEvent>)
        ensures
            v@.len() == if count < self.audit_log@.len() { count as int } else { self.audit_log@.len() as int },
            forall|i: int| 0 <= i < v@.len() ==> *v@[i] == self.audit_log@[self.audit_log@.len() - 1 - i],
    {
        let mut out: Vec<&SecurityEvent> = Vec::new();
        let n = self.audit_log.len();
        let mut i: usize = 0;
        while i < n && i < count
            invariant
                0 <= i <= n,
                i <= count,
                n == self.audit_log@.len(),
                out@.len() == i,
                forall|j: int| 0 <= j < i ==> *out@[j] == self.audit_log@[n - 1 - j],
            decreases n - i,
        {
            out.push(&self.audit_log[n - 1 - i]);
            i = i + 1;
        }
        out
    }

    /// The audit entries of a user, oldest first.
    pub fn get_user_audit_log(&self, user: &str) -> (v: Vec<&SecurityEvent>)
        ensures
            v@.len() == event_views(self.audit_log@).filter(|e: EventView| e.user() == user@).len(),
            forall|i: int| 0 <= i < v@.len() ==> v@[i]@ == event_views(self.audit_log@).filter(
                |e: EventView| e.user() == user@,
            )[i],
    {
        let ghost ev = event_views(self.audit_log@);
        let ghost f = |e: EventView| e.user() == user@;
        let u = String::from_str(user);
        let mut out: Vec<&SecurityEvent> = Vec::new();
        let mut i: usize = 0;
        while i < self.audit_log.len()
            invariant
                0 <= i <= self.audit_log@.len(),
                ev == event_views(self.audit_log@),
                f == (|e: EventView| e.user() == user@),
                u@ == user@,
                out@.len() == ev.take(i as int).filter(f).len(),
                forall|j: int| 0 <= j < out@.len() ==> out@[j]@ == ev.take(i as int).filter(f)[j],
            decreases self.audit_log@.len() - i,
        {
            reveal_with_fuel(Seq::filter, 1);
            assert(ev.take(i + 1).drop_last() =~= ev.take(i as int));
            let e = &self.audit_log[i];
            if *e.user_str() == u {
                out.push(e);
            }
            i = i + 1;
        }
        assert(ev.take(i as int) =~= ev);
        out
    }

    /// The audit entries of a sector, oldest first.
    pub fn get_sector_audit_log(&self, sector_id: u128) -> (v: Vec<&SecurityEvent>)
        ensures
            v@.len() == event_views(self.audit_log@).filter(|e: EventView| e.sector() == Some(sector_id)).len(),
            forall|i: int| 0 <= i < v@.len() ==> v@[i]@ == event_views(self.audit_log@).filter(
                |e: EventView| e.sector() == Some(sector_id),
            )[i],
    {
        let ghost ev = event_views(self.audit_log@);
        let ghost f = |e: EventView| e.sector() == Some(sector_id);
        let mut out: Vec<&SecurityEvent> = Vec::new();
        let mut i: usize = 0;
        while i < self.audit_log.len()
            invariant
                0 <= i <= self.audit_log@.len(),
                ev == event_views(self.audit_log@),
                f == (|e: EventView| e.sector() == Some(sector_id)),
                out@.len() == ev.take(i as int).filter(f).len(),
                forall|j: int| 0 <= j < out@.len() ==> out@[j]@ == ev.take(i as int).filter(f)[j],
            decreases self.audit_log@.len() - i,
        {
            reveal_with_fuel(Seq::filter, 1);
            assert(ev.take(i + 1).drop_last() =~= ev.take(i as int));
            let e = &self.audit_log[i];
            match e.sector() {
                Some(s) => {
                    if s == sector_id {
                        out.push(e);
                    }
                },
                None => {},
            }
            i = i + 1;
        }
        assert(ev.take(i as int) =~= ev);
        out
    }
}

/// The audit log never holds more than its bound once it is within it.
pub proof fn law_audit_log_bounded(log: Seq<EventView>, e: EventView, enabled: bool, max: usize)
    requires
        log.len() <= max,
    ensures
        logged(log, e, enabled, max).len() <= max,
{
}


/// The CSS class of a risk level.
pub open spec fn risk_class(r: RiskLevel) -> Seq<char> {
    match r {
        RiskLevel::Low => "risk-low"@,
        RiskLevel::Medium => "risk-medium"@,
        RiskLevel::High => "risk-high"@,
        RiskLevel::Critical => "risk-critical"@,
    }
}

/// The upper-case name of a risk level.
pub open spec fn risk_upper(r: RiskLevel) -> Seq<char> {
    match r {
        RiskLevel::Low => "LOW"@,
        RiskLevel::Medium => "MEDIUM"@,
        RiskLevel::High => "HIGH"@,
        RiskLevel::Critical => "CRITICAL"@,
    }
}

pub open spec fn direction_text(d: SlideDirection) -> Seq<char> {
    match d {
        SlideDirection::Left => "LEFT"@,
        SlideDirection::Right => "RIGHT"@,
        SlideDirection::Up => "UP"@,
        SlideDirection::Down => "DOWN"@,
    }
}

/// `<kbd>b</kbd>` for each button, joined by ` + `.
pub open spec fn kbd_list(bs: Seq<Seq<char>>) -> Seq<char>
    decreases bs.len(),
{
    if bs.len() == 0 {
        seq![]
    } else if bs.len() == 1 {
        "<kbd>"@ + bs[0] + "</kbd>"@
    } else {
        kbd_list(bs.drop_last()) + " + "@ + "<kbd>"@ + bs.last() + "</kbd>"@
    }
}

/// The instructions of a confirmation method at a progress.
pub open spec fn method_html(m: MethodView, progress_milli: u32) -> Seq<char> {
    match m {
        MethodView::Hold { duration_ms, target } => "<div class=\"tactile-hold\">\n                        <div class=\"hold-instruction\">HOLD <kbd>"@ + target + "</kbd> FOR "@ + dec((duration_ms / 1000) as nat) + " SECONDS</div>\n                        <div class=\"hold-progress-bar\">\n                            <div class=\"progress-fill\" style=\"width: "@
            + dec((progress_milli / 10) as nat) + "%\"></div>\n                        </div>\n                    </div>"@,
        MethodView::Slider { distance_milli, direction } => "<div class=\"tactile-slider\">\n                        <div class=\"slider-instruction\">SLIDE "@ + direction_text(direction) + " TO "@ + dec(
            (distance_milli / 10) as nat,
        ) + "%</div>\n                        <div class=\"slider-track\">\n                            <div class=\"slider-handle\" style=\"left: "@ + dec((progress_milli / 10) as nat) + "%\"></div>\n                        </div>\n                    </div>"@,
        MethodView::Voice { phrase, confidence_milli } => "<div class=\"tactile-voice\">\n                        <div class=\"voice-instruction\">VOICE CONFIRMATION:</div>\n                        <div class=\"voice-phrase\">\""@ + phrase + "\"</div>\n                        <div class=\"voice-confidence\">REQUIRED CONFIDENCE: "@ + dec((confidence_milli / 10) as nat)
            + "%</div>\n                        <div class=\"voice-progress\">"@ + (if progress_milli > 0 {
            "\u{2713} HEARD"@
        } else {
            "LISTENING..."@
        }) + "</div>\n                    </div>"@,
        MethodView::MultiButton { button_count, buttons } => "<div class=\"tactile-multibutton\">\n                        <div class=\"mb-instruction\">MULTI-BUTTON: PRESS "@ + dec(button_count as nat) + " SIMULTANEOUSLY</div>\n                        <div class=\"mb-buttons\">"@ + kbd_list(buttons)
            + "</div>\n                        <div class=\"mb-progress\">"@ + dec((progress_milli / 1000) as nat) + " OF "@ + dec(button_count as nat) + " PRESSED</div>\n                    </div>"@,
        MethodView::Pattern { sequence } => "<div class=\"tactile-pattern\">\n                        <div class=\"pattern-instruction\">Draw the pattern ("@ + dec(sequence.len()) + " points)</div>\n                        <div class=\"pattern-grid\">\n                            <!-- Pattern grid would be rendered here -->\n                        </div>\n                        <div class=\"pattern-progress\">"@ + dec(
            ((progress_milli as nat) * sequence.len() / 1000) as nat,
        ) + " points matched</div>\n                    </div>"@,
    }
}

/// The confirmation dialog of a session at `now`.
pub open spec fn confirmation_html(s: SessionView, timeout_secs: u64, now: u64) -> Seq<char> {
    let elapsed = crate::reset::since(now, s.start_ms) / 1000;
    let left: nat = if elapsed < timeout_secs { (timeout_secs - elapsed) as nat } else { 0 };
    "<div class=\"security-confirmation-dialog "@ + risk_class(s.risk_level) + "\">\n                <div class=\"confirmation-header\">\n                    <div class=\"risk-badge\">"@ + risk_upper(s.risk_level) + " RISK</div>\n                    <div class=\"confirmation-title\">DANGEROUS COMMAND DETECTED</div>\n                </div>\n                <div class=\"command-display\">\n                    <code>"@ + html_escaped(s.command) + "</code>\n                </div>\n                <div class=\"warning-message\">\n                    This command requires confirmation due to its destructive nature.\n                </div>\n                "@
        + method_html(s.required_method, s.progress_milli) + "\n                <div class=\"confirmation-timeout\">\n                    Timeout in "@ + dec(left) + " seconds\n                </div>\n                <div class=\"confirmation-actions\">\n                    <button class=\"btn-cancel\" onclick=\"cancelConfirmation('"@ + uuid_text(s.id) + "')\">CANCEL</button>\n                </div>\n            </div>"@
}

fn push_kbd_list(out: &mut Vec<char>, bs: &Vec<String>)
    ensures
        final(out)@ == old(out)@ + kbd_list(bs@.map_values(|b: String| b@)),
{
    let ghost bv = bs@.map_values(|b: String| b@);
    let ghost start = out@;
    let mut i: usize = 0;
    while i < bs.len()
        invariant
            0 <= i <= bs@.len(),
            bv == bs@.map_values(|b: String| b@),
            out@ == start + kbd_list(bv.take(i as int)),
        decreases bs@.len() - i,
    {
        assert(bv.take(i + 1).drop_last() =~= bv.take(i as int));
        if i > 0 {
            push_str(out, " + ");
        }
        push_str(out, "<kbd>");
        push_str(out, bs[i].as_str());
        push_str(out, "</kbd>");
        assert(out@ =~= start + kbd_list(bv.take(i + 1)));
        i = i + 1;
    }
    assert(bv.take(i as int) =~= bv);
}

fn push_method(out: &mut Vec<char>, m: &TactileMethod, p: u32)
    ensures
        final(out)@ == old(out)@ + method_html(m@, p),
{
    let ghost start = out@;
    match m {
        TactileMethod::Hold { duration_ms, target } => {
            push_str(out, "<div class=\"tactile-hold\">\n                        <div class=\"hold-instruction\">HOLD <kbd>");
            push_str(out, target.as_str());
            push_str(out, "</kbd> FOR ");
            push_u64(out, *duration_ms / 1000);
            push_str(out, " SECONDS</div>\n                        <div class=\"hold-progress-bar\">\n                            <div class=\"progress-fill\" style=\"width: ");
            push_u64(out, (p / 10) as u64);
            push_str(out, "%\"></div>\n                        </div>\n                    </div>");
        },
        TactileMethod::Slider { distance_milli, direction } => {
            push_str(out, "<div class=\"tactile-slider\">\n                        <div class=\"slider-instruction\">SLIDE ");
            match direction {
                SlideDirection::Left => push_str(out, "LEFT"),
                SlideDirection::Right => push_str(out, "RIGHT"),
                SlideDirection::Up => push_str(out, "UP"),
                SlideDirection::Down => push_str(out, "DOWN"),
            }
            push_str(out, " TO ");
            push_u64(out, (*distance_milli / 10) as u64);
            push_str(out, "%</div>\n                        <div class=\"slider-track\">\n                            <div class=\"slider-handle\" style=\"left: ");
            push_u64(out, (p / 10) as u64);
            push_str(out, "%\"></div>\n                        </div>\n                    </div>");
        },
        TactileMethod::Voice { phrase, confidence_milli } => {
            push_str(out, "<div class=\"tactile-voice\">\n                        <div class=\"voice-instruction\">VOICE CONFIRMATION:</div>\n                        <div class=\"voice-phrase\">\"");
            push_str(out, phrase.as_str());
            push_str(out, "\"</div>\n                        <div class=\"voice-confidence\">REQUIRED CONFIDENCE: ");
            push_u64(out, (*confidence_milli / 10) as u64);
            push_str(out, "%</div>\n                        <div class=\"voice-progress\">");
            if p > 0 {
                push_str(out, "\u{2713} HEARD");
            } else {
                push_str(out, "LISTENING...");
            }
            push_str(out, "</div>\n                    </div>");
        },
        TactileMethod::MultiButton { button_count, buttons } => {
            push_str(out, "<div class=\"tactile-multibutton\">\n                        <div class=\"mb-instruction\">MULTI-BUTTON: PRESS ");
            push_u64(out, *button_count as u64);
            push_str(out, " SIMULTANEOUSLY</div>\n                        <div class=\"mb-buttons\">");
            push_kbd_list(out, buttons);
            push_str(out, "</div>\n                        <div class=\"mb-progress\">");
            push_u64(out, (p / 1000) as u64);
            push_str(out, " OF ");
            push_u64(out, *button_count as u64);
            push_str(out, " PRESSED</div>\n                    </div>");
        },
        TactileMethod::Pattern { sequence } => {
            push_str(out, "<div class=\"tactile-pattern\">\n                        <div class=\"pattern-instruction\">Draw the pattern (");
            push_u64(out, sequence.len() as u64);
            push_str(out, " points)</div>\n                        <div class=\"pattern-grid\">\n                            <!-- Pattern grid would be rendered here -->\n                        </div>\n                        <div class=\"pattern-progress\">");
            let len = sequence.len();
            assert((p as int) * (len as int) <= 0xffff_ffff * 0xffff_ffff_ffff_ffff) by (nonlinear_arith)
                requires p <= 0xffff_ffff, len <= 0xffff_ffff_ffff_ffff;
            let matched: u128 = p as u128 * len as u128 / 1000;
            push_u128(out, matched);
            push_str(out, " points matched</div>\n                    </div>");
        },
    }
    assert(out@ =~= start + method_html(m@, p));
}

impl SecurityManager {
    /// The confirmation dialog of a session at `now`.
    pub fn render_confirmation(&self, session: &ConfirmationSession, now: u64) -> (html: String)
        ensures
            html@ == confirmation_html(session@, self.config.confirmation_timeout_secs, now),
    {
        let mut out: Vec<char> = Vec::new();
        push_str(&mut out, "<div class=\"security-confirmation-dialog ");
        match session.risk_level {
            RiskLevel::Low => push_str(&mut out, "risk-low"),
            RiskLevel::Medium => push_str(&mut out, "risk-medium"),
            RiskLevel::High => push_str(&mut out, "risk-high"),
            RiskLevel::Critical => push_str(&mut out, "risk-critical"),
        }
        push_str(&mut out, "\">\n                <div class=\"confirmation-header\">\n                    <div class=\"risk-badge\">");
        match session.risk_level {
            RiskLevel::Low => push_str(&mut out, "LOW"),
            RiskLevel::Medium => push_str(&mut out, "MEDIUM"),
            RiskLevel::High => push_str(&mut out, "HIGH"),
            RiskLevel::Critical => push_str(&mut out, "CRITICAL"),
        }
        push_str(&mut out, " RISK</div>\n                    <div class=\"confirmation-title\">DANGEROUS COMMAND DETECTED</div>\n                </div>\n                <div class=\"command-display\">\n                    <code>");
        let esc = html_escape(session.command.as_str());
        push_str(&mut out, esc.as_str());
        push_str(&mut out, "</code>\n                </div>\n                <div class=\"warning-message\">\n                    This command requires confirmation due to its destructive nature.\n                </div>\n                ");
        push_method(&mut out, &session.required_method, session.progress_milli);
        push_str(&mut out, "\n                <div class=\"confirmation-timeout\">\n                    Timeout in ");
        let e: u64 = if now >= session.start_ms { (now - session.start_ms) / 1000 } else { 0 };
        let left: u64 = if e < self.config.confirmation_timeout_secs { self.config.confirmation_timeout_secs - e } else { 0 };
        push_u64(&mut out, left);
        push_str(&mut out, " seconds\n                </div>\n                <div class=\"confirmation-actions\">\n                    <button class=\"btn-cancel\" onclick=\"cancelConfirmation('");
        let idt = id_to_string(session.id);
        push_str(&mut out, idt.as_str());
        push_str(&mut out, "')\">CANCEL</button>\n                </div>\n            </div>");
        assert(out@ =~= confirmation_html(session@, self.config.confirmation_timeout_secs, now));
        string_of(&out)
    }
}

/// The label of an event in the dashboard.
pub open spec fn event_label(e: EventView) -> Seq<char> {
    match e {
        EventView::DangerousCommandDetected { .. } => "\u{26a0}\u{fe0f} Dangerous Command"@,
        EventView::ConfirmationStarted { .. } => "\u{23f3} Confirmation Started"@,
        EventView::ConfirmationCompleted { success, .. } => if success {
            "\u{2705} Confirmed"@
        } else {
            "\u{274c} Cancelled"@
        },
        EventView::CommandExecuted { .. } => "\u{25b6}\u{fe0f} Executed"@,
        EventView::CommandBlocked { .. } => "\u{1f6ab} Blocked"@,
        EventView::Authentication { success, .. } => if success {
            "\u{1f513} Auth Success"@
        } else {
            "\u{1f512} Auth Failed"@
        },
        EventView::RoleChange { .. } => "\u{1f464} Role Change"@,
    }
}

pub open spec fn event_time(e: EventView) -> Seq<char> {
    match e {
        EventView::DangerousCommandDetected { timestamp, .. } => timestamp,
        EventView::ConfirmationStarted { timestamp, .. } => timestamp,
        EventView::ConfirmationCompleted { timestamp, .. } => timestamp,
        EventView::CommandExecuted { timestamp, .. } => timestamp,
        EventView::CommandBlocked { timestamp, .. } => timestamp,
        EventView::Authentication { timestamp, .. } => timestamp,
        EventView::RoleChange { timestamp, .. } => timestamp,
    }
}

/// The table row of an event.
pub open spec fn event_row(e: EventView) -> Seq<char> {
    "<tr>\n                    <td>"@ + event_time(e) + "</td>\n                    <td>"@ + event_label(e) + "</td>\n                    <td>"@ + e.user() + "</td>\n                </tr>"@
}

/// The rows of the latest `k` events of the log, newest first.
pub open spec fn latest_rows(log: Seq<EventView>, k: nat) -> Seq<char>
    decreases k,
{
    if k == 0 || log.len() == 0 {
        seq![]
    } else {
        event_row(log.last()) + latest_rows(log.drop_last(), (k - 1) as nat)
    }
}

impl SecurityEvent {
    fn push_row(&self, out: &mut Vec<char>)
        ensures
            final(out)@ == old(out)@ + event_row(self@),
    {
        push_str(out, "<tr>\n                    <td>");
        let ts = match self {
            SecurityEvent::DangerousCommandDetected { timestamp, .. } => timestamp,
            SecurityEvent::ConfirmationStarted { timestamp, .. } => timestamp,
            SecurityEvent::ConfirmationCompleted { timestamp, .. } => timestamp,
            SecurityEvent::CommandExecuted { timestamp, .. } => timestamp,
            SecurityEvent::CommandBlocked { timestamp, .. } => timestamp,
            SecurityEvent::Authentication { timestamp, .. } => timestamp,
            SecurityEvent::RoleChange { timestamp, .. } => timestamp,
        };
        push_str(out, ts.as_str());
        push_str(out, "</td>\n                    <td>");
        let label = match self {
            SecurityEvent::DangerousCommandDetected { .. } => "\u{26a0}\u{fe0f} Dangerous Command",
            SecurityEvent::ConfirmationStarted { .. } => "\u{23f3} Confirmation Started",
            SecurityEvent::ConfirmationCompleted { success, .. } => if *success {
                "\u{2705} Confirmed"
            } else {
                "\u{274c} Cancelled"
            },
            SecurityEvent::CommandExecuted { .. } => "\u{25b6}\u{fe0f} Executed",
            SecurityEvent::CommandBlocked { .. } => "\u{1f6ab} Blocked",
            SecurityEvent::Authentication { success, .. } => if *success {
                "\u{1f513} Auth Success"
            } else {
                "\u{1f512} Auth Failed"
            },
            SecurityEvent::RoleChange { .. } => "\u{1f464} Role Change",
        };
        push_str(out, label);
        push_str(out, "</td>\n                    <td>");
        push_str(out, self.user_str().as_str());
        push_str(out, "</td>\n                </tr>");
        assert(final(out)@ =~= old(out)@ + event_row(self@));
    }
}

impl SecurityManager {
    /// The security dashboard: counts of events, sessions and patterns,
    /// and the twenty latest events, newest first.
    pub fn render_security_dashboard(&self) -> (html: String)
        ensures
            html@ == "<div class=\"security-dashboard\">\n                <h2>Security Dashboard</h2>\n                <div class=\"security-stats\">\n                    <div class=\"stat\">\n                        <div class=\"stat-value\">"@ + dec(self.audit_log@.len()) + "</div>\n                        <div class=\"stat-label\">Total Events</div>\n                    </div>\n                    <div class=\"stat\">\n                        <div class=\"stat-value\">"@ + dec(self.active_sessions@.dom().len()) + "</div>\n                        <div class=\"stat-label\">Active Sessions</div>\n                    </div>\n                    <div class=\"stat\">\n                        <div class=\"stat-value\">"@
                + dec(self.config.patterns@.len()) + "</div>\n                        <div class=\"stat-label\">Patterns</div>\n                    </div>\n                </div>\n                <h3>Recent Events</h3>\n                <table class=\"security-log\">\n                    <thead>\n                        <tr>\n                            <th>Time</th>\n                            <th>Event</th>\n                            <th>User</th>\n                        </tr>\n                    </thead>\n                    <tbody>\n                        "@ + latest_rows(event_views(self.audit_log@), 20) + "\n                    </tbody>\n                </table>\n            </div>"@,
    {
        let ghost ev = event_views(self.audit_log@);
        let mut rows: Vec<char> = Vec::new();
        let n = self.audit_log.len();
        let mut i: usize = 0;
        assert(ev.take(n as int) =~= ev);
        while i < n && i < 20
            invariant
                0 <= i <= n,
                i <= 20,
                n == self.audit_log@.len(),
                ev == event_views(self.audit_log@),
                rows@ + latest_rows(ev.take(n - i), (20 - i) as nat) == latest_rows(ev, 20),
            decreases n - i,
        {
            assert(ev.take(n - i).last() == self.audit_log@[n - 1 - i]@);
            assert(ev.take(n - i).drop_last() =~= ev.take(n - i - 1));
            self.audit_log[n - 1 - i].push_row(&mut rows);
            i = i + 1;
            assert(rows@ + latest_rows(ev.take(n - i), (20 - i) as nat) =~= latest_rows(ev, 20));
        }
        proof {
            assert(ev.take(n as int) =~= ev);
            if i == n {
                assert(ev.take(0) =~= Seq::<EventView>::empty());
            }
            assert(rows@ =~= latest_rows(ev, 20));
        }
        let mut out: Vec<char> = Vec::new();
        push_str(&mut out, "<div class=\"security-dashboard\">\n                <h2>Security Dashboard</h2>\n                <div class=\"security-stats\">\n                    <div class=\"stat\">\n                        <div class=\"stat-value\">");
        push_u64(&mut out, n as u64);
        push_str(&mut out, "</div>\n                        <div class=\"stat-label\">Total Events</div>\n                    </div>\n                    <div class=\"stat\">\n                        <div class=\"stat-value\">");
        push_u64(&mut out, self.active_sessions.len() as u64);
        push_str(&mut out, "</div>\n                        <div class=\"stat-label\">Active Sessions</div>\n                    </div>\n                    <div class=\"stat\">\n                        <div class=\"stat-value\">");
        push_u64(&mut out, self.config.patterns.len() as u64);
        push_str(&mut out, "</div>\n                        <div class=\"stat-label\">Patterns</div>\n                    </div>\n                </div>\n                <h3>Recent Events</h3>\n                <table class=\"security-log\">\n                    <thead>\n                        <tr>\n                            <th>Time</th>\n                            <th>Event</th>\n                            <th>User</th>\n                        </tr>\n                    </thead>\n                    <tbody>\n                        ");
        push_chars(&mut out, &rows);
        push_str(&mut out, "\n                    </tbody>\n                </table>\n            </div>");
        string_of(&out)
    }
}

} // verus!
