//! Collaboration: roles and their permissions, invitations, participants,
//! following mode and view synchronisation.
use vstd::prelude::*;
use crate::text::{all_ascii, ascii_lower, chars_of, string_of, push_str, lowercased, to_lowercase, replace_char,
    replace_char_vec, eq_str};
use crate::ids::{uuid_text, id_to_string, new_id};
use crate::clock::now_ms;
use crate::idmap::{IdMap, distinct_keys, pairs_map, lemma_pairs_map_at};
use crate::model::{HierarchyLevel, TosState, StateView, SectorView};

verus! {

/// A participant's role in a shared sector.
#[derive(Debug, Clone, Copy, PartialEq, Eq, Structural)]
pub enum CollaborationRole {
    /// Full control, can manage participants and settings
    CoOwner,
    /// Can interact with apps and shells, but not manage sector settings
    Operator,
    /// Read-only access to viewports and state
    Viewer,
}

/// The role a (normalised) name stands for.
pub open spec fn role_named(s: Seq<char>) -> Option<CollaborationRole> {
    if s == "coowner"@ || s == "owner"@ {
        Some(CollaborationRole::CoOwner)
    } else if s == "operator"@ {
        Some(CollaborationRole::Operator)
    } else if s == "viewer"@ {
        Some(CollaborationRole::Viewer)
    } else {
        None
    }
}

impl CollaborationRole {
    pub open spec fn spec_can_interact(self) -> bool {
        self != CollaborationRole::Viewer
    }

    pub open spec fn spec_can_manage(self) -> bool {
        self == CollaborationRole::CoOwner
    }

    pub open spec fn spec_as_str(self) -> Seq<char> {
        match self {
            CollaborationRole::CoOwner => "Co-owner"@,
            CollaborationRole::Operator => "Operator"@,
            CollaborationRole::Viewer => "Viewer"@,
        }
    }

    pub open spec fn display(self) -> Seq<char> {
        match self {
            CollaborationRole::CoOwner => "Co-Owner"@,
            CollaborationRole::Operator => "Operator"@,
            CollaborationRole::Viewer => "Viewer"@,
        }
    }

    /// Reads a role name, ignoring case and hyphens: `co-owner` (or
    /// `owner`), `operator`, `viewer`.
    pub fn from_str(s: &str) -> (r: Result<CollaborationRole, ()>)
        ensures
            match role_named(replace_char(lowercased(s@), '-', ""@)) {
                Some(role) => r == Ok::<CollaborationRole, ()>(role),
                None => r is Err,
            },
            all_ascii(s@) ==> match role_named(replace_char(ascii_lower(s@), '-', ""@)) {
                Some(role) => r == Ok::<CollaborationRole, ()>(role),
                None => r is Err,
            },
    {
        let lower = to_lowercase(s);
        let lc = chars_of(lower.as_str());
        let n = replace_char_vec(&lc, '-', "");
        if eq_str(&n, "coowner") || eq_str(&n, "owner") {
            Ok(CollaborationRole::CoOwner)
        } else if eq_str(&n, "operator") {
            Ok(CollaborationRole::Operator)
        } else if eq_str(&n, "viewer") {
            Ok(CollaborationRole::Viewer)
        } else {
            Err(())
        }
    }

    /// Whether the role may interact with apps and shells.
    pub fn can_interact(&self) -> (b: bool)
        ensures
            b == self.spec_can_interact(),
    {
        match self {
            CollaborationRole::CoOwner | CollaborationRole::Operator => true,
            CollaborationRole::Viewer => false,
        }
    }

    /// Whether the role may manage participants and settings.
    pub fn can_manage(&self) -> (b: bool)
        ensures
            b == self.spec_can_manage(),
    {
        match self {
            CollaborationRole::CoOwner => true,
            _ => false,
        }
    }

    /// Short name of the role.
    pub fn as_str(&self) -> (s: &'static str)
        ensures
            s@ == self.spec_as_str(),
    {
        match self {
            CollaborationRole::CoOwner => "Co-owner",
            CollaborationRole::Operator => "Operator",
            CollaborationRole::Viewer => "Viewer",
        }
    }

    /// Display name of the role.
    pub fn to_string(&self) -> (s: String)
        ensures
            s@ == self.display(),
    {
        match self {
            CollaborationRole::CoOwner => String::from_str("Co-Owner"),
            CollaborationRole::Operator => String::from_str("Operator"),
            CollaborationRole::Viewer => String::from_str("Viewer"),
        }
    }
}

/// Specific permission actions that can be checked.
#[derive(Debug, Clone, Copy, PartialEq, Eq)]
pub enum PermissionAction {
    ShellInput,
    AppLaunch,
    SectorReset,
    ParticipantInvite,
    ViewportControl,
    ModeSwitch,
    AppCalibrate,
    PortalManage,
}

impl PermissionAction {
    pub open spec fn display(self) -> Seq<char> {
        match self {
            PermissionAction::ShellInput => "shell input"@,
            PermissionAction::AppLaunch => "app launch"@,
            PermissionAction::SectorReset => "sector reset"@,
            PermissionAction::ParticipantInvite => "participant invite"@,
            PermissionAction::ViewportControl => "viewport control"@,
            PermissionAction::ModeSwitch => "mode switch"@,
            PermissionAction::AppCalibrate => "app calibrate"@,
            PermissionAction::PortalManage => "portal manage"@,
        }
    }

    /// Display name of the action.
    pub fn to_string(&self) -> (s: String)
        ensures
            s@ == self.display(),
    {
        let t = match self {
            PermissionAction::ShellInput => "shell input",
            PermissionAction::AppLaunch => "app launch",
            PermissionAction::SectorReset => "sector reset",
            PermissionAction::ParticipantInvite => "participant invite",
            PermissionAction::ViewportControl => "viewport control",
            PermissionAction::ModeSwitch => "mode switch",
            PermissionAction::AppCalibrate => "app calibrate",
            PermissionAction::PortalManage => "portal manage",
        };
        String::from_str(t)
    }
}

/// What a participant may do.
#[derive(Debug, Clone, Copy, PartialEq, Eq)]
pub struct PermissionSet {
    pub allow_shell_input: bool,
    pub allow_app_launch: bool,
    pub allow_sector_reset: bool,
    pub allow_participant_invite: bool,
    pub allow_viewport_control: bool,
    pub allow_mode_switch: bool,
    pub allow_app_calibrate: bool,
    pub allow_portal_manage: bool,
}

/// The permissions of a role: co-owners may do everything; operators all
/// but sector reset, invitations and portal management; viewers nothing.
pub open spec fn role_allows(role: CollaborationRole, action: PermissionAction) -> bool {
    match role {
        CollaborationRole::CoOwner => true,
        CollaborationRole::Operator => !(action == PermissionAction::SectorReset || action
            == PermissionAction::ParticipantInvite || action == PermissionAction::PortalManage),
        CollaborationRole::Viewer => false,
    }
}

impl PermissionSet {
    pub open spec fn allows(self, action: PermissionAction) -> bool {
        match action {
            PermissionAction::ShellInput => self.allow_shell_input,
            PermissionAction::AppLaunch => self.allow_app_launch,
            PermissionAction::SectorReset => self.allow_sector_reset,
            PermissionAction::ParticipantInvite => self.allow_participant_invite,
            PermissionAction::ViewportControl => self.allow_viewport_control,
            PermissionAction::ModeSwitch => self.allow_mode_switch,
            PermissionAction::AppCalibrate => self.allow_app_calibrate,
            PermissionAction::PortalManage => self.allow_portal_manage,
        }
    }

    pub open spec fn of_role(role: CollaborationRole) -> PermissionSet {
        let op = role != CollaborationRole::Viewer;
        let owner = role == CollaborationRole::CoOwner;
        PermissionSet {
            allow_shell_input: op,
            allow_app_launch: op,
            allow_sector_reset: owner,
            allow_participant_invite: owner,
            allow_viewport_control: op,
            allow_mode_switch: op,
            allow_app_calibrate: op,
            allow_portal_manage: owner,
        }
    }

    /// The permission set of a role.
    pub fn for_role(role: CollaborationRole) -> (p: PermissionSet)
        ensures
            p == PermissionSet::of_role(role),
            forall|a: PermissionAction| #[trigger] p.allows(a) == role_allows(role, a),
    {
        match role {
            CollaborationRole::CoOwner => PermissionSet {
                allow_shell_input: true,
                allow_app_launch: true,
                allow_sector_reset: true,
                allow_participant_invite: true,
                allow_viewport_control: true,
                allow_mode_switch: true,
                allow_app_calibrate: true,
                allow_portal_manage: true,
            },
            CollaborationRole::Operator => PermissionSet {
                allow_shell_input: true,
                allow_app_launch: true,
                allow_sector_reset: false,
                allow_participant_invite: false,
                allow_viewport_control: true,
                allow_mode_switch: true,
                allow_app_calibrate: true,
                allow_portal_manage: false,
            },
            CollaborationRole::Viewer => PermissionSet {
                allow_shell_input: false,
                allow_app_launch: false,
                allow_sector_reset: false,
                allow_participant_invite: false,
                allow_viewport_control: false,
                allow_mode_switch: false,
                allow_app_calibrate: false,
                allow_portal_manage: false,
            },
        }
    }

    /// Whether a specific action is allowed.
    pub fn check(&self, action: PermissionAction) -> (b: bool)
        ensures
            b == self.allows(action),
    {
        match action {
            PermissionAction::ShellInput => self.allow_shell_input,
            PermissionAction::AppLaunch => self.allow_app_launch,
            PermissionAction::SectorReset => self.allow_sector_reset,
            PermissionAction::ParticipantInvite => self.allow_participant_invite,
            PermissionAction::ViewportControl => self.allow_viewport_control,
            PermissionAction::ModeSwitch => self.allow_mode_switch,
            PermissionAction::AppCalibrate => self.allow_app_calibrate,
            PermissionAction::PortalManage => self.allow_portal_manage,
        }
    }
}

/// Roles are ordered by what they allow: whatever a viewer may do an
/// operator may, and whatever an operator may do a co-owner may.
pub proof fn law_roles_nest(action: PermissionAction)
    ensures
        role_allows(CollaborationRole::Viewer, action) ==> role_allows(CollaborationRole::Operator, action),
        role_allows(CollaborationRole::Operator, action) ==> role_allows(CollaborationRole::CoOwner, action),
{
}

/// A role may interact exactly when its permissions let it type into a
/// shell, and may manage exactly when they let it invite.
pub proof fn law_role_flags_match_permissions(role: CollaborationRole)
    ensures
        role.spec_can_interact() == PermissionSet::of_role(role).allows(PermissionAction::ShellInput),
        role.spec_can_manage() == PermissionSet::of_role(role).allows(PermissionAction::ParticipantInvite),
{
}

/// The view a participant has: hierarchy level, sector, hub, viewport and
/// focused application.
#[derive(Debug, Clone, Copy, PartialEq, Eq)]
pub struct ViewState {
    pub hierarchy_level: HierarchyLevel,
    pub sector_index: usize,
    pub hub_index: usize,
    pub viewport_index: usize,
    pub active_app_index: Option<usize>,
}

impl ViewState {
    /// The view of the active viewport of `state`.
    pub fn from_state(state: &TosState) -> (v: ViewState)
        requires
            state@.active_viewport_index < state@.viewports.len(),
            state@.active_viewport().sector_index < state@.sectors.len(),
        ensures
            v.hierarchy_level == state.current_level,
            v.sector_index == state@.active_viewport().sector_index,
            v.hub_index == state@.active_viewport().hub_index,
            v.viewport_index == state.active_viewport_index,
            v.active_app_index == state@.active_viewport().active_app_index,
    {
        let vp = state.viewports[state.active_viewport_index];
        ViewState {
            hierarchy_level: state.current_level,
            sector_index: vp.sector_index,
            hub_index: vp.hub_index,
            viewport_index: state.active_viewport_index,
            active_app_index: vp.active_app_index,
        }
    }

    /// Applies the view to `state`: the viewport (when it exists), the
    /// sector of the active viewport (when it exists) and the level.
    pub fn apply_to_state(&self, state: &mut TosState)
        requires
            old(state)@.active_viewport_index < old(state)@.viewports.len(),
        ensures
            final(state)@ == applied(*self, old(state)@),
    {
        if self.viewport_index < state.viewports.len() {
            state.active_viewport_index = self.viewport_index;
        }
        if self.sector_index < state.sectors.len() {
            let i = state.active_viewport_index;
            let mut vp = state.viewports[i];
            vp.sector_index = self.sector_index;
            state.viewports.set(i, vp);
        }
        state.current_level = self.hierarchy_level;
    }
}

/// `state` after a view is applied to it.
pub open spec fn applied(v: ViewState, s: StateView) -> StateView {
    let vi = if v.viewport_index < s.viewports.len() {
        v.viewport_index
    } else {
        s.active_viewport_index
    };
    let vps = if v.sector_index < s.sectors.len() {
        s.viewports.update(vi as int, crate::model::Viewport { sector_index: v.sector_index, ..s.viewports[vi as int] })
    } else {
        s.viewports
    };
    StateView { current_level: v.hierarchy_level, viewports: vps, active_viewport_index: vi, ..s }
}

/// Following mode: a guest's view tracks a host's.
#[derive(Debug, Clone, Copy, PartialEq, Eq)]
pub struct FollowingMode {
    /// The participant being followed
    pub host_id: u128,
    /// The last view synchronised
    pub last_synced_view: Option<ViewState>,
    /// Whether following is active
    pub active: bool,
    /// Interval between synchronisations, in milliseconds
    pub sync_interval_ms: u64,
    /// When the view was last synchronised (milliseconds); `None` before
    /// the first synchronisation, which is due at once
    pub last_sync_ms: Option<i64>,
}

impl FollowingMode {
    pub open spec fn due(self, now: i64) -> bool {
        self.active && match self.last_sync_ms {
            None => true,
            Some(t) => now >= t && now - t >= self.sync_interval_ms,
        }
    }

    /// Active following of `host_id`, synchronising every 100 ms.
    pub fn new(host_id: u128) -> (f: FollowingMode)
        ensures
            f == (FollowingMode {
                host_id,
                last_synced_view: None,
                active: true,
                sync_interval_ms: 100,
                last_sync_ms: None,
            }),
    {
        FollowingMode {
            host_id,
            last_synced_view: None,
            active: true,
            sync_interval_ms: 100,
            last_sync_ms: None,
        }
    }

    /// Stops following.
    pub fn stop(&mut self)
        ensures
            *final(self) == (FollowingMode { active: false, ..*old(self) }),
    {
        self.active = false;
    }

    /// Whether a synchronisation is due at time `now`.
    pub fn should_sync(&self, now: i64) -> (b: bool)
        ensures
            b == self.due(now),
    {
        if !self.active {
            return false;
        }
        match self.last_sync_ms {
            None => true,
            Some(t) => {
                if now < t {
                    false
                } else {
                    let d: i128 = now as i128 - t as i128;
                    d >= self.sync_interval_ms as i128
                }
            },
        }
    }

    /// Records a synchronisation of `view` at time `now`.
    pub fn mark_synced(&mut self, view: ViewState, now: i64)
        ensures
            *final(self) == (FollowingMode {
                last_synced_view: Some(view),
                last_sync_ms: Some(now),
                ..*old(self)
            }),
    {
        self.last_synced_view = Some(view);
        self.last_sync_ms = Some(now);
    }
}

/// An invitation to a sector.
#[derive(Debug, Clone, PartialEq, Eq)]
pub struct Invitation {
    pub id: u128,
    pub sector_id: u128,
    pub role: CollaborationRole,
    pub token: String,
    /// Expiry time in milliseconds, if any
    pub expires_at_ms: Option<i64>,
    pub used: bool,
}

/// A participant of a shared sector.
#[derive(Debug, Clone, PartialEq, Eq)]
pub struct Participant {
    pub id: u128,
    pub name: String,
    pub color: String,
    pub avatar_url: Option<String>,
    pub role: CollaborationRole,
    pub following_host_id: Option<u128>,
}

impl Participant {
    /// A copy of the participant.
    pub fn duplicate(&self) -> (d: Participant)
        ensures
            d == *self,
    {
        Participant {
            id: self.id,
            name: self.name.clone(),
            color: self.color.clone(),
            avatar_url: match &self.avatar_url {
                Some(u) => Some(u.clone()),
                None => None,
            },
            role: self.role,
            following_host_id: self.following_host_id,
        }
    }
}

/// A copy of a list of participants.
pub fn duplicate_participants(v: &Vec<Participant>) -> (d: Vec<Participant>)
    ensures
        d@ == v@,
{
    let mut d: Vec<Participant> = Vec::new();
    let mut i: usize = 0;
    while i < v.len()
        invariant
            0 <= i <= v@.len(),
            d@ == v@.take(i as int),
        decreases v@.len() - i,
    {
        d.push(v[i].duplicate());
        i = i + 1;
        assert(d@ =~= v@.take(i as int));
    }
    assert(v@.take(i as int) =~= v@);
    d
}

/// Why a permission check failed.
#[derive(Debug, Clone, PartialEq, Eq)]
pub enum PermissionDeniedError {
    UnknownParticipant(u128),
    NoSession(u128),
    ActionNotAllowed { participant: String, role: CollaborationRole, action: PermissionAction },
}

impl PermissionDeniedError {
    pub open spec fn message(self) -> Seq<char> {
        match self {
            PermissionDeniedError::UnknownParticipant(id) => "Unknown participant: "@ + uuid_text(id),
            PermissionDeniedError::NoSession(id) => "No active session for participant: "@
                + uuid_text(id),
            PermissionDeniedError::ActionNotAllowed { participant, role, action } => "Participant '"@
                + participant@ + "' with role '"@ + role.spec_as_str()
                + "' is not allowed to perform: "@ + action.display(),
        }
    }

    /// The error message.
    pub fn to_string(&self) -> (s: String)
        ensures
            s@ == self.message(),
    {
        let mut out: Vec<char> = Vec::new();
        match self {
            PermissionDeniedError::UnknownParticipant(id) => {
                push_str(&mut out, "Unknown participant: ");
                let t = id_to_string(*id);
                push_str(&mut out, t.as_str());
            },
            PermissionDeniedError::NoSession(id) => {
                push_str(&mut out, "No active session for participant: ");
                let t = id_to_string(*id);
                push_str(&mut out, t.as_str());
            },
            PermissionDeniedError::ActionNotAllowed { participant, role, action } => {
                push_str(&mut out, "Participant '");
                push_str(&mut out, participant.as_str());
                push_str(&mut out, "' with role '");
                push_str(&mut out, role.as_str());
                push_str(&mut out, "' is not allowed to perform: ");
                let a = action.to_string();
                push_str(&mut out, a.as_str());
            },
        }
        assert(out@ =~= self.message());
        string_of(&out)
    }
}


/// Invitations are valid for a day.
pub const INVITATION_LIFETIME_MS: i64 = 86_400_000;

/// A day after `now`, saturating at the largest time.
pub open spec fn spec_expiry(now: i64) -> i64 {
    if now > i64::MAX - INVITATION_LIFETIME_MS {
        i64::MAX
    } else {
        (now + INVITATION_LIFETIME_MS) as i64
    }
}

fn expiry(now: i64) -> (e: i64)
    ensures
        e == spec_expiry(now),
{
    if now > i64::MAX - INVITATION_LIFETIME_MS {
        i64::MAX
    } else {
        now + INVITATION_LIFETIME_MS
    }
}

/// The position of the invitation with token `t`, if any: the first one.
pub open spec fn token_at(s: Seq<Invitation>, t: Seq<char>, i: int) -> bool {
    0 <= i < s.len() && s[i].token@ == t && forall|j: int| 0 <= j < i ==> s[j].token@ != t
}

pub open spec fn has_token(s: Seq<Invitation>, t: Seq<char>) -> bool {
    exists|i: int| 0 <= i < s.len() && s[i].token@ == t
}

/// No token occurs twice.
pub open spec fn distinct_tokens(s: Seq<Invitation>) -> bool {
    forall|i: int, j: int| 0 <= i < j < s.len() ==> s[i].token@ != s[j].token@
}

/// Whether an invitation can still be redeemed at time `now`.
pub open spec fn redeemable(inv: Invitation, now: i64) -> bool {
    !inv.used && match inv.expires_at_ms {
        None => true,
        Some(e) => e > now,
    }
}

fn find_token(s: &Vec<Invitation>, t: &str) -> (r: Option<usize>)
    ensures
        match r {
            Some(i) => token_at(s@, t@, i as int),
            None => !has_token(s@, t@),
        },
{
    let ts = String::from_str(t);
    let mut i: usize = 0;
    while i < s.len()
        invariant
            0 <= i <= s@.len(),
            ts@ == t@,
            forall|j: int| 0 <= j < i ==> s@[j].token@ != t@,
        decreases s@.len() - i,
    {
        if s[i].token == ts {
            return Some(i);
        }
        i = i + 1;
    }
    None
}

fn same_index(a: Option<usize>, b: Option<usize>) -> (r: bool)
    ensures
        r == (a == b),
{
    match (a, b) {
        (Some(x), Some(y)) => x == y,
        (None, None) => true,
        _ => false,
    }
}

/// `new` is `old` with a fresh invitation `id` to the sector with token `t`,
/// valid for a day from `now`, in place of any with the same token.
pub open spec fn invitation_recorded(
    old: Seq<Invitation>,
    new: Seq<Invitation>,
    id: u128,
    sector_id: u128,
    role: CollaborationRole,
    t: String,
    now: i64,
) -> bool {
    let inv = Invitation { id, sector_id, role, token: t, expires_at_ms: Some(spec_expiry(now)), used: false };
    if has_token(old, t@) {
        exists|i: int| token_at(old, t@, i) && new == old.update(i, inv)
    } else {
        new == old.push(inv)
    }
}

/// The guest a demonstration invitation adds: named `Guest-` and the first
/// four characters of the token, in the guest colour, with the invited
/// role, following nobody.
pub open spec fn is_guest(p: Participant, id: u128, token: Seq<char>, role: CollaborationRole) -> bool {
    &&& p.id == id
    &&& p.name@ == "Guest-"@ + token.take(4)
    &&& p.color@ == "#00ffcc"@
    &&& p.avatar_url is None
    &&& p.role == role
    &&& p.following_host_id is None
}

/// The participants, their sessions and views, and the invitations of a
/// shared sector. Network transports are kept by the caller.
#[derive(Debug)]
pub struct CollaborationManager {
    pub invitations: Vec<Invitation>,
    pub sessions: IdMap<PermissionSet>,
    pub participants: IdMap<Participant>,
    pub following_modes: IdMap<FollowingMode>,
    pub view_states: IdMap<ViewState>,
}

/// The participants of the first `n` entries that have `role`, in entry
/// order.
pub open spec fn participants_of_role(s: Seq<(u128, Participant)>, role: CollaborationRole, n: int) -> Seq<Participant>
    decreases n,
{
    if n <= 0 {
        seq![]
    } else {
        participants_of_role(s, role, n - 1) + if s[n - 1].1.role == role {
            seq![s[n - 1].1]
        } else {
            seq![]
        }
    }
}

/// The participants a list of references points to.
pub open spec fn pointed(v: Seq<&Participant>) -> Seq<Participant> {
    v.map_values(|p: &Participant| *p)
}

/// Whether a view differs from the last one synchronised, in what a
/// follower sees: level, sector or focused application.
pub open spec fn view_changed(last: Option<ViewState>, v: ViewState) -> bool {
    match last {
        None => true,
        Some(l) => l.hierarchy_level != v.hierarchy_level || l.sector_index != v.sector_index
            || l.active_app_index != v.active_app_index,
    }
}

/// The update owed to follower `guest`, if any, at time `now`.
pub open spec fn sync_update(f: FollowingMode, views: Map<u128, ViewState>, now: i64) -> Option<ViewState> {
    if f.active && f.due(now) && views.dom().contains(f.host_id) && view_changed(
        f.last_synced_view,
        views[f.host_id],
    ) {
        Some(views[f.host_id])
    } else {
        None
    }
}

/// A follower after synchronisation at `now`.
pub open spec fn synced(f: FollowingMode, views: Map<u128, ViewState>, now: i64) -> FollowingMode {
    match sync_update(f, views, now) {
        Some(v) => FollowingMode { last_synced_view: Some(v), last_sync_ms: Some(now), ..f },
        None => f,
    }
}

/// The updates of a synchronisation, in follower order.
pub open spec fn sync_updates(fs: Seq<(u128, FollowingMode)>, views: Map<u128, ViewState>, now: i64) -> Seq<(u128, ViewState)> {
    fs.filter_map(
        |e: (u128, FollowingMode)|
            match sync_update(e.1, views, now) {
                Some(v) => Some((e.0, v)),
                None => None,
            },
    )
}

impl CollaborationManager {
    /// A manager with nobody in it.
    pub fn new() -> (m: CollaborationManager)
        ensures
            m.invitations@.len() == 0,
            m.sessions@ == Map::<u128, PermissionSet>::empty(),
            m.participants@ == Map::<u128, Participant>::empty(),
            m.following_modes@ == Map::<u128, FollowingMode>::empty(),
            m.view_states@ == Map::<u128, ViewState>::empty(),
    {
        CollaborationManager {
            invitations: Vec::new(),
            sessions: IdMap::new(),
            participants: IdMap::new(),
            following_modes: IdMap::new(),
            view_states: IdMap::new(),
        }
    }

    /// Records an invitation with token `token_id` (as text) and identifier
    /// `id`, created at `now`; an invitation with the same token is
    /// replaced. Returns the token.
    pub fn create_invitation_at(&mut self, sector_id: u128, role: CollaborationRole, token_id: u128, id: u128, now: i64) -> (t: String)
        ensures
            t@ == uuid_text(token_id),
            invitation_recorded(old(self).invitations@, final(self).invitations@, id, sector_id, role, t, now),
            final(self).sessions@ == old(self).sessions@,
            final(self).participants@ == old(self).participants@,
            final(self).following_modes@ == old(self).following_modes@,
            final(self).view_states@ == old(self).view_states@,
    {
        let token = id_to_string(token_id);
        let inv = Invitation {
            id,
            sector_id,
            role,
            token: token.clone(),
            expires_at_ms: Some(expiry(now)),
            used: false,
        };
        match find_token(&self.invitations, token.as_str()) {
            Some(i) => {
                self.invitations.set(i, inv);
            },
            None => {
                self.invitations.push(inv);
            },
        }
        token
    }

    /// Creates an invitation to `sector_id` with a fresh random token, valid
    /// for a day from now; returns the token.
    pub fn create_invitation(&mut self, sector_id: u128, role: CollaborationRole) -> (t: String)
        ensures
            exists|token_id: u128| t@ == uuid_text(token_id),
            final(self).sessions@ == old(self).sessions@,
            final(self).participants@ == old(self).participants@,
    {
        let token_id = new_id();
        let id = new_id();
        let now = now_ms();
        self.create_invitation_at(sector_id, role, token_id, id, now)
    }

    /// Handles an invitation request at the sector of the active viewport:
    /// an invitation (token `token_id`, identifier `invitation_id`, made at
    /// `now`) is created for the role, and a guest `participant_id` for it
    /// joins the sector at once with the role's permissions. Returns the
    /// token.
    pub fn invite_participant_at(
        &mut self,
        state: &mut TosState,
        role: CollaborationRole,
        token_id: u128,
        invitation_id: u128,
        participant_id: u128,
        now: i64,
    ) -> (t: String)
        requires
            old(state)@.active_viewport_index < old(state)@.viewports.len(),
            old(state)@.active_viewport().sector_index < old(state)@.sectors.len(),
        ensures
            t@ == uuid_text(token_id),
            ({
                let si = old(state)@.active_viewport().sector_index as int;
                let sec = old(state)@.sectors[si];
                &&& invitation_recorded(old(self).invitations@, final(self).invitations@, invitation_id, sec.id, role, t, now)
                &&& final(self).sessions@ == old(self).sessions@.insert(participant_id, PermissionSet::of_role(role))
                &&& exists|g: Participant| #[trigger] is_guest(g, participant_id, t@, role) && final(state)@ == StateView {
                    sectors: old(state)@.sectors.update(si, SectorView { participants: sec.participants.push(g), ..sec }),
                    ..old(state)@
                }
            }),
            final(self).participants@ == old(self).participants@,
            final(self).following_modes@ == old(self).following_modes@,
            final(self).view_states@ == old(self).view_states@,
    {
        let si = state.viewports[state.active_viewport_index].sector_index;
        let ghost s0 = state@;
        let sector_id = state.sectors[si].id;
        let token = self.create_invitation_at(sector_id, role, token_id, invitation_id, now);
        let cs = chars_of(token.as_str());
        assert(cs@.len() == 36);
        let head = crate::text::slice_vec(&cs, 0, 4);
        let mut name: Vec<char> = Vec::new();
        push_str(&mut name, "Guest-");
        crate::text::push_chars(&mut name, &head);
        let guest = Participant {
            id: participant_id,
            name: string_of(&name),
            color: String::from_str("#00ffcc"),
            avatar_url: None,
            role,
            following_host_id: None,
        };
        proof {
            reveal_strlit("#00ffcc");
            assert(head@ =~= token@.take(4));
        }
        let ghost g = guest;
        let mut sector = crate::model::Sector {
            id: 0,
            name: String::new(),
            color: String::new(),
            host: String::new(),
            connection_type: crate::remote::ConnectionType::Local,
            hubs: Vec::new(),
            participants: Vec::new(),
            active_hub_index: 0,
            icon: String::new(),
            portal_active: false,
            portal_url: None,
            description: String::new(),
            sector_type_name: String::new(),
        };
        std::mem::swap(&mut sector, &mut state.sectors[si]);
        sector.participants.push(guest);
        std::mem::swap(&mut sector, &mut state.sectors[si]);
        assert(state@.sectors =~= s0.sectors.update(
            si as int,
            crate::model::SectorView { participants: s0.sectors[si as int].participants.push(g), ..s0.sectors[si as int] },
        ));
        self.sessions.insert(participant_id, PermissionSet::for_role(role));
        assert(is_guest(g, participant_id, token@, role));
        token
    }

    /// `invite_participant_at` with fresh random identifiers, now.
    pub fn invite_participant(&mut self, state: &mut TosState, role: CollaborationRole) -> (t: String)
        requires
            old(state)@.active_viewport_index < old(state)@.viewports.len(),
            old(state)@.active_viewport().sector_index < old(state)@.sectors.len(),
        ensures
            exists|token_id: u128| t@ == uuid_text(token_id),
            ({
                let si = old(state)@.active_viewport().sector_index as int;
                let sec = old(state)@.sectors[si];
                exists|participant_id: u128, g: Participant| #[trigger] is_guest(g, participant_id, t@, role)
                    && final(self).sessions@ == old(self).sessions@.insert(participant_id, PermissionSet::of_role(role))
                    && final(state)@ == StateView {
                    sectors: old(state)@.sectors.update(si, SectorView { participants: sec.participants.push(g), ..sec }),
                    ..old(state)@
                }
            }),
            final(self).participants@ == old(self).participants@,
    {
        let token_id = new_id();
        let invitation_id = new_id();
        let participant_id = new_id();
        let now = now_ms();
        self.invite_participant_at(state, role, token_id, invitation_id, participant_id, now)
    }

    /// Redeems the invitation with token `token` at time `now`: when it is
    /// unused and unexpired it becomes used and its sector and role are
    /// returned.
    pub fn redeem_invitation_at(&mut self, token: &str, now: i64) -> (r: Option<(u128, CollaborationRole)>)
        ensures
            match r {
                Some((sector, role)) => exists|i: int| {
                    &&& token_at(old(self).invitations@, token@, i)
                    &&& redeemable(old(self).invitations@[i], now)
                    &&& sector == old(self).invitations@[i].sector_id
                    &&& role == old(self).invitations@[i].role
                    &&& final(self).invitations@ == old(self).invitations@.update(
                        i,
                        Invitation { used: true, ..old(self).invitations@[i] },
                    )
                },
                None => {
                    &&& final(self).invitations@ == old(self).invitations@
                    &&& forall|i: int| token_at(old(self).invitations@, token@, i) ==> !redeemable(
                        old(self).invitations@[i],
                        now,
                    )
                },
            },
            final(self).sessions@ == old(self).sessions@,
            final(self).participants@ == old(self).participants@,
            final(self).following_modes@ == old(self).following_modes@,
            final(self).view_states@ == old(self).view_states@,
    {
        match find_token(&self.invitations, token) {
            Some(i) => {
                let redeemable = !self.invitations[i].used && match self.invitations[i].expires_at_ms {
                    None => true,
                    Some(e) => e > now,
                };
                if redeemable {
                    let sector = self.invitations[i].sector_id;
                    let role = self.invitations[i].role;
                    let old_inv = &self.invitations[i];
                    let inv = Invitation {
                        id: old_inv.id,
                        sector_id: old_inv.sector_id,
                        role: old_inv.role,
                        token: old_inv.token.clone(),
                        expires_at_ms: old_inv.expires_at_ms,
                        used: true,
                    };
                    self.invitations.set(i, inv);
                    Some((sector, role))
                } else {
                    None
                }
            },
            None => None,
        }
    }

    /// Redeems the invitation with token `token` now.
    pub fn redeem_invitation(&mut self, token: &str) -> (r: Option<(u128, CollaborationRole)>)
        ensures
            r is Some ==> has_token(old(self).invitations@, token@),
            final(self).sessions@ == old(self).sessions@,
            final(self).participants@ == old(self).participants@,
    {
        let now = now_ms();
        self.redeem_invitation_at(token, now)
    }

    /// Adds a participant, with the permissions of its role.
    pub fn add_participant(&mut self, participant: Participant)
        ensures
            final(self).sessions@ == old(self).sessions@.insert(
                participant.id,
                PermissionSet::of_role(participant.role),
            ),
            final(self).participants@ == old(self).participants@.insert(participant.id, participant),
            final(self).following_modes@ == old(self).following_modes@,
            final(self).view_states@ == old(self).view_states@,
            final(self).invitations@ == old(self).invitations@,
    {
        let permissions = PermissionSet::for_role(participant.role);
        self.sessions.insert(participant.id, permissions);
        self.participants.insert(participant.id, participant);
    }

    /// Removes a participant with its session, following mode and view.
    pub fn remove_participant(&mut self, participant_id: u128)
        ensures
            final(self).sessions@ == old(self).sessions@.remove(participant_id),
            final(self).participants@ == old(self).participants@.remove(participant_id),
            final(self).following_modes@ == old(self).following_modes@.remove(participant_id),
            final(self).view_states@ == old(self).view_states@.remove(participant_id),
            final(self).invitations@ == old(self).invitations@,
    {
        self.sessions.remove(participant_id);
        self.participants.remove(participant_id);
        self.following_modes.remove(participant_id);
        self.view_states.remove(participant_id);
    }

    pub open spec fn permits(self, participant_id: u128, action: PermissionAction) -> bool {
        self.sessions@.dom().contains(participant_id) && self.sessions@[participant_id].allows(action)
    }

    /// Whether the participant's session allows the action (false without
    /// a session).
    /// All participants, in the order they joined.
    pub fn get_active_participants(&self) -> (v: Vec<&Participant>)
        ensures
            pointed(v@) == self.participants.entry_seq().map_values(|e: (u128, Participant)| e.1),
            v@.len() == self.participants@.dom().len(),
    {
        let n = self.participants.len();
        let mut v: Vec<&Participant> = Vec::new();
        let mut i: usize = 0;
        while i < n
            invariant
                n == self.participants.entry_seq().len(),
                0 <= i <= n,
                pointed(v@) == self.participants.entry_seq().map_values(|e: (u128, Participant)| e.1).subrange(0, i as int),
            decreases n - i,
        {
            let ghost before = v@;
            let p = self.participants.value_at(i);
            v.push(p);
            assert(pointed(v@) =~= pointed(before).push(*p));
            assert(pointed(v@) =~= self.participants.entry_seq().map_values(|e: (u128, Participant)| e.1).subrange(0, i + 1));
            i = i + 1;
        }
        assert(self.participants.entry_seq().map_values(|e: (u128, Participant)| e.1).subrange(0, n as int)
            =~= self.participants.entry_seq().map_values(|e: (u128, Participant)| e.1));
        v
    }

    /// The participants with `role`, in the order they joined.
    pub fn get_participants_by_role(&self, role: CollaborationRole) -> (v: Vec<&Participant>)
        ensures
            pointed(v@) == participants_of_role(
                self.participants.entry_seq(),
                role,
                self.participants.entry_seq().len() as int,
            ),
    {
        let n = self.participants.len();
        let mut v: Vec<&Participant> = Vec::new();
        let mut i: usize = 0;
        while i < n
            invariant
                n == self.participants.entry_seq().len(),
                0 <= i <= n,
                pointed(v@) == participants_of_role(self.participants.entry_seq(), role, i as int),
            decreases n - i,
        {
            let p = self.participants.value_at(i);
            if p.role == role {
                v.push(p);
            }
            assert(pointed(v@) =~= participants_of_role(self.participants.entry_seq(), role, i + 1));
            i = i + 1;
        }
        v
    }

    pub fn check_permission(&self, participant_id: u128, action: PermissionAction) -> (b: bool)
        ensures
            b == self.permits(participant_id, action),
    {
        match self.sessions.get(participant_id) {
            Some(p) => p.check(action),
            None => false,
        }
    }

    /// The permission check with the reason of a refusal.
    pub fn check_permission_with_details(&self, participant_id: u128, action: PermissionAction) -> (r: Result<(), PermissionDeniedError>)
        ensures
            !self.participants@.dom().contains(participant_id) ==> r == Err::<(), PermissionDeniedError>(
                PermissionDeniedError::UnknownParticipant(participant_id),
            ),
            self.participants@.dom().contains(participant_id) && !self.sessions@.dom().contains(
                participant_id,
            ) ==> r == Err::<(), PermissionDeniedError>(PermissionDeniedError::NoSession(participant_id)),
            self.participants@.dom().contains(participant_id) && self.sessions@.dom().contains(
                participant_id,
            ) ==> (r is Ok <==> self.sessions@[participant_id].allows(action)),
            self.participants@.dom().contains(participant_id) && self.sessions@.dom().contains(
                participant_id,
            ) && !self.sessions@[participant_id].allows(action) ==> r
                == Err::<(), PermissionDeniedError>(
                PermissionDeniedError::ActionNotAllowed {
                    participant: self.participants@[participant_id].name,
                    role: self.participants@[participant_id].role,
                    action,
                },
            ),
    {
        let participant = match self.participants.get(participant_id) {
            Some(p) => p,
            None => {
                return Err(PermissionDeniedError::UnknownParticipant(participant_id));
            },
        };
        let perms = match self.sessions.get(participant_id) {
            Some(p) => p,
            None => {
                return Err(PermissionDeniedError::NoSession(participant_id));
            },
        };
        if perms.check(action) {
            Ok(())
        } else {
            Err(
                PermissionDeniedError::ActionNotAllowed {
                    participant: participant.name.clone(),
                    role: participant.role,
                    action,
                },
            )
        }
    }

    /// Role-based access control: whether the action is allowed; a refusal
    /// is reported by the caller.
    pub fn enforce_action(&self, participant_id: u128, action: PermissionAction) -> (b: bool)
        ensures
            b == (self.participants@.dom().contains(participant_id) && self.permits(participant_id, action)),
    {
        self.check_permission_with_details(participant_id, action).is_ok()
    }

    /// Makes `guest_id` follow `host_id`; both must be participants.
    pub fn start_following(&mut self, guest_id: u128, host_id: u128) -> (r: Result<(), String>)
        ensures
            !old(self).participants@.dom().contains(guest_id) ==> r is Err && r->Err_0@
                == "Guest participant "@ + uuid_text(guest_id) + " not found"@,
            old(self).participants@.dom().contains(guest_id) && !old(self).participants@.dom().contains(
                host_id,
            ) ==> r is Err && r->Err_0@ == "Host participant "@ + uuid_text(host_id) + " not found"@,
            r is Err ==> final(self).participants@ == old(self).participants@
                && final(self).following_modes@ == old(self).following_modes@,
            r is Ok <==> old(self).participants@.dom().contains(guest_id)
                && old(self).participants@.dom().contains(host_id),
            r is Ok ==> final(self).participants@ == old(self).participants@.insert(
                guest_id,
                Participant { following_host_id: Some(host_id), ..old(self).participants@[guest_id] },
            ) && final(self).following_modes@ == old(self).following_modes@.insert(
                guest_id,
                FollowingMode {
                    host_id,
                    last_synced_view: None,
                    active: true,
                    sync_interval_ms: 100,
                    last_sync_ms: None,
                },
            ),
            final(self).sessions@ == old(self).sessions@,
            final(self).view_states@ == old(self).view_states@,
            final(self).invitations@ == old(self).invitations@,
    {
        if !self.participants.contains_key(guest_id) {
            let mut m: Vec<char> = Vec::new();
            push_str(&mut m, "Guest participant ");
            let t = id_to_string(guest_id);
            push_str(&mut m, t.as_str());
            push_str(&mut m, " not found");
            return Err(string_of(&m));
        }
        if !self.participants.contains_key(host_id) {
            let mut m: Vec<char> = Vec::new();
            push_str(&mut m, "Host participant ");
            let t = id_to_string(host_id);
            push_str(&mut m, t.as_str());
            push_str(&mut m, " not found");
            return Err(string_of(&m));
        }
        match self.participants.remove(guest_id) {
            Some(guest) => {
                let updated = Participant {
                    id: guest.id,
                    name: guest.name,
                    color: guest.color,
                    avatar_url: guest.avatar_url,
                    role: guest.role,
                    following_host_id: Some(host_id),
                };
                self.participants.insert(guest_id, updated);
                assert(self.participants@ =~= old(self).participants@.insert(
                    guest_id,
                    Participant { following_host_id: Some(host_id), ..old(self).participants@[guest_id] },
                ));
            },
            None => {},
        }
        self.following_modes.insert(guest_id, FollowingMode::new(host_id));
        Ok(())
    }

    /// Ends following mode for `guest_id`.
    pub fn stop_following(&mut self, guest_id: u128)
        ensures
            final(self).following_modes@ == old(self).following_modes@.remove(guest_id),
            old(self).participants@.dom().contains(guest_id) ==> final(self).participants@
                == old(self).participants@.insert(
                guest_id,
                Participant { following_host_id: None, ..old(self).participants@[guest_id] },
            ),
            !old(self).participants@.dom().contains(guest_id) ==> final(self).participants@
                == old(self).participants@,
            final(self).sessions@ == old(self).sessions@,
            final(self).view_states@ == old(self).view_states@,
            final(self).invitations@ == old(self).invitations@,
    {
        match self.participants.remove(guest_id) {
            Some(guest) => {
                let updated = Participant {
                    id: guest.id,
                    name: guest.name,
                    color: guest.color,
                    avatar_url: guest.avatar_url,
                    role: guest.role,
                    following_host_id: None,
                };
                self.participants.insert(guest_id, updated);
                assert(self.participants@ =~= old(self).participants@.insert(
                    guest_id,
                    Participant { following_host_id: None, ..old(self).participants@[guest_id] },
                ));
            },
            None => {
                assert(self.participants@ =~= old(self).participants@);
            },
        }
        self.following_modes.remove(guest_id);
    }

    /// Records the current view of a participant.
    pub fn update_view_state(&mut self, participant_id: u128, view: ViewState)
        ensures
            final(self).view_states@ == old(self).view_states@.insert(participant_id, view),
            final(self).sessions@ == old(self).sessions@,
            final(self).participants@ == old(self).participants@,
            final(self).following_modes@ == old(self).following_modes@,
            final(self).invitations@ == old(self).invitations@,
    {
        self.view_states.insert(participant_id, view);
    }

    /// The recorded view of a participant.
    pub fn get_view_state(&self, participant_id: u128) -> (r: Option<&ViewState>)
        ensures
            match r {
                Some(v) => self.view_states@.dom().contains(participant_id) && self.view_states@[participant_id] == *v,
                None => !self.view_states@.dom().contains(participant_id),
            },
    {
        self.view_states.get(participant_id)
    }

    /// Whether the participant is actively following someone.
    pub fn is_following(&self, participant_id: u128) -> (b: bool)
        ensures
            b == (self.following_modes@.dom().contains(participant_id)
                && self.following_modes@[participant_id].active),
    {
        match self.following_modes.get(participant_id) {
            Some(f) => f.active,
            None => false,
        }
    }

    /// Whom the participant follows.
    pub fn get_following_host(&self, participant_id: u128) -> (r: Option<u128>)
        ensures
            r == (if self.participants@.dom().contains(participant_id) {
                self.participants@[participant_id].following_host_id
            } else {
                None
            }),
    {
        match self.participants.get(participant_id) {
            Some(p) => p.following_host_id,
            None => None,
        }
    }

    /// Synchronises followers with their hosts at time `now`: every active
    /// follower whose synchronisation is due and whose host's recorded view
    /// changed since the last one gets that view. Returns the updates in
    /// follower order.
    pub fn synchronize_followers_at(&mut self, now: i64) -> (updates: Vec<(u128, ViewState)>)
        ensures
            updates@ == sync_updates(old(self).following_modes.entry_seq(), old(self).view_states@, now),
            final(self).following_modes@ == old(self).following_modes@.map_values(
                |f: FollowingMode| synced(f, old(self).view_states@, now),
            ),
            final(self).sessions@ == old(self).sessions@,
            final(self).participants@ == old(self).participants@,
            final(self).view_states@ == old(self).view_states@,
            final(self).invitations@ == old(self).invitations@,
    {
        let mut updates: Vec<(u128, ViewState)> = Vec::new();
        let n = self.following_modes.len();
        let ghost fs = self.following_modes.entry_seq();
        let ghost m0 = self.following_modes@;
        let ghost views = self.view_states@;
        let ghost f = |e: (u128, FollowingMode)|
            match sync_update(e.1, views, now) {
                Some(v) => Some((e.0, v)),
                None => None,
            };
        let mut i: usize = 0;
        while i < n
            invariant
                0 <= i <= n,
                n == fs.len(),
                distinct_keys(fs),
                m0 == pairs_map(fs),
                views == self.view_states@,
                self.following_modes.entry_seq().len() == n,
                forall|j: int| 0 <= j < n ==> #[trigger] self.following_modes.entry_seq()[j].0 == fs[j].0,
                forall|j: int| 0 <= j < i ==> #[trigger] self.following_modes.entry_seq()[j].1 == synced(fs[j].1, views, now),
                forall|j: int| i <= j < n ==> #[trigger] self.following_modes.entry_seq()[j].1 == fs[j].1,
                distinct_keys(self.following_modes.entry_seq()),
                self.following_modes@ == pairs_map(self.following_modes.entry_seq()),
                f == (|e: (u128, FollowingMode)|
                    match sync_update(e.1, views, now) {
                        Some(v) => Some((e.0, v)),
                        None => None,
                    }),
                updates@ == fs.take(i as int).filter_map(f),
                self.sessions@ == old(self).sessions@,
                self.participants@ == old(self).participants@,
                self.invitations@ == old(self).invitations@,
            decreases n - i,
        {
            assert(fs.take(i + 1).drop_last() =~= fs.take(i as int));
            assert(fs.take(i + 1).last() == fs[i as int]);
            let guest = self.following_modes.key_at(i);
            let fm = *self.following_modes.value_at(i);
            assert(fm == fs[i as int].1);
            assert(guest == fs[i as int].0);
            let mut done = false;
            if fm.active && fm.should_sync(now) {
                match self.view_states.get(fm.host_id) {
                    Some(hv) => {
                        let host_view = *hv;
                        let changed = match fm.last_synced_view {
                            None => true,
                            Some(l) => l.hierarchy_level != host_view.hierarchy_level
                                || l.sector_index != host_view.sector_index
                                || !same_index(l.active_app_index, host_view.active_app_index),
                        };
                        if changed {
                            updates.push((guest, host_view));
                            let mut g = fm;
                            g.mark_synced(host_view, now);
                            let ghost before = self.following_modes.entry_seq();
                            self.following_modes.insert(guest, g);
                            let cnt = self.following_modes.len();
                            proof {
                                lemma_pairs_map_at(before, i as int);
                                let w = choose|w: int| 0 <= w < before.len() && before[w].0 == guest
                                    && self.following_modes.entry_seq() == before.update(w, (guest, g));
                                assert(w == i);
                            }
                            done = true;
                        }
                    },
                    None => {},
                }
            }
            assert(sync_update(fs[i as int].1, views, now) is None ==> !done);
            i = i + 1;
        }
        proof {
            assert(fs.take(n as int) =~= fs);
            let m1 = self.following_modes@;
            let target = m0.map_values(|fm: FollowingMode| synced(fm, views, now));
            assert forall|k: u128| m1.dom().contains(k) <==> target.dom().contains(k) by {
                if m1.dom().contains(k) {
                    let j = choose|j: int| 0 <= j < n && self.following_modes.entry_seq()[j].0 == k;
                    assert(fs[j].0 == k);
                }
                if m0.dom().contains(k) {
                    let j = choose|j: int| 0 <= j < n && fs[j].0 == k;
                    assert(self.following_modes.entry_seq()[j].0 == k);
                }
            }
            assert forall|k: u128| m1.dom().contains(k) implies m1[k] == target[k] by {
                let j = choose|j: int| 0 <= j < n && self.following_modes.entry_seq()[j].0 == k;
                lemma_pairs_map_at(self.following_modes.entry_seq(), j);
                assert(fs[j].0 == k);
                lemma_pairs_map_at(fs, j);
            }
            assert(m1 =~= target);
        }
        updates
    }

    /// Synchronises followers now.
    pub fn synchronize_followers(&mut self) -> (updates: Vec<(u128, ViewState)>)
        ensures
            exists|now: i64| updates@ == sync_updates(old(self).following_modes.entry_seq(), old(self).view_states@, now),
            final(self).sessions@ == old(self).sessions@,
            final(self).participants@ == old(self).participants@,
            final(self).view_states@ == old(self).view_states@,
    {
        let now = now_ms();
        self.synchronize_followers_at(now)
    }
}


/// A participant just added may do exactly what its role allows.
pub proof fn law_added_participant_has_role_permissions(sessions: Map<u128, PermissionSet>, p: Participant, a: PermissionAction)
    ensures
        sessions.insert(p.id, PermissionSet::of_role(p.role))[p.id].allows(a) == role_allows(p.role, a),
{
}

/// A removed participant may do nothing.
pub proof fn law_removed_participant_is_denied(sessions: Map<u128, PermissionSet>, id: u128, a: PermissionAction)
    ensures
        !(sessions.remove(id).dom().contains(id) && sessions.remove(id)[id].allows(a)),
{
}

/// An invitation is redeemed at most once: after a redemption the same
/// token finds the same invitation, now used.
pub proof fn law_invitation_redeemed_once(s: Seq<Invitation>, t: Seq<char>, i: int, now: i64)
    requires
        token_at(s, t, i),
    ensures
        token_at(s.update(i, Invitation { used: true, ..s[i] }), t, i),
        !redeemable(s.update(i, Invitation { used: true, ..s[i] })[i], now),
{
}

/// Recording an invitation keeps tokens distinct.
pub proof fn law_invitation_tokens_stay_distinct(s: Seq<Invitation>, inv: Invitation)
    requires
        distinct_tokens(s),
    ensures
        has_token(s, inv.token@) ==> forall|i: int| token_at(s, inv.token@, i) ==> distinct_tokens(
            s.update(i, inv),
        ),
        !has_token(s, inv.token@) ==> distinct_tokens(s.push(inv)),
{
    assert forall|i: int| token_at(s, inv.token@, i) implies distinct_tokens(s.update(i, inv)) by {
        let u = s.update(i, inv);
        assert forall|a: int, b: int| 0 <= a < b < u.len() implies u[a].token@ != u[b].token@ by {
            if a == i {
                assert(s[b].token@ != s[i].token@);
            } else if b == i {
                assert(s[a].token@ != s[i].token@);
            }
        }
    }
    if !has_token(s, inv.token@) {
        let u = s.push(inv);
        assert forall|a: int, b: int| 0 <= a < b < u.len() implies u[a].token@ != u[b].token@ by {
            if b == s.len() {
                assert(u[a] == s[a]);
            }
        }
    }
}

/// A follower is sent a host view only when the host has a recorded view,
/// and synchronising twice at once sends nothing the second time.
pub proof fn law_synchronisation_settles(f: FollowingMode, views: Map<u128, ViewState>, now: i64)
    requires
        f.sync_interval_ms > 0,
    ensures
        sync_update(f, views, now) is Some ==> views.dom().contains(f.host_id),
        sync_update(synced(f, views, now), views, now) is Some ==> sync_update(f, views, now) is None,
{
}

/// A role reads back from its name and from its display name.
pub proof fn law_role_names_read_back(r: CollaborationRole)
    ensures
        all_ascii(r.spec_as_str()),
        all_ascii(r.display()),
        role_named(replace_char(ascii_lower(r.spec_as_str()), '-', ""@)) == Some(r),
        role_named(replace_char(ascii_lower(r.display()), '-', ""@)) == Some(r),
{
    reveal_strlit("Co-owner");
    reveal_strlit("Co-Owner");
    reveal_strlit("Operator");
    reveal_strlit("Viewer");
    reveal_strlit("coowner");
    reveal_strlit("owner");
    reveal_strlit("operator");
    reveal_strlit("viewer");
    reveal_strlit("-");
    reveal_strlit("");
    reveal_with_fuel(replace_char, 9);
    let a = r.spec_as_str();
    let d = r.display();
    match r {
        CollaborationRole::CoOwner => {
            assert(replace_char(ascii_lower(a), '-', ""@) =~= "coowner"@);
            assert(replace_char(ascii_lower(d), '-', ""@) =~= "coowner"@);
        },
        CollaborationRole::Operator => {
            assert(replace_char(ascii_lower(a), '-', ""@) =~= "operator"@);
        },
        CollaborationRole::Viewer => {
            assert(replace_char(ascii_lower(a), '-', ""@) =~= "viewer"@);
        },
    }
}

/// Only a co-owner may manage portals, reset sectors or invite.
pub proof fn law_only_co_owners_manage(r: CollaborationRole, a: PermissionAction)
    requires
        a == PermissionAction::PortalManage || a == PermissionAction::SectorReset || a
            == PermissionAction::ParticipantInvite,
    ensures
        PermissionSet::of_role(r).allows(a) <==> r == CollaborationRole::CoOwner,
        role_allows(r, a) <==> r == CollaborationRole::CoOwner,
{
}

} // verus!
