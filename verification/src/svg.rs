//! A picture of the compositor state as SVG: the sector cards of the
//! global overview, the command hub with its mode tabs and prompt, and the
//! bezel of a focused application.
use vstd::prelude::*;
use crate::model::{CommandHubMode, HierarchyLevel, Sector, SectorView, StateView, TosState};
use crate::text::{chars_of, dec, push_chars, push_str, push_u64, string_of, to_uppercase, uppercased};

verus! {

pub const CARD_BODY_0: &'static str = "<rect x=\"";
pub const CARD_BODY_1: &'static str = "\" y=\"";
pub const CARD_BODY_2: &'static str = "\" width=\"320\" height=\"420\" rx=\"20\" fill=\"rgba(30,30,50,0.6)\" stroke=\"rgba(255,255,255,0.05)\" />";
pub const CARD_HEADER_0: &'static str = "<path d=\"M ";
pub const CARD_HEADER_1: &'static str = " ";
pub const CARD_HEADER_2: &'static str = ", ";
pub const CARD_HEADER_3: &'static str = " ";
pub const CARD_HEADER_4: &'static str = " a 20 20 0 0 1 20 -20 h 280 a 20 20 0 0 1 20 20 v 40 h -320 z\" fill=\"";
pub const CARD_HEADER_5: &'static str = "\" />";
pub const CARD_LABEL_0: &'static str = "<text x=\"";
pub const CARD_LABEL_1: &'static str = "\" y=\"";
pub const CARD_LABEL_2: &'static str = "\" fill=\"black\" font-size=\"12\" font-weight=\"800\">SECTOR</text>";
pub const CARD_ICON_RING_0: &'static str = "<circle cx=\"";
pub const CARD_ICON_RING_1: &'static str = "\" cy=\"";
pub const CARD_ICON_RING_2: &'static str = "\" r=\"30\" fill=\"rgba(0,0,0,0.2)\" />";
pub const CARD_ICON_0: &'static str = "<text x=\"";
pub const CARD_ICON_1: &'static str = "\" y=\"";
pub const CARD_ICON_2: &'static str = "\" fill=\"";
pub const CARD_ICON_3: &'static str = "\" font-size=\"40\" text-anchor=\"middle\" filter=\"url(#glow)\">\u{2328}\u{fe0f}</text>";
pub const CARD_NAME_0: &'static str = "<text x=\"";
pub const CARD_NAME_1: &'static str = "\" y=\"";
pub const CARD_NAME_2: &'static str = "\" fill=\"white\" font-size=\"24\" font-weight=\"800\">";
pub const CARD_NAME_3: &'static str = "</text>";
pub const CARD_RULE_0: &'static str = "<line x1=\"";
pub const CARD_RULE_1: &'static str = "\" y1=\"";
pub const CARD_RULE_2: &'static str = "\" x2=\"";
pub const CARD_RULE_3: &'static str = "\" y2=\"";
pub const CARD_RULE_4: &'static str = "\" stroke=\"rgba(255,255,255,0.1)\" />";
pub const CARD_USERS_0: &'static str = "<text x=\"";
pub const CARD_USERS_1: &'static str = "\" y=\"";
pub const CARD_USERS_2: &'static str = "\" fill=\"rgba(255,255,255,0.4)\" font-size=\"10\">USERS</text>";
pub const CARD_COUNT_0: &'static str = "<text x=\"";
pub const CARD_COUNT_1: &'static str = "\" y=\"";
pub const CARD_COUNT_2: &'static str = "\" fill=\"";
pub const CARD_COUNT_3: &'static str = "\" font-size=\"18\" font-weight=\"700\">";
pub const CARD_COUNT_4: &'static str = "</text>";
pub const CARD_ENTER_BUTTON_0: &'static str = "<rect x=\"";
pub const CARD_ENTER_BUTTON_1: &'static str = "\" y=\"";
pub const CARD_ENTER_BUTTON_2: &'static str = "\" width=\"80\" height=\"30\" rx=\"5\" fill=\"";
pub const CARD_ENTER_BUTTON_3: &'static str = "\" />";
pub const CARD_ENTER_0: &'static str = "<text x=\"";
pub const CARD_ENTER_1: &'static str = "\" y=\"";
pub const CARD_ENTER_2: &'static str = "\" fill=\"black\" font-size=\"12\" font-weight=\"800\" text-anchor=\"middle\">ENTER</text>";
pub const CARD_SHARE_BUTTON_0: &'static str = "<rect x=\"";
pub const CARD_SHARE_BUTTON_1: &'static str = "\" y=\"";
pub const CARD_SHARE_BUTTON_2: &'static str = "\" width=\"80\" height=\"30\" rx=\"5\" fill=\"rgba(255,255,255,0.1)\" stroke=\"rgba(255,255,255,0.2)\" />";
pub const CARD_SHARE_0: &'static str = "<text x=\"";
pub const CARD_SHARE_1: &'static str = "\" y=\"";
pub const CARD_SHARE_2: &'static str = "\" fill=\"white\" font-size=\"12\" font-weight=\"800\" text-anchor=\"middle\">SHARE</text>";
pub const LINK_CARD_0: &'static str = "<rect x=\"";
pub const LINK_CARD_1: &'static str = "\" y=\"";
pub const LINK_CARD_2: &'static str = "\" width=\"320\" height=\"420\" rx=\"20\" fill=\"rgba(20,40,30,0.3)\" stroke=\"rgba(153,204,153,0.3)\" stroke-dasharray=\"5,5\" />";
pub const LINK_LABEL_0: &'static str = "<text x=\"";
pub const LINK_LABEL_1: &'static str = "\" y=\"";
pub const LINK_LABEL_2: &'static str = "\" fill=\"#99cc99\" font-size=\"24\" font-weight=\"800\" text-anchor=\"middle\">LINK NODE</text>";
pub const HUB_MODE_COMMAND_0: &'static str = "<rect x=\"10\" y=\"140\" width=\"120\" height=\"40\" rx=\"20\" fill=\"";
pub const HUB_MODE_COMMAND_1: &'static str = "\" />";
pub const HUB_MODE_DIRECTORY_0: &'static str = "<rect x=\"10\" y=\"190\" width=\"120\" height=\"40\" rx=\"20\" fill=\"";
pub const HUB_MODE_DIRECTORY_1: &'static str = "\" />";
pub const HUB_MODE_ACTIVITY_0: &'static str = "<rect x=\"10\" y=\"240\" width=\"120\" height=\"40\" rx=\"20\" fill=\"";
pub const HUB_MODE_ACTIVITY_1: &'static str = "\" />";
pub const HUB_SECTOR_0: &'static str = "<text x=\"220\" y=\"140\" fill=\"#9999cc\" font-size=\"24\" font-weight=\"bold\">SECTOR: ";
pub const HUB_SECTOR_1: &'static str = "</text>";
pub const HUB_PROMPT_0: &'static str = "<text x=\"240\" y=\"658\" fill=\"#ff9900\" font-family=\"monospace\" font-size=\"20\">> ";
pub const HUB_PROMPT_1: &'static str = "_</text>";
pub const FOCUS_BEZEL_0: &'static str = "<rect x=\"0\" y=\"0\" width=\"1280\" height=\"";
pub const FOCUS_BEZEL_1: &'static str = "\" fill=\"#111\" opacity=\"0.9\" />";
pub const SVG_OPEN: &'static str = "<svg width=\"1280\" height=\"720\" viewBox=\"0 0 1280 720\" xmlns=\"http://www.w3.org/2000/svg\" style=\"background: black; font-family: 'Outfit', sans-serif;\">";
pub const SVG_DEFS: &'static str = "<defs>\n        <linearGradient id=\"headerGrad\" x1=\"0%\" y1=\"0%\" x2=\"100%\" y2=\"0%\">\n            <stop offset=\"0%\" style=\"stop-color:white;stop-opacity:1\" />\n            <stop offset=\"100%\" style=\"stop-color:white;stop-opacity:0.3\" />\n        </linearGradient>\n        <filter id=\"bgBlur\">\n            <feGaussianBlur in=\"SourceGraphic\" stdDeviation=\"10\" />\n        </filter>\n        <filter id=\"glow\">\n            <feGaussianBlur stdDeviation=\"5\" result=\"coloredBlur\"/>\n            <feMerge>\n                <feMergeNode in=\"coloredBlur\"/>\n                <feMergeNode in=\"SourceGraphic\"/>\n            </feMerge>\n        </filter>\n    </defs>";
pub const SVG_BACKGROUND: &'static str = "<rect width=\"1280\" height=\"720\" fill=\"#050505\" />";
pub const SVG_SPLIT: &'static str = "<text x=\"640\" y=\"360\" fill=\"white\" text-anchor=\"middle\" font-size=\"24\">SPLIT VIEW (GRID)</text>";
pub const SVG_STATE: &'static str = "<text x=\"640\" y=\"360\" fill=\"white\" text-anchor=\"middle\" font-size=\"24\">TOS SYSTEM STATE</text>";
pub const OVERVIEW_TITLE: &'static str = "<text x=\"100\" y=\"80\" fill=\"url(#headerGrad)\" font-size=\"48\" font-weight=\"800\">TOS COMMAND CENTER</text>";
pub const OVERVIEW_TELEMETRY: &'static str = "<rect x=\"950\" y=\"45\" width=\"230\" height=\"50\" rx=\"15\" fill=\"rgba(255,255,255,0.05)\" stroke=\"rgba(255,255,255,0.1)\" />";
pub const OVERVIEW_STARDATE_LABEL: &'static str = "<text x=\"970\" y=\"70\" fill=\"#ff9900\" font-size=\"10\">STARDATE</text>";
pub const OVERVIEW_STARDATE: &'static str = "<text x=\"970\" y=\"85\" fill=\"white\" font-size=\"14\" font-weight=\"700\">02-33 // 02-1478</text>";
pub const HUB_ELBOW: &'static str = "<path d=\"M 0 100 h 150 a 30 30 0 0 1 30 30 v 400 a 30 30 0 0 1 -30 30 h -150 v -100 h 100 a 10 10 0 0 0 10 -10 v -260 a 10 10 0 0 0 -10 -10 h -100 z\" fill=\"#9999cc\" />";
pub const HUB_COMMAND: &'static str = "<text x=\"70\" y=\"165\" fill=\"black\" text-anchor=\"middle\" font-size=\"14\">COMMAND</text>";
pub const HUB_DIRECTORY: &'static str = "<text x=\"70\" y=\"215\" fill=\"black\" text-anchor=\"middle\" font-size=\"14\">DIRECTORY</text>";
pub const HUB_ACTIVITY: &'static str = "<text x=\"70\" y=\"265\" fill=\"black\" text-anchor=\"middle\" font-size=\"14\">ACTIVITY</text>";
pub const HUB_CONTENT: &'static str = "<rect x=\"200\" y=\"100\" width=\"1000\" height=\"500\" rx=\"10\" fill=\"#080808\" stroke=\"#333\" stroke-width=\"1\" />";
pub const HUB_PROMPT_BOX: &'static str = "<rect x=\"200\" y=\"620\" width=\"1000\" height=\"60\" rx=\"30\" fill=\"#111\" stroke=\"#ff9900\" stroke-width=\"2\" />";
pub const FOCUS_SURFACE: &'static str = "<rect x=\"40\" y=\"80\" width=\"1200\" height=\"600\" fill=\"#050505\" stroke=\"#222\" />";
pub const FOCUS_LABEL: &'static str = "<text x=\"640\" y=\"380\" fill=\"#333\" text-anchor=\"middle\" font-size=\"48\">APPLICATION SURFACE</text>";
pub const FOCUS_BEZEL_EDGE: &'static str = "<rect x=\"0\" y=\"0\" width=\"1280\" height=\"4\" fill=\"#9999cc\" />";
pub const FOCUS_BEZEL_TITLE: &'static str = "<text x=\"40\" y=\"28\" fill=\"#9999cc\" font-size=\"18\" font-weight=\"bold\">TOS // SYSTEM BEZEL</text>";
pub const FOCUS_ZOOM_BUTTON: &'static str = "<rect x=\"40\" y=\"60\" width=\"120\" height=\"40\" rx=\"5\" fill=\"#333\" stroke=\"#9999cc\" />";
pub const FOCUS_ZOOM: &'static str = "<text x=\"100\" y=\"85\" fill=\"#9999cc\" text-anchor=\"middle\" font-size=\"14\">ZOOM OUT</text>";
pub const FOCUS_SPLIT_BUTTON: &'static str = "<rect x=\"180\" y=\"60\" width=\"120\" height=\"40\" rx=\"5\" fill=\"#333\" stroke=\"#66cc66\" />";
pub const FOCUS_SPLIT: &'static str = "<text x=\"240\" y=\"85\" fill=\"#66cc66\" text-anchor=\"middle\" font-size=\"14\">SPLIT VIEW</text>";

/// The body of a sector card at (`x`, `y`).
pub open spec fn card_body(x: nat, y: nat) -> Seq<char> {
    CARD_BODY_0@ + dec(x) + CARD_BODY_1@ + dec(y) + CARD_BODY_2@
}

/// The coloured header of a sector card.
pub open spec fn card_header(x: nat, y: nat, c: Seq<char>) -> Seq<char> {
    CARD_HEADER_0@ + dec(x) + CARD_HEADER_1@ + dec((y + 20) as nat) + CARD_HEADER_2@ + dec(x) + CARD_HEADER_3@ + dec(y) + CARD_HEADER_4@ + c + CARD_HEADER_5@
}

/// The SECTOR label of a card.
pub open spec fn card_label(x: nat, y: nat) -> Seq<char> {
    CARD_LABEL_0@ + dec((x + 20) as nat) + CARD_LABEL_1@ + dec((y + 35) as nat) + CARD_LABEL_2@
}

/// The ring behind a card's icon.
pub open spec fn card_icon_ring(x: nat, y: nat) -> Seq<char> {
    CARD_ICON_RING_0@ + dec((x + 50) as nat) + CARD_ICON_RING_1@ + dec((y + 100) as nat) + CARD_ICON_RING_2@
}

/// The keyboard icon of a card.
pub open spec fn card_icon(x: nat, y: nat, c: Seq<char>) -> Seq<char> {
    CARD_ICON_0@ + dec((x + 50) as nat) + CARD_ICON_1@ + dec((y + 115) as nat) + CARD_ICON_2@ + c + CARD_ICON_3@
}

/// The sector name on a card.
pub open spec fn card_name(x: nat, y: nat, name: Seq<char>) -> Seq<char> {
    CARD_NAME_0@ + dec((x + 20) as nat) + CARD_NAME_1@ + dec((y + 170) as nat) + CARD_NAME_2@ + name + CARD_NAME_3@
}

/// The rule above a card's statistics.
pub open spec fn card_rule(x: nat, y: nat) -> Seq<char> {
    CARD_RULE_0@ + dec((x + 20) as nat) + CARD_RULE_1@ + dec((y + 240) as nat) + CARD_RULE_2@ + dec((x + 300) as nat) + CARD_RULE_3@ + dec((y + 240) as nat) + CARD_RULE_4@
}

/// The USERS label of a card.
pub open spec fn card_users(x: nat, y: nat) -> Seq<char> {
    CARD_USERS_0@ + dec((x + 20) as nat) + CARD_USERS_1@ + dec((y + 260) as nat) + CARD_USERS_2@
}

/// The number of participants on a card.
pub open spec fn card_count(x: nat, y: nat, c: Seq<char>, count: nat) -> Seq<char> {
    CARD_COUNT_0@ + dec((x + 20) as nat) + CARD_COUNT_1@ + dec((y + 280) as nat) + CARD_COUNT_2@ + c + CARD_COUNT_3@ + dec(count) + CARD_COUNT_4@
}

/// The ENTER button of a card.
pub open spec fn card_enter_button(x: nat, y: nat, c: Seq<char>) -> Seq<char> {
    CARD_ENTER_BUTTON_0@ + dec((x + 20) as nat) + CARD_ENTER_BUTTON_1@ + dec((y + 370) as nat) + CARD_ENTER_BUTTON_2@ + c + CARD_ENTER_BUTTON_3@
}

/// The ENTER label of a card.
pub open spec fn card_enter(x: nat, y: nat) -> Seq<char> {
    CARD_ENTER_0@ + dec((x + 60) as nat) + CARD_ENTER_1@ + dec((y + 390) as nat) + CARD_ENTER_2@
}

/// The SHARE button of a card.
pub open spec fn card_share_button(x: nat, y: nat) -> Seq<char> {
    CARD_SHARE_BUTTON_0@ + dec((x + 110) as nat) + CARD_SHARE_BUTTON_1@ + dec((y + 370) as nat) + CARD_SHARE_BUTTON_2@
}

/// The SHARE label of a card.
pub open spec fn card_share(x: nat, y: nat) -> Seq<char> {
    CARD_SHARE_0@ + dec((x + 150) as nat) + CARD_SHARE_1@ + dec((y + 390) as nat) + CARD_SHARE_2@
}

/// The dashed card that offers to link a node.
pub open spec fn link_card(x: nat, y: nat) -> Seq<char> {
    LINK_CARD_0@ + dec(x) + LINK_CARD_1@ + dec(y) + LINK_CARD_2@
}

/// The LINK NODE label.
pub open spec fn link_label(x: nat, y: nat) -> Seq<char> {
    LINK_LABEL_0@ + dec((x + 160) as nat) + LINK_LABEL_1@ + dec((y + 200) as nat) + LINK_LABEL_2@
}

/// The COMMAND mode tab, in colour `c`.
pub open spec fn mode_command(c: Seq<char>) -> Seq<char> {
    HUB_MODE_COMMAND_0@ + c + HUB_MODE_COMMAND_1@
}

/// The DIRECTORY mode tab, in colour `c`.
pub open spec fn mode_directory(c: Seq<char>) -> Seq<char> {
    HUB_MODE_DIRECTORY_0@ + c + HUB_MODE_DIRECTORY_1@
}

/// The ACTIVITY mode tab, in colour `c`.
pub open spec fn mode_activity(c: Seq<char>) -> Seq<char> {
    HUB_MODE_ACTIVITY_0@ + c + HUB_MODE_ACTIVITY_1@
}

/// The sector title of a hub.
pub open spec fn hub_sector(name: Seq<char>) -> Seq<char> {
    HUB_SECTOR_0@ + name + HUB_SECTOR_1@
}

/// The prompt line of a hub.
pub open spec fn hub_prompt(name: Seq<char>) -> Seq<char> {
    HUB_PROMPT_0@ + name + HUB_PROMPT_1@
}

/// The bezel of a focused application, `h` high.
pub open spec fn focus_bezel(h: nat) -> Seq<char> {
    FOCUS_BEZEL_0@ + dec(h) + FOCUS_BEZEL_1@
}

pub const SVG_CLOSE: &'static str = "</svg>";

/// A card's colour: the sector's, or orange when it has none.
pub open spec fn card_color(sec: SectorView) -> Seq<char> {
    if sec.color.len() == 0 {
        "#ff9900"@
    } else {
        sec.color
    }
}

/// The upper half of a card: body, header, icon and name.
pub open spec fn card_top(x: nat, y: nat, c: Seq<char>, name: Seq<char>) -> Seq<char> {
    card_body(x, y) + card_header(x, y, c) + card_label(x, y) + card_icon_ring(x, y) + card_icon(x, y, c) + card_name(
        x,
        y,
        name,
    )
}

/// The lower half of a card: participant count and buttons.
pub open spec fn card_bottom(x: nat, y: nat, c: Seq<char>, count: nat) -> Seq<char> {
    card_rule(x, y) + card_users(x, y) + card_count(x, y, c, count) + card_enter_button(x, y, c) + card_enter(x, y)
        + card_share_button(x, y) + card_share(x, y)
}

/// The card of a sector at (`x`, `y`).
pub open spec fn sector_card(sec: SectorView, x: nat, y: nat) -> Seq<char> {
    let c = card_color(sec);
    card_top(x, y, c, uppercased(sec.name)) + card_bottom(x, y, c, sec.participants.len())
}

/// Cards run three to a row, 350 apart, rows 450 apart.
pub open spec fn card_x(k: nat) -> nat {
    100 + 350 * (k % 3)
}

pub open spec fn card_y(k: nat) -> nat {
    140 + 450 * (k / 3)
}

/// The cards of the first `n` sectors.
pub open spec fn sector_cards(ss: Seq<SectorView>, n: nat) -> Seq<char>
    decreases n,
{
    if n == 0 {
        Seq::empty()
    } else {
        sector_cards(ss, (n - 1) as nat) + sector_card(ss[n - 1], card_x((n - 1) as nat), card_y((n - 1) as nat))
    }
}

/// The global overview: title, telemetry, a card per sector, and the card
/// that offers to link a node after them.
pub open spec fn overview_svg(ss: Seq<SectorView>) -> Seq<char> {
    OVERVIEW_TITLE@ + OVERVIEW_TELEMETRY@ + OVERVIEW_STARDATE_LABEL@ + OVERVIEW_STARDATE@ + sector_cards(ss, ss.len())
        + link_card(card_x(ss.len()), card_y(ss.len())) + link_label(card_x(ss.len()), card_y(ss.len()))
}

/// The colours of the three mode tabs: the active mode's lit.
pub open spec fn mode_colors(m: CommandHubMode) -> (Seq<char>, Seq<char>, Seq<char>) {
    match m {
        CommandHubMode::Command => ("#ff9900"@, "#444"@, "#444"@),
        CommandHubMode::Directory => ("#444"@, "#9999cc"@, "#444"@),
        CommandHubMode::Activity => ("#444"@, "#444"@, "#cc99cc"@),
        CommandHubMode::Search | CommandHubMode::Ai => ("#444"@, "#444"@, "#444"@),
    }
}

/// The command hub of the first viewport.
pub open spec fn hub_svg(s: StateView) -> Seq<char> {
    let vp = s.viewports[0];
    let sec = s.sectors[vp.sector_index as int];
    let hub = sec.hubs[vp.hub_index as int];
    let (c1, c2, c3) = mode_colors(hub.mode);
    HUB_ELBOW@ + mode_command(c1) + HUB_COMMAND@ + mode_directory(c2) + HUB_DIRECTORY@ + mode_activity(c3)
        + HUB_ACTIVITY@ + HUB_CONTENT@ + hub_sector(uppercased(sec.name)) + HUB_PROMPT_BOX@ + hub_prompt(hub.prompt)
}

/// The focused application of the first viewport, with its bezel open or
/// closed.
pub open spec fn focus_svg(s: StateView) -> Seq<char> {
    let expanded = s.viewports[0].bezel_expanded;
    FOCUS_SURFACE@ + FOCUS_LABEL@ + focus_bezel(if expanded { 200 } else { 40 }) + FOCUS_BEZEL_EDGE@
        + FOCUS_BEZEL_TITLE@ + if expanded {
        FOCUS_ZOOM_BUTTON@ + FOCUS_ZOOM@ + FOCUS_SPLIT_BUTTON@ + FOCUS_SPLIT@
    } else {
        Seq::empty()
    }
}

/// The picture of the state's level.
pub open spec fn level_svg(s: StateView) -> Seq<char> {
    match s.current_level {
        HierarchyLevel::GlobalOverview => overview_svg(s.sectors),
        HierarchyLevel::CommandHub => hub_svg(s),
        HierarchyLevel::ApplicationFocus => focus_svg(s),
        HierarchyLevel::SplitView => SVG_SPLIT@,
        _ => SVG_STATE@,
    }
}

/// The whole picture of a state.
pub open spec fn state_svg(s: StateView) -> Seq<char> {
    SVG_OPEN@ + SVG_DEFS@ + SVG_BACKGROUND@ + level_svg(s) + SVG_CLOSE@
}

/// The picture can be drawn: the card positions fit a 32-bit coordinate,
/// and the level shown has its first viewport (and, for a hub, the hub).
pub open spec fn svg_renderable(s: StateView) -> bool {
    &&& s.sectors.len() <= 14_000_000
    &&& match s.current_level {
        HierarchyLevel::CommandHub => s.viewports.len() > 0 && s.viewports[0].sector_index < s.sectors.len()
            && s.viewports[0].hub_index < s.sectors[s.viewports[0].sector_index as int].hubs.len(),
        HierarchyLevel::ApplicationFocus => s.viewports.len() > 0,
        _ => true,
    }
}

proof fn lemma_card_step(k: nat)
    ensures
        card_x(k) + 350 > 1100 ==> card_x(k + 1) == 100 && card_y(k + 1) == card_y(k) + 450,
        card_x(k) + 350 <= 1100 ==> card_x(k + 1) == card_x(k) + 350 && card_y(k + 1) == card_y(k),
{
    assert((k + 1) % 3 == if k % 3 == 2 { 0 } else { k % 3 + 1 });
    assert((k + 1) / 3 == if k % 3 == 2 { k / 3 + 1 } else { k / 3 });
}

fn push_sector_card(out: &mut Vec<char>, sec: &Sector, x: u64, y: u64)
    requires
        x <= 0x7fff_ffff,
        y <= 0x7fff_ffff,
    ensures
        final(out)@ == old(out)@ + sector_card(sec@, x as nat, y as nat),
{
    let own = chars_of(sec.color.as_str());
    let c = if own.len() == 0 {
        proof {
            reveal_strlit("#ff9900");
        }
        chars_of("#ff9900")
    } else {
        own
    };
    assert(c@ == card_color(sec@));
    let name = to_uppercase(sec.name.as_str());
    push_card_top(out, x, y, &c, name.as_str());
    push_card_bottom(out, x, y, &c, sec.participants.len());
}

fn push_card_top(out: &mut Vec<char>, x: u64, y: u64, c: &Vec<char>, name: &str)
    requires
        x <= 0x7fff_ffff,
        y <= 0x7fff_ffff,
    ensures
        final(out)@ == old(out)@ + card_top(x as nat, y as nat, c@, name@),
{
    let ghost start = out@;
    push_card_body(out, x, y);
    push_card_header(out, x, y, c);
    push_card_label(out, x, y);
    push_card_icon_ring(out, x, y);
    push_card_icon(out, x, y, c);
    push_card_name(out, x, y, name);
    assert(out@ =~= start + card_top(x as nat, y as nat, c@, name@));
}

fn push_card_bottom(out: &mut Vec<char>, x: u64, y: u64, c: &Vec<char>, count: usize)
    requires
        x <= 0x7fff_ffff,
        y <= 0x7fff_ffff,
    ensures
        final(out)@ == old(out)@ + card_bottom(x as nat, y as nat, c@, count as nat),
{
    let ghost start = out@;
    push_card_rule(out, x, y);
    push_card_users(out, x, y);
    push_card_count(out, x, y, c, count);
    push_card_enter_button(out, x, y, c);
    push_card_enter(out, x, y);
    push_card_share_button(out, x, y);
    push_card_share(out, x, y);
    assert(out@ =~= start + card_bottom(x as nat, y as nat, c@, count as nat));
}

#[verifier::rlimit(30)]
fn push_overview(out: &mut Vec<char>, sectors: &Vec<Sector>)
    requires
        sectors@.len() <= 14_000_000,
    ensures
        final(out)@ == old(out)@ + overview_svg(sectors@.map_values(|s: Sector| s@)),
{
    let ghost ss = sectors@.map_values(|s: Sector| s@);
    let ghost start = out@;
    push_str(out, OVERVIEW_TITLE);
    push_str(out, OVERVIEW_TELEMETRY);
    push_str(out, OVERVIEW_STARDATE_LABEL);
    push_str(out, OVERVIEW_STARDATE);
    let ghost head = out@;
    let mut x: u64 = 100;
    let mut y: u64 = 140;
    let mut k: usize = 0;
    while k < sectors.len()
        invariant
            0 <= k <= sectors@.len(),
            sectors@.len() <= 14_000_000,
            ss == sectors@.map_values(|s: Sector| s@),
            x == card_x(k as nat),
            y == card_y(k as nat),
            out@ == head + sector_cards(ss, k as nat),
        decreases sectors@.len() - k,
    {
        assert(y <= 0x7fff_ffff) by (nonlinear_arith)
            requires
                y == 140 + 450 * (k / 3),
                k < 14_000_000,
        ;
        push_sector_card(out, &sectors[k], x, y);
        assert(ss[k as int] == sectors@[k as int]@);
        proof {
            lemma_card_step(k as nat);
        }
        x = x + 350;
        if x > 1100 {
            x = 100;
            y = y + 450;
        }
        k = k + 1;
    }
    assert(y <= 0x7fff_ffff) by (nonlinear_arith)
        requires
            y == 140 + 450 * (k / 3),
            k <= 14_000_000,
    ;
    push_link_card(out, x, y);
    push_link_label(out, x, y);
    assert(out@ =~= start + overview_svg(ss));
}

fn push_card_body(out: &mut Vec<char>, x: u64, y: u64)
    requires
        x <= 0x7fff_ffff,
        y <= 0x7fff_ffff,
    ensures
        final(out)@ == old(out)@ + card_body(x as nat, y as nat),
{
    push_str(out, CARD_BODY_0);
    push_u64(out, x);
    push_str(out, CARD_BODY_1);
    push_u64(out, y);
    push_str(out, CARD_BODY_2);
    assert(out@ =~= old(out)@ + card_body(x as nat, y as nat));
}

fn push_card_header(out: &mut Vec<char>, x: u64, y: u64, c: &Vec<char>)
    requires
        x <= 0x7fff_ffff,
        y <= 0x7fff_ffff,
    ensures
        final(out)@ == old(out)@ + card_header(x as nat, y as nat, c@),
{
    push_str(out, CARD_HEADER_0);
    push_u64(out, x);
    push_str(out, CARD_HEADER_1);
    push_u64(out, y + 20);
    push_str(out, CARD_HEADER_2);
    push_u64(out, x);
    push_str(out, CARD_HEADER_3);
    push_u64(out, y);
    push_str(out, CARD_HEADER_4);
    push_chars(out, c);
    push_str(out, CARD_HEADER_5);
    assert(out@ =~= old(out)@ + card_header(x as nat, y as nat, c@));
}

fn push_card_label(out: &mut Vec<char>, x: u64, y: u64)
    requires
        x <= 0x7fff_ffff,
        y <= 0x7fff_ffff,
    ensures
        final(out)@ == old(out)@ + card_label(x as nat, y as nat),
{
    push_str(out, CARD_LABEL_0);
    push_u64(out, x + 20);
    push_str(out, CARD_LABEL_1);
    push_u64(out, y + 35);
    push_str(out, CARD_LABEL_2);
    assert(out@ =~= old(out)@ + card_label(x as nat, y as nat));
}

fn push_card_icon_ring(out: &mut Vec<char>, x: u64, y: u64)
    requires
        x <= 0x7fff_ffff,
        y <= 0x7fff_ffff,
    ensures
        final(out)@ == old(out)@ + card_icon_ring(x as nat, y as nat),
{
    push_str(out, CARD_ICON_RING_0);
    push_u64(out, x + 50);
    push_str(out, CARD_ICON_RING_1);
    push_u64(out, y + 100);
    push_str(out, CARD_ICON_RING_2);
    assert(out@ =~= old(out)@ + card_icon_ring(x as nat, y as nat));
}

fn push_card_icon(out: &mut Vec<char>, x: u64, y: u64, c: &Vec<char>)
    requires
        x <= 0x7fff_ffff,
        y <= 0x7fff_ffff,
    ensures
        final(out)@ == old(out)@ + card_icon(x as nat, y as nat, c@),
{
    push_str(out, CARD_ICON_0);
    push_u64(out, x + 50);
    push_str(out, CARD_ICON_1);
    push_u64(out, y + 115);
    push_str(out, CARD_ICON_2);
    push_chars(out, c);
    push_str(out, CARD_ICON_3);
    assert(out@ =~= old(out)@ + card_icon(x as nat, y as nat, c@));
}

fn push_card_name(out: &mut Vec<char>, x: u64, y: u64, name: &str)
    requires
        x <= 0x7fff_ffff,
        y <= 0x7fff_ffff,
    ensures
        final(out)@ == old(out)@ + card_name(x as nat, y as nat, name@),
{
    push_str(out, CARD_NAME_0);
    push_u64(out, x + 20);
    push_str(out, CARD_NAME_1);
    push_u64(out, y + 170);
    push_str(out, CARD_NAME_2);
    push_str(out, name);
    push_str(out, CARD_NAME_3);
    assert(out@ =~= old(out)@ + card_name(x as nat, y as nat, name@));
}

fn push_card_rule(out: &mut Vec<char>, x: u64, y: u64)
    requires
        x <= 0x7fff_ffff,
        y <= 0x7fff_ffff,
    ensures
        final(out)@ == old(out)@ + card_rule(x as nat, y as nat),
{
    push_str(out, CARD_RULE_0);
    push_u64(out, x + 20);
    push_str(out, CARD_RULE_1);
    push_u64(out, y + 240);
    push_str(out, CARD_RULE_2);
    push_u64(out, x + 300);
    push_str(out, CARD_RULE_3);
    push_u64(out, y + 240);
    push_str(out, CARD_RULE_4);
    assert(out@ =~= old(out)@ + card_rule(x as nat, y as nat));
}

fn push_card_users(out: &mut Vec<char>, x: u64, y: u64)
    requires
        x <= 0x7fff_ffff,
        y <= 0x7fff_ffff,
    ensures
        final(out)@ == old(out)@ + card_users(x as nat, y as nat),
{
    push_str(out, CARD_USERS_0);
    push_u64(out, x + 20);
    push_str(out, CARD_USERS_1);
    push_u64(out, y + 260);
    push_str(out, CARD_USERS_2);
    assert(out@ =~= old(out)@ + card_users(x as nat, y as nat));
}

fn push_card_count(out: &mut Vec<char>, x: u64, y: u64, c: &Vec<char>, count: usize)
    requires
        x <= 0x7fff_ffff,
        y <= 0x7fff_ffff,
    ensures
        final(out)@ == old(out)@ + card_count(x as nat, y as nat, c@, count as nat),
{
    push_str(out, CARD_COUNT_0);
    push_u64(out, x + 20);
    push_str(out, CARD_COUNT_1);
    push_u64(out, y + 280);
    push_str(out, CARD_COUNT_2);
    push_chars(out, c);
    push_str(out, CARD_COUNT_3);
    push_u64(out, count as u64);
    push_str(out, CARD_COUNT_4);
    assert(out@ =~= old(out)@ + card_count(x as nat, y as nat, c@, count as nat));
}

fn push_card_enter_button(out: &mut Vec<char>, x: u64, y: u64, c: &Vec<char>)
    requires
        x <= 0x7fff_ffff,
        y <= 0x7fff_ffff,
    ensures
        final(out)@ == old(out)@ + card_enter_button(x as nat, y as nat, c@),
{
    push_str(out, CARD_ENTER_BUTTON_0);
    push_u64(out, x + 20);
    push_str(out, CARD_ENTER_BUTTON_1);
    push_u64(out, y + 370);
    push_str(out, CARD_ENTER_BUTTON_2);
    push_chars(out, c);
    push_str(out, CARD_ENTER_BUTTON_3);
    assert(out@ =~= old(out)@ + card_enter_button(x as nat, y as nat, c@));
}

fn push_card_enter(out: &mut Vec<char>, x: u64, y: u64)
    requires
        x <= 0x7fff_ffff,
        y <= 0x7fff_ffff,
    ensures
        final(out)@ == old(out)@ + card_enter(x as nat, y as nat),
{
    push_str(out, CARD_ENTER_0);
    push_u64(out, x + 60);
    push_str(out, CARD_ENTER_1);
    push_u64(out, y + 390);
    push_str(out, CARD_ENTER_2);
    assert(out@ =~= old(out)@ + card_enter(x as nat, y as nat));
}

fn push_card_share_button(out: &mut Vec<char>, x: u64, y: u64)
    requires
        x <= 0x7fff_ffff,
        y <= 0x7fff_ffff,
    ensures
        final(out)@ == old(out)@ + card_share_button(x as nat, y as nat),
{
    push_str(out, CARD_SHARE_BUTTON_0);
    push_u64(out, x + 110);
    push_str(out, CARD_SHARE_BUTTON_1);
    push_u64(out, y + 370);
    push_str(out, CARD_SHARE_BUTTON_2);
    assert(out@ =~= old(out)@ + card_share_button(x as nat, y as nat));
}

fn push_card_share(out: &mut Vec<char>, x: u64, y: u64)
    requires
        x <= 0x7fff_ffff,
        y <= 0x7fff_ffff,
    ensures
        final(out)@ == old(out)@ + card_share(x as nat, y as nat),
{
    push_str(out, CARD_SHARE_0);
    push_u64(out, x + 150);
    push_str(out, CARD_SHARE_1);
    push_u64(out, y + 390);
    push_str(out, CARD_SHARE_2);
    assert(out@ =~= old(out)@ + card_share(x as nat, y as nat));
}

fn push_link_card(out: &mut Vec<char>, x: u64, y: u64)
    requires
        x <= 0x7fff_ffff,
        y <= 0x7fff_ffff,
    ensures
        final(out)@ == old(out)@ + link_card(x as nat, y as nat),
{
    push_str(out, LINK_CARD_0);
    push_u64(out, x);
    push_str(out, LINK_CARD_1);
    push_u64(out, y);
    push_str(out, LINK_CARD_2);
    assert(out@ =~= old(out)@ + link_card(x as nat, y as nat));
}

fn push_link_label(out: &mut Vec<char>, x: u64, y: u64)
    requires
        x <= 0x7fff_ffff,
        y <= 0x7fff_ffff,
    ensures
        final(out)@ == old(out)@ + link_label(x as nat, y as nat),
{
    push_str(out, LINK_LABEL_0);
    push_u64(out, x + 160);
    push_str(out, LINK_LABEL_1);
    push_u64(out, y + 200);
    push_str(out, LINK_LABEL_2);
    assert(out@ =~= old(out)@ + link_label(x as nat, y as nat));
}

fn push_mode_command(out: &mut Vec<char>, c: &Vec<char>)
    requires
        true,
    ensures
        final(out)@ == old(out)@ + mode_command(c@),
{
    push_str(out, HUB_MODE_COMMAND_0);
    push_chars(out, c);
    push_str(out, HUB_MODE_COMMAND_1);
    assert(out@ =~= old(out)@ + mode_command(c@));
}

fn push_mode_directory(out: &mut Vec<char>, c: &Vec<char>)
    requires
        true,
    ensures
        final(out)@ == old(out)@ + mode_directory(c@),
{
    push_str(out, HUB_MODE_DIRECTORY_0);
    push_chars(out, c);
    push_str(out, HUB_MODE_DIRECTORY_1);
    assert(out@ =~= old(out)@ + mode_directory(c@));
}

fn push_mode_activity(out: &mut Vec<char>, c: &Vec<char>)
    requires
        true,
    ensures
        final(out)@ == old(out)@ + mode_activity(c@),
{
    push_str(out, HUB_MODE_ACTIVITY_0);
    push_chars(out, c);
    push_str(out, HUB_MODE_ACTIVITY_1);
    assert(out@ =~= old(out)@ + mode_activity(c@));
}

fn push_hub_sector(out: &mut Vec<char>, name: &str)
    requires
        true,
    ensures
        final(out)@ == old(out)@ + hub_sector(name@),
{
    push_str(out, HUB_SECTOR_0);
    push_str(out, name);
    push_str(out, HUB_SECTOR_1);
    assert(out@ =~= old(out)@ + hub_sector(name@));
}

fn push_hub_prompt(out: &mut Vec<char>, name: &str)
    requires
        true,
    ensures
        final(out)@ == old(out)@ + hub_prompt(name@),
{
    push_str(out, HUB_PROMPT_0);
    push_str(out, name);
    push_str(out, HUB_PROMPT_1);
    assert(out@ =~= old(out)@ + hub_prompt(name@));
}

fn push_focus_bezel(out: &mut Vec<char>, h: u64)
    requires
        h <= 0x7fff_ffff,
    ensures
        final(out)@ == old(out)@ + focus_bezel(h as nat),
{
    push_str(out, FOCUS_BEZEL_0);
    push_u64(out, h);
    push_str(out, FOCUS_BEZEL_1);
    assert(out@ =~= old(out)@ + focus_bezel(h as nat));
}

/// Draws the state as SVG.
pub fn render_state_to_svg(state: &TosState) -> (svg: String)
    requires
        svg_renderable(state@),
    ensures
        svg@ == state_svg(state@),
{
    let mut out: Vec<char> = Vec::new();
    push_str(&mut out, SVG_OPEN);
    push_str(&mut out, SVG_DEFS);
    push_str(&mut out, SVG_BACKGROUND);
    let ghost head = out@;
    match state.current_level {
        HierarchyLevel::GlobalOverview => {
            render_global_overview_svg(&mut out, state);
        },
        HierarchyLevel::CommandHub => {
            render_command_hub_svg(&mut out, state);
        },
        HierarchyLevel::ApplicationFocus => {
            render_app_focus_svg(&mut out, state);
        },
        HierarchyLevel::SplitView => {
            push_str(&mut out, SVG_SPLIT);
        },
        _ => {
            push_str(&mut out, SVG_STATE);
        },
    }
    assert(out@ == head + level_svg(state@));
    push_str(&mut out, SVG_CLOSE);
    assert(out@ =~= state_svg(state@));
    string_of(&out)
}

/// Draws the global overview.
fn render_global_overview_svg(out: &mut Vec<char>, state: &TosState)
    requires
        state@.sectors.len() <= 14_000_000,
    ensures
        final(out)@ == old(out)@ + overview_svg(state@.sectors),
{
    push_overview(out, &state.sectors);
}

/// Draws the command hub of the first viewport.
fn render_command_hub_svg(out: &mut Vec<char>, state: &TosState)
    requires
        state@.viewports.len() > 0,
        state@.viewports[0].sector_index < state@.sectors.len(),
        state@.viewports[0].hub_index < state@.sectors[state@.viewports[0].sector_index as int].hubs.len(),
    ensures
        final(out)@ == old(out)@ + hub_svg(state@),
{
    let vp = state.viewports[0];
    let sector = &state.sectors[vp.sector_index];
    let hub = &sector.hubs[vp.hub_index];
    assert(sector.hubs@[vp.hub_index as int]@ == state@.sectors[vp.sector_index as int].hubs[vp.hub_index as int]);
    let (c1, c2, c3): (&str, &str, &str) = match hub.mode {
        CommandHubMode::Command => ("#ff9900", "#444", "#444"),
        CommandHubMode::Directory => ("#444", "#9999cc", "#444"),
        CommandHubMode::Activity => ("#444", "#444", "#cc99cc"),
        CommandHubMode::Search | CommandHubMode::Ai => ("#444", "#444", "#444"),
    };
    proof {
        reveal_strlit("#ff9900");
        reveal_strlit("#444");
        reveal_strlit("#9999cc");
        reveal_strlit("#cc99cc");
    }
    assert((c1@, c2@, c3@) == mode_colors(hub.mode));
    let name = to_uppercase(sector.name.as_str());
    let ghost start = out@;
    push_str(out, HUB_ELBOW);
    push_mode_command(out, &chars_of(c1));
    push_str(out, HUB_COMMAND);
    push_mode_directory(out, &chars_of(c2));
    push_str(out, HUB_DIRECTORY);
    push_mode_activity(out, &chars_of(c3));
    push_str(out, HUB_ACTIVITY);
    push_str(out, HUB_CONTENT);
    push_hub_sector(out, name.as_str());
    push_str(out, HUB_PROMPT_BOX);
    push_hub_prompt(out, hub.prompt.as_str());
    assert(out@ =~= start + hub_svg(state@));
}

/// Draws the focused application of the first viewport.
fn render_app_focus_svg(out: &mut Vec<char>, state: &TosState)
    requires
        state@.viewports.len() > 0,
    ensures
        final(out)@ == old(out)@ + focus_svg(state@),
{
    let vp = state.viewports[0];
    let ghost start = out@;
    push_str(out, FOCUS_SURFACE);
    push_str(out, FOCUS_LABEL);
    let h: u64 = if vp.bezel_expanded { 200 } else { 40 };
    push_focus_bezel(out, h);
    push_str(out, FOCUS_BEZEL_EDGE);
    push_str(out, FOCUS_BEZEL_TITLE);
    if vp.bezel_expanded {
        push_str(out, FOCUS_ZOOM_BUTTON);
        push_str(out, FOCUS_ZOOM);
        push_str(out, FOCUS_SPLIT_BUTTON);
        push_str(out, FOCUS_SPLIT);
    }
    assert(out@ =~= start + focus_svg(state@));
}

} // verus!
