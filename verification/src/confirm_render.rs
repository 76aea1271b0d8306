//! The tactile confirmation modal shown for a dangerous command: the risk,
//! the command, the countdown, and the interaction the confirmation method
//! asks for (slider, buttons in a shuffled order, or a hold button).
//! Progress is shown in percent, from the session's thousandths.
use vstd::prelude::*;
use crate::ids::{id_to_string, uuid_text};
use crate::render::{escape_html, escaped_html};
use crate::security::{ConfirmationSession, MethodView, RiskLevel, SessionView, TactileMethod};
use crate::text::{chars_of, dec, eq_str, lowercased, milli_text, push_chars, push_milli, push_str, push_u64, string_of,
    to_lowercase, to_uppercase, uppercased};

verus! {

pub const MODAL_0: &'static str = "<div class=\"confirmation-overlay\">\n            <div class=\"confirmation-modal\">\n                <div class=\"confirmation-header\">\n                    <div class=\"header-left\">\n                        <div class=\"risk-indicator ";
pub const MODAL_1: &'static str = "\">";
pub const MODAL_2: &'static str = " RISK</div>\n                        <div class=\"confirmation-title\">DANGEROUS COMMAND DETECTED</div>\n                    </div>\n                    <div class=\"timer-display\">";
pub const MODAL_3: &'static str = "s</div>\n                </div>\n                \n                <div class=\"command-container\">\n                    <div class=\"command-label\">PENDING COMMAND:</div>\n                    <div class=\"command-text\"><code>";
pub const MODAL_4: &'static str = "</code></div>\n                </div>\n\n                <div class=\"warning-box\">\n                    Tactile confirmation is required. Unconfirmed actions will be automatically aborted when the timer expires.\n                </div>\n\n                <div class=\"tactile-interaction-area\">\n                    ";
pub const MODAL_5: &'static str = "\n                </div>\n\n                <div class=\"modal-actions\">\n                    <button class=\"abort-btn\" onclick=\"window.ipc.postMessage('cancel_confirmation:";
pub const MODAL_6: &'static str = "')\">ABORT ACTION</button>\n                </div>\n            </div>\n        </div>";
pub const SLIDER_0: &'static str = "<div class=\"slider-container\">\n            <div class=\"slider-track\">\n                <div class=\"slider-progress\" style=\"width: ";
pub const SLIDER_1: &'static str = "%\"></div>\n                <input type=\"range\" class=\"confirm-slider-input\" min=\"0\" max=\"100\" value=\"";
pub const SLIDER_2: &'static str = "\" \n                    style=\"position:absolute; top:0; left:0; width:100%; height:100%; opacity:0; cursor:pointer;\"\n                    oninput=\"window.ipc.postMessage('update_confirmation_progress:";
pub const SLIDER_3: &'static str = ":' + (this.value/100))\"\n                    onchange=\"if(this.value < 100) { this.value = 0; window.ipc.postMessage('update_confirmation_progress:";
pub const SLIDER_4: &'static str = ":0') } else { window.ipc.postMessage('confirm_command:";
pub const SLIDER_5: &'static str = "') }\">\n                <div class=\"slider-thumb\" style=\"left: calc(";
pub const SLIDER_6: &'static str = "% - ";
pub const SLIDER_7: &'static str = "px)\">\n                    ";
pub const SLIDER_8: &'static str = "\n                </div>\n                <div class=\"slider-label\">SLIDE TO CONFIRM</div>\n            </div>\n        </div>";
pub const BUTTON_0: &'static str = "<div class=\"confirm-btn ";
pub const BUTTON_1: &'static str = " ";
pub const BUTTON_2: &'static str = "\" onclick=\"window.ipc.postMessage('update_confirmation_progress:";
pub const BUTTON_3: &'static str = ":";
pub const BUTTON_4: &'static str = "')\">\n                    <span class=\"btn-label\">";
pub const BUTTON_5: &'static str = "</span>\n                    <span class=\"btn-key\">STEP ";
pub const BUTTON_6: &'static str = "</span>\n                </div>";
pub const GRID_0: &'static str = "<div class=\"multibutton-grid\">\n                ";
pub const GRID_1: &'static str = "\n            </div>";
pub const HOLD_0: &'static str = "<div class=\"slider-container hold-container\">\n            <div class=\"slider-track hold-track ";
pub const HOLD_1: &'static str = "\">\n                <div class=\"slider-progress charging-bar\" style=\"width: ";
pub const HOLD_2: &'static str = "%\"></div>\n                <button class=\"confirm-btn active\" style=\"width:100%; height:100%; border-radius:30px; position:relative; z-index:2; background:transparent;\"\n                    onmousedown=\"window.holdInterval = setInterval(() => window.ipc.postMessage('increment_hold:";
pub const HOLD_3: &'static str = "'), 100)\"\n                    onmouseup=\"clearInterval(window.holdInterval); window.ipc.postMessage('reset_hold:";
pub const HOLD_4: &'static str = "')\"\n                    onmouseleave=\"clearInterval(window.holdInterval); window.ipc.postMessage('reset_hold:";
pub const HOLD_5: &'static str = "')\">\n                    HOLD ";
pub const HOLD_6: &'static str = " (";
pub const HOLD_7: &'static str = "s)\n                </button>\n            </div>\n            <div class=\"slider-label\" style=\"margin-top:10px; position:static; transform:none;\">TACTILE CHARGE: ";
pub const HOLD_8: &'static str = "%</div>\n        </div>";
/// The confirmation modal around its interaction.
pub open spec fn modal_html(risk_class: Seq<char>, risk_text: Seq<char>, timeout: nat, command: Seq<char>, interaction: Seq<char>, id: u128) -> Seq<char> {
    MODAL_0@
        + risk_class
        + MODAL_1@
        + risk_text
        + MODAL_2@
        + dec(timeout)
        + MODAL_3@
        + command
        + MODAL_4@
        + interaction
        + MODAL_5@
        + uuid_text(id)
        + MODAL_6@
}

/// The slider, at `pct` thousandths of a percent.
pub open spec fn slider_html(id: u128, pct: nat, thumb: Seq<char>) -> Seq<char> {
    SLIDER_0@
        + milli_text(pct)
        + SLIDER_1@
        + milli_text(pct)
        + SLIDER_2@
        + uuid_text(id)
        + SLIDER_3@
        + uuid_text(id)
        + SLIDER_4@
        + uuid_text(id)
        + SLIDER_5@
        + milli_text(pct)
        + SLIDER_6@
        + milli_text(pct)
        + SLIDER_7@
        + thumb
        + SLIDER_8@
}

/// One button of a multi-button confirmation.
pub open spec fn button_html(active: Seq<char>, danger: Seq<char>, id: u128, next: nat, label: Seq<char>) -> Seq<char> {
    BUTTON_0@
        + active
        + BUTTON_1@
        + danger
        + BUTTON_2@
        + uuid_text(id)
        + BUTTON_3@
        + dec(next)
        + BUTTON_4@
        + label
        + BUTTON_5@
        + dec(next)
        + BUTTON_6@
}

/// The grid of buttons.
pub open spec fn grid_html(buttons: Seq<char>) -> Seq<char> {
    GRID_0@
        + buttons
        + GRID_1@
}

/// The hold button, at `pct` thousandths of a percent.
pub open spec fn hold_html(glow: Seq<char>, pct: nat, id: u128, target: Seq<char>, duration: nat, rounded: nat) -> Seq<char> {
    HOLD_0@
        + glow
        + HOLD_1@
        + milli_text(pct)
        + HOLD_2@
        + uuid_text(id)
        + HOLD_3@
        + uuid_text(id)
        + HOLD_4@
        + uuid_text(id)
        + HOLD_5@
        + target
        + HOLD_6@
        + dec(duration)
        + HOLD_7@
        + dec(rounded)
        + HOLD_8@
}

pub const FALLBACK_0: &'static str = "<div class='fallback-interaction'>Confirmation via ";
pub const FALLBACK_1: &'static str = " required. Interaction logic pending.</div>";

/// `{:?}` of a text, named: the text quoted, with the characters that
/// `str::escape_debug` escapes escaped.
pub uninterp spec fn str_debug(s: Seq<char>) -> Seq<char>;

/// Formats a text with `{:?}`.
#[verifier::external_body]
fn debug_str(s: &str) -> (r: String)
    ensures
        r@ == str_debug(s@),
{
    format!("{:?}", s)
}

/// A fraction given in thousandths as a float is shown by `{:?}`: its
/// decimal digits without trailing zeros, and `.0` for a whole number.
pub open spec fn fraction_debug(m: nat) -> Seq<char> {
    if m % 1000 == 0 {
        milli_text(m) + ".0"@
    } else {
        milli_text(m)
    }
}

/// `{:?}` of a voice confirmation, its confidence written as the fraction
/// it stands for.
pub open spec fn voice_debug(phrase: Seq<char>, confidence_milli: u32) -> Seq<char> {
    "Voice { phrase: "@ + str_debug(phrase) + ", confidence_threshold: "@ + fraction_debug(confidence_milli as nat)
        + " }"@
}

/// `{:?}` of a confirmation method, named: the text `derive(Debug)` writes.
pub uninterp spec fn method_debug(m: MethodView) -> Seq<char>;

/// Formats a confirmation method with `{:?}`.
#[verifier::external_body]
fn method_debug_text(m: &TactileMethod) -> (s: String)
    ensures
        s@ == method_debug(m@),
{
    format!("{:?}", m)
}

/// The style class of a risk level.
pub open spec fn risk_class(r: RiskLevel) -> Seq<char> {
    match r {
        RiskLevel::Low => "risk-low"@,
        RiskLevel::Medium => "risk-medium"@,
        RiskLevel::High => "risk-high"@,
        RiskLevel::Critical => "risk-critical"@,
    }
}

/// The name of a risk level in capitals.
pub open spec fn risk_caps(r: RiskLevel) -> Seq<char> {
    match r {
        RiskLevel::Low => "LOW"@,
        RiskLevel::Medium => "MEDIUM"@,
        RiskLevel::High => "HIGH"@,
        RiskLevel::Critical => "CRITICAL"@,
    }
}

fn risk_texts(r: RiskLevel) -> (t: (&'static str, &'static str))
    ensures
        t.0@ == risk_class(r),
        t.1@ == risk_caps(r),
{
    match r {
        RiskLevel::Low => ("risk-low", "LOW"),
        RiskLevel::Medium => ("risk-medium", "MEDIUM"),
        RiskLevel::High => ("risk-high", "HIGH"),
        RiskLevel::Critical => ("risk-critical", "CRITICAL"),
    }
}

/// Progress in thousandths of a percent, held to at most 100%.
pub open spec fn progress_pct(progress_milli: u32) -> nat {
    if progress_milli * 100 > 100_000 {
        100_000
    } else {
        (progress_milli * 100) as nat
    }
}

/// A percentage in thousandths rounded to a whole percent, ties to even.
pub open spec fn rounded_pct(t: nat) -> nat {
    let q = t / 1000;
    let r = t % 1000;
    if r > 500 || (r == 500 && q % 2 == 1) {
        q + 1
    } else {
        q
    }
}

/// The slider of a session.
pub open spec fn slider(s: SessionView) -> Seq<char> {
    let pct = progress_pct(s.progress_milli);
    slider_html(s.id, pct, if pct >= 95_000 { "RELEASE"@ } else { "SLIDE"@ })
}

/// The hold button of a session.
pub open spec fn hold(s: SessionView, target: Seq<char>, duration_ms: u64) -> Seq<char> {
    let pct = progress_pct(s.progress_milli);
    hold_html(
        if s.progress_milli > 100 { "charging-glow"@ } else { ""@ },
        pct,
        s.id,
        uppercased(target),
        (duration_ms / 1000) as nat,
        rounded_pct(pct),
    )
}

/// `s` with the elements at `i` and `j` exchanged.
pub open spec fn swap_at(s: Seq<int>, i: int, j: int) -> Seq<int> {
    s.update(i, s[j]).update(j, s[i])
}

/// From position `i` down to 1, each element is exchanged with the one at
/// `(seed + i) % (i + 1)`.
pub open spec fn shuffle_down(s: Seq<int>, seed: nat, i: nat) -> Seq<int>
    decreases i,
{
    if i == 0 {
        s
    } else {
        shuffle_down(swap_at(s, i as int, ((seed + i) % (i + 1)) as int), seed, (i - 1) as nat)
    }
}

/// The order in which `n` buttons are shown for a seed.
pub open spec fn button_order(n: nat, seed: nat) -> Seq<int> {
    let s = Seq::new(n, |i: int| i);
    if n == 0 {
        s
    } else {
        shuffle_down(s, seed, (n - 1) as nat)
    }
}

/// The seed of a session's shuffle: the first byte of its identifier.
pub open spec fn shuffle_seed(id: u128) -> nat {
    (id >> 120u128) as nat
}

/// Whether a button's label names a dangerous key.
pub open spec fn is_danger_label(b: Seq<char>) -> bool {
    lowercased(b) == "delete"@ || lowercased(b) == "execute"@ || lowercased(b) == "ctrl"@
}

/// The button at position `i` in its original order.
pub open spec fn button(buttons: Seq<Seq<char>>, i: int, id: u128, pressed: nat) -> Seq<char> {
    button_html(
        if i < pressed { "active"@ } else { ""@ },
        if is_danger_label(buttons[i]) { "danger"@ } else { ""@ },
        id,
        (i + 1) as nat,
        uppercased(buttons[i]),
    )
}

/// The first `k` buttons in the shown order.
pub open spec fn buttons_shown(buttons: Seq<Seq<char>>, order: Seq<int>, k: nat, id: u128, pressed: nat) -> Seq<char>
    decreases k,
{
    if k == 0 {
        Seq::empty()
    } else {
        buttons_shown(buttons, order, (k - 1) as nat, id, pressed) + button(buttons, order[k - 1], id, pressed)
    }
}

/// The buttons of a multi-button session, shuffled by its identifier; as
/// many are lit as whole buttons of progress were made.
pub open spec fn multibutton(s: SessionView) -> Seq<char> {
    match s.required_method {
        MethodView::MultiButton { buttons, .. } => grid_html(
            buttons_shown(
                buttons,
                button_order(buttons.len(), shuffle_seed(s.id)),
                buttons.len(),
                s.id,
                (s.progress_milli / 1000) as nat,
            ),
        ),
        _ => Seq::empty(),
    }
}

/// The interaction of a session's method.
pub open spec fn interaction(s: SessionView) -> Seq<char> {
    match s.required_method {
        MethodView::Slider { .. } => slider(s),
        MethodView::MultiButton { .. } => multibutton(s),
        MethodView::Hold { target, duration_ms } => hold(s, target, duration_ms),
        MethodView::Voice { phrase, confidence_milli } => FALLBACK_0@ + voice_debug(phrase, confidence_milli)
            + FALLBACK_1@,
        _ => FALLBACK_0@ + method_debug(s.required_method) + FALLBACK_1@,
    }
}

/// The confirmation modal of a session, with `timeout_secs` left.
pub open spec fn confirmation_modal(s: SessionView, timeout_secs: u64) -> Seq<char> {
    modal_html(
        risk_class(s.risk_level),
        risk_caps(s.risk_level),
        timeout_secs as nat,
        escaped_html(s.command),
        interaction(s),
        s.id,
    )
}

/// A session the modal can be drawn for: no more buttons than positions.
pub open spec fn modal_drawable(s: SessionView) -> bool {
    s.required_method matches MethodView::MultiButton { buttons, .. } ==> buttons.len() < usize::MAX - 256
}

fn push_modal_html(out: &mut Vec<char>, risk_class: &str, risk_text: &str, timeout: u64, command: &str, interaction: &Vec<char>, id: u128)
    ensures
        final(out)@ == old(out)@ + modal_html(risk_class@, risk_text@, timeout as nat, command@, interaction@, id),
{
    let ghost start = out@;
    let idt = id_to_string(id);
    push_str(out, MODAL_0);
    push_str(out, risk_class);
    push_str(out, MODAL_1);
    push_str(out, risk_text);
    push_str(out, MODAL_2);
    push_u64(out, timeout);
    push_str(out, MODAL_3);
    push_str(out, command);
    push_str(out, MODAL_4);
    push_chars(out, interaction);
    push_str(out, MODAL_5);
    push_str(out, idt.as_str());
    push_str(out, MODAL_6);
    assert(out@ =~= start + modal_html(risk_class@, risk_text@, timeout as nat, command@, interaction@, id));
}

fn push_slider_html(out: &mut Vec<char>, id: u128, pct: u32, thumb: &str)
    ensures
        final(out)@ == old(out)@ + slider_html(id, pct as nat, thumb@),
{
    let ghost start = out@;
    let idt = id_to_string(id);
    push_str(out, SLIDER_0);
    push_milli(out, pct);
    push_str(out, SLIDER_1);
    push_milli(out, pct);
    push_str(out, SLIDER_2);
    push_str(out, idt.as_str());
    push_str(out, SLIDER_3);
    push_str(out, idt.as_str());
    push_str(out, SLIDER_4);
    push_str(out, idt.as_str());
    push_str(out, SLIDER_5);
    push_milli(out, pct);
    push_str(out, SLIDER_6);
    push_milli(out, pct);
    push_str(out, SLIDER_7);
    push_str(out, thumb);
    push_str(out, SLIDER_8);
    assert(out@ =~= start + slider_html(id, pct as nat, thumb@));
}

fn push_button_html(out: &mut Vec<char>, active: &str, danger: &str, id: u128, next: u64, label: &str)
    ensures
        final(out)@ == old(out)@ + button_html(active@, danger@, id, next as nat, label@),
{
    let ghost start = out@;
    let idt = id_to_string(id);
    push_str(out, BUTTON_0);
    push_str(out, active);
    push_str(out, BUTTON_1);
    push_str(out, danger);
    push_str(out, BUTTON_2);
    push_str(out, idt.as_str());
    push_str(out, BUTTON_3);
    push_u64(out, next);
    push_str(out, BUTTON_4);
    push_str(out, label);
    push_str(out, BUTTON_5);
    push_u64(out, next);
    push_str(out, BUTTON_6);
    assert(out@ =~= start + button_html(active@, danger@, id, next as nat, label@));
}

fn push_grid_html(out: &mut Vec<char>, buttons: &Vec<char>)
    ensures
        final(out)@ == old(out)@ + grid_html(buttons@),
{
    let ghost start = out@;
    push_str(out, GRID_0);
    push_chars(out, buttons);
    push_str(out, GRID_1);
    assert(out@ =~= start + grid_html(buttons@));
}

fn push_hold_html(out: &mut Vec<char>, glow: &str, pct: u32, id: u128, target: &str, duration: u64, rounded: u64)
    ensures
        final(out)@ == old(out)@ + hold_html(glow@, pct as nat, id, target@, duration as nat, rounded as nat),
{
    let ghost start = out@;
    let idt = id_to_string(id);
    push_str(out, HOLD_0);
    push_str(out, glow);
    push_str(out, HOLD_1);
    push_milli(out, pct);
    push_str(out, HOLD_2);
    push_str(out, idt.as_str());
    push_str(out, HOLD_3);
    push_str(out, idt.as_str());
    push_str(out, HOLD_4);
    push_str(out, idt.as_str());
    push_str(out, HOLD_5);
    push_str(out, target);
    push_str(out, HOLD_6);
    push_u64(out, duration);
    push_str(out, HOLD_7);
    push_u64(out, rounded);
    push_str(out, HOLD_8);
    assert(out@ =~= start + hold_html(glow@, pct as nat, id, target@, duration as nat, rounded as nat));
}

fn render_slider(session: &ConfirmationSession) -> (html: Vec<char>)
    ensures
        html@ == slider(session@),
{
    let pct: u32 = if session.progress_milli > 1000 {
        100_000
    } else {
        session.progress_milli * 100
    };
    let thumb = if pct >= 95_000 {
        "RELEASE"
    } else {
        "SLIDE"
    };
    proof {
        reveal_strlit("RELEASE");
        reveal_strlit("SLIDE");
    }
    let mut out: Vec<char> = Vec::new();
    push_slider_html(&mut out, session.id, pct, thumb);
    out
}

fn render_hold(session: &ConfirmationSession, target: &str, duration_ms: u64) -> (html: Vec<char>)
    ensures
        html@ == hold(session@, target@, duration_ms),
{
    let pct: u32 = if session.progress_milli > 1000 {
        100_000
    } else {
        session.progress_milli * 100
    };
    let glow = if session.progress_milli > 100 {
        "charging-glow"
    } else {
        ""
    };
    proof {
        reveal_strlit("charging-glow");
        reveal_strlit("");
    }
    let q = pct / 1000;
    let r = pct % 1000;
    let rounded = if r > 500 || (r == 500 && q % 2 == 1) {
        q + 1
    } else {
        q
    };
    let caps = to_uppercase(target);
    let mut out: Vec<char> = Vec::new();
    push_hold_html(&mut out, glow, pct, session.id, caps.as_str(), duration_ms / 1000, rounded as u64);
    out
}

/// The order in which `n` buttons are shown for a seed.
fn shuffled_order(n: usize, seed: usize) -> (v: Vec<usize>)
    requires
        n < usize::MAX - 256,
        seed < 256,
    ensures
        v@.len() == n,
        forall|k: int| 0 <= k < n ==> #[trigger] v@[k] as int == button_order(n as nat, seed as nat)[k],
        forall|k: int| 0 <= k < n ==> #[trigger] v@[k] < n,
{
    let mut v: Vec<usize> = Vec::new();
    let mut i: usize = 0;
    while i < n
        invariant
            0 <= i <= n,
            v@.len() == i,
            forall|k: int| 0 <= k < i ==> #[trigger] v@[k] == k,
        decreases n - i,
    {
        v.push(i);
        i = i + 1;
    }
    let ghost init = Seq::new(n as nat, |k: int| k);
    assert(v@.map_values(|x: usize| x as int) =~= init);
    if n == 0 {
        return v;
    }
    let mut i: usize = n - 1;
    while i > 0
        invariant
            0 <= i < n,
            n < usize::MAX - 256,
            seed < 256,
            v@.len() == n,
            forall|k: int| 0 <= k < n ==> #[trigger] v@[k] < n,
            shuffle_down(v@.map_values(|x: usize| x as int), seed as nat, i as nat) == button_order(n as nat, seed as nat),
        decreases i,
    {
        let j = (seed + i) % (i + 1);
        let a = v[i];
        let b = v[j];
        let ghost before = v@.map_values(|x: usize| x as int);
        v.set(i, b);
        v.set(j, a);
        assert(v@.map_values(|x: usize| x as int) =~= swap_at(before, i as int, j as int));
        i = i - 1;
    }
    v
}

fn render_multibutton(session: &ConfirmationSession) -> (html: Vec<char>)
    requires
        modal_drawable(session@),
    ensures
        html@ == multibutton(session@),
{
    match &session.required_method {
        TactileMethod::MultiButton { buttons, .. } => {
            let ghost bv = buttons@.map_values(|b: String| b@);
            let n = buttons.len();
            let id: u128 = session.id;
            let top: u128 = id >> 120u128;
            assert(top < 256) by (bit_vector)
                requires
                    top == id >> 120u128,
            ;
            let seed = top as usize;
            let order = shuffled_order(n, seed);
            let ghost ord = button_order(n as nat, seed as nat);
            let pressed = (session.progress_milli / 1000) as usize;
            let mut inner: Vec<char> = Vec::new();
            let mut k: usize = 0;
            while k < n
                invariant
                    0 <= k <= n,
                    n == buttons@.len(),
                    n < usize::MAX - 256,
                    bv == buttons@.map_values(|b: String| b@),
                    order@.len() == n,
                    forall|t: int| 0 <= t < n ==> #[trigger] order@[t] as int == ord[t],
                    forall|t: int| 0 <= t < n ==> #[trigger] order@[t] < n,
                    pressed == session.progress_milli / 1000,
                    inner@ == buttons_shown(bv, ord, k as nat, session.id, pressed as nat),
                decreases n - k,
            {
                let i = order[k];
                assert(order@[k as int] < n);
                let label = &buttons[i];
                assert(label@ == bv[i as int]);
                let lower = to_lowercase(label.as_str());
                let lc = chars_of(lower.as_str());
                let danger = if eq_str(&lc, "delete") || eq_str(&lc, "execute") || eq_str(&lc, "ctrl") {
                    "danger"
                } else {
                    ""
                };
                let active = if i < pressed {
                    "active"
                } else {
                    ""
                };
                proof {
                    reveal_strlit("danger");
                    reveal_strlit("active");
                    reveal_strlit("");
                }
                let caps = to_uppercase(label.as_str());
                let ghost before = inner@;
                push_button_html(&mut inner, active, danger, session.id, (i + 1) as u64, caps.as_str());
                assert(inner@ == before + button(bv, ord[k as int], session.id, pressed as nat));
                k = k + 1;
            }
            let mut out: Vec<char> = Vec::new();
            push_grid_html(&mut out, &inner);
            out
        },
        _ => Vec::new(),
    }
}

fn render_interaction(session: &ConfirmationSession) -> (html: Vec<char>)
    requires
        modal_drawable(session@),
    ensures
        html@ == interaction(session@),
{
    match &session.required_method {
        TactileMethod::Slider { .. } => render_slider(session),
        TactileMethod::MultiButton { .. } => render_multibutton(session),
        TactileMethod::Hold { target, duration_ms } => render_hold(session, target.as_str(), *duration_ms),
        TactileMethod::Voice { phrase, confidence_milli } => {
            let mut out: Vec<char> = Vec::new();
            push_str(&mut out, FALLBACK_0);
            push_str(&mut out, "Voice { phrase: ");
            let d = debug_str(phrase.as_str());
            push_str(&mut out, d.as_str());
            push_str(&mut out, ", confidence_threshold: ");
            push_milli(&mut out, *confidence_milli);
            if *confidence_milli % 1000 == 0 {
                push_str(&mut out, ".0");
            }
            push_str(&mut out, " }");
            push_str(&mut out, FALLBACK_1);
            assert(out@ =~= interaction(session@));
            out
        },
        _ => {
            let mut out: Vec<char> = Vec::new();
            push_str(&mut out, FALLBACK_0);
            let d = method_debug_text(&session.required_method);
            push_str(&mut out, d.as_str());
            push_str(&mut out, FALLBACK_1);
            out
        },
    }
}

/// The tactile confirmation modal of a session with `timeout_secs` left.
pub fn render_confirmation_modal(session: &ConfirmationSession, timeout_secs: u64) -> (html: String)
    requires
        modal_drawable(session@),
    ensures
        html@ == confirmation_modal(session@, timeout_secs),
{
    let (class, caps) = risk_texts(session.risk_level);
    let interaction = render_interaction(session);
    let command = escape_html(session.command.as_str());
    let mut out: Vec<char> = Vec::new();
    push_modal_html(&mut out, class, caps, timeout_secs, command.as_str(), &interaction, session.id);
    string_of(&out)
}

} // verus!
