//! The drawer composer: from the host-owned open flag, the current
//! window size and the animation driver's state it computes one
//! render's worth of drawer geometry — the animated scrim colour and
//! padding, whether the scrim reacts to clicks, and the panel's
//! vertical offset. The host stacks three full-bleed layers from these
//! numbers: background content below, the scrim in the middle, the
//! offset panel on top.

use vstd::prelude::*;

use crate::anim::AnimState;
use crate::anim::DrawerValue;
use crate::anim::lemma_anim_converges;
use crate::anim::lemma_settled_ticked_n;
use crate::anim::lemma_step_progress;
use crate::anim::lemma_step_within;
use crate::anim::lemma_ticked_n_add;
use crate::geometry::Size;

verus! {

/// Panel height when the drawer is fully open, in logical pixels.
pub const MAX_HEIGHT: u32 = 350;

/// Fixed padding around the open panel, in logical pixels.
pub const PADDING: u32 = 8;

/// Scrim opacity when the drawer is fully open, in thousandths: a
/// translucent black at three quarters.
pub const SCRIM_ALPHA: u32 = 750;

/// An rgba colour; every channel in thousandths, so 1000 is full.
#[derive(Clone, Copy, Debug, PartialEq, Eq, Structural)]
pub struct Color {
    pub red: u32,
    pub green: u32,
    pub blue: u32,
    pub alpha: u32,
}

/// The scrim layer of one rendered frame: an invisible full-bleed
/// button, padded at its top so it only covers the area above the
/// panel, painted with the animated scrim colour.
pub struct ScrimLayer<M> {
    /// The animated dimming colour, black at the animated alpha.
    pub color: Color,
    /// Top padding of the click-catcher: the animated panel height
    /// plus the fixed padding.
    pub top_padding: u32,
    /// The message a press emits; `None` renders the scrim inert.
    pub on_press: Option<M>,
}

/// The panel layer of one rendered frame: the drawer card, shifted to
/// its animated vertical position by the offset decorator.
pub struct PanelLayer {
    /// The animated backdrop colour behind the card, shared with the
    /// scrim so the two layers fade in step.
    pub color: Color,
    /// Vertical offset of the panel below the viewport's top edge.
    pub offset_y: i64,
    /// Fixed height the card's content is centered in.
    pub max_height: u32,
}

/// Everything one render pass of the drawer decides. The host draws,
/// bottom to top: the background content, the scrim, the panel.
pub struct DrawerView<M> {
    pub scrim: ScrimLayer<M>,
    pub panel: PanelLayer,
}

/// The animated tuple's target for a given open flag: fully deployed
/// and dimmed when open, collapsed and transparent when closed.
pub open spec fn spec_target(is_open: bool) -> DrawerValue {
    if is_open {
        DrawerValue { scrim_alpha: SCRIM_ALPHA, height: MAX_HEIGHT }
    } else {
        DrawerValue { scrim_alpha: 0, height: 0 }
    }
}

/// Driver state the drawer can have produced: both the reached value
/// and the target stay within the open drawer's extremes.
pub open spec fn anim_wf(s: AnimState) -> bool {
    &&& s.current.scrim_alpha <= SCRIM_ALPHA
    &&& s.target.scrim_alpha <= SCRIM_ALPHA
    &&& s.current.height <= MAX_HEIGHT
    &&& s.target.height <= MAX_HEIGHT
}

/// Black at the given animated alpha: the scrim only ever varies in
/// opacity.
pub open spec fn spec_scrim_color(alpha: u32) -> Color {
    Color { red: 0, green: 0, blue: 0, alpha: alpha }
}

/// The panel's vertical offset for an animated height: the panel hangs
/// below the viewport by its undeployed part, and the fixed padding is
/// scaled by how far the panel is deployed, so position and padding
/// slide together. Settled, this is `window_height` when closed and
/// `window_height - MAX_HEIGHT - PADDING` when open.
pub open spec fn spec_offset_y(window_height: u32, height: u32) -> int {
    window_height - height - (PADDING * height) / (MAX_HEIGHT as int)
}

/// What one render does to the driver state: point it at the flag's
/// target, then advance it one frame.
pub open spec fn spec_render_anim(s: AnimState, is_open: bool) -> AnimState {
    s.retargeted(spec_target(is_open)).ticked()
}

/// The driver state before render `i` of a sequence of renders that
/// fed the open flags `opens`, starting from state `s`.
pub open spec fn spec_anim_before(s: AnimState, opens: Seq<bool>, i: int) -> AnimState
    decreases i,
{
    if i <= 0 {
        s
    } else {
        spec_render_anim(spec_anim_before(s, opens, i - 1), opens[i - 1])
    }
}

/// The driver state after `n` renders that all fed the same flag.
pub open spec fn spec_render_n(s: AnimState, is_open: bool, n: nat) -> AnimState
    decreases n,
{
    if n == 0 {
        s
    } else {
        spec_render_n(spec_render_anim(s, is_open), is_open, (n - 1) as nat)
    }
}

/// The view one render computes from the state before it.
pub open spec fn spec_drawer_view<M>(
    s: AnimState,
    is_open: bool,
    toggle_drawer_message: M,
    window_height: u32,
) -> DrawerView<M> {
    let a = spec_render_anim(s, is_open);
    DrawerView {
        scrim: ScrimLayer {
            color: spec_scrim_color(a.current.scrim_alpha),
            top_padding: (a.current.height + PADDING) as u32,
            on_press: if is_open {
                Some(toggle_drawer_message)
            } else {
                None
            },
        },
        panel: PanelLayer {
            color: spec_scrim_color(a.current.scrim_alpha),
            offset_y: spec_offset_y(window_height, a.current.height) as i64,
            max_height: MAX_HEIGHT,
        },
    }
}

/// The animated tuple's target for the frame being rendered.
pub fn drawer_target(is_open: bool) -> (r: DrawerValue)
    ensures
        r == spec_target(is_open),
{
    if is_open {
        DrawerValue { scrim_alpha: SCRIM_ALPHA, height: MAX_HEIGHT }
    } else {
        DrawerValue { scrim_alpha: 0, height: 0 }
    }
}

/// The panel's vertical offset for the current animated height; exact
/// per `spec_offset_y`, and negative only if the panel overhangs a
/// viewport shorter than the deployed panel.
pub fn panel_offset_y(window_height: u32, height: u32) -> (r: i64)
    requires
        height <= MAX_HEIGHT,
    ensures
        r == spec_offset_y(window_height, height),
{
    let scaled: u32 = (PADDING * height) / MAX_HEIGHT;
    window_height as i64 - height as i64 - scaled as i64
}

/// One render of the drawer. Feeds the open flag's target to the
/// animation driver, advances it a frame, and lays the frame's
/// geometry out: the scrim is clickable exactly while the drawer is
/// open, its padding reserves the panel's animated footprint, and the
/// panel sits at the animated offset for the current window height.
pub fn drawer<M>(
    anim: &mut AnimState,
    is_open: bool,
    toggle_drawer_message: M,
    window_size: Size,
) -> (v: DrawerView<M>)
    requires
        anim_wf(*old(anim)),
    ensures
        *final(anim) == spec_render_anim(*old(anim), is_open),
        anim_wf(*final(anim)),
        v == spec_drawer_view(*old(anim), is_open, toggle_drawer_message, window_size.height),
        v.scrim.on_press is Some <==> is_open,
        v.scrim.color == spec_scrim_color(final(anim).current.scrim_alpha),
        v.scrim.top_padding == final(anim).current.height + PADDING,
        v.panel.offset_y == spec_offset_y(window_size.height, final(anim).current.height),
{
    let target = drawer_target(is_open);
    anim.retarget(target);
    anim.tick();
    proof {
        lemma_step_within(old(anim).current.scrim_alpha, spec_target(is_open).scrim_alpha, SCRIM_ALPHA);
        lemma_step_within(old(anim).current.height, spec_target(is_open).height, MAX_HEIGHT);
    }
    let color = Color { red: 0, green: 0, blue: 0, alpha: anim.current.scrim_alpha };
    let offset_y = panel_offset_y(window_size.height, anim.current.height);
    DrawerView {
        scrim: ScrimLayer {
            color: color,
            top_padding: anim.current.height + PADDING,
            on_press: if is_open {
                Some(toggle_drawer_message)
            } else {
                None
            },
        },
        panel: PanelLayer { color: color, offset_y: offset_y, max_height: MAX_HEIGHT },
    }
}

/// Law: however the open flag has toggled across a sequence of
/// renders, every render that saw the flag false leaves the scrim
/// click-catcher inert.
pub proof fn lemma_scrim_inert_when_closed<M>(
    s: AnimState,
    opens: Seq<bool>,
    toggle_drawer_message: M,
    window_height: u32,
    i: int,
)
    requires
        0 <= i < opens.len(),
        !opens[i],
    ensures
        spec_drawer_view(
            spec_anim_before(s, opens, i),
            opens[i],
            toggle_drawer_message,
            window_height,
        ).scrim.on_press is None,
{
}

/// Law: a settled drawer sits exactly at its resting offsets — fully
/// off-screen below the viewport when closed, one padding above its
/// own height's remove from the bottom when open.
pub proof fn lemma_settled_offset_y(window_height: u32, is_open: bool)
    ensures
        is_open ==> spec_offset_y(window_height, spec_target(is_open).height) == window_height
            - MAX_HEIGHT - PADDING,
        !is_open ==> spec_offset_y(window_height, spec_target(is_open).height) == window_height,
{
}

/// Law: a run of renders with an unchanged flag is one retarget
/// followed by that many frames.
proof fn lemma_render_n_is_ticks(s: AnimState, is_open: bool, n: nat)
    requires
        n > 0,
    ensures
        spec_render_n(s, is_open, n) == s.retargeted(spec_target(is_open)).ticked_n(n),
    decreases n,
{
    let t = spec_target(is_open);
    if n == 1 {
        assert(spec_render_n(spec_render_anim(s, is_open), is_open, 0) == spec_render_anim(
            s,
            is_open,
        ));
        assert(s.retargeted(t).ticked_n(1) == s.retargeted(t).ticked().ticked_n(0));
    } else {
        lemma_render_n_is_ticks(spec_render_anim(s, is_open), is_open, (n - 1) as nat);
        assert(spec_render_anim(s, is_open).retargeted(t) == s.retargeted(t).ticked());
        assert(s.retargeted(t).ticked_n(n) == s.retargeted(t).ticked().ticked_n((n - 1) as nat));
    }
}

/// Law: for any sequence of re-renders with an unchanged flag, the
/// animated tuple converges to that flag's target and then remains
/// there — once enough frames have passed, every later render still
/// shows the target.
pub proof fn lemma_renders_converge(s: AnimState, is_open: bool, n: nat, m: nat)
    requires
        anim_wf(s),
        n >= SCRIM_ALPHA,
        n >= MAX_HEIGHT,
        m >= n,
    ensures
        spec_render_n(s, is_open, m).settled(),
        spec_render_n(s, is_open, m).current == spec_target(is_open),
        spec_render_n(s, is_open, m).target == spec_target(is_open),
{
    let r = s.retargeted(spec_target(is_open));
    lemma_render_n_is_ticks(s, is_open, m);
    lemma_anim_converges(r, n);
    lemma_ticked_n_add(r, n, (m - n) as nat);
    lemma_settled_ticked_n(r.ticked_n(n), (m - n) as nat);
}

/// Law: no rendered frame jumps. Whatever the driver state — mid
/// flight after any toggling — the next rendered height and alpha lie
/// between the previous frame's value and the new target, so a toggle
/// before settling redirects the animation without a discontinuity.
pub proof fn lemma_no_jump(s: AnimState, is_open: bool)
    ensures
        s.current.height <= spec_target(is_open).height ==> s.current.height <= spec_render_anim(
            s,
            is_open,
        ).current.height <= spec_target(is_open).height,
        s.current.height >= spec_target(is_open).height ==> spec_target(is_open).height
            <= spec_render_anim(s, is_open).current.height <= s.current.height,
        s.current.scrim_alpha <= spec_target(is_open).scrim_alpha ==> s.current.scrim_alpha
            <= spec_render_anim(s, is_open).current.scrim_alpha <= spec_target(
            is_open,
        ).scrim_alpha,
        s.current.scrim_alpha >= spec_target(is_open).scrim_alpha ==> spec_target(
            is_open,
        ).scrim_alpha <= spec_render_anim(s, is_open).current.scrim_alpha
            <= s.current.scrim_alpha,
{
    lemma_step_progress(s.current.height, spec_target(is_open).height);
    lemma_step_progress(s.current.scrim_alpha, spec_target(is_open).scrim_alpha);
}

} // verus!
