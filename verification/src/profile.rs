//! The stage of a pending proposal shown on the profile of the player it
//! targets.  The profile screen is rebuilt by the game at will, so the
//! screen keeps a lease on the target's identity across rebuilds and scene
//! changes; each frame it decides, from what it sees, whether to show the
//! stage (hiding the game's contract button) or to leave the profile as the
//! game drew it.  This module makes that decision; the screen carries it out.
use vstd::prelude::*;
use crate::clicks::{
    ascii_lower, exact_view_detail_athlete_id_from_event, first_segment_id, lower_exec, native_offer_submission,
    native_offer_submission_event, number_after, parse_view_detail_id_from_text, path_has_exact_node_id, path_segments,
    profile_arrow_click, profile_contract_click, profile_native_contract_event, profile_navigation_without_exact_id,
};
use crate::text::{chars_eq, chars_of};

verus! {

/// The state of the game's contract button and status label before the
/// screen took them over.
#[derive(Clone, Copy, Debug, PartialEq, Eq, Structural)]
pub struct NativeUiSnapshot {
    pub contract_visible: bool,
    pub contract_disabled: bool,
    pub state_visible: bool,
    pub state_disabled: bool,
}

/// What the screen remembers between frames about the profile it shows.
#[derive(Clone, Copy, Debug, PartialEq, Eq, Structural)]
pub struct ProfileLease {
    /// The player whose profile was last opened by the screen (0: none).
    pub context_athlete_id: usize,
    /// The next profile instance is to be bound to that player.
    pub bind_next_detail: bool,
    /// The profile instance bound to the player (0: none).
    pub bound_detail_instance: usize,
    /// The profile instance seen last frame (0: none).
    pub last_detail_instance: usize,
    /// The lease on the proposal target's identity is held.
    pub target_lease_active: bool,
    /// The target's profile left the screen while the lease was held.
    pub scene_suspended: bool,
    /// The lease was taken up again after a scene change.
    pub scene_return_rebound: bool,
    /// The last profile shown was the target's.
    pub last_confirmed_target_scene: bool,
    /// The contract button of the target's profile is hidden by the screen.
    pub target_lock_valid: bool,
    /// The screen holds the game's contract button and label.
    pub native_lock_active: bool,
    /// The status label shows the screen's text.
    pub status_owned: bool,
    /// How the game's button and label were before the screen took them.
    pub snapshot: Option<NativeUiSnapshot>,
    /// A rebuild of the profile may be followed once more.
    pub allow_next_rebuild: bool,
    /// The lock was restored after a rebuild at a management tick.
    pub management_tick_rebuild_rebound: bool,
}

/// Whether a node is visible and whether it is disabled.
#[derive(Clone, Copy, Debug, PartialEq, Eq, Structural)]
pub struct NodeState {
    pub visible: bool,
    pub disabled: bool,
}

/// What the screen sees this frame.
#[derive(Clone, Copy, Debug, PartialEq, Eq, Structural)]
pub struct ProfileFrame {
    /// A proposal is in review.
    pub active: bool,
    /// The player the proposal targets.
    pub target_id: usize,
    /// The usable profile on screen, by instance (none when no profile is
    /// visible and enabled).
    pub detail_instance: Option<usize>,
    /// The game's contract button, if present.
    pub contract_button: Option<NodeState>,
    /// The game's status label, if present.
    pub state_label: Option<NodeState>,
}

/// What the screen does to the profile this frame, in this order.
#[derive(Clone, Copy, Debug, PartialEq, Eq, Structural)]
pub struct ProfileEffect {
    /// Give the game's button and label back their earlier state.
    pub restore: Option<NativeUiSnapshot>,
    /// Leave the profile of another player as the game drew it.
    pub preserve_unrelated: bool,
    /// The profile was rebuilt since the screen last bound it.
    pub detail_recreated: bool,
    /// Hide and disable the game's contract button.
    pub hide_contract: bool,
    /// Show the stage of the proposal in the status label.
    pub render_stage: bool,
    /// The stage is shown.
    pub shown: bool,
}

/// Hands the game's button and label back, as the screen does before it
/// lets go of a profile: the snapshot is used once.
pub open spec fn release_native(s: ProfileLease) -> (ProfileLease, Option<NativeUiSnapshot>) {
    if !s.native_lock_active && !s.status_owned {
        (s, None)
    } else {
        (ProfileLease { native_lock_active: false, status_owned: false, snapshot: None, ..s }, s.snapshot)
    }
}

/// Forgets the game's button and label without handing them back.
pub open spec fn drop_native(s: ProfileLease) -> ProfileLease {
    ProfileLease { native_lock_active: false, status_owned: false, snapshot: None, ..s }
}

pub open spec fn no_effect(recreated: bool) -> ProfileEffect {
    ProfileEffect {
        restore: None,
        preserve_unrelated: false,
        detail_recreated: recreated,
        hide_contract: false,
        render_stage: false,
        shown: false,
    }
}

/// The lease after the profile instance `d` is seen: bound to the player
/// when a bind was asked for, or carried over a rebuild; with whether the
/// profile counts as rebuilt and what was handed back.
pub open spec fn bind_step(s: ProfileLease, f: ProfileFrame, d: usize, recreated: bool) -> (ProfileLease, bool, Option<NativeUiSnapshot>) {
    let id = s.context_athlete_id;
    if s.bind_next_detail {
        let s0 = ProfileLease { bind_next_detail: false, ..s };
        if id == 0 {
            (s0, recreated, None)
        } else {
            let owned = s0.native_lock_active || s0.status_owned;
            let (s1, restored) = if owned && s0.bound_detail_instance != 0 && s0.bound_detail_instance == d {
                release_native(s0)
            } else if owned {
                (drop_native(s0), None)
            } else {
                (s0, None)
            };
            let target_bound = f.active && id == f.target_id;
            (
                ProfileLease {
                    bound_detail_instance: d,
                    target_lease_active: target_bound,
                    scene_suspended: false,
                    scene_return_rebound: target_bound && s1.scene_suspended,
                    ..s1
                },
                recreated,
                restored,
            )
        }
    } else if id != 0 && s.bound_detail_instance != d {
        let target_rebound = f.active && id == f.target_id && s.target_lease_active;
        (
            ProfileLease {
                scene_suspended: false,
                bound_detail_instance: d,
                allow_next_rebuild: false,
                management_tick_rebuild_rebound: f.active && id == f.target_id,
                native_lock_active: false,
                status_owned: false,
                snapshot: None,
                scene_return_rebound: target_rebound && s.scene_suspended,
                ..s
            },
            true,
            None,
        )
    } else {
        (s, recreated, None)
    }
}

/// A frame on the profile of another player (or with no proposal in
/// review): the screen lets go of the profile.
pub open spec fn other_profile(s2: ProfileLease, recreated: bool, restored: Option<NativeUiSnapshot>) -> (ProfileLease, ProfileEffect) {
    let s3 = ProfileLease { target_lock_valid: false, last_confirmed_target_scene: false, ..s2 };
    let (s4, restored2) = if !recreated { release_native(s3) } else { (s3, None) };
    (
        drop_native(s4),
        ProfileEffect {
            restore: if restored is Some { restored } else { restored2 },
            preserve_unrelated: true,
            detail_recreated: recreated,
            hide_contract: false,
            render_stage: false,
            shown: false,
        },
    )
}

/// A frame on the target's profile: the screen takes the game's button and
/// label (remembering them once), hides the button and shows the stage.
pub open spec fn target_profile(s2: ProfileLease, f: ProfileFrame, recreated: bool, restored: Option<NativeUiSnapshot>) -> (ProfileLease, ProfileEffect) {
    let s3 = ProfileLease { target_lease_active: true, last_confirmed_target_scene: true, ..s2 };
    let s4 = if s3.native_lock_active {
        s3
    } else {
        match (f.contract_button, f.state_label) {
            (Some(c), Some(l)) => ProfileLease {
                snapshot: Some(
                    NativeUiSnapshot {
                        contract_visible: c.visible,
                        contract_disabled: c.disabled,
                        state_visible: l.visible,
                        state_disabled: l.disabled,
                    },
                ),
                native_lock_active: true,
                ..s3
            },
            _ => s3,
        }
    };
    let hide = f.contract_button is Some;
    if f.state_label is None {
        (
            ProfileLease { target_lock_valid: false, ..s4 },
            ProfileEffect {
                restore: restored,
                preserve_unrelated: false,
                detail_recreated: recreated,
                hide_contract: hide,
                render_stage: false,
                shown: false,
            },
        )
    } else {
        (
            ProfileLease {
                status_owned: true,
                target_lock_valid: hide,
                management_tick_rebuild_rebound: if recreated { false } else { s4.management_tick_rebuild_rebound },
                scene_return_rebound: false,
                ..s4
            },
            ProfileEffect {
                restore: restored,
                preserve_unrelated: false,
                detail_recreated: recreated,
                hide_contract: hide,
                render_stage: true,
                shown: true,
            },
        )
    }
}

/// The player the profile instance `d` shows: the bound player, when `d`
/// is the instance bound to it.
pub open spec fn profile_player(s: ProfileLease, d: usize) -> Option<usize> {
    if s.context_athlete_id != 0 && s.bound_detail_instance == d {
        Some(s.context_athlete_id)
    } else {
        None
    }
}

/// The whole decision of a frame: the new lease and the effect.
pub open spec fn profile_step_spec(s: ProfileLease, f: ProfileFrame) -> (ProfileLease, ProfileEffect) {
    let s0 = if !f.active {
        ProfileLease {
            target_lease_active: false,
            scene_suspended: false,
            scene_return_rebound: false,
            last_confirmed_target_scene: false,
            ..s
        }
    } else {
        s
    };
    match f.detail_instance {
        None => if f.active && s0.target_lease_active && s0.context_athlete_id == f.target_id {
            (
                ProfileLease {
                    scene_suspended: true,
                    bound_detail_instance: 0,
                    target_lock_valid: false,
                    ..drop_native(s0)
                },
                no_effect(false),
            )
        } else {
            (s0, no_effect(false))
        },
        Some(d) => {
            let recreated0 = s0.last_detail_instance != 0 && s0.last_detail_instance != d;
            let s1 = ProfileLease { last_detail_instance: d, ..s0 };
            let (s2, recreated, restored) = bind_step(s1, f, d, recreated0);
            if !f.active || profile_player(s2, d) != Some(f.target_id) {
                other_profile(s2, recreated, restored)
            } else {
                target_profile(s2, f, recreated, restored)
            }
        },
    }
}

/// The stage is shown only on the profile of the player that a proposal in
/// review targets, that profile being the instance bound to that player; with
/// no proposal in review the lease is let go and the game's button is left
/// alone; whenever another profile is shown, everything taken from the game
/// is handed back.
pub proof fn lemma_stage_shown_only_on_target(s: ProfileLease, f: ProfileFrame)
    ensures
        ({
            let (t, e) = profile_step_spec(s, f);
            &&& e.render_stage ==> f.active && (f.detail_instance matches Some(d) && profile_player(t, d) == Some(
                f.target_id,
            ))
            &&& e.shown == e.render_stage
            &&& !f.active ==> !t.target_lease_active && !e.render_stage && !e.hide_contract
            &&& e.hide_contract ==> t.target_lease_active
            &&& e.preserve_unrelated ==> !t.native_lock_active && !t.status_owned && t.snapshot is None
        }),
{
}

fn release_native_exec(s: &mut ProfileLease) -> (restored: Option<NativeUiSnapshot>)
    ensures
        (*final(s), restored) == release_native(*old(s)),
{
    if !s.native_lock_active && !s.status_owned {
        return None;
    }
    s.native_lock_active = false;
    s.status_owned = false;
    let taken = s.snapshot;
    s.snapshot = None;
    taken
}

fn drop_native_exec(s: &mut ProfileLease)
    ensures
        *final(s) == drop_native(*old(s)),
{
    s.native_lock_active = false;
    s.status_owned = false;
    s.snapshot = None;
}

/// Decides what a frame does to the profile and updates the lease.  The
/// stage is shown only on the profile of the player that a proposal in
/// review targets; any other profile is left as the game drew it.
#[verifier::rlimit(40)]
pub fn profile_stage_step(s: &mut ProfileLease, f: &ProfileFrame) -> (e: ProfileEffect)
    ensures
        (*final(s), e) == profile_step_spec(*old(s), *f),
{
    if !f.active {
        s.target_lease_active = false;
        s.scene_suspended = false;
        s.scene_return_rebound = false;
        s.last_confirmed_target_scene = false;
    }
    let d = match f.detail_instance {
        None => {
            if f.active && s.target_lease_active && s.context_athlete_id == f.target_id {
                drop_native_exec(s);
                s.scene_suspended = true;
                s.bound_detail_instance = 0;
                s.target_lock_valid = false;
            }
            return ProfileEffect {
                restore: None,
                preserve_unrelated: false,
                detail_recreated: false,
                hide_contract: false,
                render_stage: false,
                shown: false,
            };
        },
        Some(d) => d,
    };
    let mut recreated = s.last_detail_instance != 0 && s.last_detail_instance != d;
    s.last_detail_instance = d;
    let (recreated, restored) = bind_exec(s, f, d, recreated);
    let on_target = f.active && s.context_athlete_id != 0 && s.bound_detail_instance == d
        && s.context_athlete_id == f.target_id;
    if on_target {
        target_exec(s, f, recreated, restored)
    } else {
        other_exec(s, recreated, restored)
    }
}

fn bind_exec(s: &mut ProfileLease, f: &ProfileFrame, d: usize, recreated: bool) -> (r: (bool, Option<NativeUiSnapshot>))
    ensures
        (*final(s), r.0, r.1) == bind_step(*old(s), *f, d, recreated),
{
    let id = s.context_athlete_id;
    if s.bind_next_detail {
        let s0 = ProfileLease { bind_next_detail: false, ..*s };
        if id == 0 {
            *s = s0;
            return (recreated, None);
        }
        let owned = s0.native_lock_active || s0.status_owned;
        let mut s1 = s0;
        let mut restored: Option<NativeUiSnapshot> = None;
        if owned && s0.bound_detail_instance != 0 && s0.bound_detail_instance == d {
            restored = release_native_exec(&mut s1);
        } else if owned {
            drop_native_exec(&mut s1);
        }
        let target_bound = f.active && id == f.target_id;
        *s = ProfileLease {
            bound_detail_instance: d,
            target_lease_active: target_bound,
            scene_suspended: false,
            scene_return_rebound: target_bound && s1.scene_suspended,
            ..s1
        };
        (recreated, restored)
    } else if id != 0 && s.bound_detail_instance != d {
        let target_rebound = f.active && id == f.target_id && s.target_lease_active;
        *s = ProfileLease {
            scene_suspended: false,
            bound_detail_instance: d,
            allow_next_rebuild: false,
            management_tick_rebuild_rebound: f.active && id == f.target_id,
            native_lock_active: false,
            status_owned: false,
            snapshot: None,
            scene_return_rebound: target_rebound && s.scene_suspended,
            ..*s
        };
        (true, None)
    } else {
        (recreated, None)
    }
}

fn other_exec(s: &mut ProfileLease, recreated: bool, restored: Option<NativeUiSnapshot>) -> (e: ProfileEffect)
    ensures
        (*final(s), e) == other_profile(*old(s), recreated, restored),
{
    s.target_lock_valid = false;
    s.last_confirmed_target_scene = false;
    let mut restored = restored;
    if !recreated {
        let again = release_native_exec(s);
        if restored.is_none() {
            restored = again;
        }
    }
    drop_native_exec(s);
    ProfileEffect {
        restore: restored,
        preserve_unrelated: true,
        detail_recreated: recreated,
        hide_contract: false,
        render_stage: false,
        shown: false,
    }
}

fn target_exec(s: &mut ProfileLease, f: &ProfileFrame, recreated: bool, restored: Option<NativeUiSnapshot>) -> (e: ProfileEffect)
    ensures
        (*final(s), e) == target_profile(*old(s), *f, recreated, restored),
{
    s.target_lease_active = true;
    s.last_confirmed_target_scene = true;
    if !s.native_lock_active {
        match (f.contract_button, f.state_label) {
            (Some(c), Some(l)) => {
                s.snapshot = Some(
                    NativeUiSnapshot {
                        contract_visible: c.visible,
                        contract_disabled: c.disabled,
                        state_visible: l.visible,
                        state_disabled: l.disabled,
                    },
                );
                s.native_lock_active = true;
            },
            _ => {},
        }
    }
    let hide = f.contract_button.is_some();
    if f.state_label.is_none() {
        s.target_lock_valid = false;
        return ProfileEffect {
            restore: restored,
            preserve_unrelated: false,
            detail_recreated: recreated,
            hide_contract: hide,
            render_stage: false,
            shown: false,
        };
    }
    s.status_owned = true;
    s.target_lock_valid = hide;
    if recreated {
        s.management_tick_rebuild_rebound = false;
    }
    s.scene_return_rebound = false;
    ProfileEffect {
        restore: restored,
        preserve_unrelated: false,
        detail_recreated: recreated,
        hide_contract: hide,
        render_stage: true,
        shown: true,
    }
}


// ---------------------------------------------------------------------------
// Clicks
// ---------------------------------------------------------------------------

/// The lease after a click on a pending-contract row that opens `athlete_id`:
/// bound to that player, to be attached to the next profile instance, held
/// as the target's lease while the scene changes.
pub open spec fn projection_click_lease(s: ProfileLease, athlete_id: usize) -> ProfileLease {
    ProfileLease {
        context_athlete_id: athlete_id,
        bound_detail_instance: 0,
        bind_next_detail: true,
        target_lock_valid: false,
        allow_next_rebuild: false,
        management_tick_rebuild_rebound: false,
        target_lease_active: true,
        scene_suspended: true,
        scene_return_rebound: false,
        ..s
    }
}

pub fn bind_projection_click(s: &mut ProfileLease, athlete_id: usize)
    ensures
        *final(s) == projection_click_lease(*old(s), athlete_id),
{
    *s = ProfileLease {
        context_athlete_id: athlete_id,
        bound_detail_instance: 0,
        bind_next_detail: true,
        target_lock_valid: false,
        allow_next_rebuild: false,
        management_tick_rebuild_rebound: false,
        target_lease_active: true,
        scene_suspended: true,
        scene_return_rebound: false,
        ..*s
    };
}

/// The lease bound to `athlete_id` by a click that names the player.
pub open spec fn named_click_lease(s: ProfileLease, athlete_id: usize, target: usize) -> ProfileLease {
    ProfileLease {
        context_athlete_id: athlete_id,
        bind_next_detail: true,
        target_lock_valid: false,
        allow_next_rebuild: false,
        management_tick_rebuild_rebound: false,
        target_lease_active: target != 0 && athlete_id == target,
        last_confirmed_target_scene: false,
        ..s
    }
}

/// What any other click does to the lease, given the target of the
/// proposal in review (`None` when there is none): a `proceed` click arms
/// the lock to survive the next rebuild of the target's profile; a click
/// that names a player binds the next profile to that player; the
/// previous/next arrows of a profile drop the binding; a `view_detail_<id>`
/// text anywhere in the click binds as well.
pub open spec fn click_lease(s: ProfileLease, path: Seq<char>, item: Seq<char>, active_target: Option<usize>) -> ProfileLease {
    let target = match active_target {
        Some(t) => t,
        None => 0,
    };
    if ascii_lower(item) == "proceed"@ || path_segments(path).contains("proceed"@) {
        if active_target is Some && s.target_lock_valid && s.context_athlete_id == target {
            ProfileLease { allow_next_rebuild: true, management_tick_rebuild_rebound: false, target_lease_active: true, ..s }
        } else {
            s
        }
    } else if first_segment_id(seq![item] + path_segments(path)) is Some {
        let a = first_segment_id(seq![item] + path_segments(path))->0 as usize;
        ProfileLease { scene_suspended: false, scene_return_rebound: false, ..named_click_lease(s, a, target) }
    } else if profile_arrow_click(path, item) {
        ProfileLease {
            context_athlete_id: 0,
            bind_next_detail: false,
            target_lock_valid: false,
            allow_next_rebuild: false,
            management_tick_rebuild_rebound: false,
            target_lease_active: false,
            scene_suspended: false,
            scene_return_rebound: false,
            last_confirmed_target_scene: false,
            ..s
        }
    } else if number_after(path, "view_detail_"@) is Some {
        named_click_lease(s, number_after(path, "view_detail_"@)->0 as usize, target)
    } else if number_after(item, "view_detail_"@) is Some {
        named_click_lease(s, number_after(item, "view_detail_"@)->0 as usize, target)
    } else {
        s
    }
}

pub fn update_profile_context_from_click(s: &mut ProfileLease, path: &str, item: &str, active_target: Option<usize>)
    ensures
        *final(s) == click_lease(*old(s), path@, item@, active_target),
{
    let target: usize = match active_target {
        Some(t) => t,
        None => 0,
    };
    let lower = lower_exec(chars_of(item).as_slice());
    let proceed = chars_eq(lower.as_slice(), chars_of("proceed").as_slice()) || path_has_exact_node_id(path, "proceed");
    if proceed {
        if active_target.is_some() && s.target_lock_valid && s.context_athlete_id == target {
            *s = ProfileLease { allow_next_rebuild: true, management_tick_rebuild_rebound: false, target_lease_active: true, ..*s };
        }
        return;
    }
    if let Some(a) = exact_view_detail_athlete_id_from_event(path, item) {
        *s = ProfileLease {
            context_athlete_id: a,
            bind_next_detail: true,
            target_lock_valid: false,
            allow_next_rebuild: false,
            management_tick_rebuild_rebound: false,
            target_lease_active: target != 0 && a == target,
            last_confirmed_target_scene: false,
            scene_suspended: false,
            scene_return_rebound: false,
            ..*s
        };
        return;
    }
    if profile_navigation_without_exact_id(path, item) {
        *s = ProfileLease {
            context_athlete_id: 0,
            bind_next_detail: false,
            target_lock_valid: false,
            allow_next_rebuild: false,
            management_tick_rebuild_rebound: false,
            target_lease_active: false,
            scene_suspended: false,
            scene_return_rebound: false,
            last_confirmed_target_scene: false,
            ..*s
        };
        return;
    }
    let named = match parse_view_detail_id_from_text(path) {
        Some(a) => Some(a),
        None => parse_view_detail_id_from_text(item),
    };
    if let Some(a) = named {
        *s = ProfileLease {
            context_athlete_id: a,
            bind_next_detail: true,
            target_lock_valid: false,
            allow_next_rebuild: false,
            management_tick_rebuild_rebound: false,
            target_lease_active: target != 0 && a == target,
            last_confirmed_target_scene: false,
            ..*s
        };
    }
}

/// A click on the game's own offer controls that would make a second offer
/// for the target of the proposal in review: the contract button of the
/// target's profile while the screen holds it, or an offer submission while
/// the target is the selected player.
pub open spec fn blocks_native_click(
    s: ProfileLease,
    path: Seq<char>,
    item: Seq<char>,
    active_target: Option<usize>,
    selected_target: usize,
) -> bool {
    match active_target {
        Some(t) => (profile_contract_click(path, item) && s.target_lock_valid && s.context_athlete_id == t) || (
        native_offer_submission(path, item) && selected_target == t),
        None => false,
    }
}

pub fn should_block_native_negotiation_click(
    s: &ProfileLease,
    path: &str,
    item: &str,
    active_target: Option<usize>,
    selected_target: usize,
) -> (b: bool)
    ensures
        b == blocks_native_click(*s, path@, item@, active_target, selected_target),
{
    match active_target {
        Some(t) => (profile_native_contract_event(path, item) && s.target_lock_valid && s.context_athlete_id == t) || (
        native_offer_submission_event(path, item) && selected_target == t),
        None => false,
    }
}

} // verus!
