use lib::profile::{
    bind_projection_click, profile_stage_step, should_block_native_negotiation_click, update_profile_context_from_click,
    NativeUiSnapshot, NodeState, ProfileFrame, ProfileLease,
};

fn lease() -> ProfileLease {
    ProfileLease {
        context_athlete_id: 1514,
        bind_next_detail: true,
        bound_detail_instance: 0,
        last_detail_instance: 0,
        target_lease_active: false,
        scene_suspended: false,
        scene_return_rebound: false,
        last_confirmed_target_scene: false,
        target_lock_valid: false,
        native_lock_active: false,
        status_owned: false,
        snapshot: None,
        allow_next_rebuild: true,
        management_tick_rebuild_rebound: false,
    }
}

fn frame(active: bool, instance: Option<usize>) -> ProfileFrame {
    ProfileFrame {
        active,
        target_id: 1514,
        detail_instance: instance,
        contract_button: Some(NodeState { visible: true, disabled: false }),
        state_label: Some(NodeState { visible: false, disabled: true }),
    }
}

fn snapshot() -> NativeUiSnapshot {
    NativeUiSnapshot { contract_visible: true, contract_disabled: false, state_visible: false, state_disabled: true }
}

#[test]
fn stage_is_shown_on_the_target_profile() {
    let mut s = lease();
    let e = profile_stage_step(&mut s, &frame(true, Some(10)));
    assert!(e.render_stage && e.shown && e.hide_contract);
    assert!(!e.preserve_unrelated);
    assert_eq!(e.restore, None);
    assert!(s.target_lease_active && s.native_lock_active && s.status_owned && s.target_lock_valid);
    assert!(!s.bind_next_detail);
    assert_eq!(s.bound_detail_instance, 10);
    assert_eq!(s.snapshot, Some(snapshot()));
    let e = profile_stage_step(&mut s, &frame(true, Some(10)));
    assert!(e.render_stage && !e.detail_recreated);
}

#[test]
fn another_profile_gets_its_ui_back() {
    let mut s = lease();
    profile_stage_step(&mut s, &frame(true, Some(10)));
    update_profile_context_from_click(&mut s, "list.view_detail_99", "", Some(1514));
    assert_eq!(s.context_athlete_id, 99);
    assert!(s.bind_next_detail && !s.target_lease_active && !s.target_lock_valid);
    let e = profile_stage_step(&mut s, &frame(true, Some(10)));
    assert!(!e.render_stage && e.preserve_unrelated);
    assert_eq!(e.restore, Some(snapshot()));
    assert!(!s.native_lock_active && !s.status_owned && s.snapshot.is_none() && !s.target_lock_valid);
}

#[test]
fn no_proposal_releases_the_lease() {
    let mut s = lease();
    profile_stage_step(&mut s, &frame(true, Some(10)));
    let e = profile_stage_step(&mut s, &frame(false, Some(10)));
    assert!(!e.render_stage && !e.hide_contract && e.preserve_unrelated);
    assert!(!s.target_lease_active);
}

#[test]
fn leaving_the_scene_suspends_the_lease() {
    let mut s = lease();
    profile_stage_step(&mut s, &frame(true, Some(10)));
    let e = profile_stage_step(&mut s, &frame(true, None));
    assert!(!e.render_stage);
    assert!(s.scene_suspended && s.target_lease_active);
    assert_eq!(s.bound_detail_instance, 0);
    assert!(!s.native_lock_active && s.snapshot.is_none());
    let e = profile_stage_step(&mut s, &frame(true, Some(11)));
    assert!(e.render_stage && e.detail_recreated);
    assert!(!s.scene_suspended && !s.scene_return_rebound);
    assert_eq!(s.bound_detail_instance, 11);
}

#[test]
fn missing_label_shows_nothing() {
    let mut s = lease();
    let mut f = frame(true, Some(10));
    f.state_label = None;
    let e = profile_stage_step(&mut s, &f);
    assert!(!e.render_stage && e.hide_contract);
    assert!(!s.target_lock_valid && !s.native_lock_active);
}

#[test]
fn projection_click_binds_the_next_profile() {
    let mut s = lease();
    s.bind_next_detail = false;
    s.context_athlete_id = 0;
    bind_projection_click(&mut s, 1514);
    assert!(s.bind_next_detail && s.target_lease_active && s.scene_suspended);
    assert_eq!(s.context_athlete_id, 1514);
    let e = profile_stage_step(&mut s, &frame(true, Some(12)));
    assert!(e.render_stage);
    assert!(!s.scene_suspended);
}

#[test]
fn click_updates() {
    let mut s = lease();
    profile_stage_step(&mut s, &frame(true, Some(10)));
    update_profile_context_from_click(&mut s, "main.proceed", "", Some(1514));
    assert!(s.allow_next_rebuild && s.target_lease_active);
    update_profile_context_from_click(&mut s, "player_detail.navigation.next", "", Some(1514));
    assert_eq!(s.context_athlete_id, 0);
    assert!(!s.target_lease_active && !s.bind_next_detail);
    update_profile_context_from_click(&mut s, "x", "btn_view_detail_1514", Some(1514));
    assert_eq!(s.context_athlete_id, 1514);
    assert!(s.target_lease_active && s.bind_next_detail);
    let before = s;
    update_profile_context_from_click(&mut s, "unrelated.click", "", Some(1514));
    assert_eq!(s, before);
}

#[test]
fn native_offer_clicks_are_blocked_for_the_target() {
    let mut s = lease();
    profile_stage_step(&mut s, &frame(true, Some(10)));
    assert!(should_block_native_negotiation_click(&s, "a.player_detail.data.row4.contract", "", Some(1514), 0));
    assert!(!should_block_native_negotiation_click(&s, "a.player_detail.data.row4.contract", "", None, 0));
    assert!(should_block_native_negotiation_click(&s, "x.offer.data.row2.offer", "", Some(1514), 1514));
    assert!(!should_block_native_negotiation_click(&s, "x.offer.data.row2.offer", "", Some(1514), 7));
}
