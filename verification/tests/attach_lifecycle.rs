//! Thread attachment plans and the per-thread attachment lifecycle.

use bluest_android::attach::{plan_thread_exit, plan_with_env, AttachState, EnvProbe};

#[test]
fn an_attached_thread_is_left_alone() {
    for exiting in [false, true] {
        let p = plan_with_env(EnvProbe::Attached, exiting);
        assert!(!p.attach);
        assert!(!p.register_owner);
        assert!(!p.detach_after);
    }
}

#[test]
fn a_detached_thread_is_attached_and_ownership_recorded() {
    let p = plan_with_env(EnvProbe::Detached, false);
    assert!(p.attach);
    assert!(p.register_owner);
    assert!(!p.detach_after);
}

#[test]
fn a_dying_thread_is_detached_right_after_the_scope() {
    let p = plan_with_env(EnvProbe::Detached, true);
    assert!(p.attach);
    assert!(!p.register_owner);
    assert!(p.detach_after);
}

#[test]
fn the_finalizer_detaches_exactly_the_owned_attachment() {
    assert!(plan_thread_exit(true));
    assert!(!plan_thread_exit(false));
}

#[test]
fn runtime_thread_stays_foreign_through_its_life() {
    // a runtime-owned callback thread arrives already attached
    let mut s = AttachState::new(true);
    s.run_scope();
    s.run_scope();
    assert!(s.attached);
    assert!(!s.owned);
    s.thread_exit();
    // the foreign attachment is never released here
    assert!(s.attached);
}

#[test]
fn native_thread_is_attached_once_and_detached_at_exit() {
    let mut s = AttachState::new(false);
    let p = s.run_scope();
    assert!(p.attach && p.register_owner && !p.detach_after);
    assert!(s.attached && s.owned);
    // further scopes reuse the attachment
    let p2 = s.run_scope();
    assert!(!p2.attach);
    assert!(s.attached && s.owned);
    s.thread_exit();
    assert!(!s.attached && !s.owned && s.exiting);
}

#[test]
fn scope_on_a_dying_thread_cleans_up_after_itself() {
    let mut s = AttachState::new(false);
    s.run_scope();
    s.thread_exit();
    assert!(!s.attached);
    // a scope used while dropping a thread-local attaches and detaches at once
    let p = s.run_scope();
    assert!(p.attach && !p.register_owner && p.detach_after);
    assert!(!s.attached && !s.owned);
}
