//! The cross-boundary handle: token encoding and the
//! borrow/invoke/release/finalize discipline.

use bluest_android::handle::{decode_token, encode_token, CallbackHandle, HandleEvent};

#[test]
fn arc_ptr_cast_32_bit_test() {
    // According to the Rust Reference, casting between two integers of the same size (e.g. i32 -> u32)
    // is a no-op, and behaviors of other casts between integers are platform-agnostic.
    assert_eq!(u32::MAX as i64 as u32, u32::MAX);
    assert_eq!(u32::MIN as i64 as u32, u32::MIN);
}

#[test]
fn token_round_trip() {
    for addr in [0u64, 1, 0x7fff_ffff_ffff_ffff, 0x8000_0000_0000_0000, u64::MAX] {
        let token = encode_token(addr);
        assert_eq!(decode_token(token), addr);
    }
}

#[test]
fn token_is_the_address_bits() {
    assert_eq!(encode_token(u64::MAX), -1i64);
    assert_eq!(encode_token(5), 5i64);
    assert_eq!(decode_token(-1), u64::MAX);
}

#[test]
fn borrow_release_cycles_then_finalize() {
    let mut h = CallbackHandle::encode();
    assert!(!h.finalized);
    assert_eq!(h.borrows, 0);
    // several borrow/invoke/release cycles, in any order
    assert!(h.apply(HandleEvent::Borrow));
    assert!(h.apply(HandleEvent::Borrow));
    assert!(h.apply(HandleEvent::Release));
    assert!(h.apply(HandleEvent::Borrow));
    assert!(h.apply(HandleEvent::Release));
    assert!(h.apply(HandleEvent::Release));
    assert_eq!(h.borrows, 0);
    // the single finalize consumes the owner reference
    assert!(h.apply(HandleEvent::Finalize));
    assert!(h.finalized);
}

#[test]
fn no_access_after_finalize() {
    let mut h = CallbackHandle::encode();
    assert!(h.apply(HandleEvent::Finalize));
    // after finalize every decode of the token is refused
    assert!(!h.apply(HandleEvent::Borrow));
    assert!(!h.apply(HandleEvent::Release));
    assert!(h.finalized);
}

#[test]
fn finalize_at_most_once() {
    let mut h = CallbackHandle::encode();
    assert!(h.apply(HandleEvent::Borrow));
    assert!(h.apply(HandleEvent::Release));
    assert!(h.apply(HandleEvent::Finalize));
    assert!(!h.apply(HandleEvent::Finalize));
}

#[test]
fn finalize_waits_for_in_flight_calls() {
    let mut h = CallbackHandle::encode();
    assert!(h.apply(HandleEvent::Borrow));
    // the runtime serializes finalize after in-flight calls; a finalize
    // breaking that discipline is refused rather than freeing under a call
    assert!(!h.apply(HandleEvent::Finalize));
    assert!(h.apply(HandleEvent::Release));
    assert!(h.apply(HandleEvent::Finalize));
}

#[test]
fn release_requires_a_matching_borrow() {
    let mut h = CallbackHandle::encode();
    assert!(!h.apply(HandleEvent::Release));
    assert!(h.apply(HandleEvent::Borrow));
    assert!(h.apply(HandleEvent::Release));
    assert!(!h.apply(HandleEvent::Release));
}

#[test]
fn fuzzed_schedules_admit_exactly_the_discipline() {
    // a small deterministic schedule generator; the handle must accept an
    // event exactly when the discipline allows it in the current state
    let mut seed: u64 = 0x9e37_79b9_7f4a_7c15;
    for _ in 0..200 {
        let mut h = CallbackHandle::encode();
        let mut borrows: u64 = 0;
        let mut finalized = false;
        for _ in 0..64 {
            seed = seed.wrapping_mul(6364136223846793005).wrapping_add(1442695040888963407);
            let ev = match (seed >> 33) % 3 {
                0 => HandleEvent::Borrow,
                1 => HandleEvent::Release,
                _ => HandleEvent::Finalize,
            };
            let expect = match ev {
                HandleEvent::Borrow => !finalized,
                HandleEvent::Release => borrows >= 1,
                HandleEvent::Finalize => !finalized && borrows == 0,
            };
            assert_eq!(h.apply(ev), expect);
            if expect {
                match ev {
                    HandleEvent::Borrow => borrows += 1,
                    HandleEvent::Release => borrows -= 1,
                    HandleEvent::Finalize => finalized = true,
                }
            }
            assert_eq!(h.borrows, borrows);
            assert_eq!(h.finalized, finalized);
        }
    }
}
