use nokhwa::init::{nokhwa_check, nokhwa_initialize};
use std::sync::{
    atomic::{AtomicBool, Ordering},
    Arc,
};

#[test]
fn nokhwa_check_returns_true_without_avfoundation() {
    assert!(nokhwa_check());
}

#[test]
fn nokhwa_initialize_invokes_callback_synchronously_with_true() {
    let fired = Arc::new(AtomicBool::new(false));
    let result = Arc::new(AtomicBool::new(false));
    {
        let fired = Arc::clone(&fired);
        let result = Arc::clone(&result);
        nokhwa_initialize(move |ok| {
            result.store(ok, Ordering::SeqCst);
            fired.store(true, Ordering::SeqCst);
        });
    }
    assert!(
        fired.load(Ordering::SeqCst),
        "non-AVFoundation init stub must call its callback synchronously"
    );
    assert!(
        result.load(Ordering::SeqCst),
        "non-AVFoundation init stub must report success"
    );
}
