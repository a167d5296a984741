use howlong::{Duration, ProcessCPUTimer, SystemTimer, ThreadTimer, TimePoint};

// Type inference can pick the parameter `A` only where exactly one of the two
// impls applies, that is, where the type is not `Send` (or not `Sync`).
trait NotSend<A> {
    fn holds() {}
}

impl<T: ?Sized> NotSend<()> for T {}

impl<T: ?Sized + Send> NotSend<u8> for T {}

trait NotSync<A> {
    fn holds() {}
}

impl<T: ?Sized> NotSync<()> for T {}

impl<T: ?Sized + Sync> NotSync<u8> for T {}

fn is_send<T: Send>() {}

fn is_sync<T: Sync>() {}

#[test]
fn a_thread_timer_cannot_leave_its_thread() {
    <ThreadTimer as NotSend<_>>::holds();
    <ThreadTimer as NotSync<_>>::holds();
    let timer = ThreadTimer::new(TimePoint::from(Duration::from_secs(1)));
    assert!(timer.is_running());
}

#[test]
fn the_other_timers_can_be_handed_to_another_thread() {
    is_send::<SystemTimer>();
    is_sync::<SystemTimer>();
    is_send::<ProcessCPUTimer>();
    is_sync::<ProcessCPUTimer>();
}
