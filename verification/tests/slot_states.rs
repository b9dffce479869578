use event_sink_map::slot::{SessionClosed, SlotEvent, SlotState, WaitStep};

#[test]
fn fresh_slot_keeps_the_reader_waiting() {
    assert_eq!(SlotState::<u32>::Unset.wait_step(), WaitStep::KeepWaiting);
}

#[test]
fn wait_then_deliver() {
    let slot = SlotState::<u32>::Unset;
    let slot = slot.apply(SlotEvent::Publish(17));
    assert_eq!(slot, SlotState::Ready(17));
    assert_eq!(slot.wait_step(), WaitStep::Deliver(17));
}

#[test]
fn close_fails_a_pending_wait() {
    let slot = SlotState::<u32>::Unset.apply(SlotEvent::Close);
    assert_eq!(slot, SlotState::Closed);
    assert_eq!(slot.wait_step(), WaitStep::Fail(SessionClosed));
}

#[test]
fn close_after_publish_fails_the_wait() {
    let slot = SlotState::Unset
        .apply(SlotEvent::Publish(3u32))
        .apply(SlotEvent::Close);
    assert_eq!(slot.wait_step(), WaitStep::Fail(SessionClosed));
}

#[test]
fn retract_then_reset_delivers_the_second_sink() {
    let slot = SlotState::Unset
        .apply(SlotEvent::Publish("a".to_string()))
        .apply(SlotEvent::Retract)
        .apply(SlotEvent::Publish("b".to_string()));
    assert_eq!(slot.wait_step(), WaitStep::Deliver("b".to_string()));
}

#[test]
fn retract_puts_the_reader_back_to_waiting() {
    let slot = SlotState::Unset
        .apply(SlotEvent::Publish(1u8))
        .apply(SlotEvent::Retract);
    assert_eq!(slot, SlotState::Unset);
    assert_eq!(slot.wait_step(), WaitStep::KeepWaiting);
}

#[test]
fn retract_of_an_unset_slot_changes_nothing() {
    let slot = SlotState::<u8>::Unset.apply(SlotEvent::Retract);
    assert_eq!(slot, SlotState::Unset);
}

#[test]
fn publish_replaces_the_sink() {
    let slot = SlotState::Unset
        .apply(SlotEvent::Publish(1u8))
        .apply(SlotEvent::Publish(2u8));
    assert_eq!(slot, SlotState::Ready(2));
}

#[test]
fn closed_is_terminal() {
    assert_eq!(
        SlotState::Closed.apply(SlotEvent::Publish(9u32)),
        SlotState::Closed
    );
    assert_eq!(
        SlotState::<u32>::Closed.apply(SlotEvent::Retract),
        SlotState::Closed
    );
    assert_eq!(
        SlotState::<u32>::Closed.apply(SlotEvent::Close),
        SlotState::Closed
    );
    let slot = SlotState::Unset
        .apply(SlotEvent::Close)
        .apply(SlotEvent::Publish(4u32))
        .apply(SlotEvent::Retract)
        .apply(SlotEvent::Publish(5u32));
    assert_eq!(slot.wait_step(), WaitStep::Fail(SessionClosed));
}

#[test]
fn try_get_on_unset_is_nothing() {
    assert_eq!(SlotState::<u32>::Unset.try_get(), None);
}

#[test]
fn try_get_on_closed_is_nothing() {
    assert_eq!(SlotState::<u32>::Closed.try_get(), None);
}

#[test]
fn try_get_on_ready_is_the_sink() {
    assert_eq!(SlotState::Ready(42u32).try_get(), Some(42));
}

#[test]
fn reading_of_an_open_channel_without_value() {
    assert_eq!(SlotState::<u32>::from_reading(None, false), SlotState::Unset);
}

#[test]
fn reading_of_an_open_channel_with_value() {
    assert_eq!(SlotState::from_reading(Some(8u32), false), SlotState::Ready(8));
}

#[test]
fn reading_of_a_closed_channel() {
    assert_eq!(SlotState::<u32>::from_reading(None, true), SlotState::Closed);
}

#[test]
fn reading_of_a_closed_channel_that_kept_its_value() {
    assert_eq!(SlotState::from_reading(Some(8u32), true), SlotState::Closed);
}

#[test]
fn session_closed_message() {
    assert_eq!(SessionClosed.message(), "Session closed");
}
