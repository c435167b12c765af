use fursuit_fan_controller_fw::buttons::ButtonPoller;
use fursuit_fan_controller_fw::controller::MainTaskMessage;

#[test]
fn eight_consistent_samples_confirm_a_press() {
    let mut poller = ButtonPoller::new(false, false);
    for i in 0..8 {
        let (plus, minus) = poller.sample(true, false);
        if i < 7 {
            assert_eq!(plus, None);
        } else {
            assert_eq!(plus, Some(MainTaskMessage::PlusButtonPressed));
        }
        assert_eq!(minus, None);
    }
}

#[test]
fn minus_button_reports_its_own_event() {
    let mut poller = ButtonPoller::new(false, false);
    for i in 0..8 {
        let (plus, minus) = poller.sample(false, true);
        assert_eq!(plus, None);
        if i < 7 {
            assert_eq!(minus, None);
        } else {
            assert_eq!(minus, Some(MainTaskMessage::MinusButtonPressed));
        }
    }
}

#[test]
fn a_bounce_restarts_the_debounce_window() {
    let mut poller = ButtonPoller::new(false, false);
    for _ in 0..7 {
        assert_eq!(poller.sample(true, false).0, None);
    }
    // One released sample right before confirmation.
    assert_eq!(poller.sample(false, false).0, None);
    // The press must be re-confirmed from scratch.
    for i in 0..8 {
        let (plus, _) = poller.sample(true, false);
        if i < 7 {
            assert_eq!(plus, None);
        } else {
            assert_eq!(plus, Some(MainTaskMessage::PlusButtonPressed));
        }
    }
}

#[test]
fn holding_the_button_reports_no_second_press() {
    let mut poller = ButtonPoller::new(false, false);
    for _ in 0..8 {
        poller.sample(true, false);
    }
    for _ in 0..50 {
        assert_eq!(poller.sample(true, false).0, None);
    }
}

#[test]
fn release_and_new_press_report_again() {
    let mut poller = ButtonPoller::new(false, false);
    for _ in 0..8 {
        poller.sample(true, false);
    }
    for _ in 0..8 {
        assert_eq!(poller.sample(false, false).0, None);
    }
    for i in 0..8 {
        let (plus, _) = poller.sample(true, false);
        if i < 7 {
            assert_eq!(plus, None);
        } else {
            assert_eq!(plus, Some(MainTaskMessage::PlusButtonPressed));
        }
    }
}

#[test]
fn initially_pressed_button_reports_no_rising_edge() {
    // The debouncer starts at the button's boot-time level; staying there is
    // not an edge.
    let mut poller = ButtonPoller::new(true, false);
    for _ in 0..20 {
        assert_eq!(poller.sample(true, false).0, None);
    }
}
