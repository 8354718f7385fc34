use rust_playground::quota::{quota_warning, LimitTracker, Messenger, QuotaWarning};
use std::cell::RefCell;

struct MockMessenger {
    sent_messages: RefCell<Vec<String>>,
}

impl MockMessenger {
    fn new() -> MockMessenger {
        MockMessenger { sent_messages: RefCell::new(vec![]) }
    }
}

impl Messenger for MockMessenger {
    fn send(&self, message: &str) {
        self.sent_messages.borrow_mut().push(String::from(message));
    }
}

#[test]
fn it_sends_an_over_75_percent_warning_message() {
    let mock_messenger = MockMessenger::new();
    let mut limit_tracker = LimitTracker::new(&mock_messenger, 100);

    limit_tracker.set_value(80);

    assert_eq!(mock_messenger.sent_messages.borrow().len(), 1);
}

fn messages_for(value: usize, max: usize) -> Vec<String> {
    let m = MockMessenger::new();
    let mut t = LimitTracker::new(&m, max);
    t.set_value(value);
    let v = m.sent_messages.borrow().clone();
    v
}

#[test]
fn tracker_sends_the_message_of_each_level() {
    assert_eq!(messages_for(80, 100), vec!["Warning: You've used up over 75% of your quota!".to_string()]);
    assert_eq!(messages_for(95, 100), vec!["Urgent warning: You've used up over 90% of your quota!".to_string()]);
    assert_eq!(messages_for(100, 100), vec!["Error: You are over your quota!".to_string()]);
    assert_eq!(messages_for(150, 100), vec!["Error: You are over your quota!".to_string()]);
    assert!(messages_for(74, 100).is_empty());
    assert!(messages_for(0, 100).is_empty());
}

#[test]
fn thresholds_are_inclusive() {
    assert_eq!(quota_warning(75, 100), Some(QuotaWarning::Warning));
    assert_eq!(quota_warning(3, 4), Some(QuotaWarning::Warning));
    assert_eq!(quota_warning(89, 100), Some(QuotaWarning::Warning));
    assert_eq!(quota_warning(90, 100), Some(QuotaWarning::Urgent));
    assert_eq!(quota_warning(9, 10), Some(QuotaWarning::Urgent));
    assert_eq!(quota_warning(99, 100), Some(QuotaWarning::Urgent));
    assert_eq!(quota_warning(100, 100), Some(QuotaWarning::OverQuota));
    assert_eq!(quota_warning(2, 3), None);
}

#[test]
fn zero_quota() {
    assert_eq!(quota_warning(0, 0), None);
    assert_eq!(quota_warning(1, 0), Some(QuotaWarning::OverQuota));
    assert!(messages_for(0, 0).is_empty());
}

#[test]
fn huge_values_do_not_overflow() {
    assert_eq!(quota_warning(usize::MAX, usize::MAX), Some(QuotaWarning::OverQuota));
    assert_eq!(quota_warning(usize::MAX - 1, usize::MAX), Some(QuotaWarning::Urgent));
    assert_eq!(quota_warning(usize::MAX / 2, usize::MAX), None);
}

#[test]
fn warning_grows_with_use() {
    let severity = |w: Option<QuotaWarning>| match w {
        None => 0,
        Some(QuotaWarning::Warning) => 1,
        Some(QuotaWarning::Urgent) => 2,
        Some(QuotaWarning::OverQuota) => 3,
    };
    let mut last = 0;
    for v in 0..=120usize {
        let s = severity(quota_warning(v, 100));
        assert!(s >= last);
        last = s;
    }
    assert_eq!(last, 3);
}

#[test]
fn only_the_ratio_matters() {
    for (v, m) in [(3usize, 4usize), (80, 100), (9, 10), (2, 3), (0, 0), (5, 0), (7, 7)] {
        for k in 1..5usize {
            assert_eq!(quota_warning(k * v, k * m), quota_warning(v, m));
        }
    }
}

#[test]
fn warning_messages() {
    assert_eq!(QuotaWarning::OverQuota.message(), "Error: You are over your quota!");
    assert_eq!(QuotaWarning::Urgent.message(), "Urgent warning: You've used up over 90% of your quota!");
    assert_eq!(QuotaWarning::Warning.message(), "Warning: You've used up over 75% of your quota!");
}
