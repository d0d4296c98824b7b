use ui::components::toast::{Toast, ToastManager, ToastStatus};
use ui::icons::action;

#[test]
fn status_icons() {
    assert_eq!(ToastStatus::Success.icon(), action::CHECK);
    assert_eq!(ToastStatus::Error.icon(), action::CLOSE);
    assert_eq!(ToastStatus::Warning.icon(), action::WARNING);
    assert_eq!(ToastStatus::Info.icon(), action::INFO);
}

#[test]
fn toasts_get_increasing_ids() {
    let mut m = ToastManager::new();
    assert!(!m.has_toasts());
    assert!(m.has_room());
    m.push_error("e".to_string(), "bad".to_string(), 5);
    m.push_success("s".to_string(), "good".to_string(), 5);
    m.push_warning("w".to_string(), "hm".to_string(), 5);
    m.push_info("i".to_string(), "fyi".to_string(), 5);
    assert!(m.has_toasts());
    let ids: Vec<usize> = m.toasts().iter().map(|t| t.id).collect();
    assert_eq!(ids, vec![0, 1, 2, 3]);
    let kinds: Vec<ToastStatus> = m.toasts().iter().map(|t| t.status).collect();
    assert_eq!(kinds, vec![ToastStatus::Error, ToastStatus::Success, ToastStatus::Warning, ToastStatus::Info]);
    assert_eq!(m.toasts()[1].message, "good");
}

#[test]
fn dismiss_removes_only_that_toast() {
    let mut m = ToastManager::new();
    for i in 0..4 {
        m.push(format!("t{i}"), String::new(), ToastStatus::Info, 5);
    }
    m.dismiss(2);
    let ids: Vec<usize> = m.toasts().iter().map(|t| t.id).collect();
    assert_eq!(ids, vec![0, 1, 3]);
    m.dismiss(42);
    assert_eq!(m.toasts().len(), 3);
    m.push("n".to_string(), String::new(), ToastStatus::Info, 5);
    assert_eq!(m.toasts().last().unwrap().id, 4);
}

#[test]
fn retain_by_flags() {
    let mut m = ToastManager::new();
    for _ in 0..3 {
        m.push(String::new(), String::new(), ToastStatus::Info, 5);
    }
    m.retain_flagged(&vec![true, false, true]);
    let ids: Vec<usize> = m.toasts().iter().map(|t| t.id).collect();
    assert_eq!(ids, vec![0, 2]);
}

#[test]
fn expiry() {
    let t = Toast::new(0, "a".to_string(), "b".to_string(), ToastStatus::Info, 3);
    assert!(!t.expired_after(2_999_999_999));
    assert!(t.expired_after(3_000_000_000));
    assert!(!t.is_expired());
    let zero = Toast::new(1, String::new(), String::new(), ToastStatus::Info, 0);
    assert!(zero.is_expired());
    let mut m = ToastManager::new();
    m.push(String::new(), String::new(), ToastStatus::Info, 0);
    m.push(String::new(), String::new(), ToastStatus::Info, 600);
    m.remove_expired();
    let ids: Vec<usize> = m.toasts().iter().map(|t| t.id).collect();
    assert_eq!(ids, vec![1]);
}

#[test]
fn newest_first_positions() {
    let mut m = ToastManager::new();
    for _ in 0..5 {
        m.push(String::new(), String::new(), ToastStatus::Info, 5);
    }
    assert_eq!(m.newest_first(3), vec![4, 3, 2]);
    assert_eq!(m.newest_first(10), vec![4, 3, 2, 1, 0]);
    assert_eq!(m.newest_first(0), Vec::<usize>::new());
}

#[test]
fn expiry_by_readings() {
    let mut m = ToastManager::new();
    m.push(String::new(), String::new(), ToastStatus::Info, 2);
    m.push(String::new(), String::new(), ToastStatus::Info, 5);
    m.push(String::new(), String::new(), ToastStatus::Info, 0);
    m.retain_unexpired(&vec![2_000_000_000, 4_999_999_999, 0]);
    let ids: Vec<usize> = m.toasts().iter().map(|t| t.id).collect();
    assert_eq!(ids, vec![1]);
    assert_eq!(m.toasts()[0].duration_secs, 5);
}
