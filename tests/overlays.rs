use stocks_dashboard::overlay::{
    hotkey_of, hotkey_target, mouse_action, queue_click, MouseAction, OverlayArbiter,
    OverlayCommand, OverlayState, Rect, TargetAreas, UiTarget,
};

fn rect(x: u16, y: u16, width: u16, height: u16) -> Rect {
    Rect { x, y, width, height }
}

#[test]
fn hotkeys_map_both_ways() {
    for t in [UiTarget::IndicatorMenu, UiTarget::StockSymbolField, UiTarget::TimeFrameMenu] {
        let c = hotkey_of(t).unwrap();
        assert_eq!(hotkey_target(c), Some(t));
    }
    assert_eq!(hotkey_target('i'), Some(UiTarget::IndicatorMenu));
    assert_eq!(hotkey_target('s'), Some(UiTarget::StockSymbolField));
    assert_eq!(hotkey_target('t'), Some(UiTarget::TimeFrameMenu));
    assert_eq!(hotkey_target('x'), None);
    assert_eq!(hotkey_of(UiTarget::TimeFrameBox), None);
}

#[test]
fn topmost_area_wins() {
    let areas = TargetAreas {
        areas: vec![
            (UiTarget::TimeFrameBox, rect(0, 0, 10, 3)),
            (UiTarget::TimeFrameMenu, rect(0, 2, 10, 12)),
        ],
    };
    assert_eq!(areas.hit_test(1, 1), Some(UiTarget::TimeFrameBox));
    assert_eq!(areas.hit_test(1, 2), Some(UiTarget::TimeFrameMenu));
    assert_eq!(areas.hit_test(10, 1), None);
    assert_eq!(areas.area_of(UiTarget::TimeFrameMenu), Some(rect(0, 2, 10, 12)));
    assert_eq!(areas.area_of(UiTarget::IndicatorBox), None);
}

#[test]
fn rectangle_edges() {
    let r = rect(65530, 65530, 6, 6);
    assert!(r.contains(65535, 65535));
    assert!(!r.contains(65529, 65535));
    assert!(!rect(0, 0, 0, 5).contains(0, 0));
}

#[test]
fn toggling_is_mutually_exclusive() {
    let mut a = OverlayArbiter::new();
    a.queue(OverlayCommand::Toggle(UiTarget::TimeFrameMenu));
    assert_eq!(a.active, None);
    a.flush();
    assert_eq!(a.active, Some(UiTarget::TimeFrameMenu));
    a.queue(OverlayCommand::Toggle(UiTarget::IndicatorMenu));
    a.flush();
    assert_eq!(a.state_of(UiTarget::IndicatorMenu), OverlayState::Active);
    assert_eq!(a.state_of(UiTarget::TimeFrameMenu), OverlayState::Inactive);
    a.queue(OverlayCommand::Toggle(UiTarget::IndicatorMenu));
    a.flush();
    assert_eq!(a.active, None);
    assert!(a.pending.is_empty());
}

#[test]
fn close_only_closes_its_own_overlay() {
    let mut a = OverlayArbiter::new();
    a.queue(OverlayCommand::Toggle(UiTarget::StockSymbolField));
    a.queue(OverlayCommand::Close(UiTarget::TimeFrameMenu));
    a.flush();
    assert_eq!(a.active, Some(UiTarget::StockSymbolField));
    a.queue(OverlayCommand::Close(UiTarget::StockSymbolField));
    a.flush();
    assert_eq!(a.active, None);
}

#[test]
fn behaviour_tables() {
    assert_eq!(
        mouse_action(UiTarget::StockSymbolField, Some(UiTarget::StockNameButton)),
        Some(MouseAction::Toggle)
    );
    assert_eq!(
        mouse_action(UiTarget::StockSymbolField, Some(UiTarget::StockSymbolButton)),
        Some(MouseAction::Toggle)
    );
    assert_eq!(
        mouse_action(UiTarget::TimeFrameMenu, Some(UiTarget::TimeFrameBox)),
        Some(MouseAction::Toggle)
    );
    assert_eq!(mouse_action(UiTarget::IndicatorMenu, None), Some(MouseAction::Deactivate));
    assert_eq!(mouse_action(UiTarget::IndicatorMenu, Some(UiTarget::TimeFrameBox)), None);
}

#[test]
fn click_on_box_opens_and_miss_closes() {
    let mut a = OverlayArbiter::new();
    queue_click(&mut a, Some(UiTarget::IndicatorBox));
    assert_eq!(a.pending, vec![OverlayCommand::Toggle(UiTarget::IndicatorMenu)]);
    a.flush();
    assert_eq!(a.active, Some(UiTarget::IndicatorMenu));
    queue_click(&mut a, None);
    assert_eq!(
        a.pending,
        vec![
            OverlayCommand::Close(UiTarget::StockSymbolField),
            OverlayCommand::Close(UiTarget::TimeFrameMenu),
            OverlayCommand::Close(UiTarget::IndicatorMenu),
        ]
    );
    a.flush();
    assert_eq!(a.active, None);
}
