use monitor_ui::{UiTabs, TAB_COUNT};

#[test]
fn tab_order_and_indices() {
    let all = UiTabs::all();
    assert_eq!(all.len(), TAB_COUNT);
    for (i, t) in all.iter().enumerate() {
        assert_eq!(t.index(), i);
        assert_eq!(UiTabs::from_repr(i), Some(*t));
    }
    assert_eq!(UiTabs::from_repr(TAB_COUNT), None);
    assert_eq!(UiTabs::default(), UiTabs::Summary);
}

#[test]
fn next_stops_at_last_tab() {
    assert_eq!(UiTabs::Summary.next(), UiTabs::Network);
    assert_eq!(UiTabs::Dmesg.next(), UiTabs::EvalStatus);
    assert_eq!(UiTabs::EvalStatus.next(), UiTabs::EvalStatus);
}

#[test]
fn previous_stops_at_first_tab() {
    assert_eq!(UiTabs::Network.previous(), UiTabs::Summary);
    assert_eq!(UiTabs::EvalStatus.previous(), UiTabs::Dmesg);
    assert_eq!(UiTabs::Summary.previous(), UiTabs::Summary);
}

#[test]
fn next_then_previous_round_trip() {
    for t in UiTabs::all() {
        if t != UiTabs::EvalStatus {
            assert_eq!(t.next().previous(), t);
        }
        if t != UiTabs::Summary {
            assert_eq!(t.previous().next(), t);
        }
    }
}

#[test]
fn tab_titles_are_padded_labels() {
    assert_eq!(UiTabs::Summary.to_tab_title(), " Summary ");
    assert_eq!(UiTabs::EvalStatus.label(), "Eval Status");
    assert_eq!(UiTabs::EvalStatus.to_tab_title(), " Eval Status ");
    assert_eq!(UiTabs::Dmesg.to_tab_title(), " Dmesg ");
}
