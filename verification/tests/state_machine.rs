use iced_reorderable::{
    propagage_event_to_children, reorder, Column, DragState, Event, Layout, Notification, Outcome,
    Point, Rectangle, State,
};

/// `count` rows of height 20, 10 apart, 100 wide, the first at the top.
fn rows(count: i32) -> Layout {
    let mut children = Vec::new();
    for i in 0..count {
        children.push(Rectangle { left: 0, top: 30 * i, right: 100, bottom: 30 * i + 20 });
    }
    let bottom: i32 = if count == 0 { 0 } else { 30 * count - 10 };
    Layout { bounds: Rectangle { left: 0, top: 0, right: 100, bottom }, children }
}

fn letters() -> Column<char> {
    Column::from_keys(vec!['A', 'B', 'C', 'D', 'E'])
}

fn at(x: i32, y: i32) -> Option<Point> {
    Some(Point { x, y })
}

fn idle() -> State<char> {
    State::default()
}

fn nothing() -> Outcome<char> {
    Outcome { notifications: vec![], redraw: false }
}

#[test]
fn state_starts_idle() {
    let state: State<u32> = State::default();
    assert_eq!(state.drag, DragState::Idle);
    assert!(state.drag.is_idle());
    let drag: DragState<u32> = DragState::default();
    assert_eq!(drag, DragState::Idle);
}

#[test]
fn drag_state_accessors() {
    let origin = Point { x: 1, y: 2 };
    let position = Point { x: 3, y: 4 };
    let idle: DragState<u8> = DragState::Idle;
    assert_eq!(idle.key(), None);
    assert_eq!(idle.last_position(), None);
    assert_eq!(idle.drop_location(), None);
    assert!(idle.is_idle());
    let grabbed = DragState::Grabbed { key: 7u8, origin };
    assert_eq!(grabbed.key(), Some(7));
    assert_eq!(grabbed.last_position(), Some(origin));
    assert_eq!(grabbed.drop_location(), None);
    assert!(!grabbed.is_idle());
    let dragged = DragState::Dragged { key: 9u8, origin, position, drop_location: 3 };
    assert_eq!(dragged.key(), Some(9));
    assert_eq!(dragged.last_position(), Some(position));
    assert_eq!(dragged.drop_location(), Some(3));
    assert!(!dragged.is_idle());
}

#[test]
fn event_kinds() {
    assert!(Event::ButtonPressed.is_press());
    assert!(Event::FingerPressed.is_press());
    assert!(Event::ButtonReleased.is_release());
    assert!(Event::FingerLifted.is_release());
    assert!(Event::CursorMoved.is_move());
    assert!(Event::FingerMoved.is_move());
    assert!(Event::SecondaryPressed.is_abort());
    assert!(Event::FingerLost.is_abort());
    let all = [
        Event::ButtonPressed,
        Event::ButtonReleased,
        Event::SecondaryPressed,
        Event::CursorMoved,
        Event::FingerPressed,
        Event::FingerLifted,
        Event::FingerMoved,
        Event::FingerLost,
        Event::Other,
    ];
    for event in all {
        let kinds = [event.is_press(), event.is_release(), event.is_move(), event.is_abort()];
        let count = kinds.iter().filter(|kind| **kind).count();
        if event == Event::Other {
            assert_eq!(count, 0);
        } else {
            assert_eq!(count, 1);
        }
    }
}

#[test]
fn idle_list_hands_every_event_on_unchanged() {
    let drag: DragState<char> = DragState::Idle;
    for event in [Event::ButtonPressed, Event::CursorMoved, Event::FingerMoved, Event::Other] {
        assert_eq!(
            propagage_event_to_children(&drag, event, "pointer", "hidden"),
            Some((event, "pointer"))
        );
    }
    assert_eq!(
        propagage_event_to_children(&drag, Event::CursorMoved, at(5, 5), None),
        Some((Event::CursorMoved, at(5, 5)))
    );
}

#[test]
fn busy_list_keeps_movement_from_its_entries() {
    let origin = Point { x: 1, y: 2 };
    let grabbed = DragState::Grabbed { key: 'A', origin };
    let dragged = DragState::Dragged { key: 'A', origin, position: origin, drop_location: 0 };
    for drag in [grabbed, dragged] {
        assert_eq!(propagage_event_to_children(&drag, Event::CursorMoved, at(5, 5), None), None);
        assert_eq!(propagage_event_to_children(&drag, Event::FingerMoved, at(5, 5), None), None);
    }
}

#[test]
fn busy_list_hands_other_events_on_with_the_pointer_hidden() {
    let origin = Point { x: 1, y: 2 };
    let grabbed = DragState::Grabbed { key: 'A', origin };
    let dragged = DragState::Dragged { key: 'A', origin, position: origin, drop_location: 0 };
    for drag in [grabbed, dragged] {
        for event in [
            Event::ButtonPressed,
            Event::ButtonReleased,
            Event::SecondaryPressed,
            Event::FingerPressed,
            Event::FingerLifted,
            Event::FingerLost,
            Event::Other,
        ] {
            assert_eq!(
                propagage_event_to_children(&drag, event, "pointer", "hidden"),
                Some((event, "hidden"))
            );
        }
    }
}

#[test]
fn press_on_an_entry_grabs_it() {
    let column = letters();
    let layout = rows(5);
    for press in [Event::ButtonPressed, Event::FingerPressed] {
        let mut state = idle();
        let outcome = column.update(&mut state, press, &layout, at(40, 35), false);
        assert_eq!(
            outcome,
            Outcome { notifications: vec![Notification::Grab('B')], redraw: true }
        );
        assert_eq!(state.drag, DragState::Grabbed { key: 'B', origin: Point { x: 40, y: 35 } });
    }
}

#[test]
fn press_between_entries_grabs_nothing() {
    let column = letters();
    let layout = rows(5);
    let mut state = idle();
    let outcome = column.update(&mut state, Event::ButtonPressed, &layout, at(40, 25), false);
    assert_eq!(outcome, nothing());
    assert_eq!(state.drag, DragState::Idle);
}

#[test]
fn press_outside_the_list_grabs_nothing() {
    let column = letters();
    let mut layout = rows(5);
    // the first entry sticks out of the list to the right
    layout.children[0].right = 200;
    let mut state = idle();
    let outcome = column.update(&mut state, Event::ButtonPressed, &layout, at(150, 5), false);
    assert_eq!(outcome, nothing());
    assert_eq!(state.drag, DragState::Idle);
    let outcome = column.update(&mut state, Event::ButtonPressed, &layout, at(50, 500), false);
    assert_eq!(outcome, nothing());
}

#[test]
fn press_without_a_pointer_grabs_nothing() {
    let column = letters();
    let layout = rows(5);
    let mut state = idle();
    let outcome = column.update(&mut state, Event::ButtonPressed, &layout, None, false);
    assert_eq!(outcome, nothing());
    assert_eq!(state.drag, DragState::Idle);
}

#[test]
fn press_that_an_entry_claimed_grabs_nothing() {
    let column = letters();
    let layout = rows(5);
    let mut state = idle();
    let outcome = column.update(&mut state, Event::ButtonPressed, &layout, at(40, 35), true);
    assert_eq!(outcome, nothing());
    assert_eq!(state.drag, DragState::Idle);
}

#[test]
fn press_on_overlapping_entries_grabs_the_first() {
    let column = letters();
    let mut layout = rows(5);
    layout.children[2].top = 15;
    let mut state = idle();
    let outcome = column.update(&mut state, Event::ButtonPressed, &layout, at(10, 18), false);
    assert_eq!(outcome.notifications, vec![Notification::Grab('A')]);
    let mut state = idle();
    let outcome = column.update(&mut state, Event::ButtonPressed, &layout, at(10, 22), false);
    assert_eq!(outcome.notifications, vec![Notification::Grab('C')]);
}

#[test]
fn press_on_an_entry_without_a_key_grabs_nothing() {
    let column = Column::from_keys(vec!['A', 'B']);
    let layout = rows(5);
    let mut state = idle();
    let outcome = column.update(&mut state, Event::ButtonPressed, &layout, at(40, 65), false);
    assert_eq!(outcome, nothing());
    let outcome = column.update(&mut state, Event::ButtonPressed, &layout, at(40, 35), false);
    assert_eq!(outcome.notifications, vec![Notification::Grab('B')]);
}

#[test]
fn press_while_an_entry_is_held_is_ignored() {
    let column = letters();
    let layout = rows(5);
    let origin = Point { x: 40, y: 35 };
    let held = [
        DragState::Grabbed { key: 'B', origin },
        DragState::Dragged { key: 'B', origin, position: origin, drop_location: 1 },
    ];
    for drag in held {
        let mut state = State { drag };
        let outcome = column.update(&mut state, Event::FingerPressed, &layout, at(40, 95), false);
        assert_eq!(outcome, nothing());
        assert_eq!(state.drag, drag);
    }
}

#[test]
fn press_with_centering_starts_the_drag_at_once() {
    let column = letters().drag_center(true);
    let layout = rows(5);
    let mut state = idle();
    let outcome = column.update(&mut state, Event::ButtonPressed, &layout, at(40, 65), false);
    assert_eq!(
        outcome,
        Outcome {
            notifications: vec![Notification::Grab('C'), Notification::Drag('C', 2)],
            redraw: true,
        }
    );
    assert_eq!(
        state.drag,
        DragState::Dragged {
            key: 'C',
            origin: Point { x: 50, y: 70 },
            position: Point { x: 50, y: 65 },
            drop_location: 2,
        }
    );
}

#[test]
fn press_with_centering_and_lateral_follow_keeps_the_pointer_column() {
    let column = letters().drag_center(true).drag_lateral(true);
    let layout = rows(5);
    let mut state = idle();
    let outcome = column.update(&mut state, Event::ButtonPressed, &layout, at(40, 75), false);
    assert_eq!(
        outcome.notifications,
        vec![Notification::Grab('C'), Notification::Drag('C', 3)]
    );
    assert_eq!(
        state.drag,
        DragState::Dragged {
            key: 'C',
            origin: Point { x: 50, y: 70 },
            position: Point { x: 40, y: 75 },
            drop_location: 3,
        }
    );
}

#[test]
fn press_then_release_cancels_and_never_drops() {
    let column = letters();
    let layout = rows(5);
    for (press, release) in [
        (Event::ButtonPressed, Event::ButtonReleased),
        (Event::FingerPressed, Event::FingerLifted),
    ] {
        let mut state = idle();
        let mut told = column.update(&mut state, press, &layout, at(40, 35), false).notifications;
        let outcome = column.update(&mut state, release, &layout, at(40, 35), false);
        assert!(!outcome.redraw);
        told.extend(outcome.notifications);
        assert_eq!(told, vec![Notification::Grab('B'), Notification::Cancel('B')]);
        assert_eq!(state.drag, DragState::Idle);
    }
}

#[test]
fn release_while_idle_does_nothing() {
    let column = letters();
    let layout = rows(5);
    let mut state = idle();
    let outcome = column.update(&mut state, Event::ButtonReleased, &layout, at(40, 35), false);
    assert_eq!(outcome, nothing());
    assert_eq!(state.drag, DragState::Idle);
}

#[test]
fn move_while_idle_repaints_only_over_the_list() {
    let column = letters();
    let layout = rows(5);
    let mut state = idle();
    let outcome = column.update(&mut state, Event::CursorMoved, &layout, at(40, 25), false);
    assert_eq!(outcome, Outcome { notifications: vec![], redraw: true });
    let outcome = column.update(&mut state, Event::CursorMoved, &layout, at(400, 25), false);
    assert_eq!(outcome, nothing());
    let outcome = column.update(&mut state, Event::FingerMoved, &layout, None, false);
    assert_eq!(outcome, nothing());
    assert_eq!(state.drag, DragState::Idle);
}

#[test]
fn first_move_turns_a_grab_into_a_drag() {
    let column = letters();
    let layout = rows(5);
    let origin = Point { x: 40, y: 35 };
    let mut state = State { drag: DragState::Grabbed { key: 'B', origin } };
    let outcome = column.update(&mut state, Event::CursorMoved, &layout, at(47, 36), false);
    assert_eq!(
        outcome,
        Outcome { notifications: vec![Notification::Drag('B', 1)], redraw: false }
    );
    assert_eq!(
        state.drag,
        DragState::Dragged { key: 'B', origin, position: Point { x: 40, y: 36 }, drop_location: 1 }
    );
}

#[test]
fn move_to_the_recorded_position_does_nothing() {
    let column = letters().drag_follow(true);
    let layout = rows(5);
    let origin = Point { x: 40, y: 35 };
    let grabbed = DragState::Grabbed { key: 'B', origin };
    let mut state = State { drag: grabbed };
    let outcome = column.update(&mut state, Event::CursorMoved, &layout, at(40, 35), false);
    assert_eq!(outcome, nothing());
    assert_eq!(state.drag, grabbed);
    let dragged =
        DragState::Dragged { key: 'B', origin, position: Point { x: 40, y: 80 }, drop_location: 3 };
    let mut state = State { drag: dragged };
    let outcome = column.update(&mut state, Event::FingerMoved, &layout, at(40, 80), false);
    assert_eq!(outcome, nothing());
    assert_eq!(state.drag, dragged);
}

#[test]
fn move_without_a_pointer_does_nothing() {
    let column = letters().drag_follow(true);
    let layout = rows(5);
    let origin = Point { x: 40, y: 35 };
    let dragged =
        DragState::Dragged { key: 'B', origin, position: Point { x: 40, y: 80 }, drop_location: 3 };
    let mut state = State { drag: dragged };
    let outcome = column.update(&mut state, Event::CursorMoved, &layout, None, false);
    assert_eq!(outcome, nothing());
    assert_eq!(state.drag, dragged);
}

#[test]
fn move_tells_of_a_new_drop_location_only() {
    let column = letters();
    let layout = rows(5);
    let origin = Point { x: 40, y: 35 };
    let mut state = State { drag: DragState::Grabbed { key: 'B', origin } };
    let mut told = Vec::new();
    for y in 36..135 {
        told.extend(column.update(&mut state, Event::CursorMoved, &layout, at(40, y), false).notifications);
    }
    assert_eq!(
        told,
        vec![
            Notification::Drag('B', 1),
            Notification::Drag('B', 2),
            Notification::Drag('B', 3),
            Notification::Drag('B', 4),
            Notification::Drag('B', 5),
        ]
    );
    assert_eq!(state.drag.drop_location(), Some(5));
}

#[test]
fn move_repaints_only_where_the_entry_follows() {
    let layout = rows(5);
    let origin = Point { x: 40, y: 35 };
    for follow in [false, true] {
        let column = letters().drag_follow(follow);
        let mut state = State { drag: DragState::Grabbed { key: 'B', origin } };
        let outcome = column.update(&mut state, Event::CursorMoved, &layout, at(41, 36), false);
        assert_eq!(outcome.redraw, follow);
        let outcome = column.update(&mut state, Event::CursorMoved, &layout, at(41, 37), false);
        assert_eq!(outcome.redraw, follow);
        assert!(outcome.notifications.is_empty());
    }
}

#[test]
fn move_is_pinned_to_the_origin_column_without_lateral_follow() {
    let layout = rows(5);
    let origin = Point { x: 40, y: 35 };
    let column = letters();
    let mut state = State { drag: DragState::Grabbed { key: 'B', origin } };
    column.update(&mut state, Event::CursorMoved, &layout, at(90, 50), false);
    assert_eq!(state.drag.last_position(), Some(Point { x: 40, y: 50 }));
    let column = letters().drag_lateral(true);
    let mut state = State { drag: DragState::Grabbed { key: 'B', origin } };
    column.update(&mut state, Event::CursorMoved, &layout, at(90, 50), false);
    assert_eq!(state.drag.last_position(), Some(Point { x: 90, y: 50 }));
}

#[test]
fn release_while_dragged_drops_where_the_pointer_is() {
    let column = letters();
    let layout = rows(5);
    let origin = Point { x: 40, y: 35 };
    let dragged =
        DragState::Dragged { key: 'B', origin, position: Point { x: 40, y: 105 }, drop_location: 4 };
    for release in [Event::ButtonReleased, Event::FingerLifted] {
        let mut state = State { drag: dragged };
        let outcome = column.update(&mut state, release, &layout, at(40, 105), false);
        assert_eq!(
            outcome,
            Outcome { notifications: vec![Notification::Drop('B', 4)], redraw: false }
        );
        assert_eq!(state.drag, DragState::Idle);
    }
    let mut state = State { drag: dragged };
    let outcome = column.update(&mut state, Event::ButtonReleased, &layout, at(90, 45), true);
    assert_eq!(outcome.notifications, vec![Notification::Drop('B', 2)]);
    assert_eq!(state.drag, DragState::Idle);
}

#[test]
fn release_without_a_pointer_drops_at_the_recorded_position() {
    let column = letters();
    let layout = rows(5);
    let origin = Point { x: 40, y: 35 };
    let dragged =
        DragState::Dragged { key: 'B', origin, position: Point { x: 40, y: 105 }, drop_location: 1 };
    let mut state = State { drag: dragged };
    let outcome = column.update(&mut state, Event::FingerLifted, &layout, None, false);
    assert_eq!(outcome, Outcome { notifications: vec![Notification::Drop('B', 4)], redraw: false });
    assert_eq!(state.drag, DragState::Idle);
}

#[test]
fn release_works_out_the_drop_location_from_the_layout_at_hand() {
    let column = letters();
    let origin = Point { x: 40, y: 35 };
    let dragged =
        DragState::Dragged { key: 'B', origin, position: Point { x: 40, y: 105 }, drop_location: 4 };
    let mut state = State { drag: dragged };
    // meanwhile the list has lost two entries
    let outcome = column.update(&mut state, Event::ButtonReleased, &rows(3), None, false);
    assert_eq!(outcome.notifications, vec![Notification::Drop('B', 3)]);
}

#[test]
fn secondary_press_while_dragging_cancels_once() {
    let column = letters();
    let layout = rows(5);
    let origin = Point { x: 40, y: 35 };
    let dragged =
        DragState::Dragged { key: 'B', origin, position: Point { x: 40, y: 105 }, drop_location: 4 };
    for abort in [Event::SecondaryPressed, Event::FingerLost] {
        let mut state = State { drag: dragged };
        let outcome = column.update(&mut state, abort, &layout, at(40, 105), false);
        assert_eq!(
            outcome,
            Outcome { notifications: vec![Notification::Cancel('B')], redraw: true }
        );
        assert_eq!(state.drag, DragState::Idle);
        let outcome = column.update(&mut state, abort, &layout, at(40, 105), false);
        assert_eq!(outcome, nothing());
    }
}

#[test]
fn secondary_press_while_grabbed_cancels() {
    let column = letters();
    let layout = rows(5);
    let mut state = State { drag: DragState::Grabbed { key: 'D', origin: Point { x: 1, y: 95 } } };
    let outcome = column.update(&mut state, Event::SecondaryPressed, &layout, None, true);
    assert_eq!(outcome, Outcome { notifications: vec![Notification::Cancel('D')], redraw: true });
    assert_eq!(state.drag, DragState::Idle);
}

#[test]
fn secondary_press_while_idle_does_nothing() {
    let column = letters();
    let layout = rows(5);
    let mut state = idle();
    let outcome = column.update(&mut state, Event::SecondaryPressed, &layout, at(40, 35), false);
    assert_eq!(outcome, nothing());
    assert_eq!(state.drag, DragState::Idle);
}

#[test]
fn other_events_do_nothing() {
    let column = letters().drag_follow(true);
    let layout = rows(5);
    let origin = Point { x: 40, y: 35 };
    let states = [
        DragState::Idle,
        DragState::Grabbed { key: 'B', origin },
        DragState::Dragged { key: 'B', origin, position: origin, drop_location: 1 },
    ];
    for drag in states {
        let mut state = State { drag };
        let outcome = column.update(&mut state, Event::Other, &layout, at(40, 95), false);
        assert_eq!(outcome, nothing());
        assert_eq!(state.drag, drag);
    }
}

#[test]
fn drop_location_of_the_state_stays_within_the_list() {
    let column = letters().drag_center(true).drag_lateral(true);
    let layout = rows(5);
    let mut state = idle();
    let events = [
        (Event::ButtonPressed, at(10, 5)),
        (Event::CursorMoved, at(10, -400)),
        (Event::CursorMoved, at(10, 4000)),
        (Event::CursorMoved, at(-10, 70)),
        (Event::Other, None),
        (Event::CursorMoved, None),
        (Event::CursorMoved, at(10, i32::MAX)),
        (Event::CursorMoved, at(10, i32::MIN)),
    ];
    for (event, cursor) in events {
        let outcome = column.update(&mut state, event, &layout, cursor, false);
        for notification in outcome.notifications {
            if let Notification::Drag(_, location) = notification {
                assert!(location <= 5);
            }
        }
        if let Some(location) = state.drag.drop_location() {
            assert!(location <= 5);
        }
    }
}

#[test]
fn grab_second_of_five_and_drop_it_at_location_four() {
    let mut items = vec!['A', 'B', 'C', 'D', 'E'];
    let column = Column::from_keys(vec![0usize, 1, 2, 3, 4]).drag_follow(true);
    let layout = rows(5);
    let mut state: State<usize> = State::default();
    let mut told = Vec::new();
    told.extend(column.update(&mut state, Event::ButtonPressed, &layout, at(40, 35), false).notifications);
    for y in [50, 75, 99, 100, 105] {
        told.extend(column.update(&mut state, Event::CursorMoved, &layout, at(40, y), false).notifications);
    }
    assert_eq!(state.drag.drop_location(), Some(4));
    told.extend(column.update(&mut state, Event::ButtonReleased, &layout, at(40, 105), false).notifications);
    assert_eq!(
        told,
        vec![
            Notification::Grab(1),
            Notification::Drag(1, 2),
            Notification::Drag(1, 3),
            Notification::Drag(1, 4),
            Notification::Drop(1, 4),
        ]
    );
    assert_eq!(state.drag, DragState::Idle);
    if let Some(Notification::Drop(key, location)) = told.last() {
        reorder(&mut items, *key, *location);
    }
    assert_eq!(items, vec!['A', 'C', 'D', 'B', 'E']);
}

#[test]
fn grab_second_of_five_and_drop_it_behind_the_last() {
    let mut items = vec!['A', 'B', 'C', 'D', 'E'];
    let column = Column::from_keys(vec![0usize, 1, 2, 3, 4]);
    let layout = rows(5);
    let mut state: State<usize> = State::default();
    column.update(&mut state, Event::FingerPressed, &layout, at(40, 35), false);
    column.update(&mut state, Event::FingerMoved, &layout, at(40, 139), false);
    let outcome = column.update(&mut state, Event::FingerLifted, &layout, at(40, 139), false);
    assert_eq!(outcome.notifications, vec![Notification::Drop(1, 5)]);
    reorder(&mut items, 1, 5);
    assert_eq!(items, vec!['A', 'C', 'D', 'E', 'B']);
}

#[test]
fn grab_first_and_drop_it_at_location_zero() {
    let mut items = vec!['A', 'B', 'C', 'D', 'E'];
    let column = Column::from_keys(vec![0usize, 1, 2, 3, 4]);
    let layout = rows(5);
    let mut state: State<usize> = State::default();
    let mut told = Vec::new();
    told.extend(column.update(&mut state, Event::ButtonPressed, &layout, at(40, 15), false).notifications);
    told.extend(column.update(&mut state, Event::CursorMoved, &layout, at(40, 5), false).notifications);
    assert_eq!(state.drag.drop_location(), Some(0));
    told.extend(column.update(&mut state, Event::ButtonReleased, &layout, at(40, 5), false).notifications);
    assert_eq!(
        told,
        vec![Notification::Grab(0), Notification::Drag(0, 0), Notification::Drop(0, 0)]
    );
    reorder(&mut items, 0, 0);
    assert_eq!(items, vec!['A', 'B', 'C', 'D', 'E']);
}
