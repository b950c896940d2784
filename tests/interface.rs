use emergent_empire::button::{Button, ButtonId, Event, EventQueue, Rect, EVENT_QUEUE_CAPACITY};
use emergent_empire::camera::Input;
use emergent_empire::mesh::vec_u32_from_vec_u16;
use emergent_empire::orbit::{Dir, DirTable, DIR_ONE};
use emergent_empire::scenes::{incr_num_planets, Gameplay, Match};
use emergent_empire::timestep::{FixedStep, DELTA_T};

fn quarter_table() -> DirTable {
    DirTable::new(vec![
        Dir { x: DIR_ONE, y: 0 },
        Dir { x: 0, y: DIR_ONE },
        Dir { x: -DIR_ONE, y: 0 },
        Dir { x: 0, y: -DIR_ONE },
    ])
    .unwrap()
}

fn idle() -> Input {
    Input {
        select_down: false,
        drag_down: false,
        pointer_dx: 0,
        pointer_dy: 0,
        scroll: 0,
        pointer_x: 0,
        pointer_y: 0,
        clicked: false,
    }
}

#[test]
fn event_queue_is_fifo_and_bounded() {
    let mut q = EventQueue::new();
    assert_eq!(q.pop(), None);
    assert!(q.push(Event::ButtonClicked(ButtonId::NextTurn)));
    assert_eq!(q.len(), 1);
    assert_eq!(q.pop(), Some(Event::ButtonClicked(ButtonId::NextTurn)));
    assert_eq!(q.pop(), None);
    for _ in 0..EVENT_QUEUE_CAPACITY {
        assert!(q.push(Event::ButtonClicked(ButtonId::NextTurn)));
    }
    assert!(!q.push(Event::ButtonClicked(ButtonId::NextTurn)));
    assert_eq!(q.len(), EVENT_QUEUE_CAPACITY);
}

#[test]
fn button_raises_event_only_when_hovered_and_clicked() {
    let b = Button::new(ButtonId::NextTurn, Rect { x: 10, y: 10, w: 90, h: 90 }, 1, 2);
    let mut q = EventQueue::new();
    assert!(!b.update(50, 50, false, &mut q));
    assert!(!b.update(5, 50, true, &mut q));
    assert!(!b.update(100, 50, true, &mut q));
    assert_eq!(q.len(), 0);
    assert!(b.update(10, 99, true, &mut q));
    assert_eq!(q.pop(), Some(Event::ButtonClicked(ButtonId::NextTurn)));
    assert_eq!(b.texture_at(50, 50), 2);
    assert_eq!(b.texture_at(0, 0), 1);
}

#[test]
fn fixed_step_catches_up() {
    let mut f = FixedStep::new(0, DELTA_T);
    f.begin_frame(50);
    assert!(f.tick_due());
    assert_eq!(f.drain(), 3);
    assert_eq!(f.lag, 2);
    assert!(!f.tick_due());
    f.begin_frame(40);
    assert_eq!(f.lag, 2);
    f.begin_frame(80);
    assert_eq!(f.lag, 42);
    assert!(!f.finish_tick(true));
    assert_eq!(f.lag, 42);
    assert!(f.finish_tick(false));
    assert_eq!(f.lag, 26);
    f.lag = u64::MAX - 1;
    f.begin_frame(100);
    assert_eq!(f.lag, u64::MAX);
}

#[test]
fn mesh_indices_widen() {
    assert_eq!(vec_u32_from_vec_u16(&vec![0, 7, 65535]), vec![0u32, 7, 65535]);
    assert_eq!(vec_u32_from_vec_u16(&vec![]), Vec::<u32>::new());
}

#[test]
fn planet_counter_counts() {
    let mut n: u32 = 0;
    assert_eq!(incr_num_planets(&mut n), 0);
    assert_eq!(incr_num_planets(&mut n), 1);
    assert_eq!(n, 2);
}

#[test]
fn next_turn_button_advances_turn() {
    let mut g = Gameplay::new(quarter_table(), 800, 600, 7, 8);
    assert_eq!(g.button().rect, Rect { x: 700, y: 480, w: 90, h: 90 });
    assert_eq!(g.current_turn(), 0);
    g.update(&Input { clicked: true, pointer_x: 750, pointer_y: 500, ..idle() }, 16);
    assert_eq!(g.current_turn(), 1);
    g.update(&Input { clicked: true, pointer_x: 10, pointer_y: 10, ..idle() }, 32);
    assert_eq!(g.current_turn(), 1);
    g.push_event(Event::ButtonClicked(ButtonId::NextTurn));
    g.push_event(Event::ButtonClicked(ButtonId::NextTurn));
    g.update(&idle(), 48);
    assert_eq!(g.current_turn(), 3);
    let s = g.system_ref();
    assert_eq!(s.len(), 4);
    let moon = s.body(3);
    let earth = s.body(2);
    assert_eq!(moon.parent_planet_id, 2);
    let cam = g.camera_rig();
    assert_eq!(cam.selection, 2);
    assert_eq!(cam.selected_pos, earth.position);
    assert_eq!(cam.selected_body_radius, 10_000);
}

#[test]
fn solar_system_scene() {
    let mut m = Match::new(quarter_table());
    assert_eq!(m.system_ref().len(), 16);
    m.update(&Input { select_down: true, ..idle() }, 16);
    let cam = m.camera_rig();
    assert_eq!(cam.selection, 4);
    let moon = m.system_ref().body(4);
    assert_eq!(cam.selected_pos, moon.position);
    let earth = m.system_ref().body(3);
    assert_eq!(moon.parent_planet_id, 3);
    let dx = (moon.position.x - earth.position.x).abs();
    let dy = (moon.position.y - earth.position.y).abs();
    assert_eq!(dx + dy, 603_400);
}
