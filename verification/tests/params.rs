use nbody::fixed::{Fixed, ONE};
use nbody::sim::{Bodies, Body, ParamsError};

fn whole(v: i64) -> Fixed {
    Fixed { raw: v * ONE }
}

fn body(x: i64, y: i64, vx: i64, vy: i64, m: i64) -> Body<Fixed> {
    Body { x: whole(x), y: whole(y), vx: whole(vx), vy: whole(vy), m: whole(m) }
}

fn three() -> Bodies<Fixed, 3> {
    let bodies = [body(-1, 0, 0, 1, 1), body(1, 0, 0, -1, 2), body(0, 2, 3, 0, 3)];
    Bodies::from_bodies(&bodies, whole(1)).unwrap()
}

#[test]
fn fromparams_takes_position_velocity_and_mass_in_order() {
    let b = Body::fromparams(&[10, 20, 30, 40, 50]);
    assert_eq!((b.x, b.y, b.vx, b.vy, b.m), (10, 20, 30, 40, 50));
}

#[test]
fn fromparams_reads_only_the_first_five() {
    let b = Body::fromparams(&[1, 2, 3, 4, 5, 6, 7]);
    assert_eq!((b.x, b.y, b.vx, b.vy, b.m), (1, 2, 3, 4, 5));
}

#[test]
fn all_fromparams_reads_five_numbers_for_each_body() {
    let bodies = Body::all_fromparams(&[1, 2, 3, 4, 5, 6, 7, 8, 9, 10]).unwrap();
    assert_eq!(bodies.len(), 2);
    assert_eq!((bodies[0].x, bodies[0].y, bodies[0].vx, bodies[0].vy, bodies[0].m), (1, 2, 3, 4, 5));
    assert_eq!((bodies[1].x, bodies[1].y, bodies[1].vx, bodies[1].vy, bodies[1].m), (6, 7, 8, 9, 10));
}

#[test]
fn all_fromparams_reads_one_body() {
    let bodies = Body::all_fromparams(&[9u8, 8, 7, 6, 5]).unwrap();
    assert_eq!(bodies.len(), 1);
    assert_eq!(bodies[0].m, 5);
}

#[test]
fn all_fromparams_turns_down_an_empty_list() {
    let none: [i32; 0] = [];
    assert_eq!(Body::all_fromparams(&none).err(), Some(ParamsError::Empty));
}

#[test]
fn all_fromparams_turns_down_a_list_that_is_no_multiple_of_five() {
    assert_eq!(Body::all_fromparams(&[1, 2, 3, 4]).err(), Some(ParamsError::Ragged { len: 4 }));
    assert_eq!(
        Body::all_fromparams(&[1, 2, 3, 4, 5, 6, 7]).err(),
        Some(ParamsError::Ragged { len: 7 })
    );
    assert_eq!(
        Body::all_fromparams(&[1, 2, 3, 4, 5, 6, 7, 8, 9, 10, 11]).err(),
        Some(ParamsError::Ragged { len: 11 })
    );
}

#[test]
fn from_bodies_fills_one_lane_for_each_body() {
    let s = three();
    assert_eq!(s.x, [whole(-1), whole(1), whole(0)]);
    assert_eq!(s.y, [whole(0), whole(0), whole(2)]);
    assert_eq!(s.vx, [whole(0), whole(0), whole(3)]);
    assert_eq!(s.vy, [whole(1), whole(-1), whole(0)]);
    assert_eq!(s.m, [whole(1), whole(2), whole(3)]);
    assert_eq!(s.big_g, whole(1));
}

#[test]
fn from_bodies_turns_down_a_wrong_number_of_bodies() {
    let bodies = [body(-1, 0, 0, 1, 1), body(1, 0, 0, -1, 2)];
    assert!(Bodies::<Fixed, 3>::from_bodies(&bodies, whole(1)).is_none());
    assert!(Bodies::<Fixed, 1>::from_bodies(&bodies, whole(1)).is_none());
    assert!(Bodies::<Fixed, 0>::from_bodies(&bodies, whole(1)).is_none());
    assert!(Bodies::<Fixed, 2>::from_bodies(&bodies, whole(1)).is_some());
}

#[test]
fn from_bodies_makes_an_empty_state_of_no_bodies() {
    let s = Bodies::<Fixed, 0>::from_bodies(&[], whole(7)).unwrap();
    assert_eq!(s.big_g, whole(7));
    assert_eq!(s.x.len(), 0);
}

#[test]
fn body_gives_each_lane_back() {
    let s = three();
    let b = s.body(2);
    assert_eq!((b.x, b.y, b.vx, b.vy, b.m), (whole(0), whole(2), whole(3), whole(0), whole(3)));
    let a = s.body(0);
    assert_eq!((a.x, a.y, a.vx, a.vy, a.m), (whole(-1), whole(0), whole(0), whole(1), whole(1)));
}

#[test]
fn com_is_the_mean_position_whatever_the_masses() {
    let s = three();
    let (cx, cy) = s.com();
    assert_eq!(cx, whole(0));
    assert_eq!(cy, Fixed { raw: 2863311530 });
}

#[test]
fn tam_of_one_body_about_a_pivot() {
    let s = Bodies::<Fixed, 1>::from_bodies(&[body(3, 4, 5, 6, 2)], whole(1)).unwrap();
    assert_eq!(s.tam(whole(1), whole(1)), whole(6));
    assert_eq!(s.tam(whole(0), whole(0)), whole(4));
    assert_eq!(s.tam(whole(3), whole(4)), whole(0));
}

#[test]
fn tam_adds_up_over_the_bodies() {
    let s = three();
    assert_eq!(s.tam(whole(0), whole(0)), whole(21));
    assert_eq!(s.tam(whole(1), whole(-1)), whole(29));
}
