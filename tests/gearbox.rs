use onboard::physics::{Gearbox, GearboxError};

fn scenario_box() -> Gearbox<2, 2> {
    // ratios [2.0, 1.0] and [1.0, 0.5], written in thousandths
    Gearbox::new([2000, 1000], [1000, 500])
}

#[test]
fn new_selects_first_gears() {
    let g = scenario_box();
    assert_eq!(g.current_input, 0);
    assert_eq!(g.current_output, 0);
}

#[test]
fn transform_first_gears() {
    let g = scenario_box();
    assert_eq!(g.transform(10), 20);
}

#[test]
fn transform_after_output_gear() {
    let mut g = scenario_box();
    assert!(g.set_output_gear(1).is_ok());
    assert_eq!(g.current_output, 1);
    assert_eq!(g.transform(10), 40);
}

#[test]
fn transform_every_pair() {
    let mut g = scenario_box();
    let expected = [[20u128, 40], [10, 20]];
    for i in 0..2 {
        for j in 0..2 {
            g.set_input_gear(i).unwrap();
            g.set_output_gear(j).unwrap();
            assert_eq!(g.transform(10), expected[i][j]);
        }
    }
}

#[test]
fn transform_rounds_down() {
    let g: Gearbox<1, 1> = Gearbox::new([1], [3]);
    assert_eq!(g.transform(10), 3);
}

#[test]
fn transform_largest_values() {
    let g: Gearbox<1, 1> = Gearbox::new([u64::MAX], [1]);
    assert_eq!(g.transform(u64::MAX), (u64::MAX as u128) * (u64::MAX as u128));
}

#[test]
fn invalid_input_gear_rejected() {
    let mut g = scenario_box();
    g.set_output_gear(1).unwrap();
    assert_eq!(g.set_input_gear(5), Err(GearboxError::InvalidGear(5)));
    assert_eq!(g.current_input, 0);
    assert_eq!(g.current_output, 1);
    assert_eq!(g.transform(10), 40);
}

#[test]
fn invalid_output_gear_rejected() {
    let mut g = scenario_box();
    assert_eq!(g.set_output_gear(2), Err(GearboxError::InvalidGear(2)));
    assert_eq!(g.current_input, 0);
    assert_eq!(g.current_output, 0);
}

#[test]
fn input_gear_selected() {
    let mut g = scenario_box();
    assert_eq!(g.set_input_gear(1), Ok(()));
    assert_eq!(g.current_input, 1);
    assert_eq!(g.transform(10), 10);
}
