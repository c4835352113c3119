use libcsr::errors::GameErrors;
use libcsr::spice::{SpiceAmount, SpiceAmountBuilder, SpiceCube};

#[test]
fn upgrade_turmeric() {
    let cube = SpiceCube::Turmeric;

    let upgraded_cube = cube.upgrade(1).unwrap();
    assert_eq!(upgraded_cube, SpiceCube::Saffron);

    let upgraded_cube = cube.upgrade(2).unwrap();
    assert_eq!(upgraded_cube, SpiceCube::Cardamon);

    let upgraded_cube = cube.upgrade(3).unwrap();
    assert_eq!(upgraded_cube, SpiceCube::Cinnamon);
}

#[test]
fn upgrade_turmeric_failure_over_upgrade() {
    let cube = SpiceCube::Turmeric;
    let upgrade_result = cube.upgrade(4);
    assert!(upgrade_result.is_err_and(|x| x == GameErrors::CannotUpgradePastCinnamon));
}

#[test]
fn upgrade_turmeric_failure_under_upgrade() {
    let cube = SpiceCube::Turmeric;
    let upgrade_result = cube.upgrade(0);
    assert!(upgrade_result.is_err_and(|x| x == GameErrors::CannotUpgradeToSelf));
}

#[test]
fn test_spice_amount_macro() {
    let amount = SpiceAmount::new(1, 2, 3, 4);
    let expected_amount = SpiceAmount {
        turmeric: 1,
        saffron: 2,
        cardamon: 3,
        cinnamon: 4,
    };
    assert_eq!(amount, expected_amount);
}

#[test]
fn upgrade_saffron_two_steps() {
    assert_eq!(SpiceCube::Saffron.upgrade(2), Ok(SpiceCube::Cinnamon));
    assert_eq!(SpiceCube::Saffron.upgrade(3), Err(GameErrors::CannotUpgradePastCinnamon));
    assert_eq!(SpiceCube::Saffron.upgrade(0), Err(GameErrors::CannotUpgradeToSelf));
}

#[test]
fn upgrade_top_and_large_steps() {
    assert_eq!(SpiceCube::Cardamon.upgrade(1), Ok(SpiceCube::Cinnamon));
    assert_eq!(SpiceCube::Cinnamon.upgrade(1), Err(GameErrors::CannotUpgradePastCinnamon));
    assert_eq!(SpiceCube::Cinnamon.upgrade(255), Err(GameErrors::CannotUpgradePastCinnamon));
    assert_eq!(SpiceCube::Turmeric.upgrade(255), Err(GameErrors::CannotUpgradePastCinnamon));
}

#[test]
fn cube_levels() {
    assert_eq!(SpiceCube::Turmeric.level(), 1);
    assert_eq!(SpiceCube::Saffron.level(), 2);
    assert_eq!(SpiceCube::Cardamon.level(), 3);
    assert_eq!(SpiceCube::Cinnamon.level(), 4);
}

#[test]
fn contains_examples() {
    let a = SpiceAmount::new(2, 2, 2, 2);
    assert!(a.contains(&SpiceAmount::new(1, 1, 1, 1)));
    assert!(a.contains(&a));
    assert!(!a.contains(&SpiceAmount::new(3, 3, 3, 3)));
    assert!(!a.contains(&SpiceAmount::new(0, 0, 0, 3)));
    assert!(SpiceAmount::new(0, 0, 0, 0).contains(&SpiceAmount::new(0, 0, 0, 0)));
}

#[test]
fn add_example() {
    let result = SpiceAmount::new(2, 1, 4, 3).add(&SpiceAmount::new(1, 1, 4, 1));
    assert_eq!(result, SpiceAmount::new(3, 2, 8, 4));
}

#[test]
fn subtract_example() {
    let result = SpiceAmount::new(2, 1, 4, 3).subtract(&SpiceAmount::new(1, 1, 4, 1));
    assert_eq!(result, Ok(SpiceAmount::new(1, 0, 0, 2)));
}

#[test]
fn subtract_failure_reports_original_and_deficit() {
    let first = SpiceAmount::new(2, 1, 4, 3);
    let result = first.subtract(&SpiceAmount::new(3, 2, 4, 0));
    assert_eq!(
        result,
        Err(GameErrors::CannotSubtractSpiceAmount(first, SpiceAmount::new(1, 1, 0, 0)))
    );
}

#[test]
fn subtract_ok_matches_contains() {
    let amounts = [
        SpiceAmount::new(0, 0, 0, 0),
        SpiceAmount::new(1, 0, 2, 0),
        SpiceAmount::new(3, 3, 3, 3),
        SpiceAmount::new(0, 5, 0, 1),
        SpiceAmount::new(4, 2, 1, 2),
    ];
    for a in amounts {
        for b in amounts {
            assert_eq!(a.subtract(&b).is_ok(), a.contains(&b));
        }
    }
}

#[test]
fn subtract_then_add_restores() {
    let a = SpiceAmount::new(4, 2, 1, 2);
    let b = SpiceAmount::new(3, 0, 0, 2);
    let c = a.subtract(&b).unwrap();
    assert_eq!(c, SpiceAmount::new(1, 2, 1, 0));
    assert_eq!(c.add(&b), a);
}

#[test]
fn deficit_is_componentwise() {
    let a = SpiceAmount::new(5, 0, 2, 7);
    let b = SpiceAmount::new(1, 3, 6, 7);
    match a.subtract(&b) {
        Err(GameErrors::CannotSubtractSpiceAmount(original, missing)) => {
            assert_eq!(original, a);
            assert_eq!(missing, SpiceAmount::new(0, 3, 4, 0));
        }
        other => panic!("unexpected result {other:?}"),
    }
}

#[test]
fn builder_sets_each_kind() {
    let amount = SpiceAmountBuilder::new().turmeric(1).cardamon(3).build();
    assert_eq!(amount, SpiceAmount::new(1, 0, 3, 0));
    let amount = SpiceAmountBuilder::new()
        .turmeric(3)
        .saffron(1)
        .cardamon(2)
        .cinnamon(4)
        .turmeric(5)
        .build();
    assert_eq!(amount, SpiceAmount::new(5, 1, 2, 4));
    assert_eq!(SpiceAmountBuilder::default().build(), SpiceAmount::default());
}

#[test]
fn array_conversions() {
    let amount = SpiceAmount::from([1, 2, 3, 4]);
    assert_eq!(amount, SpiceAmount::new(1, 2, 3, 4));
    let array: [u8; 4] = amount.into();
    assert_eq!(array, [1, 2, 3, 4]);
    assert_eq!(SpiceAmount::default(), SpiceAmount::from([0, 0, 0, 0]));
}
