use omarchy_lib_theme::api::bridge::{
    OMARCHY_LIB_THEME_COLOR_COUNT, OMARCHY_LIB_THEME_DEPOSIT_COUNT, OMARCHY_LIB_THEME_ROLE_COUNT,
    OMARCHY_LIB_THEME_STATE_COUNT, OMARCHY_LIB_THEME_TREATMENT_COUNT, SNAPSHOT_ROLES, color_name,
    deposit_at, deposit_name, error_bytes, role_at, role_name, state_at, state_name, to_color,
    treatment_at, treatment_name,
};
use omarchy_lib_theme::{Deposit, Rgb, Role, State, Treatment};

#[test]
fn falls_back_to_original_for_an_out_of_range_treatment() {
    assert_eq!(
        treatment_at(OMARCHY_LIB_THEME_TREATMENT_COUNT),
        Treatment::Original
    );
}

#[test]
fn falls_back_to_the_neutral_index_readers() {
    assert_eq!(deposit_at(OMARCHY_LIB_THEME_DEPOSIT_COUNT), Deposit::Fill);
    assert_eq!(state_at(OMARCHY_LIB_THEME_STATE_COUNT), State::Rest);
    assert_eq!(role_at(OMARCHY_LIB_THEME_ROLE_COUNT), Role::Background);
}

#[test]
fn reads_every_index_in_its_fixed_order() {
    for (index, treatment) in Treatment::ALL.into_iter().enumerate() {
        assert_eq!(treatment_at(index), treatment);
    }
    for (index, deposit) in Deposit::ALL.into_iter().enumerate() {
        assert_eq!(deposit_at(index), deposit);
    }
    for (index, state) in State::ALL.into_iter().enumerate() {
        assert_eq!(state_at(index), state);
    }
    for (index, role) in SNAPSHOT_ROLES.into_iter().enumerate() {
        assert_eq!(role_at(index), role);
    }
    assert_eq!(treatment_at(usize::MAX), Treatment::Original);
    assert_eq!(role_at(4), Role::Primary);
}

#[test]
fn names_every_color_it_carries() {
    for index in 0..OMARCHY_LIB_THEME_COLOR_COUNT {
        assert!(color_name(index).is_some());
    }
    assert!(color_name(OMARCHY_LIB_THEME_COLOR_COUNT).is_none());
    assert_eq!(color_name(0), Some("Red"));
    assert_eq!(color_name(5), Some("Magenta"));
}

#[test]
fn names_every_role_and_stops_at_the_end() {
    for (index, role) in Role::ALL.into_iter().enumerate() {
        assert_eq!(role_name(index).unwrap(), format!("{role:?}"));
    }

    assert!(role_name(OMARCHY_LIB_THEME_ROLE_COUNT).is_none());
}

#[test]
fn names_every_treatment_and_stops_at_the_end() {
    for (index, treatment) in Treatment::ALL.into_iter().enumerate() {
        assert_eq!(treatment_name(index).unwrap(), format!("{treatment:?}"));
    }

    assert!(treatment_name(OMARCHY_LIB_THEME_TREATMENT_COUNT).is_none());
}

#[test]
fn names_every_deposit_and_stops_at_the_end() {
    assert_eq!(OMARCHY_LIB_THEME_DEPOSIT_COUNT, Deposit::ALL.len());
    for (index, deposit) in Deposit::ALL.into_iter().enumerate() {
        assert_eq!(deposit_name(index).unwrap(), format!("{deposit:?}"));
    }

    assert!(deposit_name(OMARCHY_LIB_THEME_DEPOSIT_COUNT).is_none());
}

#[test]
fn names_every_state_and_stops_at_the_end() {
    assert_eq!(OMARCHY_LIB_THEME_STATE_COUNT, State::ALL.len());
    for (index, state) in State::ALL.into_iter().enumerate() {
        assert_eq!(state_name(index).unwrap(), format!("{state:?}"));
    }

    assert!(state_name(OMARCHY_LIB_THEME_STATE_COUNT).is_none());
}

#[test]
fn the_snapshot_roles_follow_the_role_order() {
    assert_eq!(SNAPSHOT_ROLES, Role::ALL);
}

#[test]
fn converts_a_color_byte_for_byte() {
    let color = to_color(Rgb {
        red: 0x2d,
        green: 0x35,
        blue: 0x3b,
    });
    assert_eq!((color.r, color.g, color.b), (0x2d, 0x35, 0x3b));
}

#[test]
fn truncates_a_message_too_long_for_the_buffer() {
    let bytes = error_bytes("no theme found at /nowhere", 8).unwrap();

    assert_eq!(bytes.len(), 8);
    assert_eq!(bytes[7], 0, "the last byte must stay the null terminator");
    assert_eq!(&bytes[..7], b"no them");
}

#[test]
fn keeps_a_message_that_fits_and_terminates_it() {
    let bytes = error_bytes("short", 128).unwrap();

    assert_eq!(bytes, b"short\0".to_vec());
}

#[test]
fn writes_nothing_into_a_buffer_with_no_room() {
    assert!(error_bytes("anything", 0).is_none());
    assert_eq!(error_bytes("anything", 1).unwrap(), vec![0]);
}
