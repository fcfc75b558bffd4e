use cellular_orbs::orb::{Orb, Rgb};

const KINDS: [Orb; 3] = [Orb::Red, Orb::Green, Orb::Blue];

#[test]
fn every_kind_is_drawn_to_its_own() {
    assert_eq!(Orb::Red.get_attraction(&Orb::Red), 1);
    assert_eq!(Orb::Green.get_attraction(&Orb::Green), 1);
    assert_eq!(Orb::Blue.get_attraction(&Orb::Blue), 1);
}

#[test]
fn the_hunter_is_drawn_to_its_prey() {
    assert_eq!(Orb::Red.get_attraction(&Orb::Green), 1);
    assert_eq!(Orb::Green.get_attraction(&Orb::Blue), 1);
    assert_eq!(Orb::Blue.get_attraction(&Orb::Red), 1);
}

#[test]
fn the_prey_is_driven_from_its_hunter() {
    assert_eq!(Orb::Green.get_attraction(&Orb::Red), -1);
    assert_eq!(Orb::Blue.get_attraction(&Orb::Green), -1);
    assert_eq!(Orb::Red.get_attraction(&Orb::Blue), -1);
}

#[test]
fn attraction_is_not_symmetric() {
    assert_ne!(
        Orb::Red.get_attraction(&Orb::Green),
        Orb::Green.get_attraction(&Orb::Red)
    );
}

#[test]
fn attraction_is_always_a_unit() {
    for a in KINDS {
        for b in KINDS {
            let affinity = a.get_attraction(&b);
            assert!(affinity == 1 || affinity == -1);
        }
    }
}

#[test]
fn different_kinds_have_opposite_affinities() {
    for a in KINDS {
        for b in KINDS {
            if a != b {
                assert_eq!(a.get_attraction(&b), -b.get_attraction(&a));
            }
        }
    }
}

#[test]
fn each_kind_has_the_colour_it_is_named_after() {
    assert_eq!(Orb::Red.color(), Rgb { red: 255, green: 0, blue: 0 });
    assert_eq!(Orb::Green.color(), Rgb { red: 0, green: 255, blue: 0 });
    assert_eq!(Orb::Blue.color(), Rgb { red: 0, green: 0, blue: 255 });
}

#[test]
fn no_two_kinds_share_a_colour() {
    assert_ne!(Orb::Red.color(), Orb::Green.color());
    assert_ne!(Orb::Green.color(), Orb::Blue.color());
    assert_ne!(Orb::Blue.color(), Orb::Red.color());
}
