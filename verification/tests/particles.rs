use minautomata::actions::Action;
use minautomata::colour::Colour;
use minautomata::cornucopia::CornucopiaParticle;
use minautomata::grid::Grid;
use minautomata::kinds::{paintable_kinds, ParticleKind};
use minautomata::particle::{Neighbours, Particle};
use minautomata::point::Point;
use minautomata::processable::Processable;
use minautomata::salt::SaltParticle;
use minautomata::water::WaterParticle;

fn all_background() -> Neighbours {
    Neighbours {
        ul: ParticleKind::Background,
        up: ParticleKind::Background,
        ur: ParticleKind::Background,
        left: ParticleKind::Background,
        centre: ParticleKind::Background,
        right: ParticleKind::Background,
        dl: ParticleKind::Background,
        down: ParticleKind::Background,
        dr: ParticleKind::Background,
    }
}

#[test]
fn test_salt_rule_pops_next_to_water() {
    let mut s = SaltParticle::new();
    let nb = Neighbours { ur: ParticleKind::Water, ..all_background() };
    assert_eq!(Action::Pop, s.get_action(nb));
}

#[test]
fn test_salt_rule_falls_into_empty_below() {
    let mut s = SaltParticle::new();
    let nb = all_background();
    assert_eq!(Action::MoveInto { x: 0, y: 1 }, s.get_action(nb));
}

#[test]
fn test_salt_rule_stays_when_blocked() {
    let mut s = SaltParticle::new();
    let nb = Neighbours {
        down: ParticleKind::Concrete,
        dl: ParticleKind::Concrete,
        dr: ParticleKind::Concrete,
        left: ParticleKind::Concrete,
        right: ParticleKind::Concrete,
        ..all_background()
    };
    assert_eq!(Action::StayPut, s.get_action(nb));
}

#[test]
fn test_water_rule_prefers_straight_down() {
    let mut w = WaterParticle::new();
    assert_eq!(Action::MoveInto { x: 0, y: 1 }, w.get_action(all_background()));
}

#[test]
fn test_water_rule_remembers_forced_left() {
    let mut w = WaterParticle::new();
    let only_left_low = Neighbours {
        down: ParticleKind::Concrete,
        dr: ParticleKind::Concrete,
        ..all_background()
    };
    assert_eq!(Action::MoveInto { x: -1, y: 1 }, w.get_action(only_left_low));
    // Both lower diagonals open: the remembered direction decides.
    let both_low = Neighbours { down: ParticleKind::Concrete, ..all_background() };
    assert_eq!(Action::MoveInto { x: -1, y: 1 }, w.get_action(both_low));
}

#[test]
fn test_cornucopia_locks_first_neighbour_kind() {
    let mut c = CornucopiaParticle::new();
    assert_eq!(ParticleKind::Background, c.particle_kind_to_create);
    let nb = Neighbours {
        left: ParticleKind::Wood,
        down: ParticleKind::Salt,
        ..all_background()
    };
    // Row-major order reaches the left neighbour before the lower one.
    let action = c.get_action(nb);
    assert_eq!(ParticleKind::Wood, c.particle_kind_to_create);
    assert_eq!(
        Action::GrowInto { x: -1, y: -1, kind: ParticleKind::Wood },
        action
    );
}

#[test]
fn test_cornucopia_saturated_stays_put() {
    let mut c = CornucopiaParticle::new();
    let full = Neighbours {
        ul: ParticleKind::Salt,
        up: ParticleKind::Salt,
        ur: ParticleKind::Salt,
        left: ParticleKind::Salt,
        right: ParticleKind::Salt,
        dl: ParticleKind::Salt,
        down: ParticleKind::Salt,
        dr: ParticleKind::Salt,
        ..all_background()
    };
    assert_eq!(Action::StayPut, c.get_action(full));
    assert_eq!(ParticleKind::Salt, c.particle_kind_to_create);
}

#[test]
fn test_find_free_neighbour_row_major() {
    let nb = Neighbours {
        ul: ParticleKind::Salt,
        up: ParticleKind::Salt,
        ur: ParticleKind::Salt,
        left: ParticleKind::Salt,
        ..all_background()
    };
    assert_eq!(Some((1, 2)), CornucopiaParticle::find_free_neighbour(&nb));
}

#[test]
fn test_processed_flag_round_trip() {
    let mut s = SaltParticle::new();
    assert!(!s.get_was_processed());
    s.set_processed();
    assert!(s.get_was_processed());
    s.tick();
    assert!(!s.get_was_processed());
}

#[test]
fn test_point_equality() {
    assert!(Point(3, 4) == Point(3, 4));
    assert!(Point(3, 4) != Point(4, 3));
}

#[test]
fn test_palette_enumeration() {
    let kinds = paintable_kinds();
    assert_eq!(
        vec![
            ParticleKind::Background,
            ParticleKind::Salt,
            ParticleKind::Concrete,
            ParticleKind::Water,
            ParticleKind::Cornucopia,
            ParticleKind::Wood,
        ],
        kinds
    );
}

#[test]
fn test_colours_per_kind() {
    let mut g = Grid::new(6, 1);
    let kinds = paintable_kinds();
    for (x, k) in kinds.iter().enumerate() {
        assert!(g.paint(x, 0, *k));
    }
    assert_eq!(Colour::new(0, 0, 0), g.colour_at(0, 0));
    assert_eq!(Colour::new(255, 255, 255), g.colour_at(1, 0));
    assert_eq!(Colour::new(196, 196, 196), g.colour_at(2, 0));
    assert_eq!(Colour::new(0, 0, 255), g.colour_at(3, 0));
    assert_eq!(Colour::new(0, 255, 0), g.colour_at(4, 0));
    assert_eq!(Colour::new(150, 75, 0), g.colour_at(5, 0));
}
