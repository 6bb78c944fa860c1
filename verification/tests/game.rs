use tui_game_core::color::Color;
use tui_game_core::entity::GridPos;
use tui_game_core::game::fog::{fog_glyph_weights, unseen_fog_glyph, weighted_fog_glyph};
use tui_game_core::game::projectile::{arrow_color, arrow_glyph, melee_flash_color, Projectile};
use tui_game_core::game::spell::{def, in_range, SpellKind};

fn pos(x: i32, y: i32) -> GridPos {
    GridPos { x, y }
}

#[test]
fn arrow_glyph_cardinal_directions() {
    assert_eq!(arrow_glyph(pos(0, 0), pos(3, 0)), '→');
    assert_eq!(arrow_glyph(pos(3, 0), pos(0, 0)), '←');
    assert_eq!(arrow_glyph(pos(0, 3), pos(0, 0)), '↑');
    assert_eq!(arrow_glyph(pos(0, 0), pos(0, 3)), '↓');
}

#[test]
fn arrow_glyph_diagonals() {
    assert_eq!(arrow_glyph(pos(0, 0), pos(3, -3)), '↗');
    assert_eq!(arrow_glyph(pos(0, 0), pos(-3, -3)), '↖');
    assert_eq!(arrow_glyph(pos(0, 0), pos(3, 3)), '↘');
    assert_eq!(arrow_glyph(pos(0, 0), pos(-3, 3)), '↙');
}

#[test]
fn projectile_interpolates_to_midpoint() {
    let p = Projectile {
        from: pos(0, 0),
        to: pos(10, 0),
        ticks_elapsed: 5,
        total_ticks: 10,
        glyph: '→',
        color: arrow_color(),
        is_ranged: true,
    };
    assert_eq!(p.current_pos(), pos(5, 0));
}

#[test]
fn melee_flash_always_at_target() {
    let p = Projectile {
        from: pos(0, 0),
        to: pos(1, 0),
        ticks_elapsed: 2,
        total_ticks: 6,
        glyph: '*',
        color: melee_flash_color(),
        is_ranged: false,
    };
    assert_eq!(p.current_pos(), pos(1, 0));
}

#[test]
fn projectile_rounds_halves_away_from_zero() {
    let p = Projectile {
        from: pos(0, 0),
        to: pos(-3, 1),
        ticks_elapsed: 1,
        total_ticks: 2,
        glyph: '↙',
        color: Color::rgb(1, 2, 3),
        is_ranged: true,
    };
    assert_eq!(p.current_pos(), pos(-2, 1));
    assert!(!p.is_expired());
}

#[test]
fn in_range_accepts_cells_within_range() {
    let range = def(SpellKind::Fireball).range;
    assert!(in_range(pos(0, 0), pos(range, 0), SpellKind::Fireball));
    assert!(in_range(pos(0, 0), pos(0, 0), SpellKind::Fireball));
    assert!(!in_range(pos(0, 0), pos(range + 1, 0), SpellKind::Fireball));
    assert!(!in_range(pos(0, 0), pos(range + 1, range + 1), SpellKind::Fireball));
}

#[test]
fn fog_glyph_weights_sum_to_256() {
    let s: u16 = fog_glyph_weights().iter().map(|(w, _)| *w).sum();
    assert_eq!(s, 256);
}

#[test]
fn unseen_fog_glyph_deterministic_from_palette() {
    let seed = 0xC0FFEE_u64;
    assert_eq!(unseen_fog_glyph(7, -2, seed), unseen_fog_glyph(7, -2, seed));
    let c = unseen_fog_glyph(100, 200, seed);
    assert!(matches!(c, ' ' | '░' | '▒' | '▓' | '·' | ':' | ','), "unexpected glyph {c:?}");
    let mut seed_changes_glyph = false;
    for i in 0..40_i32 {
        if unseen_fog_glyph(i, i.wrapping_mul(7), 1) != unseen_fog_glyph(i, i.wrapping_mul(7), 2) {
            seed_changes_glyph = true;
            break;
        }
    }
    assert!(seed_changes_glyph, "map_visual_seed should re-phase the fog texture for some cells");
}

#[test]
fn weighted_fog_glyph_thresholds() {
    assert_eq!(weighted_fog_glyph(0), ' ');
    assert_eq!(weighted_fog_glyph(165), ' ');
    assert_eq!(weighted_fog_glyph(166), '·');
    assert_eq!(weighted_fog_glyph(205), '░');
    assert_eq!(weighted_fog_glyph(232), '▒');
    assert_eq!(weighted_fog_glyph(255), '▓');
}
