use biobots::bot::Direction;
use biobots::consts::{
    apple_draw_color_rgba, bot_outline_color_def, organic_waste_draw_color,
    organic_waste_outline_color, rock_draw_color, CELL_SIZE, CELL_SIZE_HALF,
};
use biobots::images::{create_apple, create_bot_head, create_organics, create_rock, Images};
use biobots::pixel::Color;

#[test]
fn test_organics() {
    let organics = create_organics();
    assert_eq!(organics.get(0, 0), Color::transparent());
    assert_eq!(
        organics.get(organics.width() - 1, organics.height() - 1),
        Color::transparent()
    );
    assert_eq!(organics.get(1, 1), organic_waste_outline_color());
    assert_eq!(
        organics.get(organics.width() - 2, organics.height() - 2),
        organic_waste_outline_color()
    );
    assert_eq!(organics.get(2, 2), organic_waste_draw_color());
    assert_eq!(
        organics.get(organics.width() - 3, organics.height() - 3),
        organic_waste_draw_color()
    );
}

#[test]
fn apple_center_is_apple_colored_and_corners_stay_transparent() {
    let apple = create_apple();
    assert_eq!(
        apple.get(CELL_SIZE_HALF, CELL_SIZE_HALF),
        apple_draw_color_rgba()
    );
    assert_eq!(apple.get(0, 0), Color::transparent());
    assert_eq!(apple.get(CELL_SIZE - 1, 0), Color::transparent());
    assert_eq!(apple.get(0, CELL_SIZE - 1), Color::transparent());
    assert_eq!(
        apple.get(CELL_SIZE - 1, CELL_SIZE - 1),
        Color::transparent()
    );
}

#[test]
fn apple_disc_test_is_strict() {
    let apple = create_apple();
    // Squared distance from the center (4, 4): a pixel on the disc
    // boundary, with squared distance exactly 16, stays transparent.
    assert_eq!(apple.get(0, 4), Color::transparent());
    assert_eq!(apple.get(4, 0), Color::transparent());
    // Just inside the disc.
    assert_eq!(apple.get(1, 4), apple_draw_color_rgba());
    assert_eq!(apple.get(4, 7), apple_draw_color_rgba());
}

#[test]
fn rock_is_a_filled_square_inset_by_one() {
    let rock = create_rock();
    for x in 0..CELL_SIZE {
        for y in 0..CELL_SIZE {
            let inside = (1..CELL_SIZE - 1).contains(&x) && (1..CELL_SIZE - 1).contains(&y);
            assert_eq!(
                rock.get(x, y),
                if inside {
                    rock_draw_color()
                } else {
                    Color::transparent()
                },
                "at {x}, {y}"
            );
        }
    }
}

#[test]
fn bot_body_is_an_opaque_white_tile() {
    let images = Images::default();
    for x in 0..CELL_SIZE {
        for y in 0..CELL_SIZE {
            assert_eq!(images.bot.body.get(x, y), Color::white());
        }
    }
}

#[test]
fn bot_head_has_outline_and_directional_mark() {
    let mark = bot_outline_color_def();
    let head_n = create_bot_head(Direction::N);
    // Vertical mark from the top edge to the center.
    assert_eq!(head_n.get(CELL_SIZE_HALF, 0), mark);
    assert_eq!(head_n.get(CELL_SIZE_HALF, CELL_SIZE_HALF - 1), mark);
    // Center itself is not painted for north.
    assert_eq!(
        head_n.get(CELL_SIZE_HALF, CELL_SIZE_HALF),
        Color::transparent()
    );
    // Full-tile outline.
    assert_eq!(head_n.get(0, 0), mark);
    assert_eq!(head_n.get(CELL_SIZE - 1, CELL_SIZE - 1), mark);
    assert_eq!(head_n.get(0, CELL_SIZE_HALF), mark);
    // Interior away from the mark stays transparent.
    assert_eq!(head_n.get(1, 1), Color::transparent());

    let head_nw = create_bot_head(Direction::NW);
    // Main diagonal from the top-left corner to the center.
    for k in 0..CELL_SIZE_HALF {
        assert_eq!(head_nw.get(k, k), mark, "at {k}");
    }
    assert_eq!(
        head_nw.get(CELL_SIZE_HALF, CELL_SIZE_HALF),
        Color::transparent()
    );

    let head_ne = create_bot_head(Direction::NE);
    // Anti-diagonal from the top-right corner to the center.
    for x in CELL_SIZE_HALF..CELL_SIZE {
        assert_eq!(head_ne.get(x, CELL_SIZE - 1 - x), mark, "at {x}");
    }
}

#[test]
fn bot_heads_are_indexed_by_direction_code() {
    let images = Images::default();
    let mark = bot_outline_color_def();
    // One pixel of the directional mark per head, away from the outline.
    let probes = [
        (Direction::N, (CELL_SIZE_HALF, 1)),
        (Direction::NW, (1, 1)),
        (Direction::W, (1, CELL_SIZE_HALF)),
        (Direction::SW, (1, CELL_SIZE - 2)),
        (Direction::S, (CELL_SIZE_HALF, CELL_SIZE - 2)),
        (Direction::SE, (CELL_SIZE - 2, CELL_SIZE - 2)),
        (Direction::E, (CELL_SIZE - 2, CELL_SIZE_HALF)),
        (Direction::NE, (CELL_SIZE - 2, 1)),
    ];
    for (direction, (x, y)) in probes {
        let head = &images.bot.head[direction.code() as usize];
        assert_eq!(head.get(x, y), mark, "for {}", direction.name());
    }
}

#[test]
fn sprite_set_matches_the_single_generators() {
    let images = Images::default();
    let apple = create_apple();
    let organics = create_organics();
    let rock = create_rock();
    for x in 0..CELL_SIZE {
        for y in 0..CELL_SIZE {
            assert_eq!(images.apple.get(x, y), apple.get(x, y));
            assert_eq!(images.organics.get(x, y), organics.get(x, y));
            assert_eq!(images.rock.get(x, y), rock.get(x, y));
        }
    }
}
