use gridcrawl::game::generate_entities;
use gridcrawl::state::Game;
use gridcrawl::map::{attempt_move, blocked_tile, clamp, generate_map};
use gridcrawl::registry::{find_index, occupied_tile, trap_tile};
use gridcrawl::types::{
    countdown_glyph, Entity, EntityType, GameState, InvalidOperation, Monster, Player, Pos, Status,
    Tile, Tint, Trap,
};

#[test]
fn generated_map_has_a_wall_ring() {
    let map = generate_map(Pos::new(10, 10));
    assert_eq!(map.len(), 100);
    for x in 0..10i32 {
        for y in 0..10i32 {
            let tile = map[(x * 10 + y) as usize];
            let border = x == 0 || x == 9 || y == 0 || y == 9;
            assert_eq!(
                tile,
                Tile {
                    pos: Pos::new(x, y),
                    glyph: if border { '#' } else { '\u{db}' },
                    color: Tint::White,
                    blocks: border,
                }
            );
            assert_eq!(blocked_tile(Pos::new(x, y), &map), border);
        }
    }
}

#[test]
fn generated_map_of_other_shapes() {
    let map = generate_map(Pos::new(3, 4));
    assert_eq!(map.len(), 12);
    assert_eq!(map[5].pos, Pos::new(1, 1));
    assert!(!map[5].blocks);
    assert_eq!(map[6].pos, Pos::new(1, 2));
    assert!(!map[6].blocks);
    assert!(map[4].blocks && map[7].blocks && map[1].blocks && map[9].blocks);
    assert_eq!(generate_map(Pos::new(0, 5)).len(), 0);
    assert_eq!(generate_map(Pos::new(-3, 5)).len(), 0);
    let line = generate_map(Pos::new(1, 3));
    assert!(line.iter().all(|t| t.blocks));
}

#[test]
fn cells_outside_the_map_are_not_blocked() {
    let map = generate_map(Pos::new(10, 10));
    assert!(!blocked_tile(Pos::new(10, 3), &map));
    assert!(!blocked_tile(Pos::new(-1, 0), &map));
    assert!(!blocked_tile(Pos::new(5, 5), &Vec::new()));
}

#[test]
fn clamp_holds_the_value_in_the_range() {
    assert_eq!(clamp(0, 9, -1), 0);
    assert_eq!(clamp(0, 9, 10), 9);
    assert_eq!(clamp(0, 9, 4), 4);
    assert_eq!(clamp(0, 9, 0), 0);
    assert_eq!(clamp(0, 9, 9), 9);
    assert_eq!(clamp(0, -1, 3), -1);
    assert_eq!(clamp(0, -1, -3), 0);
}

#[test]
fn attempt_move_stops_at_walls() {
    let map = generate_map(Pos::new(10, 10));
    assert_eq!(attempt_move(Pos::new(5, 5), Pos::new(-1, 0), &map), Pos::new(4, 5));
    assert_eq!(attempt_move(Pos::new(5, 5), Pos::new(2, -3), &map), Pos::new(7, 2));
    assert_eq!(attempt_move(Pos::new(1, 5), Pos::new(-1, 0), &map), Pos::new(1, 5));
    assert_eq!(attempt_move(Pos::new(1, 1), Pos::new(-1, -1), &map), Pos::new(1, 1));
    assert_eq!(attempt_move(Pos::new(-4, 1), Pos::new(-1, -1), &map), Pos::new(-5, 0));
    assert_eq!(
        attempt_move(Pos::new(i32::MIN, 0), Pos::new(-1, 0), &map),
        Pos::new(i32::MIN, 0)
    );
}

#[test]
fn first_creature_and_first_trap_of_a_cell() {
    let entities = vec![
        Entity::trap(Pos::new(2, 2), Trap::Kill),
        Entity::goblin(Pos::new(2, 2)),
        Entity::trap(Pos::new(2, 2), Trap::Bump),
        Entity::goblin(Pos::new(3, 3)),
        Entity::trap(Pos::new(4, 4), Trap::Teleport),
    ];
    assert_eq!(occupied_tile(Pos::new(2, 2), &entities), Some(Entity::goblin(Pos::new(2, 2))));
    assert_eq!(trap_tile(Pos::new(2, 2), &entities), Some(Entity::trap(Pos::new(2, 2), Trap::Kill)));
    assert_eq!(occupied_tile(Pos::new(4, 4), &entities), None);
    assert_eq!(trap_tile(Pos::new(3, 3), &entities), None);
    assert_eq!(occupied_tile(Pos::new(9, 9), &entities), None);
    assert_eq!(find_index(Pos::new(2, 2), &entities, false), Some(1));
    assert_eq!(find_index(Pos::new(2, 2), &entities, true), Some(0));
    assert_eq!(find_index(Pos::new(4, 4), &entities, true), Some(4));
    assert_eq!(find_index(Pos::new(4, 4), &entities, false), None);
}

#[test]
fn trap_glyphs() {
    let at = Pos::new(1, 1);
    assert_eq!(Entity::trap(at, Trap::Kill).glyph, '%');
    assert_eq!(Entity::trap(at, Trap::Berserk).glyph, '*');
    assert_eq!(Entity::trap(at, Trap::Bump).glyph, '+');
    assert_eq!(Entity::trap(at, Trap::Teleport).glyph, '!');
    assert_eq!(Entity::trap(at, Trap::CountDown(3)).glyph, '3');
    assert_eq!(Entity::trap(at, Trap::CountDown(0)).glyph, '0');
    assert_eq!(Entity::trap(at, Trap::Kill).color, Tint::Green);
    assert_eq!(Entity::trap(at, Trap::Kill).typ, EntityType::Trap(Trap::Kill));
    assert_eq!(countdown_glyph(9), '9');
    assert_eq!(countdown_glyph(10), ':');
    assert_eq!(countdown_glyph(207), '\u{ff}');
    assert_eq!(countdown_glyph(208), '\u{0}');
    assert_eq!(countdown_glyph(255), '/');
}

#[test]
fn goblin_has_one_health_point() {
    let g = Entity::goblin(Pos::new(9, 10));
    assert_eq!(g.glyph, 'g');
    assert_eq!(g.color, Tint::Red);
    assert_eq!(g.typ, EntityType::Monster(Monster { hp: 1, max_hp: 1, status: None }));
    assert_eq!(g.hp(), Ok(1));
    assert_eq!(g.max_hp(), Ok(1));
    assert_eq!(EntityType::monster(4), EntityType::Monster(Monster { hp: 4, max_hp: 4, status: None }));
    assert_eq!(EntityType::trap(Trap::Bump), EntityType::Trap(Trap::Bump));
}

#[test]
fn kinds_are_told_apart() {
    let m = EntityType::monster(1);
    let p = EntityType::Player(Player { hp: 5, max_hp: 5, status: None });
    let t = EntityType::trap(Trap::Kill);
    assert!(m.is_monster() && !m.is_player() && !m.is_trap());
    assert!(!p.is_monster() && p.is_player() && !p.is_trap());
    assert!(!t.is_monster() && !t.is_player() && t.is_trap());
}

#[test]
fn health_is_read_from_creatures_only() {
    let p = Player { hp: 3, max_hp: 5, status: None };
    assert_eq!(p.hp(), 3);
    assert_eq!(p.max_hp(), 5);
    let m = Monster { hp: 2, max_hp: 4, status: Some(Status::Berserk) };
    assert_eq!(m.hp(), 2);
    assert_eq!(m.max_hp(), 4);
    let e = Entity { pos: Pos::new(0, 0), glyph: '@', color: Tint::Orange, typ: EntityType::Player(p) };
    assert_eq!(e.hp(), Ok(3));
    assert_eq!(e.max_hp(), Ok(5));
    let trap = Entity::trap(Pos::new(0, 0), Trap::Kill);
    assert_eq!(trap.hp(), Err(InvalidOperation));
    assert_eq!(trap.max_hp(), Err(InvalidOperation));
}

#[test]
fn losing_health() {
    let mut p = EntityType::Player(Player { hp: 5, max_hp: 5, status: None });
    assert_eq!(p.lose_hp(5), Ok(()));
    assert_eq!(p, EntityType::Player(Player { hp: 0, max_hp: 5, status: None }));
    assert_eq!(p.lose_hp(1), Ok(()));
    assert_eq!(p, EntityType::Player(Player { hp: -1, max_hp: 5, status: None }));
    let mut m = EntityType::monster(3);
    assert_eq!(m.lose_hp(1), Ok(()));
    assert_eq!(m, EntityType::Monster(Monster { hp: 2, max_hp: 3, status: None }));
    let mut t = EntityType::trap(Trap::CountDown(2));
    assert_eq!(t.lose_hp(5), Err(InvalidOperation));
    assert_eq!(t, EntityType::trap(Trap::CountDown(2)));
}

#[test]
fn going_berserk() {
    let mut m = EntityType::monster(3);
    m.go_berserk();
    assert_eq!(m, EntityType::Monster(Monster { hp: 3, max_hp: 3, status: Some(Status::Berserk) }));
    let mut t = EntityType::trap(Trap::Kill);
    t.go_berserk();
    assert_eq!(t, EntityType::trap(Trap::Kill));
}

#[test]
fn positions_compare_by_both_axes() {
    assert!(Pos::new(1, 2).same(&Pos::new(1, 2)));
    assert!(!Pos::new(1, 2).same(&Pos::new(2, 1)));
    assert!(!Pos::new(1, 2).same(&Pos::new(1, 3)));
}

#[test]
fn level_roster_is_added_in_order() {
    let mut entities = vec![Entity::goblin(Pos::new(0, 0))];
    generate_entities(&mut entities);
    assert_eq!(entities.len(), 13);
    assert_eq!(entities[0], Entity::goblin(Pos::new(0, 0)));
    assert_eq!(entities[1], Entity::goblin(Pos::new(9, 10)));
    assert_eq!(entities[2], Entity::goblin(Pos::new(2, 14)));
    assert_eq!(entities[3], Entity::trap(Pos::new(6, 6), Trap::Bump));
    assert_eq!(entities[4], Entity::trap(Pos::new(8, 8), Trap::Berserk));
    assert_eq!(entities[5], Entity::trap(Pos::new(3, 8), Trap::Berserk));
    assert_eq!(entities[6], Entity::trap(Pos::new(9, 8), Trap::Berserk));
    assert_eq!(entities[7], Entity::trap(Pos::new(7, 6), Trap::Kill));
    assert_eq!(entities[8], Entity::trap(Pos::new(7, 8), Trap::Kill));
    assert_eq!(entities[9], Entity::trap(Pos::new(7, 2), Trap::Teleport));
    assert_eq!(entities[10], Entity::trap(Pos::new(4, 8), Trap::Teleport));
    assert_eq!(entities[11], Entity::trap(Pos::new(1, 2), Trap::CountDown(3)));
    assert_eq!(entities[12], Entity::trap(Pos::new(4, 2), Trap::CountDown(1)));
}

#[test]
fn new_game_opens_with_the_player_first() {
    let game = Game::new();
    assert_eq!(game.game_state, GameState::Playing);
    assert_eq!(game.map_size, Pos::new(10, 10));
    assert_eq!(game.map.len(), 100);
    assert_eq!(game.player_id, 0);
    assert_eq!(game.entities.len(), 13);
    assert_eq!(
        game.entities[0],
        Entity {
            pos: Pos::new(5, 3),
            glyph: '@',
            color: Tint::Orange,
            typ: EntityType::Player(Player { hp: 5, max_hp: 5, status: None }),
        }
    );
    assert_eq!(game.entities[12], Entity::trap(Pos::new(4, 2), Trap::CountDown(1)));
}

#[test]
fn validity_of_a_state() {
    let mut game = Game::new();
    assert!(game.is_valid());
    game.player_id = 1;
    assert!(!game.is_valid());
    game.player_id = 13;
    assert!(!game.is_valid());
    game.player_id = 0;
    game.map_size = Pos::new(-1, 10);
    assert!(!game.is_valid());
    game.map_size = Pos::new(10, 10);
    game.entities[1].typ = EntityType::Monster(Monster { hp: -1, max_hp: 1, status: None });
    assert!(!game.is_valid());
    game.game_state = GameState::Lost;
    assert!(game.is_valid());
    game.entities[1].typ = EntityType::Monster(Monster { hp: 2, max_hp: 1, status: None });
    assert!(!game.is_valid());
    game.entities[1].typ = EntityType::Player(Player { hp: 1, max_hp: 1, status: None });
    assert!(!game.is_valid());
}

#[test]
fn player_health_for_the_bar() {
    let mut game = Game::new();
    assert_eq!(game.player_health(), (5, 5));
    game.entities[0].typ = EntityType::Player(Player { hp: 2, max_hp: 5, status: None });
    assert_eq!(game.player_health(), (2, 5));
}
