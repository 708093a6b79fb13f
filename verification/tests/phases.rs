use gridcrawl::lifecycle::remove_dead;
use gridcrawl::state::{Game, Input};
use gridcrawl::map::generate_map;
use gridcrawl::monsters::{chase_step, resolve_combat, update_monsters};
use gridcrawl::player::update_player;
use gridcrawl::traps::{draw_offsets, next_teleport, resolve_traps, resolve_traps_with};
use gridcrawl::types::{Entity, EntityType, GameState, Monster, Player, Pos, Status, Tint, Trap};

fn player_at(x: i32, y: i32, hp: i32) -> Entity {
    Entity {
        pos: Pos::new(x, y),
        glyph: '@',
        color: Tint::Orange,
        typ: EntityType::Player(Player { hp, max_hp: 5, status: None }),
    }
}

fn monster_at(x: i32, y: i32, hp: i32) -> Entity {
    Entity {
        pos: Pos::new(x, y),
        glyph: 'g',
        color: Tint::Red,
        typ: EntityType::Monster(Monster { hp, max_hp: hp, status: None }),
    }
}

fn game_with(entities: Vec<Entity>) -> Game {
    let map_size = Pos::new(10, 10);
    Game {
        game_state: GameState::Playing,
        map_size,
        map: generate_map(map_size),
        entities,
        player_id: 0,
    }
}

fn keys(left: bool, right: bool, up: bool, down: bool) -> Input {
    Input { left, right, up, down }
}

fn hp_of(e: &Entity) -> i32 {
    e.hp().unwrap()
}

#[test]
fn player_moves_one_cell_per_key() {
    let mut game = game_with(vec![player_at(5, 3, 5)]);
    assert!(update_player(&mut game, &keys(true, false, false, false)));
    assert_eq!(game.entities[0].pos, Pos::new(4, 3));
    assert!(update_player(&mut game, &keys(false, true, false, true)));
    assert_eq!(game.entities[0].pos, Pos::new(5, 4));
    assert!(update_player(&mut game, &keys(false, false, true, false)));
    assert_eq!(game.entities[0].pos, Pos::new(5, 3));
}

#[test]
fn player_without_key_takes_no_turn() {
    let mut game = game_with(vec![player_at(5, 3, 5)]);
    assert!(!update_player(&mut game, &keys(false, false, false, false)));
    assert_eq!(game.entities[0].pos, Pos::new(5, 3));
}

#[test]
fn player_into_wall_is_reverted() {
    let mut game = game_with(vec![player_at(1, 1, 5)]);
    assert!(!update_player(&mut game, &keys(true, false, false, false)));
    assert_eq!(game.entities[0].pos, Pos::new(1, 1));
    // the check is on the combined cell only: (0, 0) is a wall
    assert!(!update_player(&mut game, &keys(true, false, true, false)));
    assert_eq!(game.entities[0].pos, Pos::new(1, 1));
    assert!(update_player(&mut game, &keys(false, true, false, true)));
    assert_eq!(game.entities[0].pos, Pos::new(2, 2));
}

#[test]
fn player_is_clamped_to_the_grid() {
    let mut game = game_with(vec![player_at(0, 5, 5)]);
    game.map = Vec::new();
    assert!(update_player(&mut game, &keys(true, false, false, false)));
    assert_eq!(game.entities[0].pos, Pos::new(0, 5));
    game.entities[0].pos = Pos::new(9, 9);
    assert!(update_player(&mut game, &keys(false, true, false, true)));
    assert_eq!(game.entities[0].pos, Pos::new(9, 9));
    game.entities[0].pos = Pos::new(20, -7);
    assert!(update_player(&mut game, &keys(false, true, true, false)));
    assert_eq!(game.entities[0].pos, Pos::new(9, 0));
}

#[test]
fn player_left_then_right_cancel() {
    let mut game = game_with(vec![player_at(5, 3, 5)]);
    assert!(update_player(&mut game, &keys(true, true, false, false)));
    assert_eq!(game.entities[0].pos, Pos::new(5, 3));
}

#[test]
fn chase_step_is_one_cell_toward_the_player() {
    assert_eq!(chase_step(Pos::new(2, 7), Pos::new(5, 3)), Pos::new(3, 6));
    assert_eq!(chase_step(Pos::new(5, 7), Pos::new(5, 3)), Pos::new(5, 6));
    assert_eq!(chase_step(Pos::new(8, 3), Pos::new(5, 3)), Pos::new(7, 3));
    assert_eq!(chase_step(Pos::new(5, 3), Pos::new(5, 3)), Pos::new(5, 3));
    assert_eq!(
        chase_step(Pos::new(i32::MIN, i32::MAX), Pos::new(i32::MAX, i32::MIN)),
        Pos::new(i32::MIN + 1, i32::MAX - 1)
    );
}

#[test]
fn adjacent_monster_attacks_and_stays() {
    let mut game = game_with(vec![player_at(5, 3, 5), monster_at(6, 3, 1)]);
    update_monsters(&mut game);
    assert_eq!(hp_of(&game.entities[0]), 4);
    assert_eq!(game.entities[0].pos, Pos::new(5, 3));
    assert_eq!(game.entities[1].pos, Pos::new(6, 3));
    assert_eq!(hp_of(&game.entities[1]), 1);
}

#[test]
fn two_attackers_take_two_points() {
    let mut game = game_with(vec![
        monster_at(4, 4, 1),
        player_at(5, 3, 5),
        monster_at(6, 3, 1),
        monster_at(8, 8, 1),
    ]);
    game.player_id = 1;
    update_monsters(&mut game);
    assert_eq!(hp_of(&game.entities[1]), 3);
    assert_eq!(game.entities[0].pos, Pos::new(4, 4));
    assert_eq!(game.entities[2].pos, Pos::new(6, 3));
    assert_eq!(game.entities[3].pos, Pos::new(7, 7));
}

#[test]
fn monster_steps_toward_the_player() {
    let mut game = game_with(vec![player_at(5, 3, 5), monster_at(2, 7, 1)]);
    update_monsters(&mut game);
    assert_eq!(game.entities[1].pos, Pos::new(3, 6));
    assert_eq!(hp_of(&game.entities[0]), 5);
}

#[test]
fn monster_does_not_enter_a_wall() {
    // the monster stands outside the ring; its step leads onto the wall
    let mut game = game_with(vec![player_at(5, 3, 5), monster_at(10, 3, 1)]);
    update_monsters(&mut game);
    assert_eq!(game.entities[1].pos, Pos::new(10, 3));
}

#[test]
fn monster_may_step_onto_a_trap() {
    let mut game = game_with(vec![
        player_at(5, 3, 5),
        Entity::trap(Pos::new(7, 3), Trap::Berserk),
        monster_at(8, 3, 1),
    ]);
    update_monsters(&mut game);
    assert_eq!(game.entities[2].pos, Pos::new(7, 3));
}

#[test]
fn monster_behind_another_waits() {
    let mut game = game_with(vec![player_at(5, 3, 5), monster_at(7, 3, 1), monster_at(8, 3, 1)]);
    update_monsters(&mut game);
    assert_eq!(game.entities[1].pos, Pos::new(6, 3));
    // the cell was taken when the phase began
    assert_eq!(game.entities[2].pos, Pos::new(8, 3));
}

#[test]
fn contested_cell_goes_to_the_earlier_monster() {
    let mut game = game_with(vec![player_at(5, 4, 5), monster_at(3, 3, 1), monster_at(3, 5, 1)]);
    update_monsters(&mut game);
    assert_eq!(game.entities[1].pos, Pos::new(4, 4));
    assert_eq!(game.entities[2].pos, Pos::new(3, 5));
    assert_eq!(hp_of(&game.entities[0]), 5);
}

#[test]
fn combat_takes_one_point_per_attack() {
    let mut entities = vec![player_at(5, 3, 5), monster_at(6, 3, 2)];
    resolve_combat(&mut entities, &vec![(1, 0), (1, 0), (0, 1), (0, 7)]);
    assert_eq!(hp_of(&entities[0]), 3);
    assert_eq!(hp_of(&entities[1]), 1);
    let mut low = vec![player_at(5, 3, 0)];
    resolve_combat(&mut low, &vec![(0, 0)]);
    assert_eq!(hp_of(&low[0]), -1);
}

#[test]
fn countdown_with_time_left_only_ticks() {
    let map = generate_map(Pos::new(10, 10));
    let mut entities = vec![player_at(1, 2, 5), Entity::trap(Pos::new(1, 2), Trap::CountDown(3))];
    let id = resolve_traps_with(&mut entities, &map, &Vec::new(), 0);
    assert_eq!(id, 0);
    assert_eq!(entities.len(), 2);
    assert_eq!(entities[0], player_at(1, 2, 5));
    assert_eq!(entities[1].typ, EntityType::Trap(Trap::CountDown(2)));
    assert_eq!(entities[1].glyph, '2');
    assert_eq!(entities[1].pos, Pos::new(1, 2));
}

#[test]
fn countdown_at_zero_hurts_and_stays() {
    let map = generate_map(Pos::new(10, 10));
    let mut entities = vec![Entity::trap(Pos::new(1, 2), Trap::CountDown(0)), monster_at(1, 2, 7)];
    resolve_traps_with(&mut entities, &map, &Vec::new(), 1);
    assert_eq!(entities.len(), 2);
    assert_eq!(entities[0], Entity::trap(Pos::new(1, 2), Trap::CountDown(0)));
    assert_eq!(hp_of(&entities[1]), 2);
}

#[test]
fn countdown_one_over_two_ticks() {
    let map = generate_map(Pos::new(10, 10));
    let mut entities = vec![player_at(4, 2, 5), Entity::trap(Pos::new(4, 2), Trap::CountDown(1))];
    resolve_traps_with(&mut entities, &map, &Vec::new(), 0);
    assert_eq!(hp_of(&entities[0]), 5);
    assert_eq!(entities[1], Entity::trap(Pos::new(4, 2), Trap::CountDown(0)));
    assert_eq!(entities[1].glyph, '0');
    resolve_traps_with(&mut entities, &map, &Vec::new(), 0);
    assert_eq!(hp_of(&entities[0]), 0);
    assert_eq!(entities[1], Entity::trap(Pos::new(4, 2), Trap::CountDown(0)));
}

#[test]
fn kill_trap_is_used_up() {
    let map = generate_map(Pos::new(10, 10));
    let mut entities = vec![
        Entity::trap(Pos::new(7, 6), Trap::Kill),
        Entity::trap(Pos::new(7, 8), Trap::Kill),
        player_at(7, 6, 3),
        monster_at(2, 2, 1),
    ];
    let id = resolve_traps_with(&mut entities, &map, &Vec::new(), 2);
    assert_eq!(id, 1);
    assert_eq!(
        entities,
        vec![Entity::trap(Pos::new(7, 8), Trap::Kill), player_at(7, 6, -2), monster_at(2, 2, 1)]
    );
}

#[test]
fn untouched_traps_stay_as_they_are() {
    let map = generate_map(Pos::new(10, 10));
    let before = vec![
        player_at(5, 3, 5),
        Entity::trap(Pos::new(7, 6), Trap::Kill),
        Entity::trap(Pos::new(1, 2), Trap::CountDown(3)),
        Entity::trap(Pos::new(6, 6), Trap::Bump),
    ];
    let mut entities = before.clone();
    resolve_traps_with(&mut entities, &map, &vec![Pos::new(-1, -1); 4], 0);
    assert_eq!(entities, before);
}

#[test]
fn only_the_first_trap_of_a_cell_is_triggered() {
    let map = generate_map(Pos::new(10, 10));
    let mut entities = vec![
        player_at(3, 3, 5),
        Entity::trap(Pos::new(3, 3), Trap::CountDown(2)),
        Entity::trap(Pos::new(3, 3), Trap::Kill),
    ];
    resolve_traps_with(&mut entities, &map, &Vec::new(), 0);
    assert_eq!(
        entities,
        vec![
            player_at(3, 3, 5),
            Entity::trap(Pos::new(3, 3), Trap::CountDown(1)),
            Entity::trap(Pos::new(3, 3), Trap::Kill),
        ]
    );
}

#[test]
fn berserk_trap_sets_the_status() {
    let map = generate_map(Pos::new(10, 10));
    let mut entities = vec![
        player_at(8, 8, 5),
        monster_at(3, 8, 1),
        Entity::trap(Pos::new(8, 8), Trap::Berserk),
        Entity::trap(Pos::new(3, 8), Trap::Berserk),
    ];
    resolve_traps_with(&mut entities, &map, &Vec::new(), 0);
    assert_eq!(
        entities[0].typ,
        EntityType::Player(Player { hp: 5, max_hp: 5, status: Some(Status::Berserk) })
    );
    assert_eq!(
        entities[1].typ,
        EntityType::Monster(Monster { hp: 1, max_hp: 1, status: Some(Status::Berserk) })
    );
    assert_eq!(entities.len(), 4);
}

#[test]
fn teleport_goes_to_the_next_teleport_trap() {
    let map = generate_map(Pos::new(10, 10));
    let mut entities = vec![
        player_at(7, 2, 5),
        Entity::trap(Pos::new(7, 2), Trap::Teleport),
        Entity::trap(Pos::new(4, 8), Trap::Teleport),
        Entity::trap(Pos::new(2, 2), Trap::Teleport),
        monster_at(2, 2, 1),
    ];
    assert_eq!(next_teleport(&entities, 1), Some(2));
    assert_eq!(next_teleport(&entities, 2), Some(3));
    assert_eq!(next_teleport(&entities, 3), Some(1));
    resolve_traps_with(&mut entities, &map, &Vec::new(), 0);
    assert_eq!(entities[0].pos, Pos::new(4, 8));
    assert_eq!(entities[4].pos, Pos::new(7, 2));
    assert_eq!(entities.len(), 5);
}

#[test]
fn lone_teleport_leaves_the_creature_in_place() {
    let map = generate_map(Pos::new(10, 10));
    let mut entities = vec![
        Entity::trap(Pos::new(1, 1), Trap::Kill),
        player_at(7, 2, 5),
        Entity::trap(Pos::new(7, 2), Trap::Teleport),
    ];
    assert_eq!(next_teleport(&entities, 2), Some(2));
    let before = entities.clone();
    resolve_traps_with(&mut entities, &map, &Vec::new(), 1);
    assert_eq!(entities, before);
}

#[test]
fn bump_moves_by_the_offset_unless_blocked() {
    let map = generate_map(Pos::new(10, 10));
    let mut entities = vec![player_at(6, 6, 5), Entity::trap(Pos::new(6, 6), Trap::Bump)];
    resolve_traps_with(&mut entities, &map, &vec![Pos::new(-1, 0)], 0);
    assert_eq!(entities[0].pos, Pos::new(5, 6));
    let mut entities = vec![player_at(6, 6, 5), Entity::trap(Pos::new(6, 6), Trap::Bump)];
    resolve_traps_with(&mut entities, &map, &vec![Pos::new(-1, -1)], 0);
    assert_eq!(entities[0].pos, Pos::new(5, 5));
    let mut entities = vec![player_at(6, 6, 5), Entity::trap(Pos::new(6, 6), Trap::Bump)];
    resolve_traps_with(&mut entities, &map, &vec![Pos::new(0, 0)], 0);
    assert_eq!(entities[0].pos, Pos::new(6, 6));
    // next to the wall the move is discarded as a whole
    let mut entities = vec![player_at(1, 6, 5), Entity::trap(Pos::new(1, 6), Trap::Bump)];
    resolve_traps_with(&mut entities, &map, &vec![Pos::new(-1, -1)], 0);
    assert_eq!(entities[0].pos, Pos::new(1, 6));
}

#[test]
fn drawn_offsets_are_minus_one_or_zero() {
    let entities = vec![
        player_at(6, 6, 5),
        Entity::trap(Pos::new(6, 6), Trap::Bump),
        monster_at(2, 2, 1),
        Entity::trap(Pos::new(2, 2), Trap::Kill),
    ];
    let mut seen_minus = false;
    let mut seen_zero = false;
    for _ in 0..200 {
        let offs = draw_offsets(&entities);
        assert_eq!(offs.len(), 4);
        assert!(offs[0].x == -1 || offs[0].x == 0);
        assert!(offs[0].y == -1 || offs[0].y == 0);
        seen_minus = seen_minus || offs[0].x == -1;
        seen_zero = seen_zero || offs[0].x == 0;
        assert_eq!(offs[1], Pos::new(0, 0));
        assert_eq!(offs[2], Pos::new(0, 0));
        assert_eq!(offs[3], Pos::new(0, 0));
    }
    assert!(seen_minus && seen_zero);
}

#[test]
fn random_bump_ends_on_one_of_four_cells() {
    let map = generate_map(Pos::new(10, 10));
    for _ in 0..50 {
        let mut entities = vec![player_at(6, 6, 5), Entity::trap(Pos::new(6, 6), Trap::Bump)];
        let id = resolve_traps(&mut entities, &map, 0);
        assert_eq!(id, 0);
        let p = entities[0].pos;
        assert!((p.x == 5 || p.x == 6) && (p.y == 5 || p.y == 6));
        assert_eq!(entities[1], Entity::trap(Pos::new(6, 6), Trap::Bump));
    }
}

#[test]
fn dead_monsters_leave_and_order_stays() {
    let mut entities = vec![
        monster_at(1, 1, 0),
        Entity::trap(Pos::new(2, 2), Trap::Kill),
        monster_at(3, 3, 2),
        player_at(5, 3, -1),
        monster_at(4, 4, -3),
        monster_at(6, 6, 1),
    ];
    let id = remove_dead(&mut entities, 3);
    assert_eq!(id, 2);
    assert_eq!(
        entities,
        vec![
            Entity::trap(Pos::new(2, 2), Trap::Kill),
            monster_at(3, 3, 2),
            player_at(5, 3, -1),
            monster_at(6, 6, 1),
        ]
    );
}

#[test]
fn tick_without_turn_runs_no_phase() {
    let mut game = game_with(vec![player_at(5, 3, 5), monster_at(6, 3, 1)]);
    game.update_with(&keys(false, false, false, false), &Vec::new());
    assert_eq!(game.entities, vec![player_at(5, 3, 5), monster_at(6, 3, 1)]);
    assert_eq!(game.game_state, GameState::Playing);
}

#[test]
fn tick_runs_the_phases_in_order() {
    let mut game = game_with(vec![
        monster_at(6, 3, 1),
        player_at(5, 3, 5),
        Entity::trap(Pos::new(4, 3), Trap::CountDown(1)),
        Entity::trap(Pos::new(5, 3), Trap::Kill),
    ]);
    game.player_id = 1;
    game.update_with(&keys(true, false, false, false), &Vec::new());
    // the player moved onto the count-down trap, the goblin onto the Kill trap
    assert_eq!(
        game.entities,
        vec![
            player_at(4, 3, 5),
            Entity::trap(Pos::new(4, 3), Trap::CountDown(0)),
        ]
    );
    assert_eq!(game.player_id, 0);
    assert_eq!(game.game_state, GameState::Playing);
}

#[test]
fn player_at_zero_loses_and_the_game_stops() {
    let mut game = game_with(vec![
        player_at(5, 3, 5),
        Entity::trap(Pos::new(4, 3), Trap::Kill),
        monster_at(8, 3, 1),
    ]);
    game.update_with(&keys(true, false, false, false), &Vec::new());
    assert_eq!(game.game_state, GameState::Lost);
    assert_eq!(game.entities, vec![player_at(4, 3, 0), monster_at(7, 3, 1)]);
    assert_eq!(game.player_id, 0);
    let frozen = game.entities.clone();
    game.update_with(&keys(false, true, false, false), &Vec::new());
    game.update(&keys(false, false, false, true));
    assert_eq!(game.game_state, GameState::Lost);
    assert_eq!(game.entities, frozen);
}

#[test]
fn random_tick_keeps_the_player_resolvable() {
    let mut game = Game::new();
    for step in 0..40 {
        let input = keys(step % 4 == 0, step % 4 == 1, step % 4 == 2, step % 4 == 3);
        game.update(&input);
        assert!(game.entities[game.player_id].typ.is_player());
        assert_eq!(game.entities.iter().filter(|e| e.typ.is_player()).count(), 1);
    }
}
