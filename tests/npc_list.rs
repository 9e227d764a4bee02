use npc_list::{GameError, GameResult, InvalidValue, NPCList, NPC, NPC_LIST_MAX_CAP};

fn alive_npc() -> NPC {
    let mut npc = NPC::empty();
    npc.cond.set_alive(true);
    npc
}

fn alive_count(map: &NPCList) -> usize {
    map.iter_alive().count(map)
}

fn test_tick(npc: &mut NPC) -> GameResult {
    npc.action_counter += 1;
    Ok(())
}

#[test]
fn test_npc_list() -> GameResult {
    let mut npc = NPC::empty();
    npc.cond.set_alive(true);

    {
        let mut map = Box::new(NPCList::new());
        let mut ctr = 20;

        map.spawn(0, npc.clone())?;
        map.spawn(2, npc.clone())?;
        map.spawn(256, npc.clone())?;

        assert_eq!(map.iter_alive().count(&map), 3);

        let mut it = map.iter();
        while let Some(id) = it.next(&map) {
            if ctr > 0 {
                ctr -= 1;
                map.spawn(100, npc.clone())?;
                map.spawn(400, npc.clone())?;
            }

            if map.get_npc(id as usize).unwrap().cond.alive() {
                let mut held = map.checkout(id)?;
                test_tick(&mut held)?;
                map.checkin(id, held)?;
            }
        }

        assert_eq!(map.iter_alive().count(&map), 43);

        let mut it = map.iter();
        let mut skipped = 0;
        while let Some(id) = it.next(&map) {
            if skipped < 256 {
                skipped += 1;
                continue;
            }
            if map.get_npc(id as usize).unwrap().cond.alive() {
                let mut held = map.checkout(id)?;
                held.cond.set_alive(false);
                map.checkin(id, held)?;
            }
        }

        assert_eq!(map.iter_alive().count(&map), 22);

        assert!(map.spawn((NPC_LIST_MAX_CAP + 1) as u16, npc.clone()).is_err());

        map.clear();
        assert_eq!(map.iter_alive().count(&map), 0);

        for i in 0..map.max_capacity() {
            map.spawn(i, npc.clone())?;
        }

        assert!(map.spawn(0, npc.clone()).is_err());
    }

    Ok(())
}

#[test]
fn capacity_is_512_and_fixed() {
    let mut map = NPCList::new();
    assert_eq!(map.max_capacity(), 512);
    assert_eq!(NPC_LIST_MAX_CAP, 512);
    map.spawn(7, alive_npc()).unwrap();
    map.clear();
    assert_eq!(map.max_capacity(), 512);
}

#[test]
fn new_list_slots_carry_their_index() {
    let map = NPCList::new();
    assert_eq!(map.current_capacity(), 0);
    assert_eq!(map.get_npc(0).unwrap().id, 0);
    assert_eq!(map.get_npc(511).unwrap().id, 511);
    assert!(!map.get_npc(300).unwrap().cond.alive());
    assert!(map.get_npc(512).is_none());
    assert_eq!(alive_count(&map), 0);
}

#[test]
fn spawn_takes_first_free_at_or_after_min() {
    let mut map = NPCList::new();
    map.spawn(5, alive_npc()).unwrap();
    map.spawn(5, alive_npc()).unwrap();
    assert_eq!(map.get_npc(5).unwrap().id, 5);
    assert!(map.get_npc(6).unwrap().cond.alive());
    assert!(!map.get_npc(4).unwrap().cond.alive());
    assert_eq!(map.current_capacity(), 7);
}

#[test]
fn spawn_reuses_dead_slot() {
    let mut map = NPCList::new();
    map.spawn(0, alive_npc()).unwrap();
    map.spawn(0, NPC::empty()).unwrap();
    assert_eq!(map.current_capacity(), 2);
    map.spawn(0, alive_npc()).unwrap();
    assert!(map.get_npc(1).unwrap().cond.alive());
    assert!(!map.get_npc(2).unwrap().cond.alive());
}

#[test]
fn spawn_skips_checked_out_slot() {
    let mut map = NPCList::new();
    let held = map.checkout(0).unwrap();
    map.spawn(0, alive_npc()).unwrap();
    assert!(!map.get_npc(0).unwrap().cond.alive());
    assert!(map.get_npc(1).unwrap().cond.alive());
    map.checkin(0, held).unwrap();
}

#[test]
fn spawn_prepares_fields() {
    let mut map = NPCList::new();
    map.set_rng_seed(1234);
    let mut npc = alive_npc();
    npc.direction = 2;
    npc.id = 99;
    map.spawn(10, npc).unwrap();
    let placed = map.get_npc(10).unwrap();
    assert_eq!(placed.id, 10);
    assert_eq!(placed.tsc_direction, 2);
    assert_eq!(placed.rng_seed, 1234);

    let mut npc = alive_npc();
    npc.direction = 2;
    npc.tsc_direction = 5;
    map.spawn_at_slot(20, npc).unwrap();
    assert_eq!(map.get_npc(20).unwrap().tsc_direction, 5);
    assert_eq!(map.get_npc(20).unwrap().id, 20);
}

#[test]
fn spawn_out_of_bounds() {
    let mut map = NPCList::new();
    assert_eq!(
        map.spawn(512, alive_npc()),
        Err(GameError::InvalidValue(InvalidValue::IdOutOfBounds))
    );
    assert_eq!(map.current_capacity(), 0);
}

#[test]
fn spawn_no_free_slot() {
    let mut map = NPCList::new();
    map.spawn_at_slot(511, alive_npc()).unwrap();
    assert_eq!(
        map.spawn(511, alive_npc()),
        Err(GameError::InvalidValue(InvalidValue::NoFreeSlot))
    );
}

#[test]
fn spawn_at_slot_overwrites_alive_entity() {
    let mut map = NPCList::new();
    let mut first = alive_npc();
    first.action_counter = 9;
    map.spawn_at_slot(3, first).unwrap();
    map.spawn_at_slot(3, alive_npc()).unwrap();
    assert_eq!(map.get_npc(3).unwrap().action_counter, 0);
    assert_eq!(map.current_capacity(), 4);
    assert_eq!(
        map.spawn_at_slot(512, alive_npc()),
        Err(GameError::InvalidValue(InvalidValue::IdOutOfBounds))
    );
}

#[test]
fn cursor_is_high_water_mark() {
    let mut map = NPCList::new();
    map.spawn_at_slot(40, alive_npc()).unwrap();
    assert_eq!(map.current_capacity(), 41);
    map.spawn_at_slot(10, alive_npc()).unwrap();
    assert_eq!(map.current_capacity(), 41);
    map.spawn(300, alive_npc()).unwrap();
    assert_eq!(map.current_capacity(), 301);
    map.clear();
    assert_eq!(map.current_capacity(), 0);
}

#[test]
fn walk_visits_slots_spawned_during_it() {
    let mut map = NPCList::new();
    map.spawn(0, alive_npc()).unwrap();
    let mut it = map.iter();
    let mut visited = Vec::new();
    while let Some(id) = it.next(&map) {
        if id == 0 {
            map.spawn(5, alive_npc()).unwrap();
        }
        visited.push(id);
    }
    assert_eq!(visited, vec![0, 1, 2, 3, 4, 5]);
}

#[test]
fn alive_walk_skips_dead_and_checked_out() {
    let mut map = NPCList::new();
    map.spawn_at_slot(0, alive_npc()).unwrap();
    map.spawn_at_slot(1, NPC::empty()).unwrap();
    map.spawn_at_slot(2, alive_npc()).unwrap();
    map.spawn_at_slot(3, alive_npc()).unwrap();
    let held = map.checkout(2).unwrap();
    let mut it = map.iter_alive();
    let mut seen = Vec::new();
    while let Some(id) = it.next(&map) {
        seen.push(id);
    }
    assert_eq!(seen, vec![0, 3]);
    assert_eq!(alive_count(&map), 2);
    map.checkin(2, held).unwrap();
    assert_eq!(alive_count(&map), 3);
}

#[test]
fn checkout_conflicts() {
    let mut map = NPCList::new();
    let held = map.checkout(4).unwrap();
    assert_eq!(map.checkout(4), Err(GameError::BorrowConflict));
    assert_eq!(map.checkout(600), Err(GameError::InvalidValue(InvalidValue::IdOutOfBounds)));
    map.checkin(4, held).unwrap();
    assert_eq!(map.checkin(4, held), Err(GameError::NotCheckedOut));
}

#[test]
fn clear_renumbers_by_walk_position() {
    let mut map = NPCList::new();
    map.spawn_at_slot(3, alive_npc()).unwrap();
    map.spawn_at_slot(7, alive_npc()).unwrap();
    map.spawn_at_slot(9, NPC::empty()).unwrap();
    map.clear();
    assert_eq!(map.get_npc(3).unwrap().id, 0);
    assert_eq!(map.get_npc(7).unwrap().id, 1);
    assert_eq!(map.get_npc(9).unwrap().id, 9);
    assert!(!map.get_npc(3).unwrap().cond.alive());
    assert_eq!(alive_count(&map), 0);
}

#[test]
fn clear_leaves_checked_out_slot() {
    let mut map = NPCList::new();
    map.spawn_at_slot(0, alive_npc()).unwrap();
    map.spawn_at_slot(1, alive_npc()).unwrap();
    let held = map.checkout(0).unwrap();
    map.clear();
    assert!(map.get_npc(0).unwrap().cond.alive());
    assert_eq!(map.get_npc(1).unwrap().id, 0);
    map.checkin(0, held).unwrap();
    assert_eq!(alive_count(&map), 0);
}
