use fortress::tally::{EnemyStatus, EnemyTally};

#[test]
fn spawns_and_kills_are_counted_per_name() {
    let mut t = EnemyTally::new();
    let dartling = "Dartling".to_string();
    let chiton = "Chiton".to_string();
    t.record_spawn(&dartling);
    t.record_spawn(&chiton);
    t.record_spawn(&dartling);
    t.record_kill(&dartling);
    assert_eq!(t.get(&dartling), Some(EnemyStatus { spawned: 2, killed: 1 }));
    assert_eq!(t.get(&chiton), Some(EnemyStatus { spawned: 1, killed: 0 }));
    let mut e = t.entries();
    e.sort_by(|a, b| a.0.cmp(&b.0));
    assert_eq!(
        e,
        vec![
            (chiton.clone(), EnemyStatus { spawned: 1, killed: 0 }),
            (dartling.clone(), EnemyStatus { spawned: 2, killed: 1 }),
        ]
    );
}

#[test]
fn kills_of_unseen_enemies_are_ignored() {
    let mut t = EnemyTally::new();
    t.record_kill(&"Reaper".to_string());
    assert_eq!(t.get(&"Reaper".to_string()), None);
    assert!(t.entries().is_empty());
}

#[test]
fn restored_statuses_replace_earlier_ones() {
    let mut t = EnemyTally::new();
    let name = "Hornet".to_string();
    t.record_spawn(&name);
    t.insert(&name, EnemyStatus { spawned: 7, killed: 5 });
    t.insert(&"Weevil".to_string(), EnemyStatus { spawned: 1, killed: 1 });
    assert_eq!(t.get(&name), Some(EnemyStatus { spawned: 7, killed: 5 }));
    assert_eq!(t.entries().len(), 2);
}

#[test]
fn entries_list_every_name_once() {
    let mut t = EnemyTally::new();
    let names = ["Mite", "Locust", "Mite", "Beetle", "Locust", "Mite"];
    for n in names.iter() {
        t.record_spawn(&n.to_string());
    }
    let mut e = t.entries();
    e.sort_by(|a, b| a.0.cmp(&b.0));
    let listed: Vec<&str> = e.iter().map(|(n, _)| n.as_str()).collect();
    assert_eq!(listed, vec!["Beetle", "Locust", "Mite"]);
    assert_eq!(e[0].1, EnemyStatus { spawned: 1, killed: 0 });
    assert_eq!(e[1].1, EnemyStatus { spawned: 2, killed: 0 });
    assert_eq!(e[2].1, EnemyStatus { spawned: 3, killed: 0 });
}

#[test]
fn a_copy_keeps_every_status() {
    let mut t = EnemyTally::new();
    let name = "Wasp".to_string();
    t.record_spawn(&name);
    t.record_kill(&name);
    let c = t.clone();
    t.record_spawn(&name);
    assert_eq!(c.get(&name), Some(EnemyStatus { spawned: 1, killed: 1 }));
    assert_eq!(t.get(&name), Some(EnemyStatus { spawned: 2, killed: 1 }));
}
