use roll_simulator::rarity::Rarity;
use roll_simulator::simulation::replay;
use roll_simulator::simulation::run_simulation;
use roll_simulator::simulation::status;
use roll_simulator::simulation::step;
use roll_simulator::simulation::Status;
use roll_simulator::tally::SimulationResult;

fn zero() -> SimulationResult {
    SimulationResult { attempts: 0, uncommon: 0, rare: 0, epic: 0, legendary: 0, ancient: 0 }
}

#[test]
fn limit_zero_takes_no_attempt() {
    let res = run_simulation(0).unwrap();
    assert_eq!(res, zero());
    assert_eq!(res.total_cost(), 0);
}

#[test]
fn replay_with_limit_zero_records_nothing() {
    let draws = vec![Rarity::Rare, Rarity::Ancient];
    let res = replay(0, &draws);
    assert_eq!(res, zero());
    assert_eq!(res.total_cost(), 0);
}

#[test]
fn ten_draws_without_ancient_use_the_limit_up() {
    let draws = vec![
        Rarity::Uncommon,
        Rarity::Rare,
        Rarity::Uncommon,
        Rarity::Epic,
        Rarity::Uncommon,
        Rarity::Legendary,
        Rarity::Rare,
        Rarity::Uncommon,
        Rarity::Uncommon,
        Rarity::Rare,
        Rarity::Epic,
        Rarity::Ancient,
    ];
    let res = replay(10, &draws);
    assert_eq!(res.attempts, 10);
    assert_eq!(res.ancient, 0);
    assert_eq!(res.uncommon, 5);
    assert_eq!(res.rare, 3);
    assert_eq!(res.epic, 1);
    assert_eq!(res.legendary, 1);
    assert_eq!(res.uncommon + res.rare + res.epic + res.legendary, 10);
    assert_eq!(res.total_cost(), 2000);
}

#[test]
fn ancient_on_third_draw_halts_the_run() {
    let draws = vec![
        Rarity::Rare,
        Rarity::Epic,
        Rarity::Ancient,
        Rarity::Uncommon,
        Rarity::Ancient,
        Rarity::Rare,
    ];
    let res = replay(10, &draws);
    assert_eq!(
        res,
        SimulationResult { attempts: 3, uncommon: 0, rare: 1, epic: 1, legendary: 0, ancient: 1 }
    );
    assert_eq!(res.total_cost(), 600);
    let larger = replay(u64::MAX, &draws);
    assert_eq!(larger, res);
}

#[test]
fn ancient_exactly_on_the_limit_is_counted() {
    let draws = vec![Rarity::Uncommon, Rarity::Ancient, Rarity::Rare];
    let res = replay(2, &draws);
    assert_eq!(res.attempts, 2);
    assert_eq!(res.ancient, 1);
    assert_eq!(res.uncommon, 1);
    assert_eq!(res.rare, 0);
}

#[test]
fn ancient_past_the_limit_is_not_drawn() {
    let draws = vec![Rarity::Uncommon, Rarity::Legendary, Rarity::Ancient];
    let res = replay(2, &draws);
    assert_eq!(res.attempts, 2);
    assert_eq!(res.ancient, 0);
    assert_eq!(res.legendary, 1);
}

#[test]
fn replay_stops_when_the_draws_run_out() {
    let draws = vec![Rarity::Epic, Rarity::Epic];
    let res = replay(10, &draws);
    assert_eq!(res.attempts, 2);
    assert_eq!(res.epic, 2);
    assert_eq!(res.ancient, 0);
    let none: Vec<Rarity> = Vec::new();
    assert_eq!(replay(10, &none), zero());
}

#[test]
fn first_draw_ancient_stops_after_one() {
    let draws = vec![Rarity::Ancient, Rarity::Ancient];
    let res = replay(5, &draws);
    assert_eq!(res.attempts, 1);
    assert_eq!(res.ancient, 1);
    assert_eq!(res.total_cost(), 200);
}

#[test]
fn random_runs_end_as_finished_runs() {
    let limits: [u64; 6] = [0, 1, 2, 10, 100, 2000];
    for limit in limits {
        for _ in 0..20 {
            let res = run_simulation(limit).unwrap();
            assert!(res.attempts <= limit);
            assert!(res.ancient <= 1);
            assert_eq!(
                res.uncommon + res.rare + res.epic + res.legendary + res.ancient,
                res.attempts
            );
            if res.ancient == 0 {
                assert_eq!(res.attempts, limit);
            }
            assert!(res.is_well_formed());
            assert_eq!(res.total_cost(), u128::from(res.attempts) * 200);
        }
    }
}

#[test]
fn random_runs_show_every_common_category() {
    let mut uncommon: u64 = 0;
    let mut rare: u64 = 0;
    let mut attempts: u64 = 0;
    for _ in 0..50 {
        let res = run_simulation(200).unwrap();
        uncommon += res.uncommon;
        rare += res.rare;
        attempts += res.attempts;
    }
    assert!(attempts >= 50);
    assert!(uncommon > 0);
    assert!(rare > 0);
    assert!(uncommon > rare / 4);
}

#[test]
fn step_counts_while_running() {
    let mut res = zero();
    assert_eq!(status(&res, 3), Status::Running);
    assert_eq!(step(&mut res, 3, Rarity::Rare), Status::Running);
    assert_eq!(res.attempts, 1);
    assert_eq!(res.rare, 1);
    assert_eq!(step(&mut res, 3, Rarity::Legendary), Status::Running);
    assert_eq!(step(&mut res, 3, Rarity::Uncommon), Status::LimitReached);
    assert_eq!(res.attempts, 3);
    let before = res;
    assert_eq!(step(&mut res, 3, Rarity::Epic), Status::LimitReached);
    assert_eq!(res, before);
}

#[test]
fn step_stops_on_ancient() {
    let mut res = zero();
    assert_eq!(step(&mut res, 10, Rarity::Ancient), Status::AncientHit);
    assert_eq!(res.attempts, 1);
    assert_eq!(res.ancient, 1);
    let before = res;
    assert_eq!(step(&mut res, 10, Rarity::Ancient), Status::AncientHit);
    assert_eq!(res, before);
    assert_eq!(status(&res, 10), Status::AncientHit);
}

#[test]
fn status_with_limit_zero_is_limit_reached() {
    assert_eq!(status(&zero(), 0), Status::LimitReached);
}
