use roll_simulator::error::SimError;
use roll_simulator::rarity::rarity_weights;
use roll_simulator::rarity::Rarity;
use roll_simulator::sampler::build_distribution;
use roll_simulator::sampler::WeightedSampler;

#[test]
fn empty_weights_are_refused() {
    let weights: Vec<u64> = Vec::new();
    assert!(matches!(WeightedSampler::new(&weights), Err(SimError::InvalidWeights)));
}

#[test]
fn a_zero_weight_is_refused() {
    assert!(matches!(WeightedSampler::new(&vec![1, 0, 2]), Err(SimError::InvalidWeights)));
    assert!(matches!(WeightedSampler::new(&vec![0]), Err(SimError::InvalidWeights)));
    assert!(matches!(WeightedSampler::new(&vec![5, 5, 0]), Err(SimError::InvalidWeights)));
}

#[test]
fn a_sum_that_does_not_fit_is_refused() {
    assert!(matches!(WeightedSampler::new(&vec![u64::MAX, 1]), Err(SimError::InvalidWeights)));
    assert!(matches!(
        WeightedSampler::new(&vec![1 << 63, 1 << 63]),
        Err(SimError::InvalidWeights)
    ));
}

#[test]
fn positive_weights_are_accepted() {
    assert!(WeightedSampler::new(&vec![1]).is_ok());
    assert!(WeightedSampler::new(&vec![u64::MAX]).is_ok());
    assert!(WeightedSampler::new(&vec![u64::MAX - 1, 1]).is_ok());
    assert!(WeightedSampler::new(&rarity_weights()).is_ok());
}

#[test]
fn samples_stay_within_the_weights() {
    let weights: Vec<u64> = vec![1, 2, 3];
    let mut sampler = WeightedSampler::new(&weights).ok().unwrap();
    let mut seen = [0u32; 3];
    for _ in 0..3000 {
        let i = sampler.sample();
        assert!(i < weights.len());
        seen[i] += 1;
    }
    assert!(seen[0] > 0);
    assert!(seen[1] > 0);
    assert!(seen[2] > 0);
}

#[test]
fn a_single_weight_is_always_drawn() {
    let mut sampler = WeightedSampler::new(&vec![7]).ok().unwrap();
    for _ in 0..100 {
        assert_eq!(sampler.sample(), 0);
    }
}

#[test]
fn a_heavy_weight_is_drawn_most_often() {
    let mut sampler = WeightedSampler::new(&vec![1, 1_000_000]).ok().unwrap();
    let mut heavy: u32 = 0;
    for _ in 0..1000 {
        if sampler.sample() == 1 {
            heavy += 1;
        }
    }
    assert!(heavy > 900);
}

#[test]
fn the_fixed_distribution_is_built() {
    let mut sampler = build_distribution().ok().unwrap();
    let mut uncommon: u32 = 0;
    let mut ancient: u32 = 0;
    for _ in 0..4000 {
        match sampler.draw() {
            Rarity::Uncommon => uncommon += 1,
            Rarity::Ancient => ancient += 1,
            _ => {}
        }
    }
    assert!(uncommon > 1500);
    assert!(ancient < 400);
}

#[test]
fn draw_never_gives_a_category_out_of_five_other_weights() {
    let mut sampler = WeightedSampler::new(&vec![1, 1, 1, 1, 1_000_000]).ok().unwrap();
    let mut ancient: u32 = 0;
    for _ in 0..1000 {
        if sampler.draw() == Rarity::Ancient {
            ancient += 1;
        }
    }
    assert!(ancient > 900);
}
