use heater_control::pattern::generate_evenly_distributed_steps;

fn on_positions(pattern: &[bool]) -> Vec<usize> {
    pattern
        .iter()
        .enumerate()
        .filter(|(_, on)| **on)
        .map(|(i, _)| i)
        .collect()
}

#[test]
fn every_duty_yields_exactly_that_many_on_steps() {
    for duty in 0u8..=100 {
        let pattern = generate_evenly_distributed_steps(duty);
        assert_eq!(pattern.len(), 100);
        let on_steps = pattern.iter().filter(|on| **on).count();
        assert_eq!(on_steps, duty as usize, "duty {}", duty);
    }
}

#[test]
fn zero_duty_is_all_off_and_full_duty_is_all_on() {
    assert!(generate_evenly_distributed_steps(0).iter().all(|on| !*on));
    assert!(generate_evenly_distributed_steps(100).iter().all(|on| *on));
}

#[test]
fn one_percent_fires_mid_cycle() {
    let pattern = generate_evenly_distributed_steps(1);
    assert_eq!(on_positions(&pattern), vec![49]);
}

#[test]
fn two_percent_fires_twice_fifty_steps_apart() {
    let pattern = generate_evenly_distributed_steps(2);
    assert_eq!(on_positions(&pattern), vec![24, 74]);
}

#[test]
fn twentyfive_percent_fires_every_fourth_step() {
    let pattern = generate_evenly_distributed_steps(25);
    let positions = on_positions(&pattern);
    assert_eq!(positions.len(), 25);
    for pair in positions.windows(2) {
        assert_eq!(pair[1] - pair[0], 4);
    }
}

#[test]
fn gaps_between_on_steps_differ_by_at_most_one() {
    for duty in 1u8..=100 {
        let pattern = generate_evenly_distributed_steps(duty);
        let positions = on_positions(&pattern);
        let gaps: Vec<usize> = positions.windows(2).map(|pair| pair[1] - pair[0]).collect();
        if gaps.is_empty() {
            continue;
        }
        let smallest = *gaps.iter().min().unwrap();
        let largest = *gaps.iter().max().unwrap();
        assert!(largest - smallest <= 1, "duty {}: gaps {:?}", duty, gaps);
    }
}

#[test]
fn generation_is_deterministic() {
    for duty in [0u8, 1, 13, 50, 99, 100] {
        let first = generate_evenly_distributed_steps(duty);
        let second = generate_evenly_distributed_steps(duty);
        assert_eq!(first, second);
    }
}
