use neural_net::{progress_due, take_parameters, Activation, Error, Schedule, Seeded, Step};

fn drain(mut s: Schedule) -> Vec<Step> {
    let mut out = Vec::new();
    while let Some(step) = s.next() {
        out.push(step);
    }
    out
}

#[test]
fn schedule_visits_samples_in_order_each_epoch() {
    let steps = drain(Schedule::new(2, 3));
    let order: Vec<(u16, usize)> = steps.iter().map(|s| (s.epoch, s.sample)).collect();
    assert_eq!(order, vec![(1, 0), (1, 1), (1, 2), (2, 0), (2, 1), (2, 2)]);
    let reports: Vec<bool> = steps.iter().map(|s| s.report).collect();
    assert_eq!(reports, vec![true, false, false, true, false, false]);
}

#[test]
fn zero_epochs_take_no_step() {
    assert!(drain(Schedule::new(0, 4)).is_empty());
}

#[test]
fn no_samples_take_no_step() {
    assert!(drain(Schedule::new(5, 0)).is_empty());
}

#[test]
fn xor_schedule_length() {
    assert_eq!(drain(Schedule::new(10000, 4)).len(), 40000);
}

#[test]
fn progress_every_epoch_below_a_hundred() {
    for i in 1..=99u16 {
        assert!(progress_due(i, 99));
    }
}

#[test]
fn progress_every_hundredth_epoch() {
    assert!(progress_due(100, 10000));
    assert!(!progress_due(101, 10000));
    assert!(progress_due(10000, 10000));
    assert!(progress_due(1, 100));
    assert!(!progress_due(3, 250));
    assert!(progress_due(4, 250));
}

#[test]
fn take_parameters_keeps_leading_entries() {
    assert_eq!(take_parameters(vec![1, 2, 3], 2), Ok(vec![1, 2]));
    assert_eq!(take_parameters(vec![1, 2], 2), Ok(vec![1, 2]));
}

#[test]
fn take_parameters_rejects_short_list() {
    assert!(matches!(take_parameters(vec![7], 2), Err(Error::SerdeError(_))));
}

#[test]
fn seeded_sequence_is_xorshift() {
    let mut s = Seeded::new(1);
    assert_eq!(s.next_u64(), 1082269761);
    let mut a = Seeded::new(42);
    let mut b = Seeded::new(42);
    assert_eq!(a.take(5), b.take(5));
    let mut z = Seeded::new(0);
    assert_ne!(z.next_u64(), 0);
}

#[test]
fn activation_variants_are_distinct() {
    assert_ne!(Activation::Sigmoid, Activation::Tanh);
    assert_eq!(Activation::ReLU, Activation::ReLU);
}
