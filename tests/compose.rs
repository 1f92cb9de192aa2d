use tzutrader::{BaseIndicator, Chain, Indicator, Pair};

/// Running mean of the last `P` inputs, keeping its last `S` outputs.
struct Mean<const P: usize, const S: usize> {
    window: BaseIndicator<f64, P>,
    seen: usize,
    out: BaseIndicator<f64, S>,
}

impl<const P: usize, const S: usize> Mean<P, S> {
    fn new() -> Self {
        Mean { window: BaseIndicator::new(), seen: 0, out: BaseIndicator::new() }
    }
}

impl<const P: usize, const S: usize> Indicator for Mean<P, S> {
    type Input = f64;
    type Output = f64;

    fn update(&mut self, value: f64) -> Option<f64> {
        self.window.update(value);
        self.seen += 1;
        if self.seen < P {
            return None;
        }
        let mut sum = 0.0;
        for key in 0..P as i32 {
            sum += self.window.get(-key).unwrap();
        }
        self.out.update(sum / P as f64)
    }

    fn get(&self, key: i32) -> Option<f64> {
        self.out.get(key)
    }

    fn reset(&mut self) {
        self.window.reset();
        self.seen = 0;
        self.out.reset();
    }
}

/// Difference of the two members of a pair, smoothed over the last two pairs.
struct SpreadMean {
    inner: Mean<2, 4>,
}

impl Indicator for SpreadMean {
    type Input = (f64, f64);
    type Output = f64;

    fn update(&mut self, value: (f64, f64)) -> Option<f64> {
        self.inner.update(value.0 - value.1)
    }

    fn get(&self, key: i32) -> Option<f64> {
        self.inner.get(key)
    }

    fn reset(&mut self) {
        self.inner.reset();
    }
}

#[test]
fn running_mean_scenario() {
    let mut ma = Mean::<3, 3>::new();
    let outputs: Vec<Option<f64>> = [5.0, 4.0, 3.0, 6.0].iter().map(|v| ma.update(*v)).collect();
    assert_eq!(outputs[0], None);
    assert_eq!(outputs[1], None);
    assert_eq!(outputs[2], Some(4.0));
    assert!((outputs[3].unwrap() - 13.0 / 3.0).abs() < 1e-12);
    assert_eq!(ma.get(-1), Some(4.0));
    assert_eq!(ma.get(-2), None);
}

#[test]
fn pair_is_ready_when_both_members_are() {
    let mut p = Pair::new(Mean::<2, 2>::new(), Mean::<4, 2>::new());
    let mut ready = Vec::new();
    for v in [1.0, 2.0, 3.0, 4.0, 5.0, 6.0] {
        ready.push(p.update(v).is_some());
    }
    assert_eq!(ready, vec![false, false, false, true, true, true]);
    assert_eq!(p.get(0), Some((5.5, 4.5)));
    assert_eq!(p.get(-1), Some((4.5, 3.5)));
    assert_eq!(p.get(-2), None);
}

#[test]
fn pair_of_buffers_yields_both_inputs() {
    let mut p = Pair::new(BaseIndicator::<i32, 2>::new(), BaseIndicator::<i32, 3>::new());
    assert_eq!(p.update(4), Some((4, 4)));
    assert_eq!(p.update(8), Some((8, 8)));
    assert_eq!(p.update(9), Some((9, 9)));
    assert_eq!(p.get(-1), Some((8, 8)));
    assert_eq!(p.get(-2), None);
}

#[test]
fn smoothing_stage_adds_its_own_warmup() {
    let pair = Pair::new(Mean::<2, 2>::new(), Mean::<3, 2>::new());
    let mut c = Chain::new(pair, SpreadMean { inner: Mean::new() });
    let mut ready = Vec::new();
    for v in [1.0, 2.0, 3.0, 4.0, 5.0] {
        ready.push(c.update(v).is_some());
    }
    // the pair is ready from the third input, the smoothing from the fourth
    assert_eq!(ready, vec![false, false, false, true, true]);
    // spreads: input 3 -> 2.5 - 2.0, input 4 -> 3.5 - 3.0, input 5 -> 4.5 - 4.0
    assert_eq!(c.get(0), Some(0.5));
    assert_eq!(c.get(-1), Some(0.5));
    assert_eq!(c.get(-2), None);
}

#[test]
fn chain_feeds_only_outputs_forward() {
    let mut c = Chain::new(Mean::<2, 3>::new(), BaseIndicator::<f64, 3>::new());
    assert_eq!(c.update(2.0), None);
    assert_eq!(c.get(0), None);
    assert_eq!(c.update(4.0), Some(3.0));
    assert_eq!(c.update(8.0), Some(6.0));
    assert_eq!(c.get(-1), Some(3.0));
    assert_eq!(c.get(-2), None);
}

#[test]
fn composite_reset_replays_identically() {
    let inputs = [2.0, 7.0, 1.0, 8.0, 2.0, 8.0];
    let pair = Pair::new(Mean::<2, 2>::new(), Mean::<3, 2>::new());
    let mut c = Chain::new(pair, SpreadMean { inner: Mean::new() });
    let first: Vec<Option<f64>> = inputs.iter().map(|v| c.update(*v)).collect();
    c.reset();
    assert_eq!(c.get(0), None);
    let second: Vec<Option<f64>> = inputs.iter().map(|v| c.update(*v)).collect();
    assert_eq!(first, second);
    assert!(first[3].is_some());
}
