use rand::Rng;
use statrs::random::RandomSource;

#[test]
fn xorshift_yields_the_bits_of_its_generator() {
    let mut ours = rand::weak_rng();
    let mut theirs = ours.clone();
    for _ in 0..100 {
        assert_eq!(RandomSource::next_u32(&mut ours), Rng::next_u32(&mut theirs));
    }
}

#[test]
fn xorshift_moves_on_with_every_draw() {
    let mut source = rand::weak_rng();
    let mut ahead = source.clone();
    let _ = Rng::next_u32(&mut ahead);
    let _ = RandomSource::next_u32(&mut source);
    for _ in 0..100 {
        assert_eq!(RandomSource::next_u32(&mut source), Rng::next_u32(&mut ahead));
    }
}

#[test]
fn xorshift_does_not_repeat_one_value() {
    let mut source = rand::weak_rng();
    let first = RandomSource::next_u32(&mut source);
    let mut other = false;
    for _ in 0..64 {
        other = other || RandomSource::next_u32(&mut source) != first;
    }
    assert!(other);
}
