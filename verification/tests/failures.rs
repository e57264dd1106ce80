use statrs::StatsError;

#[test]
fn failures_are_told_apart() {
    assert_ne!(StatsError::OutOfDomain, StatsError::InvalidStructure);
    assert_ne!(StatsError::OutOfDomain, StatsError::Undefined);
    assert_ne!(StatsError::InvalidStructure, StatsError::Undefined);
}

#[test]
fn failures_are_described_in_words() {
    assert_eq!(
        StatsError::OutOfDomain.description(),
        "argument lies outside the declared domain"
    );
    assert_eq!(
        StatsError::InvalidStructure.description(),
        "argument has an invalid structure"
    );
    assert_eq!(
        StatsError::Undefined.description(),
        "result is numerically undefined"
    );
}

#[test]
fn failures_can_be_copied_and_printed() {
    let e = StatsError::Undefined;
    let f = e;
    assert_eq!(e, f);
    assert_eq!(format!("{:?}", e), "Undefined");
}
