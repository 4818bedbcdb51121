use talasum::json;

#[test]
fn generation_is_reproducible() {
    let mut first = json::number(1);
    let mut sec = json::number(1);
    assert_eq!(first.next().unwrap(), sec.next().unwrap());
    assert_eq!(first.next().unwrap(), sec.next().unwrap());
    assert_eq!(first.next().unwrap(), sec.next().unwrap());
}

#[test]
fn generation_is_seedable() {
    let mut first = json::number(1);
    let mut sec = json::number(2);
    assert_ne!(first.next().unwrap(), sec.next().unwrap());
}

#[test]
fn every_json_generator_yields_values() {
    for mut generator in [
        json::number(7),
        json::boolean(7),
        json::null(7),
        json::string(7),
        json::array(7),
        json::object(7),
    ] {
        for _ in 0..10 {
            assert!(generator.next().is_ok());
        }
    }
}
