use cucumber_trellis::options::{
    AttributeOption, AttributeOptions, Driver, EntryPoint, OptionError, OptionKind,
};

fn features(text: &str) -> AttributeOption {
    AttributeOption::Features(String::from(text))
}

fn executor(path: &str) -> AttributeOption {
    AttributeOption::Executor(String::from(path))
}

#[test]
fn kinds_are_found_by_their_names() {
    assert_eq!(OptionKind::named("features"), Ok(OptionKind::Features));
    assert_eq!(OptionKind::named("executor"), Ok(OptionKind::Executor));
    assert_eq!(OptionKind::named("use_tokio"), Ok(OptionKind::UseTokio));
}

#[test]
fn other_names_are_unknown() {
    for name in ["", "feature", "Features", "use-tokio", "spawner", "executor "] {
        let refused = OptionKind::named(name);
        assert_eq!(refused, Err(OptionError::UnknownOption { name: String::from(name) }));
        assert_eq!(refused.unwrap_err().message(), "Unknown option");
    }
}

#[test]
fn kinds_and_options_carry_their_names() {
    assert_eq!(OptionKind::Features.name(), "features");
    assert_eq!(OptionKind::Executor.name(), "executor");
    assert_eq!(OptionKind::UseTokio.name(), "use_tokio");
    assert_eq!(features("x").name(), "features");
    assert_eq!(executor("x").name(), "executor");
    assert_eq!(AttributeOption::UseTokio.name(), "use_tokio");
    assert_eq!(features("x").kind_of(), OptionKind::Features);
    assert_eq!(executor("x").kind_of(), OptionKind::Executor);
    assert_eq!(AttributeOption::UseTokio.kind_of(), OptionKind::UseTokio);
}

#[test]
fn only_use_tokio_stands_alone() {
    assert!(OptionKind::Features.takes_value());
    assert!(OptionKind::Executor.takes_value());
    assert!(!OptionKind::UseTokio.takes_value());
}

#[test]
fn options_are_equal_when_they_are_of_one_kind() {
    assert!(features("a") == features("b"));
    assert!(executor("a") == executor("b"));
    assert!(AttributeOption::UseTokio == AttributeOption::UseTokio);
    assert!(features("a") != executor("a"));
    assert!(executor("a") != AttributeOption::UseTokio);
    assert!(AttributeOption::UseTokio != features("a"));
}

#[test]
fn no_options_settle_to_nothing_given() {
    assert_eq!(
        AttributeOptions::resolve(&vec![]),
        Ok(AttributeOptions { features: None, executor: None, use_tokio: false })
    );
}

#[test]
fn options_settle_to_their_values_in_any_order() {
    let expected = AttributeOptions {
        features: Some(String::from("tests/features")),
        executor: Some(String::from("smol::block_on")),
        use_tokio: false,
    };
    assert_eq!(
        AttributeOptions::resolve(&vec![features("tests/features"), executor("smol::block_on")]),
        Ok(expected.clone())
    );
    assert_eq!(
        AttributeOptions::resolve(&vec![executor("smol::block_on"), features("tests/features")]),
        Ok(expected)
    );
    assert_eq!(
        AttributeOptions::resolve(&vec![AttributeOption::UseTokio, features("f")]),
        Ok(AttributeOptions { features: Some(String::from("f")), executor: None, use_tokio: true })
    );
}

#[test]
fn a_repeated_option_is_refused_under_its_name() {
    let twice = AttributeOptions::resolve(&vec![features("a"), features("b")]);
    assert_eq!(twice, Err(OptionError::DuplicateOption { name: String::from("features"), index: 1 }));
    assert_eq!(twice.unwrap_err().message(), "Duplicate option: features");
    assert_eq!(
        AttributeOptions::resolve(&vec![AttributeOption::UseTokio, features("a"), AttributeOption::UseTokio]),
        Err(OptionError::DuplicateOption { name: String::from("use_tokio"), index: 2 })
    );
}

#[test]
fn the_first_repetition_is_the_one_reported() {
    let items = vec![executor("a"), features("b"), features("c"), executor("d")];
    assert_eq!(
        AttributeOptions::resolve(&items),
        Err(OptionError::DuplicateOption { name: String::from("features"), index: 2 })
    );
}

#[test]
fn a_repetition_is_reported_before_a_clash() {
    let items = vec![AttributeOption::UseTokio, executor("a"), executor("b")];
    assert_eq!(
        AttributeOptions::resolve(&items),
        Err(OptionError::DuplicateOption { name: String::from("executor"), index: 2 })
    );
}

#[test]
fn use_tokio_rules_an_executor_out() {
    let clash = AttributeOptions::resolve(&vec![executor("smol::block_on"), AttributeOption::UseTokio]);
    assert_eq!(clash, Err(OptionError::ExclusiveOptions));
    assert_eq!(clash.unwrap_err().message(), "Cannot use both `use_tokio` and `executor`");
    assert_eq!(
        AttributeOptions::resolve(&vec![AttributeOption::UseTokio, features("f"), executor("e")]),
        Err(OptionError::ExclusiveOptions)
    );
}

#[test]
fn the_entry_point_awaits_under_tokio() {
    let options = AttributeOptions { features: Some(String::from("f")), executor: None, use_tokio: true };
    assert_eq!(
        EntryPoint::plan(options),
        EntryPoint { features: Some(String::from("f")), driver: Driver::Tokio }
    );
    let both = AttributeOptions { features: None, executor: Some(String::from("e")), use_tokio: true };
    assert_eq!(EntryPoint::plan(both), EntryPoint { features: None, driver: Driver::Tokio });
}

#[test]
fn the_entry_point_blocks_on_the_named_executor_or_the_default_one() {
    let named = AttributeOptions { features: None, executor: Some(String::from("smol::block_on")), use_tokio: false };
    assert_eq!(
        EntryPoint::plan(named),
        EntryPoint { features: None, driver: Driver::Executor(String::from("smol::block_on")) }
    );
    let plain = AttributeOptions { features: Some(String::from("f")), executor: None, use_tokio: false };
    assert_eq!(
        EntryPoint::plan(plain),
        EntryPoint {
            features: Some(String::from("f")),
            driver: Driver::Executor(String::from("futures::executor::block_on")),
        }
    );
}
