use langgen::Gender;
use langgen::Named;
use langgen::named::Factory;
use langgen::named::NameRecord;

fn new_obj(name: &str, sex: Gender, thing: bool) -> NameRecord {
    let nf = Factory::from_reader("man:men\n").unwrap();
    nf.create(name, sex, thing)
}

fn adam() -> NameRecord {
    new_obj("!Adam, !Adam Evasman", Gender::Male, false)
}

fn eva() -> NameRecord {
    new_obj("!Eva, !Eva Adamsfru", Gender::Female, false)
}

#[test]
fn test_names_short_name() {
    let adam = adam();
    assert_eq!(adam.short_name(), "Adam");

    let eva = eva();
    assert_eq!(eva.short_name(), "Eva");
}

#[test]
fn test_names_long_name() {
    let adam = adam();
    assert_eq!(adam.long_name(), "Adam Evasman");

    let eva = eva();
    assert_eq!(eva.long_name(), "Eva Adamsfru");
}
