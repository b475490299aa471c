use langgen::suffix::Suffix;

#[test]
fn test_new() {
    let s = Suffix::new(vec![(String::from("abc"), 1)]);
    match s.lookup("abc") {
        Some((s, 1)) => assert_eq!(s, "abc"),
        _ => panic!("lookup did not find 'abc'"),
    }
    match s.lookup("xabc") {
        Some((s, 1)) => assert_eq!(s, "abc"),
        _ => panic!("lookup did not find 'xabc'"),
    }
    match s.lookup("cba") {
        None => (),
        _ => panic!("lookup found 'abc'"),
    }
}

#[test]
fn test_lookup_first_match() {
    let s = Suffix::new(vec![(String::from("s"), 1), (String::from("ss"), 2)]);
    match s.lookup("kiss") {
        Some((p, v)) => {
            assert_eq!(p, "s");
            assert_eq!(v, 1);
        },
        None => panic!("lookup found nothing for 'kiss'"),
    }
}

#[test]
fn test_lookup_keeps_duplicates_in_order() {
    let s = Suffix::new(vec![(String::from("e"), 7), (String::from("e"), 8)]);
    match s.lookup("tree") {
        Some((p, v)) => {
            assert_eq!(p, "e");
            assert_eq!(v, 7);
        },
        None => panic!("lookup found nothing for 'tree'"),
    }
}
