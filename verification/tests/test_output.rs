use langgen::DebugOutput;
use langgen::Gender;
use langgen::Named;
use langgen::Output;
use langgen::OutputBuilder;
use langgen::named::Factory;
use langgen::named::NameRecord;

fn new_obj(name: &str, sex: Gender, thing: bool) -> NameRecord {
    let nf = Factory::from_reader("man:men\n").unwrap();
    nf.create(name, sex, thing)
}

fn me() -> NameRecord {
    new_obj("!ItsMe, !It Is Me", Gender::Male, false)
}

fn adam() -> NameRecord {
    new_obj("!Adam, !Adam Evasman", Gender::Male, false)
}

fn eva() -> NameRecord {
    new_obj("!Eva, !Eva Adamsfru", Gender::Female, false)
}

fn apple() -> NameRecord {
    new_obj("apple, green apple", Gender::Neuter, true)
}

fn apples() -> NameRecord {
    new_obj("apples, red apples", Gender::Plural, true)
}

fn dust() -> NameRecord {
    new_obj("dust, gold dust", Gender::Uncountable, true)
}

#[test]
fn test_debug_output() {
    let mut out = DebugOutput::new();
    out.write_style("bold");
    out.write_text("test");
    out.write_style("/bold");
    out.done();
    assert_eq!(out.last_text, "<bold>test</bold>");
    assert_eq!(out.text, "");
}

fn assert_call<F>(f: F, result: &[&str; 12])
where
    F: Fn(OutputBuilder<DebugOutput>, &NameRecord) -> OutputBuilder<DebugOutput>,
{
    let mut out = DebugOutput::new();
    let me_obj = me();
    out.me = true;
    out = f(OutputBuilder::new(out), &me_obj).render();
    assert_eq!(out.last_text, format!("{}.", result[0]));
    out.me = false;

    let objs = vec![me(), adam(), apple(), dust(), apples()];
    let mut idx = 1;
    for o in objs.iter() {
        out = f(OutputBuilder::new(out), o).render();
        assert_eq!(
            out.last_text,
            format!("{}.", result[idx]),
            "{:?} should become {}",
            o.short_name(),
            result[idx],
        );
        idx += 1;
    }

    out.can_see = false;
    out.me = true;
    out = f(OutputBuilder::new(out), &me_obj).render();
    assert_eq!(out.last_text, format!("{}.", result[6]));
    out.me = false;
    idx = 7;
    for o in objs.iter() {
        out = f(OutputBuilder::new(out), o).render();
        assert_eq!(
            out.last_text,
            format!("{}.", result[idx]),
            "{:?} should become {}",
            o.short_name(),
            result[idx],
        );
        idx += 1;
    }
}

#[test]
fn test_out_a() {
    assert_call(
        |ob, obj| ob.a(obj),
        &[
            "You",
            "ItsMe",
            "Adam",
            "An apple",
            "Some dust",
            "Some apples",
            "You",
            "Someone",
            "Someone",
            "Something",
            "Something",
            "Something",
        ],
    );
}

#[test]
fn test_out_the() {
    assert_call(
        |ob, obj| ob.the(obj),
        &[
            "You",
            "ItsMe",
            "Adam",
            "The apple",
            "The dust",
            "The apples",
            "You",
            "Someone",
            "Someone",
            "Something",
            "Something",
            "Something",
        ],
    );
}

#[test]
fn test_out_a_and_the() {
    let mut out = DebugOutput::new();
    let adam = adam();
    let apple = apple();
    let dust = dust();
    let apples = apples();

    out = OutputBuilder::new(out).the(&adam).has(&adam).a(&apple).render();
    assert_eq!(out.last_text, "Adam has an apple.");
    assert_eq!(out.text, "");

    out = OutputBuilder::new(out).the_(&apple).has(&apple).a(&adam).render();
    assert_eq!(out.last_text, "The green apple has Adam.");
    assert_eq!(out.text, "");

    out = OutputBuilder::new(out).the(&dust).s("is cold").render();
    assert_eq!(out.last_text, "The dust is cold.");
    assert_eq!(out.text, "");

    out = OutputBuilder::new(out).a(&dust).render();
    assert_eq!(out.last_text, "Some dust.");
    assert_eq!(out.text, "");

    out = OutputBuilder::new(out).a(&apples).s("and").a_(&apples).render();
    assert_eq!(out.last_text, "Some apples and some red apples.");
    assert_eq!(out.text, "");

    out.can_see = false;
    out = OutputBuilder::new(out).the(&adam).s("has").a(&apple).render();
    assert_eq!(out.last_text, "Someone has something.");
    assert_eq!(out.text, "");

    out = OutputBuilder::new(out).the_(&apple).s("has").a_(&adam).render();
    assert_eq!(out.last_text, "Something has someone.");
    assert_eq!(out.text, "");
}

#[test]
fn test_verb_endings() {
    let mut out = DebugOutput::new();
    let adam = adam();
    let eva = eva();
    let apple = apple();
    let apples = apples();

    out = OutputBuilder::new(out).the(&adam).v_e(&adam, "jump").s("down").render();
    assert_eq!(out.last_text, "Adam jumps down.");
    assert_eq!(out.text, "");

    out = OutputBuilder::new(out).the(&adam).v_e(&adam, "SCREAM").render();
    assert_eq!(out.last_text, "Adam SCREAMS.");

    out = OutputBuilder::new(out).the(&eva).v_e(&eva, "kiss").render();
    assert_eq!(out.last_text, "Eva kisses.");

    out = OutputBuilder::new(out).the(&eva).v_e(&eva, "KISS").render();
    assert_eq!(out.last_text, "Eva KISSES.");

    out = OutputBuilder::new(out).the(&adam).v_e(&adam, "pry").render();
    assert_eq!(out.last_text, "Adam pries.");

    out = OutputBuilder::new(out).the(&adam).v_e(&adam, "PRY").render();
    assert_eq!(out.last_text, "Adam PRIES.");

    out = OutputBuilder::new(out).the(&adam).v_e(&adam, "ay").render();
    assert_eq!(out.last_text, "Adam ays.");

    out = OutputBuilder::new(out).the(&adam).v_e(&adam, "zzz").render();
    assert_eq!(out.last_text, "Adam zzzes.");

    out = OutputBuilder::new(out).the(&adam).v_e(&adam, "ZZZ").render();
    assert_eq!(out.last_text, "Adam ZZZES.");

    out = OutputBuilder::new(out).the(&adam).v_e(&adam, "o").render();
    assert_eq!(out.last_text, "Adam oes.");

    out = OutputBuilder::new(out).the(&adam).v_e(&adam, "O").render();
    assert_eq!(out.last_text, "Adam OES.");

    out = OutputBuilder::new(out).the(&adam).v_e(&adam, "xxx").render();
    assert_eq!(out.last_text, "Adam xxxes.");

    out = OutputBuilder::new(out).the(&adam).v_e(&adam, "XXX").render();
    assert_eq!(out.last_text, "Adam XXXES.");

    out = OutputBuilder::new(out).the(&adam).v_e(&adam, "ch").render();
    assert_eq!(out.last_text, "Adam ches.");

    out = OutputBuilder::new(out).the(&adam).v_e(&adam, "CH").render();
    assert_eq!(out.last_text, "Adam CHES.");

    out = OutputBuilder::new(out).the(&adam).v_e(&adam, "sh").render();
    assert_eq!(out.last_text, "Adam shes.");

    out = OutputBuilder::new(out).the(&adam).v_e(&adam, "SH").render();
    assert_eq!(out.last_text, "Adam SHES.");

    out = OutputBuilder::new(out).the(&adam).v_e(&adam, "ah").render();
    assert_eq!(out.last_text, "Adam ahs.");

    out = OutputBuilder::new(out).the(&adam).v_e(&adam, "AH").render();
    assert_eq!(out.last_text, "Adam AHS.");

    out = OutputBuilder::new(out).the(&apple).v_e(&apple, "fall").render();
    assert_eq!(out.last_text, "The apple falls.");
    assert_eq!(out.text, "");

    out = OutputBuilder::new(out).the(&apples).v_e(&apples, "fall").render();
    assert_eq!(out.last_text, "The apples fall.");
    assert_eq!(out.text, "");

    out.can_see = false;

    out = OutputBuilder::new(out).the(&adam).v_e(&adam, "jump").render();
    assert_eq!(out.last_text, "Someone jumps.");
    assert_eq!(out.text, "");

    out = OutputBuilder::new(out).the(&apple).v_e(&apple, "fall").render();
    assert_eq!(out.last_text, "Something falls.");
    assert_eq!(out.text, "");
}

#[test]
fn test_out_for_me() {
    let mut out = DebugOutput::new();

    let adam = adam();

    out.me = true;

    out = OutputBuilder::new(out).the(&adam).v_e(&adam, "win").render();
    assert_eq!(out.last_text, "You win.");
    assert_eq!(out.text, "");

    out.can_see = false;
    out = OutputBuilder::new(out).the(&adam).v_e(&adam, "win").render();
    assert_eq!(out.last_text, "You win.");
    assert_eq!(out.text, "");
}

#[test]
fn test_my() {
    let mut out = DebugOutput::new();
    let adam = adam();
    let eva = eva();
    let apple = apple();
    let apples = apples();

    out = OutputBuilder::new(out).my(&adam, &apple).render();
    assert_eq!(out.last_text, "His apple.");

    out = OutputBuilder::new(out).my(&eva, &apple).render();
    assert_eq!(out.last_text, "Her apple.");

    out = OutputBuilder::new(out).my(&apples, &apple).render();
    assert_eq!(out.last_text, "Their apple.");

    out = OutputBuilder::new(out).my(&apple, &apple).render();
    assert_eq!(out.last_text, "Its apple.");

    out = OutputBuilder::new(out).my_(&adam, &apple).render();
    assert_eq!(out.last_text, "His green apple.");

    out = OutputBuilder::new(out).my_(&eva, &apple).render();
    assert_eq!(out.last_text, "Her green apple.");

    out = OutputBuilder::new(out).my_(&apples, &apple).render();
    assert_eq!(out.last_text, "Their green apple.");

    out = OutputBuilder::new(out).my_(&apple, &apple).render();
    assert_eq!(out.last_text, "Its green apple.");

    out.can_see = false;
    out = OutputBuilder::new(out).my(&adam, &apple).render();
    assert_eq!(out.last_text, "Something.");

    out = OutputBuilder::new(out).my(&adam, &apples).render();
    assert_eq!(out.last_text, "Something.");

    out = OutputBuilder::new(out).my_(&adam, &apple).render();
    assert_eq!(out.last_text, "Something.");

    out = OutputBuilder::new(out).my_(&adam, &apples).render();
    assert_eq!(out.last_text, "Something.");
}

#[test]
fn test_is_are() {
    let mut out = DebugOutput::new();
    let adam = adam();
    let eva = eva();
    let apple = apple();
    let apples = apples();

    out = OutputBuilder::new(out).the(&adam).is(&adam).render();
    assert_eq!(out.last_text, "Adam is.");

    out = OutputBuilder::new(out).the(&eva).is(&eva).render();
    assert_eq!(out.last_text, "Eva is.");

    out = OutputBuilder::new(out).the(&apple).is(&apple).render();
    assert_eq!(out.last_text, "The apple is.");

    out = OutputBuilder::new(out).the(&apples).is(&apples).render();
    assert_eq!(out.last_text, "The apples are.");

    out.me = true;

    out = OutputBuilder::new(out).the(&adam).is(&adam).render();
    assert_eq!(out.last_text, "You are.");

    out.me = false;

    out.can_see = false;

    out = OutputBuilder::new(out).the(&adam).is(&adam).render();
    assert_eq!(out.last_text, "Someone is.");

    out = OutputBuilder::new(out).the(&apple).is(&apple).render();
    assert_eq!(out.last_text, "Something is.");

    out = OutputBuilder::new(out).the(&apples).is(&apples).render();
    assert_eq!(out.last_text, "Something is.");
}

#[test]
fn test_has_have() {
    let mut out = DebugOutput::new();
    let adam = adam();
    let eva = eva();
    let apple = apple();
    let apples = apples();

    out = OutputBuilder::new(out).the(&adam).has(&adam).render();
    assert_eq!(out.last_text, "Adam has.");

    out = OutputBuilder::new(out).the(&eva).has(&eva).render();
    assert_eq!(out.last_text, "Eva has.");

    out = OutputBuilder::new(out).the(&apple).has(&apple).render();
    assert_eq!(out.last_text, "The apple has.");

    out = OutputBuilder::new(out).the(&apples).has(&apples).render();
    assert_eq!(out.last_text, "The apples have.");

    out.me = true;

    out = OutputBuilder::new(out).the(&adam).has(&adam).render();
    assert_eq!(out.last_text, "You have.");

    out.me = false;

    out.can_see = false;

    out = OutputBuilder::new(out).the(&adam).has(&adam).render();
    assert_eq!(out.last_text, "Someone has.");

    out = OutputBuilder::new(out).the(&apple).has(&apple).render();
    assert_eq!(out.last_text, "Something has.");

    out = OutputBuilder::new(out).the(&apples).has(&apples).render();
    assert_eq!(out.last_text, "Something has.");
}

#[test]
fn test_thes() {
    let mut out = DebugOutput::new();
    let adam = adam();
    let eva = eva();
    let apple = apple();
    let apples = apples();

    out = OutputBuilder::new(out).thes(&adam).render();
    assert_eq!(out.last_text, "Adam's.");
    out = OutputBuilder::new(out).thes(&eva).render();
    assert_eq!(out.last_text, "Eva's.");
    out = OutputBuilder::new(out).thes(&apple).render();
    assert_eq!(out.last_text, "The apple's.");
    out = OutputBuilder::new(out).thes(&apples).render();
    assert_eq!(out.last_text, "The apples'.");

    out.can_see = false;

    out = OutputBuilder::new(out).thes(&adam).render();
    assert_eq!(out.last_text, "Someone's.");
    out = OutputBuilder::new(out).thes(&eva).render();
    assert_eq!(out.last_text, "Someone's.");
    out = OutputBuilder::new(out).thes(&apple).render();
    assert_eq!(out.last_text, "Something's.");
    out = OutputBuilder::new(out).thes(&apples).render();
    assert_eq!(out.last_text, "Something's.");

    out.can_see = true;
    out.me = true;

    out = OutputBuilder::new(out).thes(&adam).render();
    assert_eq!(out.last_text, "Your.");
}

#[test]
fn test_thes_() {
    let mut out = DebugOutput::new();
    let adam = adam();
    let eva = eva();
    let apple = apple();
    let apples = apples();

    out = OutputBuilder::new(out).thes_(&adam).render();
    assert_eq!(out.last_text, "Adam Evasman's.");
    out = OutputBuilder::new(out).thes_(&eva).render();
    assert_eq!(out.last_text, "Eva Adamsfru's.");
    out = OutputBuilder::new(out).thes_(&apple).render();
    assert_eq!(out.last_text, "The green apple's.");
    out = OutputBuilder::new(out).thes_(&apples).render();
    assert_eq!(out.last_text, "The red apples'.");

    out.can_see = false;

    out = OutputBuilder::new(out).thes_(&adam).render();
    assert_eq!(out.last_text, "Someone's.");
    out = OutputBuilder::new(out).thes_(&eva).render();
    assert_eq!(out.last_text, "Someone's.");
    out = OutputBuilder::new(out).thes_(&apple).render();
    assert_eq!(out.last_text, "Something's.");
    out = OutputBuilder::new(out).thes_(&apples).render();
    assert_eq!(out.last_text, "Something's.");

    out.can_see = true;
    out.me = true;

    out = OutputBuilder::new(out).thes_(&adam).render();
    assert_eq!(out.last_text, "Your.");
}

#[test]
fn test_suppress_dot() {
    let out = OutputBuilder::new(DebugOutput::new()).s("hello").suppress_dot().render();
    assert_eq!(out.last_text, "Hello");
}

#[test]
fn test_null_output_discards() {
    let null = OutputBuilder::new(langgen::NullOutput {}).the(&adam()).render();
    let _ = null;
}
