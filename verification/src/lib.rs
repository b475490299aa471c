pub mod named;
pub mod suffix;
pub mod templates;
pub mod text;

use vstd::prelude::*;

verus! {

use crate::named::NameRecord;

/// Grammatical gender of a named entity; also carries grammatical number.
#[derive(Copy, Clone, Debug, PartialEq, Eq, Structural)]
pub enum Gender {
    Male,
    Female,
    Neuter,
    Plural,
    Uncountable,
}

/// Is this gender treated as grammatically singular?
pub open spec fn spec_is_singular(gender: Gender) -> bool {
    match gender {
        Gender::Plural | Gender::Uncountable => false,
        _ => true,
    }
}

/// The four naming forms of an entity, with a properness flag for each,
/// plus grammatical gender and a thing-versus-person classification.
pub trait Named {
    spec fn spec_gender(&self) -> Gender;

    spec fn spec_is_thing(&self) -> bool;

    spec fn spec_short_proper(&self) -> bool;

    spec fn spec_short_name(&self) -> Seq<char>;

    spec fn spec_long_proper(&self) -> bool;

    spec fn spec_long_name(&self) -> Seq<char>;

    spec fn spec_short_plural_proper(&self) -> bool;

    spec fn spec_short_plural_name(&self) -> Seq<char>;

    spec fn spec_long_plural_proper(&self) -> bool;

    spec fn spec_long_plural_name(&self) -> Seq<char>;

    /// The gender of the Named.
    fn gender(&self) -> (g: Gender)
        ensures
            g == self.spec_gender(),
    ;

    fn is_thing(&self) -> (b: bool)
        ensures
            b == self.spec_is_thing(),
    ;

    fn is_short_proper(&self) -> (b: bool)
        ensures
            b == self.spec_short_proper(),
    ;

    fn short_name(&self) -> (r: &str)
        ensures
            r@ == self.spec_short_name(),
    ;

    fn is_long_proper(&self) -> (b: bool)
        ensures
            b == self.spec_long_proper(),
    ;

    fn long_name(&self) -> (r: &str)
        ensures
            r@ == self.spec_long_name(),
    ;

    fn is_short_plural_proper(&self) -> (b: bool)
        ensures
            b == self.spec_short_plural_proper(),
    ;

    fn short_plural_name(&self) -> (r: &str)
        ensures
            r@ == self.spec_short_plural_name(),
    ;

    fn is_long_plural_proper(&self) -> (b: bool)
        ensures
            b == self.spec_long_plural_proper(),
    ;

    fn long_plural_name(&self) -> (r: &str)
        ensures
            r@ == self.spec_long_plural_name(),
    ;
}

/// An Object is an object or subject of a rendered sentence.
pub trait Object: Named {

}

/// A viewer's answers about what it can perceive of other entities, and
/// about its own properties.  Each answer is fixed by the corresponding
/// spec function, which every implementation chooses.
pub trait Viewer {
    spec fn sees(&self, who: &NameRecord) -> bool;

    spec fn allows(&self, verb: Seq<char>, who: &NameRecord) -> bool;

    spec fn owns(&self, property: Seq<char>) -> bool;

    spec fn viewing_self(&self, who: &NameRecord) -> bool;

    /// Can this viewer see `who`?
    fn can_see(&self, who: &NameRecord) -> (r: bool)
        ensures
            r == self.sees(who),
    ;

    /// Can this viewer "verb" `who`?
    fn can(&self, verb: &str, who: &NameRecord) -> (r: bool)
        ensures
            r == self.allows(verb@, who),
    ;

    /// Does the viewer have `property`?
    fn has(&self, property: &str) -> (r: bool)
        ensures
            r == self.owns(property@),
    ;

    /// Is `who` this viewer?
    fn is_me(&self, who: &NameRecord) -> (r: bool)
        ensures
            r == self.viewing_self(who),
    ;
}

/// A sink that finished text is rendered to.  The three spec functions
/// describe, on the sink's view, what each write does to it; each
/// implementation chooses them.
pub trait Output: Viewer + View {
    spec fn text_effect(pre: Self::V, text: Seq<char>) -> Self::V;

    spec fn style_effect(pre: Self::V, style: Seq<char>) -> Self::V;

    spec fn done_effect(pre: Self::V) -> Self::V;

    fn write_text(&mut self, text: &str)
        ensures
            final(self)@ == Self::text_effect(old(self)@, text@),
    ;

    fn write_style(&mut self, style: &str)
        ensures
            final(self)@ == Self::style_effect(old(self)@, style@),
    ;

    fn done(&mut self)
        ensures
            final(self)@ == Self::done_effect(old(self)@),
    ;
}

/// An operation that the grammar engine does not cover signals this
/// explicitly rather than doing nothing.
#[derive(Copy, Clone, Debug, PartialEq, Eq, Structural)]
pub enum GrammarError {
    NotImplemented,
}

/// The last character of `s`, if any.
pub open spec fn last_char_spec(s: Seq<char>) -> Option<char> {
    if s.len() == 0 {
        None
    } else {
        Some(s.last())
    }
}

/// The last character of `s`, if any.
pub fn last_char(s: &str) -> (r: Option<char>)
    ensures
        r == last_char_spec(s@),
{
    let n = s.unicode_len();
    if n == 0 {
        None
    } else {
        Some(s.get_char(n - 1))
    }
}

/// Does `s` still need terminal punctuation?  True unless it is empty or
/// already ends in one of `.` `?` `!` `:` `;` `"`.
pub open spec fn needs_dot_spec(s: Seq<char>) -> bool {
    s.len() > 0 && !(s.last() == '.' || s.last() == '?' || s.last() == '!' || s.last() == ':'
        || s.last() == ';' || s.last() == '"')
}

/// Executable test for [`needs_dot_spec`].
pub fn needs_dot(s: &str) -> (r: bool)
    ensures
        r == needs_dot_spec(s@),
{
    match last_char(s) {
        Some(c) => match c {
            '.' | '?' | '!' | ':' | ';' | '"' => false,
            _ => true,
        },
        None => false,
    }
}

/// Is `c` written with a vowel letter?  Used to decide between `a`/`an`;
/// `y` is deliberately not counted.
pub fn is_vowel(c: char) -> (r: bool)
    ensures
        r == crate::text::is_vowel_char(c),
{
    match c {
        'a' | 'e' | 'i' | 'o' | 'u' | 'A' | 'E' | 'I' | 'O' | 'U' => true,
        _ => false,
    }
}

/// `s` with its first character replaced by that character's uppercase
/// mapping (which may be more than one character).
pub open spec fn cap_first_spec(s: Seq<char>) -> Seq<char> {
    if s.len() == 0 {
        s
    } else {
        crate::text::uppercase_chars_of(s[0]) + s.drop_first()
    }
}

/// Appends `s` to `to`, uppercasing the first character of `s`.
pub fn uppercase_first_char(s: &str, to: &mut String)
    ensures
        final(to)@ == old(to)@ + cap_first_spec(s@),
{
    let n = s.unicode_len();
    if n == 0 {
        proof {
            assert(to@ =~= to@ + cap_first_spec(s@));
        }
        return ;
    }
    let up = crate::text::char_to_uppercase(s.get_char(0));
    to.append(up.as_str());
    let rest = s.substring_char(1, n);
    to.append(rest);
    proof {
        assert(s@.subrange(1, n as int) =~= s@.drop_first());
        assert(to@ =~= old(to)@ + cap_first_spec(s@));
    }
}

/// The view of an [`OutputBuilder`]: the buffered text and the three
/// pending formatting decisions.
pub ghost struct BuilderView {
    pub text: Seq<char>,
    pub cap_pending: bool,
    pub space_pending: bool,
    pub dot_suppressed: bool,
}

/// One token appended to the buffer: a separating space first if one is
/// due, then the token, its first character uppercased if capitalization
/// is pending.  Afterwards a space is due and capitalization is not.
pub open spec fn push_token(b: BuilderView, tok: Seq<char>) -> BuilderView {
    BuilderView {
        text: b.text + (if b.space_pending {
            " "@
        } else {
            Seq::<char>::empty()
        }) + (if b.cap_pending {
            cap_first_spec(tok)
        } else {
            tok
        }),
        cap_pending: false,
        space_pending: true,
        dot_suppressed: b.dot_suppressed,
    }
}

/// A definite reference: `you` for the viewer itself; the bare name for a
/// visible proper noun; `the` and the name for a visible common noun; for
/// an unseen entity `someone` if its name is proper, else `something`.
pub open spec fn the_word_effect(
    b: BuilderView,
    me: bool,
    seen: bool,
    name: Seq<char>,
    proper: bool,
) -> BuilderView {
    if me {
        push_token(b, "you"@)
    } else if seen {
        if proper {
            push_token(b, name)
        } else {
            push_token(push_token(b, "the"@), name)
        }
    } else if proper {
        push_token(b, "someone"@)
    } else {
        push_token(b, "something"@)
    }
}

/// An indefinite reference: `you` for the viewer itself; for a visible
/// common singular noun `a` or `an` by the name's first letter; `some`
/// for a visible common plural or uncountable noun; the bare name for a
/// visible proper noun; the anonymous fallback when unseen.
pub open spec fn a_word_effect(
    b: BuilderView,
    me: bool,
    seen: bool,
    name: Seq<char>,
    proper: bool,
    singular: bool,
) -> BuilderView {
    if me {
        push_token(b, "you"@)
    } else if seen {
        if !proper && singular {
            let article = if name.len() > 0 && crate::text::is_vowel_char(name[0]) {
                "an"@
            } else {
                "a"@
            };
            push_token(push_token(b, article), name)
        } else if !proper {
            push_token(push_token(b, "some"@), name)
        } else {
            push_token(b, name)
        }
    } else if proper {
        push_token(b, "someone"@)
    } else {
        push_token(b, "something"@)
    }
}

/// The possessive determiner for a gender.
pub open spec fn pronoun_of(g: Gender) -> Seq<char> {
    match g {
        Gender::Male => "his"@,
        Gender::Female => "her"@,
        Gender::Plural => "their"@,
        _ => "its"@,
    }
}

/// A possessive determiner and the owned object's name: `your` for the
/// viewer itself, the possessor's pronoun when it is visible; for an
/// unseen possessor the object is rendered indefinitely instead, so that
/// no pronoun leaks about what the viewer cannot see.
pub open spec fn my_word_effect(
    b: BuilderView,
    who_me: bool,
    who_seen: bool,
    who_gender: Gender,
    obj_me: bool,
    obj_seen: bool,
    obj_name: Seq<char>,
    obj_proper: bool,
    obj_singular: bool,
) -> BuilderView {
    if who_me {
        push_token(push_token(b, "your"@), obj_name)
    } else if who_seen {
        push_token(push_token(b, pronoun_of(who_gender)), obj_name)
    } else {
        a_word_effect(b, obj_me, obj_seen, obj_name, obj_proper, obj_singular)
    }
}

/// Chooses between a singular and a plural verb form: the plural for the
/// viewer itself (second person), the singular for an unseen entity, and
/// otherwise by the entity's own grammatical number.
pub open spec fn sing_plur_effect(
    b: BuilderView,
    me: bool,
    seen: bool,
    g: Gender,
    singular: Seq<char>,
    plural: Seq<char>,
) -> BuilderView {
    let eff = if me {
        Gender::Plural
    } else if !seen {
        Gender::Male
    } else {
        g
    };
    push_token(b, if eff == Gender::Plural {
        plural
    } else {
        singular
    })
}

/// The apostrophe suffix of a possessive noun: a bare apostrophe after a
/// final `s`, otherwise `'s`, uppercased to `'S` after an uppercase
/// final letter.
pub open spec fn possessive_suffix(name: Seq<char>) -> Seq<char> {
    let ch = name.last();
    if ch == 's' || ch == 'S' {
        "'"@
    } else if crate::text::is_uppercase_char(ch) {
        "'S"@
    } else {
        "'s"@
    }
}

/// A possessive noun: `your` for the viewer itself; for a visible entity
/// the definite reference followed, without a space, by the apostrophe
/// suffix; `someone's`/`something's` by properness when unseen.  An
/// empty name leaves the builder unchanged.
pub open spec fn thes_word_effect(
    b: BuilderView,
    me: bool,
    seen: bool,
    name: Seq<char>,
    proper: bool,
) -> BuilderView {
    if me {
        push_token(b, "your"@)
    } else if seen {
        if name.len() == 0 {
            b
        } else {
            let t = the_word_effect(b, false, true, name, proper);
            push_token(BuilderView { space_pending: false, ..t }, possessive_suffix(name))
        }
    } else if proper {
        push_token(b, "someone's"@)
    } else {
        push_token(b, "something's"@)
    }
}

/// `s` with the third-person verb suffix attached: `es` after a sibilant
/// or `o`/`z`/`x` ending, `ies` for a final `y` after a consonant, `es`
/// for `ch`/`sh`, plain `s` otherwise; the suffix is uppercased when the
/// final letter is.
pub open spec fn verb_suffixed(s: Seq<char>) -> Seq<char> {
    if s.len() == 0 {
        s
    } else {
        let ch = s.last();
        let uc = crate::text::is_uppercase_char(ch);
        if ch == 's' || ch == 'o' || ch == 'z' || ch == 'x' || ch == 'S' || ch == 'O' || ch == 'Z'
            || ch == 'X' {
            if uc {
                s + "ES"@
            } else {
                s + "es"@
            }
        } else if ch == 'y' || ch == 'Y' {
            if s.len() == 1 || !crate::text::is_vowel_char(s[s.len() - 2]) {
                if uc {
                    s.drop_last() + "IES"@
                } else {
                    s.drop_last() + "ies"@
                }
            } else {
                if uc {
                    s + "S"@
                } else {
                    s + "s"@
                }
            }
        } else if ch == 'h' || ch == 'H' {
            if s.len() >= 2 && (s[s.len() - 2] == 'c' || s[s.len() - 2] == 's' || s[s.len() - 2]
                == 'C' || s[s.len() - 2] == 'S') {
                if uc {
                    s + "ES"@
                } else {
                    s + "es"@
                }
            } else {
                if uc {
                    s + "S"@
                } else {
                    s + "s"@
                }
            }
        } else {
            if uc {
                s + "S"@
            } else {
                s + "s"@
            }
        }
    }
}

/// A verb appended to the buffer, conjugated: the suffix is attached when
/// the subject is singular and not the viewer; afterwards a space is due.
pub open spec fn v_e_effect(
    b: BuilderView,
    me: bool,
    gender: Gender,
    verb: Seq<char>,
) -> BuilderView {
    let joined = b.text + (if b.space_pending {
        " "@
    } else {
        Seq::<char>::empty()
    }) + verb;
    BuilderView {
        text: if spec_is_singular(gender) && !me {
            verb_suffixed(joined)
        } else {
            joined
        },
        cap_pending: false,
        space_pending: true,
        dot_suppressed: b.dot_suppressed,
    }
}

/// Attaches the third-person verb suffix to the end of `buf`.
fn add_s(buf: &mut String)
    ensures
        final(buf)@ == verb_suffixed(old(buf)@),
{
    let n = buf.as_str().unicode_len();
    if n == 0 {
        return ;
    }
    let ch = buf.as_str().get_char(n - 1);
    let uc = crate::text::char_is_uppercase(ch);
    let (remove, add): (bool, &str) = match ch {
        's' | 'o' | 'z' | 'x' | 'S' | 'O' | 'Z' | 'X' => (
            false,
            if uc {
                "ES"
            } else {
                "es"
            },
        ),
        'y' | 'Y' => {
            if n == 1 || !is_vowel(buf.as_str().get_char(n - 2)) {
                (
                    true,
                    if uc {
                        "IES"
                    } else {
                        "ies"
                    },
                )
            } else {
                (
                    false,
                    if uc {
                        "S"
                    } else {
                        "s"
                    },
                )
            }
        },
        'h' | 'H' => {
            let sibilant = n >= 2 && {
                let c2 = buf.as_str().get_char(n - 2);
                c2 == 'c' || c2 == 's' || c2 == 'C' || c2 == 'S'
            };
            (
                false,
                if sibilant {
                    if uc {
                        "ES"
                    } else {
                        "es"
                    }
                } else {
                    if uc {
                        "S"
                    } else {
                        "s"
                    }
                },
            )
        },
        _ => (
            false,
            if uc {
                "S"
            } else {
                "s"
            },
        ),
    };
    if remove {
        let t = String::from_str(buf.as_str().substring_char(0, n - 1));
        proof {
            assert(old(buf)@.subrange(0, n - 1) =~= old(buf)@.drop_last());
        }
        *buf = t;
    }
    buf.append(add);
}

/// `OutputBuilder` composes one utterance through chained calls.  It owns
/// its output sink for the whole composition and hands it back from
/// [`render`](Self::render), which runs exactly once per utterance: the
/// builder is consumed, so a finalized builder cannot be composed on.
pub struct OutputBuilder<O: Output> {
    o: O,
    s: String,
    cap_it: bool,
    add_space: bool,
    suppress_dot: bool,
}

impl<O: Output> View for OutputBuilder<O> {
    type V = BuilderView;

    closed spec fn view(&self) -> BuilderView {
        BuilderView {
            text: self.s@,
            cap_pending: self.cap_it,
            space_pending: self.add_space,
            dot_suppressed: self.suppress_dot,
        }
    }
}

impl<O: Output> OutputBuilder<O> {
    /// The sink this builder will render to.
    pub closed spec fn sink(&self) -> O {
        self.o
    }

    /// Creates a builder that will render to `o`: empty buffer, the first
    /// token to be capitalized, no space due, punctuation not suppressed.
    pub fn new(o: O) -> (r: Self)
        ensures
            r.sink() == o,
            r@ == (BuilderView {
                text: Seq::<char>::empty(),
                cap_pending: true,
                space_pending: false,
                dot_suppressed: false,
            }),
    {
        OutputBuilder { o, s: String::new(), cap_it: true, add_space: false, suppress_dot: false }
    }

    /// Is this gender treated as grammatically singular?
    pub fn is_singular(gender: Gender) -> (r: bool)
        ensures
            r == spec_is_singular(gender),
    {
        match gender {
            Gender::Plural | Gender::Uncountable => false,
            _ => true,
        }
    }

    /// The next token will not be capitalized.
    pub fn dont_capitalize(self) -> (r: Self)
        ensures
            r.sink() == self.sink(),
            r@ == (BuilderView { cap_pending: false, ..self@ }),
    {
        let mut b = self;
        b.cap_it = false;
        b
    }

    /// The next token will be capitalized.
    pub fn do_capitalize(self) -> (r: Self)
        ensures
            r.sink() == self.sink(),
            r@ == (BuilderView { cap_pending: true, ..self@ }),
    {
        let mut b = self;
        b.cap_it = true;
        b
    }

    /// Appends one token, spaced and capitalized as the pending state
    /// demands.
    pub fn s(self, text: &str) -> (r: Self)
        ensures
            r.sink() == self.sink(),
            r@ == push_token(self@, text@),
    {
        let mut b = self;
        if b.add_space {
            b.s.append(" ");
        }
        b.add_space = true;
        if b.cap_it {
            b.cap_it = false;
            uppercase_first_char(text, &mut b.s);
        } else {
            b.s.append(text);
        }
        proof {
            assert(b@.text =~= push_token(self@, text@).text);
        }
        b
    }

    /// Appends `verb`, with the third-person suffix attached when `obj` is
    /// grammatically singular and not the viewer itself.  A verb cannot
    /// stand first in an utterance, so capitalization must not be pending.
    pub fn v_e(self, obj: &NameRecord, verb: &str) -> (r: Self)
        requires
            !self@.cap_pending,
        ensures
            r.sink() == self.sink(),
            r@ == v_e_effect(self@, self.sink().viewing_self(obj), obj@.gender, verb@),
    {
        let mut b = self;
        if b.add_space {
            b.s.append(" ");
        }
        b.s.append(verb);
        b.cap_it = false;
        b.add_space = false;
        if Self::is_singular(obj.gender) && !b.o.is_me(obj) {
            add_s(&mut b.s);
        }
        b.add_space = true;
        proof {
            assert(self@.text + (if self@.space_pending {
                " "@
            } else {
                Seq::<char>::empty()
            }) + verb@ =~= (if self@.space_pending {
                self@.text + " "@ + verb@
            } else {
                self@.text + verb@
            }));
            assert(b@ == v_e_effect(self@, self.sink().viewing_self(obj), obj@.gender, verb@));
        }
        b
    }

    /// The shared body of [`the`](Self::the) and [`the_`](Self::the_).
    fn add_the_word(self, obj: &NameRecord, name: &str, is_proper: bool) -> (r: Self)
        ensures
            r.sink() == self.sink(),
            r@ == the_word_effect(
                self@,
                self.sink().viewing_self(obj),
                self.sink().sees(obj),
                name@,
                is_proper,
            ),
    {
        if self.o.is_me(obj) {
            self.s("you")
        } else if self.o.can_see(obj) {
            if !is_proper {
                self.s("the").s(name)
            } else {
                self.s(name)
            }
        } else if is_proper {
            self.s("someone")
        } else {
            self.s("something")
        }
    }

    /// Appends a definite reference to `obj` by its short name; `you` for
    /// the viewer itself, an anonymous fallback when the viewer cannot
    /// see it.
    pub fn the(self, obj: &NameRecord) -> (r: Self)
        ensures
            r.sink() == self.sink(),
            r@ == the_word_effect(
                self@,
                self.sink().viewing_self(obj),
                self.sink().sees(obj),
                obj@.short_name,
                obj@.short_proper,
            ),
    {
        let proper = obj.short_proper;
        self.add_the_word(obj, obj.short_name.as_str(), proper)
    }

    /// As [`the`](Self::the), with the long name.
    pub fn the_(self, obj: &NameRecord) -> (r: Self)
        ensures
            r.sink() == self.sink(),
            r@ == the_word_effect(
                self@,
                self.sink().viewing_self(obj),
                self.sink().sees(obj),
                obj@.long_name,
                obj@.long_proper,
            ),
    {
        let proper = obj.long_proper;
        self.add_the_word(obj, obj.long_name.as_str(), proper)
    }

    /// The shared body of [`a`](Self::a) and [`a_`](Self::a_).
    fn add_a_word(self, obj: &NameRecord, name: &str, is_prop: bool) -> (r: Self)
        ensures
            r.sink() == self.sink(),
            r@ == a_word_effect(
                self@,
                self.sink().viewing_self(obj),
                self.sink().sees(obj),
                name@,
                is_prop,
                spec_is_singular(obj@.gender),
            ),
    {
        if self.o.is_me(obj) {
            self.s("you")
        } else if self.o.can_see(obj) {
            let b = if !is_prop && Self::is_singular(obj.gender) {
                let n = name.unicode_len();
                let an = n > 0 && is_vowel(name.get_char(0));
                if an {
                    self.s("an")
                } else {
                    self.s("a")
                }
            } else if !is_prop {
                self.s("some")
            } else {
                self
            };
            b.s(name)
        } else if is_prop {
            self.s("someone")
        } else {
            self.s("something")
        }
    }

    /// Appends an indefinite reference to `obj` by its short name: `a`/`an`
    /// by its first letter for a singular common noun, `some` for a plural
    /// or uncountable one, the bare name for a proper noun; `you` for the
    /// viewer itself, the anonymous fallback when unseen.
    pub fn a(self, obj: &NameRecord) -> (r: Self)
        ensures
            r.sink() == self.sink(),
            r@ == a_word_effect(
                self@,
                self.sink().viewing_self(obj),
                self.sink().sees(obj),
                obj@.short_name,
                obj@.short_proper,
                spec_is_singular(obj@.gender),
            ),
    {
        let proper = obj.short_proper;
        self.add_a_word(obj, obj.short_name.as_str(), proper)
    }

    /// As [`a`](Self::a), with the long name.
    pub fn a_(self, obj: &NameRecord) -> (r: Self)
        ensures
            r.sink() == self.sink(),
            r@ == a_word_effect(
                self@,
                self.sink().viewing_self(obj),
                self.sink().sees(obj),
                obj@.long_name,
                obj@.long_proper,
                spec_is_singular(obj@.gender),
            ),
    {
        let proper = obj.long_proper;
        self.add_a_word(obj, obj.long_name.as_str(), proper)
    }

    /// Appends a possessive determiner for `who` and the short name of
    /// `obj`: `your` when `who` is the viewer, `who`'s pronoun when it is
    /// visible; when `who` is unseen the object is rendered with
    /// [`a`](Self::a) instead, so no pronoun leaks about it.
    pub fn my(self, who: &NameRecord, obj: &NameRecord) -> (r: Self)
        ensures
            r.sink() == self.sink(),
            r@ == my_word_effect(
                self@,
                self.sink().viewing_self(who),
                self.sink().sees(who),
                who@.gender,
                self.sink().viewing_self(obj),
                self.sink().sees(obj),
                obj@.short_name,
                obj@.short_proper,
                spec_is_singular(obj@.gender),
            ),
    {
        if self.o.is_me(who) {
            self.s("your").s(obj.short_name.as_str())
        } else if self.o.can_see(who) {
            let pron: &str = match who.gender {
                Gender::Male => "his",
                Gender::Female => "her",
                Gender::Plural => "their",
                _ => "its",
            };
            self.s(pron).s(obj.short_name.as_str())
        } else {
            self.a(obj)
        }
    }

    /// As [`my`](Self::my), with the long name of `obj`.
    pub fn my_(self, who: &NameRecord, obj: &NameRecord) -> (r: Self)
        ensures
            r.sink() == self.sink(),
            r@ == my_word_effect(
                self@,
                self.sink().viewing_self(who),
                self.sink().sees(who),
                who@.gender,
                self.sink().viewing_self(obj),
                self.sink().sees(obj),
                obj@.long_name,
                obj@.long_proper,
                spec_is_singular(obj@.gender),
            ),
    {
        if self.o.is_me(who) {
            self.s("your").s(obj.long_name.as_str())
        } else if self.o.can_see(who) {
            let pron: &str = match who.gender {
                Gender::Male => "his",
                Gender::Female => "her",
                Gender::Plural => "their",
                _ => "its",
            };
            self.s(pron).s(obj.long_name.as_str())
        } else {
            self.a_(obj)
        }
    }

    /// The shared body of [`is`](Self::is) and [`has`](Self::has).
    fn sing_plur(self, who: &NameRecord, singular: &str, plural: &str) -> (r: Self)
        ensures
            r.sink() == self.sink(),
            r@ == sing_plur_effect(
                self@,
                self.sink().viewing_self(who),
                self.sink().sees(who),
                who@.gender,
                singular@,
                plural@,
            ),
    {
        let g = if self.o.is_me(who) {
            Gender::Plural
        } else if !self.o.can_see(who) {
            Gender::Male
        } else {
            who.gender
        };
        match g {
            Gender::Plural => self.s(plural),
            _ => self.s(singular),
        }
    }

    /// Appends `is` or `are`: `are` for the viewer itself and for a plural
    /// entity, `is` otherwise, with an unseen entity counted singular.
    pub fn is(self, who: &NameRecord) -> (r: Self)
        ensures
            r.sink() == self.sink(),
            r@ == sing_plur_effect(
                self@,
                self.sink().viewing_self(who),
                self.sink().sees(who),
                who@.gender,
                "is"@,
                "are"@,
            ),
    {
        self.sing_plur(who, "is", "are")
    }

    /// Appends `has` or `have`, chosen as in [`is`](Self::is).
    pub fn has(self, who: &NameRecord) -> (r: Self)
        ensures
            r.sink() == self.sink(),
            r@ == sing_plur_effect(
                self@,
                self.sink().viewing_self(who),
                self.sink().sees(who),
                who@.gender,
                "has"@,
                "have"@,
            ),
    {
        self.sing_plur(who, "has", "have")
    }

    /// The shared body of [`thes`](Self::thes) and [`thes_`](Self::thes_).
    fn add_thes_word(self, obj: &NameRecord, name: &str, is_proper: bool) -> (r: Self)
        ensures
            r.sink() == self.sink(),
            r@ == thes_word_effect(
                self@,
                self.sink().viewing_self(obj),
                self.sink().sees(obj),
                name@,
                is_proper,
            ),
    {
        if self.o.is_me(obj) {
            self.s("your")
        } else if self.o.can_see(obj) {
            let n = name.unicode_len();
            if n == 0 {
                self
            } else {
                let ch = name.get_char(n - 1);
                let uc = crate::text::char_is_uppercase(ch);
                let add: &str = if ch == 's' || ch == 'S' {
                    "'"
                } else if uc {
                    "'S"
                } else {
                    "'s"
                };
                let mut b = self.add_the_word(obj, name, is_proper);
                b.add_space = false;
                b.s(add)
            }
        } else if is_proper {
            self.s("someone's")
        } else {
            self.s("something's")
        }
    }

    /// Appends a possessive reference to `obj` by its short name: `your`
    /// for the viewer itself; for a visible entity the definite reference
    /// with an apostrophe suffix glued on — a bare apostrophe after a
    /// final `s`; `someone's`/`something's` when unseen.
    pub fn thes(self, obj: &NameRecord) -> (r: Self)
        ensures
            r.sink() == self.sink(),
            r@ == thes_word_effect(
                self@,
                self.sink().viewing_self(obj),
                self.sink().sees(obj),
                obj@.short_name,
                obj@.short_proper,
            ),
    {
        let proper = obj.short_proper;
        self.add_thes_word(obj, obj.short_name.as_str(), proper)
    }

    /// As [`thes`](Self::thes), with the long name.
    pub fn thes_(self, obj: &NameRecord) -> (r: Self)
        ensures
            r.sink() == self.sink(),
            r@ == thes_word_effect(
                self@,
                self.sink().viewing_self(obj),
                self.sink().sees(obj),
                obj@.long_name,
                obj@.long_proper,
            ),
    {
        let proper = obj.long_proper;
        self.add_thes_word(obj, obj.long_name.as_str(), proper)
    }

    /// `yours`-style possessives are not covered by the engine; the gap is
    /// signalled explicitly.
    pub fn thess(self, _who: &NameRecord) -> (r: Result<Self, GrammarError>)
        ensures
            r == Err::<Self, GrammarError>(GrammarError::NotImplemented),
    {
        Err(GrammarError::NotImplemented)
    }

    /// As [`thess`](Self::thess), for the long name.
    pub fn thess_(self, _who: &NameRecord) -> (r: Result<Self, GrammarError>)
        ensures
            r == Err::<Self, GrammarError>(GrammarError::NotImplemented),
    {
        Err(GrammarError::NotImplemented)
    }

    /// Bare word substitution is not covered by the engine; the gap is
    /// signalled explicitly.
    pub fn word(self, _who: &NameRecord) -> (r: Result<Self, GrammarError>)
        ensures
            r == Err::<Self, GrammarError>(GrammarError::NotImplemented),
    {
        Err(GrammarError::NotImplemented)
    }

    /// As [`word`](Self::word), for the long name.
    pub fn word_(self, _who: &NameRecord) -> (r: Result<Self, GrammarError>)
        ensures
            r == Err::<Self, GrammarError>(GrammarError::NotImplemented),
    {
        Err(GrammarError::NotImplemented)
    }

    /// This utterance will not get an automatic final dot.
    pub fn suppress_dot(self) -> (r: Self)
        ensures
            r.sink() == self.sink(),
            r@ == (BuilderView { dot_suppressed: true, ..self@ }),
    {
        let mut b = self;
        b.suppress_dot = true;
        b
    }

    /// Finishes the utterance: writes the buffered text to the sink, a
    /// final `.` after it unless punctuation is suppressed or already
    /// there, signals completion, and hands the sink back.  The builder is
    /// consumed, so this runs exactly once per composition.
    pub fn render(self) -> (o: O)
        ensures
            o@ == O::done_effect(
                if !self@.dot_suppressed && needs_dot_spec(self@.text) {
                    O::text_effect(O::text_effect(self.sink()@, self@.text), "."@)
                } else {
                    O::text_effect(self.sink()@, self@.text)
                },
            ),
    {
        let OutputBuilder { mut o, s, cap_it, add_space, suppress_dot } = self;
        o.write_text(s.as_str());
        if !suppress_dot && needs_dot(s.as_str()) {
            o.write_text(".");
        }
        o.done();
        o
    }
}

/// The finished text of an utterance: the buffer, with a final dot added
/// only when punctuation is not suppressed and none is already there.
pub open spec fn finished_text(text: Seq<char>, dot_suppressed: bool) -> Seq<char> {
    if !dot_suppressed && needs_dot_spec(text) {
        text + "."@
    } else {
        text
    }
}

/// Terminal punctuation is idempotent: a dot is added exactly where no
/// terminal punctuation stands already, it is never doubled, and
/// suppression leaves the text as it is.
pub proof fn lemma_finish_idempotent(text: Seq<char>)
    ensures
        finished_text(text, true) == text,
        !needs_dot_spec(text) ==> finished_text(text, false) == text,
        needs_dot_spec(text) ==> finished_text(text, false) == text + "."@,
        finished_text(finished_text(text, false), false) == finished_text(text, false),
{
    reveal_strlit(".");
    if needs_dot_spec(text) {
        assert((text + "."@).last() == '.');
    }
}

/// Capitalization happens exactly once per utterance: in a fresh builder
/// the first token is appended with its first character uppercased and
/// turns capitalization off, so the next token is appended as it is,
/// after a separating space.
pub proof fn lemma_capitalize_first_token_only(t1: Seq<char>, t2: Seq<char>)
    ensures
        ({
            let b0 = BuilderView {
                text: Seq::<char>::empty(),
                cap_pending: true,
                space_pending: false,
                dot_suppressed: false,
            };
            let b1 = push_token(b0, t1);
            let b2 = push_token(b1, t2);
            &&& b1.text == cap_first_spec(t1)
            &&& !b1.cap_pending
            &&& b2.text == cap_first_spec(t1) + " "@ + t2
        }),
{
    let b0 = BuilderView {
        text: Seq::<char>::empty(),
        cap_pending: true,
        space_pending: false,
        dot_suppressed: false,
    };
    assert(b0.text + Seq::<char>::empty() + cap_first_spec(t1) =~= cap_first_spec(t1));
}

/// An Output that throws the text away and answers every viewer query
/// with `false`.
pub struct NullOutput {}

impl View for NullOutput {
    type V = NullOutput;

    open spec fn view(&self) -> NullOutput {
        NullOutput {  }
    }
}

impl Viewer for NullOutput {
    open spec fn sees(&self, who: &NameRecord) -> bool {
        false
    }

    open spec fn allows(&self, verb: Seq<char>, who: &NameRecord) -> bool {
        false
    }

    open spec fn owns(&self, property: Seq<char>) -> bool {
        false
    }

    open spec fn viewing_self(&self, who: &NameRecord) -> bool {
        false
    }

    /// Always returns false.
    fn can_see(&self, who: &NameRecord) -> bool {
        false
    }

    /// Always returns false.
    fn can(&self, verb: &str, who: &NameRecord) -> bool {
        false
    }

    /// Always returns false.
    fn has(&self, property: &str) -> bool {
        false
    }

    /// Always returns false.
    fn is_me(&self, who: &NameRecord) -> bool {
        false
    }
}

impl Output for NullOutput {
    open spec fn text_effect(pre: NullOutput, text: Seq<char>) -> NullOutput {
        pre
    }

    open spec fn style_effect(pre: NullOutput, style: Seq<char>) -> NullOutput {
        pre
    }

    open spec fn done_effect(pre: NullOutput) -> NullOutput {
        pre
    }

    /// Does nothing.
    fn write_text(&mut self, text: &str) {
    }

    /// Does nothing.
    fn write_style(&mut self, style: &str) {
    }

    /// Does nothing.
    fn done(&mut self) {
    }
}

/// The state of a [`DebugOutput`].
pub ghost struct DebugOutputView {
    pub text: Seq<char>,
    pub last_text: Seq<char>,
    pub can_see: bool,
    pub me: bool,
}

/// An Output that records what is written to it: text accumulates in
/// `text` until `done` moves it into `last_text`, and styles are recorded
/// as angle-bracketed markers.  Its viewer answers are set directly
/// through the `can_see` and `me` fields.
pub struct DebugOutput {
    pub text: String,
    pub last_text: String,
    pub can_see: bool,
    pub me: bool,
}

impl DebugOutput {
    /// A fresh recorder that sees everything and is nobody.
    pub fn new() -> (r: DebugOutput)
        ensures
            r@ == (DebugOutputView {
                text: Seq::<char>::empty(),
                last_text: Seq::<char>::empty(),
                can_see: true,
                me: false,
            }),
    {
        DebugOutput { text: String::new(), last_text: String::new(), can_see: true, me: false }
    }
}

impl View for DebugOutput {
    type V = DebugOutputView;

    open spec fn view(&self) -> DebugOutputView {
        DebugOutputView {
            text: self.text@,
            last_text: self.last_text@,
            can_see: self.can_see,
            me: self.me,
        }
    }
}

impl Viewer for DebugOutput {
    open spec fn sees(&self, who: &NameRecord) -> bool {
        self.can_see
    }

    open spec fn allows(&self, verb: Seq<char>, who: &NameRecord) -> bool {
        true
    }

    open spec fn owns(&self, property: Seq<char>) -> bool {
        true
    }

    open spec fn viewing_self(&self, who: &NameRecord) -> bool {
        self.me
    }

    fn can_see(&self, who: &NameRecord) -> bool {
        self.can_see
    }

    fn can(&self, verb: &str, who: &NameRecord) -> bool {
        true
    }

    fn has(&self, property: &str) -> bool {
        true
    }

    fn is_me(&self, who: &NameRecord) -> bool {
        self.me
    }
}

/// What one utterance leaves behind in a [`DebugOutput`]: rendering a
/// builder into a recorder whose current text is empty records exactly
/// the finished text of the utterance.
pub proof fn lemma_debug_render_records_finished_text(pre: DebugOutputView, b: BuilderView)
    requires
        pre.text.len() == 0,
    ensures
        ({
            let written = if !b.dot_suppressed && needs_dot_spec(b.text) {
                DebugOutput::text_effect(DebugOutput::text_effect(pre, b.text), "."@)
            } else {
                DebugOutput::text_effect(pre, b.text)
            };
            DebugOutput::done_effect(written).last_text == finished_text(b.text, b.dot_suppressed)
        }),
{
    assert(pre.text + b.text =~= b.text);
}

impl Output for DebugOutput {
    open spec fn text_effect(pre: DebugOutputView, text: Seq<char>) -> DebugOutputView {
        DebugOutputView { text: pre.text + text, ..pre }
    }

    open spec fn style_effect(pre: DebugOutputView, style: Seq<char>) -> DebugOutputView {
        DebugOutputView { text: pre.text + "<"@ + style + ">"@, ..pre }
    }

    open spec fn done_effect(pre: DebugOutputView) -> DebugOutputView {
        DebugOutputView { text: Seq::<char>::empty(), last_text: pre.text, ..pre }
    }

    fn write_text(&mut self, text: &str) {
        self.text.append(text);
    }

    fn write_style(&mut self, style: &str) {
        self.text.append("<");
        self.text.append(style);
        self.text.append(">");
    }

    fn done(&mut self) {
        self.last_text = self.text.clone();
        self.text = String::new();
    }
}

} // verus!
