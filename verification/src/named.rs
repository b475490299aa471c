//! Entity name records and the factory that makes them: parsing of name
//! specifications, the suffix-exception pluralizer, and the line format of
//! its configuration.

use vstd::prelude::*;

use crate::Gender;
use crate::Named;
use crate::Object;
use crate::suffix::Suffix;
use crate::suffix::lemma_lookup_spec_props;
use crate::suffix::lookup_spec;
use crate::text::marked_proper;
use crate::text::split_on;
use crate::text::split_spec;
use crate::text::starts_bang;
use crate::text::strip_bang;
use crate::text::strip_marker;
use crate::text::trim;
use crate::text::trim_spec;
use crate::text::trim_start;
use crate::text::trim_start_spec;

verus! {

/// A malformed line in the pluralization configuration: the 1-based number
/// of the line and the raw pieces it split into around `:`.
#[derive(Debug, PartialEq, Eq)]
pub struct ConfigError {
    pub line: usize,
    pub parts: Vec<String>,
}

/// The mathematical content of a [`NameRecord`].
pub ghost struct NameRecordView {
    pub short_name: Seq<char>,
    pub long_name: Seq<char>,
    pub short_plural_name: Seq<char>,
    pub long_plural_name: Seq<char>,
    pub short_proper: bool,
    pub long_proper: bool,
    pub short_plural_proper: bool,
    pub long_plural_proper: bool,
    pub gender: Gender,
    pub is_thing: bool,
}

/// The immutable naming data of one entity: its four name forms, a
/// properness flag for each, its grammatical gender and whether it is a
/// thing rather than a person.
pub struct NameRecord {
    pub short_name: String,
    pub long_name: String,
    pub short_plural_name: String,
    pub long_plural_name: String,
    pub short_proper: bool,
    pub long_proper: bool,
    pub short_plural_proper: bool,
    pub long_plural_proper: bool,
    pub gender: Gender,
    pub is_thing: bool,
}

impl View for NameRecord {
    type V = NameRecordView;

    open spec fn view(&self) -> NameRecordView {
        NameRecordView {
            short_name: self.short_name@,
            long_name: self.long_name@,
            short_plural_name: self.short_plural_name@,
            long_plural_name: self.long_plural_name@,
            short_proper: self.short_proper,
            long_proper: self.long_proper,
            short_plural_proper: self.short_plural_proper,
            long_plural_proper: self.long_plural_proper,
            gender: self.gender,
            is_thing: self.is_thing,
        }
    }
}

impl Named for NameRecord {
    open spec fn spec_gender(&self) -> Gender {
        self.gender
    }

    open spec fn spec_is_thing(&self) -> bool {
        self.is_thing
    }

    open spec fn spec_short_proper(&self) -> bool {
        self.short_proper
    }

    open spec fn spec_short_name(&self) -> Seq<char> {
        self.short_name@
    }

    open spec fn spec_long_proper(&self) -> bool {
        self.long_proper
    }

    open spec fn spec_long_name(&self) -> Seq<char> {
        self.long_name@
    }

    open spec fn spec_short_plural_proper(&self) -> bool {
        self.short_plural_proper
    }

    open spec fn spec_short_plural_name(&self) -> Seq<char> {
        self.short_plural_name@
    }

    open spec fn spec_long_plural_proper(&self) -> bool {
        self.long_plural_proper
    }

    open spec fn spec_long_plural_name(&self) -> Seq<char> {
        self.long_plural_name@
    }

    fn gender(&self) -> Gender {
        self.gender
    }

    fn is_thing(&self) -> bool {
        self.is_thing
    }

    fn is_short_proper(&self) -> bool {
        self.short_proper
    }

    fn short_name(&self) -> &str {
        self.short_name.as_str()
    }

    fn is_long_proper(&self) -> bool {
        self.long_proper
    }

    fn long_name(&self) -> &str {
        self.long_name.as_str()
    }

    fn is_short_plural_proper(&self) -> bool {
        self.short_plural_proper
    }

    fn short_plural_name(&self) -> &str {
        self.short_plural_name.as_str()
    }

    fn is_long_plural_proper(&self) -> bool {
        self.long_plural_proper
    }

    fn long_plural_name(&self) -> &str {
        self.long_plural_name.as_str()
    }
}

impl Object for NameRecord {

}

/// The plural of `word` under the table `entries`: if some entry's pattern
/// is a suffix of the word, only that suffix is replaced; otherwise `es` is
/// appended after a final `s`, and `s` alone after anything else.
pub open spec fn pluralize_spec(entries: Seq<(Seq<char>, Seq<char>)>, word: Seq<char>) -> Seq<
    char,
> {
    match lookup_spec(entries, word) {
        Some(e) => word.take(word.len() - e.0.len()) + e.1,
        None => if word.len() > 0 && word.last() == 's' {
            word + "es"@
        } else {
            word + "s"@
        },
    }
}

/// The comma-separated segments of a name specification, each with its
/// leading (not trailing) whitespace removed.
pub open spec fn segments_spec(input: Seq<char>) -> Seq<Seq<char>> {
    split_spec(input, ',').map_values(|p: Seq<char>| trim_start_spec(p))
}

/// The record that `create` builds from a name specification: missing
/// segments are defaulted — the long name as a copy of the short one, each
/// plural by pluralizing its singular counterpart — and a leading `!` marks
/// the segment it stands on as proper and is stripped.
pub open spec fn create_spec(
    entries: Seq<(Seq<char>, Seq<char>)>,
    input: Seq<char>,
    gender: Gender,
    is_thing: bool,
) -> NameRecordView {
    let segs = segments_spec(input);
    let short_raw = segs[0];
    let short = strip_marker(short_raw);
    let long_raw = if segs.len() < 2 {
        short
    } else {
        segs[1]
    };
    let long = strip_marker(long_raw);
    let short_plural_raw = if segs.len() < 3 {
        pluralize_spec(entries, short)
    } else {
        segs[2]
    };
    let short_plural = strip_marker(short_plural_raw);
    let long_plural_raw = if segs.len() < 4 {
        pluralize_spec(entries, long)
    } else {
        segs[3]
    };
    let long_plural = strip_marker(long_plural_raw);
    NameRecordView {
        short_name: short,
        long_name: long,
        short_plural_name: short_plural,
        long_plural_name: long_plural,
        short_proper: marked_proper(short_raw),
        long_proper: marked_proper(long_raw),
        short_plural_proper: marked_proper(short_plural_raw),
        long_plural_proper: marked_proper(long_plural_raw),
        gender,
        is_thing,
    }
}

/// Is this configuration line neither blank nor a `#` comment?
pub open spec fn line_is_relevant(l: Seq<char>) -> bool {
    trim_spec(l).len() > 0 && trim_spec(l)[0] != '#'
}

/// The pieces of a configuration line around `:`.
pub open spec fn line_parts(l: Seq<char>) -> Seq<Seq<char>> {
    split_spec(l, ':')
}

/// A line is acceptable when it is blank, a comment, or has exactly one
/// `:` separating a pattern from its replacement.
pub open spec fn line_ok(l: Seq<char>) -> bool {
    line_is_relevant(l) ==> line_parts(l).len() == 2
}

/// The pattern/replacement pair of a well-formed relevant line, both
/// trimmed of surrounding whitespace.
pub open spec fn line_entry(l: Seq<char>) -> (Seq<char>, Seq<char>) {
    (trim_spec(line_parts(l)[0]), trim_spec(line_parts(l)[1]))
}

/// The table entries that a sequence of configuration lines yields, in
/// line order, with blank and comment lines skipped.
pub open spec fn config_entries(lines: Seq<Seq<char>>) -> Seq<(Seq<char>, Seq<char>)>
    decreases lines.len(),
{
    if lines.len() == 0 {
        Seq::empty()
    } else {
        let rest = config_entries(lines.drop_first());
        if line_is_relevant(lines[0]) {
            seq![line_entry(lines[0])] + rest
        } else {
            rest
        }
    }
}

/// The index of the first unacceptable line, if any.
pub open spec fn first_bad_line(lines: Seq<Seq<char>>) -> Option<int>
    decreases lines.len(),
{
    if lines.len() == 0 {
        None
    } else if !line_ok(lines[0]) {
        Some(0 as int)
    } else {
        match first_bad_line(lines.drop_first()) {
            Some(j) => Some(j + 1),
            None => None,
        }
    }
}

/// Construction succeeds exactly when every line is acceptable, and a
/// reported bad line really is the first unacceptable one.
pub proof fn lemma_first_bad_line_iff(lines: Seq<Seq<char>>)
    ensures
        first_bad_line(lines) is None <==> (forall|i: int|
            0 <= i < lines.len() ==> line_ok(#[trigger] lines[i])),
        first_bad_line(lines) matches Some(b) ==> 0 <= b < lines.len() && !line_ok(lines[b]) && (
        forall|j: int| 0 <= j < b ==> line_ok(#[trigger] lines[j])),
    decreases lines.len(),
{
    if lines.len() > 0 {
        lemma_first_bad_line_iff(lines.drop_first());
        assert(forall|i: int|
            1 <= i < lines.len() ==> lines.drop_first()[i - 1] == #[trigger] lines[i]);
    }
}

proof fn lemma_first_bad_line_at(lines: Seq<Seq<char>>, i: int)
    requires
        0 <= i < lines.len(),
        !line_ok(lines[i]),
        forall|j: int| 0 <= j < i ==> line_ok(#[trigger] lines[j]),
    ensures
        first_bad_line(lines) == Some(i),
    decreases i,
{
    if i > 0 {
        assert(forall|j: int|
            0 <= j < lines.drop_first().len() ==> lines.drop_first()[j] == #[trigger] lines[j
                + 1]);
        lemma_first_bad_line_at(lines.drop_first(), i - 1);
    }
}

proof fn lemma_config_entries_push(lines: Seq<Seq<char>>, l: Seq<char>)
    ensures
        config_entries(lines.push(l)) == config_entries(lines) + (if line_is_relevant(l) {
            seq![line_entry(l)]
        } else {
            Seq::<(Seq<char>, Seq<char>)>::empty()
        }),
    decreases lines.len(),
{
    let tail = if line_is_relevant(l) {
        seq![line_entry(l)]
    } else {
        Seq::<(Seq<char>, Seq<char>)>::empty()
    };
    if lines.len() == 0 {
        assert(lines.push(l)[0] == l);
        assert(lines.push(l).drop_first() =~= lines);
        assert(config_entries(lines.push(l)) =~= config_entries(lines) + tail);
    } else {
        lemma_config_entries_push(lines.drop_first(), l);
        assert(lines.push(l)[0] == lines[0]);
        assert(lines.push(l).drop_first() =~= lines.drop_first().push(l));
        assert(config_entries(lines.push(l)) =~= config_entries(lines) + tail);
    }
}

/// The views of a vector of owned entry pairs.
pub open spec fn entry_views(s: Seq<(String, String)>) -> Seq<(Seq<char>, Seq<char>)> {
    Seq::new(s.len(), |i: int| (s[i].0@, s[i].1@))
}

proof fn lemma_lookup_map(entries: Seq<(Seq<char>, String)>, what: Seq<char>)
    ensures
        ({
            let ment = Seq::new(entries.len(), |i: int| (entries[i].0, entries[i].1@));
            match lookup_spec(entries, what) {
                Some(e) => lookup_spec(ment, what) matches Some(m) && m.0 == e.0 && m.1 == e.1@,
                None => lookup_spec(ment, what) is None,
            }
        }),
    decreases entries.len(),
{
    let ment = Seq::new(entries.len(), |i: int| (entries[i].0, entries[i].1@));
    if entries.len() > 0 {
        lemma_lookup_map(entries.drop_first(), what);
        let dment = Seq::new(
            entries.drop_first().len(),
            |i: int| (entries.drop_first()[i].0, entries.drop_first()[i].1@),
        );
        assert(dment =~= ment.drop_first());
        assert(ment[0].0 == entries[0].0);
    }
}

/// Creates [`NameRecord`]s, applying the pluralizer it was configured with
/// wherever a plural form is left out of a name specification.
#[derive(Debug)]
pub struct Factory {
    pluralising_suffixes: Suffix<String>,
}

impl View for Factory {
    type V = Seq<(Seq<char>, Seq<char>)>;

    closed spec fn view(&self) -> Seq<(Seq<char>, Seq<char>)> {
        Seq::new(
            self.pluralising_suffixes@.len(),
            |i: int| (self.pluralising_suffixes@[i].0, self.pluralising_suffixes@[i].1@),
        )
    }
}

impl Factory {
    /// Parses pluralization configuration text, one `pattern:replacement`
    /// mapping per line.  Blank lines and lines whose first non-blank
    /// character is `#` are skipped; any other line without exactly one `:`
    /// stops construction with a [`ConfigError`] naming it.
    pub fn from_reader(config: &str) -> (r: Result<Factory, ConfigError>)
        ensures
            ({
                let lines = split_spec(config@, '\n');
                match r {
                    Ok(f) => first_bad_line(lines) is None && f@ == config_entries(lines),
                    Err(e) => {
                        &&& first_bad_line(lines) is Some
                        &&& e.line as int == first_bad_line(lines)->0 + 1
                        &&& e.parts.deep_view() == line_parts(lines[first_bad_line(lines)->0])
                    },
                }
            }),
    {
        let lines = split_on(config, '\n');
        let ghost lines_v = split_spec(config@, '\n');
        let mut entries: Vec<(String, String)> = Vec::new();
        let mut i: usize = 0;
        proof {
            assert(lines_v.take(0) =~= Seq::<Seq<char>>::empty());
            assert(entry_views(entries@) =~= config_entries(lines_v.take(0)));
        }
        while i < lines.len()
            invariant
                i <= lines.len(),
                lines_v == split_spec(config@, '\n'),
                lines.deep_view() == lines_v,
                lines_v.len() == lines@.len(),
                forall|j: int| 0 <= j < i ==> line_ok(#[trigger] lines_v[j]),
                entry_views(entries@) == config_entries(lines_v.take(i as int)),
            decreases lines.len() - i,
        {
            let ghost pre_entries = entry_views(entries@);
            let l: &str = lines[i].as_str();
            proof {
                assert(l@ == lines_v[i as int]);
            }
            let t = trim(l);
            let relevant = t.as_str().unicode_len() > 0 && t.as_str().get_char(0) != '#';
            proof {
                assert(relevant == line_is_relevant(lines_v[i as int]));
            }
            if relevant {
                let parts = split_on(l, ':');
                if parts.len() != 2 {
                    proof {
                        assert(line_parts(lines_v[i as int]).len() == parts.deep_view().len());
                        assert(!line_ok(lines_v[i as int]));
                        lemma_first_bad_line_at(lines_v, i as int);
                    }
                    return Err(ConfigError { line: i + 1, parts });
                }
                let p0 = trim(parts[0].as_str());
                let p1 = trim(parts[1].as_str());
                proof {
                    assert(parts.deep_view()[0] == parts@[0]@);
                    assert(parts.deep_view()[1] == parts@[1]@);
                }
                entries.push((p0, p1));
                proof {
                    assert(entry_views(entries@) =~= pre_entries.push(
                        line_entry(lines_v[i as int]),
                    ));
                    lemma_config_entries_push(lines_v.take(i as int), lines_v[i as int]);
                    assert(lines_v.take(i + 1) =~= lines_v.take(i as int).push(
                        lines_v[i as int],
                    ));
                    assert(entry_views(entries@) =~= config_entries(lines_v.take(i + 1)));
                }
            } else {
                proof {
                    lemma_config_entries_push(lines_v.take(i as int), lines_v[i as int]);
                    assert(lines_v.take(i + 1) =~= lines_v.take(i as int).push(
                        lines_v[i as int],
                    ));
                    assert(entry_views(entries@) =~= config_entries(lines_v.take(i + 1)));
                }
            }
            i = i + 1;
        }
        proof {
            assert(lines_v.take(lines_v.len() as int) =~= lines_v);
            lemma_first_bad_line_iff(lines_v);
        }
        let ghost evs = entry_views(entries@);
        let f = Factory { pluralising_suffixes: Suffix::new(entries) };
        proof {
            assert(f@ =~= evs);
        }
        Ok(f)
    }

    /// The plural of `name`: a matching table entry replaces only the
    /// matched suffix; otherwise `es` is appended after a final `s`, and
    /// `s` after anything else.
    pub fn pluralize(&self, name: &str) -> (r: String)
        ensures
            r@ == pluralize_spec(self@, name@),
    {
        proof {
            lemma_lookup_map(self.pluralising_suffixes@, name@);
            lemma_lookup_spec_props(self.pluralising_suffixes@, name@);
            lemma_lookup_spec_props(self@, name@);
        }
        match self.pluralising_suffixes.lookup(name) {
            Some((k, v)) => {
                let nn = name.unicode_len();
                let nk = k.unicode_len();
                let mut ret = String::from_str(name.substring_char(0, nn - nk));
                ret.append(v.as_str());
                proof {
                    assert(name@.subrange(0, nn - nk) =~= name@.take(
                        name@.len() - k@.len(),
                    ));
                }
                ret
            },
            None => {
                let nn = name.unicode_len();
                let mut ret = String::from_str(name);
                if nn > 0 && name.get_char(nn - 1) == 's' {
                    ret.append("es");
                } else {
                    ret.append("s");
                }
                ret
            },
        }
    }

    /// Builds a [`NameRecord`] from a comma-separated name specification.
    /// Segment order is short name, long name, short plural, long plural;
    /// missing segments are defaulted and a leading `!` marks a segment as
    /// proper.  Only leading whitespace is trimmed from a segment.
    pub fn create(&self, name: &str, gender: Gender, is_thing: bool) -> (r: NameRecord)
        ensures
            r@ == create_spec(self@, name@, gender, is_thing),
    {
        let parts = split_on(name, ',');
        let mut segs: Vec<String> = Vec::new();
        let mut i: usize = 0;
        while i < parts.len()
            invariant
                i <= parts.len(),
                parts.deep_view() == split_spec(name@, ','),
                parts@.len() == parts.deep_view().len(),
                segs@.len() == i,
                forall|j: int|
                    0 <= j < i ==> #[trigger] segs@[j]@ == trim_start_spec(
                        parts.deep_view()[j],
                    ),
            decreases parts.len() - i,
        {
            segs.push(trim_start(parts[i].as_str()));
            i = i + 1;
        }
        let ghost sg = segments_spec(name@);
        proof {
            assert(sg.len() == segs@.len());
            assert(forall|j: int| 0 <= j < segs@.len() ==> #[trigger] segs@[j]@ == sg[j]);
        }
        let short_proper = starts_bang(segs[0].as_str());
        let short = strip_bang(segs[0].as_str());
        let long_src: String = if segs.len() < 2 {
            short.clone()
        } else {
            segs[1].clone()
        };
        let long_proper = starts_bang(long_src.as_str());
        let long = strip_bang(long_src.as_str());
        let short_plural_src: String = if segs.len() < 3 {
            self.pluralize(short.as_str())
        } else {
            segs[2].clone()
        };
        let short_plural_proper = starts_bang(short_plural_src.as_str());
        let short_plural = strip_bang(short_plural_src.as_str());
        let long_plural_src: String = if segs.len() < 4 {
            self.pluralize(long.as_str())
        } else {
            segs[3].clone()
        };
        let long_plural_proper = starts_bang(long_plural_src.as_str());
        let long_plural = strip_bang(long_plural_src.as_str());
        NameRecord {
            short_name: short,
            long_name: long,
            short_plural_name: short_plural,
            long_plural_name: long_plural,
            short_proper,
            long_proper,
            short_plural_proper,
            long_plural_proper,
            gender,
            is_thing,
        }
    }
}

} // verus!
