//! Names in several languages.
use vstd::prelude::*;

verus! {

/// The mathematical value of an [`IString`].
pub struct IStringView {
    pub short_code: Seq<char>,
    pub names: Map<Seq<char>, Seq<char>>,
    pub default: Seq<char>,
}

/// Whether entry `i` of `entries` is the one for language `lang`.
spec fn entry_is_for(entries: Seq<(String, String)>, i: int, lang: Seq<char>) -> bool {
    0 <= i < entries.len() && entries[i].0@ == lang
}

/// Whether no language has two entries.
spec fn languages_distinct(entries: Seq<(String, String)>) -> bool {
    forall|i: int, j: int|
        0 <= i < j < entries.len() ==> #[trigger] entries[i].0@ != #[trigger] entries[j].0@
}

/// The map from language to name that a list of entries stands for.
spec fn entries_map(entries: Seq<(String, String)>) -> Map<Seq<char>, Seq<char>> {
    Map::new(
        |lang: Seq<char>| exists|i: int| entry_is_for(entries, i, lang),
        |lang: Seq<char>| entries[choose|i: int| entry_is_for(entries, i, lang)].1@,
    )
}

/// With distinct languages, the map gives for the language of entry `i` the
/// name of entry `i`.
proof fn lemma_entries_map_at(entries: Seq<(String, String)>, i: int)
    requires
        languages_distinct(entries),
        0 <= i < entries.len(),
    ensures
        entries_map(entries).contains_key(entries[i].0@),
        entries_map(entries)[entries[i].0@] == entries[i].1@,
{
    let lang = entries[i].0@;
    assert(entry_is_for(entries, i, lang));
    let found = choose|j: int| entry_is_for(entries, j, lang);
    assert(found == i);
}

/// Replacing the entry for a language by another entry for that language
/// keeps the languages distinct and sets the name of that language.
proof fn lemma_replace_entry(entries: Seq<(String, String)>, i: int, entry: (String, String))
    requires
        languages_distinct(entries),
        entry_is_for(entries, i, entry.0@),
    ensures
        languages_distinct(entries.update(i, entry)),
        entries_map(entries.update(i, entry)) == entries_map(entries).insert(entry.0@, entry.1@),
{
    let after = entries.update(i, entry);
    let expected = entries_map(entries).insert(entry.0@, entry.1@);
    assert forall|a: int, b: int| 0 <= a < b < after.len() implies after[a].0@ != after[b].0@ by {
        assert(entries[a].0@ != entries[b].0@);
    }
    assert forall|lang: Seq<char>|
        entries_map(after).contains_key(lang) == expected.contains_key(lang) by {
        if entries_map(after).contains_key(lang) {
            let j = choose|j: int| entry_is_for(after, j, lang);
            assert(entry_is_for(entries, j, lang));
        }
        if entries_map(entries).contains_key(lang) {
            let j = choose|j: int| entry_is_for(entries, j, lang);
            assert(entry_is_for(after, j, lang));
        }
        if lang == entry.0@ {
            assert(entry_is_for(after, i, lang));
        }
    }
    assert forall|lang: Seq<char>| entries_map(after).contains_key(lang) implies entries_map(
        after,
    )[lang] == expected[lang] by {
        let j = choose|j: int| entry_is_for(after, j, lang);
        lemma_entries_map_at(after, j);
        if lang != entry.0@ {
            lemma_entries_map_at(entries, j);
        }
    }
    assert(entries_map(after) =~= expected);
}

/// Adding an entry for a language that has none keeps the languages distinct
/// and sets the name of that language.
proof fn lemma_push_entry(entries: Seq<(String, String)>, entry: (String, String))
    requires
        languages_distinct(entries),
        forall|i: int| !entry_is_for(entries, i, entry.0@),
    ensures
        languages_distinct(entries.push(entry)),
        entries_map(entries.push(entry)) == entries_map(entries).insert(entry.0@, entry.1@),
{
    let after = entries.push(entry);
    let expected = entries_map(entries).insert(entry.0@, entry.1@);
    let last = entries.len() as int;
    assert forall|a: int, b: int| 0 <= a < b < after.len() implies after[a].0@ != after[b].0@ by {
        if b < last {
            assert(entries[a].0@ != entries[b].0@);
        } else {
            assert(!entry_is_for(entries, a, entry.0@));
        }
    }
    assert forall|lang: Seq<char>|
        entries_map(after).contains_key(lang) == expected.contains_key(lang) by {
        if entries_map(after).contains_key(lang) {
            let j = choose|j: int| entry_is_for(after, j, lang);
            if j < last {
                assert(entry_is_for(entries, j, lang));
            }
        }
        if entries_map(entries).contains_key(lang) {
            let j = choose|j: int| entry_is_for(entries, j, lang);
            assert(entry_is_for(after, j, lang));
        }
        if lang == entry.0@ {
            assert(entry_is_for(after, last, lang));
        }
    }
    assert forall|lang: Seq<char>| entries_map(after).contains_key(lang) implies entries_map(
        after,
    )[lang] == expected[lang] by {
        let j = choose|j: int| entry_is_for(after, j, lang);
        lemma_entries_map_at(after, j);
        if lang != entry.0@ {
            lemma_entries_map_at(entries, j);
        } else if j < last {
            assert(entry_is_for(entries, j, lang));
        }
    }
    assert(entries_map(after) =~= expected);
}

/// A name with translations, each under a language code, a short code to
/// refer to it by, and a default language.
///
/// Any string can be a language code; codes are compared letter by letter.
#[derive(Debug)]
pub struct IString {
    short_code: String,
    names: Vec<(String, String)>,
    default: String,
}

impl View for IString {
    type V = IStringView;

    closed spec fn view(&self) -> IStringView {
        IStringView {
            short_code: self.short_code@,
            names: entries_map(self.names@),
            default: self.default@,
        }
    }
}

impl IString {
    #[verifier::type_invariant]
    spec fn one_entry_per_language(self) -> bool {
        languages_distinct(self.names@)
    }

    /// A name with the given short code, no translation yet, and the empty
    /// string as default language.
    pub fn new(short_code: &str) -> (r: IString)
        ensures
            r@ == (IStringView {
                short_code: short_code@,
                names: Map::empty(),
                default: Seq::empty(),
            }),
    {
        let r = IString { short_code: short_code.to_owned(), names: Vec::new(), default: String::new() };
        assert(entries_map(r.names@) =~= Map::empty());
        r
    }

    /// The index of the entry for `lang`, if there is one.
    fn position(&self, lang: &String) -> (r: Option<usize>)
        ensures
            match r {
                Some(i) => entry_is_for(self.names@, i as int, lang@),
                None => forall|i: int| !entry_is_for(self.names@, i, lang@),
            },
    {
        let mut i: usize = 0;
        while i < self.names.len()
            invariant
                i <= self.names.len(),
                forall|j: int| 0 <= j < i ==> !entry_is_for(self.names@, j, lang@),
            decreases self.names.len() - i,
        {
            if self.names[i].0 == *lang {
                return Some(i);
            }
            i += 1;
        }
        None
    }

    /// Sets the name for language `lang` to `value`, whether or not the
    /// language had a name before.
    pub fn set_value_for(&mut self, lang: &str, value: &str)
        ensures
            final(self)@ == (IStringView {
                names: old(self)@.names.insert(lang@, value@),
                ..old(self)@
            }),
    {
        proof {
            use_type_invariant(&*self);
        }
        let key = lang.to_owned();
        let found = self.position(&key);
        let entry = (key, value.to_owned());
        let mut names = Vec::new();
        std::mem::swap(&mut names, &mut self.names);
        match found {
            Some(i) => {
                proof {
                    lemma_replace_entry(names@, i as int, entry);
                }
                names.set(i, entry);
            },
            None => {
                proof {
                    lemma_push_entry(names@, entry);
                }
                names.push(entry);
            },
        }
        self.names = names;
    }

    /// The default language.
    pub fn get_default(&self) -> (r: &str)
        ensures
            r@ == self@.default,
    {
        self.default.as_str()
    }

    /// Makes `new_default` the default language.
    pub fn set_default(&mut self, new_default: &str)
        ensures
            final(self)@ == (IStringView { default: new_default@, ..old(self)@ }),
    {
        proof {
            use_type_invariant(&*self);
        }
        self.default = new_default.to_owned();
    }

    /// The name in language `lang`, or `None` if the language has no name.
    pub fn get_value(&self, lang: &str) -> (r: Option<&str>)
        ensures
            match r {
                Some(name) => self@.names.contains_key(lang@) && name@ == self@.names[lang@],
                None => !self@.names.contains_key(lang@),
            },
    {
        proof {
            use_type_invariant(self);
        }
        let key = lang.to_owned();
        match self.position(&key) {
            Some(i) => {
                proof {
                    lemma_entries_map_at(self.names@, i as int);
                }
                Some(self.names[i].1.as_str())
            },
            None => None,
        }
    }

    /// The languages that have a name, each once, in the order in which they
    /// were first given one.
    pub fn get_languages(&self) -> (r: Vec<String>)
        ensures
            forall|lang: Seq<char>|
                self@.names.contains_key(lang) <==> exists|i: int|
                    0 <= i < r@.len() && #[trigger] r@[i]@ == lang,
            forall|i: int, j: int| 0 <= i < j < r@.len() ==> r@[i]@ != r@[j]@,
    {
        proof {
            use_type_invariant(self);
        }
        let mut languages: Vec<String> = Vec::new();
        let mut i: usize = 0;
        while i < self.names.len()
            invariant
                i <= self.names.len(),
                languages@.len() == i,
                forall|j: int| 0 <= j < i ==> (#[trigger] languages@[j])@ == self.names@[j].0@,
            decreases self.names.len() - i,
        {
            languages.push(self.names[i].0.clone());
            i += 1;
        }
        proof {
            assert forall|lang: Seq<char>|
                self@.names.contains_key(lang) <==> exists|i: int|
                    0 <= i < languages@.len() && #[trigger] languages@[i]@ == lang by {
                if self@.names.contains_key(lang) {
                    let j = choose|j: int| entry_is_for(self.names@, j, lang);
                    assert(languages@[j]@ == lang);
                }
                if exists|i: int| 0 <= i < languages@.len() && #[trigger] languages@[i]@ == lang {
                    let j = choose|i: int|
                        0 <= i < languages@.len() && #[trigger] languages@[i]@ == lang;
                    assert(entry_is_for(self.names@, j, lang));
                }
            }
            assert forall|i: int, j: int| 0 <= i < j < languages@.len() implies languages@[i]@
                != languages@[j]@ by {
                assert(self.names@[i].0@ != self.names@[j].0@);
            }
        }
        languages
    }

    /// The short code.
    pub fn get_short_code(&self) -> (r: &str)
        ensures
            r@ == self@.short_code,
    {
        self.short_code.as_str()
    }
}

impl IString {
    /// Whether every language that has a name here has the same name in
    /// `other`.
    fn covered_by(&self, other: &IString) -> (r: bool)
        ensures
            r == self@.names.submap_of(other@.names),
    {
        proof {
            use_type_invariant(self);
            use_type_invariant(other);
        }
        let mut i: usize = 0;
        while i < self.names.len()
            invariant
                i <= self.names.len(),
                languages_distinct(self.names@),
                languages_distinct(other.names@),
                forall|j: int|
                    0 <= j < i ==> {
                        &&& entries_map(other.names@).contains_key(#[trigger] self.names@[j].0@)
                        &&& entries_map(other.names@)[self.names@[j].0@] == self.names@[j].1@
                    },
            decreases self.names.len() - i,
        {
            proof {
                lemma_entries_map_at(self.names@, i as int);
            }
            match other.position(&self.names[i].0) {
                Some(j) => {
                    proof {
                        lemma_entries_map_at(other.names@, j as int);
                    }
                    if !(other.names[j].1 == self.names[i].1) {
                        return false;
                    }
                },
                None => {
                    proof {
                        let lang = self.names@[i as int].0@;
                        assert(self@.names.dom().contains(lang));
                        assert(!other@.names.dom().contains(lang));
                    }
                    return false;
                },
            }
            i += 1;
        }
        proof {
            assert forall|k: Seq<char>| #[trigger]
                entries_map(self.names@).contains_key(k) implies entries_map(
                other.names@,
            ).contains_key(k) && entries_map(self.names@)[k] == entries_map(other.names@)[k] by {
                let j = choose|j: int| entry_is_for(self.names@, j, k);
                lemma_entries_map_at(self.names@, j);
                assert(entries_map(other.names@).contains_key(self.names@[j].0@));
            }
        }
        true
    }
}

impl Clone for IString {
    /// A copy with the same short code, translations and default language.
    fn clone(&self) -> (r: IString)
        ensures
            r@ == self@,
    {
        proof {
            use_type_invariant(self);
        }
        let mut names: Vec<(String, String)> = Vec::new();
        let mut i: usize = 0;
        while i < self.names.len()
            invariant
                i <= self.names.len(),
                names@ == self.names@.take(i as int),
            decreases self.names.len() - i,
        {
            names.push((self.names[i].0.clone(), self.names[i].1.clone()));
            i += 1;
            assert(names@ =~= self.names@.take(i as int));
        }
        assert(names@ =~= self.names@);
        IString { short_code: self.short_code.clone(), names, default: self.default.clone() }
    }
}

impl PartialEq for IString {
    /// Two names are equal when they have the same short code, the same
    /// default language and the same name in every language, in whatever
    /// order the translations were added.
    fn eq(&self, other: &IString) -> (r: bool) {
        let same = self.short_code == other.short_code && self.default == other.default
            && self.covered_by(other) && other.covered_by(self);
        proof {
            if same {
                assert(self@.names.submap_of(other@.names));
                assert(other@.names.submap_of(self@.names));
                assert forall|k: Seq<char>| self@.names.dom().contains(k)
                    == other@.names.dom().contains(k) by {}
                assert(self@.names =~= other@.names);
            }
        }
        same
    }
}

impl vstd::std_specs::cmp::PartialEqSpecImpl for IString {
    open spec fn obeys_eq_spec() -> bool {
        true
    }

    open spec fn eq_spec(&self, other: &IString) -> bool {
        self@ == other@
    }
}

impl Eq for IString {

}

} // verus!
