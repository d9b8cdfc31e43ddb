//! Display names by locale, and the choice of the best one for a request.

use vstd::prelude::*;

verus! {

/// The model of a name table: its entries in order, each a locale code with
/// the display name in that locale.
pub type Names = Seq<(Seq<char>, Seq<char>)>;

/// No locale code stands twice in `entries`.
pub open spec fn unique_locales(entries: Names) -> bool {
    forall|i: int, j: int| 0 <= i < j < entries.len() ==> entries[i].0 != entries[j].0
}

/// The name that `entries` holds for `locale`: that of the first entry with
/// this locale code, if there is one.
pub open spec fn name_for(entries: Names, locale: Seq<char>) -> Option<Seq<char>>
    decreases entries.len(),
{
    if entries.len() == 0 {
        None
    } else if entries[0].0 == locale {
        Some(entries[0].1)
    } else {
        name_for(entries.skip(1), locale)
    }
}

/// The name of the first entry, if there is any entry.
pub open spec fn first_name(entries: Names) -> Option<Seq<char>> {
    if entries.len() == 0 {
        None
    } else {
        Some(entries[0].1)
    }
}

/// The best name for a request in `locale`: the name in that locale, else the
/// one in `en`, else the one in `en-US`, else the first of the table.
pub open spec fn best_name(entries: Names, locale: Seq<char>) -> Option<Seq<char>> {
    if name_for(entries, locale) is Some {
        name_for(entries, locale)
    } else if name_for(entries, "en"@) is Some {
        name_for(entries, "en"@)
    } else if name_for(entries, "en-US"@) is Some {
        name_for(entries, "en-US"@)
    } else {
        first_name(entries)
    }
}

/// The best name where the table itself may be missing.
pub open spec fn resolved_name(names: Option<LocalizedNameTable>, locale: Seq<char>) -> Option<
    Seq<char>,
> {
    match names {
        Some(table) => best_name(table@, locale),
        None => None,
    }
}

/// Entry `i` is the first of `entries` with `locale`.
pub open spec fn first_with(entries: Names, locale: Seq<char>, i: int) -> bool {
    &&& 0 <= i < entries.len()
    &&& entries[i].0 == locale
    &&& forall|j: int| 0 <= j < i ==> entries[j].0 != locale
}

/// `name_for` gives the name of the first entry with the locale, and nothing
/// exactly when no entry has it.
pub proof fn lemma_name_for(entries: Names, locale: Seq<char>)
    ensures
        name_for(entries, locale) is None <==> forall|i: int|
            0 <= i < entries.len() ==> entries[i].0 != locale,
        forall|i: int| #[trigger]
            first_with(entries, locale, i) ==> name_for(entries, locale) == Some(entries[i].1),
    decreases entries.len(),
{
    if entries.len() > 0 && entries[0].0 != locale {
        let rest = entries.skip(1);
        lemma_name_for(rest, locale);
        assert forall|i: int| 0 <= i < rest.len() implies rest[i] == entries[i + 1] by {}
        if name_for(rest, locale) is None {
            assert forall|i: int| 0 <= i < entries.len() implies entries[i].0 != locale by {
                if i > 0 {
                    assert(rest[i - 1].0 != locale);
                }
            }
        } else {
            let k = choose|k: int| 0 <= k < rest.len() && rest[k].0 == locale;
            assert(entries[k + 1].0 == locale);
        }
        assert forall|i: int| #[trigger] first_with(entries, locale, i) implies name_for(
            entries,
            locale,
        ) == Some(entries[i].1) by {
            assert(rest[i - 1] == entries[i]);
            assert forall|j: int| 0 <= j < i - 1 implies rest[j].0 != locale by {
                assert(rest[j] == entries[j + 1]);
            }
            assert(first_with(rest, locale, i - 1));
        }
    } else if entries.len() > 0 {
        assert forall|i: int| #[trigger] first_with(entries, locale, i) implies name_for(
            entries,
            locale,
        ) == Some(entries[i].1) by {
            if i > 0 {
                assert(entries[0].0 != locale);
            }
        }
    }
}

/// `entries` with `name` set for `locale`: in place of the name of the first
/// entry with that locale, else as a new last entry.
pub open spec fn with_entry(entries: Names, locale: Seq<char>, name: Seq<char>) -> Names {
    if exists|i: int| first_with(entries, locale, i) {
        entries.update(choose|i: int| first_with(entries, locale, i), (locale, name))
    } else {
        entries.push((locale, name))
    }
}

/// `table` after each of `entries` was set in it, in order.
pub open spec fn inserted_all(table: Names, entries: Names) -> Names
    decreases entries.len(),
{
    if entries.len() == 0 {
        table
    } else {
        inserted_all(with_entry(table, entries[0].0, entries[0].1), entries.skip(1))
    }
}

/// Setting a name keeps the locale codes unique.
pub proof fn lemma_with_entry_unique(entries: Names, locale: Seq<char>, name: Seq<char>)
    requires
        unique_locales(entries),
    ensures
        unique_locales(with_entry(entries, locale, name)),
{
    let after = with_entry(entries, locale, name);
    if exists|i: int| first_with(entries, locale, i) {
        let k = choose|i: int| first_with(entries, locale, i);
        assert forall|i: int, j: int| 0 <= i < j < after.len() implies after[i].0 != after[j].0 by {
            assert(after[i].0 == entries[i].0);
            assert(after[j].0 == entries[j].0);
        }
    } else {
        assert forall|i: int, j: int| 0 <= i < j < after.len() implies after[i].0 != after[j].0 by {
            if j == entries.len() {
                if entries[i].0 == locale {
                    lemma_first_exists(entries, locale, i);
                }
            }
        }
    }
}

/// Where an entry has the locale, there is a first one.
pub proof fn lemma_first_exists(entries: Names, locale: Seq<char>, i: int)
    requires
        0 <= i < entries.len(),
        entries[i].0 == locale,
    ensures
        exists|k: int| first_with(entries, locale, k),
    decreases i,
{
    if exists|j: int| 0 <= j < i && entries[j].0 == locale {
        let j = choose|j: int| 0 <= j < i && entries[j].0 == locale;
        lemma_first_exists(entries, locale, j);
    } else {
        assert(first_with(entries, locale, i));
    }
}

/// Entries with unique locale codes, set one by one in a table that has none
/// of these locales, are appended to it.
pub proof fn lemma_inserted_all_unique(table: Names, entries: Names)
    requires
        unique_locales(table + entries),
    ensures
        inserted_all(table, entries) == table + entries,
    decreases entries.len(),
{
    if entries.len() == 0 {
        assert(table + entries =~= table);
    } else {
        let all = table + entries;
        let locale = entries[0].0;
        assert(all[table.len() as int] == entries[0]);
        assert forall|i: int| !first_with(table, locale, i) by {
            if 0 <= i < table.len() {
                assert(all[i] == table[i]);
            }
        }
        let next = with_entry(table, locale, entries[0].1);
        assert(next == table.push(entries[0]));
        assert(next + entries.skip(1) =~= all);
        lemma_inserted_all_unique(next, entries.skip(1));
    }
}

/// With unique locale codes, the name for a locale is the name of the one
/// entry that has it.
pub proof fn lemma_name_for_unique(entries: Names, locale: Seq<char>, i: int)
    requires
        unique_locales(entries),
        0 <= i < entries.len(),
        entries[i].0 == locale,
    ensures
        name_for(entries, locale) == Some(entries[i].1),
{
    lemma_name_for(entries, locale);
    assert(first_with(entries, locale, i));
}

/// Display names by locale code. No locale code stands twice; the entries
/// keep the order in which their locales were first inserted.
#[derive(Debug, PartialEq, Eq)]
pub struct LocalizedNameTable {
    entries: Vec<(String, String)>,
}

impl View for LocalizedNameTable {
    type V = Names;

    closed spec fn view(&self) -> Names {
        names_of(self.entries@)
    }
}

/// The model of a list of entries.
pub open spec fn names_of(entries: Seq<(String, String)>) -> Names {
    Seq::new(entries.len(), |i: int| (entries[i].0@, entries[i].1@))
}

/// The index of the first entry for `locale`, if there is one.
fn position(entries: &Vec<(String, String)>, locale: &str) -> (at: Option<usize>)
    ensures
        match at {
            Some(i) => first_with(names_of(entries@), locale@, i as int),
            None => forall|j: int|
                0 <= j < entries@.len() ==> names_of(entries@)[j].0 != locale@,
        },
{
    let wanted = locale.to_owned();
    let mut i: usize = 0;
    while i < entries.len()
        invariant
            i <= entries@.len(),
            wanted@ == locale@,
            forall|j: int| 0 <= j < i ==> names_of(entries@)[j].0 != locale@,
        decreases entries@.len() - i,
    {
        if entries[i].0 == wanted {
            return Some(i);
        }
        i += 1;
    }
    None
}

impl LocalizedNameTable {
    #[verifier::type_invariant]
    spec fn inv(self) -> bool {
        unique_locales(self@)
    }

    /// Well-formedness: what every table in hand satisfies.
    pub open spec fn wf(&self) -> bool {
        unique_locales(self@)
    }

    /// An empty table.
    pub fn new() -> (table: LocalizedNameTable)
        ensures
            table@ == Names::empty(),
            table.wf(),
    {
        let table = LocalizedNameTable { entries: Vec::new() };
        assert(table@ =~= Names::empty());
        table
    }

    /// The table in which each of `entries` was set, in order. Where no locale
    /// code stands twice in `entries`, the table holds just these entries.
    pub fn from_entries(entries: Vec<(String, String)>) -> (table: LocalizedNameTable)
        ensures
            table@ == inserted_all(Names::empty(), names_of(entries@)),
            unique_locales(names_of(entries@)) ==> table@ == names_of(entries@),
            table.wf(),
    {
        let ghost all = names_of(entries@);
        let mut table = LocalizedNameTable::new();
        let mut i: usize = 0;
        assert(all.skip(0) =~= all);
        while i < entries.len()
            invariant
                i <= entries@.len(),
                all == names_of(entries@),
                inserted_all(table@, all.skip(i as int)) == inserted_all(Names::empty(), all),
            decreases entries@.len() - i,
        {
            assert(all.skip(i as int).skip(1) =~= all.skip(i + 1));
            table.insert(entries[i].0.clone(), entries[i].1.clone());
            i += 1;
        }
        proof {
            use_type_invariant(&table);
            if unique_locales(all) {
                assert(Names::empty() + all =~= all);
                lemma_inserted_all_unique(Names::empty(), all);
            }
        }
        table
    }

    /// The number of entries.
    pub fn len(&self) -> (n: usize)
        ensures
            n == self@.len(),
    {
        self.entries.len()
    }

    /// Sets the name for `locale`: in place where the table has the locale,
    /// else as a new last entry.
    pub fn insert(&mut self, locale: String, name: String)
        ensures
            final(self)@ == with_entry(old(self)@, locale@, name@),
            final(self).wf(),
    {
        proof {
            use_type_invariant(&*self);
            lemma_with_entry_unique(self@, locale@, name@);
        }
        let ghost before = self@;
        let ghost key = locale@;
        let ghost value = name@;
        let mut entries: Vec<(String, String)> = Vec::new();
        core::mem::swap(&mut self.entries, &mut entries);
        assert(names_of(entries@) == before);
        match position(&entries, locale.as_str()) {
            Some(i) => {
                entries.set(i, (locale, name));
                assert(first_with(before, key, i as int));
                assert(names_of(entries@) =~= with_entry(before, key, value));
            },
            None => {
                entries.push((locale, name));
                assert(names_of(entries@) =~= with_entry(before, key, value));
            },
        }
        core::mem::swap(&mut self.entries, &mut entries);
    }

    /// The name for `locale`, if the table has that locale.
    pub fn get(&self, locale: &str) -> (name: Option<&String>)
        ensures
            match name {
                Some(n) => name_for(self@, locale@) == Some(n@),
                None => name_for(self@, locale@) is None,
            },
    {
        proof {
            lemma_name_for(self@, locale@);
        }
        match position(&self.entries, locale) {
            Some(i) => Some(&self.entries[i].1),
            None => None,
        }
    }

    /// The name of the first entry, if the table has any.
    pub fn first(&self) -> (name: Option<&String>)
        ensures
            match name {
                Some(n) => first_name(self@) == Some(n@),
                None => first_name(self@) is None,
            },
    {
        if self.entries.len() > 0 {
            Some(&self.entries[0].1)
        } else {
            None
        }
    }

    /// The locale code and the name of entry `i`, if the table has that many
    /// entries.
    pub fn entry(&self, i: usize) -> (e: Option<(&String, &String)>)
        ensures
            match e {
                Some((locale, name)) => i < self@.len() && (locale@, name@) == self@[i as int],
                None => i >= self@.len(),
            },
    {
        if i < self.entries.len() {
            Some((&self.entries[i].0, &self.entries[i].1))
        } else {
            None
        }
    }

    /// The best name for a request in `locale`.
    pub fn resolve(&self, locale: &str) -> (name: Option<&String>)
        ensures
            match name {
                Some(n) => best_name(self@, locale@) == Some(n@),
                None => best_name(self@, locale@) is None,
            },
    {
        if let Some(n) = self.get(locale) {
            return Some(n);
        }
        if let Some(n) = self.get("en") {
            return Some(n);
        }
        if let Some(n) = self.get("en-US") {
            return Some(n);
        }
        self.first()
    }
}

} // verus!
