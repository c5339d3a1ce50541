//! The registry of stored definitions: for each identifier the stored
//! payload and, once the package was installed, what was installed.
//!
//! A registry is a value. Whoever keeps definitions on disk reads them
//! into one, asks it, and writes back what changed.

use vstd::prelude::*;
use crate::config::codec::{
    parse, parse_outcome, serialize, serialize_outcome, ConfigError, Fault,
};
use crate::config::package::{PackageConfig, PackageConfigModel};
use crate::text::{
    comes_before, lemma_precedes_irreflexive, lemma_precedes_total, lemma_precedes_transitive,
    listed, precedes, same_text,
};

verus! {

/// What an install left behind: the version found, where the binary
/// is, and when it was put there.
#[derive(Debug, Clone, PartialEq, Eq)]
pub struct InstalledState {
    pub version: String,
    pub path: String,
    /// The time of the install, in seconds since the Unix epoch.
    pub installed_at: u64,
}

/// `InstalledState`, each text as the sequence of its characters.
pub struct InstalledStateModel {
    pub version: Seq<char>,
    pub path: Seq<char>,
    pub installed_at: u64,
}

impl View for InstalledState {
    type V = InstalledStateModel;

    open spec fn view(&self) -> InstalledStateModel {
        InstalledStateModel {
            version: self.version@,
            path: self.path@,
            installed_at: self.installed_at,
        }
    }
}

impl InstalledState {
    /// A copy that holds the same.
    pub fn duplicate(&self) -> (r: InstalledState)
        ensures
            r@ == self@,
    {
        InstalledState {
            version: self.version.clone(),
            path: self.path.clone(),
            installed_at: self.installed_at,
        }
    }
}

/// One stored definition.
#[derive(Debug, Clone, PartialEq, Eq)]
pub struct Entry {
    pub identifier: String,
    /// The definition as it is stored.
    pub payload: String,
    /// Kept beside the definition, never merged into it.
    pub installed: Option<InstalledState>,
}

/// `Entry`, each text as the sequence of its characters.
pub struct EntryModel {
    pub identifier: Seq<char>,
    pub payload: Seq<char>,
    pub installed: Option<InstalledStateModel>,
}

impl View for Entry {
    type V = EntryModel;

    open spec fn view(&self) -> EntryModel {
        EntryModel {
            identifier: self.identifier@,
            payload: self.payload@,
            installed: match self.installed {
                Some(state) => Some(state@),
                None => None,
            },
        }
    }
}

impl Entry {
    /// A copy that holds the same.
    pub fn duplicate(&self) -> (r: Entry)
        ensures
            r@ == self@,
    {
        Entry {
            identifier: self.identifier.clone(),
            payload: self.payload.clone(),
            installed: match &self.installed {
                Some(state) => Some(state.duplicate()),
                None => None,
            },
        }
    }
}

/// Why the registry refused.
#[derive(Debug, Clone, Copy, PartialEq, Eq, Structural)]
pub enum RegistryError {
    /// A definition with this identifier is stored already.
    IdentifierCollision,
    /// No definition with this identifier is stored.
    NotFound,
    /// What is stored under this identifier is no definition.
    CorruptDefinition(ConfigError),
    /// The definition cannot be stored.
    Unstorable(ConfigError),
}

/// The stored definitions, one for each identifier, kept in the order of
/// their identifiers.
#[derive(Debug, PartialEq, Eq)]
pub struct Registry {
    entries: Vec<Entry>,
}

impl View for Registry {
    type V = Map<Seq<char>, EntryModel>;

    closed spec fn view(&self) -> Map<Seq<char>, EntryModel> {
        table_of(self.entries@)
    }
}

/// The entries are in strictly ascending order of their identifiers.
pub closed spec fn ascending(entries: Seq<Entry>) -> bool {
    forall|i: int, j: int|
        0 <= i < j < entries.len() ==> precedes(
            #[trigger] entries[i].identifier@,
            #[trigger] entries[j].identifier@,
        )
}

/// Some entry carries the identifier `id`.
pub closed spec fn holds(entries: Seq<Entry>, id: Seq<char>) -> bool {
    exists|i: int| 0 <= i < entries.len() && #[trigger] entries[i].identifier@ == id
}

/// The entries as a map from identifier to entry.
pub closed spec fn table_of(entries: Seq<Entry>) -> Map<Seq<char>, EntryModel> {
    Map::new(
        |id: Seq<char>| holds(entries, id),
        |id: Seq<char>|
            {
                let i = choose|i: int|
                    0 <= i < entries.len() && #[trigger] entries[i].identifier@ == id;
                entries[i]@
            },
    )
}

/// `id` has its place at `pos`: what stands before `pos` precedes it, and
/// it precedes what stands at `pos`.
spec fn fits_at(entries: Seq<Entry>, id: Seq<char>, pos: int) -> bool {
    &&& 0 <= pos <= entries.len()
    &&& forall|j: int| 0 <= j < pos ==> precedes(#[trigger] entries[j].identifier@, id)
    &&& pos < entries.len() ==> precedes(id, entries[pos].identifier@)
}

proof fn lemma_entry_found(entries: Seq<Entry>, i: int)
    requires
        ascending(entries),
        0 <= i < entries.len(),
    ensures
        table_of(entries).contains_key(entries[i].identifier@),
        table_of(entries)[entries[i].identifier@] == entries[i]@,
{
    let id = entries[i].identifier@;
    assert(holds(entries, id));
    let j = choose|j: int| 0 <= j < entries.len() && #[trigger] entries[j].identifier@ == id;
    if j != i {
        lemma_precedes_irreflexive(id);
        if j < i {
            assert(precedes(entries[j].identifier@, entries[i].identifier@));
        } else {
            assert(precedes(entries[i].identifier@, entries[j].identifier@));
        }
    }
}

proof fn lemma_fits_means_absent(entries: Seq<Entry>, id: Seq<char>, pos: int)
    requires
        ascending(entries),
        fits_at(entries, id, pos),
    ensures
        !table_of(entries).contains_key(id),
{
    lemma_precedes_irreflexive(id);
    assert forall|j: int| 0 <= j < entries.len() implies #[trigger] entries[j].identifier@
        != id by {
        if j < pos {
            assert(precedes(entries[j].identifier@, id));
        } else if j > pos {
            assert(precedes(entries[pos].identifier@, entries[j].identifier@));
            lemma_precedes_transitive(id, entries[pos].identifier@, entries[j].identifier@);
        }
    }
}

proof fn lemma_insert_entry(entries: Seq<Entry>, entry: Entry, pos: int)
    requires
        ascending(entries),
        fits_at(entries, entry.identifier@, pos),
    ensures
        ascending(entries.insert(pos, entry)),
        table_of(entries.insert(pos, entry)) == table_of(entries).insert(
            entry.identifier@,
            entry@,
        ),
{
    let id = entry.identifier@;
    let after = entries.insert(pos, entry);
    assert forall|i: int, j: int| 0 <= i < j < after.len() implies precedes(
        #[trigger] after[i].identifier@,
        #[trigger] after[j].identifier@,
    ) by {
        if j < pos {
            assert(precedes(entries[i].identifier@, entries[j].identifier@));
        } else if j == pos {
            assert(precedes(entries[i].identifier@, id));
        } else if i < pos {
            assert(precedes(entries[i].identifier@, entries[j - 1].identifier@));
        } else if i == pos {
            if j - 1 > pos {
                assert(precedes(entries[pos].identifier@, entries[j - 1].identifier@));
                lemma_precedes_transitive(id, entries[pos].identifier@, entries[j - 1].identifier@);
            }
        } else {
            assert(precedes(entries[i - 1].identifier@, entries[j - 1].identifier@));
        }
    }
    let left = table_of(after);
    let right = table_of(entries).insert(id, entry@);
    assert forall|key: Seq<char>| left.contains_key(key) <==> right.contains_key(key) by {
        if left.contains_key(key) {
            let i = choose|i: int| 0 <= i < after.len() && #[trigger] after[i].identifier@ == key;
            if i < pos {
                assert(entries[i].identifier@ == key);
            } else if i > pos {
                assert(entries[i - 1].identifier@ == key);
            }
        }
        if right.contains_key(key) {
            if key == id {
                assert(after[pos].identifier@ == key);
            } else {
                let i = choose|i: int|
                    0 <= i < entries.len() && #[trigger] entries[i].identifier@ == key;
                if i < pos {
                    assert(after[i].identifier@ == key);
                } else {
                    assert(after[i + 1].identifier@ == key);
                }
            }
        }
    }
    assert forall|key: Seq<char>| left.contains_key(key) implies left[key] == right[key] by {
        let i = choose|i: int| 0 <= i < after.len() && #[trigger] after[i].identifier@ == key;
        lemma_entry_found(after, i);
        if i < pos {
            lemma_entry_found(entries, i);
        } else if i > pos {
            lemma_entry_found(entries, i - 1);
        }
        lemma_fits_means_absent(entries, id, pos);
    }
    assert(left =~= right);
}

proof fn lemma_remove_entry(entries: Seq<Entry>, pos: int)
    requires
        ascending(entries),
        0 <= pos < entries.len(),
    ensures
        ascending(entries.remove(pos)),
        table_of(entries.remove(pos)) == table_of(entries).remove(entries[pos].identifier@),
{
    let id = entries[pos].identifier@;
    let after = entries.remove(pos);
    assert forall|i: int, j: int| 0 <= i < j < after.len() implies precedes(
        #[trigger] after[i].identifier@,
        #[trigger] after[j].identifier@,
    ) by {
        let from_i = if i < pos { i } else { i + 1 };
        let from_j = if j < pos { j } else { j + 1 };
        assert(precedes(entries[from_i].identifier@, entries[from_j].identifier@));
    }
    let left = table_of(after);
    let right = table_of(entries).remove(id);
    lemma_precedes_irreflexive(id);
    assert forall|key: Seq<char>| left.contains_key(key) <==> right.contains_key(key) by {
        if left.contains_key(key) {
            let i = choose|i: int| 0 <= i < after.len() && #[trigger] after[i].identifier@ == key;
            let from = if i < pos { i } else { i + 1 };
            assert(entries[from].identifier@ == key);
            if from < pos {
                assert(precedes(entries[from].identifier@, entries[pos].identifier@));
            } else {
                assert(precedes(entries[pos].identifier@, entries[from].identifier@));
            }
        }
        if right.contains_key(key) {
            let i = choose|i: int|
                0 <= i < entries.len() && #[trigger] entries[i].identifier@ == key;
            if i < pos {
                assert(after[i].identifier@ == key);
            } else {
                assert(after[i - 1].identifier@ == key);
            }
        }
    }
    assert forall|key: Seq<char>| left.contains_key(key) implies left[key] == right[key] by {
        let i = choose|i: int| 0 <= i < after.len() && #[trigger] after[i].identifier@ == key;
        lemma_entry_found(after, i);
        lemma_entry_found(entries, if i < pos { i } else { i + 1 });
    }
    assert(left =~= right);
}

proof fn lemma_update_entry(entries: Seq<Entry>, entry: Entry, pos: int)
    requires
        ascending(entries),
        0 <= pos < entries.len(),
        entry.identifier@ == entries[pos].identifier@,
    ensures
        ascending(entries.update(pos, entry)),
        table_of(entries.update(pos, entry)) == table_of(entries).insert(
            entry.identifier@,
            entry@,
        ),
{
    let id = entry.identifier@;
    let after = entries.update(pos, entry);
    assert forall|i: int, j: int| 0 <= i < j < after.len() implies precedes(
        #[trigger] after[i].identifier@,
        #[trigger] after[j].identifier@,
    ) by {
        assert(precedes(entries[i].identifier@, entries[j].identifier@));
    }
    let left = table_of(after);
    let right = table_of(entries).insert(id, entry@);
    assert forall|key: Seq<char>| left.contains_key(key) <==> right.contains_key(key) by {
        if left.contains_key(key) {
            let i = choose|i: int| 0 <= i < after.len() && #[trigger] after[i].identifier@ == key;
            assert(entries[i].identifier@ == key);
        }
        if right.contains_key(key) {
            if key == id {
                assert(after[pos].identifier@ == key);
            } else {
                let i = choose|i: int|
                    0 <= i < entries.len() && #[trigger] entries[i].identifier@ == key;
                assert(after[i].identifier@ == key);
            }
        }
    }
    assert forall|key: Seq<char>| left.contains_key(key) implies left[key] == right[key] by {
        let i = choose|i: int| 0 <= i < after.len() && #[trigger] after[i].identifier@ == key;
        lemma_entry_found(after, i);
        lemma_entry_found(entries, i);
        lemma_entry_found(entries, pos);
        if i != pos && key == id {
            lemma_precedes_irreflexive(id);
            if i < pos {
                assert(precedes(entries[i].identifier@, entries[pos].identifier@));
            } else {
                assert(precedes(entries[pos].identifier@, entries[i].identifier@));
            }
        }
    }
    assert(left =~= right);
}

/// What `register` leaves behind and answers.
pub open spec fn register_outcome(
    before: Map<Seq<char>, EntryModel>,
    identifier: Seq<char>,
    payload: Seq<char>,
) -> (Map<Seq<char>, EntryModel>, Result<(), RegistryError>) {
    if before.contains_key(identifier) {
        (before, Err(RegistryError::IdentifierCollision))
    } else {
        (
            before.insert(identifier, EntryModel { identifier, payload, installed: None }),
            Ok(()),
        )
    }
}

/// What `replace` leaves behind and answers.
pub open spec fn replace_outcome(
    before: Map<Seq<char>, EntryModel>,
    identifier: Seq<char>,
    payload: Seq<char>,
) -> (Map<Seq<char>, EntryModel>, Result<(), RegistryError>) {
    if before.contains_key(identifier) {
        (
            before.insert(
                identifier,
                EntryModel { identifier, payload, installed: before[identifier].installed },
            ),
            Ok(()),
        )
    } else {
        (before, Err(RegistryError::NotFound))
    }
}

/// What `record_install` leaves behind and answers.
pub open spec fn record_outcome(
    before: Map<Seq<char>, EntryModel>,
    identifier: Seq<char>,
    state: InstalledStateModel,
) -> (Map<Seq<char>, EntryModel>, Result<(), RegistryError>) {
    if before.contains_key(identifier) {
        (
            before.insert(
                identifier,
                EntryModel {
                    identifier,
                    payload: before[identifier].payload,
                    installed: Some(state),
                },
            ),
            Ok(()),
        )
    } else {
        (before, Err(RegistryError::NotFound))
    }
}

/// What `create` leaves behind and answers: a taken identifier is
/// refused before anything else is looked at.
pub open spec fn create_outcome(before: Map<Seq<char>, EntryModel>, config: PackageConfigModel) -> (
    Map<Seq<char>, EntryModel>,
    Result<(), RegistryError>,
) {
    if before.contains_key(config.meta.identifier) {
        (before, Err(RegistryError::IdentifierCollision))
    } else {
        match serialize_outcome(config) {
            Ok(payload) => register_outcome(before, config.meta.identifier, payload),
            Err(error) => (before, Err(RegistryError::Unstorable(error))),
        }
    }
}

/// What `save` leaves behind and answers.
pub open spec fn save_outcome(before: Map<Seq<char>, EntryModel>, config: PackageConfigModel) -> (
    Map<Seq<char>, EntryModel>,
    Result<(), RegistryError>,
) {
    if !before.contains_key(config.meta.identifier) {
        (before, Err(RegistryError::NotFound))
    } else {
        match serialize_outcome(config) {
            Ok(payload) => replace_outcome(before, config.meta.identifier, payload),
            Err(error) => (before, Err(RegistryError::Unstorable(error))),
        }
    }
}

/// What `load` answers.
pub open spec fn load_outcome(table: Map<Seq<char>, EntryModel>, identifier: Seq<char>) -> Result<
    PackageConfigModel,
    RegistryError,
> {
    if !table.contains_key(identifier) {
        Err(RegistryError::NotFound)
    } else {
        match parse_outcome(table[identifier].payload) {
            Ok(config) => if config.meta.identifier == identifier {
                Ok(config)
            } else {
                Err(RegistryError::CorruptDefinition(ConfigError::Malformed(Fault::Misfiled)))
            },
            Err(error) => Err(RegistryError::CorruptDefinition(error)),
        }
    }
}

/// What is loaded under an identifier has that identifier: no command
/// that works on a loaded definition can change another one.
pub proof fn lemma_loaded_is_filed(table: Map<Seq<char>, EntryModel>, identifier: Seq<char>)
    ensures
        load_outcome(table, identifier) matches Ok(config) ==> config.meta.identifier
            == identifier && table.contains_key(identifier),
{
}

/// Once a definition is created under an identifier, every further
/// `create` under that identifier is refused as a collision and changes
/// nothing, whatever else the second definition holds.
pub proof fn lemma_second_create_collides(
    before: Map<Seq<char>, EntryModel>,
    first: PackageConfigModel,
    second: PackageConfigModel,
)
    requires
        create_outcome(before, first).1 is Ok,
        second.meta.identifier == first.meta.identifier,
    ensures
        create_outcome(create_outcome(before, first).0, second) == (
            create_outcome(before, first).0,
            Err::<(), RegistryError>(RegistryError::IdentifierCollision),
        ),
{
}

/// `save` brings no identifier in and takes none out.
pub proof fn lemma_save_keeps_identifiers(
    before: Map<Seq<char>, EntryModel>,
    config: PackageConfigModel,
)
    ensures
        save_outcome(before, config).0.dom() == before.dom(),
{
    assert(save_outcome(before, config).0.dom() =~= before.dom());
}

/// Recording an install leaves every definition as it is stored: what
/// the user asked for and what was done are kept apart.
pub proof fn lemma_record_keeps_definitions(
    before: Map<Seq<char>, EntryModel>,
    identifier: Seq<char>,
    state: InstalledStateModel,
    other: Seq<char>,
)
    ensures
        record_outcome(before, identifier, state).0.dom() == before.dom(),
        load_outcome(record_outcome(before, identifier, state).0, other) == load_outcome(
            before,
            other,
        ),
{
    assert(record_outcome(before, identifier, state).0.dom() =~= before.dom());
}

/// Saving a definition anew leaves what was recorded of its install,
/// and every other entry, as it is.
pub proof fn lemma_save_keeps_installs(
    before: Map<Seq<char>, EntryModel>,
    config: PackageConfigModel,
    other: Seq<char>,
)
    requires
        before.contains_key(other),
    ensures
        save_outcome(before, config).0.contains_key(other),
        save_outcome(before, config).0[other].installed == before[other].installed,
        other != config.meta.identifier ==> save_outcome(before, config).0[other] == before[other],
{
}

impl Registry {
    #[verifier::type_invariant]
    spec fn in_order(self) -> bool {
        ascending(self.entries@)
    }

    /// A registry that holds nothing.
    pub fn new() -> (r: Registry)
        ensures
            r@ == Map::<Seq<char>, EntryModel>::empty(),
    {
        let r = Registry { entries: Vec::new() };
        assert(r@ =~= Map::<Seq<char>, EntryModel>::empty());
        r
    }

    /// Hands out the entries and leaves none, to be put back in order.
    fn take_entries(&mut self) -> (r: Vec<Entry>)
        ensures
            r@ == old(self).entries@,
            final(self).entries@ == Seq::<Entry>::empty(),
    {
        let mut entries: Vec<Entry> = Vec::new();
        core::mem::swap(&mut self.entries, &mut entries);
        entries
    }

    /// Where `identifier` stands, or where it would.
    fn locate(&self, identifier: &str) -> (r: (usize, bool))
        ensures
            r.0 <= self.entries@.len(),
            r.1 ==> r.0 < self.entries@.len() && self.entries@[r.0 as int].identifier@
                == identifier@,
            !r.1 ==> fits_at(self.entries@, identifier@, r.0 as int),
            r.1 == self@.contains_key(identifier@),
    {
        proof {
            use_type_invariant(self);
        }
        let mut i: usize = 0;
        while i < self.entries.len()
            invariant
                i <= self.entries@.len(),
                ascending(self.entries@),
                forall|j: int|
                    0 <= j < i ==> precedes(#[trigger] self.entries@[j].identifier@, identifier@),
            decreases self.entries@.len() - i,
        {
            let here = self.entries[i].identifier.as_str();
            if !comes_before(here, identifier) {
                let found = same_text(here, identifier);
                proof {
                    if found {
                        lemma_entry_found(self.entries@, i as int);
                    } else {
                        lemma_precedes_total(here@, identifier@);
                        lemma_fits_means_absent(self.entries@, identifier@, i as int);
                    }
                }
                return (i, found);
            }
            i += 1;
        }
        proof {
            lemma_fits_means_absent(self.entries@, identifier@, i as int);
        }
        (i, false)
    }

    /// Whether a definition is stored under `identifier`.
    pub fn contains(&self, identifier: &str) -> (r: bool)
        ensures
            r == self@.contains_key(identifier@),
    {
        self.locate(identifier).1
    }

    /// The entry stored under `identifier`.
    pub fn get(&self, identifier: &str) -> (r: Option<Entry>)
        ensures
            match r {
                Some(entry) => self@.contains_key(identifier@) && entry@ == self@[identifier@]
                    && entry.identifier@ == identifier@,
                None => !self@.contains_key(identifier@),
            },
    {
        proof {
            use_type_invariant(self);
        }
        let (pos, found) = self.locate(identifier);
        if found {
            proof {
                lemma_entry_found(self.entries@, pos as int);
            }
            Some(self.entries[pos].duplicate())
        } else {
            None
        }
    }

    /// Stores `payload` under `identifier`, unless something is stored
    /// there already: then nothing changes.
    pub fn register(&mut self, identifier: String, payload: String) -> (r: Result<
        (),
        RegistryError,
    >)
        ensures
            (final(self)@, r) == register_outcome(old(self)@, identifier@, payload@),
    {
        proof {
            use_type_invariant(&*self);
        }
        let (pos, found) = self.locate(identifier.as_str());
        if found {
            return Err(RegistryError::IdentifierCollision);
        }
        let entry = Entry { identifier, payload, installed: None };
        proof {
            lemma_insert_entry(self.entries@, entry, pos as int);
        }
        let mut entries = self.take_entries();
        entries.insert(pos, entry);
        self.entries = entries;
        Ok(())
    }

    /// Puts `payload` in the place of what is stored under `identifier`.
    /// What was installed stays recorded, and no identifier comes or goes.
    pub fn replace(&mut self, identifier: &str, payload: String) -> (r: Result<(), RegistryError>)
        ensures
            (final(self)@, r) == replace_outcome(old(self)@, identifier@, payload@),
    {
        proof {
            use_type_invariant(&*self);
        }
        let (pos, found) = self.locate(identifier);
        if !found {
            return Err(RegistryError::NotFound);
        }
        proof {
            lemma_entry_found(self.entries@, pos as int);
        }
        let kept = self.entries[pos].duplicate();
        let entry = Entry { identifier: kept.identifier, payload, installed: kept.installed };
        proof {
            lemma_update_entry(self.entries@, entry, pos as int);
        }
        let mut entries = self.take_entries();
        entries.set(pos, entry);
        self.entries = entries;
        Ok(())
    }

    /// Records beside the definition what was installed for it.
    pub fn record_install(&mut self, identifier: &str, state: InstalledState) -> (r: Result<
        (),
        RegistryError,
    >)
        ensures
            (final(self)@, r) == record_outcome(old(self)@, identifier@, state@),
    {
        proof {
            use_type_invariant(&*self);
        }
        let (pos, found) = self.locate(identifier);
        if !found {
            return Err(RegistryError::NotFound);
        }
        proof {
            lemma_entry_found(self.entries@, pos as int);
        }
        let kept = self.entries[pos].duplicate();
        let entry = Entry {
            identifier: kept.identifier,
            payload: kept.payload,
            installed: Some(state),
        };
        proof {
            lemma_update_entry(self.entries@, entry, pos as int);
        }
        let mut entries = self.take_entries();
        entries.set(pos, entry);
        self.entries = entries;
        Ok(())
    }

    /// Takes out what is stored under `identifier` and hands it back.
    pub fn delete(&mut self, identifier: &str) -> (r: Result<Entry, RegistryError>)
        ensures
            match r {
                Ok(entry) => old(self)@.contains_key(identifier@) && entry@ == old(
                    self,
                )@[identifier@] && final(self)@ == old(self)@.remove(identifier@),
                Err(e) => e == RegistryError::NotFound && !old(self)@.contains_key(identifier@)
                    && final(self)@ == old(self)@,
            },
    {
        proof {
            use_type_invariant(&*self);
        }
        let (pos, found) = self.locate(identifier);
        if !found {
            return Err(RegistryError::NotFound);
        }
        proof {
            lemma_entry_found(self.entries@, pos as int);
            lemma_remove_entry(self.entries@, pos as int);
        }
        let mut entries = self.take_entries();
        let entry = entries.remove(pos);
        self.entries = entries;
        Ok(entry)
    }

    /// Stores a new definition under its identifier.
    pub fn create(&mut self, config: &PackageConfig) -> (r: Result<(), RegistryError>)
        ensures
            (final(self)@, r) == create_outcome(old(self)@, config@),
    {
        if self.contains(config.meta.identifier.as_str()) {
            return Err(RegistryError::IdentifierCollision);
        }
        match serialize(config) {
            Ok(payload) => self.register(config.meta.identifier.clone(), payload),
            Err(error) => Err(RegistryError::Unstorable(error)),
        }
    }

    /// Stores a definition in the place of the one that has its
    /// identifier.
    pub fn save(&mut self, config: &PackageConfig) -> (r: Result<(), RegistryError>)
        ensures
            (final(self)@, r) == save_outcome(old(self)@, config@),
    {
        if !self.contains(config.meta.identifier.as_str()) {
            return Err(RegistryError::NotFound);
        }
        match serialize(config) {
            Ok(payload) => self.replace(config.meta.identifier.as_str(), payload),
            Err(error) => Err(RegistryError::Unstorable(error)),
        }
    }

    /// Reads the definition stored under `identifier`. A stored text
    /// that names another identifier is no definition of this one.
    pub fn load(&self, identifier: &str) -> (r: Result<PackageConfig, RegistryError>)
        ensures
            match load_outcome(self@, identifier@) {
                Ok(config) => r matches Ok(found) && found@ == config,
                Err(error) => r matches Err(e) && e == error,
            },
    {
        match self.get(identifier) {
            None => Err(RegistryError::NotFound),
            Some(entry) => match parse(entry.payload.as_str()) {
                Ok(config) => if same_text(config.meta.identifier.as_str(), identifier) {
                    Ok(config)
                } else {
                    Err(RegistryError::CorruptDefinition(ConfigError::Malformed(Fault::Misfiled)))
                },
                Err(error) => Err(RegistryError::CorruptDefinition(error)),
            },
        }
    }

    /// How many definitions are stored.
    pub fn len(&self) -> (r: usize)
        ensures
            self@.dom().finite(),
            r == self@.dom().len(),
    {
        proof {
            use_type_invariant(self);
            lemma_count(self.entries@);
        }
        self.entries.len()
    }

    /// The identifiers of all stored definitions, in ascending order.
    pub fn list(&self) -> (r: Vec<String>)
        ensures
            is_listing(r@, self@.dom()),
    {
        proof {
            use_type_invariant(self);
        }
        let mut out: Vec<String> = Vec::new();
        let mut i: usize = 0;
        while i < self.entries.len()
            invariant
                i <= self.entries@.len(),
                out@.len() == i,
                forall|j: int| 0 <= j < i ==> (#[trigger] out@[j])@ == self.entries@[j].identifier@,
            decreases self.entries@.len() - i,
        {
            out.push(self.entries[i].identifier.clone());
            i += 1;
        }
        proof {
            let entries = self.entries@;
            assert forall|a: int, b: int| 0 <= a < b < out@.len() implies precedes(
                #[trigger] out@[a]@,
                #[trigger] out@[b]@,
            ) by {
                assert(precedes(entries[a].identifier@, entries[b].identifier@));
            }
            assert forall|id: Seq<char>| self@.dom().contains(id) <==> listed(out@, id) by {
                if self@.dom().contains(id) {
                    let k = choose|k: int|
                        0 <= k < entries.len() && #[trigger] entries[k].identifier@ == id;
                    assert(out@[k]@ == id);
                }
                if listed(out@, id) {
                    let k = choose|k: int| 0 <= k < out@.len() && (#[trigger] out@[k])@ == id;
                    assert(entries[k].identifier@ == id);
                }
            }
        }
        out
    }
}

/// `names` lists exactly the members of `ids`, each once, in ascending
/// order.
pub open spec fn is_listing(names: Seq<String>, ids: Set<Seq<char>>) -> bool {
    &&& forall|a: int, b: int|
        0 <= a < b < names.len() ==> precedes(#[trigger] names[a]@, #[trigger] names[b]@)
    &&& forall|id: Seq<char>| ids.contains(id) <==> listed(names, id)
}

proof fn lemma_count(entries: Seq<Entry>)
    requires
        ascending(entries),
    ensures
        table_of(entries).dom().finite(),
        table_of(entries).dom().len() == entries.len(),
    decreases entries.len(),
{
    if entries.len() == 0 {
        assert(table_of(entries).dom() =~= Set::<Seq<char>>::empty());
    } else {
        let last = entries.len() - 1;
        let rest = entries.remove(last);
        lemma_remove_entry(entries, last);
        lemma_count(rest);
        lemma_entry_found(entries, last);
        let id = entries[last].identifier@;
        assert(table_of(entries).dom() =~= table_of(rest).dom().insert(id));
    }
}

/// The name of the file that holds the definition of `identifier`.
pub open spec fn file_name_of(identifier: Seq<char>) -> Seq<char> {
    identifier + ".toml"@
}

/// The identifier whose definition a file of this name holds, if the
/// name is that of a definition.
pub open spec fn identifier_in(name: Seq<char>) -> Option<Seq<char>> {
    if name.len() > 5 && name.subrange(name.len() - 5, name.len() as int) == ".toml"@ {
        Some(name.subrange(0, name.len() - 5))
    } else {
        None
    }
}

/// The name of the file that holds the definition of `identifier`.
pub fn file_name(identifier: &str) -> (r: String)
    ensures
        r@ == file_name_of(identifier@),
{
    let mut name = identifier.to_owned();
    name.append(".toml");
    name
}

/// The identifier whose definition a file of this name holds.
pub fn identifier_of_file(name: &str) -> (r: Option<String>)
    ensures
        match identifier_in(name@) {
            Some(identifier) => r matches Some(found) && found@ == identifier,
            None => r is None,
        },
{
    let n = name.unicode_len();
    if n <= 5 {
        return None;
    }
    if same_text(name.substring_char(n - 5, n), ".toml") {
        Some(name.substring_char(0, n - 5).to_owned())
    } else {
        None
    }
}

/// A definition is found again under the name of its file.
pub proof fn lemma_file_name_read_back(identifier: Seq<char>)
    requires
        identifier.len() > 0,
    ensures
        identifier_in(file_name_of(identifier)) == Some(identifier),
{
    reveal_strlit(".toml");
    let name = file_name_of(identifier);
    assert(name.subrange(name.len() - 5, name.len() as int) =~= ".toml"@);
    assert(name.subrange(0, name.len() - 5) =~= identifier);
}

} // verus!
