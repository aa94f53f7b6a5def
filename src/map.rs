//! The table of named parts of one request.
use vstd::prelude::*;

use crate::part::{FromMultiPartPart, ValueNotFoundError};

verus! {

/// Error that can occur when getting a value out of a [`MultiPartMap`].
#[derive(Debug)]
pub enum MultiPartMapError<E> {
    /// The part named by the first field could not be converted.
    DecodeError(String, E),
    /// No part has the name, and the target type has no fallback.
    NotFound(ValueNotFoundError),
}

impl<E> MultiPartMapError<E> {
    /// The HTTP status that this error is answered with: every failure here comes from the
    /// client's input.
    pub fn status(&self) -> (r: u16)
        ensures
            r == 400,
    {
        400
    }
}

/// The table that a list of parts builds: each named part is inserted in turn, so a later
/// part replaces an earlier one of the same name, and unnamed parts are left out.
pub open spec fn parts_table(parts: Seq<(Option<String>, Vec<u8>)>) -> Map<Seq<char>, Seq<u8>>
    decreases parts.len(),
{
    if parts.len() == 0 {
        Map::empty()
    } else {
        let rest = parts_table(parts.drop_last());
        match parts.last().0 {
            Some(name) => rest.insert(name@, parts.last().1@),
            None => rest,
        }
    }
}

/// What asking a table for the part named `key`, as a value of `S`, gives: the conversion of
/// the part's bytes where there is such a part, else the absent-value policy of `S`.
pub open spec fn get_outcome<'a, S: FromMultiPartPart<'a>>(
    table: Map<Seq<char>, Seq<u8>>,
    key: Seq<char>,
    r: Result<S, MultiPartMapError<S::PartError>>,
) -> bool {
    if table.contains_key(key) {
        match r {
            Ok(v) => S::converts(table[key], Ok(v)),
            Err(MultiPartMapError::DecodeError(name, e)) => name@ == key && S::converts(
                table[key],
                Err(e),
            ),
            Err(MultiPartMapError::NotFound(_)) => false,
        }
    } else {
        match S::absent_value() {
            None => r matches Err(MultiPartMapError::NotFound(e)) && e.0@ == key,
            Some(v) => r == Ok::<S, MultiPartMapError<S::PartError>>(v),
        }
    }
}

/// Asking for a name that no part carries fails with a not-found error naming it, for every
/// type that has no fallback for an absent part.
pub proof fn absent_field_not_found<'a, S: FromMultiPartPart<'a>>(
    table: Map<Seq<char>, Seq<u8>>,
    key: Seq<char>,
    r: Result<S, MultiPartMapError<S::PartError>>,
)
    requires
        !table.contains_key(key),
        S::absent_value() is None,
        get_outcome::<S>(table, key, r),
    ensures
        r matches Err(MultiPartMapError::NotFound(e)) && e.0@ == key,
{
}

/// Asking for a name that no part carries, as an optional value, succeeds with `None`.
pub proof fn absent_field_optional<'a, T: FromMultiPartPart<'a>>(
    table: Map<Seq<char>, Seq<u8>>,
    key: Seq<char>,
    r: Result<Option<T>, MultiPartMapError<T::PartError>>,
)
    requires
        !table.contains_key(key),
        get_outcome::<Option<T>>(table, key, r),
    ensures
        r == Ok::<Option<T>, MultiPartMapError<T::PartError>>(None),
{
}

/// When two parts share a name, the later one gives the value in the table, and so in the
/// map that `MultiPartMap::from_parts` builds from those parts.
pub proof fn later_part_wins(parts: Seq<(Option<String>, Vec<u8>)>, i: int, j: int, key: Seq<char>)
    requires
        0 <= i < j < parts.len(),
        parts[i].0 matches Some(name) && name@ == key,
        parts[j].0 matches Some(name) && name@ == key,
        forall|k: int| j < k < parts.len() ==> !((#[trigger] parts[k]).0 matches Some(name) && name@ == key),
    ensures
        parts_table(parts).contains_key(key),
        parts_table(parts)[key] == parts[j].1@,
    decreases parts.len(),
{
    if j < parts.len() - 1 {
        later_part_wins(parts.drop_last(), i, j, key);
    }
}

/// A part without a name leaves no trace: the table, and so the map that
/// `MultiPartMap::from_parts` builds, is the same without it.
pub proof fn unnamed_part_ignored(parts: Seq<(Option<String>, Vec<u8>)>, i: int)
    requires
        0 <= i < parts.len(),
        parts[i].0 is None,
    ensures
        parts_table(parts.remove(i)) == parts_table(parts),
    decreases parts.len(),
{
    if i == parts.len() - 1 {
        assert(parts.remove(i) =~= parts.drop_last());
    } else {
        unnamed_part_ignored(parts.drop_last(), i);
        assert(parts.remove(i).drop_last() =~= parts.drop_last().remove(i));
        assert(parts.remove(i).last() == parts.last());
    }
}

/// A name is in the table (the domain of the map that `MultiPartMap::from_parts` builds)
/// exactly when some part carries it.
pub proof fn table_names(parts: Seq<(Option<String>, Vec<u8>)>, key: Seq<char>)
    ensures
        parts_table(parts).contains_key(key) <==> exists|i: int|
            0 <= i < parts.len() && ((#[trigger] parts[i]).0 matches Some(name) && name@ == key),
    decreases parts.len(),
{
    if parts.len() > 0 {
        let rest = parts.drop_last();
        table_names(rest, key);
        if parts_table(parts).contains_key(key) {
            if !(parts.last().0 matches Some(name) && name@ == key) {
                let i = choose|i: int|
                    0 <= i < rest.len() && ((#[trigger] rest[i]).0 matches Some(name) && name@ == key);
                assert(parts[i] == rest[i]);
            }
        } else {
            assert forall|i: int| 0 <= i < parts.len() implies !((#[trigger] parts[i]).0 matches Some(
                name,
            ) && name@ == key) by {
                if i < parts.len() - 1 {
                    assert(parts[i] == rest[i]);
                }
            }
        }
    }
}

/// The table that a list of stored entries describes, later entries overriding earlier ones.
spec fn entries_table(entries: Seq<(String, Vec<u8>)>) -> Map<Seq<char>, Seq<u8>>
    decreases entries.len(),
{
    if entries.len() == 0 {
        Map::empty()
    } else {
        entries_table(entries.drop_last()).insert(entries.last().0@, entries.last().1@)
    }
}

/// Distinct entries carry distinct names.
spec fn unique_names(entries: Seq<(String, Vec<u8>)>) -> bool {
    forall|i: int, j: int|
        0 <= i < j < entries.len() ==> (#[trigger] entries[i]).0@ != (#[trigger] entries[j]).0@
}

/// Replacing the value of the entry that carries a name replaces it in the table.
proof fn lemma_entries_update(entries: Seq<(String, Vec<u8>)>, i: int, e: (String, Vec<u8>))
    requires
        unique_names(entries),
        0 <= i < entries.len(),
        entries[i].0@ == e.0@,
    ensures
        entries_table(entries.update(i, e)) == entries_table(entries).insert(e.0@, e.1@),
    decreases entries.len(),
{
    let updated = entries.update(i, e);
    if i == entries.len() - 1 {
        assert(updated.drop_last() =~= entries.drop_last());
        assert(entries_table(updated) =~= entries_table(entries).insert(e.0@, e.1@));
    } else {
        lemma_entries_update(entries.drop_last(), i, e);
        assert(updated.drop_last() =~= entries.drop_last().update(i, e));
        assert(entries.last().0@ != e.0@);
        assert(entries_table(updated) =~= entries_table(entries).insert(e.0@, e.1@));
    }
}

/// A name that no entry carries is not in the table.
proof fn lemma_entries_absent(entries: Seq<(String, Vec<u8>)>, key: Seq<char>)
    requires
        forall|i: int| 0 <= i < entries.len() ==> (#[trigger] entries[i]).0@ != key,
    ensures
        !entries_table(entries).contains_key(key),
    decreases entries.len(),
{
    if entries.len() > 0 {
        lemma_entries_absent(entries.drop_last(), key);
    }
}

/// The last entry that carries a name gives its value in the table.
proof fn lemma_entries_last(entries: Seq<(String, Vec<u8>)>, key: Seq<char>, i: int)
    requires
        0 <= i < entries.len(),
        entries[i].0@ == key,
        forall|j: int| i < j < entries.len() ==> (#[trigger] entries[j]).0@ != key,
    ensures
        entries_table(entries).contains_key(key),
        entries_table(entries)[key] == entries[i].1@,
    decreases entries.len(),
{
    if i < entries.len() - 1 {
        lemma_entries_last(entries.drop_last(), key, i);
    }
}

/// A map containing the parts of a multipart request, by name. Each name is stored once,
/// with the value of the latest part that carried it. The entries are held in a `Vec`: std's
/// hash map states nothing provable about `String` keys, and a request has few parts.
#[derive(Debug)]
pub struct MultiPartMap {
    entries: Vec<(String, Vec<u8>)>,
}

impl View for MultiPartMap {
    type V = Map<Seq<char>, Seq<u8>>;

    closed spec fn view(&self) -> Map<Seq<char>, Seq<u8>> {
        entries_table(self.entries@)
    }
}

impl MultiPartMap {
    /// Each name is stored once.
    pub closed spec fn wf(&self) -> bool {
        unique_names(self.entries@)
    }

    /// A map without parts.
    pub fn new() -> (m: MultiPartMap)
        ensures
            m.wf(),
            m@ == Map::<Seq<char>, Seq<u8>>::empty(),
    {
        MultiPartMap { entries: Vec::new() }
    }

    /// Add one part. A part without a name is dropped; a named one replaces any earlier part
    /// of that name.
    pub fn insert_part(&mut self, name: Option<String>, value: Vec<u8>)
        requires
            old(self).wf(),
        ensures
            final(self).wf(),
            final(self)@ == match name {
                Some(n) => old(self)@.insert(n@, value@),
                None => old(self)@,
            },
    {
        match name {
            Some(n) => {
                let mut i: usize = 0;
                while i < self.entries.len()
                    invariant
                        i <= self.entries.len(),
                        self.entries@ == old(self).entries@,
                        name == Some(n),
                        unique_names(self.entries@),
                        forall|j: int| 0 <= j < i ==> (#[trigger] self.entries[j]).0@ != n@,
                    decreases self.entries.len() - i,
                {
                    if self.entries[i].0 == n {
                        proof {
                            lemma_entries_update(self.entries@, i as int, (n, value));
                        }
                        self.entries.set(i, (n, value));
                        proof {
                            assert(forall|k: int|
                                0 <= k < self.entries.len() ==> (#[trigger] self.entries[k]).0@
                                    == old(self).entries[k].0@);
                        }
                        return;
                    }
                    i += 1;
                }
                self.entries.push((n, value));
                proof {
                    assert(self.entries@.drop_last() =~= old(self).entries@);
                    assert(forall|k: int|
                        0 <= k < self.entries.len() - 1 ==> (#[trigger] self.entries[k]).0@
                            == old(self).entries[k].0@);
                }
            },
            None => {},
        }
    }

    /// Build the map from the parts of a request, in the order in which they came.
    pub fn from_parts(parts: Vec<(Option<String>, Vec<u8>)>) -> (m: MultiPartMap)
        ensures
            m.wf(),
            m@ == parts_table(parts@),
    {
        let mut m = MultiPartMap::new();
        let mut rest = parts;
        let ghost mut taken: Seq<(Option<String>, Vec<u8>)> = Seq::empty();
        // the parts are first turned around, so that popping yields them in their order
        let mut reversed: Vec<(Option<String>, Vec<u8>)> = Vec::new();
        while rest.len() > 0
            invariant
                rest@ + reversed@.reverse() == parts@,
            decreases rest.len(),
        {
            let p = rest.pop().unwrap();
            reversed.push(p);
            proof {
                assert(rest@ + reversed@.reverse() =~= parts@);
            }
        }
        while reversed.len() > 0
            invariant
                taken + reversed@.reverse() == parts@,
                m.wf(),
                m@ == parts_table(taken),
            decreases reversed.len(),
        {
            let (name, value) = reversed.pop().unwrap();
            proof {
                assert(taken.push((name, value)) + reversed@.reverse() =~= parts@);
                assert(taken.push((name, value)).drop_last() =~= taken);
                taken = taken.push((name, value));
            }
            m.insert_part(name, value);
        }
        proof {
            assert(taken =~= parts@);
        }
        m
    }
    /// Get the value of the part named `key` as an `S`. Fails where the part's bytes do not
    /// convert, or where there is no such part and `S` has no fallback for that.
    pub fn get<'a, S: FromMultiPartPart<'a>>(&'a self, key: &str) -> (r: Result<
        S,
        MultiPartMapError<S::PartError>,
    >)
        ensures
            get_outcome::<S>(self@, key@, r),
    {
        let name = key.to_owned();
        let mut i: usize = self.entries.len();
        while i > 0
            invariant
                i <= self.entries.len(),
                name@ == key@,
                forall|j: int| i <= j < self.entries.len() ==> (#[trigger] self.entries[j]).0@ != key@,
            decreases i,
        {
            if self.entries[i - 1].0 == name {
                proof {
                    lemma_entries_last(self.entries@, key@, i - 1);
                }
                return match S::from_bytes(self.entries[i - 1].1.as_slice()) {
                    Ok(v) => Ok(v),
                    Err(e) => Err(MultiPartMapError::DecodeError(name, e)),
                };
            }
            i -= 1;
        }
        proof {
            lemma_entries_absent(self.entries@, key@);
        }
        match S::handle_absent_value(key) {
            Ok(v) => Ok(v),
            Err(e) => Err(MultiPartMapError::NotFound(e)),
        }
    }
}

} // verus!
