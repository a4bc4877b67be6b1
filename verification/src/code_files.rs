//! The files of a job: contents by name, and the name of the entry file.

use vstd::prelude::*;
use crate::text::chars::text_eq;

verus! {

/// What the files of a job are: a map from the name of a file to its
/// content, and the name of the entry file, which may or may not be one of
/// them.
pub struct CodeBundle {
    pub files: Map<Seq<char>, Seq<char>>,
    pub entrypoint: Seq<char>,
}

/// The files of a job. No name occurs twice.
#[derive(Debug)]
pub struct CodeFiles {
    files: Vec<(String, String)>,
    entrypoint: String,
}

/// No two of `entries` have the same name.
pub open spec fn distinct_names(entries: Seq<(String, String)>) -> bool {
    forall|i: int, j: int|
        #![trigger entries[i], entries[j]]
        0 <= i < j < entries.len() ==> entries[i].0@ != entries[j].0@
}

/// One of `entries` has the name `name`.
pub open spec fn has_name(entries: Seq<(String, String)>, name: Seq<char>) -> bool {
    exists|i: int| 0 <= i < entries.len() && #[trigger] entries[i].0@ == name
}

/// The place among `entries` of one with the name `name`.
pub open spec fn place_of(entries: Seq<(String, String)>, name: Seq<char>) -> int {
    choose|i: int| 0 <= i < entries.len() && #[trigger] entries[i].0@ == name
}

/// The map from names to contents that `entries` stand for.
pub open spec fn file_map(entries: Seq<(String, String)>) -> Map<Seq<char>, Seq<char>> {
    Map::new(
        |name: Seq<char>| has_name(entries, name),
        |name: Seq<char>| entries[place_of(entries, name)].1@,
    )
}

/// Each entry is found in the map under its name, where no name is twice
/// among the entries.
pub proof fn lemma_file_map_entry(entries: Seq<(String, String)>, i: int)
    requires
        distinct_names(entries),
        0 <= i < entries.len(),
    ensures
        file_map(entries).contains_key(entries[i].0@),
        file_map(entries)[entries[i].0@] == entries[i].1@,
{
    let name = entries[i].0@;
    assert(has_name(entries, name));
    let p = place_of(entries, name);
    assert(entries[p].0@ == name);
    if p < i {
        assert(entries[p].0@ != entries[i].0@);
    } else if i < p {
        assert(entries[i].0@ != entries[p].0@);
    }
}

impl View for CodeFiles {
    type V = CodeBundle;

    closed spec fn view(&self) -> CodeBundle {
        CodeBundle { files: file_map(self.files@), entrypoint: self.entrypoint@ }
    }
}

impl CodeFiles {
    #[verifier::type_invariant]
    closed spec fn well_formed(self) -> bool {
        distinct_names(self.files@)
    }

    /// No files yet, and `entrypoint` as the name of the entry file.
    pub fn new(entrypoint: String) -> (r: Self)
        ensures
            r@.files == Map::<Seq<char>, Seq<char>>::empty(),
            r@.entrypoint == entrypoint@,
    {
        let r = CodeFiles { files: Vec::new(), entrypoint };
        assert(r@.files =~= Map::<Seq<char>, Seq<char>>::empty());
        r
    }

    /// The name of the entry file.
    pub fn entrypoint(&self) -> (r: &String)
        ensures
            r@ == self@.entrypoint,
    {
        &self.entrypoint
    }

    /// The place of the file `name`, if there is one.
    fn find(&self, name: &str) -> (r: Option<usize>)
        ensures
            match r {
                Some(i) => i < self.files@.len() && self.files@[i as int].0@ == name@,
                None => !has_name(self.files@, name@),
            },
    {
        let mut i: usize = 0;
        while i < self.files.len()
            invariant
                i <= self.files.len(),
                forall|k: int| 0 <= k < i ==> self.files@[k].0@ != name@,
            decreases self.files.len() - i,
        {
            if text_eq(self.files[i].0.as_str(), name) {
                return Some(i);
            }
            i += 1;
        }
        None
    }

    /// The content of the file `name`, if there is one.
    pub fn get(&self, name: &str) -> (r: Option<&String>)
        ensures
            match r {
                Some(content) => self@.files.contains_key(name@) && content@
                    == self@.files[name@],
                None => !self@.files.contains_key(name@),
            },
    {
        proof {
            use_type_invariant(self);
        }
        match self.find(name) {
            Some(i) => {
                proof {
                    lemma_file_map_entry(self.files@, i as int);
                }
                Some(&self.files[i].1)
            },
            None => None,
        }
    }

    /// Whether there is a file `name`.
    pub fn contains(&self, name: &str) -> (r: bool)
        ensures
            r == self@.files.contains_key(name@),
    {
        self.get(name).is_some()
    }

    /// These files with the file `name` of the content `content` among
    /// them, in place of one of that name if there is one.
    pub fn with_file(self, name: String, content: String) -> (r: Self)
        ensures
            r@.files == self@.files.insert(name@, content@),
            r@.entrypoint == self@.entrypoint,
    {
        proof {
            use_type_invariant(&self);
        }
        let ghost before = self.files@;
        let ghost key = name@;
        let ghost value = content@;
        let found = self.find(name.as_str());
        let CodeFiles { files, entrypoint } = self;
        let mut files = files;
        match found {
            Some(i) => {
                files.set(i, (name, content));
                let ghost after = files@;
                assert(distinct_names(after)) by {
                    assert forall|a: int, b: int| 0 <= a < b < after.len() implies after[a].0@
                        != after[b].0@ by {
                        assert(before[a].0@ != before[b].0@);
                    }
                }
                assert(file_map(after) =~= file_map(before).insert(key, value)) by {
                    assert forall|n: Seq<char>| has_name(after, n) == (has_name(before, n) || n
                        == key) by {
                        if has_name(after, n) {
                            let p = place_of(after, n);
                            assert(before[p].0@ == n);
                        }
                        if has_name(before, n) {
                            let p = place_of(before, n);
                            assert(after[p].0@ == n);
                        }
                        if n == key {
                            assert(after[i as int].0@ == n);
                        }
                    }
                    assert forall|n: Seq<char>| has_name(after, n) implies file_map(after)[n] == (
                    if n == key {
                        value
                    } else {
                        file_map(before)[n]
                    }) by {
                        let p = place_of(after, n);
                        lemma_file_map_entry(after, p);
                        if n != key {
                            assert(before[p].0@ == n);
                            lemma_file_map_entry(before, p);
                        } else {
                            lemma_file_map_entry(after, i as int);
                        }
                    }
                }
            },
            None => {
                files.push((name, content));
                let ghost after = files@;
                assert(distinct_names(after)) by {
                    assert forall|a: int, b: int| 0 <= a < b < after.len() implies after[a].0@
                        != after[b].0@ by {
                        if b < before.len() {
                            assert(before[a].0@ != before[b].0@);
                        } else {
                            assert(before[a].0@ == after[a].0@);
                        }
                    }
                }
                assert(file_map(after) =~= file_map(before).insert(key, value)) by {
                    assert forall|n: Seq<char>| has_name(after, n) == (has_name(before, n) || n
                        == key) by {
                        if has_name(after, n) {
                            let p = place_of(after, n);
                            if p < before.len() {
                                assert(before[p].0@ == n);
                            }
                        }
                        if has_name(before, n) {
                            let p = place_of(before, n);
                            assert(after[p].0@ == n);
                        }
                        if n == key {
                            assert(after[before.len() as int].0@ == n);
                        }
                    }
                    assert forall|n: Seq<char>| has_name(after, n) implies file_map(after)[n] == (
                    if n == key {
                        value
                    } else {
                        file_map(before)[n]
                    }) by {
                        let p = place_of(after, n);
                        lemma_file_map_entry(after, p);
                        if n != key {
                            assert(before[p].0@ == n);
                            lemma_file_map_entry(before, p);
                        } else {
                            lemma_file_map_entry(after, before.len() as int);
                        }
                    }
                }
            },
        }
        CodeFiles { files, entrypoint }
    }

    /// A copy of these files.
    pub fn copy(&self) -> (r: Self)
        ensures
            r@ == self@,
    {
        proof {
            use_type_invariant(self);
        }
        let mut files: Vec<(String, String)> = Vec::new();
        let mut i: usize = 0;
        while i < self.files.len()
            invariant
                i <= self.files.len(),
                files@ == self.files@.subrange(0, i as int),
            decreases self.files.len() - i,
        {
            files.push((self.files[i].0.clone(), self.files[i].1.clone()));
            i += 1;
        }
        assert(files@ == self.files@);
        CodeFiles { files, entrypoint: self.entrypoint.clone() }
    }

    /// The files as pairs of a name and a content, each file once.
    pub fn entries(&self) -> (r: &Vec<(String, String)>)
        ensures
            distinct_names(r@),
            file_map(r@) == self@.files,
    {
        proof {
            use_type_invariant(self);
        }
        &self.files
    }
}

} // verus!
