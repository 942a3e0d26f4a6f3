//! Places in the file system: a base directory and the names below it.

use vstd::prelude::*;

verus! {

/// A place below a base directory.
#[derive(Debug, PartialEq, Eq)]
pub struct DataPath {
    /// The base directory as the system writes it.
    pub base: String,
    /// The names that lead from the base to the place, one for each level.
    pub names: Vec<String>,
}

/// A place with its texts as sequences of characters.
#[verifier::ext_equal]
pub struct DataPathView {
    pub base: Seq<char>,
    pub names: Seq<Seq<char>>,
}

/// The views of texts.
pub open spec fn texts(strings: Seq<String>) -> Seq<Seq<char>> {
    Seq::new(strings.len(), |i: int| strings[i]@)
}

impl View for DataPath {
    type V = DataPathView;

    open spec fn view(&self) -> DataPathView {
        DataPathView { base: self.base@, names: texts(self.names@) }
    }
}

impl DataPathView {
    /// The place of the given name directly below this one.
    pub open spec fn join(self, name: Seq<char>) -> DataPathView {
        DataPathView { base: self.base, names: self.names.push(name) }
    }

    /// Whether this place is `directory` or lies below it.
    pub open spec fn within(self, directory: DataPathView) -> bool {
        &&& self.base == directory.base
        &&& self.names.len() >= directory.names.len()
        &&& self.names.take(directory.names.len() as int) == directory.names
    }

    /// The place whose written form is this one's with `suffix` behind it.
    pub open spec fn with_suffix(self, suffix: Seq<char>) -> DataPathView {
        if self.names.len() == 0 {
            DataPathView { base: self.base + suffix, names: self.names }
        } else {
            DataPathView { base: self.base, names: self.names.drop_last().push(self.names.last() + suffix) }
        }
    }
}

/// Copies of texts.
pub fn copy_texts(strings: &Vec<String>) -> (r: Vec<String>)
    ensures
        texts(r@) == texts(strings@),
{
    let mut r: Vec<String> = Vec::new();
    let mut i: usize = 0;
    while i < strings.len()
        invariant
            i <= strings@.len(),
            r@.len() == i,
            forall|j: int| 0 <= j < i ==> (#[trigger] r@[j])@ == strings@[j]@,
        decreases strings@.len() - i,
    {
        r.push(strings[i].clone());
        i = i + 1;
    }
    assert(texts(r@) =~= texts(strings@));
    r
}

impl Clone for DataPath {
    fn clone(&self) -> (r: DataPath)
        ensures
            r@ == self@,
    {
        DataPath { base: self.base.clone(), names: copy_texts(&self.names) }
    }
}

impl DataPath {
    /// The base directory itself.
    pub fn root(base: &str) -> (r: DataPath)
        ensures
            r@ == (DataPathView { base: base@, names: Seq::empty() }),
    {
        let r: DataPath = DataPath { base: base.to_owned(), names: Vec::new() };
        assert(r@.names =~= Seq::empty());
        r
    }

    /// The place of the given name directly below this one.
    pub fn join(&self, name: &str) -> (r: DataPath)
        ensures
            r@ == self@.join(name@),
    {
        let mut names: Vec<String> = copy_texts(&self.names);
        names.push(name.to_owned());
        assert(texts(names@) =~= texts(self.names@).push(name@));
        DataPath { base: self.base.clone(), names }
    }
}

/// The place whose written form is that of `path` with `suffix` behind it.
pub fn append_suffix(path: &DataPath, suffix: &str) -> (r: DataPath)
    ensures
        r@ == path@.with_suffix(suffix@),
{
    let mut names: Vec<String> = copy_texts(&path.names);
    match names.pop() {
        Some(last) => {
            let mut longer: String = last;
            longer.append(suffix);
            names.push(longer);
            assert(texts(names@) =~= path@.with_suffix(suffix@).names);
            DataPath { base: path.base.clone(), names }
        },
        None => {
            let mut base: String = path.base.clone();
            base.append(suffix);
            assert(texts(names@) =~= path@.names);
            DataPath { base, names }
        },
    }
}

/// A suffix goes behind the name of a place and leaves it where it is; a name goes below a place.
pub proof fn suffix_stays_in_the_directory(place: DataPathView, name: Seq<char>, suffix: Seq<char>)
    ensures
        place.join(name).with_suffix(suffix) == place.join(name + suffix),
        place.join(name).within(place),
        place.join(name).names.len() == place.names.len() + 1,
        place.join(name).names.last() == name,
{
    assert(place.join(name).names.drop_last() =~= place.names);
    assert(place.join(name).names.take(place.names.len() as int) =~= place.names);
}

} // verus!
