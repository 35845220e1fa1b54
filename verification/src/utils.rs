//! Small helpers shared by the components.

use vstd::prelude::*;
use vstd::string::StringExecFns;

verus! {

/// A value together with the directory that its relative paths are read against.
#[derive(Debug)]
pub struct WithDir<T> {
    dir: String,
    value: T,
}

impl<T> WithDir<T> {
    /// The directory, as a sequence of characters.
    pub closed spec fn spec_dir(&self) -> Seq<char> {
        self.dir@
    }

    /// The value that was stored.
    pub closed spec fn spec_value(&self) -> T {
        self.value
    }

    /// Pairs `value` with the directory `dir`.
    pub fn new(dir: String, value: T) -> (with_dir: Self)
        ensures
            with_dir.spec_dir() == dir@,
            with_dir.spec_value() == value,
    {
        WithDir { dir, value }
    }

    /// The directory.
    pub fn dir(&self) -> (dir: &String)
        ensures
            dir@ == self.spec_dir(),
    {
        &self.dir
    }

    /// The value.
    pub fn value(&self) -> (value: &T)
        ensures
            *value == self.spec_value(),
    {
        &self.value
    }

    /// Pairs what `f` makes of the value with the same directory.
    pub fn map_ref<U, F: FnOnce(&T) -> U>(&self, f: F) -> (mapped: WithDir<U>)
        requires
            call_requires(f, (&self.spec_value(),)),
        ensures
            mapped.spec_dir() == self.spec_dir(),
            call_ensures(f, (&self.spec_value(),), mapped.spec_value()),
    {
        WithDir { dir: self.dir.clone(), value: f(&self.value) }
    }
}

/// A file could not be read.
#[derive(Debug)]
pub struct ReadFileError {
    /// The path of the file.
    pub path: String,
    /// What the operating system said.
    pub reason: String,
}

/// The text `head` followed by `tail`.
pub fn concat(head: &str, tail: &str) -> (text: String)
    ensures
        text@ == head@ + tail@,
{
    let mut text = head.to_owned();
    text.append(tail);
    text
}

} // verus!
