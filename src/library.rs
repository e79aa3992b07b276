//! Resource bundles: named groups of files that share a base path.
use vstd::prelude::*;
use crate::singer::Language;
use crate::utterance::{FileDescriptor, Utterance, file_normalized};

verus! {

/// A named, UUID-identified group of files.
#[derive(Debug, Clone, Default)]
pub struct Library {
    pub name: String,
    /// The bundle's UUID as a 128-bit value.
    pub uuid: u128,
    pub base_path: String,
    pub language: Option<Language>,
    pub is_default: bool,
    pub files: Vec<FileDescriptor>,
}

/// The segments of all files, in file order and then segment order.
pub open spec fn all_labels(files: Seq<FileDescriptor>) -> Seq<Utterance>
    decreases files.len(),
{
    if files.len() == 0 {
        Seq::empty()
    } else {
        all_labels(files.drop_last()) + files.last().labels@
    }
}

impl Library {
    /// Every file is well formed.
    pub open spec fn wf(&self) -> bool {
        forall|k: int| 0 <= k < self.files@.len() ==> (#[trigger] self.files@[k]).wf()
    }
}

/// The same bundle, each file normalized against `base_dir`.
pub open spec fn library_normalized(old: Library, new: Library, base_dir: Seq<char>) -> bool {
    &&& new.name == old.name
    &&& new.uuid == old.uuid
    &&& new.base_path == old.base_path
    &&& new.language == old.language
    &&& new.is_default == old.is_default
    &&& new.files@.len() == old.files@.len()
    &&& forall|k: int|
        0 <= k < new.files@.len() ==> file_normalized(old.files@[k], #[trigger] new.files@[k], base_dir)
}

impl Library {
    /// Every segment of the bundle, in file order and then segment order.
    pub fn iter_labels(&self) -> (r: Vec<&Utterance>)
        ensures
            r@.map_values(|u: &Utterance| *u) == all_labels(self.files@),
    {
        let mut out: Vec<&Utterance> = Vec::new();
        let mut i: usize = 0;
        while i < self.files.len()
            invariant
                i <= self.files@.len(),
                out@.map_values(|u: &Utterance| *u) == all_labels(self.files@.subrange(0, i as int)),
            decreases self.files@.len() - i,
        {
            let file = &self.files[i];
            let mut j: usize = 0;
            while j < file.labels.len()
                invariant
                    i < self.files@.len(),
                    *file == self.files@[i as int],
                    j <= file.labels@.len(),
                    out@.map_values(|u: &Utterance| *u) == all_labels(
                        self.files@.subrange(0, i as int),
                    ) + file.labels@.subrange(0, j as int),
                decreases file.labels@.len() - j,
            {
                let ghost before = out@;
                out.push(&file.labels[j]);
                assert(out@.map_values(|u: &Utterance| *u) =~= before.map_values(
                    |u: &Utterance| *u,
                ).push(file.labels@[j as int]));
                assert(file.labels@.subrange(0, j + 1) =~= file.labels@.subrange(0, j as int).push(
                    file.labels@[j as int],
                ));
                j = j + 1;
            }
            assert(self.files@.subrange(0, i + 1).drop_last() =~= self.files@.subrange(0, i as int));
            assert(file.labels@.subrange(0, j as int) =~= file.labels@);
            i = i + 1;
        }
        assert(self.files@.subrange(0, i as int) =~= self.files@);
        out
    }

    /// Takes the last file out of the bundle.
    pub fn next(&mut self) -> (r: Option<FileDescriptor>)
        ensures
            old(self).files@.len() == 0 ==> r is None && final(self).files@ == old(self).files@,
            old(self).files@.len() > 0 ==> r == Some(old(self).files@.last())
                && final(self).files@ == old(self).files@.drop_last(),
            final(self).name == old(self).name,
            final(self).uuid == old(self).uuid,
            final(self).base_path == old(self).base_path,
            final(self).language == old(self).language,
            final(self).is_default == old(self).is_default,
    {
        self.files.pop()
    }

    /// Normalizes every file of the bundle against the package's directory.
    pub fn normalize(&mut self, base_dir: &str)
        ensures
            library_normalized(*old(self), *final(self), base_dir@),
            old(self).wf() ==> final(self).wf(),
    {
        let n = self.files.len();
        let mut i: usize = 0;
        while i < n
            invariant
                i <= n,
                self.files@.len() == n,
                old(self).files@.len() == n,
                self.name == old(self).name,
                self.uuid == old(self).uuid,
                self.base_path == old(self).base_path,
                self.language == old(self).language,
                self.is_default == old(self).is_default,
                forall|k: int|
                    0 <= k < i ==> file_normalized(old(self).files@[k], #[trigger] self.files@[k], base_dir@),
                forall|k: int| i <= k < n ==> #[trigger] self.files@[k] == old(self).files@[k],
            decreases n - i,
        {
            self.files[i].normalize(base_dir);
            i = i + 1;
        }
    }
}

} // verus!
