//! The package: metadata, origin, languages and resource bundles.
use vstd::prelude::*;
use crate::library::{Library, library_normalized};
use crate::utterance::file_normalized;

verus! {

/// A package of singing-voice data.
#[derive(Debug, Clone, Default)]
pub struct Singer {
    pub meta: Meta,
    pub origin: Origin,
    pub language: Language,
    pub libraries: Vec<Library>,
    pub flag_fields: Option<Vec<String>>,
    pub extra_fields: Option<Vec<(String, String)>>,
}

#[derive(Debug, Clone, Default)]
pub struct Meta {
    pub name: String,
    /// The package's UUID as a 128-bit value.
    pub uuid: u128,
    pub icon: String,
}

#[derive(Debug, Clone, Default)]
pub struct Origin {
    pub author: Option<Author>,
    pub developer: Option<Author>,
    pub publisher: Option<Author>,
    pub application: String,
    pub creation_date: String,
}

#[derive(Debug, Clone, Default)]
pub struct Author {
    pub name: String,
    pub email: String,
    pub url: String,
}

#[derive(Debug, Clone, Default)]
pub struct Language {
    pub default: String,
    pub supported: Vec<String>,
}

/// The two stored forms of a package.
#[derive(Debug, Clone, Copy, PartialEq, Eq, Structural)]
pub enum PackageFormat {
    /// Pretty-printed structured text, chosen by `json`.
    Json,
    /// Compact binary, chosen by `bin`.
    Bin,
}

/// First index at or after `i` of a bundle marked default, or -1.
pub open spec fn first_default_from(libs: Seq<Library>, i: int) -> int
    decreases libs.len() - i,
{
    if i < 0 || i >= libs.len() {
        -1
    } else if libs[i].is_default {
        i
    } else {
        first_default_from(libs, i + 1)
    }
}

/// Index of the default bundle: the first marked default, else the first
/// bundle, else -1 when there is none.
pub open spec fn default_index(libs: Seq<Library>) -> int {
    if first_default_from(libs, 0) >= 0 {
        first_default_from(libs, 0)
    } else if libs.len() > 0 {
        0
    } else {
        -1
    }
}

impl Singer {
    /// Every bundle is well formed.
    pub open spec fn wf(&self) -> bool {
        forall|k: int| 0 <= k < self.libraries@.len() ==> (#[trigger] self.libraries@[k]).wf()
    }
}

/// The same package, each bundle normalized against `base_dir`.
pub open spec fn singer_normalized(old: Singer, new: Singer, base_dir: Seq<char>) -> bool {
    &&& new.meta == old.meta
    &&& new.origin == old.origin
    &&& new.language == old.language
    &&& new.flag_fields == old.flag_fields
    &&& new.extra_fields == old.extra_fields
    &&& new.libraries@.len() == old.libraries@.len()
    &&& forall|k: int|
        0 <= k < new.libraries@.len() ==> library_normalized(
            old.libraries@[k],
            #[trigger] new.libraries@[k],
            base_dir,
        )
}

/// After the normalization pass of a load, the segments of every file of
/// every bundle are in ascending order of start time.
pub proof fn lemma_loaded_segments_ordered(old: Singer, new: Singer, base_dir: Seq<char>)
    requires
        singer_normalized(old, new, base_dir),
    ensures
        forall|l: int, f: int, i: int|
            0 <= l < new.libraries@.len() && 0 <= f < new.libraries@[l].files@.len() && 0 <= i
                && i + 1 < new.libraries@[l].files@[f].labels@.len() ==> (
            #[trigger] new.libraries@[l].files@[f].labels@[i]).start.value
                <= new.libraries@[l].files@[f].labels@[i + 1].start.value,
{
    assert forall|l: int, f: int, i: int|
        0 <= l < new.libraries@.len() && 0 <= f < new.libraries@[l].files@.len() && 0 <= i && i + 1
            < new.libraries@[l].files@[f].labels@.len() implies (
    #[trigger] new.libraries@[l].files@[f].labels@[i]).start.value
        <= new.libraries@[l].files@[f].labels@[i + 1].start.value by {
        assert(library_normalized(old.libraries@[l], new.libraries@[l], base_dir));
        assert(file_normalized(old.libraries@[l].files@[f], new.libraries@[l].files@[f], base_dir));
    }
}

impl Origin {
    /// The origin of a package made by the generator at `creation_date`
    /// (the current time as RFC 3339 text, read by the caller).
    pub fn now(creation_date: String) -> (r: Origin)
        ensures
            r.application@ == "OpenVBgen"@,
            r.author is None,
            r.developer is None,
            r.publisher is None,
            r.creation_date == creation_date,
    {
        Origin {
            author: None,
            developer: None,
            publisher: None,
            application: String::from_str("OpenVBgen"),
            creation_date,
        }
    }
}

impl Singer {
    /// An empty package made by the generator at `creation_date`.
    pub fn new(creation_date: String) -> (r: Singer)
        ensures
            r.libraries@.len() == 0,
            r.meta.name@.len() == 0,
            r.meta.uuid == 0,
            r.origin.application@ == "OpenVBgen"@,
            r.origin.creation_date == creation_date,
            r.language.default@.len() == 0,
            r.language.supported@.len() == 0,
            r.flag_fields is None,
            r.extra_fields is None,
    {
        Singer {
            meta: Meta { name: String::new(), uuid: 0, icon: String::new() },
            origin: Origin::now(creation_date),
            language: Language { default: String::new(), supported: Vec::new() },
            libraries: Vec::new(),
            flag_fields: None,
            extra_fields: None,
        }
    }

    /// The bundle marked default, else the first bundle, else none.
    pub fn get_default(&self) -> (r: Option<&Library>)
        ensures
            r is None <==> self.libraries@.len() == 0,
            r is Some ==> *r->0 == self.libraries@[default_index(self.libraries@)],
    {
        let n = self.libraries.len();
        let mut i: usize = 0;
        while i < n
            invariant
                n == self.libraries@.len(),
                i <= n,
                first_default_from(self.libraries@, 0) == first_default_from(
                    self.libraries@,
                    i as int,
                ),
            decreases n - i,
        {
            if self.libraries[i].is_default {
                return Some(&self.libraries[i]);
            }
            i = i + 1;
        }
        if n > 0 {
            Some(&self.libraries[0])
        } else {
            None
        }
    }

    /// The pass run after loading: in every file, each segment gets the
    /// audio path of its file under `base_dir`, and the segments are ordered
    /// by start time.
    pub fn normalize(&mut self, base_dir: &str)
        ensures
            singer_normalized(*old(self), *final(self), base_dir@),
            old(self).wf() ==> final(self).wf(),
    {
        let n = self.libraries.len();
        let mut i: usize = 0;
        while i < n
            invariant
                i <= n,
                self.libraries@.len() == n,
                old(self).libraries@.len() == n,
                self.meta == old(self).meta,
                self.origin == old(self).origin,
                self.language == old(self).language,
                self.flag_fields == old(self).flag_fields,
                self.extra_fields == old(self).extra_fields,
                forall|k: int|
                    0 <= k < i ==> library_normalized(
                        old(self).libraries@[k],
                        #[trigger] self.libraries@[k],
                        base_dir@,
                    ),
                old(self).wf() ==> forall|k: int| 0 <= k < i ==> (#[trigger] self.libraries@[k]).wf(),
                forall|k: int| i <= k < n ==> #[trigger] self.libraries@[k] == old(self).libraries@[k],
            decreases n - i,
        {
            self.libraries[i].normalize(base_dir);
            i = i + 1;
        }
    }
}

impl PackageFormat {
    /// The form that a file extension selects: `json` or `bin`, and no other.
    pub fn from_extension(ext: &str) -> (r: Option<PackageFormat>)
        ensures
            r == Some(PackageFormat::Json) <==> ext@ == "json"@,
            r == Some(PackageFormat::Bin) <==> ext@ == "bin"@,
            r is None <==> (ext@ != "json"@ && ext@ != "bin"@),
    {
        proof {
            reveal_strlit("json");
            reveal_strlit("bin");
            assert("json"@.len() != "bin"@.len());
        }
        if crate::encode::same_text(ext, "json") {
            Some(PackageFormat::Json)
        } else if crate::encode::same_text(ext, "bin") {
            Some(PackageFormat::Bin)
        } else {
            None
        }
    }
}

} // verus!
