//! Decisions of the ingestion pipeline: building the segments of one file
//! from an annotation, keeping the segments whose pitch was found, and
//! gathering the files that workers report into a package.
use vstd::prelude::*;
use crate::encode::{PhonemeEncoder, is_silence_token, same_text};
use crate::ipa::{FromIPA, singer_converted};
use crate::library::Library;
use crate::singer::Singer;
use crate::time::Timestamp;
use crate::utterance::{FileDescriptor, Utterance, midpoint_law};

verus! {

/// The phoneme notation of a source dataset.
#[derive(Debug, Clone, Copy, PartialEq, Eq, Structural, Default)]
pub enum SourcePhoneset {
    Arpabet,
    IPA,
    XSampa,
    #[default]
    Unset,
}

/// The kind of annotation that comes with each audio file.
#[derive(Debug, Clone, Copy, PartialEq, Eq, Structural, Default)]
pub enum SourceDataType {
    TextGrid,
    OtoIni,
    Label,
    #[default]
    Empty,
}

/// What a unit of work does with an audio file of a given data type.
#[derive(Debug, Clone, Copy, PartialEq, Eq, Structural)]
pub enum UnitPlan {
    /// Read the file's TextGrid annotation.
    ParseTextGrid,
    /// No annotation is needed: the file is kept with no segments.
    NoAnnotation,
    /// An annotation is needed but not supported: the unit fails.
    Unsupported,
}

pub open spec fn plan_of(d: SourceDataType) -> UnitPlan {
    match d {
        SourceDataType::TextGrid => UnitPlan::ParseTextGrid,
        SourceDataType::OtoIni => UnitPlan::Unsupported,
        SourceDataType::Label => UnitPlan::Unsupported,
        SourceDataType::Empty => UnitPlan::NoAnnotation,
    }
}

pub open spec fn phoneset_name(p: SourcePhoneset) -> Seq<char> {
    match p {
        SourcePhoneset::Arpabet => "arpabet"@,
        SourcePhoneset::IPA => "ipa"@,
        SourcePhoneset::XSampa => "xsampa"@,
        SourcePhoneset::Unset => "none"@,
    }
}

pub open spec fn data_type_name(d: SourceDataType) -> Seq<char> {
    match d {
        SourceDataType::TextGrid => "textgrid"@,
        SourceDataType::OtoIni => "otoini"@,
        SourceDataType::Label => "label"@,
        SourceDataType::Empty => "empty"@,
    }
}

impl SourcePhoneset {
    pub fn to_string(&self) -> (r: String)
        ensures
            r@ == phoneset_name(*self),
    {
        match self {
            SourcePhoneset::Arpabet => String::from_str("arpabet"),
            SourcePhoneset::IPA => String::from_str("ipa"),
            SourcePhoneset::XSampa => String::from_str("xsampa"),
            SourcePhoneset::Unset => String::from_str("none"),
        }
    }

    /// The notation of a name that `to_string` gives.
    pub fn from_string(s: &str) -> (r: SourcePhoneset)
        requires
            exists|p: SourcePhoneset| phoneset_name(p) == s@,
        ensures
            phoneset_name(r) == s@,
    {
        if same_text(s, "arpabet") {
            SourcePhoneset::Arpabet
        } else if same_text(s, "ipa") {
            SourcePhoneset::IPA
        } else if same_text(s, "xsampa") {
            SourcePhoneset::XSampa
        } else {
            SourcePhoneset::Unset
        }
    }
}

impl SourceDataType {
    /// The work that a unit does for a file of this data type.
    pub fn unit_plan(&self) -> (r: UnitPlan)
        ensures
            r == plan_of(*self),
    {
        match self {
            SourceDataType::TextGrid => UnitPlan::ParseTextGrid,
            SourceDataType::OtoIni => UnitPlan::Unsupported,
            SourceDataType::Label => UnitPlan::Unsupported,
            SourceDataType::Empty => UnitPlan::NoAnnotation,
        }
    }

    pub fn to_string(&self) -> (r: String)
        ensures
            r@ == data_type_name(*self),
    {
        match self {
            SourceDataType::TextGrid => String::from_str("textgrid"),
            SourceDataType::OtoIni => String::from_str("otoini"),
            SourceDataType::Label => String::from_str("label"),
            SourceDataType::Empty => String::from_str("empty"),
        }
    }

    /// The data type of a name that `to_string` gives.
    pub fn from_string(s: &str) -> (r: SourceDataType)
        requires
            exists|d: SourceDataType| data_type_name(d) == s@,
        ensures
            data_type_name(r) == s@,
    {
        if same_text(s, "textgrid") {
            SourceDataType::TextGrid
        } else if same_text(s, "otoini") {
            SourceDataType::OtoIni
        } else if same_text(s, "label") {
            SourceDataType::Label
        } else {
            SourceDataType::Empty
        }
    }
}

/// The generator's settings.
#[derive(Debug, Clone)]
pub struct GeneratorConfig {
    pub language: String,
    pub name: String,
    pub phoneset: SourcePhoneset,
    pub data_type: SourceDataType,
    /// Directory of the dataset's audio files.
    pub path: String,
}

/// The label that an annotation's placeholder stands for: `SP` is silence,
/// `AP` breath, and `r0`, `d0` are plain `r`, `d`.
pub open spec fn canonical_label_spec(s: Seq<char>) -> Seq<char> {
    if s == "SP"@ {
        "sil"@
    } else if s == "AP"@ {
        "br"@
    } else if s == "r0"@ {
        "r"@
    } else if s == "d0"@ {
        "d"@
    } else {
        s
    }
}

/// Neighbour of interval `i` at offset `d`, silence past either end.
pub open spec fn neighbour(intervals: Seq<(Timestamp, Timestamp, String)>, i: int, d: int) -> Seq<
    char,
> {
    if 0 <= i + d < intervals.len() {
        intervals[i + d].2@
    } else {
        "sil"@
    }
}

/// The segments built from the intervals of one annotation.
pub open spec fn segments_of(intervals: Seq<(Timestamp, Timestamp, String)>, r: Seq<Utterance>) -> bool {
    &&& r.len() == intervals.len()
    &&& forall|i: int|
        #![trigger r[i]]
        0 <= i < r.len() ==> {
            &&& r[i].prev@ == neighbour(intervals, i, -1)
            &&& r[i].curr@ == intervals[i].2@
            &&& r[i].next@ == neighbour(intervals, i, 1)
            &&& r[i].start == intervals[i].0
            &&& r[i].end == intervals[i].1
            &&& midpoint_law(r[i].start, r[i].midpoint, r[i].end)
            &&& r[i].pitch is None
            &&& r[i].flags == 0
            &&& r[i].extras is None
            &&& r[i].areas is None
        }
}

/// Whether the pitch of segment `u` is to be estimated and kept.
pub open spec fn keeps_pitch(u: Utterance, estimate: Option<u8>) -> bool {
    !is_silence_token(u.curr@) && estimate is Some
}

/// The segments that keep a pitch, each with its estimate, in order.
pub open spec fn pitched(labels: Seq<Utterance>, estimates: Seq<Option<u8>>) -> Seq<Utterance>
    decreases labels.len(),
{
    if labels.len() == 0 {
        Seq::empty()
    } else {
        let rest = pitched(labels.drop_last(), estimates.subrange(0, labels.len() - 1));
        if keeps_pitch(labels.last(), estimates[labels.len() - 1]) {
            rest.push(Utterance { pitch: estimates[labels.len() - 1], ..labels.last() })
        } else {
            rest
        }
    }
}

/// The files that workers built, in the order they arrived.
pub open spec fn successes(results: Seq<Option<FileDescriptor>>) -> Seq<FileDescriptor>
    decreases results.len(),
{
    if results.len() == 0 {
        Seq::empty()
    } else if results.last() is Some {
        successes(results.drop_last()).push(results.last()->0)
    } else {
        successes(results.drop_last())
    }
}

/// The number of units that reported a failure.
pub open spec fn failures(results: Seq<Option<FileDescriptor>>) -> int
    decreases results.len(),
{
    if results.len() == 0 {
        0
    } else if results.last() is Some {
        failures(results.drop_last())
    } else {
        failures(results.drop_last()) + 1
    }
}

/// Every unit that does not fail adds exactly one file to the bundle: a
/// failed file is left out and the rest of the batch is kept.
pub proof fn lemma_partial_failure(results: Seq<Option<FileDescriptor>>)
    ensures
        successes(results).len() + failures(results) == results.len(),
        0 <= failures(results) <= results.len(),
    decreases results.len(),
{
    if results.len() > 0 {
        lemma_partial_failure(results.drop_last());
    }
}

/// The label that stands for an annotation's placeholder.
pub fn canonical_label(label: &str) -> (r: String)
    ensures
        r@ == canonical_label_spec(label@),
{
    if same_text(label, "SP") {
        String::from_str("sil")
    } else if same_text(label, "AP") {
        String::from_str("br")
    } else if same_text(label, "r0") {
        String::from_str("r")
    } else if same_text(label, "d0") {
        String::from_str("d")
    } else {
        String::from_str(label)
    }
}

/// The index of the first interval tier named `phones`, given each tier's
/// name and whether it holds intervals.
pub fn phones_tier_index(tiers: &Vec<(String, bool)>) -> (r: Option<usize>)
    ensures
        r is None ==> forall|k: int|
            0 <= k < tiers@.len() ==> !(#[trigger] tiers@[k].1 && tiers@[k].0@ == "phones"@),
        r is Some ==> {
            let i = r->0 as int;
            &&& 0 <= i < tiers@.len()
            &&& tiers@[i].1 && tiers@[i].0@ == "phones"@
            &&& forall|k: int| 0 <= k < i ==> !(#[trigger] tiers@[k].1 && tiers@[k].0@ == "phones"@)
        },
{
    let mut i: usize = 0;
    while i < tiers.len()
        invariant
            i <= tiers@.len(),
            forall|k: int| 0 <= k < i ==> !(#[trigger] tiers@[k].1 && tiers@[k].0@ == "phones"@),
        decreases tiers@.len() - i,
    {
        if tiers[i].1 && same_text(tiers[i].0.as_str(), "phones") {
            return Some(i);
        }
        i = i + 1;
    }
    None
}

/// One segment per interval, each with its neighbours' labels as context
/// (silence past either end) and its midpoint halfway between start and end.
pub fn segments_from_intervals(intervals: &Vec<(Timestamp, Timestamp, String)>) -> (r: Vec<
    Utterance,
>)
    requires
        forall|i: int|
            0 <= i < intervals@.len() ==> (#[trigger] intervals@[i]).0.value <= intervals@[i].1.value,
    ensures
        segments_of(intervals@, r@),
{
    let n = intervals.len();
    let mut out: Vec<Utterance> = Vec::new();
    let mut i: usize = 0;
    while i < n
        invariant
            n == intervals@.len(),
            i <= n,
            out@.len() == i,
            forall|i: int|
                0 <= i < intervals@.len() ==> (#[trigger] intervals@[i]).0.value
                    <= intervals@[i].1.value,
            forall|k: int|
                #![trigger out@[k]]
                0 <= k < i ==> {
                    &&& out@[k].prev@ == neighbour(intervals@, k, -1)
                    &&& out@[k].curr@ == intervals@[k].2@
                    &&& out@[k].next@ == neighbour(intervals@, k, 1)
                    &&& out@[k].start == intervals@[k].0
                    &&& out@[k].end == intervals@[k].1
                    &&& midpoint_law(out@[k].start, out@[k].midpoint, out@[k].end)
                    &&& out@[k].pitch is None
                    &&& out@[k].flags == 0
                    &&& out@[k].extras is None
                    &&& out@[k].areas is None
                },
        decreases n - i,
    {
        let prev = if i == 0 {
            String::from_str("sil")
        } else {
            intervals[i - 1].2.clone()
        };
        let next = if i + 1 < n {
            intervals[i + 1].2.clone()
        } else {
            String::from_str("sil")
        };
        let item = &intervals[i];
        let u = Utterance::new(prev, item.2.clone(), next, item.0, item.1);
        out.push(u);
        i = i + 1;
    }
    out
}

impl Utterance {
    /// Whether the pitch estimator is asked about this segment: every segment
    /// but silence.
    pub fn needs_pitch(&self) -> (r: bool)
        ensures
            r == !is_silence_token(self.curr@),
    {
        !PhonemeEncoder::is_silence(self.curr.as_str())
    }
}

/// Gives each non-silent segment the pitch estimated for it and keeps only
/// the segments that have one; `estimates[i]` is the note found for
/// `labels[i]`, none where the estimate was not finite.
pub fn keep_pitched(labels: Vec<Utterance>, estimates: &Vec<Option<u8>>) -> (r: Vec<Utterance>)
    requires
        labels@.len() == estimates@.len(),
    ensures
        r@ == pitched(labels@, estimates@),
{
    let ghost orig = labels@;
    let n = labels.len();
    let mut rest = labels;
    let mut kept: Vec<Utterance> = Vec::new();
    let mut i: usize = 0;
    while i < n
        invariant
            n == orig.len(),
            n == estimates@.len(),
            i <= n,
            rest@ == orig.subrange(i as int, n as int),
            kept@ == pitched(orig.subrange(0, i as int), estimates@.subrange(0, i as int)),
        decreases n - i,
    {
        let mut u = rest.remove(0);
        assert(orig.subrange(0, i + 1).drop_last() =~= orig.subrange(0, i as int));
        assert(estimates@.subrange(0, i + 1).subrange(0, i as int) =~= estimates@.subrange(0, i as int));
        assert(rest@ =~= orig.subrange(i + 1, n as int));
        if u.needs_pitch() && estimates[i].is_some() {
            u.pitch = estimates[i];
            kept.push(u);
        }
        i = i + 1;
    }
    assert(orig.subrange(0, n as int) =~= orig);
    assert(estimates@.subrange(0, n as int) =~= estimates@);
    kept
}

/// The default bundle of a generated package: named `Default`, marked
/// default, holding the files that workers built in the order they arrived.
pub fn assemble_library(results: Vec<Option<FileDescriptor>>) -> (r: Library)
    ensures
        r.name@ == "Default"@,
        r.is_default,
        r.uuid == 0,
        r.language is None,
        r.files@ == successes(results@),
{
    let ghost orig = results@;
    let n = results.len();
    let mut rest = results;
    let mut files: Vec<FileDescriptor> = Vec::new();
    let mut i: usize = 0;
    while i < n
        invariant
            n == orig.len(),
            i <= n,
            rest@ == orig.subrange(i as int, n as int),
            files@ == successes(orig.subrange(0, i as int)),
        decreases n - i,
    {
        let result = rest.remove(0);
        assert(orig.subrange(0, i + 1).drop_last() =~= orig.subrange(0, i as int));
        assert(rest@ =~= orig.subrange(i + 1, n as int));
        match result {
            Some(file) => files.push(file),
            None => {},
        }
        i = i + 1;
    }
    assert(orig.subrange(0, n as int) =~= orig);
    Library {
        name: String::from_str("Default"),
        uuid: 0,
        base_path: String::new(),
        language: None,
        is_default: true,
        files,
    }
}

impl GeneratorConfig {
    /// The package built at `creation_date` from the files that workers
    /// reported: one default bundle with every file that was built, in
    /// arrival order, its tokens converted from IPA when that is the source
    /// notation.
    pub fn assemble(&self, results: Vec<Option<FileDescriptor>>, creation_date: String) -> (r:
        Singer)
        ensures
            r.origin.creation_date == creation_date,
            r.meta.name@ == self.name@,
            r.origin.application@ == "OpenVBgen"@,
            r.libraries@.len() == 1,
            r.libraries@[0].name@ == "Default"@,
            r.libraries@[0].is_default,
            self.phoneset != SourcePhoneset::IPA ==> r.libraries@[0].files@ == successes(results@),
            self.phoneset == SourcePhoneset::IPA ==> exists|s: Singer|
                s.libraries@.len() == 1 && s.libraries@[0].files@ == successes(results@)
                    && #[trigger] singer_converted(s, r, true),
    {
        let mut singer = Singer::new(creation_date);
        singer.meta.name = self.name.clone();
        let library = assemble_library(results);
        singer.libraries.push(library);
        let ghost before = singer;
        if self.phoneset == SourcePhoneset::IPA {
            singer.from_ipa();
            assert(singer_converted(before, singer, true));
        }
        singer
    }
}

} // verus!
