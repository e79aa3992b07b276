//! Timed segments, the files that hold them, and the packed three-word form
//! of a segment.
use vstd::prelude::*;
use vstd::multiset::Multiset;
use vstd::string::StringExecFns;
use crate::encode::{
    PhonemeEncoder, PHONEME_COUNT, DIACRITIC_COUNT, encoded, decoded, is_valid_code, is_table_token,
    lemma_table_token_round_trip,
};
use crate::time::Timestamp;

verus! {

/// Bits of a segment's flags byte.
pub struct PhonemeFlags;

impl PhonemeFlags {
    pub const IS_VOWEL: u8 = 0b0000_0001;
}

/// One phoneme-timed annotation with its neighbours.
#[derive(Debug, Clone, Default)]
pub struct Utterance {
    pub prev: String,
    pub curr: String,
    pub next: String,
    /// Absolute path of the audio, set when a package is loaded; never stored.
    pub audio_path: String,
    pub language: Option<String>,
    /// Note number of the segment's pitch.
    pub pitch: Option<u8>,
    pub start: Timestamp,
    pub midpoint: Timestamp,
    pub end: Timestamp,
    /// Named numeric extras; each value is the bit pattern of an `f32`.
    pub extras: Option<Vec<(String, u32)>>,
    pub flags: u8,
    /// Named time ranges, as (name, from, to).
    pub areas: Option<Vec<(String, Timestamp, Timestamp)>>,
    pub minified: Option<[u64; 3]>,
}

/// One source audio file and its segments.
#[derive(Debug, Clone, Default)]
pub struct FileDescriptor {
    pub path: String,
    pub aliases: Vec<String>,
    pub pitch: Option<u8>,
    /// Named analysis artifacts, as (name, path).
    pub analysis_files: Option<Vec<(String, String)>>,
    pub language: Option<String>,
    /// Named numeric extras; each value is the bit pattern of an `f32`.
    pub extras: Option<Vec<(String, u32)>>,
    pub labels: Vec<Utterance>,
}

/// Each name occurs at most once.
pub open spec fn names_unique<V>(v: Seq<(String, V)>) -> bool {
    forall|i: int, j: int| 0 <= i < j < v.len() ==> (#[trigger] v[i]).0@ != (#[trigger] v[j]).0@
}

pub open spec fn optional_names_unique<V>(o: Option<Vec<(String, V)>>) -> bool {
    match o {
        Some(v) => names_unique(v@),
        None => true,
    }
}

/// Each area name occurs at most once.
pub open spec fn area_names_unique(o: Option<Vec<(String, Timestamp, Timestamp)>>) -> bool {
    match o {
        Some(v) => forall|i: int, j: int|
            0 <= i < j < v@.len() ==> (#[trigger] v@[i]).0@ != (#[trigger] v@[j]).0@,
        None => true,
    }
}

impl Utterance {
    /// The named extras and areas each hold a name at most once.
    pub open spec fn wf(&self) -> bool {
        optional_names_unique(self.extras) && area_names_unique(self.areas)
    }
}

impl FileDescriptor {
    /// Named analysis files and extras hold each name at most once, and
    /// every segment is well formed.
    pub open spec fn wf(&self) -> bool {
        &&& optional_names_unique(self.analysis_files)
        &&& optional_names_unique(self.extras)
        &&& forall|i: int| 0 <= i < self.labels@.len() ==> (#[trigger] self.labels@[i]).wf()
    }
}

/// `s` ends with `suffix`.
pub open spec fn ends_with(s: Seq<char>, suffix: Seq<char>) -> bool {
    suffix.len() <= s.len() && s.subrange(s.len() - suffix.len(), s.len() as int) == suffix
}

/// A path under a Windows verbatim prefix (`\\?\`).
pub open spec fn is_verbatim_path(p: Seq<char>) -> bool {
    p.len() >= 4 && p.subrange(0, 4) == seq!['\\', '\\', '?', '\\']
}

/// The midpoint lies halfway between start and end, rounded down.
pub open spec fn midpoint_law(start: Timestamp, midpoint: Timestamp, end: Timestamp) -> bool {
    &&& start.value <= end.value
    &&& midpoint.value == start.value + (end.value - start.value) / 2
}

/// Word 0 of a packed record: prev, curr and next codes (16 bits each),
/// flags (8 bits) and the pitch byte (8 bits), most significant first.
pub open spec fn label_word(prev: u16, curr: u16, next: u16, flags: u8, pitch: u8) -> u64 {
    ((prev as u64) << 48u64) | ((curr as u64) << 32u64) | ((next as u64) << 16u64) | ((
    flags as u64) << 8u64) | (pitch as u64)
}

pub open spec fn word_prev(w: u64) -> u16 {
    (w >> 48u64) as u16
}

pub open spec fn word_curr(w: u64) -> u16 {
    ((w >> 32u64) & 0xffffu64) as u16
}

pub open spec fn word_next(w: u64) -> u16 {
    ((w >> 16u64) & 0xffffu64) as u16
}

pub open spec fn word_flags(w: u64) -> u8 {
    ((w >> 8u64) & 0xffu64) as u8
}

pub open spec fn word_pitch(w: u64) -> u8 {
    (w & 0xffu64) as u8
}

/// A note number below 128 in the low 7 bits, with bit 7 marking that a
/// pitch is present.
pub open spec fn pitch_byte(p: Option<u8>) -> u8 {
    match p {
        Some(n) => (n + 128) as u8,
        None => 0,
    }
}

pub open spec fn pitch_of_byte(b: u8) -> Option<u8> {
    if b >= 128 {
        Some((b - 128) as u8)
    } else {
        None
    }
}

/// Word 0 of the packed record of a segment.
pub open spec fn packed_word(u: Utterance) -> u64 {
    label_word(
        encoded(u.prev@) as u16,
        encoded(u.curr@) as u16,
        encoded(u.next@) as u16,
        u.flags,
        pitch_byte(u.pitch),
    )
}

/// A pitch that the 7-bit note field can hold.
pub open spec fn packable_pitch(p: Option<u8>) -> bool {
    p is None || p->0 < 128
}

/// Records whose codes name table entries and whose start is not after the end.
pub open spec fn valid_record(data: [u64; 3]) -> bool {
    &&& is_valid_code(word_prev(data[0]))
    &&& is_valid_code(word_curr(data[0]))
    &&& is_valid_code(word_next(data[0]))
    &&& data[1] <= data[2]
}

proof fn lemma_word_fields(p: u16, c: u16, n: u16, f: u8, b: u8)
    ensures
        word_prev(label_word(p, c, n, f, b)) == p,
        word_curr(label_word(p, c, n, f, b)) == c,
        word_next(label_word(p, c, n, f, b)) == n,
        word_flags(label_word(p, c, n, f, b)) == f,
        word_pitch(label_word(p, c, n, f, b)) == b,
{
    let (wp, wc, wn, wf, wb) = (p as u64, c as u64, n as u64, f as u64, b as u64);
    assert(wp < 0x10000 && wc < 0x10000 && wn < 0x10000 && wf < 0x100 && wb < 0x100);
    let w = (wp << 48u64) | (wc << 32u64) | (wn << 16u64) | (wf << 8u64) | wb;
    assert(w >> 48u64 == wp) by (bit_vector)
        requires
            w == (wp << 48u64) | (wc << 32u64) | (wn << 16u64) | (wf << 8u64) | wb,
            wp < 0x10000,
            wc < 0x10000,
            wn < 0x10000,
            wf < 0x100,
            wb < 0x100,
    ;
    assert((w >> 32u64) & 0xffffu64 == wc) by (bit_vector)
        requires
            w == (wp << 48u64) | (wc << 32u64) | (wn << 16u64) | (wf << 8u64) | wb,
            wc < 0x10000,
            wn < 0x10000,
            wf < 0x100,
            wb < 0x100,
    ;
    assert((w >> 16u64) & 0xffffu64 == wn) by (bit_vector)
        requires
            w == (wp << 48u64) | (wc << 32u64) | (wn << 16u64) | (wf << 8u64) | wb,
            wn < 0x10000,
            wf < 0x100,
            wb < 0x100,
    ;
    assert((w >> 8u64) & 0xffu64 == wf) by (bit_vector)
        requires
            w == (wp << 48u64) | (wc << 32u64) | (wn << 16u64) | (wf << 8u64) | wb,
            wf < 0x100,
            wb < 0x100,
    ;
    assert(w & 0xffu64 == wb) by (bit_vector)
        requires
            w == (wp << 48u64) | (wc << 32u64) | (wn << 16u64) | (wf << 8u64) | wb,
            wb < 0x100,
    ;
}

impl Utterance {
    /// A segment with the given context and times, the midpoint halfway
    /// between them, and nothing else set.
    pub fn new(prev: String, curr: String, next: String, start: Timestamp, end: Timestamp) -> (r:
        Utterance)
        requires
            start.value <= end.value,
        ensures
            r.prev == prev,
            r.curr == curr,
            r.next == next,
            r.start == start,
            r.end == end,
            midpoint_law(r.start, r.midpoint, r.end),
            r.pitch is None,
            r.flags == 0,
            r.extras is None,
            r.areas is None,
            r.minified is None,
            r.language is None,
            r.audio_path@.len() == 0,
            r.wf(),
    {
        let midpoint = Timestamp::new(start.value + (end.value - start.value) / 2);
        Utterance {
            prev,
            curr,
            next,
            audio_path: String::new(),
            language: None,
            pitch: None,
            start,
            midpoint,
            end,
            extras: None,
            flags: 0,
            areas: None,
            minified: None,
        }
    }

    /// The packed record of this segment.
    pub fn minify(&self) -> (r: [u64; 3])
        requires
            packable_pitch(self.pitch),
        ensures
            r[0] == packed_word(*self),
            r[1] == self.start.value,
            r[2] == self.end.value,
    {
        let p = PhonemeEncoder::encode(self.prev.as_str()) as u64;
        let c = PhonemeEncoder::encode(self.curr.as_str()) as u64;
        let n = PhonemeEncoder::encode(self.next.as_str()) as u64;
        let b: u8 = match self.pitch {
            Some(note) => note + 128,
            None => 0,
        };
        let word = (p << 48u64) | (c << 32u64) | (n << 16u64) | ((self.flags as u64) << 8u64) | (
        b as u64);
        [word, self.start.value, self.end.value]
    }

    /// A segment rebuilt from a packed record: the context, flags, pitch and
    /// times come from the record, the midpoint is recomputed, and extras
    /// and areas are left empty.
    pub fn from_minified(data: &[u64; 3]) -> (r: Utterance)
        requires
            valid_record(*data),
        ensures
            r.prev@ == decoded(word_prev(data[0])),
            r.curr@ == decoded(word_curr(data[0])),
            r.next@ == decoded(word_next(data[0])),
            r.flags == word_flags(data[0]),
            r.pitch == pitch_of_byte(word_pitch(data[0])),
            r.start.value == data[1],
            r.end.value == data[2],
            midpoint_law(r.start, r.midpoint, r.end),
            r.extras is None,
            r.areas is None,
            r.minified == Some(*data),
            r.wf(),
    {
        let w = data[0];
        let prev = PhonemeEncoder::decode((w >> 48u64) as u16);
        let curr = PhonemeEncoder::decode(((w >> 32u64) & 0xffff) as u16);
        let next = PhonemeEncoder::decode(((w >> 16u64) & 0xffff) as u16);
        let flags = ((w >> 8u64) & 0xff) as u8;
        let b = (w & 0xff) as u8;
        let mut u = Utterance::new(
            prev,
            curr,
            next,
            Timestamp::from_minified(data[1]),
            Timestamp::from_minified(data[2]),
        );
        u.flags = flags;
        u.pitch = if b >= 128 {
            Some(b - 128)
        } else {
            None
        };
        u.minified = Some(*data);
        u
    }
}

/// Whether a packed record can be rebuilt into a segment.
pub fn record_is_valid(data: &[u64; 3]) -> (r: bool)
    ensures
        r == valid_record(*data),
{
    let w = data[0];
    let codes: [u16; 3] = [
        (w >> 48u64) as u16,
        ((w >> 32u64) & 0xffff) as u16,
        ((w >> 16u64) & 0xffff) as u16,
    ];
    let mut ok = data[1] <= data[2];
    let mut i: usize = 0;
    while i < 3
        invariant
            i <= 3,
            codes[0] == word_prev(w),
            codes[1] == word_curr(w),
            codes[2] == word_next(w),
            ok == (data[1] <= data[2] && forall|j: int| 0 <= j < i ==> is_valid_code(codes[j])),
        decreases 3 - i,
    {
        let c = codes[i];
        assert(c & 0x3ff == c % 1024) by (bit_vector);
        assert(c >> 10 == c / 1024) by (bit_vector);
        ok = ok && ((c & 0x3ff) as usize) < PHONEME_COUNT && ((c >> 10) as usize) < DIACRITIC_COUNT;
        i = i + 1;
    }
    ok
}

/// All stored fields agree; only the runtime audio path may differ.
pub open spec fn same_segment(a: Utterance, b: Utterance) -> bool {
    &&& a.prev == b.prev
    &&& a.curr == b.curr
    &&& a.next == b.next
    &&& a.language == b.language
    &&& a.pitch == b.pitch
    &&& a.start == b.start
    &&& a.midpoint == b.midpoint
    &&& a.end == b.end
    &&& a.extras == b.extras
    &&& a.flags == b.flags
    &&& a.areas == b.areas
    &&& a.minified == b.minified
}

/// Segments in ascending order of start time.
pub open spec fn sorted_by_start(s: Seq<Utterance>) -> bool {
    forall|i: int, j: int| 0 <= i < j < s.len() ==> s[i].start.value <= s[j].start.value
}

/// `mid` is `old` with one audio path given to every segment.
pub open spec fn relabeled(old: Seq<Utterance>, mid: Seq<Utterance>) -> bool {
    &&& mid.len() == old.len()
    &&& forall|i: int|
        0 <= i < mid.len() ==> same_segment(#[trigger] mid[i], old[i]) && mid[i].audio_path@
            == mid[0].audio_path@
}

/// `new` holds the segments of `old`, each with the file's audio path, in
/// ascending order of start time.
pub open spec fn normalized_labels(old: Seq<Utterance>, new: Seq<Utterance>) -> bool {
    &&& sorted_by_start(new)
    &&& exists|mid: Seq<Utterance>| #[trigger]
        relabeled(old, mid) && mid.to_multiset() == new.to_multiset()
}

/// `new` is `old` with every segment given the audio path `audio` and the
/// segments ordered by start time; the file's other fields are kept, and so
/// is well-formedness.
pub open spec fn file_normalized_to(old: FileDescriptor, new: FileDescriptor, audio: Seq<char>) -> bool {
    &&& new.path == old.path
    &&& new.aliases == old.aliases
    &&& new.pitch == old.pitch
    &&& new.analysis_files == old.analysis_files
    &&& new.language == old.language
    &&& new.extras == old.extras
    &&& normalized_labels(old.labels@, new.labels@)
    &&& forall|i: int| 0 <= i < new.labels@.len() ==> (#[trigger] new.labels@[i]).audio_path@ == audio
    &&& old.wf() ==> new.wf()
}

/// `new` is `old` normalized against the directory `base_dir`: the same
/// file, its segments normalized, each audio path ending with the file's
/// path (unless `base_dir` is a verbatim path, which joining rewrites), and
/// well-formedness kept.
pub open spec fn file_normalized(old: FileDescriptor, new: FileDescriptor, base_dir: Seq<char>) -> bool {
    &&& new.path == old.path
    &&& new.aliases == old.aliases
    &&& new.pitch == old.pitch
    &&& new.analysis_files == old.analysis_files
    &&& new.language == old.language
    &&& new.extras == old.extras
    &&& normalized_labels(old.labels@, new.labels@)
    &&& !is_verbatim_path(base_dir) ==> forall|i: int|
        0 <= i < new.labels@.len() ==> ends_with((#[trigger] new.labels@[i]).audio_path@, old.path@)
    &&& old.wf() ==> new.wf()
}

/// Relies on std::path::Path::join (that is, PathBuf::push) and
/// Path::to_string_lossy: `rel` joined to `base`. The separator depends on
/// the platform; on every platform the result ends with `rel`, whether
/// `rel` is appended or replaces the path, except under a Windows verbatim
/// prefix, where `push` normalizes the joined path.
#[verifier::external_body]
fn join_path(base: &str, rel: &str) -> (r: String)
    ensures
        !is_verbatim_path(base@) ==> ends_with(r@, rel@),
{
    std::path::Path::new(base).join(rel).to_string_lossy().into_owned()
}

/// An element of a sequence is an element of any sequence with the same
/// multiset; returns its index there.
proof fn lemma_member_of_same_multiset(a: Seq<Utterance>, b: Seq<Utterance>, i: int) -> (j: int)
    requires
        a.to_multiset() == b.to_multiset(),
        0 <= i < b.len(),
    ensures
        0 <= j < a.len(),
        a[j] == b[i],
{
    broadcast use vstd::seq_lib::group_to_multiset_ensures;

    assert(b.contains(b[i]));
    assert(b.to_multiset().count(b[i]) > 0);
    assert(a.to_multiset().count(b[i]) > 0);
    assert(a.contains(b[i]));
    choose|j: int| 0 <= j < a.len() && a[j] == b[i]
}

/// Stable insertion of every segment into ascending order of start time.
fn sort_by_start(v: &mut Vec<Utterance>)
    ensures
        sorted_by_start(final(v)@),
        final(v)@.to_multiset() == old(v)@.to_multiset(),
{
    broadcast use vstd::seq_lib::group_to_multiset_ensures;

    let ghost orig = v@;
    let mut out: Vec<Utterance> = Vec::new();
    while v.len() > 0
        invariant
            sorted_by_start(out@),
            v@.to_multiset().add(out@.to_multiset()) =~= orig.to_multiset(),
        decreases v@.len(),
    {
        let ghost before = v@;
        let x = v.pop().unwrap();
        assert(before =~= v@.push(x));
        proof {
            vstd::seq_lib::to_multiset_build(v@, x);
        }
        assert(before.to_multiset() =~= v@.to_multiset().insert(x));
        let mut k: usize = 0;
        while k < out.len() && out[k].start.value < x.start.value
            invariant
                k <= out@.len(),
                forall|j: int| 0 <= j < k ==> out@[j].start.value < x.start.value,
            decreases out@.len() - k,
        {
            k = k + 1;
        }
        let ghost prev_out = out@;
        proof {
            vstd::seq_lib::to_multiset_insert(prev_out, k as int, x);
        }
        out.insert(k, x);
        assert(out@.to_multiset() =~= prev_out.to_multiset().insert(x));
        assert(v@.to_multiset().add(out@.to_multiset()) =~= before.to_multiset().add(
            prev_out.to_multiset(),
        ));
        assert(sorted_by_start(out@)) by {
            assert forall|i: int, j: int| 0 <= i < j < out@.len() implies out@[i].start.value
                <= out@[j].start.value by {
                if k < prev_out.len() {
                    assert(x.start.value <= prev_out[k as int].start.value);
                }
                if i < k && j > k {
                    assert(prev_out[i].start.value < x.start.value);
                }
            }
        }
    }
    assert(v@.to_multiset() =~= Multiset::empty());
    *v = out;
}

impl FileDescriptor {
    /// A file with the given path and segments and nothing else set.
    pub fn new(path: String, labels: Vec<Utterance>) -> (r: FileDescriptor)
        ensures
            r.path == path,
            r.labels == labels,
            r.aliases@.len() == 0,
            r.pitch is None,
            r.analysis_files is None,
            r.language is None,
            r.extras is None,
            (forall|i: int| 0 <= i < labels@.len() ==> (#[trigger] labels@[i]).wf()) ==> r.wf(),
    {
        FileDescriptor {
            path,
            aliases: Vec::new(),
            pitch: None,
            analysis_files: None,
            language: None,
            extras: None,
            labels,
        }
    }

    /// Gives every segment the audio path `audio`, then orders the segments
    /// by start time.
    pub fn normalize_to(&mut self, audio: &str)
        ensures
            file_normalized_to(*old(self), *final(self), audio@),
    {
        let n = self.labels.len();
        let mut i: usize = 0;
        while i < n
            invariant
                self.labels@.len() == n,
                self.path == old(self).path,
                self.aliases == old(self).aliases,
                self.pitch == old(self).pitch,
                self.analysis_files == old(self).analysis_files,
                self.language == old(self).language,
                self.extras == old(self).extras,
                old(self).labels@.len() == n,
                i <= n,
                forall|k: int|
                    0 <= k < i ==> same_segment(#[trigger] self.labels@[k], old(self).labels@[k])
                        && self.labels@[k].audio_path@ == audio@,
                forall|k: int| i <= k < n ==> #[trigger] self.labels@[k] == old(self).labels@[k],
            decreases n - i,
        {
            self.labels[i].audio_path = String::from_str(audio);
            i = i + 1;
        }
        let ghost mid = self.labels@;
        assert(relabeled(old(self).labels@, mid));
        sort_by_start(&mut self.labels);
        assert forall|i: int| 0 <= i < self.labels@.len() implies ({
            let u = #[trigger] self.labels@[i];
            &&& u.audio_path@ == audio@
            &&& old(self).wf() ==> u.wf()
        }) by {
            let j = lemma_member_of_same_multiset(mid, self.labels@, i);
            if old(self).wf() {
                assert(old(self).labels@[j].wf());
            }
        }
    }

    /// Gives every segment the audio path `base_dir` joined with the file's
    /// path, then orders the segments by start time.
    pub fn normalize(&mut self, base_dir: &str)
        ensures
            file_normalized(*old(self), *final(self), base_dir@),
    {
        let audio = join_path(base_dir, self.path.as_str());
        self.normalize_to(audio.as_str());
    }
}

/// Packing a segment keeps, in a valid record, its context, flags, pitch
/// and times; `from_minified` then rebuilds them, with the midpoint set by
/// the midpoint law and no extras or areas. The context comes back exactly
/// where each token is written from the phoneme tables.
pub proof fn lemma_packed_projection(u: Utterance, r: [u64; 3])
    requires
        packable_pitch(u.pitch),
        u.start.value <= u.end.value,
        is_table_token(u.prev@),
        is_table_token(u.curr@),
        is_table_token(u.next@),
        r[0] == packed_word(u),
        r[1] == u.start.value,
        r[2] == u.end.value,
    ensures
        valid_record(r),
        decoded(word_prev(r[0])) == u.prev@,
        decoded(word_curr(r[0])) == u.curr@,
        decoded(word_next(r[0])) == u.next@,
        word_flags(r[0]) == u.flags,
        pitch_of_byte(word_pitch(r[0])) == u.pitch,
        r[1] == u.start.value,
        r[2] == u.end.value,
{
    lemma_table_token_round_trip(u.prev@);
    lemma_table_token_round_trip(u.curr@);
    lemma_table_token_round_trip(u.next@);
    lemma_word_fields(
        encoded(u.prev@) as u16,
        encoded(u.curr@) as u16,
        encoded(u.next@) as u16,
        u.flags,
        pitch_byte(u.pitch),
    );
}

} // verus!
