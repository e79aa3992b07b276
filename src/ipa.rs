//! Conversion of a package's tokens between IPA and X-SAMPA.
use vstd::prelude::*;
use crate::encode::{PhonemeEncoder, is_silence_token};
use crate::library::Library;
use crate::singer::Singer;
use crate::utterance::{FileDescriptor, Utterance};

verus! {

/// The X-SAMPA text that `ipa_translate::ipa_to_xsampa` gives for IPA text.
pub uninterp spec fn xsampa_of_ipa(s: Seq<char>) -> Seq<char>;

/// The IPA text that `ipa_translate::xsampa_to_ipa` gives for X-SAMPA text.
pub uninterp spec fn ipa_of_xsampa(s: Seq<char>) -> Seq<char>;

/// Relies on ipa_translate::ipa_to_xsampa: a fixed table of symbol pairs,
/// so the result depends on the text alone.
#[verifier::external_body]
fn ipa_to_xsampa(s: &str) -> (r: String)
    ensures
        r@ == xsampa_of_ipa(s@),
{
    ipa_translate::ipa_to_xsampa(s)
}

/// Relies on ipa_translate::xsampa_to_ipa: a fixed table of symbol pairs,
/// so the result depends on the text alone.
#[verifier::external_body]
fn xsampa_to_ipa(s: &str) -> (r: String)
    ensures
        r@ == ipa_of_xsampa(s@),
{
    ipa_translate::xsampa_to_ipa(s)
}

/// A token after the conversion pass: silence markers stay as they are.
pub open spec fn converted_context(s: Seq<char>, to_xsampa: bool) -> Seq<char> {
    if is_silence_token(s) {
        s
    } else {
        converted_token(s, to_xsampa)
    }
}

/// A token after translation.
pub open spec fn converted_token(s: Seq<char>, to_xsampa: bool) -> Seq<char> {
    if to_xsampa {
        xsampa_of_ipa(s)
    } else {
        ipa_of_xsampa(s)
    }
}

/// `new` is `old` with prev, curr and next converted, silence markers kept.
pub open spec fn utterance_converted(old: Utterance, new: Utterance, to_xsampa: bool) -> bool {
    &&& new.prev@ == converted_context(old.prev@, to_xsampa)
    &&& new.curr@ == converted_context(old.curr@, to_xsampa)
    &&& new.next@ == converted_context(old.next@, to_xsampa)
    &&& new.audio_path == old.audio_path
    &&& new.language == old.language
    &&& new.pitch == old.pitch
    &&& new.start == old.start
    &&& new.midpoint == old.midpoint
    &&& new.end == old.end
    &&& new.extras == old.extras
    &&& new.flags == old.flags
    &&& new.areas == old.areas
    &&& new.minified == old.minified
}

pub open spec fn file_converted(old: FileDescriptor, new: FileDescriptor, to_xsampa: bool) -> bool {
    &&& new.path == old.path
    &&& new.aliases == old.aliases
    &&& new.pitch == old.pitch
    &&& new.analysis_files == old.analysis_files
    &&& new.language == old.language
    &&& new.extras == old.extras
    &&& new.labels@.len() == old.labels@.len()
    &&& forall|k: int|
        0 <= k < new.labels@.len() ==> utterance_converted(
            old.labels@[k],
            #[trigger] new.labels@[k],
            to_xsampa,
        )
}

pub open spec fn library_converted(old: Library, new: Library, to_xsampa: bool) -> bool {
    &&& new.name == old.name
    &&& new.uuid == old.uuid
    &&& new.base_path == old.base_path
    &&& new.language == old.language
    &&& new.is_default == old.is_default
    &&& new.files@.len() == old.files@.len()
    &&& forall|k: int|
        0 <= k < new.files@.len() ==> file_converted(
            old.files@[k],
            #[trigger] new.files@[k],
            to_xsampa,
        )
}

pub open spec fn singer_converted(old: Singer, new: Singer, to_xsampa: bool) -> bool {
    &&& new.meta == old.meta
    &&& new.origin == old.origin
    &&& new.language == old.language
    &&& new.flag_fields == old.flag_fields
    &&& new.extra_fields == old.extra_fields
    &&& new.libraries@.len() == old.libraries@.len()
    &&& forall|k: int|
        0 <= k < new.libraries@.len() ==> library_converted(
            old.libraries@[k],
            #[trigger] new.libraries@[k],
            to_xsampa,
        )
}

/// Converts tokens from IPA to X-SAMPA in place.
pub trait FromIPA: Sized {
    /// `after` is `before` with every token converted from IPA.
    spec fn from_ipa_done(before: Self, after: Self) -> bool;

    fn from_ipa(&mut self)
        ensures
            Self::from_ipa_done(*old(self), *final(self)),
    ;
}

/// Converts tokens from X-SAMPA to IPA in place.
pub trait ToIPA: Sized {
    /// `after` is `before` with every token converted to IPA.
    spec fn to_ipa_done(before: Self, after: Self) -> bool;

    fn to_ipa(&mut self)
        ensures
            Self::to_ipa_done(*old(self), *final(self)),
    ;
}

fn translate(s: &str, to_xsampa: bool) -> (r: String)
    ensures
        r@ == converted_token(s@, to_xsampa),
{
    if to_xsampa {
        ipa_to_xsampa(s)
    } else {
        xsampa_to_ipa(s)
    }
}

fn convert_utterance(u: &mut Utterance, to_xsampa: bool)
    ensures
        utterance_converted(*old(u), *final(u), to_xsampa),
{
    if !PhonemeEncoder::is_silence(u.prev.as_str()) {
        u.prev = translate(u.prev.as_str(), to_xsampa);
    }
    if !PhonemeEncoder::is_silence(u.curr.as_str()) {
        u.curr = translate(u.curr.as_str(), to_xsampa);
    }
    if !PhonemeEncoder::is_silence(u.next.as_str()) {
        u.next = translate(u.next.as_str(), to_xsampa);
    }
}

fn convert_file(f: &mut FileDescriptor, to_xsampa: bool)
    ensures
        file_converted(*old(f), *final(f), to_xsampa),
{
    let n = f.labels.len();
    let mut i: usize = 0;
    while i < n
        invariant
            i <= n,
            f.labels@.len() == n,
            old(f).labels@.len() == n,
            f.path == old(f).path,
            f.aliases == old(f).aliases,
            f.pitch == old(f).pitch,
            f.analysis_files == old(f).analysis_files,
            f.language == old(f).language,
            f.extras == old(f).extras,
            forall|k: int|
                0 <= k < i ==> utterance_converted(
                    old(f).labels@[k],
                    #[trigger] f.labels@[k],
                    to_xsampa,
                ),
            forall|k: int| i <= k < n ==> #[trigger] f.labels@[k] == old(f).labels@[k],
        decreases n - i,
    {
        convert_utterance(&mut f.labels[i], to_xsampa);
        i = i + 1;
    }
}

fn convert_library(l: &mut Library, to_xsampa: bool)
    ensures
        library_converted(*old(l), *final(l), to_xsampa),
{
    let n = l.files.len();
    let mut i: usize = 0;
    while i < n
        invariant
            i <= n,
            l.files@.len() == n,
            old(l).files@.len() == n,
            l.name == old(l).name,
            l.uuid == old(l).uuid,
            l.base_path == old(l).base_path,
            l.language == old(l).language,
            l.is_default == old(l).is_default,
            forall|k: int|
                0 <= k < i ==> file_converted(old(l).files@[k], #[trigger] l.files@[k], to_xsampa),
            forall|k: int| i <= k < n ==> #[trigger] l.files@[k] == old(l).files@[k],
        decreases n - i,
    {
        convert_file(&mut l.files[i], to_xsampa);
        i = i + 1;
    }
}

fn convert_singer(s: &mut Singer, to_xsampa: bool)
    ensures
        singer_converted(*old(s), *final(s), to_xsampa),
{
    let n = s.libraries.len();
    let mut i: usize = 0;
    while i < n
        invariant
            i <= n,
            s.libraries@.len() == n,
            old(s).libraries@.len() == n,
            s.meta == old(s).meta,
            s.origin == old(s).origin,
            s.language == old(s).language,
            s.flag_fields == old(s).flag_fields,
            s.extra_fields == old(s).extra_fields,
            forall|k: int|
                0 <= k < i ==> library_converted(
                    old(s).libraries@[k],
                    #[trigger] s.libraries@[k],
                    to_xsampa,
                ),
            forall|k: int| i <= k < n ==> #[trigger] s.libraries@[k] == old(s).libraries@[k],
        decreases n - i,
    {
        convert_library(&mut s.libraries[i], to_xsampa);
        i = i + 1;
    }
}

impl FromIPA for Singer {
    open spec fn from_ipa_done(before: Self, after: Self) -> bool {
        singer_converted(before, after, true)
    }

    fn from_ipa(&mut self) {
        convert_singer(self, true);
    }
}

impl FromIPA for Library {
    open spec fn from_ipa_done(before: Self, after: Self) -> bool {
        library_converted(before, after, true)
    }

    fn from_ipa(&mut self) {
        convert_library(self, true);
    }
}

impl FromIPA for FileDescriptor {
    open spec fn from_ipa_done(before: Self, after: Self) -> bool {
        file_converted(before, after, true)
    }

    fn from_ipa(&mut self) {
        convert_file(self, true);
    }
}

impl FromIPA for Utterance {
    open spec fn from_ipa_done(before: Self, after: Self) -> bool {
        utterance_converted(before, after, true)
    }

    fn from_ipa(&mut self) {
        convert_utterance(self, true);
    }
}

impl ToIPA for Singer {
    open spec fn to_ipa_done(before: Self, after: Self) -> bool {
        singer_converted(before, after, false)
    }

    fn to_ipa(&mut self) {
        convert_singer(self, false);
    }
}

impl ToIPA for Library {
    open spec fn to_ipa_done(before: Self, after: Self) -> bool {
        library_converted(before, after, false)
    }

    fn to_ipa(&mut self) {
        convert_library(self, false);
    }
}

impl ToIPA for FileDescriptor {
    open spec fn to_ipa_done(before: Self, after: Self) -> bool {
        file_converted(before, after, false)
    }

    fn to_ipa(&mut self) {
        convert_file(self, false);
    }
}

impl ToIPA for Utterance {
    open spec fn to_ipa_done(before: Self, after: Self) -> bool {
        utterance_converted(before, after, false)
    }

    fn to_ipa(&mut self) {
        convert_utterance(self, false);
    }
}

} // verus!
