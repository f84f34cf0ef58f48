//! Which video encoder is used: the first of a family's encoders that is
//! built in, hardware before software.
use crate::session::{set_video_encoder, Session};
use crate::text::{cstr, same_text};
use vstd::prelude::*;

verus! {

/// The encoders of a codec family, the preferred ones first.
pub open spec fn candidates(family: Seq<char>) -> Seq<Seq<char>> {
    if family == "h264"@ {
        seq![
            "h264_videotoolbox"@,
            "h264_nvenc"@,
            "h264_vaapi"@,
            "h264_qsv"@,
            "h264_amf"@,
            "libx264"@,
            "libopenh264"@,
        ]
    } else if family == "hevc"@ {
        seq![
            "hevc_videotoolbox"@,
            "hevc_nvenc"@,
            "hevc_vaapi"@,
            "hevc_qsv"@,
            "hevc_amf"@,
            "libx265"@,
        ]
    } else if family == "mpeg4"@ {
        seq!["mpeg4"@]
    } else if family == "mjpeg"@ {
        seq!["mjpeg"@]
    } else {
        seq![]
    }
}

/// The names that are tried for a family, in this order: its encoders, and
/// then the family itself, as the name of an encoder.
pub open spec fn preferences(family: Seq<char>) -> Seq<Seq<char>> {
    candidates(family).push(family)
}

/// The search for an encoder, between two lookups.
pub struct EncoderSearch {
    pub names: Vec<String>,
    /// How many of the names are not built in.
    pub tried: usize,
    /// The next name is built in.
    pub found: bool,
    /// The encoder that is found is remembered.
    pub record: bool,
}

/// What an [`EncoderSearch`] holds.
pub struct EncoderSearchView {
    pub names: Seq<Seq<char>>,
    pub tried: nat,
    pub found: bool,
    pub record: bool,
}

impl View for EncoderSearch {
    type V = EncoderSearchView;

    open spec fn view(&self) -> EncoderSearchView {
        EncoderSearchView {
            names: self.names@.map_values(|s: String| s@),
            tried: self.tried as nat,
            found: self.found,
            record: self.record,
        }
    }
}

impl EncoderSearchView {
    /// A search that has not begun.
    pub open spec fn begun(family: Seq<char>, record: bool) -> EncoderSearchView {
        EncoderSearchView { names: preferences(family), tried: 0, found: false, record }
    }

    /// Whether the names that count as tried are among the names.
    pub open spec fn wf(self) -> bool {
        self.tried <= self.names.len() && (self.found ==> self.tried < self.names.len())
    }

    /// The name to look up next, where the search goes on.
    pub open spec fn wanted(self) -> Option<Seq<char>> {
        if !self.found && self.tried < self.names.len() {
            Some(self.names[self.tried as int])
        } else {
            None
        }
    }

    /// The name that was found.
    pub open spec fn chosen(self) -> Option<Seq<char>> {
        if self.found {
            Some(self.names[self.tried as int])
        } else {
            None
        }
    }

    /// The search after the wanted name was looked up.
    pub open spec fn after(self, available: bool) -> EncoderSearchView {
        if self.wanted() is None {
            self
        } else if available {
            EncoderSearchView { found: true, ..self }
        } else {
            EncoderSearchView { tried: self.tried + 1, ..self }
        }
    }
}

fn push_name(names: &mut Vec<String>, name: &str)
    ensures
        final(names)@.map_values(|s: String| s@) == old(names)@.map_values(|s: String| s@).push(
            name@,
        ),
{
    names.push(name.to_string());
    assert(names@.map_values(|s: String| s@) =~= old(names)@.map_values(|s: String| s@).push(
        name@,
    ));
}

/// The encoders of a codec family, the preferred ones first.
fn family_names(family: &str) -> (names: Vec<String>)
    ensures
        names@.map_values(|s: String| s@) == candidates(family@),
{
    let mut names: Vec<String> = Vec::new();
    if same_text(family, "h264") {
        push_name(&mut names, "h264_videotoolbox");
        push_name(&mut names, "h264_nvenc");
        push_name(&mut names, "h264_vaapi");
        push_name(&mut names, "h264_qsv");
        push_name(&mut names, "h264_amf");
        push_name(&mut names, "libx264");
        push_name(&mut names, "libopenh264");
    } else if same_text(family, "hevc") {
        push_name(&mut names, "hevc_videotoolbox");
        push_name(&mut names, "hevc_nvenc");
        push_name(&mut names, "hevc_vaapi");
        push_name(&mut names, "hevc_qsv");
        push_name(&mut names, "hevc_amf");
        push_name(&mut names, "libx265");
    } else if same_text(family, "mpeg4") {
        push_name(&mut names, "mpeg4");
    } else if same_text(family, "mjpeg") {
        push_name(&mut names, "mjpeg");
    }
    assert(names@.map_values(|s: String| s@) =~= candidates(family@));
    names
}

/// Begins the search for the best encoder of a family. What it finds is
/// remembered where `record` says so: a transcoding job asks for that, for the
/// encoder that is remembered is the one that the last such job used.
pub fn resolve_video_encoder(family: &str, record: bool) -> (search: EncoderSearch)
    ensures
        search@ == EncoderSearchView::begun(family@, record),
        search@.wf(),
{
    let mut names: Vec<String> = family_names(family);
    push_name(&mut names, family);
    EncoderSearch { names, tried: 0, found: false, record }
}

impl EncoderSearch {
    /// The name to look up next, `None` once the search is over.
    pub fn wanted(&self) -> (name: Option<String>)
        ensures
            crate::text::text_of(name) == self@.wanted(),
    {
        if !self.found && self.tried < self.names.len() {
            Some(self.names[self.tried].clone())
        } else {
            None
        }
    }

    /// The encoder that was found, once the search is over.
    pub fn chosen(&self) -> (name: Option<String>)
        requires
            self@.wf(),
        ensures
            crate::text::text_of(name) == self@.chosen(),
    {
        if self.found {
            Some(self.names[self.tried].clone())
        } else {
            None
        }
    }

    /// Takes whether the wanted name is built in. The first one that is ends
    /// the search, and is remembered where the search records.
    pub fn advance(&mut self, session: &mut Session, available: bool)
        requires
            old(self)@.wf(),
        ensures
            final(self)@ == old(self)@.after(available),
            final(self)@.wf(),
            final(session)@ == (match old(self)@.wanted() {
                Some(name) if available && old(self)@.record => old(session)@.chose(name),
                _ => old(session)@,
            }),
    {
        if !self.found && self.tried < self.names.len() {
            if available {
                if self.record {
                    set_video_encoder(session, self.names[self.tried].as_str());
                }
                self.found = true;
            } else {
                self.tried = self.tried + 1;
            }
        }
    }
}

/// The end of a search, where `available` tells which encoders are built in.
pub open spec fn resolved(
    search: EncoderSearchView,
    available: spec_fn(Seq<char>) -> bool,
) -> EncoderSearchView
    decreases search.names.len() - search.tried,
{
    if search.tried < search.names.len() && !search.found && !available(
        search.names[search.tried as int],
    ) {
        resolved(search.after(false), available)
    } else {
        match search.wanted() {
            Some(name) => search.after(available(name)),
            None => search,
        }
    }
}

proof fn lemma_resolved(search: EncoderSearchView, available: spec_fn(Seq<char>) -> bool)
    requires
        search.wf(),
        !search.found,
        forall|i: int| 0 <= i < search.tried ==> !available(#[trigger] search.names[i]),
    ensures
        ({
            let end = resolved(search, available);
            &&& end.names == search.names
            &&& end.record == search.record
            &&& end.wanted() is None
            &&& end.wf()
            &&& end.found ==> available(search.names[end.tried as int])
            &&& !end.found ==> end.tried == search.names.len()
            &&& forall|i: int| 0 <= i < end.tried ==> !available(#[trigger] search.names[i])
        }),
    decreases search.names.len() - search.tried,
{
    if search.tried < search.names.len() && !available(search.names[search.tried as int]) {
        lemma_resolved(search.after(false), available);
    }
}

/// A search ends with the first name of the family's list that is built in;
/// it ends without one only where neither an encoder of the family nor one
/// named like the family is.
pub proof fn law_first_available_is_chosen(
    family: Seq<char>,
    record: bool,
    available: spec_fn(Seq<char>) -> bool,
)
    ensures
        ({
            let end = resolved(EncoderSearchView::begun(family, record), available);
            let names = preferences(family);
            match end.chosen() {
                Some(name) => exists|k: int|
                    {
                        &&& 0 <= k < names.len()
                        &&& name == #[trigger] names[k]
                        &&& available(name)
                        &&& forall|i: int| 0 <= i < k ==> !available(#[trigger] names[i])
                    },
                None => forall|i: int|
                    0 <= i < names.len() ==> !available(#[trigger] names[i]),
            }
        }),
{
    lemma_resolved(EncoderSearchView::begun(family, record), available);
    let end = resolved(EncoderSearchView::begun(family, record), available);
    if end.found {
        assert(preferences(family)[end.tried as int] == end.chosen()->0);
    }
}

/// An encoder that is built in can be asked for by its own name, unless that
/// is the name of a family.
pub proof fn law_encoder_can_be_named(
    name: Seq<char>,
    record: bool,
    available: spec_fn(Seq<char>) -> bool,
)
    requires
        candidates(name).len() == 0,
        available(name),
    ensures
        resolved(EncoderSearchView::begun(name, record), available).chosen() == Some(name),
{
    lemma_resolved(EncoderSearchView::begun(name, record), available);
    assert(preferences(name)[0] == name);
}

/// A name that is no family stands for the encoder of that name alone, and a
/// family is tried as a name only after all of its encoders.
pub proof fn law_family_is_tried_last(family: Seq<char>)
    ensures
        ({
            let names = preferences(family);
            &&& names.last() == family
            &&& family != "h264"@ && family != "hevc"@ && family != "mpeg4"@ && family
                != "mjpeg"@ ==> names.len() == 1
            &&& family == "h264"@ ==> names.len() == 8
            &&& family == "hevc"@ ==> names.len() == 7
            &&& family == "mpeg4"@ || family == "mjpeg"@ ==> names == seq![family, family]
        }),
{
    reveal_strlit("h264");
    reveal_strlit("hevc");
    reveal_strlit("mpeg4");
    reveal_strlit("mjpeg");
    assert("h264"@[0] == 'h' && "h264"@[1] == '2' && "hevc"@[1] == 'e' && "mpeg4"@[1] == 'p'
        && "mjpeg"@[1] == 'j');
    if family == "mpeg4"@ || family == "mjpeg"@ {
        assert(preferences(family) =~= seq![family, family]);
    }
}

/// For both families that have encoders in hardware, these are tried first, in
/// the same order of makers, and those in software only after them.
pub proof fn law_hardware_comes_first(family: Seq<char>)
    requires
        family == "h264"@ || family == "hevc"@,
    ensures
        ({
            let names = preferences(family);
            &&& names[0] == family + "_videotoolbox"@
            &&& names[1] == family + "_nvenc"@
            &&& names[2] == family + "_vaapi"@
            &&& names[3] == family + "_qsv"@
            &&& names[4] == family + "_amf"@
            &&& family == "h264"@ ==> names[5] == "libx264"@ && names[6] == "libopenh264"@
            &&& family == "hevc"@ ==> names[5] == "libx265"@
        }),
{
    reveal_strlit("h264");
    reveal_strlit("hevc");
    reveal_strlit("_videotoolbox");
    reveal_strlit("_nvenc");
    reveal_strlit("_vaapi");
    reveal_strlit("_qsv");
    reveal_strlit("_amf");
    assert("h264"@[1] != "hevc"@[1]);
    if family == "h264"@ {
        reveal_strlit("h264_videotoolbox");
        reveal_strlit("h264_nvenc");
        reveal_strlit("h264_vaapi");
        reveal_strlit("h264_qsv");
        reveal_strlit("h264_amf");
        assert("h264_videotoolbox"@ =~= family + "_videotoolbox"@);
        assert("h264_nvenc"@ =~= family + "_nvenc"@);
        assert("h264_vaapi"@ =~= family + "_vaapi"@);
        assert("h264_qsv"@ =~= family + "_qsv"@);
        assert("h264_amf"@ =~= family + "_amf"@);
    } else {
        reveal_strlit("hevc_videotoolbox");
        reveal_strlit("hevc_nvenc");
        reveal_strlit("hevc_vaapi");
        reveal_strlit("hevc_qsv");
        reveal_strlit("hevc_amf");
        assert("hevc_videotoolbox"@ =~= family + "_videotoolbox"@);
        assert("hevc_nvenc"@ =~= family + "_nvenc"@);
        assert("hevc_vaapi"@ =~= family + "_vaapi"@);
        assert("hevc_qsv"@ =~= family + "_qsv"@);
        assert("hevc_amf"@ =~= family + "_amf"@);
    }
}

/// A search looks up the names of its family one after the other, the next one
/// only once the one before is known not to be built in, and never changes its
/// names or whether it is remembered. It goes on exactly until a name is found
/// or none is left.
pub proof fn law_search_goes_through_its_names(
    family: Seq<char>,
    record: bool,
    search: EncoderSearchView,
    available: bool,
)
    ensures
        EncoderSearchView::begun(family, record).wanted() == Some(preferences(family)[0]),
        EncoderSearchView::begun(family, record).record == record,
        EncoderSearchView::begun(family, record).chosen() is None,
        search.after(available).names == search.names,
        search.after(available).record == search.record,
        search.found ==> search.wanted() is None && search.after(available) == search,
        search.wanted() matches Some(name) ==> {
            &&& available ==> search.after(true).chosen() == Some(name)
            &&& available ==> search.after(true).wanted() is None
            &&& !available ==> search.after(false).chosen() is None
            &&& !available && search.tried + 1 < search.names.len() ==> search.after(
                false,
            ).wanted() == Some(search.names[search.tried + 1int])
            &&& !available && search.tried + 1 >= search.names.len() ==> search.after(
                false,
            ).wanted() is None
        },
{
}

/// Whether an encoder is built in, as `1` or `0`: `found` tells it of the
/// encoder that `name` names. Without a name it is `0`.
pub fn chuks_ffmpeg_has_encoder(name: Option<&[u8]>, found: bool) -> (code: i32)
    ensures
        code == (if crate::text::arg(name) is Some && found {
            1i32
        } else {
            0i32
        }),
{
    match cstr(name) {
        Some(_) => {
            if found {
                1
            } else {
                0
            }
        },
        None => 0,
    }
}

} // verus!
