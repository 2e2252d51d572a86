//! Speech-to-text with whisper: fetching a model, and the text of a transcription.

use vstd::prelude::*;
use vstd::utf8::encode_utf8;

use crate::config::{
    join_path, joined, model_file, model_files_are_named_after_the_model, Config,
};
use crate::http::{is_success, show_status, status_text, success};
use crate::text::{same, trim, trimmed};

verus! {

/// Where the models come from.
pub const HF_BASE: &'static str = "https://huggingface.co/ggerganov/whisper.cpp/resolve/main";

/// The address of a whisper model.
pub open spec fn model_url(model: Seq<char>) -> Seq<char> {
    HF_BASE@ + "/"@ + model_file(model)
}

/// The file that a model is downloaded into before it takes its own name: the model
/// file in `dir` with the extension `part`. Where nothing but the extension is left
/// of the file name, that is the name, and `part` is added to it.
pub open spec fn part_file(dir: Seq<u8>, model: Seq<char>) -> Seq<u8> {
    let path = joined(dir, encode_utf8(model_file(model)));
    let stem = path.take(path.len() - 4);
    if stem.len() == 0 || stem.last() == 0x2f {
        path + encode_utf8(".part"@)
    } else {
        stem + encode_utf8(".part"@)
    }
}

/// A speech recogniser.
#[derive(Clone, Copy, Debug, PartialEq, Eq, Structural)]
pub enum Recogniser {
    /// Whisper, with the configured model.
    Whisper,
    /// Parakeet.
    Parakeet,
}

/// The recogniser that the settings ask for. Anything but the name of Parakeet means
/// whisper.
pub fn recogniser(cfg: &Config) -> (r: Recogniser)
    ensures
        r == (if cfg.provider@ == "parakeet"@ {
            Recogniser::Parakeet
        } else {
            Recogniser::Whisper
        }),
{
    if same(cfg.provider.as_str(), "parakeet") {
        Recogniser::Parakeet
    } else {
        Recogniser::Whisper
    }
}

/// What is left to do to have a model.
#[derive(Debug)]
pub enum ModelStep {
    /// Nothing: it is in this file.
    Ready(Vec<u8>),
    /// Download it.
    Download {
        /// From here.
        url: String,
        /// Into this file, which is renamed when it is complete.
        part: Vec<u8>,
        /// To this name.
        path: Vec<u8>,
    },
}

/// The end of a path is the end of the name that was joined to it.
proof fn joined_ends_in_name(dir: Seq<u8>, name: Seq<u8>)
    ensures
        joined(dir, name).len() >= name.len(),
        joined(dir, name).skip(joined(dir, name).len() - name.len()) == name,
{
}

/// The encoding of two texts in a row is the encodings in a row.
proof fn encode_concat(a: Seq<char>, b: Seq<char>)
    ensures
        encode_utf8(a + b) == encode_utf8(a) + encode_utf8(b),
    decreases a.len(),
{
    if a.len() == 0 {
        assert(a + b == b);
    } else {
        assert((a + b).drop_first() == a.drop_first() + b);
        assert((a + b)[0] == a[0]);
        encode_concat(a.drop_first(), b);
    }
}

/// How to have the configured model in the directory `models_dir`. `found` says
/// whether its file is already there.
pub fn ensure_model(cfg: &Config, models_dir: Vec<u8>, found: bool) -> (r: ModelStep)
    ensures
        if found {
            r matches ModelStep::Ready(path) && path@ == joined(
                models_dir@,
                encode_utf8(model_file(cfg.whisper_model@)),
            )
        } else {
            r matches ModelStep::Download { url, part, path } && {
                &&& url@ == model_url(cfg.whisper_model@)
                &&& HF_BASE@.is_prefix_of(url@)
                &&& url@.len() == HF_BASE@.len() + 1 + cfg.whisper_model@.len() + 9
                &&& url@.subrange(
                    HF_BASE@.len() + 6int,
                    HF_BASE@.len() + 6int + cfg.whisper_model@.len(),
                ) == cfg.whisper_model@
                &&& ".bin"@.is_suffix_of(url@)
                &&& part@ == part_file(models_dir@, cfg.whisper_model@)
                &&& path@ == joined(models_dir@, encode_utf8(model_file(cfg.whisper_model@)))
            }
        },
{
    let name = cfg.model_file_name();
    let path = join_path(&models_dir, name.as_str());
    if found {
        return ModelStep::Ready(path);
    }
    let mut url = HF_BASE.to_string();
    url.append("/");
    url.append(name.as_str());
    proof {
        models_are_fetched_by_name(cfg.whisper_model@);
        let front = "ggml-"@ + cfg.whisper_model@;
        encode_concat(front, ".bin"@);
        reveal_strlit(".bin");
        vstd::utf8::is_ascii_chars_encode_utf8(".bin"@);
        assert(encode_utf8(".bin"@).len() == 4);
        joined_ends_in_name(models_dir@, encode_utf8(name@));
    }
    let keep: usize = path.len() - 4;
    let mut part: Vec<u8> = Vec::new();
    let mut i: usize = 0;
    while i < keep
        invariant
            i <= keep <= path@.len(),
            part@ == path@.take(i as int),
        decreases keep - i,
    {
        part.push(path[i]);
        i += 1;
    }
    let stemless: bool = keep == 0 || path[keep - 1] == 0x2f;
    if stemless {
        while i < path.len()
            invariant
                i <= path@.len(),
                part@ == path@.take(i as int),
            decreases path@.len() - i,
        {
            part.push(path[i]);
            i += 1;
        }
    }
    let ghost base = part@;
    let tail = ".part".as_bytes();
    part.extend_from_slice(tail);
    assert(part@ == base + encode_utf8(".part"@));
    ModelStep::Download { url, part, path }
}

/// Why there is no model.
#[derive(Debug)]
pub enum ModelError {
    /// The server answered with this status to a request for this address.
    Refused {
        /// The status.
        status: u16,
        /// The address.
        url: String,
    },
}

impl ModelError {
    /// The message for the user.
    pub fn message(&self) -> (r: String)
        ensures
            r@ == (match *self {
                ModelError::Refused { status, url } => "model download failed ("@ + status_text(
                    status,
                ) + "): "@ + url@,
            }),
    {
        match self {
            ModelError::Refused { status, url } => {
                let mut out = "model download failed (".to_string();
                out.append(show_status(*status).as_str());
                out.append("): ");
                out.append(url.as_str());
                out
            },
        }
    }
}

/// Whether the body of an answer is the model, by the status of the answer.
pub fn downloaded(status: u16, url: &str) -> (r: Result<(), ModelError>)
    ensures
        if success(status) {
            r is Ok
        } else {
            r matches Err(ModelError::Refused { status: s, url: u }) && s == status && u@ == url@
        },
{
    if is_success(status) {
        Ok(())
    } else {
        Err(ModelError::Refused { status, url: url.to_string() })
    }
}

/// The number of threads to transcribe with: as many as the machine runs at once,
/// or four where it does not say.
pub fn thread_count(available: Option<usize>) -> (r: i32)
    ensures
        r == (match available {
            Some(n) => n as i32,
            None => 4,
        }),
{
    match available {
        Some(n) => n as i32,
        None => 4,
    }
}

/// The language to hand to whisper: none where it is to find out by itself.
pub fn language_hint(language: &str) -> (r: Option<&str>)
    ensures
        match r {
            Some(hint) => hint@ == language@ && language@ != "auto"@,
            None => language@ == "auto"@,
        },
{
    if same(language, "auto") {
        None
    } else {
        Some(language)
    }
}

/// The segments in a row, without those that could not be read.
pub open spec fn segments_text(segments: Seq<Option<String>>) -> Seq<char>
    decreases segments.len(),
{
    if segments.len() == 0 {
        seq![]
    } else {
        segments_text(segments.drop_last()) + (match segments.last() {
            Some(text) => text@,
            None => seq![],
        })
    }
}

/// The transcript out of the segments that whisper found.
pub fn join_segments(segments: &Vec<Option<String>>) -> (r: String)
    ensures
        r@ == trimmed(segments_text(segments@)),
{
    let mut text = String::new();
    let mut i: usize = 0;
    while i < segments.len()
        invariant
            i <= segments@.len(),
            text@ == segments_text(segments@.take(i as int)),
        decreases segments@.len() - i,
    {
        assert(segments@.take(i + 1).drop_last() == segments@.take(i as int));
        match &segments[i] {
            Some(segment) => text.append(segment.as_str()),
            None => {},
        }
        i += 1;
    }
    assert(segments@.take(i as int) == segments@);
    trim(text.as_str())
}

/// The address of a model is the base, a slash and the file name of the model: its
/// name with nothing added but "ggml-" in front and ".bin" behind.
pub proof fn models_are_fetched_by_name(model: Seq<char>)
    ensures
        HF_BASE@.is_prefix_of(model_url(model)),
        "/ggml-"@ == model_url(model).subrange(HF_BASE@.len() as int, HF_BASE@.len() + 6int),
        model_url(model).subrange(HF_BASE@.len() + 6int, HF_BASE@.len() + 6int + model.len())
            == model,
        ".bin"@.is_suffix_of(model_url(model)),
        model_url(model).len() == HF_BASE@.len() + 1 + model.len() + 9,
{
    reveal_strlit("/");
    reveal_strlit("ggml-");
    reveal_strlit("/ggml-");
    reveal_strlit(".bin");
    model_files_are_named_after_the_model(model);
    let url = model_url(model);
    let name = model_file(model);
    let at = HF_BASE@.len() as int;
    assert(HF_BASE@ =~= url.subrange(0, at));
    assert(url.skip(at + 1) =~= name);
    assert(name.subrange(0, 5) == "ggml-"@);
    assert forall|i: int| 0 <= i < 6 implies #[trigger] "/ggml-"@[i] == url[at + i] by {
        if i > 0 {
            assert(url[at + i] == name[i - 1]);
            assert(name.subrange(0, 5)[i - 1] == name[i - 1]);
        }
    }
    assert("/ggml-"@ =~= url.subrange(at, at + 6));
    assert(url.subrange(at + 6, at + 6 + model.len()) =~= name.subrange(5, 5int + model.len()));
    assert(name.subrange(name.len() - 4, name.len() as int) == ".bin"@);
    assert(".bin"@ =~= url.subrange(url.len() - 4, url.len() as int));
}

/// A download stands beside the model's own file until it is complete: the two paths
/// differ only in that one ends in ".part" where the other ends in ".bin".
pub proof fn downloads_stand_beside_the_model(dir: Seq<u8>, model: Seq<char>)
    requires
        model.len() == 0 || model.last() != '/',
    ensures
        ({
            let path = joined(dir, encode_utf8(model_file(model)));
            let part = part_file(dir, model);
            &&& part.len() == path.len() + 1
            &&& part.take(path.len() - 4) == path.take(path.len() - 4)
            &&& encode_utf8(".bin"@).is_suffix_of(path)
            &&& encode_utf8(".part"@).is_suffix_of(part)
        }),
{
    reveal_strlit("ggml-");
    reveal_strlit(".bin");
    reveal_strlit(".part");
    vstd::utf8::is_ascii_chars_encode_utf8(".bin"@);
    vstd::utf8::is_ascii_chars_encode_utf8(".part"@);
    let bin = encode_utf8(".bin"@);
    let tail = encode_utf8(".part"@);
    let front = "ggml-"@ + model;
    let name = encode_utf8(model_file(model));
    let path = joined(dir, name);
    let stem = path.take(path.len() - 4);
    encode_concat(front, ".bin"@);
    joined_ends_in_name(dir, name);
    assert(bin.len() == 4 && tail.len() == 5);
    assert(name == encode_utf8(front) + bin);
    let back = path.skip(path.len() - name.len());
    assert(back == name);
    assert(bin =~= path.subrange(path.len() - 4, path.len() as int)) by {
        assert forall|i: int| 0 <= i < 4 implies #[trigger] bin[i] == path[path.len() - 4 + i] by {
            assert(name[name.len() - 4 + i] == bin[i]);
            assert(back[name.len() - 4 + i] == path[path.len() - 4 + i]);
        }
    }
    last_byte_is_no_slash(front);
    assert(stem.last() == encode_utf8(front).last()) by {
        assert(back[name.len() - 5] == path[path.len() - 5]);
    }
    let part = part_file(dir, model);
    assert(part == stem + tail);
    assert(part.take(path.len() - 4) =~= stem);
    assert(tail =~= part.subrange(part.len() - 5, part.len() as int));
}

/// The encoding of a text ends in the byte of a slash only if the text ends in one.
proof fn last_byte_is_no_slash(s: Seq<char>)
    requires
        s.len() > 0,
        s.last() != '/',
    ensures
        encode_utf8(s).len() > 0,
        encode_utf8(s).last() != 0x2f,
{
    let front = s.drop_last();
    let back = seq![s.last()];
    assert(s == front + back);
    encode_concat(front, back);
    assert(back.drop_first() == Seq::<char>::empty());
    assert(encode_utf8(Seq::<char>::empty()) == Seq::<u8>::empty());
    let bytes = vstd::utf8::encode_scalar(s.last() as u32);
    assert(encode_utf8(back) == bytes + Seq::<u8>::empty());
    assert(bytes + Seq::<u8>::empty() == bytes);
    scalar_byte_is_no_slash(s.last());
}

proof fn scalar_byte_is_no_slash(c: char)
    requires
        c != '/',
    ensures
        vstd::utf8::encode_scalar(c as u32).len() > 0,
        vstd::utf8::encode_scalar(c as u32).last() != 0x2f,
{
    let v = c as u32;
    assert((0x80u8 | ((v & 0x3f) as u8)) != 0x2fu8) by (bit_vector);
    assert(v <= 0x7f && v != 0x2f ==> ((v & 0x7f) as u8) != 0x2fu8) by (bit_vector);
    assert(v != 0x2f);
}

/// The segments of two lists in a row are those of the first, then those of the
/// second.
pub proof fn segments_follow_on_each_other(a: Seq<Option<String>>, b: Seq<Option<String>>)
    ensures
        segments_text(a + b) == segments_text(a) + segments_text(b),
    decreases b.len(),
{
    if b.len() == 0 {
        assert(a + b == a);
        assert(segments_text(a) + segments_text(b) == segments_text(a));
    } else {
        segments_follow_on_each_other(a, b.drop_last());
        assert((a + b).drop_last() == a + b.drop_last());
        assert((a + b).last() == b.last());
    }
}

/// A segment that was read is in the transcript as it is; one that was not adds
/// nothing.
pub proof fn every_segment_counts(text: String)
    ensures
        segments_text(seq![]) == Seq::<char>::empty(),
        segments_text(seq![Some(text)]) == text@,
        segments_text(seq![None]) == Seq::<char>::empty(),
{
    let none = Seq::<Option<String>>::empty();
    assert(seq![Some(text)].drop_last() == none);
    assert(seq![None::<String>].drop_last() == none);
    assert(segments_text(none) == Seq::<char>::empty());
    assert(segments_text(seq![Some(text)]) =~= text@);
    assert(segments_text(seq![None::<String>]) =~= Seq::<char>::empty());
}

} // verus!
