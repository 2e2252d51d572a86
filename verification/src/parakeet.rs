//! Fetching the Parakeet model, an archive of several files.

use vstd::prelude::*;
use vstd::utf8::encode_utf8;

use crate::config::{join_path, joined};
use crate::http::{is_success, show_status, status_text, success};

verus! {

/// The name of the model, and of its directory.
pub const MODEL_NAME: &'static str = "sherpa-onnx-nemo-parakeet-tdt-0.6b-v2-int8";

/// Where the archive comes from.
pub const MODEL_URL: &'static str =
    "https://github.com/k2-fsa/sherpa-onnx/releases/download/asr-models/sherpa-onnx-nemo-parakeet-tdt-0.6b-v2-int8.tar.bz2";

/// The sample rate that the model expects.
pub const SAMPLE_RATE: i32 = 16000;

/// The number of features per frame.
pub const FEATURE_DIM: i32 = 80;

/// How tokens are picked.
pub const DECODING_METHOD: &'static str = "greedy_search";

/// The kind of model.
pub const MODEL_TYPE: &'static str = "nemo_transducer";

/// Why there is no model.
#[derive(Clone, Copy, Debug, PartialEq, Eq, Structural)]
pub enum ParakeetError {
    /// The server answered with this status.
    Refused(u16),
    /// The archive could not be unpacked.
    NotExtracted,
    /// Files are missing from the unpacked archive.
    MissingFiles,
}

impl ParakeetError {
    /// The message for the user.
    pub fn message(&self) -> (r: String)
        ensures
            r@ == (match *self {
                ParakeetError::Refused(status) => "Parakeet download failed: "@ + status_text(
                    status,
                ),
                ParakeetError::NotExtracted => "tar extraction failed"@,
                ParakeetError::MissingFiles => "Parakeet model missing files after extraction"@,
            }),
    {
        match self {
            ParakeetError::Refused(status) => {
                let mut out = "Parakeet download failed: ".to_string();
                out.append(show_status(*status).as_str());
                out
            },
            ParakeetError::NotExtracted => "tar extraction failed".to_string(),
            ParakeetError::MissingFiles =>
                "Parakeet model missing files after extraction".to_string(),
        }
    }
}

/// The directory of the model in `models`.
pub open spec fn model_dir(models: Seq<u8>) -> Seq<u8> {
    joined(models, encode_utf8(MODEL_NAME@))
}

/// The archive of the model in `models`.
pub open spec fn archive_file(models: Seq<u8>) -> Seq<u8> {
    joined(models, encode_utf8(MODEL_NAME@ + ".tar.bz2"@))
}

/// The files of the model.
#[derive(Debug)]
pub struct ModelFiles {
    /// Their directory.
    pub dir: Vec<u8>,
    /// The encoder, whose presence tells whether the model is there.
    pub encoder: Vec<u8>,
    /// The decoder.
    pub decoder: Vec<u8>,
    /// The joiner.
    pub joiner: Vec<u8>,
    /// The token list.
    pub tokens: Vec<u8>,
    /// The archive that they come in.
    pub archive: Vec<u8>,
}

/// The files of the model in the directory `models`.
pub fn model_files(models: &Vec<u8>) -> (r: ModelFiles)
    ensures
        r.dir@ == model_dir(models@),
        r.encoder@ == joined(model_dir(models@), encode_utf8("encoder.int8.onnx"@)),
        r.decoder@ == joined(model_dir(models@), encode_utf8("decoder.int8.onnx"@)),
        r.joiner@ == joined(model_dir(models@), encode_utf8("joiner.int8.onnx"@)),
        r.tokens@ == joined(model_dir(models@), encode_utf8("tokens.txt"@)),
        r.archive@ == archive_file(models@),
{
    let dir = join_path(models, MODEL_NAME);
    let mut archive_name = MODEL_NAME.to_string();
    archive_name.append(".tar.bz2");
    ModelFiles {
        encoder: join_path(&dir, "encoder.int8.onnx"),
        decoder: join_path(&dir, "decoder.int8.onnx"),
        joiner: join_path(&dir, "joiner.int8.onnx"),
        tokens: join_path(&dir, "tokens.txt"),
        archive: join_path(models, archive_name.as_str()),
        dir,
    }
}

/// Something that was done for the model, and how it went.
#[derive(Clone, Copy, Debug, PartialEq, Eq, Structural)]
pub enum ParakeetEvent {
    /// Looked for the encoder before anything else.
    Looked {
        /// Whether it is there.
        found: bool,
    },
    /// Asked for the archive.
    Answered {
        /// The status of the answer.
        status: u16,
    },
    /// Wrote the body of the answer to the archive's file and unpacked that.
    Extracted {
        /// Whether it could be unpacked.
        succeeded: bool,
    },
    /// Removed the archive's file and looked for the encoder again.
    LookedAgain {
        /// Whether it is there.
        found: bool,
    },
}

/// What to do next for the model.
#[derive(Clone, Copy, Debug, PartialEq, Eq, Structural)]
pub enum ParakeetStep {
    /// Nothing: the model is there.
    Ready,
    /// Ask for the archive.
    Download,
    /// Write the body of the answer to the archive's file and unpack that.
    Extract,
    /// Remove the archive's file and look for the encoder again.
    LookAgain,
}

/// The step that follows on an event.
pub open spec fn step_after(event: ParakeetEvent) -> Result<ParakeetStep, ParakeetError> {
    match event {
        ParakeetEvent::Looked { found } => if found {
            Ok(ParakeetStep::Ready)
        } else {
            Ok(ParakeetStep::Download)
        },
        ParakeetEvent::Answered { status } => if success(status) {
            Ok(ParakeetStep::Extract)
        } else {
            Err(ParakeetError::Refused(status))
        },
        ParakeetEvent::Extracted { succeeded } => if succeeded {
            Ok(ParakeetStep::LookAgain)
        } else {
            Err(ParakeetError::NotExtracted)
        },
        ParakeetEvent::LookedAgain { found } => if found {
            Ok(ParakeetStep::Ready)
        } else {
            Err(ParakeetError::MissingFiles)
        },
    }
}

/// The model counts as ready only when its encoder was found just now.
pub proof fn ready_means_found(event: ParakeetEvent)
    ensures
        step_after(event) == Ok::<ParakeetStep, ParakeetError>(ParakeetStep::Ready) <==> event
            == (ParakeetEvent::Looked { found: true }) || event == (ParakeetEvent::LookedAgain {
            found: true,
        }),
{
}

/// Goes on from an event.
pub fn ensure_model(event: ParakeetEvent) -> (r: Result<ParakeetStep, ParakeetError>)
    ensures
        r == step_after(event),
{
    match event {
        ParakeetEvent::Looked { found } => if found {
            Ok(ParakeetStep::Ready)
        } else {
            Ok(ParakeetStep::Download)
        },
        ParakeetEvent::Answered { status } => if is_success(status) {
            Ok(ParakeetStep::Extract)
        } else {
            Err(ParakeetError::Refused(status))
        },
        ParakeetEvent::Extracted { succeeded } => if succeeded {
            Ok(ParakeetStep::LookAgain)
        } else {
            Err(ParakeetError::NotExtracted)
        },
        ParakeetEvent::LookedAgain { found } => if found {
            Ok(ParakeetStep::Ready)
        } else {
            Err(ParakeetError::MissingFiles)
        },
    }
}

/// A model that is there is not fetched again; one that is not is asked for, unpacked
/// and looked for once more, and each failure on the way ends it with its own error.
pub proof fn model_is_fetched_once(status: u16)
    ensures
        step_after(ParakeetEvent::Looked { found: false }) == Ok::<ParakeetStep, ParakeetError>(
            ParakeetStep::Download,
        ),
        200 <= status <= 299 ==> step_after(ParakeetEvent::Answered { status }) == Ok::<
            ParakeetStep,
            ParakeetError,
        >(ParakeetStep::Extract),
        !(200 <= status <= 299) ==> step_after(ParakeetEvent::Answered { status }) == Err::<
            ParakeetStep,
            ParakeetError,
        >(ParakeetError::Refused(status)),
        step_after(ParakeetEvent::Extracted { succeeded: true }) == Ok::<
            ParakeetStep,
            ParakeetError,
        >(ParakeetStep::LookAgain),
        step_after(ParakeetEvent::Extracted { succeeded: false }) == Err::<
            ParakeetStep,
            ParakeetError,
        >(ParakeetError::NotExtracted),
        step_after(ParakeetEvent::LookedAgain { found: false }) == Err::<
            ParakeetStep,
            ParakeetError,
        >(ParakeetError::MissingFiles),
{
}

/// The model unpacks in the directory of the models, into a directory of its name,
/// and its archive lies beside that.
pub proof fn model_lies_among_the_models(models: Seq<u8>)
    requires
        models.len() > 0,
        models.last() != 0x2f,
    ensures
        model_dir(models) == models + encode_utf8(
            "/sherpa-onnx-nemo-parakeet-tdt-0.6b-v2-int8"@,
        ),
        archive_file(models) == models + encode_utf8(
            "/sherpa-onnx-nemo-parakeet-tdt-0.6b-v2-int8.tar.bz2"@,
        ),
{
    reveal_strlit("sherpa-onnx-nemo-parakeet-tdt-0.6b-v2-int8");
    reveal_strlit("/sherpa-onnx-nemo-parakeet-tdt-0.6b-v2-int8");
    reveal_strlit("/sherpa-onnx-nemo-parakeet-tdt-0.6b-v2-int8.tar.bz2");
    reveal_strlit(".tar.bz2");
    let archive = MODEL_NAME@ + ".tar.bz2"@;
    vstd::utf8::is_ascii_chars_encode_utf8(MODEL_NAME@);
    vstd::utf8::is_ascii_chars_encode_utf8("/sherpa-onnx-nemo-parakeet-tdt-0.6b-v2-int8"@);
    vstd::utf8::is_ascii_chars_encode_utf8("/sherpa-onnx-nemo-parakeet-tdt-0.6b-v2-int8.tar.bz2"@);
    vstd::utf8::is_ascii_chars_encode_utf8(archive);
    assert(model_dir(models) =~= models + encode_utf8(
        "/sherpa-onnx-nemo-parakeet-tdt-0.6b-v2-int8"@,
    ));
    assert(archive_file(models) =~= models + encode_utf8(
        "/sherpa-onnx-nemo-parakeet-tdt-0.6b-v2-int8.tar.bz2"@,
    ));
}

} // verus!
