//! The output block: one rendered unit of execution output, and its
//! advisory line-height computation.

use vstd::prelude::*;
use crate::mime::{MimeType, MimeTypeModel, MimeValue};
use crate::terminal::{line_count, sat_u8, str_line_count, TerminalOutput};

verus! {

/// One unit in the aggregator's ordered output sequence. Exactly one variant
/// is active; once appended, a block keeps its variant for good, and only a
/// stream block's buffer (or an error's traceback) may grow in place.
pub enum OutputType {
    /// A fully-realized text result.
    Plain(TerminalOutput),
    /// A rich result the aggregator could not reduce to text, carried
    /// opaquely for a renderer.
    Media(MimeType, MimeValue),
    /// Incrementally-growing stream text; consecutive chunks of stream
    /// output merge into one such block.
    Stream(TerminalOutput),
    /// A structured failure: short name, short value, multi-line trace.
    ErrorOutput { ename: String, evalue: String, traceback: TerminalOutput },
}

/// Mathematical model of an [`OutputType`].
pub enum OutputModel {
    Plain { text: Seq<char> },
    Media { mime: MimeTypeModel, text: Option<Seq<char>> },
    Stream { text: Seq<char> },
    ErrorOutput { ename: Seq<char>, evalue: Seq<char>, traceback: Seq<char> },
}

impl View for OutputType {
    type V = OutputModel;

    open spec fn view(&self) -> OutputModel {
        match self {
            OutputType::Plain(buffer) => OutputModel::Plain { text: buffer@ },
            OutputType::Media(mime_type, value) => OutputModel::Media {
                mime: mime_type@,
                text: value@,
            },
            OutputType::Stream(buffer) => OutputModel::Stream { text: buffer@ },
            OutputType::ErrorOutput { ename, evalue, traceback } => OutputModel::ErrorOutput {
                ename: ename@,
                evalue: evalue@,
                traceback: traceback@,
            },
        }
    }
}

/// The exact number of text lines a block occupies when rendered: buffers
/// report their own span, a rich value counts the lines of its textual form
/// (none when it has no textual form), and an error sums its three parts.
pub open spec fn output_line_count(b: OutputModel) -> nat {
    match b {
        OutputModel::Plain { text } => line_count(text),
        OutputModel::Media { mime, text } => match text {
            Some(t) => line_count(t),
            None => 0,
        },
        OutputModel::Stream { text } => line_count(text),
        OutputModel::ErrorOutput { ename, evalue, traceback } => line_count(ename) + line_count(
            evalue,
        ) + line_count(traceback),
    }
}

/// An estimate of how many text lines a value occupies when rendered, as an
/// unsigned integer capped by saturating arithmetic.
pub trait LineHeight: Sized {
    /// What [`Self::num_lines`] returns.
    spec fn spec_num_lines(&self) -> u8;

    /// The expected number of rendered lines, clamped to `u8`.
    fn num_lines(&self) -> (n: u8)
        ensures
            n == self.spec_num_lines(),
    ;
}

impl LineHeight for OutputType {
    open spec fn spec_num_lines(&self) -> u8 {
        sat_u8(output_line_count(self@))
    }

    fn num_lines(&self) -> (n: u8) {
        match self {
            OutputType::Plain(buffer) => buffer.num_lines(),
            OutputType::Media(_mime_type, value) => match value {
                MimeValue::Text(s) => str_line_count(s.as_str()),
                MimeValue::Structured => 0,
            },
            OutputType::Stream(buffer) => buffer.num_lines(),
            OutputType::ErrorOutput { ename, evalue, traceback } => {
                let mut height: u8 = 0;
                height = height.saturating_add(str_line_count(ename.as_str()));
                height = height.saturating_add(str_line_count(evalue.as_str()));
                height = height.saturating_add(traceback.num_lines());
                height
            },
        }
    }
}

} // verus!
