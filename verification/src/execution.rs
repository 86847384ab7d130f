//! The execution aggregator: owns the ordered block sequence and the
//! execution status for one execution request, and folds kernel messages
//! into them one at a time.

use vstd::prelude::*;
use crate::mime::{spec_richest, text_or_empty, BundleModel, MimeBundle, MimeType, MimeTypeModel};
use crate::outputs::{output_line_count, LineHeight, OutputModel, OutputType};
use crate::terminal::{sat_u8, TerminalOutput};

verus! {

/// The busy/idle state a kernel reports about itself.
#[derive(Clone, Copy, Debug, PartialEq, Eq, Structural)]
pub enum ExecutionState {
    Busy,
    Idle,
}

/// One unit of execution feedback, already decoded and typed upstream.
pub enum KernelMessage {
    /// The result of executing code, offered under competing MIME types.
    ExecuteResult { data: MimeBundle },
    /// A rich display update, same shape as a result.
    DisplayData { data: MimeBundle },
    /// One chunk of stdout/stderr-like stream text.
    StreamContent { text: String },
    /// A structured error: short name, short value, traceback lines.
    ErrorOutput { ename: String, evalue: String, traceback: Vec<String> },
    /// A kernel status transition.
    Status { execution_state: ExecutionState },
    /// Any other message kind; the aggregator ignores it.
    Other,
}

/// Mathematical model of a [`KernelMessage`].
pub enum MessageModel {
    ExecuteResult { data: BundleModel },
    DisplayData { data: BundleModel },
    StreamContent { text: Seq<char> },
    ErrorOutput { ename: Seq<char>, evalue: Seq<char>, traceback: Seq<Seq<char>> },
    Status { execution_state: ExecutionState },
    Other,
}

impl View for KernelMessage {
    type V = MessageModel;

    open spec fn view(&self) -> MessageModel {
        match self {
            KernelMessage::ExecuteResult { data } => MessageModel::ExecuteResult { data: data@ },
            KernelMessage::DisplayData { data } => MessageModel::DisplayData { data: data@ },
            KernelMessage::StreamContent { text } => MessageModel::StreamContent { text: text@ },
            KernelMessage::ErrorOutput { ename, evalue, traceback } => MessageModel::ErrorOutput {
                ename: ename@,
                evalue: evalue@,
                traceback: traceback.deep_view(),
            },
            KernelMessage::Status { execution_state } => MessageModel::Status {
                execution_state: *execution_state,
            },
            KernelMessage::Other => MessageModel::Other,
        }
    }
}

/// The status of one execution request. `Unknown` is the initial default;
/// status messages drive it to `Executing` and `Finished`, and the
/// surrounding system may force any value explicitly.
#[derive(Clone, Copy, Debug, PartialEq, Eq, Structural)]
pub enum ExecutionStatus {
    Unknown,
    ConnectingToKernel,
    Executing,
    Finished,
}

impl Default for ExecutionStatus {
    fn default() -> (s: Self)
        ensures
            s == ExecutionStatus::Unknown,
    {
        ExecutionStatus::Unknown
    }
}

/// The opaque identifier of one execution request.
#[derive(Debug, PartialEq, Eq, Hash)]
pub struct ExecutionId(pub String);

impl View for ExecutionId {
    type V = Seq<char>;

    open spec fn view(&self) -> Seq<char> {
        self.0@
    }
}

impl Clone for ExecutionId {
    fn clone(&self) -> (r: Self)
        ensures
            r == *self,
    {
        ExecutionId(self.0.clone())
    }
}

/// Mathematical model of an [`ExecutionView`]: the ordered block sequence
/// and the execution status.
pub struct ExecutionModel {
    pub outputs: Seq<OutputModel>,
    pub status: ExecutionStatus,
}

/// The last block of the sequence, when there is one.
pub open spec fn last_block(s: ExecutionModel) -> Option<OutputModel> {
    if s.outputs.len() == 0 {
        None
    } else {
        Some(s.outputs.last())
    }
}

/// The block a result message appends once selection has picked `entry`:
/// a plain-text block seeded with the value's text for the two textual
/// types, and a media block carrying type and value otherwise.
pub open spec fn execute_result_block(entry: (MimeTypeModel, Option<Seq<char>>)) -> OutputModel {
    match entry.0 {
        MimeTypeModel::Markdown => OutputModel::Plain { text: text_or_empty(entry.1) },
        MimeTypeModel::Plain => OutputModel::Plain { text: text_or_empty(entry.1) },
        MimeTypeModel::Other(_) => OutputModel::Media { mime: entry.0, text: entry.1 },
    }
}

/// `lines` joined by single newlines, the first `i` of them.
pub open spec fn join_upto(lines: Seq<Seq<char>>, i: int) -> Seq<char>
    decreases i,
{
    if i <= 0 || i > lines.len() {
        Seq::<char>::empty()
    } else if i == 1 {
        lines[0]
    } else {
        join_upto(lines, i - 1) + seq!['\n'] + lines[i - 1]
    }
}

/// `lines` joined by single newlines.
pub open spec fn join_lines(lines: Seq<Seq<char>>) -> Seq<char> {
    join_upto(lines, lines.len() as int)
}

/// What accepting one message does to the aggregator's observable state:
/// the message-kind → effect table, as one transition function.
pub open spec fn step(s: ExecutionModel, m: MessageModel) -> ExecutionModel {
    match m {
        MessageModel::ExecuteResult { data } => match spec_richest(data) {
            Some(entry) => ExecutionModel {
                outputs: s.outputs.push(execute_result_block(entry)),
                status: s.status,
            },
            None => s,
        },
        MessageModel::DisplayData { data } => match spec_richest(data) {
            Some(entry) => ExecutionModel {
                outputs: s.outputs.push(OutputModel::Media { mime: entry.0, text: entry.1 }),
                status: s.status,
            },
            None => s,
        },
        MessageModel::StreamContent { text } => match last_block(s) {
            Some(OutputModel::Stream { text: prior }) => ExecutionModel {
                outputs: s.outputs.update(
                    s.outputs.len() - 1,
                    OutputModel::Stream { text: prior + text },
                ),
                status: s.status,
            },
            _ => ExecutionModel {
                outputs: s.outputs.push(OutputModel::Stream { text }),
                status: s.status,
            },
        },
        MessageModel::ErrorOutput { ename, evalue, traceback } => ExecutionModel {
            outputs: s.outputs.push(
                OutputModel::ErrorOutput { ename, evalue, traceback: join_lines(traceback) },
            ),
            status: s.status,
        },
        MessageModel::Status { execution_state } => ExecutionModel {
            outputs: s.outputs,
            status: match execution_state {
                ExecutionState::Busy => ExecutionStatus::Executing,
                ExecutionState::Idle => ExecutionStatus::Finished,
            },
        },
        MessageModel::Other => s,
    }
}

/// Whether the aggregator acts on `m` at all: result and display messages
/// whose mapping is unrepresentable, and unknown message kinds, are silent
/// no-ops; everything else changes (or may change) observable state.
pub open spec fn accepted(m: MessageModel) -> bool {
    match m {
        MessageModel::ExecuteResult { data } => spec_richest(data) is Some,
        MessageModel::DisplayData { data } => spec_richest(data) is Some,
        MessageModel::StreamContent { .. } => true,
        MessageModel::ErrorOutput { .. } => true,
        MessageModel::Status { .. } => true,
        MessageModel::Other => false,
    }
}

/// The sum of the blocks' line counts.
pub open spec fn total_line_count(blocks: Seq<OutputModel>) -> nat
    decreases blocks.len(),
{
    if blocks.len() == 0 {
        0
    } else {
        total_line_count(blocks.drop_last()) + output_line_count(blocks.last())
    }
}

/// The aggregator for one execution request: an ordered, append-only block
/// sequence (only the last block's buffer may grow in place) plus the
/// current execution status.
pub struct ExecutionView {
    pub execution_id: ExecutionId,
    pub outputs: Vec<OutputType>,
    pub status: ExecutionStatus,
}

impl View for ExecutionView {
    type V = ExecutionModel;

    open spec fn view(&self) -> ExecutionModel {
        ExecutionModel {
            outputs: self.outputs@.map_values(|o: OutputType| o@),
            status: self.status,
        }
    }
}

impl ExecutionView {
    /// A fresh aggregator for the given execution request: no outputs yet,
    /// status unknown.
    pub fn new(execution_id: ExecutionId) -> (v: Self)
        ensures
            v.execution_id == execution_id,
            v@.outputs == Seq::<OutputModel>::empty(),
            v@.status == ExecutionStatus::Unknown,
    {
        let v = ExecutionView {
            execution_id,
            outputs: Vec::new(),
            status: ExecutionStatus::Unknown,
        };
        proof {
            assert(v@.outputs =~= Seq::<OutputModel>::empty());
        }
        v
    }

    /// Accept one kernel message belonging to this execution and fold it
    /// into the aggregator, per the message-kind → effect table captured by
    /// [`step`]. Returns whether the message changed observable state, so a
    /// caller knows to redraw.
    pub fn push_message(&mut self, message: &KernelMessage) -> (changed: bool)
        ensures
            final(self)@ == step(old(self)@, message@),
            changed == accepted(message@),
            final(self).execution_id == old(self).execution_id,
    {
        match message {
            KernelMessage::ExecuteResult { data } => {
                match data.richest() {
                    Some((mime_type, value)) => {
                        let block = match &mime_type {
                            MimeType::Markdown | MimeType::Plain => OutputType::Plain(
                                TerminalOutput::from_text(value.as_text()),
                            ),
                            MimeType::Other(_) => OutputType::Media(mime_type, value),
                        };
                        let ghost prior = self@.outputs;
                        self.outputs.push(block);
                        proof {
                            assert(self@.outputs =~= prior.push(block@));
                        }
                        true
                    },
                    None => false,
                }
            },
            KernelMessage::DisplayData { data } => {
                match data.richest() {
                    Some((mime_type, value)) => {
                        let block = OutputType::Media(mime_type, value);
                        let ghost prior = self@.outputs;
                        self.outputs.push(block);
                        proof {
                            assert(self@.outputs =~= prior.push(block@));
                        }
                        true
                    },
                    None => false,
                }
            },
            KernelMessage::StreamContent { text } => {
                match self.apply_terminal_text(text.as_str()) {
                    Some(block) => {
                        let ghost prior = self@.outputs;
                        self.outputs.push(block);
                        proof {
                            assert(self@.outputs =~= prior.push(block@));
                        }
                    },
                    None => {},
                }
                true
            },
            KernelMessage::ErrorOutput { ename, evalue, traceback } => {
                let mut terminal = TerminalOutput::new();
                let n = traceback.len();
                let mut i: usize = 0;
                while i < n
                    invariant
                        n == traceback.len(),
                        i <= n,
                        terminal@ == join_upto(traceback.deep_view(), i as int),
                    decreases n - i,
                {
                    proof {
                        reveal_strlit("\n");
                        assert("\n"@ =~= seq!['\n']);
                    }
                    if i > 0 {
                        terminal.append_text("\n");
                    }
                    terminal.append_text(traceback[i].as_str());
                    proof {
                        let lines = traceback.deep_view();
                        assert(lines[i as int] == traceback[i as int]@);
                        if i == 0 {
                            assert(terminal@ =~= join_upto(lines, i + 1));
                        }
                    }
                    i += 1;
                }
                let block = OutputType::ErrorOutput {
                    ename: ename.clone(),
                    evalue: evalue.clone(),
                    traceback: terminal,
                };
                let ghost prior = self@.outputs;
                self.outputs.push(block);
                proof {
                    assert(self@.outputs =~= prior.push(block@));
                }
                true
            },
            KernelMessage::Status { execution_state } => {
                match execution_state {
                    ExecutionState::Busy => {
                        self.status = ExecutionStatus::Executing;
                    },
                    ExecutionState::Idle => {
                        self.status = ExecutionStatus::Finished;
                    },
                }
                true
            },
            KernelMessage::Other => false,
        }
    }

    /// Merge-or-create for stream text: when the last block is a stream
    /// block, grow its buffer in place and hand back nothing; otherwise hand
    /// back a fresh stream block holding `text`, for the caller to append.
    fn apply_terminal_text(&mut self, text: &str) -> (r: Option<OutputType>)
        ensures
            final(self).execution_id == old(self).execution_id,
            final(self)@.status == old(self)@.status,
            (match last_block(old(self)@) {
                Some(OutputModel::Stream { text: prior }) => r is None && final(self)@.outputs
                    == old(self)@.outputs.update(
                    old(self)@.outputs.len() - 1,
                    OutputModel::Stream { text: prior + text@ },
                ),
                _ => final(self)@.outputs == old(self)@.outputs && (match r {
                    Some(block) => block@ == (OutputModel::Stream { text: text@ }),
                    None => false,
                }),
            }),
    {
        let n = self.outputs.len();
        if n > 0 {
            let ghost prior_outputs = self@.outputs;
            let last = self.outputs.pop();
            match last {
                Some(OutputType::Stream(mut buffer)) => {
                    buffer.append_text(text);
                    self.outputs.push(OutputType::Stream(buffer));
                    proof {
                        assert(self@.outputs =~= prior_outputs.update(
                            prior_outputs.len() - 1,
                            OutputModel::Stream {
                                text: (match prior_outputs.last() {
                                    OutputModel::Stream { text: t } => t,
                                    _ => Seq::<char>::empty(),
                                }) + text@,
                            },
                        ));
                    }
                    return None;
                },
                Some(other) => {
                    self.outputs.push(other);
                    proof {
                        assert(self@.outputs =~= prior_outputs);
                    }
                },
                None => {},
            }
        }
        let mut buffer = TerminalOutput::new();
        buffer.append_text(text);
        proof {
            assert(Seq::<char>::empty() + text@ =~= text@);
        }
        Some(OutputType::Stream(buffer))
    }

    /// What the presentation layer falls back on: when no output block has
    /// arrived, it renders a fallback determined by the status alone; once
    /// there is output, it renders the blocks and no fallback.
    pub fn fallback_status(&self) -> (r: Option<ExecutionStatus>)
        ensures
            r == (if self@.outputs.len() == 0 {
                Some(self@.status)
            } else {
                None::<ExecutionStatus>
            }),
    {
        if self.outputs.is_empty() {
            Some(self.status)
        } else {
            None
        }
    }

    /// Force a status transition from outside the message stream.
    pub fn set_status(&mut self, status: ExecutionStatus)
        ensures
            final(self)@.status == status,
            final(self)@.outputs == old(self)@.outputs,
            final(self).execution_id == old(self).execution_id,
    {
        self.status = status;
    }
}

impl LineHeight for ExecutionView {
    open spec fn spec_num_lines(&self) -> u8 {
        if self@.outputs.len() == 0 {
            1u8
        } else {
            sat_u8(total_line_count(self@.outputs))
        }
    }

    /// The saturating sum over all blocks, or 1 when there is no output yet,
    /// reserving one line for the status fallback.
    fn num_lines(&self) -> (n: u8) {
        let count = self.outputs.len();
        if count == 0 {
            return 1;
        }
        let mut height: u8 = 0;
        let mut i: usize = 0;
        while i < count
            invariant
                count == self.outputs.len(),
                i <= count,
                height == sat_u8(total_line_count(self@.outputs.take(i as int))),
            decreases count - i,
        {
            let h = self.outputs[i].num_lines();
            proof {
                let blocks = self@.outputs;
                assert(blocks.take(i + 1 as int).drop_last() =~= blocks.take(i as int));
                assert(blocks.take(i + 1 as int).last() == blocks[i as int]);
            }
            height = height.saturating_add(h);
            i += 1;
        }
        proof {
            assert(self@.outputs.take(count as int) =~= self@.outputs);
        }
        height
    }
}

} // verus!
