use runtimes::execution::{
    ExecutionId, ExecutionState, ExecutionStatus, ExecutionView, KernelMessage,
};
use runtimes::mime::{MimeBundle, MimeEntry, MimeType, MimeValue};
use runtimes::outputs::{LineHeight, OutputType};

fn new_view() -> ExecutionView {
    ExecutionView::new(ExecutionId(String::from("exec-1")))
}

fn text_entry(mime_type: MimeType, text: &str) -> MimeEntry {
    MimeEntry { mime_type, value: MimeValue::Text(String::from(text)) }
}

fn stream(text: &str) -> KernelMessage {
    KernelMessage::StreamContent { text: String::from(text) }
}

fn error_output(ename: &str, evalue: &str, traceback: &[&str]) -> KernelMessage {
    KernelMessage::ErrorOutput {
        ename: String::from(ename),
        evalue: String::from(evalue),
        traceback: traceback.iter().map(|line| String::from(*line)).collect(),
    }
}

#[test]
fn stream_chunks_merge_when_adjacent() {
    let mut view = new_view();
    assert!(view.push_message(&stream("a")));
    assert!(view.push_message(&stream("b")));
    assert_eq!(view.outputs.len(), 1);
    match &view.outputs[0] {
        OutputType::Stream(buffer) => assert_eq!(buffer.text(), "ab"),
        _ => panic!("expected a stream block"),
    }
}

#[test]
fn stream_merge_breaks_on_interruption() {
    let mut view = new_view();
    assert!(view.push_message(&stream("a")));
    assert!(view.push_message(&error_output("E", "boom", &["t1", "t2"])));
    assert!(view.push_message(&stream("b")));
    assert_eq!(view.outputs.len(), 3);
    match &view.outputs[0] {
        OutputType::Stream(buffer) => assert_eq!(buffer.text(), "a"),
        _ => panic!("expected a stream block first"),
    }
    match &view.outputs[1] {
        OutputType::ErrorOutput { ename, evalue, traceback } => {
            assert_eq!(ename, "E");
            assert_eq!(evalue, "boom");
            assert_eq!(traceback.text(), "t1\nt2");
        }
        _ => panic!("expected an error block second"),
    }
    match &view.outputs[2] {
        OutputType::Stream(buffer) => assert_eq!(buffer.text(), "b"),
        _ => panic!("expected a stream block third"),
    }
}

#[test]
fn blocks_keep_arrival_order() {
    let mut view = new_view();
    let plain_only = MimeBundle::new(vec![text_entry(MimeType::Plain, "first")]);
    assert!(view.push_message(&KernelMessage::ExecuteResult { data: plain_only }));
    assert!(view.push_message(&error_output("E", "v", &["tb"])));
    assert!(view.push_message(&stream("tail")));
    assert_eq!(view.outputs.len(), 3);
    assert!(matches!(view.outputs[0], OutputType::Plain(_)));
    assert!(matches!(view.outputs[1], OutputType::ErrorOutput { .. }));
    assert!(matches!(view.outputs[2], OutputType::Stream(_)));
}

#[test]
fn execute_result_vs_display_data_asymmetry() {
    let mut result_view = new_view();
    assert!(result_view.push_message(&KernelMessage::ExecuteResult {
        data: MimeBundle::new(vec![text_entry(MimeType::Plain, "value")]),
    }));
    match &result_view.outputs[0] {
        OutputType::Plain(buffer) => assert_eq!(buffer.text(), "value"),
        _ => panic!("an ExecuteResult selected as plain text must give a plain block"),
    }

    let mut display_view = new_view();
    assert!(display_view.push_message(&KernelMessage::DisplayData {
        data: MimeBundle::new(vec![text_entry(MimeType::Plain, "value")]),
    }));
    match &display_view.outputs[0] {
        OutputType::Media(MimeType::Plain, MimeValue::Text(text)) => assert_eq!(text, "value"),
        _ => panic!("a DisplayData with the same mapping must give a media block"),
    }
}

#[test]
fn execute_result_markdown_becomes_plain_block() {
    let mut view = new_view();
    let data = MimeBundle::new(vec![text_entry(MimeType::Markdown, "# heading")]);
    assert!(view.push_message(&KernelMessage::ExecuteResult { data }));
    match &view.outputs[0] {
        OutputType::Plain(buffer) => assert_eq!(buffer.text(), "# heading"),
        _ => panic!("a markdown selection must give a plain block"),
    }
}

#[test]
fn non_textual_value_seeds_empty_text() {
    let mut view = new_view();
    let data = MimeBundle::new(vec![MimeEntry {
        mime_type: MimeType::Plain,
        value: MimeValue::Structured,
    }]);
    assert!(view.push_message(&KernelMessage::ExecuteResult { data }));
    match &view.outputs[0] {
        OutputType::Plain(buffer) => assert_eq!(buffer.text(), ""),
        _ => panic!("expected a plain block"),
    }
}

#[test]
fn unrepresentable_mapping_is_skipped() {
    let mut view = new_view();
    let data = MimeBundle::new(vec![MimeEntry {
        mime_type: MimeType::Other(String::from("image/png")),
        value: MimeValue::Structured,
    }]);
    assert!(!view.push_message(&KernelMessage::ExecuteResult { data }));
    let data = MimeBundle::new(vec![MimeEntry {
        mime_type: MimeType::Other(String::from("image/png")),
        value: MimeValue::Structured,
    }]);
    assert!(!view.push_message(&KernelMessage::DisplayData { data }));
    assert!(view.outputs.is_empty());
}

#[test]
fn unknown_message_kind_is_ignored() {
    let mut view = new_view();
    assert!(!view.push_message(&KernelMessage::Other));
    assert!(view.outputs.is_empty());
    assert_eq!(view.status, ExecutionStatus::Unknown);
}

#[test]
fn status_busy_then_idle_leaves_finished_and_no_blocks() {
    let mut view = new_view();
    assert!(view.push_message(&KernelMessage::Status {
        execution_state: ExecutionState::Busy,
    }));
    assert_eq!(view.status, ExecutionStatus::Executing);
    assert!(view.push_message(&KernelMessage::Status {
        execution_state: ExecutionState::Idle,
    }));
    assert_eq!(view.status, ExecutionStatus::Finished);
    assert!(view.outputs.is_empty());
}

#[test]
fn set_status_overwrites_unconditionally() {
    let mut view = new_view();
    view.set_status(ExecutionStatus::ConnectingToKernel);
    assert_eq!(view.status, ExecutionStatus::ConnectingToKernel);
    view.set_status(ExecutionStatus::Finished);
    assert_eq!(view.status, ExecutionStatus::Finished);
    assert!(view.outputs.is_empty());
}

#[test]
fn empty_output_fallback_reserves_one_line() {
    let view = new_view();
    assert_eq!(view.num_lines(), 1);
    assert_eq!(view.status, ExecutionStatus::Unknown);
    assert_eq!(view.status, ExecutionStatus::default());
    assert_eq!(view.fallback_status(), Some(ExecutionStatus::Unknown));
}

#[test]
fn fallback_disappears_once_output_arrives() {
    let mut view = new_view();
    assert!(view.push_message(&stream("out")));
    assert_eq!(view.fallback_status(), None);
}

#[test]
fn execution_id_is_kept() {
    let mut view = ExecutionView::new(ExecutionId(String::from("exec-42")));
    view.push_message(&stream("a"));
    view.set_status(ExecutionStatus::Executing);
    assert_eq!(view.execution_id, ExecutionId(String::from("exec-42")));
}

#[test]
fn aggregate_line_height_sums_blocks() {
    let mut view = new_view();
    assert!(view.push_message(&stream("one\ntwo\n")));
    assert!(view.push_message(&error_output("E", "v", &["t1", "t2", "t3"])));
    // stream: 2 lines; error: 1 (ename) + 1 (evalue) + 3 (traceback) = 5
    assert_eq!(view.num_lines(), 7);
}

#[test]
fn aggregate_line_height_saturates() {
    let mut view = new_view();
    let long = "x\n".repeat(200);
    assert!(view.push_message(&stream(&long)));
    assert!(view.push_message(&error_output("E", "v", &[&long])));
    assert_eq!(view.num_lines(), 255);
}
