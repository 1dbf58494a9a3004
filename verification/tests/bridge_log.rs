use job_agent::bridge_log::{connect_failed_notice, connected_notice, log_frame_step, LogFrame, LogStep};

#[test]
fn text_and_utf8_binary_frames_are_forwarded() {
    match log_frame_step(LogFrame::Text("step 1".to_string())) {
        LogStep::Forward(l) => assert_eq!(l, "step 1"),
        other => panic!("unexpected {:?}", other),
    }
    match log_frame_step(LogFrame::Binary("日志".as_bytes().to_vec())) {
        LogStep::Forward(l) => assert_eq!(l, "日志"),
        other => panic!("unexpected {:?}", other),
    }
}

#[test]
fn invalid_binary_and_other_frames_are_skipped() {
    assert!(matches!(log_frame_step(LogFrame::Binary(vec![0xff, 0xfe])), LogStep::Skip));
    assert!(matches!(log_frame_step(LogFrame::Other), LogStep::Skip));
}

#[test]
fn closing_and_failures_reconnect_with_notice() {
    match log_frame_step(LogFrame::Close) {
        LogStep::Closed(n) => assert_eq!(n, "[ws] bridge 日志连接已关闭，准备重连"),
        other => panic!("unexpected {:?}", other),
    }
    match log_frame_step(LogFrame::Error("reset".to_string())) {
        LogStep::Failed(n) => assert_eq!(n, "[ws] bridge 日志流错误: reset"),
        other => panic!("unexpected {:?}", other),
    }
    assert_eq!(connected_notice(), "[ws] 已连接 bridge 实时日志");
    assert_eq!(connect_failed_notice("refused"), "[ws] 连接 bridge 日志失败: refused");
}
