use datadog_cli::shaping::{
    should_truncate_stack_trace, truncate_long_string, truncate_stack_trace,
};

#[test]
fn test_truncate_stack_trace_short() {
    let stack = "Line 1\nLine 2\nLine 3";
    let result = truncate_stack_trace(stack, 5);
    assert_eq!(result, stack);
}

#[test]
fn test_truncate_stack_trace_long() {
    let stack = "Line 1\nLine 2\nLine 3\nLine 4\nLine 5\nLine 6";
    let result = truncate_stack_trace(stack, 3);
    assert!(result.contains("Line 1"));
    assert!(result.contains("Line 2"));
    assert!(result.contains("Line 3"));
    assert!(result.contains("... (3 more lines)"));
    assert!(!result.contains("Line 4"));
}

#[test]
fn test_response_filter_trait() {
    assert!(should_truncate_stack_trace(None));
    assert!(!should_truncate_stack_trace(Some(true)));
}

#[test]
fn stack_trace_exact_text() {
    let stack = "a\r\nb\nc\nd\n";
    assert_eq!(truncate_stack_trace(stack, 2), "a\nb\n... (2 more lines)");
    assert_eq!(truncate_stack_trace(stack, 4), stack);
    assert_eq!(truncate_stack_trace(stack, 0), "\n... (4 more lines)");
    assert_eq!(truncate_stack_trace("", 0), "");
}

#[test]
fn stack_trace_many_lines() {
    let stack: Vec<String> = (0..125).map(|i| format!("frame {}", i)).collect();
    let text = stack.join("\n");
    let cut = truncate_stack_trace(&text, 10);
    assert!(cut.ends_with("frame 9\n... (115 more lines)"));
}

#[test]
fn long_strings_are_cut() {
    assert_eq!(truncate_long_string("abcdef", 3), "abc...");
    assert_eq!(truncate_long_string("abc", 3), "abc");
    assert_eq!(truncate_long_string("", 0), "");
}

#[test]
fn explicit_false_still_truncates() {
    assert!(should_truncate_stack_trace(Some(false)));
}
