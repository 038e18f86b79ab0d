use remix_fetch::selection::{
    build_type_name, trim_answer, parse_architecture, parse_build_type, parse_stream, selection_from_answers,
    Architecture, BuildSelection, BuildType, Stream,
};

#[test]
fn empty_answers_select_defaults() {
    assert_eq!(parse_stream(""), Stream::Stable);
    assert_eq!(parse_architecture(""), Architecture::X86);
    assert_eq!(parse_build_type(""), BuildType::Release);
    assert_eq!(parse_stream("\n"), Stream::Stable);
}

#[test]
fn invalid_answers_select_defaults() {
    for answer in ["abc", "0", "3", "-1", "+", "1.5", "2x", "99999999999999999999999"] {
        assert_eq!(parse_stream(answer), Stream::Stable, "{}", answer);
        assert_eq!(parse_architecture(answer), Architecture::X86, "{}", answer);
    }
    for answer in ["abc", "0", "4", "-2", "", "  ", "debug"] {
        assert_eq!(parse_build_type(answer), BuildType::Release, "{}", answer);
    }
}

#[test]
fn numbered_answers_select_options() {
    assert_eq!(parse_stream("1"), Stream::Stable);
    assert_eq!(parse_stream("2"), Stream::Development);
    assert_eq!(parse_architecture("1"), Architecture::X86);
    assert_eq!(parse_architecture("2"), Architecture::X64);
    assert_eq!(parse_build_type("1"), BuildType::Release);
    assert_eq!(parse_build_type("2"), BuildType::DebugOptimized);
    assert_eq!(parse_build_type("3"), BuildType::Debug);
}

#[test]
fn answers_are_trimmed_and_read_as_numbers() {
    assert_eq!(parse_stream("  2\r\n"), Stream::Development);
    assert_eq!(parse_architecture("\t2 "), Architecture::X64);
    assert_eq!(parse_build_type("+3\n"), BuildType::Debug);
    assert_eq!(parse_build_type("02"), BuildType::DebugOptimized);
}

#[test]
fn selection_from_three_answers() {
    let sel = selection_from_answers("2\n", "2\n", "3\n");
    assert_eq!(
        sel,
        BuildSelection {
            stream: Stream::Development,
            architecture: Architecture::X64,
            build_type: BuildType::Debug,
        }
    );
    let fallback = selection_from_answers("x", "", "7");
    assert_eq!(
        fallback,
        BuildSelection {
            stream: Stream::Stable,
            architecture: Architecture::X86,
            build_type: BuildType::Release,
        }
    );
}

#[test]
fn build_type_names() {
    assert_eq!(build_type_name(BuildType::Release), "release");
    assert_eq!(build_type_name(BuildType::DebugOptimized), "debugoptimized");
    assert_eq!(build_type_name(BuildType::Debug), "debug");
}

#[test]
fn trimming_answers() {
    assert_eq!(trim_answer("  2\r\n"), "2");
    assert_eq!(trim_answer("\u{3000}1\u{a0}"), "1");
    assert_eq!(trim_answer(" \t\n "), "");
    assert_eq!(trim_answer(""), "");
    assert_eq!(trim_answer("a b"), "a b");
    assert_eq!(parse_stream("\u{2003}2\u{2029}"), Stream::Development);
    assert_eq!(parse_build_type(" \t "), BuildType::Release);
}
