use flox_debugger::shell::Shell;
use flox_debugger::trace::{
    fish_frames, load_call_stack, parse_bash_or_zsh_line, parse_bash_or_zsh_lines,
    parse_bash_or_zsh_stack_trace, parse_fish_pair, parse_fish_segments, parse_fish_stack_trace,
    parse_stack_trace, resolve_call_site, CallCtx, TraceError,
};

fn chars(s: &str) -> Vec<char> {
    s.chars().collect()
}

fn ctx(file: &str, line: usize, function: &str) -> CallCtx {
    CallCtx { file: file.to_string(), line, function: function.to_string() }
}

fn absolute(path: &str) -> String {
    std::path::absolute(path).unwrap().to_str().unwrap().to_string()
}

#[test]
fn parses_bash_stack_trace() {
    let st = "
            foo:1:func1
            bar:2:func2
        ";
    let frames = parse_bash_or_zsh_stack_trace(st).unwrap();
    assert_eq!(frames.len(), 2);
    assert_eq!(frames[0].function, "func1".to_string());
    assert_eq!(frames[1].function, "func2".to_string());
}

#[test]
fn parses_fish_stack_trace() {
    let st = "in function 'otherfunc';        called on line 8 of file ./run.fish;in function 'myfunction';        called on line 19 of file ./run.fish";
    let frames = parse_fish_stack_trace(st).unwrap();
    assert_eq!(frames.len(), 2);
    assert_eq!(frames[0].function, "otherfunc".to_string());
    assert_eq!(frames[0].line, 8);
    assert_eq!(frames[1].function, "myfunction".to_string());
    assert_eq!(frames[1].line, 19);
}

#[test]
fn bash_trace_of_two_lines() {
    let frames = parse_bash_or_zsh_stack_trace("a.sh:10:main\nb.sh:2:helper").unwrap();
    assert_eq!(frames.len(), 2);
    assert_eq!(frames[0].file, "a.sh");
    assert_eq!(frames[0].line, 10);
    assert_eq!(frames[0].function, "main");
    assert_eq!(frames[1].file, "b.sh");
    assert_eq!(frames[1].line, 2);
    assert_eq!(frames[1].function, "helper");
}

#[test]
fn bash_trace_keeps_one_call_site_per_non_blank_line_in_order() {
    let input = "\n  one.sh:1:a  \n\n\t\ntwo.sh:22:b\n   \nthree.sh:333:c\n";
    let frames = parse_bash_or_zsh_stack_trace(input).unwrap();
    let got: Vec<(String, usize, String)> =
        frames.into_iter().map(|f| (f.file, f.line, f.function)).collect();
    assert_eq!(
        got,
        vec![
            ("one.sh".to_string(), 1, "a".to_string()),
            ("two.sh".to_string(), 22, "b".to_string()),
            ("three.sh".to_string(), 333, "c".to_string()),
        ]
    );
}

#[test]
fn bash_trace_without_lines_is_empty() {
    assert!(parse_bash_or_zsh_stack_trace("").unwrap().is_empty());
    assert!(parse_bash_or_zsh_stack_trace("  \n\t\n").unwrap().is_empty());
}

#[test]
fn bash_trace_rejects_wrong_field_count() {
    assert_eq!(parse_bash_or_zsh_stack_trace("a.sh:10").unwrap_err(), TraceError::FieldCount);
    assert_eq!(
        parse_bash_or_zsh_stack_trace("a.sh:10:main:extra").unwrap_err(),
        TraceError::FieldCount
    );
    assert_eq!(parse_bash_or_zsh_stack_trace("main").unwrap_err(), TraceError::FieldCount);
}

#[test]
fn bash_trace_rejects_bad_line_number() {
    assert_eq!(parse_bash_or_zsh_stack_trace("a.sh:x:main").unwrap_err(), TraceError::LineNumber);
    assert_eq!(parse_bash_or_zsh_stack_trace("a.sh:-1:main").unwrap_err(), TraceError::LineNumber);
    assert_eq!(parse_bash_or_zsh_stack_trace("a.sh::main").unwrap_err(), TraceError::LineNumber);
    assert_eq!(parse_bash_or_zsh_stack_trace("a.sh: 3:main").unwrap_err(), TraceError::LineNumber);
    assert_eq!(
        parse_bash_or_zsh_stack_trace("a.sh:99999999999999999999999999:main").unwrap_err(),
        TraceError::LineNumber
    );
}

#[test]
fn bash_trace_accepts_empty_file_and_function_fields() {
    let frames = parse_bash_or_zsh_stack_trace(":0:").unwrap();
    assert_eq!(frames.len(), 1);
    assert_eq!(frames[0].file, "");
    assert_eq!(frames[0].line, 0);
    assert_eq!(frames[0].function, "");
}

#[test]
fn bash_trace_fails_fast_with_the_first_error() {
    let input = "a.sh:1:f\nb.sh:x:g\nc.sh";
    assert_eq!(parse_bash_or_zsh_stack_trace(input).unwrap_err(), TraceError::LineNumber);
    let input = "a.sh:1:f\nc.sh\nb.sh:x:g";
    assert_eq!(parse_bash_or_zsh_stack_trace(input).unwrap_err(), TraceError::FieldCount);
}

#[test]
fn bash_line_and_lines_agree_with_the_whole_trace() {
    let line = parse_bash_or_zsh_line(&chars("a.sh:10:main")).unwrap();
    assert_eq!((line.file.as_str(), line.line, line.function.as_str()), ("a.sh", 10, "main"));
    let lines = vec![chars("a.sh:10:main"), chars("b.sh:2:helper")];
    let frames = parse_bash_or_zsh_lines(&lines).unwrap();
    assert_eq!(frames.len(), 2);
    assert_eq!(frames[1].function, "helper");
    assert_eq!(
        parse_bash_or_zsh_lines(&vec![chars("a.sh:10:main"), chars("oops")]).unwrap_err(),
        TraceError::FieldCount
    );
}

#[test]
fn fish_trace_of_one_pair() {
    let frames =
        parse_fish_stack_trace("in function 'inner';  called on line 4 of file ./x.fish").unwrap();
    assert_eq!(frames.len(), 1);
    assert_eq!(frames[0].function, "inner");
    assert_eq!(frames[0].line, 4);
    assert_eq!(frames[0].file, absolute("./x.fish"));
    assert!(std::path::Path::new(&frames[0].file).is_absolute());
}

#[test]
fn fish_trace_makes_paths_absolute() {
    let frames =
        parse_fish_stack_trace("in function 'f'; called on line 1 of file /tmp/run.fish").unwrap();
    assert_eq!(frames[0].file, "/tmp/run.fish");
    let frames =
        parse_fish_stack_trace("in function 'f'; called on line 1 of file run.fish").unwrap();
    assert_ne!(frames[0].file, "run.fish");
    assert_eq!(frames[0].file, absolute("run.fish"));
}

#[test]
fn fish_trace_returns_one_call_site_per_pair() {
    let input = "in function 'a';called on line 1 of file /x;;  ;in function 'b';called on line 2 of file /y;in function 'c';called on line 3 of file /z;";
    let frames = parse_fish_stack_trace(input).unwrap();
    let got: Vec<(String, usize, String)> =
        frames.into_iter().map(|f| (f.file, f.line, f.function)).collect();
    assert_eq!(
        got,
        vec![
            ("/x".to_string(), 1, "a".to_string()),
            ("/y".to_string(), 2, "b".to_string()),
            ("/z".to_string(), 3, "c".to_string()),
        ]
    );
}

#[test]
fn fish_trace_fails_on_odd_number_of_segments() {
    assert_eq!(
        parse_fish_stack_trace("in function 'a'").unwrap_err(),
        TraceError::UnevenSegments
    );
    let input = "in function 'a';called on line 1 of file /x;in function 'b'";
    assert_eq!(parse_fish_stack_trace(input).unwrap_err(), TraceError::UnevenSegments);
}

#[test]
fn fish_trace_without_segments_is_empty() {
    assert!(parse_fish_stack_trace("").unwrap().is_empty());
    assert!(parse_fish_stack_trace(" ; ;").unwrap().is_empty());
}

#[test]
fn fish_trace_rejects_malformed_function_name() {
    assert_eq!(
        parse_fish_stack_trace("in function inner;called on line 4 of file /x").unwrap_err(),
        TraceError::FunctionName
    );
    assert_eq!(
        parse_fish_stack_trace("in function 'inner;called on line 4 of file /x").unwrap_err(),
        TraceError::FunctionName
    );
}

#[test]
fn fish_trace_rejects_malformed_call_site() {
    assert_eq!(
        parse_fish_stack_trace("in function 'f';called on line").unwrap_err(),
        TraceError::MissingLineNumber
    );
    assert_eq!(
        parse_fish_stack_trace("in function 'f';called on line four of file /x").unwrap_err(),
        TraceError::LineNumber
    );
    assert_eq!(
        parse_fish_stack_trace("in function 'f';called on line 4 of file").unwrap_err(),
        TraceError::MissingFilePath
    );
    assert_eq!(
        parse_fish_stack_trace("in function 'f';called on line 4 of file  /x").unwrap_err(),
        TraceError::AbsolutePath
    );
}

#[test]
fn fish_trace_reports_the_first_error() {
    let input = "in function f;called on line;in function 'g'";
    assert_eq!(parse_fish_stack_trace(input).unwrap_err(), TraceError::FunctionName);
    let input = "in function 'f';called on line;in function g;called on line 1 of file /x";
    assert_eq!(parse_fish_stack_trace(input).unwrap_err(), TraceError::MissingLineNumber);
}

#[test]
fn fish_pair_keeps_the_path_as_written() {
    let site =
        parse_fish_pair(&chars("in function 'inner'"), &chars("called on line 4 of file ./x.fish"))
            .unwrap();
    assert_eq!(site.file, "./x.fish");
    assert_eq!(site.line, 4);
    assert_eq!(site.function, "inner");
    let site = parse_fish_pair(&chars("'a'b'c'"), &chars("a b c +7 d e f g h")).unwrap();
    assert_eq!((site.function.as_str(), site.line, site.file.as_str()), ("a", 7, "f"));
}

#[test]
fn fish_segments_are_read_in_pairs() {
    let segments = vec![
        chars("in function 'a'"),
        chars("called on line 1 of file /x"),
        chars("in function 'b'"),
        chars("called on line 2 of file /y"),
    ];
    let frames = parse_fish_segments(&segments).unwrap();
    assert_eq!(frames.len(), 2);
    assert_eq!(frames[1].function, "b");
    assert_eq!(frames[1].file, "/y");
    assert_eq!(
        parse_fish_segments(&segments[..3].to_vec()).unwrap_err(),
        TraceError::UnevenSegments
    );
}

#[test]
fn resolved_path_replaces_the_written_one() {
    let site = resolve_call_site(ctx("x.fish", 4, "inner"), Some("/abs/x.fish".to_string()))
        .unwrap();
    assert_eq!(site.file, "/abs/x.fish");
    assert_eq!(site.line, 4);
    assert_eq!(site.function, "inner");
    assert_eq!(
        resolve_call_site(ctx("x.fish", 4, "inner"), None).unwrap_err(),
        TraceError::AbsolutePath
    );
}

#[test]
fn stack_trace_is_read_in_the_dialect_of_the_shell() {
    let bash = "a.sh:10:main";
    let fish = "in function 'inner'; called on line 4 of file /x.fish";
    assert_eq!(parse_stack_trace(bash, Shell::Bash).unwrap()[0].function, "main");
    assert_eq!(parse_stack_trace(bash, Shell::Zsh).unwrap()[0].function, "main");
    assert_eq!(parse_stack_trace(fish, Shell::Fish).unwrap()[0].function, "inner");
    assert_eq!(parse_stack_trace(fish, Shell::Bash).unwrap_err(), TraceError::FieldCount);
    assert_eq!(parse_stack_trace(bash, Shell::Fish).unwrap_err(), TraceError::UnevenSegments);
}

#[test]
fn every_error_has_its_message() {
    assert_eq!(TraceError::FieldCount.message(), "failed to parse stack trace");
    assert_eq!(TraceError::LineNumber.message(), "failed to parse line number");
    assert_eq!(
        TraceError::UnevenSegments.message(),
        "uneven number of lines in fish stack trace"
    );
    assert_eq!(TraceError::FunctionName.message(), "failed to extract function name");
    assert_eq!(TraceError::MissingLineNumber.message(), "failed to extract line number");
    assert_eq!(TraceError::MissingFilePath.message(), "failed to extract file path");
    assert_eq!(TraceError::AbsolutePath.message(), "failed to get absolute path of file");
}

#[test]
fn call_stack_attaches_source_lines() {
    let sites = vec![ctx("a.sh", 1, "f"), ctx("b.sh", 2, "g"), ctx("c.sh", 3, "h")];
    let sources = vec![Some("one\ntwo\n".to_string()), None];
    let stack = load_call_stack(sites, &sources);
    assert_eq!(stack.frames.len(), 3);
    assert_eq!(stack.frames[0].ctx.file, "a.sh");
    assert_eq!(
        stack.frames[0].lines,
        Some(vec!["one".to_string(), "two".to_string(), "".to_string()])
    );
    assert_eq!(stack.frames[1].ctx.function, "g");
    assert_eq!(stack.frames[1].lines, None);
    assert_eq!(stack.frames[2].ctx.line, 3);
    assert_eq!(stack.frames[2].lines, None);
}

#[test]
fn call_stack_of_no_call_sites_is_empty() {
    let stack = load_call_stack(Vec::new(), &vec![Some("x".to_string())]);
    assert!(stack.frames.is_empty());
}

fn two_pairs() -> Vec<Vec<char>> {
    vec![
        chars("in function 'a'"),
        chars("called on line 1 of file x.fish"),
        chars("in function 'b'"),
        chars("called on line 2 of file ./lib/y.fish"),
    ]
}

fn fields(frames: Vec<CallCtx>) -> Vec<(String, usize, String)> {
    frames.into_iter().map(|f| (f.file, f.line, f.function)).collect()
}

#[test]
fn fish_frames_hold_the_given_absolute_paths() {
    let resolved = vec![Some("/work/x.fish".to_string()), Some("/work/lib/y.fish".to_string())];
    let frames = fish_frames(&two_pairs(), &resolved).unwrap();
    assert_eq!(
        fields(frames),
        vec![
            ("/work/x.fish".to_string(), 1, "a".to_string()),
            ("/work/lib/y.fish".to_string(), 2, "b".to_string()),
        ]
    );
}

#[test]
fn fish_frames_ignore_outcomes_beyond_the_pairs() {
    let resolved = vec![
        Some("/p".to_string()),
        Some("/q".to_string()),
        None,
        Some("/r".to_string()),
    ];
    let frames = fish_frames(&two_pairs(), &resolved).unwrap();
    assert_eq!(frames.len(), 2);
    assert_eq!(frames[1].file, "/q");
}

#[test]
fn fish_frames_fail_where_a_path_has_no_absolute_form() {
    let segments = two_pairs();
    assert_eq!(
        fish_frames(&segments, &vec![None, Some("/q".to_string())]).unwrap_err(),
        TraceError::AbsolutePath
    );
    assert_eq!(
        fish_frames(&segments, &vec![Some("/p".to_string()), None]).unwrap_err(),
        TraceError::AbsolutePath
    );
    assert_eq!(
        fish_frames(&segments, &vec![Some("/p".to_string())]).unwrap_err(),
        TraceError::AbsolutePath
    );
    assert_eq!(fish_frames(&segments, &Vec::new()).unwrap_err(), TraceError::AbsolutePath);
}

#[test]
fn fish_frames_without_pairs_look_at_no_path() {
    assert!(fish_frames(&Vec::new(), &Vec::new()).unwrap().is_empty());
    assert!(fish_frames(&Vec::new(), &vec![None]).unwrap().is_empty());
    let lone = vec![chars("in function 'a'")];
    assert_eq!(fish_frames(&lone, &Vec::new()).unwrap_err(), TraceError::UnevenSegments);
    assert_eq!(
        fish_frames(&lone, &vec![Some("/p".to_string())]).unwrap_err(),
        TraceError::UnevenSegments
    );
}

#[test]
fn fish_frames_report_the_first_failure() {
    let mut segments = two_pairs();
    segments[2] = chars("in function b");
    // The text of the first pair fails before any path is looked at.
    let mut broken = segments.clone();
    broken[1] = chars("called on line");
    assert_eq!(fish_frames(&broken, &Vec::new()).unwrap_err(), TraceError::MissingLineNumber);
    assert_eq!(fish_frames(&broken, &vec![None]).unwrap_err(), TraceError::MissingLineNumber);
    // The text of the second pair fails once the first pair has its path.
    assert_eq!(
        fish_frames(&segments, &vec![Some("/p".to_string())]).unwrap_err(),
        TraceError::FunctionName
    );
    // A path of the first pair that fails comes before the text of the second.
    assert_eq!(fish_frames(&segments, &vec![None]).unwrap_err(), TraceError::AbsolutePath);
    // A segment left over is reported after the pairs before it.
    let mut uneven = two_pairs();
    uneven.push(chars("in function 'c'"));
    let both = vec![Some("/p".to_string()), Some("/q".to_string())];
    assert_eq!(fish_frames(&uneven, &both).unwrap_err(), TraceError::UnevenSegments);
    assert_eq!(
        fish_frames(&uneven, &vec![Some("/p".to_string())]).unwrap_err(),
        TraceError::AbsolutePath
    );
}

#[test]
fn fish_trace_is_its_frames_with_the_absolute_paths() {
    let input = "in function 'inner';  called on line 4 of file ./x.fish";
    let segments = vec![chars("in function 'inner'"), chars("called on line 4 of file ./x.fish")];
    let expected = fish_frames(&segments, &vec![Some(absolute("./x.fish"))]).unwrap();
    let frames = parse_fish_stack_trace(input).unwrap();
    assert_eq!(fields(frames), fields(expected));
}
