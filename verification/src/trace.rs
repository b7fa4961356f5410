//! The call stack of the inspected shell: parsing the two stack-trace
//! dialects, attaching source text, moving the frame cursor and choosing the
//! source lines to show around a call site.

use crate::event::{Event, NavEvent};
use crate::list::{moved_down, moved_up, ListCursor};
use crate::shell::Shell;
use crate::text::{
    non_blank, parse_usize, parse_usize_chars, split, split_chars, split_str, string_from_chars,
    string_texts, texts, trimmed_segments,
};
use vstd::prelude::*;

verus! {

/// Why a stack trace could not be read.
#[derive(Debug, Clone, Copy, PartialEq, Eq, Structural)]
pub enum TraceError {
    /// A line of a Bash or Zsh trace does not have exactly three fields.
    FieldCount,
    /// A line number is not a non-negative decimal number that fits.
    LineNumber,
    /// A Fish trace has an odd number of segments.
    UnevenSegments,
    /// A declaration segment of a Fish trace holds no quoted function name.
    FunctionName,
    /// A call-site segment of a Fish trace is too short to hold a line number.
    MissingLineNumber,
    /// A call-site segment of a Fish trace is too short to hold a file path.
    MissingFilePath,
    /// The file path of a call site could not be made absolute.
    AbsolutePath,
}

impl TraceError {
    /// Returns a message that says what was wrong with the trace.
    pub fn message(&self) -> (text: String)
        ensures
            text@ == self.spec_message(),
    {
        match self {
            TraceError::FieldCount => "failed to parse stack trace".to_owned(),
            TraceError::LineNumber => "failed to parse line number".to_owned(),
            TraceError::UnevenSegments => "uneven number of lines in fish stack trace".to_owned(),
            TraceError::FunctionName => "failed to extract function name".to_owned(),
            TraceError::MissingLineNumber => "failed to extract line number".to_owned(),
            TraceError::MissingFilePath => "failed to extract file path".to_owned(),
            TraceError::AbsolutePath => "failed to get absolute path of file".to_owned(),
        }
    }

    /// The message of each error.
    pub open spec fn spec_message(&self) -> Seq<char> {
        match self {
            TraceError::FieldCount => "failed to parse stack trace"@,
            TraceError::LineNumber => "failed to parse line number"@,
            TraceError::UnevenSegments => "uneven number of lines in fish stack trace"@,
            TraceError::FunctionName => "failed to extract function name"@,
            TraceError::MissingLineNumber => "failed to extract line number"@,
            TraceError::MissingFilePath => "failed to extract file path"@,
            TraceError::AbsolutePath => "failed to get absolute path of file"@,
        }
    }
}

/// The call site of a function in the shell's execution trace.
#[derive(Debug, Clone)]
pub struct CallCtx {
    /// The file in which the function was called.
    pub file: String,
    /// The line number in the file at which the function was called,
    /// counted from 1.
    pub line: usize,
    /// The function in which the function was called.
    pub function: String,
}

/// What a `CallCtx` holds, as plain text and a number.
pub struct CallSite {
    pub file: Seq<char>,
    pub line: usize,
    pub function: Seq<char>,
}

impl View for CallCtx {
    type V = CallSite;

    open spec fn view(&self) -> CallSite {
        CallSite { file: self.file@, line: self.line, function: self.function@ }
    }
}

/// The views of a sequence of call sites.
pub open spec fn call_sites(ctxs: Seq<CallCtx>) -> Seq<CallSite> {
    Seq::new(ctxs.len(), |i: int| ctxs[i]@)
}

/// What reading a trace returned, with the call sites as plain values.
pub open spec fn parsed(r: Result<Vec<CallCtx>, TraceError>) -> Result<Seq<CallSite>, TraceError> {
    match r {
        Ok(frames) => Ok(call_sites(frames@)),
        Err(e) => Err(e),
    }
}

/// What reading one call site returned, as plain values.
pub open spec fn parsed_site(r: Result<CallCtx, TraceError>) -> Result<CallSite, TraceError> {
    match r {
        Ok(ctx) => Ok(ctx@),
        Err(e) => Err(e),
    }
}

/// The call site that one line of a Bash or Zsh trace describes: the file,
/// the line number and the function, separated by colons.
pub open spec fn bash_call_site(line: Seq<char>) -> Result<CallSite, TraceError> {
    let fields = split(line, ':');
    if fields.len() != 3 {
        Err(TraceError::FieldCount)
    } else {
        match parse_usize(fields[1]) {
            Some(number) => Ok(CallSite { file: fields[0], line: number, function: fields[2] }),
            None => Err(TraceError::LineNumber),
        }
    }
}

/// The call sites that the lines of a Bash or Zsh trace describe, in order,
/// or the error of the first line that describes none.
pub open spec fn bash_call_sites(lines: Seq<Seq<char>>) -> Result<Seq<CallSite>, TraceError>
    decreases lines.len(),
{
    if lines.len() == 0 {
        Ok(Seq::empty())
    } else {
        match bash_call_sites(lines.drop_last()) {
            Err(e) => Err(e),
            Ok(sites) => match bash_call_site(lines.last()) {
                Err(e) => Err(e),
                Ok(site) => Ok(sites.push(site)),
            },
        }
    }
}

/// An error among the first `n` lines is the error of the whole trace.
pub proof fn lemma_bash_error_is_final(lines: Seq<Seq<char>>, n: int)
    requires
        0 <= n <= lines.len(),
        bash_call_sites(lines.take(n)) is Err,
    ensures
        bash_call_sites(lines) == bash_call_sites(lines.take(n)),
    decreases lines.len(),
{
    if n == lines.len() {
        assert(lines.take(n) =~= lines);
    } else {
        assert(lines.drop_last().take(n) =~= lines.take(n));
        lemma_bash_error_is_final(lines.drop_last(), n);
    }
}

/// A trace in which every line describes a call site is read as exactly one
/// call site for each line, in the order of the lines, and each call site
/// holds the three fields of its line.
pub proof fn lemma_bash_well_formed(lines: Seq<Seq<char>>)
    requires
        forall|i: int| 0 <= i < lines.len() ==> (#[trigger] bash_call_site(lines[i])) is Ok,
    ensures
        bash_call_sites(lines) matches Ok(sites) && sites.len() == lines.len() && forall|i: int|
            0 <= i < lines.len() ==> {
                &&& Ok::<CallSite, TraceError>(#[trigger] sites[i]) == bash_call_site(lines[i])
                &&& sites[i].file == split(lines[i], ':')[0]
                &&& Some(sites[i].line) == parse_usize(split(lines[i], ':')[1])
                &&& sites[i].function == split(lines[i], ':')[2]
            },
    decreases lines.len(),
{
    if lines.len() > 0 {
        let before = lines.drop_last();
        assert forall|i: int| 0 <= i < before.len() implies (#[trigger] bash_call_site(
            before[i],
        )) is Ok by {
            assert(before[i] == lines[i]);
        }
        lemma_bash_well_formed(before);
        assert(bash_call_site(lines[lines.len() - 1]) is Ok);
    }
}

/// A trace with a line that describes no call site is not read: the error is
/// that of the first such line.
pub proof fn lemma_bash_first_error(lines: Seq<Seq<char>>, k: int)
    requires
        0 <= k < lines.len(),
        bash_call_site(lines[k]) is Err,
        forall|i: int| 0 <= i < k ==> (#[trigger] bash_call_site(lines[i])) is Ok,
    ensures
        bash_call_sites(lines) matches Err(e) && bash_call_site(lines[k]) == Err::<
            CallSite,
            TraceError,
        >(e),
{
    let upto = lines.take(k);
    assert forall|i: int| 0 <= i < upto.len() implies (#[trigger] bash_call_site(upto[i])) is Ok by {
        assert(upto[i] == lines[i]);
    }
    lemma_bash_well_formed(upto);
    assert(lines.take(k + 1).drop_last() =~= upto);
    assert(lines.take(k + 1).last() == lines[k]);
    lemma_bash_error_is_final(lines, k + 1);
}

/// Reads one line of a Bash or Zsh trace, `<file>:<line>:<function>`.
pub fn parse_bash_or_zsh_line(line: &Vec<char>) -> (r: Result<CallCtx, TraceError>)
    ensures
        parsed_site(r) == bash_call_site(line@),
{
    let fields = split_chars(line, ':');
    proof {
        assert(texts(fields@).len() == fields@.len());
    }
    if fields.len() != 3 {
        return Err(TraceError::FieldCount);
    }
    proof {
        assert(texts(fields@)[0] == fields@[0]@);
        assert(texts(fields@)[1] == fields@[1]@);
        assert(texts(fields@)[2] == fields@[2]@);
    }
    match parse_usize_chars(&fields[1]) {
        Some(number) => Ok(
            CallCtx {
                file: string_from_chars(&fields[0]),
                line: number,
                function: string_from_chars(&fields[2]),
            },
        ),
        None => Err(TraceError::LineNumber),
    }
}

/// Reads the lines of a Bash or Zsh trace, which are trimmed and not blank.
/// Stops at the first line that describes no call site.
pub fn parse_bash_or_zsh_lines(lines: &Vec<Vec<char>>) -> (r: Result<Vec<CallCtx>, TraceError>)
    ensures
        parsed(r) == bash_call_sites(texts(lines@)),
{
    let mut frames: Vec<CallCtx> = Vec::new();
    let mut i: usize = 0;
    proof {
        assert(call_sites(frames@) =~= Seq::empty());
    }
    while i < lines.len()
        invariant
            i <= lines.len(),
            bash_call_sites(texts(lines@).take(i as int)) == Ok::<Seq<CallSite>, TraceError>(
                call_sites(frames@),
            ),
        decreases lines.len() - i,
    {
        proof {
            assert(texts(lines@).take(i + 1).drop_last() =~= texts(lines@).take(i as int));
            assert(texts(lines@).take(i + 1).last() == lines@[i as int]@);
        }
        let ghost before = call_sites(frames@);
        match parse_bash_or_zsh_line(&lines[i]) {
            Ok(ctx) => {
                frames.push(ctx);
                proof {
                    assert(call_sites(frames@) =~= before.push(ctx@));
                }
            },
            Err(e) => {
                proof {
                    lemma_bash_error_is_final(texts(lines@), i + 1);
                }
                return Err(e);
            },
        }
        i += 1;
    }
    proof {
        assert(texts(lines@).take(i as int) =~= texts(lines@));
    }
    Ok(frames)
}

/// Reads a Bash or Zsh stack trace: one call site on each line that is not
/// blank, written `<file>:<line>:<function>`. A line with another number of
/// fields, or with a line number that is no number, fails the whole trace.
pub fn parse_bash_or_zsh_stack_trace(input: &str) -> (r: Result<Vec<CallCtx>, TraceError>)
    ensures
        parsed(r) == bash_call_sites(non_blank(split(input@, '\n'))),
{
    let lines = trimmed_segments(input, '\n');
    parse_bash_or_zsh_lines(&lines)
}

/// The function name that a declaration segment of a Fish trace holds: the
/// text between the first and the second single quote.
pub open spec fn quoted_name(declaration: Seq<char>) -> Option<Seq<char>> {
    let parts = split(declaration, '\'');
    if parts.len() >= 3 {
        Some(parts[1])
    } else {
        None
    }
}

/// The call site that a pair of segments of a Fish trace describes, with the
/// file path as the trace writes it. The declaration segment holds the
/// function name in single quotes; of the call-site segment, split at
/// spaces, the fourth token is the line number and the seventh the path.
pub open spec fn fish_call_site(declaration: Seq<char>, call: Seq<char>) -> Result<
    CallSite,
    TraceError,
> {
    let tokens = split(call, ' ');
    match quoted_name(declaration) {
        None => Err(TraceError::FunctionName),
        Some(function) => if tokens.len() <= 3 {
            Err(TraceError::MissingLineNumber)
        } else {
            match parse_usize(tokens[3]) {
                None => Err(TraceError::LineNumber),
                Some(number) => if tokens.len() <= 6 {
                    Err(TraceError::MissingFilePath)
                } else if tokens[6].len() == 0 {
                    Err(TraceError::AbsolutePath)
                } else {
                    Ok(CallSite { file: tokens[6], line: number, function })
                },
            }
        },
    }
}

/// The call sites that the segments of a Fish trace describe, pair by pair
/// and with the file paths as the trace writes them, or the error of the
/// first pair that describes none. A segment that is left over after the
/// last pair is an error.
pub open spec fn fish_call_sites(segments: Seq<Seq<char>>) -> Result<Seq<CallSite>, TraceError>
    decreases segments.len(),
{
    if segments.len() == 0 {
        Ok(Seq::empty())
    } else if segments.len() % 2 == 1 {
        match fish_call_sites(segments.drop_last()) {
            Err(e) => Err(e),
            Ok(_) => Err(TraceError::UnevenSegments),
        }
    } else {
        match fish_call_sites(segments.take(segments.len() - 2)) {
            Err(e) => Err(e),
            Ok(sites) => match fish_call_site(
                segments[segments.len() - 2],
                segments[segments.len() - 1],
            ) {
                Err(e) => Err(e),
                Ok(site) => Ok(sites.push(site)),
            },
        }
    }
}

/// Whether `frames` are the call sites `sites` with each file path replaced
/// by some other path: the same number of call sites, with the same function
/// names and line numbers in the same order.
pub open spec fn same_calls(sites: Seq<CallSite>, frames: Seq<CallSite>) -> bool {
    &&& frames.len() == sites.len()
    &&& forall|i: int|
        0 <= i < sites.len() ==> {
            &&& (#[trigger] frames[i]).function == sites[i].function
            &&& frames[i].line == sites[i].line
        }
}

/// An error among the first `n` segments, where `n` is even, is the error of
/// the whole trace.
pub proof fn lemma_fish_error_is_final(segments: Seq<Seq<char>>, n: int)
    requires
        0 <= n <= segments.len(),
        n % 2 == 0,
        fish_call_sites(segments.take(n)) is Err,
    ensures
        fish_call_sites(segments) == fish_call_sites(segments.take(n)),
    decreases segments.len(),
{
    if n == segments.len() {
        assert(segments.take(n) =~= segments);
    } else if segments.len() % 2 == 1 {
        assert(segments.drop_last().take(n) =~= segments.take(n));
        lemma_fish_error_is_final(segments.drop_last(), n);
    } else {
        let before = segments.take(segments.len() - 2);
        assert(before.take(n) =~= segments.take(n));
        lemma_fish_error_is_final(before, n);
    }
}

/// A trace with an odd number of segments is not read.
pub proof fn lemma_fish_uneven_fails(segments: Seq<Seq<char>>)
    requires
        segments.len() % 2 == 1,
    ensures
        fish_call_sites(segments) is Err,
{
}

/// A trace made of pairs that each describe a call site is read as exactly
/// one call site for each pair, in the order of the pairs.
pub proof fn lemma_fish_well_formed(segments: Seq<Seq<char>>)
    requires
        segments.len() % 2 == 0,
        forall|j: int|
            0 <= j < segments.len() / 2 ==> (#[trigger] fish_call_site(
                segments[2 * j],
                segments[2 * j + 1],
            )) is Ok,
    ensures
        fish_call_sites(segments) matches Ok(sites) && sites.len() == segments.len() / 2
            && forall|j: int|
            0 <= j < segments.len() / 2 ==> Ok::<CallSite, TraceError>(#[trigger] sites[j])
                == fish_call_site(segments[2 * j], segments[2 * j + 1]),
    decreases segments.len(),
{
    if segments.len() > 0 {
        let before = segments.take(segments.len() - 2);
        assert forall|j: int| 0 <= j < before.len() / 2 implies (#[trigger] fish_call_site(
            before[2 * j],
            before[2 * j + 1],
        )) is Ok by {
            assert(before[2 * j] == segments[2 * j]);
            assert(before[2 * j + 1] == segments[2 * j + 1]);
            assert(fish_call_site(segments[2 * j], segments[2 * j + 1]) is Ok);
        }
        lemma_fish_well_formed(before);
        let last = segments.len() / 2 - 1;
        assert(fish_call_site(segments[2 * last], segments[2 * last + 1]) is Ok);
        let sites = fish_call_sites(segments)->Ok_0;
        assert forall|j: int| 0 <= j < segments.len() / 2 implies Ok::<CallSite, TraceError>(
            #[trigger] sites[j],
        ) == fish_call_site(segments[2 * j], segments[2 * j + 1]) by {
            if j < last {
                assert(before[2 * j] == segments[2 * j]);
                assert(before[2 * j + 1] == segments[2 * j + 1]);
            }
        }
    }
}

/// `std::path::absolute`: the absolute form of a path. It depends on the
/// current directory of the process, so nothing is promised of it. `None`
/// stands for the call's error, and for a path that is no Unicode text.
#[verifier::external_body]
fn absolute_path(path: &str) -> (resolved: Option<String>) {
    match std::path::absolute(path) {
        Ok(absolute) => absolute.into_os_string().into_string().ok(),
        Err(_) => None,
    }
}

/// Reads one pair of segments of a Fish trace. The file path of the call
/// site is the path as the trace writes it.
pub fn parse_fish_pair(declaration: &Vec<char>, call: &Vec<char>) -> (r: Result<
    CallCtx,
    TraceError,
>)
    ensures
        parsed_site(r) == fish_call_site(declaration@, call@),
{
    let parts = split_chars(declaration, '\'');
    let tokens = split_chars(call, ' ');
    proof {
        assert(texts(parts@).len() == parts@.len());
        assert(texts(tokens@).len() == tokens@.len());
    }
    if parts.len() < 3 {
        return Err(TraceError::FunctionName);
    }
    if tokens.len() <= 3 {
        return Err(TraceError::MissingLineNumber);
    }
    proof {
        assert(texts(parts@)[1] == parts@[1]@);
        assert(texts(tokens@)[3] == tokens@[3]@);
    }
    let number = match parse_usize_chars(&tokens[3]) {
        Some(number) => number,
        None => {
            return Err(TraceError::LineNumber);
        },
    };
    if tokens.len() <= 6 {
        return Err(TraceError::MissingFilePath);
    }
    proof {
        assert(texts(tokens@)[6] == tokens@[6]@);
    }
    if tokens[6].len() == 0 {
        return Err(TraceError::AbsolutePath);
    }
    Ok(
        CallCtx {
            file: string_from_chars(&tokens[6]),
            line: number,
            function: string_from_chars(&parts[1]),
        },
    )
}

/// Puts the absolute form of its file path into a call site, or fails where
/// there is none.
pub fn resolve_call_site(site: CallCtx, resolved: Option<String>) -> (r: Result<
    CallCtx,
    TraceError,
>)
    ensures
        match resolved {
            Some(path) => r matches Ok(ctx) && ctx@ == (CallSite {
                file: path@,
                line: site.line,
                function: site.function@,
            }),
            None => r == Err::<CallCtx, TraceError>(TraceError::AbsolutePath),
        },
{
    match resolved {
        Some(path) => Ok(CallCtx { file: path, line: site.line, function: site.function }),
        None => Err(TraceError::AbsolutePath),
    }
}

/// Whether `r` is an outcome of reading the Fish trace made of `segments`.
/// What the text decides is decided: an error of the text is reported,
/// and a trace that is read has the call sites, function names and line
/// numbers of the text. Making a file path absolute may fail for reasons
/// outside the text, and that failure may come before a later error of the
/// text.
pub open spec fn fish_outcome(segments: Seq<Seq<char>>, r: Result<Seq<CallSite>, TraceError>) -> bool {
    match r {
        Ok(frames) => fish_call_sites(segments) matches Ok(sites) && same_calls(sites, frames),
        Err(e) => e == TraceError::AbsolutePath || fish_call_sites(segments) == Err::<
            Seq<CallSite>,
            TraceError,
        >(e),
    }
}

/// What making the paths of a trace absolute gave, as plain text: for each
/// pair in turn the absolute path, or `None` where there is none.
pub open spec fn path_texts(resolved: Seq<Option<String>>) -> Seq<Option<Seq<char>>> {
    Seq::new(
        resolved.len(),
        |i: int|
            match resolved[i] {
                Some(path) => Some(path@),
                None => None,
            },
    )
}

/// The result of reading the Fish trace made of `segments`, where
/// `resolved[k]` is what making the path of pair `k` absolute gave. The pairs
/// are read in order. A pair that describes no call site fails the trace with
/// its error; a pair whose path has no absolute form, or for which
/// `resolved` has no entry, fails it with `AbsolutePath`; and each pair that
/// comes through gives its call site with the absolute path as file. A
/// segment that is left over after the last pair is an error.
pub open spec fn fish_result(
    segments: Seq<Seq<char>>,
    resolved: Seq<Option<Seq<char>>>,
) -> Result<Seq<CallSite>, TraceError>
    decreases segments.len(),
{
    if segments.len() == 0 {
        Ok(Seq::empty())
    } else if segments.len() % 2 == 1 {
        match fish_result(segments.drop_last(), resolved) {
            Err(e) => Err(e),
            Ok(_) => Err(TraceError::UnevenSegments),
        }
    } else {
        match fish_result(segments.take(segments.len() - 2), resolved) {
            Err(e) => Err(e),
            Ok(frames) => match fish_call_site(
                segments[segments.len() - 2],
                segments[segments.len() - 1],
            ) {
                Err(e) => Err(e),
                Ok(site) => {
                    let k = segments.len() / 2 - 1;
                    if k < resolved.len() && resolved[k] is Some {
                        Ok(frames.push(CallSite { file: resolved[k]->Some_0, ..site }))
                    } else {
                        Err(TraceError::AbsolutePath)
                    }
                },
            },
        }
    }
}

/// An error among the first `n` segments, where `n` is even, is the result
/// for the whole trace.
pub proof fn lemma_fish_result_error_is_final(
    segments: Seq<Seq<char>>,
    resolved: Seq<Option<Seq<char>>>,
    n: int,
)
    requires
        0 <= n <= segments.len(),
        n % 2 == 0,
        fish_result(segments.take(n), resolved) is Err,
    ensures
        fish_result(segments, resolved) == fish_result(segments.take(n), resolved),
    decreases segments.len(),
{
    if n == segments.len() {
        assert(segments.take(n) =~= segments);
    } else if segments.len() % 2 == 1 {
        assert(segments.drop_last().take(n) =~= segments.take(n));
        lemma_fish_result_error_is_final(segments.drop_last(), resolved, n);
    } else {
        let before = segments.take(segments.len() - 2);
        assert(before.take(n) =~= segments.take(n));
        lemma_fish_result_error_is_final(before, resolved, n);
    }
}

/// Whatever making the paths absolute gave, the result is an outcome of
/// reading the trace: an error is `AbsolutePath` or the error of the text,
/// and a trace that is read has the call sites of the text with their
/// function names and line numbers.
pub proof fn lemma_fish_result_is_outcome(
    segments: Seq<Seq<char>>,
    resolved: Seq<Option<Seq<char>>>,
)
    ensures
        fish_outcome(segments, fish_result(segments, resolved)),
    decreases segments.len(),
{
    if segments.len() == 0 {
    } else if segments.len() % 2 == 1 {
        lemma_fish_result_is_outcome(segments.drop_last(), resolved);
    } else {
        let before = segments.take(segments.len() - 2);
        lemma_fish_result_is_outcome(before, resolved);
        if fish_result(segments, resolved) is Ok {
            let frames = fish_result(segments, resolved)->Ok_0;
            let sites = fish_call_sites(segments)->Ok_0;
            assert forall|i: int| 0 <= i < sites.len() implies {
                &&& (#[trigger] frames[i]).function == sites[i].function
                &&& frames[i].line == sites[i].line
            } by {
                let earlier = fish_result(before, resolved)->Ok_0;
                let earlier_sites = fish_call_sites(before)->Ok_0;
                if i < earlier.len() {
                    assert(frames[i] == earlier[i]);
                    assert(sites[i] == earlier_sites[i]);
                }
            }
        }
    }
}

/// Where every path of the trace has an absolute form, the result is that
/// of the text: the error of the text, or its call sites, one for each pair
/// and in order, each with its absolute path as file.
pub proof fn lemma_fish_result_when_paths_resolve(
    segments: Seq<Seq<char>>,
    resolved: Seq<Option<Seq<char>>>,
)
    requires
        forall|k: int|
            0 <= k < segments.len() / 2 ==> k < resolved.len() && (#[trigger] resolved[k]) is Some,
    ensures
        match fish_call_sites(segments) {
            Err(e) => fish_result(segments, resolved) == Err::<Seq<CallSite>, TraceError>(e),
            Ok(sites) => fish_result(segments, resolved) matches Ok(frames) && frames.len()
                == sites.len() && sites.len() == segments.len() / 2 && forall|k: int|
                0 <= k < sites.len() ==> #[trigger] frames[k] == (CallSite {
                    file: resolved[k]->Some_0,
                    ..sites[k]
                }),
        },
    decreases segments.len(),
{
    if segments.len() == 0 {
    } else if segments.len() % 2 == 1 {
        lemma_fish_result_when_paths_resolve(segments.drop_last(), resolved);
    } else {
        let before = segments.take(segments.len() - 2);
        lemma_fish_result_when_paths_resolve(before, resolved);
        let k = segments.len() / 2 - 1;
        assert(resolved[k] is Some);
        if fish_call_sites(segments) is Ok {
            let sites = fish_call_sites(segments)->Ok_0;
            let frames = fish_result(segments, resolved)->Ok_0;
            let earlier = fish_result(before, resolved)->Ok_0;
            let earlier_sites = fish_call_sites(before)->Ok_0;
            assert forall|j: int| 0 <= j < sites.len() implies #[trigger] frames[j] == (CallSite {
                file: resolved[j]->Some_0,
                ..sites[j]
            }) by {
                if j < earlier.len() {
                    assert(frames[j] == earlier[j]);
                    assert(sites[j] == earlier_sites[j]);
                }
            }
        }
    }
}

/// A trace without segments is read as no call sites, and a trace of one
/// segment fails as uneven, whatever the paths: no path is looked at.
pub proof fn lemma_fish_result_of_short_traces(
    segments: Seq<Seq<char>>,
    resolved: Seq<Option<Seq<char>>>,
)
    ensures
        segments.len() == 0 ==> fish_result(segments, resolved) == Ok::<
            Seq<CallSite>,
            TraceError,
        >(Seq::empty()),
        segments.len() == 1 ==> fish_result(segments, resolved) == Err::<
            Seq<CallSite>,
            TraceError,
        >(TraceError::UnevenSegments),
{
    if segments.len() == 1 {
        assert(fish_result(segments.drop_last(), resolved) == Ok::<Seq<CallSite>, TraceError>(
            Seq::empty(),
        ));
    }
}

/// Reads the segments of a Fish trace, which are trimmed and not blank,
/// given what making the path of each pair absolute gave: `resolved[k]` is
/// the absolute path of pair `k`, or `None` where there is none. Stops at
/// the first pair that fails.
pub fn fish_frames(segments: &Vec<Vec<char>>, resolved: &Vec<Option<String>>) -> (r: Result<
    Vec<CallCtx>,
    TraceError,
>)
    ensures
        parsed(r) == fish_result(texts(segments@), path_texts(resolved@)),
{
    let n = segments.len();
    let ghost paths = path_texts(resolved@);
    let mut frames: Vec<CallCtx> = Vec::new();
    let mut i: usize = 0;
    proof {
        assert(call_sites(frames@) =~= Seq::empty());
    }
    while i < n && n - i >= 2
        invariant
            n == segments.len(),
            i <= n,
            i % 2 == 0,
            paths == path_texts(resolved@),
            frames@.len() == i / 2,
            fish_result(texts(segments@).take(i as int), paths) == Ok::<
                Seq<CallSite>,
                TraceError,
            >(call_sites(frames@)),
        decreases n - i,
    {
        let ghost upto = texts(segments@).take(i + 2);
        proof {
            assert(upto.take(upto.len() - 2) =~= texts(segments@).take(i as int));
            assert(upto[upto.len() - 2] == segments@[i as int]@);
            assert(upto[upto.len() - 1] == segments@[i + 1]@);
        }
        let site = match parse_fish_pair(&segments[i], &segments[i + 1]) {
            Ok(site) => site,
            Err(e) => {
                proof {
                    lemma_fish_result_error_is_final(texts(segments@), paths, i + 2);
                }
                return Err(e);
            },
        };
        let k = i / 2;
        let outcome = if k < resolved.len() {
            match &resolved[k] {
                Some(path) => Some(path.clone()),
                None => None,
            }
        } else {
            None
        };
        let ghost before = call_sites(frames@);
        match resolve_call_site(site, outcome) {
            Ok(ctx) => {
                frames.push(ctx);
                proof {
                    assert(call_sites(frames@) =~= before.push(ctx@));
                }
            },
            Err(e) => {
                proof {
                    lemma_fish_result_error_is_final(texts(segments@), paths, i + 2);
                }
                return Err(e);
            },
        }
        i += 2;
    }
    if i < n {
        proof {
            assert(texts(segments@).drop_last() =~= texts(segments@).take(i as int));
        }
        return Err(TraceError::UnevenSegments);
    }
    proof {
        assert(texts(segments@).take(i as int) =~= texts(segments@));
    }
    Ok(frames)
}

/// Reads the segments of a Fish trace, which are trimmed and not blank, and
/// makes the file path of each pair absolute, up to the first pair that
/// fails. The result is that of `fish_frames` for what making the paths
/// absolute gave.
pub fn parse_fish_segments(segments: &Vec<Vec<char>>) -> (r: Result<Vec<CallCtx>, TraceError>)
    ensures
        exists|paths: Seq<Option<Seq<char>>>|
            parsed(r) == #[trigger] fish_result(texts(segments@), paths),
        fish_outcome(texts(segments@), parsed(r)),
{
    let n = segments.len();
    let mut resolved: Vec<Option<String>> = Vec::new();
    let mut i: usize = 0;
    while i < n && n - i >= 2
        invariant
            n == segments.len(),
            i <= n,
        decreases n - i,
    {
        let path = match parse_fish_pair(&segments[i], &segments[i + 1]) {
            Ok(site) => absolute_path(site.file.as_str()),
            Err(_) => None,
        };
        let failed = path.is_none();
        resolved.push(path);
        if failed {
            break ;
        }
        i += 2;
    }
    let r = fish_frames(segments, &resolved);
    proof {
        lemma_fish_result_is_outcome(texts(segments@), path_texts(resolved@));
    }
    r
}

/// Reads a Fish stack trace: segments separated by `;`, of which those that
/// are not blank come in pairs. The first segment of a pair declares the
/// function, `in function '<name>'`, and the second gives the call site,
/// `called on line <line> of file <path>`. Each path is made absolute.
pub fn parse_fish_stack_trace(input: &str) -> (r: Result<Vec<CallCtx>, TraceError>)
    ensures
        exists|paths: Seq<Option<Seq<char>>>|
            parsed(r) == #[trigger] fish_result(non_blank(split(input@, ';')), paths),
        fish_outcome(non_blank(split(input@, ';')), parsed(r)),
{
    let segments = trimmed_segments(input, ';');
    parse_fish_segments(&segments)
}

/// Reads a stack trace in the dialect of `shell`.
pub fn parse_stack_trace(input: &str, shell: Shell) -> (r: Result<Vec<CallCtx>, TraceError>)
    ensures
        shell == Shell::Fish ==> exists|paths: Seq<Option<Seq<char>>>|
            parsed(r) == #[trigger] fish_result(non_blank(split(input@, ';')), paths),
        shell == Shell::Fish ==> fish_outcome(non_blank(split(input@, ';')), parsed(r)),
        shell != Shell::Fish ==> parsed(r) == bash_call_sites(non_blank(split(input@, '\n'))),
{
    match shell {
        Shell::Bash => parse_bash_or_zsh_stack_trace(input),
        Shell::Zsh => parse_bash_or_zsh_stack_trace(input),
        Shell::Fish => parse_fish_stack_trace(input),
    }
}

/// A call site together with the source text of its file.
#[derive(Debug, Clone)]
pub struct CallFrame {
    pub ctx: CallCtx,
    /// The lines of the file, or `None` where the file could not be read.
    pub lines: Option<Vec<String>>,
}

/// What a `CallFrame` holds, as plain text.
pub struct FrameView {
    pub site: CallSite,
    pub lines: Option<Seq<Seq<char>>>,
}

impl View for CallFrame {
    type V = FrameView;

    open spec fn view(&self) -> FrameView {
        FrameView {
            site: self.ctx@,
            lines: match self.lines {
                Some(lines) => Some(string_texts(lines@)),
                None => None,
            },
        }
    }
}

/// The frames of a call stack, in the order of the trace.
#[derive(Debug, Clone, Default)]
pub struct CallStack {
    pub frames: Vec<CallFrame>,
}

impl View for CallStack {
    type V = Seq<FrameView>;

    open spec fn view(&self) -> Seq<FrameView> {
        Seq::new(self.frames@.len(), |i: int| self.frames@[i]@)
    }
}

/// The frame of the call site `site`, given the text of its file or `None`
/// where the file could not be read. The lines of a file are the segments
/// between its newline characters.
pub open spec fn frame_of(site: CallSite, source: Option<Seq<char>>) -> FrameView {
    FrameView {
        site,
        lines: match source {
            Some(text) => Some(split(text, '\n')),
            None => None,
        },
    }
}

/// The text of the file of call site `i`: `sources[i]`, or `None` where
/// there is no such entry.
pub open spec fn source_at(sources: Seq<Option<String>>, i: int) -> Option<Seq<char>> {
    if 0 <= i < sources.len() {
        match sources[i] {
            Some(text) => Some(text@),
            None => None,
        }
    } else {
        None
    }
}

/// Builds the call stack of the parsed call sites. `sources[i]` is the text
/// of the file of call site `i`, or `None` where that file could not be
/// read; a call site without an entry in `sources` gets no lines either. An
/// unreadable file never fails the call stack.
pub fn load_call_stack(callsites: Vec<CallCtx>, sources: &Vec<Option<String>>) -> (stack:
    CallStack)
    ensures
        stack@.len() == callsites@.len(),
        forall|i: int|
            0 <= i < callsites@.len() ==> #[trigger] stack@[i] == frame_of(
                callsites@[i]@,
                source_at(sources@, i),
            ),
{
    let mut frames: Vec<CallFrame> = Vec::new();
    for ctx in it: callsites
        invariant
            frames@.len() == it.index(),
            it.seq() == callsites@,
            forall|k: int|
                0 <= k < frames@.len() ==> (#[trigger] frames@[k])@ == frame_of(
                    callsites@[k]@,
                    source_at(sources@, k),
                ),
    {
        let i = frames.len();
        let lines = if i < sources.len() {
            match &sources[i] {
                Some(text) => Some(split_str(text.as_str(), '\n')),
                None => None,
            }
        } else {
            None
        };
        frames.push(CallFrame { ctx, lines });
    }
    CallStack { frames }
}

/// The first line of the window around a call site, counted from 0: the top
/// of the file while the call line is within the upper half of the viewport,
/// and half a viewport above the call line from then on.
pub open spec fn window_offset(line_number: nat, visible_lines: nat) -> nat {
    if line_number < visible_lines / 2 {
        0
    } else {
        (line_number - visible_lines / 2) as nat
    }
}

/// The row of the window that is highlighted as the call line.
pub open spec fn highlighted_row(line_number: nat, visible_lines: nat) -> nat {
    if line_number < visible_lines / 2 {
        line_number
    } else {
        visible_lines / 2 + 1
    }
}

/// The lines shown around a call site: `visible_lines` lines from the
/// window's first line on, or as many of them as the file has.
pub open spec fn source_window(
    lines: Seq<Seq<char>>,
    line_number: nat,
    visible_lines: nat,
) -> Seq<Seq<char>> {
    let offset = window_offset(line_number, visible_lines);
    if offset >= lines.len() {
        Seq::empty()
    } else if offset + visible_lines >= lines.len() {
        lines.skip(offset as int)
    } else {
        lines.subrange(offset as int, (offset + visible_lines) as int)
    }
}

/// Chooses the source lines to show for a call at line `line_number` in a
/// viewport of `visible_lines` lines, and the row to highlight among them.
/// Near the top of the file the window starts at the first line; further
/// down it is centred on the call. A window that reaches past the end of the
/// file is cut off there.
pub fn call_site_window(lines: &Vec<String>, line_number: usize, visible_lines: usize) -> (window:
    (Vec<String>, usize))
    ensures
        string_texts(window.0@) == source_window(
            string_texts(lines@),
            line_number as nat,
            visible_lines as nat,
        ),
        window.1 == highlighted_row(line_number as nat, visible_lines as nat),
{
    let half = visible_lines / 2;
    let (offset, call_line) = if line_number < half {
        (0, line_number)
    } else {
        (line_number - half, half + 1)
    };
    let start = if offset < lines.len() {
        offset
    } else {
        lines.len()
    };
    let end = if visible_lines < lines.len() - start {
        start + visible_lines
    } else {
        lines.len()
    };
    let mut shown: Vec<String> = Vec::new();
    let mut i: usize = start;
    while i < end
        invariant
            start <= i <= end <= lines.len(),
            string_texts(shown@) == string_texts(lines@).subrange(start as int, i as int),
        decreases end - i,
    {
        let ghost before = string_texts(shown@);
        let line = lines[i].clone();
        shown.push(line);
        proof {
            assert(string_texts(shown@) =~= before.push(line@));
            assert(string_texts(lines@).subrange(start as int, i + 1) =~= string_texts(
                lines@,
            ).subrange(start as int, i as int).push(lines@[i as int]@));
        }
        i += 1;
    }
    proof {
        assert(string_texts(shown@) =~= source_window(
            string_texts(lines@),
            line_number as nat,
            visible_lines as nat,
        ));
    }
    (shown, call_line)
}

/// The window never holds more lines than the viewport shows, and it holds
/// exactly that many wherever the file reaches that far.
pub proof fn lemma_window_len(lines: Seq<Seq<char>>, line_number: nat, visible_lines: nat)
    ensures
        source_window(lines, line_number, visible_lines).len() <= visible_lines,
        window_offset(line_number, visible_lines) + visible_lines <= lines.len() ==> source_window(
            lines,
            line_number,
            visible_lines,
        ).len() == visible_lines,
        forall|i: int|
            0 <= i < source_window(lines, line_number, visible_lines).len()
                ==> #[trigger] source_window(lines, line_number, visible_lines)[i] == lines[window_offset(
                line_number,
                visible_lines,
            ) + i],
{
}

/// The state of the trace screen: the name of the tracepoint at which the
/// shell paused, the call stack and the cursor over its frames.
#[derive(Debug, Clone, Default)]
pub struct TraceState {
    tracepoint: Option<String>,
    call_stack: Option<CallStack>,
    list_state: Option<ListCursor>,
}

/// What a `TraceState` holds, as plain values.
pub struct TraceView {
    pub tracepoint: Option<Seq<char>>,
    pub call_stack: Option<Seq<FrameView>>,
    /// The selection of the frame cursor, where there is a cursor.
    pub list_state: Option<Option<usize>>,
}

impl TraceView {
    /// A cursor exists exactly where a call stack does, and it selects a
    /// frame of the stack or, in a stack without frames, index 0.
    pub open spec fn wf(self) -> bool {
        &&& self.list_state is Some <==> self.call_stack is Some
        &&& self.list_state matches Some(Some(i)) ==> (self.call_stack matches Some(frames) ==> i
            < frames.len() || i == 0)
    }

    /// The state after an event: Up and Down move the frame cursor within
    /// the call stack, and every other event leaves the state as it is.
    pub open spec fn after(self, event: Event) -> TraceView {
        match (self.call_stack, self.list_state) {
            (Some(frames), Some(selected)) => match event {
                Event::Nav(NavEvent::Up) => TraceView {
                    list_state: Some(moved_up(selected)),
                    ..self
                },
                Event::Nav(NavEvent::Down) => TraceView {
                    list_state: Some(moved_down(selected, frames.len())),
                    ..self
                },
                _ => self,
            },
            _ => self,
        }
    }
}

impl View for TraceState {
    type V = TraceView;

    closed spec fn view(&self) -> TraceView {
        TraceView {
            tracepoint: match self.tracepoint {
                Some(name) => Some(name@),
                None => None,
            },
            call_stack: match self.call_stack {
                Some(stack) => Some(stack@),
                None => None,
            },
            list_state: match self.list_state {
                Some(cursor) => Some(cursor@),
                None => None,
            },
        }
    }
}

impl TraceState {
    /// Creates the state of the trace screen. Where there is a call stack,
    /// the cursor selects its first frame.
    pub fn new(tracepoint: Option<String>, call_stack: Option<CallStack>) -> (state: TraceState)
        ensures
            state@.wf(),
            state@.tracepoint == match tracepoint {
                Some(name) => Some(name@),
                None => None,
            },
            state@.call_stack == match call_stack {
                Some(stack) => Some(stack@),
                None => None,
            },
            state@.list_state == if call_stack is Some {
                Some(Some(0usize))
            } else {
                None
            },
    {
        let list_state = if call_stack.is_some() {
            let mut cursor = ListCursor::default();
            cursor.select_first();
            Some(cursor)
        } else {
            None
        };
        TraceState { tracepoint, call_stack, list_state }
    }

    /// Returns the name of the tracepoint, if one was given.
    pub fn tracepoint(&self) -> (name: Option<&String>)
        ensures
            self@.tracepoint == match name {
                Some(name) => Some(name@),
                None => None,
            },
    {
        self.tracepoint.as_ref()
    }

    /// Returns the call stack, if one was given.
    pub fn call_stack(&self) -> (stack: Option<&CallStack>)
        ensures
            self@.call_stack == match stack {
                Some(stack) => Some(stack@),
                None => None,
            },
    {
        self.call_stack.as_ref()
    }

    /// Returns the cursor over the frames, which exists where a call stack
    /// does.
    pub fn list_state(&mut self) -> (cursor: Option<&mut ListCursor>)
        ensures
            match cursor {
                Some(cursor) => old(self)@.list_state == Some(cursor@) && final(self)@ == (TraceView {
                    list_state: Some(final(cursor)@),
                    ..old(self)@
                }),
                None => old(self)@.list_state is None && final(self)@ == old(self)@,
            },
    {
        self.list_state.as_mut()
    }

    /// Returns the index of the selected frame.
    pub fn selected(&self) -> (selected: Option<usize>)
        ensures
            selected == match self@.list_state {
                Some(selected) => selected,
                None => None,
            },
    {
        match &self.list_state {
            Some(cursor) => cursor.selected(),
            None => None,
        }
    }

    /// Moves the frame cursor in response to an event: Up and Down move it
    /// within the call stack and stop at its ends, and every other event is
    /// ignored.
    pub fn handle_event(&mut self, event: &Event)
        ensures
            final(self)@ == old(self)@.after(*event),
            old(self)@.wf() ==> final(self)@.wf(),
    {
        let len = match &self.call_stack {
            Some(stack) => stack.frames.len(),
            None => {
                return ;
            },
        };
        match &mut self.list_state {
            Some(cursor) => match event {
                Event::Nav(NavEvent::Up) => {
                    cursor.move_up();
                },
                Event::Nav(NavEvent::Down) => {
                    cursor.move_down(len);
                },
                _ => {},
            },
            None => {},
        }
    }
}

} // verus!
