//! The user's build selection, read from three numbered prompts. An answer
//! that is not the number of an option selects the prompt's default.
use vstd::prelude::*;

verus! {

/// Tagged releases or the latest continuous-integration build.
#[derive(Clone, Copy, Debug, PartialEq, Eq, Structural)]
pub enum Stream {
    Stable,
    Development,
}

/// The architecture of the game the runtime is installed for.
#[derive(Clone, Copy, Debug, PartialEq, Eq, Structural)]
pub enum Architecture {
    X86,
    X64,
}

/// The compiled configuration of the package.
#[derive(Clone, Copy, Debug, PartialEq, Eq, Structural)]
pub enum BuildType {
    Release,
    DebugOptimized,
    Debug,
}

/// The three choices that govern an installation.
#[derive(Clone, Copy, Debug, PartialEq, Eq, Structural)]
pub struct BuildSelection {
    pub stream: Stream,
    pub architecture: Architecture,
    pub build_type: BuildType,
}

/// The text that tags packages of a build type.
pub open spec fn build_type_text(b: BuildType) -> Seq<char> {
    match b {
        BuildType::Release => "release"@,
        BuildType::DebugOptimized => "debugoptimized"@,
        BuildType::Debug => "debug"@,
    }
}

/// The text that tags packages of a build type.
pub fn build_type_name(b: BuildType) -> (r: &'static str)
    ensures
        r@ == build_type_text(b),
{
    match b {
        BuildType::Release => "release",
        BuildType::DebugOptimized => "debugoptimized",
        BuildType::Debug => "debug",
    }
}

pub open spec fn is_digit(c: char) -> bool {
    '0' <= c <= '9'
}

pub open spec fn digit_value(c: char) -> nat {
    (c as nat - '0' as nat) as nat
}

/// The digits of a decimal numeral: an optional leading `+` is not one.
pub open spec fn numeral_digits(s: Seq<char>) -> Seq<char> {
    if s.len() > 0 && s[0] == '+' {
        s.drop_first()
    } else {
        s
    }
}

/// An unsigned decimal numeral: an optional `+` and one or more digits.
pub open spec fn is_numeral(s: Seq<char>) -> bool {
    let d = numeral_digits(s);
    d.len() > 0 && forall|i: int| 0 <= i < d.len() ==> is_digit(d[i])
}

/// The value of a string of decimal digits.
pub open spec fn decimal_value(d: Seq<char>) -> nat
    decreases d.len(),
{
    if d.len() == 0 {
        0
    } else {
        decimal_value(d.drop_last()) * 10 + digit_value(d.last())
    }
}

/// The option, numbered from 1, that a trimmed answer selects among `count`,
/// if it selects one.
pub open spec fn chosen_option(s: Seq<char>, count: nat) -> Option<nat> {
    let v = decimal_value(numeral_digits(s));
    if is_numeral(s) && 1 <= v <= count {
        Some(v)
    } else {
        None
    }
}

pub open spec fn min_int(a: int, b: int) -> int {
    if a <= b {
        a
    } else {
        b
    }
}

/// The option that a trimmed answer selects, if it is the number of one of
/// `count` options.
fn option_number(t: &str, count: usize) -> (r: Option<usize>)
    requires
        count < usize::MAX,
    ensures
        match chosen_option(t@, count as nat) {
            Some(v) => r == Some(v as usize),
            None => r is None,
        },
{
    let n = t.unicode_len();
    let start: usize = if n > 0 && t.get_char(0) == '+' {
        1
    } else {
        0
    };
    let ghost d = numeral_digits(t@);
    assert(d =~= t@.subrange(start as int, n as int));
    if start == n {
        return None;
    }
    let cap = count + 1;
    let mut acc: usize = 0;
    let mut i: usize = start;
    while i < n
        invariant
            n == t@.len(),
            start <= i <= n,
            d =~= t@.subrange(start as int, n as int),
            d == numeral_digits(t@),
            cap == count + 1,
            forall|k: int| 0 <= k < i - start ==> is_digit(d[k]),
            acc == min_int(decimal_value(d.subrange(0, i - start)) as int, cap as int),
        decreases n - i,
    {
        let c = t.get_char(i);
        if c < '0' || c > '9' {
            assert(!is_digit(d[i - start]));
            return None;
        }
        let dv = (c as u32 - '0' as u32) as usize;
        let ghost prev = decimal_value(d.subrange(0, i - start)) as int;
        assert(d.subrange(0, i + 1 - start).drop_last() =~= d.subrange(0, i - start));
        assert(decimal_value(d.subrange(0, i + 1 - start)) == prev * 10 + dv);
        if acc >= cap {
            assert(prev * 10 + dv >= prev) by (nonlinear_arith)
                requires
                    prev >= 0,
                    dv >= 0,
            ;
        } else if dv > cap || acc > (cap - dv) / 10 {
            assert(prev * 10 + dv > cap) by (nonlinear_arith)
                requires
                    prev == acc,
                    prev >= 0,
                    dv > cap || acc > (cap - dv) / 10,
            ;
            acc = cap;
        } else {
            assert(acc * 10 + dv <= cap) by (nonlinear_arith)
                requires
                    acc <= (cap - dv) / 10,
                    cap >= dv,
            ;
            acc = acc * 10 + dv;
        }
        i += 1;
    }
    assert(d.subrange(0, n - start) =~= d);
    if acc >= 1 && acc <= count {
        Some(acc)
    } else {
        None
    }
}

/// A character with the Unicode White_Space property, which is what
/// `char::is_whitespace` tests.
pub open spec fn is_white_space(c: char) -> bool {
    let u = c as nat;
    (9 <= u <= 13) || u == 0x20 || u == 0x85 || u == 0xA0 || u == 0x1680 || (0x2000 <= u
        <= 0x200A) || u == 0x2028 || u == 0x2029 || u == 0x202F || u == 0x205F || u == 0x3000
}

/// `s` without its leading white space.
pub open spec fn trim_start(s: Seq<char>) -> Seq<char>
    decreases s.len(),
{
    if s.len() > 0 && is_white_space(s[0]) {
        trim_start(s.drop_first())
    } else {
        s
    }
}

/// `s` without its trailing white space.
pub open spec fn trim_end(s: Seq<char>) -> Seq<char>
    decreases s.len(),
{
    if s.len() > 0 && is_white_space(s.last()) {
        trim_end(s.drop_last())
    } else {
        s
    }
}

/// `s` without leading and trailing white space, as `str::trim` gives it.
pub open spec fn trimmed(s: Seq<char>) -> Seq<char> {
    trim_end(trim_start(s))
}

/// Whether `c` is white space.
fn white_space(c: char) -> (r: bool)
    ensures
        r == is_white_space(c),
{
    let u = c as u32;
    (9 <= u && u <= 13) || u == 0x20 || u == 0x85 || u == 0xA0 || u == 0x1680 || (0x2000 <= u
        && u <= 0x200A) || u == 0x2028 || u == 0x2029 || u == 0x202F || u == 0x205F || u == 0x3000
}

/// The answer without leading and trailing white space.
pub fn trim_answer(line: &str) -> (r: &str)
    ensures
        r@ == trimmed(line@),
{
    let n = line.unicode_len();
    let mut i: usize = 0;
    assert(line@.subrange(0, n as int) =~= line@);
    while i < n
        invariant
            n == line@.len(),
            i <= n,
            trim_start(line@) == trim_start(line@.subrange(i as int, n as int)),
        ensures
            i <= n,
            trim_start(line@) == trim_start(line@.subrange(i as int, n as int)),
            i < n ==> !is_white_space(line@[i as int]),
        decreases n - i,
    {
        if !white_space(line.get_char(i)) {
            break;
        }
        assert(line@.subrange(i as int, n as int).drop_first() =~= line@.subrange(
            i + 1,
            n as int,
        ));
        i += 1;
    }
    let ghost t = line@.subrange(i as int, n as int);
    if i < n {
        assert(t[0] == line@[i as int]);
    }
    assert(trim_start(line@) == t);
    let mut j: usize = n;
    while j > i
        invariant
            n == line@.len(),
            i <= j <= n,
            t == line@.subrange(i as int, n as int),
            trim_end(t) == trim_end(line@.subrange(i as int, j as int)),
        ensures
            i <= j <= n,
            trim_end(t) == trim_end(line@.subrange(i as int, j as int)),
            j > i ==> !is_white_space(line@[j - 1]),
        decreases j - i,
    {
        if !white_space(line.get_char(j - 1)) {
            break;
        }
        assert(line@.subrange(i as int, j as int).drop_last() =~= line@.subrange(
            i as int,
            j - 1,
        ));
        j -= 1;
    }
    let ghost u = line@.subrange(i as int, j as int);
    if j > i {
        assert(u.last() == line@[j - 1]);
    }
    assert(trim_end(u) == u);
    line.substring_char(i, j)
}

/// A line of white space alone, the empty line included, trims to nothing.
pub proof fn lemma_blank_line_trims_to_nothing(s: Seq<char>)
    requires
        forall|i: int| 0 <= i < s.len() ==> is_white_space(#[trigger] s[i]),
    ensures
        trim_start(s).len() == 0,
        trimmed(s).len() == 0,
    decreases s.len(),
{
    if s.len() > 0 {
        let t = s.drop_first();
        assert forall|i: int| 0 <= i < t.len() implies is_white_space(#[trigger] t[i]) by {
            assert(t[i] == s[i + 1]);
        }
        lemma_blank_line_trims_to_nothing(t);
    }
    assert(trim_start(s) =~= Seq::<char>::empty());
}

/// The stream that a trimmed answer selects: 2 for development, anything
/// else stable.
pub open spec fn stream_for(t: Seq<char>) -> Stream {
    if chosen_option(t, 2) == Some(2nat) {
        Stream::Development
    } else {
        Stream::Stable
    }
}

/// The architecture that a trimmed answer selects: 2 for 64-bit, anything
/// else 32-bit.
pub open spec fn architecture_for(t: Seq<char>) -> Architecture {
    if chosen_option(t, 2) == Some(2nat) {
        Architecture::X64
    } else {
        Architecture::X86
    }
}

/// The build type that a trimmed answer selects: 2 for debugoptimized, 3 for
/// debug, anything else release.
pub open spec fn build_type_for(t: Seq<char>) -> BuildType {
    if chosen_option(t, 3) == Some(2nat) {
        BuildType::DebugOptimized
    } else if chosen_option(t, 3) == Some(3nat) {
        BuildType::Debug
    } else {
        BuildType::Release
    }
}

/// The stream chosen by an answer that has been trimmed.
pub fn stream_from_trimmed(t: &str) -> (r: Stream)
    ensures
        r == stream_for(t@),
        chosen_option(t@, 2) is None ==> r == Stream::Stable,
{
    match option_number(t, 2) {
        Some(2) => Stream::Development,
        _ => Stream::Stable,
    }
}

/// The architecture chosen by an answer that has been trimmed.
pub fn architecture_from_trimmed(t: &str) -> (r: Architecture)
    ensures
        r == architecture_for(t@),
        chosen_option(t@, 2) is None ==> r == Architecture::X86,
{
    match option_number(t, 2) {
        Some(2) => Architecture::X64,
        _ => Architecture::X86,
    }
}

/// The build type chosen by an answer that has been trimmed.
pub fn build_type_from_trimmed(t: &str) -> (r: BuildType)
    ensures
        r == build_type_for(t@),
        chosen_option(t@, 3) is None ==> r == BuildType::Release,
{
    match option_number(t, 3) {
        Some(2) => BuildType::DebugOptimized,
        Some(3) => BuildType::Debug,
        _ => BuildType::Release,
    }
}

/// The stream chosen by a line of input.
pub fn parse_stream(line: &str) -> (r: Stream)
    ensures
        r == stream_for(trimmed(line@)),
{
    stream_from_trimmed(trim_answer(line))
}

/// The architecture chosen by a line of input.
pub fn parse_architecture(line: &str) -> (r: Architecture)
    ensures
        r == architecture_for(trimmed(line@)),
{
    architecture_from_trimmed(trim_answer(line))
}

/// The build type chosen by a line of input.
pub fn parse_build_type(line: &str) -> (r: BuildType)
    ensures
        r == build_type_for(trimmed(line@)),
{
    build_type_from_trimmed(trim_answer(line))
}

/// The selection made by the three lines of input, in prompt order.
pub fn selection_from_answers(stream_line: &str, arch_line: &str, type_line: &str) -> (r:
    BuildSelection)
    ensures
        r.stream == stream_for(trimmed(stream_line@)),
        r.architecture == architecture_for(trimmed(arch_line@)),
        r.build_type == build_type_for(trimmed(type_line@)),
{
    BuildSelection {
        stream: parse_stream(stream_line),
        architecture: parse_architecture(arch_line),
        build_type: parse_build_type(type_line),
    }
}

/// An answer that names no option selects the prompt's default: stable,
/// 32-bit, release. Empty answers and answers that are not numerals name no
/// option at any prompt.
pub proof fn lemma_unrecognised_answer_selects_defaults(t: Seq<char>)
    ensures
        chosen_option(t, 2) is None ==> stream_for(t) == Stream::Stable,
        chosen_option(t, 2) is None ==> architecture_for(t) == Architecture::X86,
        chosen_option(t, 3) is None ==> build_type_for(t) == BuildType::Release,
        !is_numeral(t) ==> chosen_option(t, 2) is None && chosen_option(t, 3) is None,
        t.len() == 0 ==> !is_numeral(t),
{
}

/// A line of white space alone, the empty line included, selects the
/// default at every prompt.
pub proof fn lemma_blank_line_selects_defaults(line: Seq<char>)
    requires
        forall|i: int| 0 <= i < line.len() ==> is_white_space(#[trigger] line[i]),
    ensures
        stream_for(trimmed(line)) == Stream::Stable,
        architecture_for(trimmed(line)) == Architecture::X86,
        build_type_for(trimmed(line)) == BuildType::Release,
{
    lemma_blank_line_trims_to_nothing(line);
}

} // verus!
