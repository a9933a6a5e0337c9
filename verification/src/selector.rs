//! What the interactive region selector is given and what its answer means.

use vstd::prelude::*;
use vstd::string::*;

verus! {

/// The program that lets the user pick a region.
pub fn selector_program() -> (name: &'static str)
    ensures
        name@ == "slurp"@,
{
    "slurp"
}

/// The selector's arguments: its background colour and its border colour.
pub open spec fn selector_argument_texts() -> Seq<Seq<char>> {
    seq!["-b"@, "282a3666"@, "-c"@, "ff79c6"@]
}

/// The views of a list of strings.
pub open spec fn texts(v: Seq<String>) -> Seq<Seq<char>> {
    v.map_values(|s: String| s@)
}

/// The arguments with which the selector is started.
pub fn selector_arguments() -> (arguments: Vec<String>)
    ensures
        texts(arguments@) == selector_argument_texts(),
{
    let mut arguments: Vec<String> = Vec::new();
    arguments.push(String::from_str("-b"));
    arguments.push(String::from_str("282a3666"));
    arguments.push(String::from_str("-c"));
    arguments.push(String::from_str("ff79c6"));
    assert(texts(arguments@) =~= selector_argument_texts());
    arguments
}

/// The first `k` of `lines`, with a line feed between each two of them and
/// none at either end.
pub open spec fn joined_lines(lines: Seq<Seq<char>>, k: nat) -> Seq<char>
    decreases k,
{
    if k == 0 || k > lines.len() {
        Seq::empty()
    } else if k == 1 {
        lines[0]
    } else {
        joined_lines(lines, (k - 1) as nat) + seq!['\n'] + lines[k - 1]
    }
}

/// What is written to the selector: the geometries of the windows it may snap
/// to, one per line.
pub fn selector_input(geometries: &Vec<String>) -> (input: String)
    ensures
        input@ == joined_lines(texts(geometries@), geometries@.len()),
{
    let mut input = String::new();
    let mut i: usize = 0;
    proof {
        assert(input@ =~= joined_lines(texts(geometries@), 0));
    }
    while i < geometries.len()
        invariant
            i <= geometries.len(),
            input@ == joined_lines(texts(geometries@), i as nat),
        decreases geometries.len() - i,
    {
        if i > 0 {
            input.append("\n");
        }
        input.append(geometries[i].as_str());
        proof {
            reveal_strlit("\n");
            assert(texts(geometries@)[i as int] == geometries@[i as int]@);
            assert(input@ =~= joined_lines(texts(geometries@), (i + 1) as nat));
        }
        i += 1;
    }
    input
}

/// A character with the Unicode property White_Space.
pub open spec fn is_white_space(c: char) -> bool {
    let u = c as u32;
    (0x09 <= u <= 0x0D) || u == 0x20 || u == 0x85 || u == 0xA0 || u == 0x1680 || (0x2000 <= u
        <= 0x200A) || u == 0x2028 || u == 0x2029 || u == 0x202F || u == 0x205F || u == 0x3000
}

/// The number of white-space characters at the start of `s`.
pub open spec fn leading_space(s: Seq<char>) -> nat
    decreases s.len(),
{
    if s.len() > 0 && is_white_space(s[0]) {
        1 + leading_space(s.drop_first())
    } else {
        0
    }
}

/// The number of white-space characters at the end of `s`.
pub open spec fn trailing_space(s: Seq<char>) -> nat
    decreases s.len(),
{
    if s.len() > 0 && is_white_space(s.last()) {
        1 + trailing_space(s.drop_last())
    } else {
        0
    }
}

/// `s` without the white space at its start and at its end.
pub open spec fn trimmed(s: Seq<char>) -> Seq<char> {
    let rest = s.skip(leading_space(s) as int);
    rest.take(rest.len() - trailing_space(rest))
}

/// `str::trim` of the standard library. The contract claims what its
/// documentation says: the result is the argument without its leading and
/// trailing white space, white space being the characters with the Unicode
/// property White_Space.
#[verifier::external_body]
fn trim<'a>(s: &'a str) -> (t: &'a str)
    ensures
        t@ == trimmed(s@),
{
    s.trim()
}

/// What the selector's answer means. No output at all means that the user
/// cancelled. Any other output is the chosen geometry, handed on as printed
/// but for the white space round it, and not examined further.
pub fn parse_selection(output: &str) -> (selection: Option<String>)
    ensures
        output@.len() == 0 ==> selection is None,
        output@.len() > 0 ==> selection is Some && selection->0@ == trimmed(output@),
{
    if output.is_empty() {
        None
    } else {
        Some(trim(output).to_owned())
    }
}

} // verus!
