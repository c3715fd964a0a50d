use vstd::prelude::*;
use vstd::string::StrSliceExecFns;
use vstd::string::StringExecFns;
use crate::device::texts;

verus! {

/// What to do to learn the size of a device's image.
#[derive(Debug, PartialEq, Eq)]
pub enum SizeStep {
    /// The size text is already known; nothing is to be run.
    Known(String),
    /// Run this command line and read the size from what it prints.
    Measure(Vec<String>),
}

/// The command line that measures the directory named by `udid`: the
/// disk-usage utility, summarised and human-readable.
pub open spec fn measure_command(udid: Seq<char>) -> Seq<Seq<char>> {
    seq!["du"@, "-sh"@, udid]
}

/// Decides how the size of the image of `udid` is found, given whether an
/// entry of that name is present: an absent one has the fixed text
/// "Directory not found" and nothing is run for it.
pub fn size_step(udid: &str, present: bool) -> (step: SizeStep)
    ensures
        !present ==> (step matches SizeStep::Known(text) && text@ == "Directory not found"@),
        present ==> (step matches SizeStep::Measure(command) && texts(command@)
            == measure_command(udid@)),
{
    if present {
        let mut command: Vec<String> = Vec::new();
        command.push(String::from_str("du"));
        command.push(String::from_str("-sh"));
        command.push(String::from_str(udid));
        assert(texts(command@) =~= measure_command(udid@));
        SizeStep::Measure(command)
    } else {
        SizeStep::Known(String::from_str("Directory not found"))
    }
}

/// A character that ends the size field of a disk-usage line.
pub open spec fn ends_field(c: char) -> bool {
    c == '\t' || c == '\n'
}

/// `field` is the first field of `output`: the text before its first tab or
/// line end, or all of it where it holds neither.
pub open spec fn is_first_field(output: Seq<char>, field: Seq<char>) -> bool {
    &&& field.len() <= output.len()
    &&& field == output.take(field.len() as int)
    &&& forall|i: int| 0 <= i < field.len() ==> !ends_field(field[i])
    &&& field.len() < output.len() ==> ends_field(output[field.len() as int])
}

/// Only one text is the first field of a given output.
pub proof fn lemma_first_field_unique(output: Seq<char>, a: Seq<char>, b: Seq<char>)
    requires
        is_first_field(output, a),
        is_first_field(output, b),
    ensures
        a == b,
{
    if a.len() < b.len() {
        assert(b[a.len() as int] == output[a.len() as int]);
    }
    if b.len() < a.len() {
        assert(a[b.len() as int] == output[b.len() as int]);
    }
    assert(a =~= b);
}

/// Reads the size from what the disk-usage utility printed: its first field.
pub fn size_from_output(output: &str) -> (size: String)
    ensures
        is_first_field(output@, size@),
{
    let n: usize = output.unicode_len();
    let mut end: usize = 0;
    let mut found: bool = false;
    while end < n && !found
        invariant
            n == output@.len(),
            end <= n,
            forall|i: int| 0 <= i < end ==> !ends_field(output@[i]),
            found ==> end < n && ends_field(output@[end as int]),
        decreases (n - end) + (if found { 0int } else { 1int }),
    {
        let c = output.get_char(end);
        if c == '\t' || c == '\n' {
            found = true;
        } else {
            end = end + 1;
        }
    }
    String::from_str(output.substring_char(0, end))
}

} // verus!
