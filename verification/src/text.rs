use vstd::prelude::*;
use vstd::string::StrSliceExecFns;
use vstd::string::StringExecFns;

verus! {

/// Position just after the last `.` of `s`, or 0 where `s` holds none.
pub open spec fn suffix_start(s: Seq<char>) -> int
    decreases s.len(),
{
    if s.len() == 0 {
        0
    } else if s.last() == '.' {
        s.len() as int
    } else {
        suffix_start(s.drop_last())
    }
}

/// The part of a runtime identifier that is displayed: what follows its last
/// `.`, or all of it where it holds none.
pub open spec fn runtime_suffix(s: Seq<char>) -> Seq<char> {
    s.subrange(suffix_start(s), s.len() as int)
}

/// `s` holds no `.`.
pub open spec fn dotless(s: Seq<char>) -> bool {
    forall|i: int| 0 <= i < s.len() ==> s[i] != '.'
}

/// Where `suffix_start` lies: within the text, directly behind a `.` unless
/// it is 0, and with no `.` behind it.
pub proof fn lemma_suffix_start(s: Seq<char>)
    ensures
        0 <= suffix_start(s) <= s.len(),
        suffix_start(s) > 0 ==> s[suffix_start(s) - 1] == '.',
        forall|i: int| suffix_start(s) <= i < s.len() ==> s[i] != '.',
    decreases s.len(),
{
    if s.len() > 0 && s.last() != '.' {
        let front = s.drop_last();
        lemma_suffix_start(front);
        assert forall|i: int| suffix_start(s) <= i < s.len() implies s[i] != '.' by {
            if i < front.len() {
                assert(front[i] != '.');
            }
        }
    }
}

/// The displayed runtime of a dotted identifier is the text after its last
/// `.`: the identifier is some head, a `.`, and the dotless suffix.
pub proof fn lemma_suffix_of_dotted(head: Seq<char>, tail: Seq<char>)
    requires
        dotless(tail),
    ensures
        runtime_suffix(head + seq!['.'] + tail) == tail,
    decreases tail.len(),
{
    let s = head + seq!['.'] + tail;
    if tail.len() == 0 {
        assert(s.last() == '.');
        assert(runtime_suffix(s) =~= tail);
    } else {
        assert(s.last() == tail.last());
        assert(s.drop_last() =~= head + seq!['.'] + tail.drop_last());
        lemma_suffix_of_dotted(head, tail.drop_last());
        assert(suffix_start(s) == suffix_start(s.drop_last()));
        lemma_suffix_start(s.drop_last());
        assert(runtime_suffix(s.drop_last()) == tail.drop_last());
        assert(suffix_start(s.drop_last()) == head.len() + 1) by {
            assert(runtime_suffix(s.drop_last()).len() == tail.len() - 1);
        }
        assert(runtime_suffix(s) =~= tail);
    }
}

/// The displayed runtime of an identifier without a `.` is the identifier.
pub proof fn lemma_suffix_of_dotless(s: Seq<char>)
    requires
        dotless(s),
    ensures
        runtime_suffix(s) == s,
    decreases s.len(),
{
    if s.len() > 0 {
        lemma_suffix_of_dotless(s.drop_last());
        lemma_suffix_start(s.drop_last());
        assert(suffix_start(s.drop_last()) == 0) by {
            assert(runtime_suffix(s.drop_last()).len() == s.len() - 1);
        }
    }
    assert(runtime_suffix(s) =~= s);
}

/// Extracts the displayed runtime from a runtime identifier.
pub fn runtime_suffix_of(runtime: &str) -> (suffix: String)
    ensures
        suffix@ == runtime_suffix(runtime@),
        dotless(suffix@),
        suffix@.len() < runtime@.len() ==> runtime@[runtime@.len() - suffix@.len() - 1] == '.',
        dotless(runtime@) ==> suffix@ == runtime@,
{
    let n: usize = runtime.unicode_len();
    let mut start: usize = n;
    let mut found: bool = false;
    while start > 0 && !found
        invariant
            start <= n,
            n == runtime@.len(),
            forall|i: int| start <= i < n ==> runtime@[i] != '.',
            found ==> start > 0 && runtime@[start - 1] == '.',
        decreases start + (if found { 0int } else { 1int }),
    {
        if runtime.get_char(start - 1) == '.' {
            found = true;
        } else {
            start = start - 1;
        }
    }
    proof {
        lemma_suffix_start(runtime@);
        let k = suffix_start(runtime@);
        if k < start {
            assert(runtime@[start - 1] == '.');
        }
        if k > start {
            assert(runtime@[k - 1] == '.');
        }
        assert(k == start);
        if dotless(runtime@) {
            lemma_suffix_of_dotless(runtime@);
        }
    }
    String::from_str(runtime.substring_char(start, n))
}

/// `n` spaces.
pub open spec fn spaces(n: nat) -> Seq<char> {
    Seq::new(n, |i: int| ' ')
}

/// `s` left-aligned in a column of `width` characters: followed by spaces up
/// to the width, and unchanged where it is at least as long.
pub open spec fn padded(s: Seq<char>, width: nat) -> Seq<char> {
    if s.len() >= width {
        s
    } else {
        s + spaces((width - s.len()) as nat)
    }
}

/// Left-aligns `s` in a column of `width` characters.
pub fn pad_right(s: &str, width: usize) -> (cell: String)
    ensures
        cell@ == padded(s@, width as nat),
{
    let n: usize = s.unicode_len();
    let mut cell = String::from_str(s);
    let mut filled: usize = n;
    while filled < width
        invariant
            n == s@.len(),
            n <= filled,
            filled <= width || filled == n,
            cell@ == s@ + spaces((filled - n) as nat),
        decreases width - filled,
    {
        proof {
            reveal_strlit(" ");
            assert(" "@ =~= seq![' ']);
        }
        cell.append(" ");
        filled = filled + 1;
        assert(cell@ =~= s@ + spaces((filled - n) as nat));
    }
    assert(cell@ =~= padded(s@, width as nat));
    cell
}

} // verus!
