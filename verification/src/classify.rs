//! Output classification: each captured output line is trimmed and bucketed
//! as installed, missing, or ignored, by substring matching on the probe
//! tags.  The "not installed" test comes before the "installed" test: the
//! missing tag contains the installed tag, so the order is load-bearing.

use vstd::prelude::*;
use crate::text::{contains_seq, contains_sub, lines_spec, split_lines, trim, trim_spec};

verus! {

/// How one trimmed output line is classified.
#[derive(Debug, PartialEq, Eq, Structural, Clone, Copy)]
pub enum LineClass {
    Installed,
    Missing,
    Ignored,
}

/// The class of a trimmed line: empty lines and lines carrying neither tag
/// are ignored; a line carrying "not installed" is missing; any other line
/// carrying "installed" is installed.
pub open spec fn line_class(t: Seq<char>) -> LineClass {
    if t.len() == 0 {
        LineClass::Ignored
    } else if contains_seq(t, "not installed"@) {
        LineClass::Missing
    } else if contains_seq(t, "installed"@) {
        LineClass::Installed
    } else {
        LineClass::Ignored
    }
}

/// The trimmed forms of the lines of class `c` among `ls`, in order.
pub open spec fn bucket(ls: Seq<Seq<char>>, c: LineClass) -> Seq<Seq<char>>
    decreases ls.len(),
{
    if ls.len() == 0 {
        Seq::empty()
    } else {
        let init = bucket(ls.drop_last(), c);
        let t = trim_spec(ls.last());
        if line_class(t) == c {
            init.push(t)
        } else {
            init
        }
    }
}

/// The installed lines of a run's raw output, trimmed, in output order.
pub open spec fn installed_spec(raw: Seq<char>) -> Seq<Seq<char>> {
    bucket(lines_spec(raw), LineClass::Installed)
}

/// The missing lines of a run's raw output, trimmed, in output order.
pub open spec fn missing_spec(raw: Seq<char>) -> Seq<Seq<char>> {
    bucket(lines_spec(raw), LineClass::Missing)
}

/// The classification of one run's captured output.
pub struct ClassifiedReport {
    pub installed: Vec<String>,
    pub missing: Vec<String>,
}

/// Classify captured output line by line.  Lines that are empty after
/// trimming or carry neither tag are dropped as incidental output.
pub fn classify(raw: &str) -> (r: ClassifiedReport)
    ensures
        r.installed.deep_view() == installed_spec(raw@),
        r.missing.deep_view() == missing_spec(raw@),
        r.installed@.len() + r.missing@.len() <= usize::MAX,
{
    let lines = split_lines(raw);
    let mut installed: Vec<String> = Vec::new();
    let mut missing: Vec<String> = Vec::new();
    let mut i: usize = 0;
    while i < lines.len()
        invariant
            0 <= i <= lines@.len(),
            lines.deep_view() == lines_spec(raw@),
            installed.deep_view() == bucket(
                lines.deep_view().subrange(0, i as int),
                LineClass::Installed,
            ),
            missing.deep_view() == bucket(
                lines.deep_view().subrange(0, i as int),
                LineClass::Missing,
            ),
            installed@.len() + missing@.len() <= i,
        decreases lines@.len() - i,
    {
        let ghost pre = lines.deep_view().subrange(0, i as int);
        let ghost cur = lines.deep_view().subrange(0, i + 1);
        proof {
            assert(cur.drop_last() =~= pre);
            assert(cur.last() == lines[i as int]@);
        }
        let ghost installed_old = installed.deep_view();
        let ghost missing_old = missing.deep_view();
        let t = trim(lines[i].as_str());
        if !t.is_empty() {
            if contains_sub(t, "not installed") {
                missing.push(String::from_str(t));
                proof {
                    assert(missing.deep_view() =~= missing_old.push(t@));
                }
            } else if contains_sub(t, "installed") {
                installed.push(String::from_str(t));
                proof {
                    assert(installed.deep_view() =~= installed_old.push(t@));
                }
            }
        }
        i += 1;
    }
    proof {
        assert(lines.deep_view().subrange(0, lines@.len() as int) =~= lines.deep_view());
    }
    ClassifiedReport { installed, missing }
}

/// The missing tag contains the installed tag as a substring, which is why
/// the classifier must test for it first.
pub proof fn lemma_tag_overlap()
    ensures
        contains_seq("not installed"@, "installed"@),
{
    reveal_strlit("not installed");
    reveal_strlit("installed");
    assert("not installed"@.subrange(4, 4 + "installed"@.len() as int) =~= "installed"@);
}

/// A substring of a substring is a substring.
pub proof fn lemma_contains_trans(a: Seq<char>, b: Seq<char>, c: Seq<char>)
    requires
        contains_seq(a, b),
        contains_seq(b, c),
    ensures
        contains_seq(a, c),
{
    let i = choose|i: int|
        0 <= i && i + b.len() <= a.len() && #[trigger] a.subrange(i, i + b.len()) == b;
    let j = choose|j: int|
        0 <= j && j + c.len() <= b.len() && #[trigger] b.subrange(j, j + c.len()) == c;
    assert(a.subrange(i + j, i + j + c.len()) =~= c) by {
        assert forall|k: int| 0 <= k < c.len() implies a.subrange(i + j, i + j + c.len())[k]
            == c[k] by {
            assert(b[j + k] == a.subrange(i, i + b.len())[j + k]);
            assert(c[k] == b.subrange(j, j + c.len())[k]);
        };
    };
}

/// Classification partitions the lines: every trimmed line has exactly one
/// class; a line carrying the "not installed" tag is always classified as
/// missing and never as installed, even though it carries the "installed"
/// tag as well; empty lines are ignored.
pub proof fn lemma_line_partition(t: Seq<char>)
    ensures
        line_class(t) == LineClass::Installed || line_class(t) == LineClass::Missing
            || line_class(t) == LineClass::Ignored,
        contains_seq(t, "not installed"@) ==> line_class(t) == LineClass::Missing,
        line_class(t) == LineClass::Installed ==> contains_seq(t, "installed"@)
            && !contains_seq(t, "not installed"@),
        line_class(t) == LineClass::Missing ==> contains_seq(t, "installed"@),
        t.len() == 0 ==> line_class(t) == LineClass::Ignored,
{
    reveal_strlit("not installed");
    if contains_seq(t, "not installed"@) {
        lemma_tag_overlap();
        lemma_contains_trans(t, "not installed"@, "installed"@);
    }
}

/// Every line lands in the bucket of its own class: classification loses no
/// tagged line.
pub proof fn lemma_bucket_complete(ls: Seq<Seq<char>>, j: int)
    requires
        0 <= j < ls.len(),
    ensures
        bucket(ls, line_class(trim_spec(ls[j]))).contains(trim_spec(ls[j])),
    decreases ls.len(),
{
    let t = trim_spec(ls[j]);
    let c = line_class(t);
    if j == ls.len() - 1 {
        let init = bucket(ls.drop_last(), c);
        assert(bucket(ls, c) == init.push(t));
        assert(bucket(ls, c)[init.len() as int] == t);
    } else {
        lemma_bucket_complete(ls.drop_last(), j);
        let init = bucket(ls.drop_last(), c);
        let k = choose|k: int| 0 <= k < init.len() && init[k] == t;
        assert(bucket(ls, c)[k] == t);
    }
}

/// The installed and missing buckets together never hold more lines than
/// were classified: no line lands in both.
pub proof fn lemma_buckets_partition_len(ls: Seq<Seq<char>>)
    ensures
        bucket(ls, LineClass::Installed).len() + bucket(ls, LineClass::Missing).len() <= ls.len(),
    decreases ls.len(),
{
    if ls.len() > 0 {
        lemma_buckets_partition_len(ls.drop_last());
    }
}

/// A bucket holds only lines of its own class: no line is double-counted
/// across the installed and missing buckets.
pub proof fn lemma_bucket_sound(ls: Seq<Seq<char>>, c: LineClass, k: int)
    requires
        0 <= k < bucket(ls, c).len(),
    ensures
        line_class(bucket(ls, c)[k]) == c,
    decreases ls.len(),
{
    let init = bucket(ls.drop_last(), c);
    if k < init.len() {
        lemma_bucket_sound(ls.drop_last(), c, k);
    }
}

} // verus!
