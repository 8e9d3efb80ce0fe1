//! Command source resolution: the ordered list of command names to probe,
//! taken from a command file's contents or from the explicit argument list.

use vstd::prelude::*;
use crate::CheckError;
use crate::text::{lines_spec, trim, trim_spec, split_lines};

verus! {

/// A trimmed file line names a command unless it is empty or a `#` comment.
pub open spec fn keep_line(t: Seq<char>) -> bool {
    t.len() > 0 && t[0] != '#'
}

/// The trimmed command names among `ls`, in order: each line is trimmed, and
/// lines that are empty or comments after trimming are dropped.
pub open spec fn kept_commands(ls: Seq<Seq<char>>) -> Seq<Seq<char>>
    decreases ls.len(),
{
    if ls.len() == 0 {
        Seq::empty()
    } else {
        let init = kept_commands(ls.drop_last());
        let t = trim_spec(ls.last());
        if keep_line(t) {
            init.push(t)
        } else {
            init
        }
    }
}

/// The command names a file's contents yield.
pub open spec fn parse_spec(contents: Seq<char>) -> Seq<Seq<char>> {
    kept_commands(lines_spec(contents))
}

/// Parse a command file: one command name per line, trimmed; blank lines and
/// `#` comments are skipped; order is preserved and duplicates are kept.
pub fn parse_command_lines(contents: &str) -> (r: Vec<String>)
    ensures
        r.deep_view() == parse_spec(contents@),
{
    let lines = split_lines(contents);
    let mut r: Vec<String> = Vec::new();
    let mut i: usize = 0;
    while i < lines.len()
        invariant
            0 <= i <= lines@.len(),
            lines.deep_view() == lines_spec(contents@),
            r.deep_view() == kept_commands(lines.deep_view().subrange(0, i as int)),
        decreases lines@.len() - i,
    {
        let ghost pre = lines.deep_view().subrange(0, i as int);
        let ghost cur = lines.deep_view().subrange(0, i + 1);
        proof {
            assert(cur.drop_last() =~= pre);
            assert(cur.last() == lines[i as int]@);
        }
        let ghost r_old = r.deep_view();
        let t = trim(lines[i].as_str());
        if t.unicode_len() > 0 && t.get_char(0) != '#' {
            r.push(String::from_str(t));
            proof {
                assert(r.deep_view() =~= r_old.push(t@));
            }
        }
        i += 1;
    }
    proof {
        assert(lines.deep_view().subrange(0, lines@.len() as int) =~= lines.deep_view());
    }
    r
}

/// The resolved command list: the file's parsed lines when contents are
/// given, otherwise the explicit list, verbatim and in order.
pub open spec fn resolved_spec(file: Option<Seq<char>>, cli: Seq<Seq<char>>) -> Seq<Seq<char>> {
    match file {
        Some(contents) => parse_spec(contents),
        None => cli,
    }
}

/// Resolve the ordered command list from an optional command file's contents
/// and the explicit command list.  An empty result is a configuration error:
/// no container may be launched with an empty probe set.
pub fn resolve_commands(file_contents: Option<&str>, cli_commands: Vec<String>) -> (r: Result<
    Vec<String>,
    CheckError,
>)
    ensures
        ({
            let resolved = resolved_spec(file_contents.deep_view(), cli_commands.deep_view());
            match r {
                Ok(cmds) => cmds.deep_view() == resolved && resolved.len() > 0,
                Err(e) => e == CheckError::NoCommands && resolved.len() == 0,
            }
        }),
{
    let cmds = match file_contents {
        Some(contents) => parse_command_lines(contents),
        None => cli_commands,
    };
    if cmds.len() == 0 {
        Err(CheckError::NoCommands)
    } else {
        Ok(cmds)
    }
}

} // verus!
