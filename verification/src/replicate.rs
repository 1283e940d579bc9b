//! The pure logic of the test-fixture duplicator: command-line settings,
//! the renaming of a copied file, and the per-line amendment that makes
//! each copy's identifying fields unique. Reading and writing the files
//! themselves is the caller's business.

use crate::text;
use vstd::prelude::*;
use vstd::string::StrSliceExecFns;
use vstd::string::StringExecFns;

verus! {

/// Settings of the duplicator: how many copies, and where from and to.
pub struct Config {
    pub dup_size: String,
    pub src: String,
    pub dst: String,
}

impl Config {
    /// The first three arguments after the program name, in order: copy
    /// count, source directory, destination directory.
    pub fn build(args: &Vec<String>) -> (r: Result<Config, &'static str>)
        ensures
            args@.len() <= 3 ==> (r matches Err(m) && m@ == "not enough arguments"@),
            args@.len() > 3 ==> (r matches Ok(c) && c.dup_size == args@[1] && c.src == args@[2]
                && c.dst == args@[3]),
    {
        if args.len() <= 3 {
            return Err("not enough arguments");
        }
        let dup_size = args[1].clone();
        let src = args[2].clone();
        let dst = args[3].clone();
        Ok(Config { dup_size, src, dst })
    }
}

/// A file name with `insert` put after the base name and before the
/// extensions: everything up to the first dot, then `insert`, then the rest.
pub open spec fn spec_replicate_file_name(name: Seq<char>, insert: Seq<char>) -> Seq<char> {
    match text::find_from(name, seq!['.'], 0) {
        Some(i) => name.subrange(0, i) + insert + name.subrange(i, name.len() as int),
        None => name + insert,
    }
}

/// Insert the given string after the file base name and before the
/// extensions: with ".replicate1", "ubi-9.3.json" becomes
/// "ubi-9.replicate1.3.json".
pub fn replicate_file_name(file_name: &str, insert: &str) -> (r: String)
    ensures
        r@ == spec_replicate_file_name(file_name@, insert@),
{
    proof {
        reveal_strlit(".");
        assert("."@ =~= seq!['.']);
    }
    match text::find_sub(file_name, ".") {
        Some(i) => {
            let n = file_name.unicode_len();
            proof {
                text::lemma_find_from_some(file_name@, seq!['.'], 0, i as int);
            }
            let mut out = String::from_str(file_name.substring_char(0, i));
            out.append(insert);
            out.append(file_name.substring_char(i, n));
            out
        },
        None => {
            let mut out = String::from_str(file_name);
            out.append(insert);
            out
        },
    }
}

/// The separator between a line's key and its value.
pub open spec fn sep_colon_space() -> Seq<char> {
    seq![':', ' ']
}

/// The value part of a line: the text between the first ": " and the next
/// ": " after it, or the end of the line.
pub open spec fn spec_remainder(line: Seq<char>) -> Seq<char>
    recommends
        text::find_from(line, sep_colon_space(), 0) is Some,
{
    let start = text::find_from(line, sep_colon_space(), 0).unwrap() + 2;
    match text::find_from(line, sep_colon_space(), start) {
        Some(j) => line.subrange(start, j),
        None => line.subrange(start, line.len() as int),
    }
}

/// The line with copy number `index` worked into its value: within the
/// value part, every `",` becomes `-<value><index>",`, and every occurrence
/// of the old value part in the line is replaced by the amended one.
pub open spec fn spec_amend(line: Seq<char>, value: Seq<char>, index: int) -> Seq<char> {
    let rem = spec_remainder(line);
    let replacement = seq!['-'] + value + text::decimal_rep(index) + seq!['"', ','];
    let new_rem = text::replace_all_spec(rem, seq!['"', ','], replacement);
    if rem.len() == 0 {
        line
    } else {
        text::replace_all_spec(line, rem, new_rem)
    }
}

/// Amend a `key: "value",` line for copy number `index`.
pub fn replace(line: &str, value: &str, index: u32) -> (r: String)
    requires
        text::find_from(line@, sep_colon_space(), 0) is Some,
    ensures
        r@ == spec_amend(line@, value@, index as int),
{
    proof {
        reveal_strlit(": ");
        assert(": "@ =~= sep_colon_space());
    }
    let n = line.unicode_len();
    let first = match text::find_sub(line, ": ") {
        Some(i) => i,
        None => {
            proof {
                assert(false);
            }
            0
        },
    };
    proof {
        text::lemma_find_from_some(line@, sep_colon_space(), 0, first as int);
    }
    let start = first + 2;
    let rem_end = match text::find_sub_from(line, ": ", start) {
        Some(j) => {
            proof {
                text::lemma_find_from_some(line@, sep_colon_space(), start as int, j as int);
            }
            j
        },
        None => n,
    };
    let rem = line.substring_char(start, rem_end);

    proof {
        reveal_strlit("\",");
        assert("\","@ =~= seq!['"', ',']);
        reveal_strlit("-");
    }
    let mut replacement = String::from_str("-");
    replacement.append(value);
    let digits = text::decimal_string(index as u64);
    replacement.append(digits.as_str());
    replacement.append("\",");
    proof {
        assert(replacement@ =~= seq!['-'] + value@ + text::decimal_rep(index as int) + seq![
            '"',
            ',',
        ]);
    }
    let new_rem = text::replace_all(rem, "\",", replacement.as_str());
    if rem.unicode_len() == 0 {
        String::from_str(line)
    } else {
        text::replace_all(line, rem, new_rem.as_str())
    }
}

/// The four line shapes whose value identifies a document: the name and
/// namespace of an SPDX document, the serial number and version of a
/// CycloneDX document.
pub open spec fn spec_is_identity_line(line: Seq<char>) -> bool {
    ||| text::match_at(line, "  \"name\":"@, 0)
    ||| text::match_at(line, "  \"documentNamespace\":"@, 0)
    ||| text::match_at(line, "    \"serialNumber\":"@, 0)
    ||| text::match_at(line, "    \"version\":"@, 0)
}

/// A line of a copied document: identity lines are amended with the copy
/// number, every other line is kept as it is.
pub open spec fn spec_transform_line(line: Seq<char>, index: int) -> Seq<char> {
    if spec_is_identity_line(line) {
        spec_amend(line, "replicate"@, index)
    } else {
        line
    }
}

/// Rewrite one line of a copied document for copy number `index`.
pub fn transform_line(line: &str, index: u32) -> (r: String)
    requires
        spec_is_identity_line(line@) ==> text::find_from(line@, sep_colon_space(), 0) is Some,
    ensures
        r@ == spec_transform_line(line@, index as int),
{
    if text::starts_with(line, "  \"name\":") || text::starts_with(line, "  \"documentNamespace\":")
        || text::starts_with(line, "    \"serialNumber\":") || text::starts_with(
        line,
        "    \"version\":",
    ) {
        replace(line, "replicate", index)
    } else {
        String::from_str(line)
    }
}

/// The name of the directory holding copy number `index`.
pub fn batch_dir_name(index: u32) -> (r: String)
    ensures
        r@ == "batch"@ + text::decimal_rep(index as int),
{
    let mut out = String::from_str("batch");
    let digits = text::decimal_string(index as u64);
    out.append(digits.as_str());
    out
}

/// The insertion that marks copy number `index` in a file name.
pub fn replicate_suffix(index: u32) -> (r: String)
    ensures
        r@ == ".replicate"@ + text::decimal_rep(index as int),
{
    let mut out = String::from_str(".replicate");
    let digits = text::decimal_string(index as u64);
    out.append(digits.as_str());
    out
}

} // verus!
