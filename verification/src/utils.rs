//! Helpers around the commands: times as text, and the packing of the
//! current directory for an upload.

use vstd::prelude::*;
use vstd::string::*;
use crate::text::{join2, join3, owned};

verus! {

/// A moment as `chrono` writes it in UTC with the pattern
/// `%Y-%m-%d %H:%M:%S`, given in seconds since the start of 1970; `None`
/// where `chrono` has no date for the moment.
pub uninterp spec fn utc_timestamp_text(secs: i64) -> Option<Seq<char>>;

/// `Utc.timestamp_opt(secs, 0)`, its single result formatted with
/// `DateTime::format`: the text depends on the number of seconds alone, and
/// there is none where the number is out of `chrono`'s range.
#[verifier::external_body]
pub(crate) fn format_utc_timestamp(secs: i64) -> (r: Option<String>)
    ensures
        match r {
            Some(text) => utc_timestamp_text(secs) == Some(text@),
            None => utc_timestamp_text(secs) is None,
        },
{
    chrono::TimeZone::timestamp_opt(&chrono::Utc, secs, 0)
        .single()
        .map(|time| time.format("%Y-%m-%d %H:%M:%S").to_string())
}

/// A number of seconds that stands for no date.
#[derive(Clone, Copy, Debug, PartialEq, Eq, Structural)]
pub struct InvalidTimestamp {
    pub secs: i64,
}

/// A moment, given in seconds since the start of 1970, as date and time of
/// day in UTC.
pub fn strf_timestamp(secs: i64) -> (r: Result<String, InvalidTimestamp>)
    ensures
        match r {
            Ok(text) => utc_timestamp_text(secs) == Some(text@),
            Err(error) => utc_timestamp_text(secs) is None && error.secs == secs,
        },
{
    match format_utc_timestamp(secs) {
        Some(text) => Ok(text),
        None => Err(InvalidTimestamp { secs }),
    }
}

/// How the current branch of a directory is packed into an archive.
#[derive(Debug)]
pub struct ArchivePlan {
    /// The name of the archive without its ending, also the directory that
    /// its entries lie under.
    pub archive_name: String,
    /// The path of the archive.
    pub output_file: String,
    /// The arguments that `git` is run with.
    pub arguments: Vec<String>,
}

/// An `ArchivePlan` as a mathematical value.
pub struct ArchivePlanModel {
    pub archive_name: Seq<char>,
    pub output_file: Seq<char>,
    pub arguments: Seq<Seq<char>>,
}

impl View for ArchivePlan {
    type V = ArchivePlanModel;

    open spec fn view(&self) -> ArchivePlanModel {
        ArchivePlanModel {
            archive_name: self.archive_name@,
            output_file: self.output_file@,
            arguments: Seq::new(self.arguments@.len(), |i: int| self.arguments@[i]@),
        }
    }
}

/// The name of the archive of a branch of a repository.
pub open spec fn archive_name_text(repo_name: Seq<char>, branch: Seq<char>) -> Seq<char> {
    repo_name + "-"@ + branch
}

/// The plan for packing a branch: the archive is named after repository and
/// branch, lies in the directory itself and holds one top directory of its
/// own name.
pub open spec fn archive_plan_model(
    current_dir: Seq<char>,
    repo_name: Seq<char>,
    branch: Seq<char>,
) -> ArchivePlanModel {
    let archive_name = archive_name_text(repo_name, branch);
    let output_file = current_dir + "/"@ + archive_name + ".zip"@;
    ArchivePlanModel {
        archive_name,
        output_file,
        arguments: seq![
            "archive"@,
            "--format=zip"@,
            "--prefix="@ + archive_name + "/"@,
            "-o"@,
            output_file,
            branch,
        ],
    }
}

/// Plans the packing of the current branch of the directory `current_dir`,
/// whose last part is `repo_name`.
pub fn git_archive_plan(current_dir: &str, repo_name: &str, branch: &str) -> (r: ArchivePlan)
    ensures
        r@ == archive_plan_model(current_dir@, repo_name@, branch@),
{
    let archive_name = join3(repo_name, "-", branch);
    let directory = join2(current_dir, "/");
    let output_file = join3(directory.as_str(), archive_name.as_str(), ".zip");
    let mut arguments: Vec<String> = Vec::new();
    arguments.push(owned("archive"));
    arguments.push(owned("--format=zip"));
    arguments.push(join3("--prefix=", archive_name.as_str(), "/"));
    arguments.push(owned("-o"));
    arguments.push(owned(output_file.as_str()));
    arguments.push(owned(branch));
    let plan = ArchivePlan { archive_name, output_file, arguments };
    assert(plan@.arguments =~= archive_plan_model(current_dir@, repo_name@, branch@).arguments);
    plan
}

} // verus!
